//! Laws of the ledger, proved once and for all from the operation contracts.

use vstd::prelude::*;

use crate::ledger::approved;
use crate::ledger::delegated;
use crate::ledger::transfer_ok;
use crate::ledger::transferred;
use crate::ledger::Erc20;
use crate::AccountId;
use crate::Balance;

verus! {

/// Conservation on transfer: for any ledger on which a transfer of `value`
/// from `from` to `to` could go through and did, the pair's combined balance
/// is what it was before the call, the debited side shrank by exactly `value`
/// and the credited side grew by exactly `value` — and when `from == to` the
/// two cancel out, leaving the balance as it was.
pub proof fn lemma_transfer_conserves(
    pre: Erc20,
    post: Erc20,
    from: AccountId,
    to: AccountId,
    value: Balance,
)
    requires
        transfer_ok(pre, from, to, value),
        transferred(pre, post, from, to, value),
    ensures
        post.bal(from) as int + post.bal(to) as int == pre.bal(from) as int + pre.bal(to) as int,
        from != to ==> post.bal(from) as int == pre.bal(from) as int - value as int,
        from != to ==> post.bal(to) as int == pre.bal(to) as int + value as int,
        from == to ==> post.bal(from) == pre.bal(from),
{
}

/// Non-negative balances: every tracked balance lies in the unsigned amount
/// domain, so no committed operation can leave an account below zero. An
/// attempt to debit past a balance is refused as
/// [`crate::Error::InsufficientBalance`] with nothing changed, which the
/// transfer and burn contracts state.
pub proof fn lemma_balance_never_negative(l: Erc20, a: AccountId)
    ensures
        l.bal(a) >= 0,
{
}

/// Allowance overwrite under approve: approving `spender` for `v1` and then
/// for `v2` leaves the approval at `v2`, whatever `v1` was — overwrite, not
/// additive.
pub proof fn lemma_approve_overwrites(
    s0: Erc20,
    s1: Erc20,
    s2: Erc20,
    owner: AccountId,
    spender: AccountId,
    v1: Balance,
    v2: Balance,
)
    requires
        approved(s0, s1, owner, spender, v1),
        approved(s1, s2, owner, spender, v2),
    ensures
        s2.alw(owner, spender) == v2,
{
}

/// Delegated transfer respects the allowance: a committed delegated transfer
/// consumes exactly `value` of the approval `from` granted `caller`, and no
/// other approval moves.
pub proof fn lemma_delegated_transfer_spends_allowance(
    pre: Erc20,
    post: Erc20,
    caller: AccountId,
    from: AccountId,
    to: AccountId,
    value: Balance,
)
    requires
        delegated(pre, post, caller, from, to, value),
    ensures
        post.alw(from, caller) as int == pre.alw(from, caller) as int - value as int,
        forall|o: AccountId, s: AccountId|
            !(o == from && s == caller) ==> post.alw(o, s) == pre.alw(o, s),
{
}

} // verus!
