//! The account-balance ledger and its transfer/allowance state machine.
//!
//! An [`Erc20`] value owns the balance table, the allowance table, the
//! total-supply counter and a log of the change records a host would
//! broadcast. Every mutating operation takes the calling account's identity
//! as an explicit parameter, commits atomically or returns a typed error with
//! no state change, and appends at most one record to the log.

use vstd::prelude::*;

use crate::table::AllowanceTable;
use crate::table::BalanceTable;
use crate::AccountId;
use crate::Balance;

verus! {

/// Why an operation was refused. Refusal never changes state.
#[derive(Clone, Copy, Debug, PartialEq, Eq)]
pub enum Error {
    /// A debit asked for more than the account holds.
    InsufficientBalance,
    /// A delegated transfer asked for more than the spender is approved for.
    InsufficientAllowance,
    /// An addition would have exceeded the amount domain.
    ArithmeticOverflow,
}

/// A record of value moving between two accounts.
#[derive(Clone, Copy, Debug, PartialEq, Eq)]
pub struct Transfer {
    pub from: Option<AccountId>,
    pub to: Option<AccountId>,
    pub value: Balance,
}

/// A record of an owner granting a spender an approved amount.
#[derive(Clone, Copy, Debug, PartialEq, Eq)]
pub struct Approval {
    pub owner: Option<AccountId>,
    pub spender: Option<AccountId>,
    pub value: Balance,
}

/// A record of an account destroying part of its own balance.
#[derive(Clone, Copy, Debug, PartialEq, Eq)]
pub struct Burn {
    pub caller: Option<AccountId>,
    pub value: Balance,
}

/// A change record as it stands in the ledger's log.
#[derive(Clone, Copy, Debug, PartialEq, Eq)]
pub enum Event {
    Transfer(Transfer),
    Approval(Approval),
    Burn(Burn),
}

/// The record a successful transfer appends.
pub open spec fn transfer_event(from: AccountId, to: AccountId, value: Balance) -> Event {
    Event::Transfer(Transfer { from: Some(from), to: Some(to), value: value })
}

/// The record an approval appends.
pub open spec fn approval_event(owner: AccountId, spender: AccountId, value: Balance) -> Event {
    Event::Approval(Approval { owner: Some(owner), spender: Some(spender), value: value })
}

/// The record a successful burn appends.
pub open spec fn burn_event(caller: AccountId, value: Balance) -> Event {
    Event::Burn(Burn { caller: Some(caller), value: value })
}

/// The ledger: balances, allowances, the total-supply counter and the log of
/// change records.
pub struct Erc20 {
    total_supply: Balance,
    balances: BalanceTable,
    allowances: AllowanceTable,
    events: Vec<Event>,
}

impl Erc20 {
    /// The stored total-supply counter.
    pub closed spec fn supply(self) -> Balance {
        self.total_supply
    }

    /// The balance held by `account`, absence meaning zero.
    pub closed spec fn bal(self, account: AccountId) -> Balance {
        self.balances.at(account)
    }

    /// The amount `spender` is approved to move out of `owner`'s balance,
    /// absence meaning zero.
    pub closed spec fn alw(self, owner: AccountId, spender: AccountId) -> Balance {
        self.allowances.at(owner, spender)
    }

    /// The change records emitted so far, oldest first.
    pub closed spec fn log(self) -> Seq<Event> {
        self.events@
    }
}

/// Every account holds in `post` what it held in `pre`.
pub open spec fn same_balances(pre: Erc20, post: Erc20) -> bool {
    forall|a: AccountId| #![trigger post.bal(a)] post.bal(a) == pre.bal(a)
}

/// Every owner/spender pair carries in `post` the approval it carried in
/// `pre`.
pub open spec fn same_allowances(pre: Erc20, post: Erc20) -> bool {
    forall|o: AccountId, s: AccountId| #![trigger post.alw(o, s)] post.alw(o, s) == pre.alw(o, s)
}

/// Exactly `value` left `from` and arrived at `to`; every other balance is as
/// it was. When `from == to` the debit and the credit cancel out.
pub open spec fn moved_balance(
    pre: Erc20,
    post: Erc20,
    from: AccountId,
    to: AccountId,
    value: Balance,
) -> bool {
    forall|a: AccountId|
        #![trigger post.bal(a)]
        post.bal(a) as int == pre.bal(a) as int + (if a == to {
            value as int
        } else {
            0
        }) - (if a == from {
            value as int
        } else {
            0
        })
}

/// Exactly `value` of the approval `owner` granted `spender` was consumed;
/// every other approval is as it was.
pub open spec fn spent_allowance(
    pre: Erc20,
    post: Erc20,
    owner: AccountId,
    spender: AccountId,
    value: Balance,
) -> bool {
    forall|o: AccountId, s: AccountId|
        #![trigger post.alw(o, s)]
        post.alw(o, s) as int == pre.alw(o, s) as int - (if o == owner && s == spender {
            value as int
        } else {
            0
        })
}

/// The approval `owner` granted `spender` now reads `value`, whatever it read
/// before; every other approval is as it was.
pub open spec fn set_allowance(
    pre: Erc20,
    post: Erc20,
    owner: AccountId,
    spender: AccountId,
    value: Balance,
) -> bool {
    forall|o: AccountId, s: AccountId|
        #![trigger post.alw(o, s)]
        post.alw(o, s) == (if o == owner && s == spender {
            value
        } else {
            pre.alw(o, s)
        })
}

/// A transfer of `value` from `from` to `to` can go through on `pre`: the
/// debited account holds enough, and crediting cannot overflow the amount
/// domain.
pub open spec fn transfer_ok(pre: Erc20, from: AccountId, to: AccountId, value: Balance) -> bool {
    &&& pre.bal(from) >= value
    &&& (from == to || pre.bal(to) + value <= u128::MAX)
}

/// `post` is `pre` after a committed transfer of `value` from `from` to `to`:
/// the value moved, the supply and every approval are untouched, and one
/// transfer record was appended.
pub open spec fn transferred(
    pre: Erc20,
    post: Erc20,
    from: AccountId,
    to: AccountId,
    value: Balance,
) -> bool {
    &&& moved_balance(pre, post, from, to, value)
    &&& post.supply() == pre.supply()
    &&& same_allowances(pre, post)
    &&& post.log() == pre.log().push(transfer_event(from, to, value))
}

/// `post` is `pre` after `owner` approved `spender` for `value`: the approval
/// was overwritten, balances and supply are untouched, and one approval
/// record was appended.
pub open spec fn approved(
    pre: Erc20,
    post: Erc20,
    owner: AccountId,
    spender: AccountId,
    value: Balance,
) -> bool {
    &&& set_allowance(pre, post, owner, spender, value)
    &&& same_balances(pre, post)
    &&& post.supply() == pre.supply()
    &&& post.log() == pre.log().push(approval_event(owner, spender, value))
}

/// `post` is `pre` after a committed delegated transfer: the value moved, the
/// approval `from` granted `caller` shrank by exactly `value`, the supply is
/// untouched, and one transfer record was appended.
pub open spec fn delegated(
    pre: Erc20,
    post: Erc20,
    caller: AccountId,
    from: AccountId,
    to: AccountId,
    value: Balance,
) -> bool {
    &&& moved_balance(pre, post, from, to, value)
    &&& spent_allowance(pre, post, from, caller, value)
    &&& post.supply() == pre.supply()
    &&& post.log() == pre.log().push(transfer_event(from, to, value))
}

/// `post` is `pre` after `caller` burned `value`: the caller's balance shrank
/// by exactly `value`, every other balance, every approval and — deliberately,
/// a documented asymmetry of this ledger — the total supply are untouched,
/// and one burn record was appended.
pub open spec fn burned(pre: Erc20, post: Erc20, caller: AccountId, value: Balance) -> bool {
    &&& forall|a: AccountId|
        #![trigger post.bal(a)]
        post.bal(a) as int == pre.bal(a) as int - (if a == caller {
            value as int
        } else {
            0
        })
    &&& post.supply() == pre.supply()
    &&& same_allowances(pre, post)
    &&& post.log() == pre.log().push(burn_event(caller, value))
}

/// `post` is `pre` after issuing `value`: the supply grew by exactly `value`
/// while — deliberately, a documented asymmetry of this ledger — no balance
/// was credited; approvals and the log are untouched.
pub open spec fn issued(pre: Erc20, post: Erc20, value: Balance) -> bool {
    &&& post.supply() as int == pre.supply() as int + value as int
    &&& same_balances(pre, post)
    &&& same_allowances(pre, post)
    &&& post.log() == pre.log()
}

impl Erc20 {
    /// Creates a ledger whose total supply is `total_supply`, credited in
    /// full to the creating account `caller`. No approvals exist and the log
    /// is empty. An initial supply of zero is legal and yields an all-zero
    /// ledger.
    pub fn new(caller: AccountId, total_supply: Balance) -> (r: Erc20)
        ensures
            r.supply() == total_supply,
            r.bal(caller) == total_supply,
            forall|a: AccountId| a != caller ==> r.bal(a) == 0,
            forall|o: AccountId, s: AccountId| r.alw(o, s) == 0,
            r.log() == Seq::<Event>::empty(),
    {
        let mut balances = BalanceTable::new();
        balances.set(caller, total_supply);
        Erc20 {
            total_supply: total_supply,
            balances: balances,
            allowances: AllowanceTable::new(),
            events: Vec::new(),
        }
    }

    /// Creates a ledger with a total supply of zero, as [`Erc20::new`] with
    /// amount zero would.
    pub fn default(caller: AccountId) -> (r: Erc20)
        ensures
            r.supply() == 0,
            forall|a: AccountId| r.bal(a) == 0,
            forall|o: AccountId, s: AccountId| r.alw(o, s) == 0,
            r.log() == Seq::<Event>::empty(),
    {
        Erc20::new(caller, 0)
    }

    /// Returns the stored total-supply counter.
    pub fn total_supply(&self) -> (r: Balance)
        ensures
            r == self.supply(),
    {
        self.total_supply
    }

    /// Returns `owner`'s balance, treating absence as zero.
    pub fn balance_of(&self, owner: AccountId) -> (r: Balance)
        ensures
            r == self.bal(owner),
    {
        self.balances.get(owner)
    }

    /// Returns the amount `spender` is approved to move out of `owner`'s
    /// balance, treating absence as zero.
    pub fn allowance(&self, owner: AccountId, spender: AccountId) -> (r: Balance)
        ensures
            r == self.alw(owner, spender),
    {
        self.allowances.get(owner, spender)
    }

    /// Returns the change records emitted so far, oldest first.
    pub fn events(&self) -> (r: &Vec<Event>)
        ensures
            r@ == self.log(),
    {
        &self.events
    }

    /// Unconditionally overwrites the approval `caller` grants `spender` with
    /// `value` — overwrite, not additive — and appends an approval record.
    /// Always succeeds.
    pub fn approve(&mut self, caller: AccountId, spender: AccountId, value: Balance) -> (r: Result<
        (),
        Error,
    >)
        ensures
            r == Ok::<(), Error>(()),
            approved(*old(self), *final(self), caller, spender, value),
    {
        self.allowances.set(caller, spender, value);
        self.events.push(
            Event::Approval(Approval { owner: Some(caller), spender: Some(spender), value: value }),
        );
        Ok(())
    }

    /// The core transfer primitive: moves `value` from `from` to `to`.
    ///
    /// Fails with [`Error::InsufficientBalance`] exactly when `from` holds
    /// less than `value`, and with [`Error::ArithmeticOverflow`] exactly when
    /// crediting a distinct `to` would exceed the amount domain; a failure
    /// changes nothing. On success both sides commit together and one
    /// transfer record is appended — also when `from == to`, which is a net
    /// no-op that still must pass the sufficiency check and still emits its
    /// record.
    pub fn transfer_from_to(&mut self, from: AccountId, to: AccountId, value: Balance) -> (r:
        Result<(), Error>)
        ensures
            r == Ok::<(), Error>(()) <==> transfer_ok(*old(self), from, to, value),
            transfer_ok(*old(self), from, to, value) ==> transferred(
                *old(self),
                *final(self),
                from,
                to,
                value,
            ),
            !transfer_ok(*old(self), from, to, value) ==> *final(self) == *old(self),
            old(self).bal(from) < value ==> r == Err::<(), Error>(Error::InsufficientBalance),
            old(self).bal(from) >= value && !transfer_ok(*old(self), from, to, value) ==> r
                == Err::<(), Error>(Error::ArithmeticOverflow),
    {
        let from_balance: Balance = self.balances.get(from);
        if from_balance < value {
            return Err(Error::InsufficientBalance);
        }
        let to_balance: Balance = self.balances.get(to);
        if from != to && to_balance > u128::MAX - value {
            return Err(Error::ArithmeticOverflow);
        }
        self.balances.set(from, from_balance - value);
        let to_now: Balance = self.balances.get(to);
        self.balances.set(to, to_now + value);
        self.events.push(Event::Transfer(Transfer { from: Some(from), to: Some(to), value: value }));
        proof {
            let pre = *old(self);
            let post = *self;
            assert forall|a: AccountId|
                #![trigger post.bal(a)]
                post.bal(a) as int == pre.bal(a) as int + (if a == to {
                    value as int
                } else {
                    0
                }) - (if a == from {
                    value as int
                } else {
                    0
                }) by {}
        }
        Ok(())
    }

    /// Moves `value` of the caller's own funds to `to`; no allowance is read
    /// or consumed. Equivalent to [`Erc20::transfer_from_to`] with the caller
    /// as the debited side.
    pub fn transfer(&mut self, caller: AccountId, to: AccountId, value: Balance) -> (r: Result<
        (),
        Error,
    >)
        ensures
            r == Ok::<(), Error>(()) <==> transfer_ok(*old(self), caller, to, value),
            transfer_ok(*old(self), caller, to, value) ==> transferred(
                *old(self),
                *final(self),
                caller,
                to,
                value,
            ),
            !transfer_ok(*old(self), caller, to, value) ==> *final(self) == *old(self),
            old(self).bal(caller) < value ==> r == Err::<(), Error>(Error::InsufficientBalance),
            old(self).bal(caller) >= value && !transfer_ok(*old(self), caller, to, value) ==> r
                == Err::<(), Error>(Error::ArithmeticOverflow),
    {
        self.transfer_from_to(caller, to, value)
    }

    /// Delegated transfer: `caller` moves `value` from `from` to `to` against
    /// the approval `from` granted `caller`.
    ///
    /// Fails with [`Error::InsufficientAllowance`] exactly when that approval
    /// is below `value`; otherwise the transfer itself may fail as
    /// [`Erc20::transfer_from_to`] does, in which case the failure propagates
    /// and the approval stays untouched. Only after the balances commit is
    /// the approval decremented — by exactly `value`, not overwritten to
    /// zero.
    pub fn transfer_from(
        &mut self,
        caller: AccountId,
        from: AccountId,
        to: AccountId,
        value: Balance,
    ) -> (r: Result<(), Error>)
        ensures
            r == Ok::<(), Error>(()) <==> old(self).alw(from, caller) >= value && transfer_ok(
                *old(self),
                from,
                to,
                value,
            ),
            r == Ok::<(), Error>(()) ==> delegated(
                *old(self),
                *final(self),
                caller,
                from,
                to,
                value,
            ),
            r != Ok::<(), Error>(()) ==> *final(self) == *old(self),
            old(self).alw(from, caller) < value ==> r == Err::<(), Error>(
                Error::InsufficientAllowance,
            ),
            old(self).alw(from, caller) >= value && old(self).bal(from) < value ==> r == Err::<
                (),
                Error,
            >(Error::InsufficientBalance),
            old(self).alw(from, caller) >= value && old(self).bal(from) >= value && !transfer_ok(
                *old(self),
                from,
                to,
                value,
            ) ==> r == Err::<(), Error>(Error::ArithmeticOverflow),
    {
        let approved_amount: Balance = self.allowances.get(from, caller);
        if approved_amount < value {
            return Err(Error::InsufficientAllowance);
        }
        match self.transfer_from_to(from, to, value) {
            Err(e) => Err(e),
            Ok(()) => {
                let ghost mid = *self;
                self.allowances.set(from, caller, approved_amount - value);
                proof {
                    let pre = *old(self);
                    let post = *self;
                    assert forall|a: AccountId|
                        #![trigger post.bal(a)]
                        post.bal(a) as int == pre.bal(a) as int + (if a == to {
                            value as int
                        } else {
                            0
                        }) - (if a == from {
                            value as int
                        } else {
                            0
                        }) by {
                        assert(post.bal(a) == mid.bal(a));
                        assert(mid.bal(a) as int == pre.bal(a) as int + (if a == to {
                            value as int
                        } else {
                            0
                        }) - (if a == from {
                            value as int
                        } else {
                            0
                        }));
                    }
                    assert forall|o: AccountId, s: AccountId|
                        #![trigger post.alw(o, s)]
                        post.alw(o, s) as int == pre.alw(o, s) as int - (if o == from && s
                            == caller {
                            value as int
                        } else {
                            0
                        }) by {
                        if !(o == from && s == caller) {
                            assert(post.alw(o, s) == mid.alw(o, s));
                            assert(mid.alw(o, s) == pre.alw(o, s));
                        }
                    }
                }
                Ok(())
            },
        }
    }

    /// Destroys `value` of the caller's own balance and appends a burn
    /// record. Fails with [`Error::InsufficientBalance`] exactly when the
    /// caller holds less than `value`, changing nothing. The total supply is
    /// deliberately left as it was — a documented asymmetry of this ledger.
    pub fn burn(&mut self, caller: AccountId, value: Balance) -> (r: Result<(), Error>)
        ensures
            r == Ok::<(), Error>(()) <==> old(self).bal(caller) >= value,
            old(self).bal(caller) >= value ==> burned(*old(self), *final(self), caller, value),
            old(self).bal(caller) < value ==> r == Err::<(), Error>(Error::InsufficientBalance)
                && *final(self) == *old(self),
    {
        let caller_balance: Balance = self.balances.get(caller);
        if caller_balance < value {
            return Err(Error::InsufficientBalance);
        }
        self.balances.set(caller, caller_balance - value);
        self.events.push(Event::Burn(Burn { caller: Some(caller), value: value }));
        Ok(())
    }

    /// Increases the total supply by `value` without crediting any balance —
    /// a documented asymmetry of this ledger — and without any permission
    /// check: any caller may issue. Fails with [`Error::ArithmeticOverflow`]
    /// exactly when the increment would exceed the amount domain, changing
    /// nothing. No record is appended.
    #[allow(unused_variables)]
    pub fn issue(&mut self, caller: AccountId, value: Balance) -> (r: Result<(), Error>)
        ensures
            r == Ok::<(), Error>(()) <==> old(self).supply() + value <= u128::MAX,
            old(self).supply() + value <= u128::MAX ==> issued(*old(self), *final(self), value),
            old(self).supply() + value > u128::MAX ==> r == Err::<(), Error>(
                Error::ArithmeticOverflow,
            ) && *final(self) == *old(self),
    {
        if self.total_supply > u128::MAX - value {
            return Err(Error::ArithmeticOverflow);
        }
        self.total_supply = self.total_supply + value;
        Ok(())
    }
}

} // verus!
