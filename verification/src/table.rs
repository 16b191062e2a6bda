//! Association tables from keys to amounts, with "absent means zero".
//!
//! Each table is a vector of key/amount entries scanned front to back. The
//! amount a table associates with a key is given by the spec function
//! [`table_at`]: the amount of the first entry whose key matches, or zero when
//! no entry does. Callers never see the entry vector, only `table_at`.

use vstd::prelude::*;

use crate::AccountId;
use crate::Balance;

verus! {

/// The amount that an entry sequence associates with `k`: the amount of the
/// first entry whose key is `k`, or zero when no entry carries `k`.
pub open spec fn table_at<K>(s: Seq<(K, Balance)>, k: K) -> Balance
    decreases s.len(),
{
    if s.len() == 0 {
        0
    } else if s[0].0 == k {
        s[0].1
    } else {
        table_at(s.subrange(1, s.len() as int), k)
    }
}

/// When the entries before position `i` all miss `k` and entry `i` carries it,
/// the scan yields entry `i`'s amount.
proof fn lemma_at_found<K>(s: Seq<(K, Balance)>, i: int, k: K)
    requires
        0 <= i < s.len(),
        forall|j: int| 0 <= j < i ==> s[j].0 != k,
        s[i].0 == k,
    ensures
        table_at(s, k) == s[i].1,
    decreases i,
{
    if i > 0 {
        let t = s.subrange(1, s.len() as int);
        assert forall|j: int| 0 <= j < i - 1 implies t[j].0 != k by {
            assert(s[j + 1].0 != k);
        }
        lemma_at_found(t, i - 1, k);
    }
}

/// When no entry carries `k`, the scan yields zero.
proof fn lemma_at_absent<K>(s: Seq<(K, Balance)>, k: K)
    requires
        forall|j: int| 0 <= j < s.len() ==> s[j].0 != k,
    ensures
        table_at(s, k) == 0,
    decreases s.len(),
{
    if s.len() > 0 {
        let t = s.subrange(1, s.len() as int);
        assert forall|j: int| 0 <= j < t.len() implies t[j].0 != k by {
            assert(s[j + 1].0 != k);
        }
        lemma_at_absent(t, k);
    }
}

/// Overwriting the first entry that carries `k` rebinds `k` and leaves every
/// other key's amount as it was.
proof fn lemma_at_update<K>(s: Seq<(K, Balance)>, i: int, k: K, v: Balance)
    requires
        0 <= i < s.len(),
        forall|j: int| 0 <= j < i ==> s[j].0 != k,
        s[i].0 == k,
    ensures
        table_at(s.update(i, (k, v)), k) == v,
        forall|k2: K| k2 != k ==> table_at(s.update(i, (k, v)), k2) == table_at(s, k2),
    decreases i,
{
    let s2 = s.update(i, (k, v));
    if i == 0 {
        assert(s2[0] == (k, v));
        assert(s2.subrange(1, s2.len() as int) =~= s.subrange(1, s.len() as int));
    } else {
        assert(s2[0] == s[0]);
        let t = s.subrange(1, s.len() as int);
        assert forall|j: int| 0 <= j < i - 1 implies t[j].0 != k by {
            assert(s[j + 1].0 != k);
        }
        assert(t[i - 1] == s[i]);
        lemma_at_update(t, i - 1, k, v);
        assert(s2.subrange(1, s2.len() as int) =~= t.update(i - 1, (k, v)));
        assert(table_at(s2, k) == v);
        assert forall|k2: K| k2 != k implies table_at(s2, k2) == table_at(s, k2) by {
            if s[0].0 != k2 {
                assert(table_at(t.update(i - 1, (k, v)), k2) == table_at(t, k2));
            }
        }
    }
}

/// Appending an entry for a key that no entry carries binds that key and
/// leaves every other key's amount as it was.
proof fn lemma_at_push<K>(s: Seq<(K, Balance)>, k: K, v: Balance)
    requires
        forall|j: int| 0 <= j < s.len() ==> s[j].0 != k,
    ensures
        table_at(s.push((k, v)), k) == v,
        forall|k2: K| k2 != k ==> table_at(s.push((k, v)), k2) == table_at(s, k2),
    decreases s.len(),
{
    let s2 = s.push((k, v));
    if s.len() == 0 {
        assert(s2[0] == (k, v));
        assert(s2.subrange(1, s2.len() as int) =~= Seq::<(K, Balance)>::empty());
        assert forall|k2: K| k2 != k implies table_at(s2, k2) == table_at(s, k2) by {
            assert(table_at(s2.subrange(1, s2.len() as int), k2) == 0);
            assert(table_at(s, k2) == 0);
        }
    } else {
        assert(s2[0] == s[0]);
        let t = s.subrange(1, s.len() as int);
        assert forall|j: int| 0 <= j < t.len() implies t[j].0 != k by {
            assert(s[j + 1].0 != k);
        }
        lemma_at_push(t, k, v);
        assert(s2.subrange(1, s2.len() as int) =~= t.push((k, v)));
        assert(table_at(s2, k) == v);
        assert forall|k2: K| k2 != k implies table_at(s2, k2) == table_at(s, k2) by {
            if s[0].0 != k2 {
                assert(table_at(t.push((k, v)), k2) == table_at(t, k2));
            }
        }
    }
}

/// A table from single account identities to amounts.
pub struct BalanceTable {
    entries: Vec<(AccountId, Balance)>,
}

impl BalanceTable {
    /// The amount held against `k`, absence meaning zero.
    pub closed spec fn at(self, k: AccountId) -> Balance {
        table_at(self.entries@, k)
    }

    /// An empty table: every key reads zero.
    pub fn new() -> (r: Self)
        ensures
            forall|k: AccountId| r.at(k) == 0,
    {
        BalanceTable { entries: Vec::new() }
    }

    /// Reads the amount held against `k`.
    pub fn get(&self, k: AccountId) -> (r: Balance)
        ensures
            r == self.at(k),
    {
        let n: usize = self.entries.len();
        let mut i: usize = 0;
        while i < n
            invariant
                n == self.entries.len(),
                i <= n,
                forall|j: int| 0 <= j < i ==> self.entries@[j].0 != k,
            decreases n - i,
        {
            let e: (AccountId, Balance) = self.entries[i];
            if e.0 == k {
                proof {
                    lemma_at_found(self.entries@, i as int, k);
                }
                return e.1;
            }
            i += 1;
        }
        proof {
            lemma_at_absent(self.entries@, k);
        }
        0
    }

    /// Rebinds `k` to `v`; every other key's amount is untouched.
    pub fn set(&mut self, k: AccountId, v: Balance)
        ensures
            final(self).at(k) == v,
            forall|k2: AccountId| k2 != k ==> final(self).at(k2) == old(self).at(k2),
    {
        let n: usize = self.entries.len();
        let mut i: usize = 0;
        while i < n
            invariant
                n == self.entries.len(),
                i <= n,
                self.entries@ == old(self).entries@,
                forall|j: int| 0 <= j < i ==> self.entries@[j].0 != k,
            decreases n - i,
        {
            let e: (AccountId, Balance) = self.entries[i];
            if e.0 == k {
                self.entries.set(i, (k, v));
                proof {
                    lemma_at_update(old(self).entries@, i as int, k, v);
                }
                return;
            }
            i += 1;
        }
        self.entries.push((k, v));
        proof {
            lemma_at_push(old(self).entries@, k, v);
        }
    }
}

/// A table from owner/spender pairs to amounts.
pub struct AllowanceTable {
    entries: Vec<((AccountId, AccountId), Balance)>,
}

impl AllowanceTable {
    /// The amount held against the pair `(owner, spender)`, absence meaning
    /// zero.
    pub closed spec fn at(self, owner: AccountId, spender: AccountId) -> Balance {
        table_at(self.entries@, (owner, spender))
    }

    /// An empty table: every pair reads zero.
    pub fn new() -> (r: Self)
        ensures
            forall|o: AccountId, s: AccountId| r.at(o, s) == 0,
    {
        AllowanceTable { entries: Vec::new() }
    }

    /// Reads the amount held against `(owner, spender)`.
    pub fn get(&self, owner: AccountId, spender: AccountId) -> (r: Balance)
        ensures
            r == self.at(owner, spender),
    {
        let n: usize = self.entries.len();
        let mut i: usize = 0;
        while i < n
            invariant
                n == self.entries.len(),
                i <= n,
                forall|j: int| 0 <= j < i ==> self.entries@[j].0 != (owner, spender),
            decreases n - i,
        {
            let e: ((AccountId, AccountId), Balance) = self.entries[i];
            if e.0.0 == owner && e.0.1 == spender {
                proof {
                    lemma_at_found(self.entries@, i as int, (owner, spender));
                }
                return e.1;
            }
            i += 1;
        }
        proof {
            lemma_at_absent(self.entries@, (owner, spender));
        }
        0
    }

    /// Rebinds `(owner, spender)` to `v`; every other pair's amount is
    /// untouched.
    pub fn set(&mut self, owner: AccountId, spender: AccountId, v: Balance)
        ensures
            final(self).at(owner, spender) == v,
            forall|o2: AccountId, s2: AccountId|
                !(o2 == owner && s2 == spender) ==> final(self).at(o2, s2) == old(self).at(o2, s2),
    {
        let n: usize = self.entries.len();
        let mut i: usize = 0;
        while i < n
            invariant
                n == self.entries.len(),
                i <= n,
                self.entries@ == old(self).entries@,
                forall|j: int| 0 <= j < i ==> self.entries@[j].0 != (owner, spender),
            decreases n - i,
        {
            let e: ((AccountId, AccountId), Balance) = self.entries[i];
            if e.0.0 == owner && e.0.1 == spender {
                self.entries.set(i, ((owner, spender), v));
                proof {
                    lemma_at_update(old(self).entries@, i as int, (owner, spender), v);
                }
                return;
            }
            i += 1;
        }
        self.entries.push(((owner, spender), v));
        proof {
            lemma_at_push(old(self).entries@, (owner, spender), v);
        }
    }
}

} // verus!
