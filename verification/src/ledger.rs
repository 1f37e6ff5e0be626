use vstd::prelude::*;

verus! {

/// One account's share balance.
pub(crate) struct AccountShares {
    pub(crate) id: String,
    pub(crate) shares: u128,
}

/// The vault's share ledger: per-account balances and the total share supply.
///
/// The ledger owns the invariant that the supply equals the sum of all
/// balances. Accounts are keyed by their identifier; an account that never
/// received shares has balance zero.
pub struct ShareLedger {
    accounts: Vec<AccountShares>,
    total_supply: u128,
}

/// Sum of the share balances of a sequence of accounts.
pub(crate) open spec fn sum_shares(s: Seq<AccountShares>) -> int
    decreases s.len(),
{
    if s.len() == 0 {
        0
    } else {
        s[0].shares + sum_shares(s.drop_first())
    }
}

/// The balance recorded for `id`: the shares of the first entry with that
/// identifier, or zero when no entry carries it.
pub(crate) open spec fn balance_in(s: Seq<AccountShares>, id: Seq<char>) -> u128
    decreases s.len(),
{
    if s.len() == 0 {
        0u128
    } else if s[0].id@ == id {
        s[0].shares
    } else {
        balance_in(s.drop_first(), id)
    }
}

proof fn lemma_sum_nonneg(s: Seq<AccountShares>)
    ensures
        sum_shares(s) >= 0,
    decreases s.len(),
{
    if s.len() > 0 {
        lemma_sum_nonneg(s.drop_first());
    }
}

proof fn lemma_elem_le_sum(s: Seq<AccountShares>, i: int)
    requires
        0 <= i < s.len(),
    ensures
        s[i].shares <= sum_shares(s),
    decreases i,
{
    if i == 0 {
        lemma_sum_nonneg(s.drop_first());
    } else {
        lemma_elem_le_sum(s.drop_first(), i - 1);
    }
}

proof fn lemma_sum_update(s: Seq<AccountShares>, i: int, e: AccountShares)
    requires
        0 <= i < s.len(),
    ensures
        sum_shares(s.update(i, e)) == sum_shares(s) - s[i].shares + e.shares,
    decreases i,
{
    if i == 0 {
        assert(s.update(0, e).drop_first() =~= s.drop_first());
    } else {
        assert(s.update(i, e).drop_first() =~= s.drop_first().update(i - 1, e));
        lemma_sum_update(s.drop_first(), i - 1, e);
    }
}

proof fn lemma_sum_push(s: Seq<AccountShares>, e: AccountShares)
    ensures
        sum_shares(s.push(e)) == sum_shares(s) + e.shares,
    decreases s.len(),
{
    let p = s.push(e);
    if s.len() == 0 {
        assert(p[0] == e);
        assert(p.drop_first() =~= Seq::<AccountShares>::empty());
        assert(sum_shares(Seq::<AccountShares>::empty()) == 0);
    } else {
        assert(p[0] == s[0]);
        assert(p.drop_first() =~= s.drop_first().push(e));
        lemma_sum_push(s.drop_first(), e);
        assert(sum_shares(p) == p[0].shares + sum_shares(p.drop_first()));
    }
}

proof fn lemma_balance_at(s: Seq<AccountShares>, id: Seq<char>, i: int)
    requires
        0 <= i < s.len(),
        s[i].id@ == id,
        forall|j: int| 0 <= j < i ==> s[j].id@ != id,
    ensures
        balance_in(s, id) == s[i].shares,
    decreases i,
{
    if i > 0 {
        lemma_balance_at(s.drop_first(), id, i - 1);
    }
}

proof fn lemma_balance_absent(s: Seq<AccountShares>, id: Seq<char>)
    requires
        forall|j: int| 0 <= j < s.len() ==> s[j].id@ != id,
    ensures
        balance_in(s, id) == 0,
    decreases s.len(),
{
    if s.len() > 0 {
        lemma_balance_absent(s.drop_first(), id);
    }
}

proof fn lemma_balance_update_other(s: Seq<AccountShares>, i: int, e: AccountShares, id: Seq<char>)
    requires
        0 <= i < s.len(),
        s[i].id@ == e.id@,
        id != e.id@,
    ensures
        balance_in(s.update(i, e), id) == balance_in(s, id),
    decreases i,
{
    if i == 0 {
        assert(s.update(0, e).drop_first() =~= s.drop_first());
    } else {
        assert(s.update(i, e).drop_first() =~= s.drop_first().update(i - 1, e));
        lemma_balance_update_other(s.drop_first(), i - 1, e, id);
    }
}

proof fn lemma_balance_push_other(s: Seq<AccountShares>, e: AccountShares, id: Seq<char>)
    requires
        id != e.id@,
    ensures
        balance_in(s.push(e), id) == balance_in(s, id),
    decreases s.len(),
{
    let p = s.push(e);
    if s.len() == 0 {
        assert(p[0] == e);
        assert(p.drop_first() =~= Seq::<AccountShares>::empty());
        assert(balance_in(Seq::<AccountShares>::empty(), id) == 0);
    } else {
        assert(p[0] == s[0]);
        assert(p.drop_first() =~= s.drop_first().push(e));
        lemma_balance_push_other(s.drop_first(), e, id);
    }
}

impl ShareLedger {
    /// The recorded balance of `id`, as a specification value.
    pub closed spec fn spec_balance_of(&self, id: Seq<char>) -> u128 {
        balance_in(self.accounts@, id)
    }

    /// The total share supply, as a specification value.
    pub closed spec fn spec_total_supply(&self) -> u128 {
        self.total_supply
    }

    /// Well-formedness: account identifiers are unique and the recorded
    /// supply is the sum of all balances.
    pub closed spec fn wf(&self) -> bool {
        &&& sum_shares(self.accounts@) == self.total_supply as int
        &&& forall|i: int, j: int|
            0 <= i < j < self.accounts@.len() ==> self.accounts@[i].id@ != self.accounts@[j].id@
    }

    /// An empty ledger: no accounts, zero supply.
    pub fn new() -> (r: ShareLedger)
        ensures
            r.wf(),
            r.spec_total_supply() == 0,
            forall|id: Seq<char>| r.spec_balance_of(id) == 0,
    {
        ShareLedger { accounts: Vec::new(), total_supply: 0 }
    }

    /// The total share supply.
    pub fn total_supply(&self) -> (r: u128)
        ensures
            r == self.spec_total_supply(),
    {
        self.total_supply
    }

    /// Index of the first entry for `id`, with the knowledge that every
    /// earlier entry carries another identifier.
    fn find(&self, id: &String) -> (r: Option<usize>)
        ensures
            match r {
                Some(i) => {
                    &&& i < self.accounts@.len()
                    &&& self.accounts@[i as int].id@ == id@
                    &&& forall|j: int| 0 <= j < i ==> self.accounts@[j].id@ != id@
                },
                None => forall|j: int| 0 <= j < self.accounts@.len() ==> self.accounts@[j].id@ != id@,
            },
    {
        let n = self.accounts.len();
        let mut i: usize = 0;
        while i < n
            invariant
                n == self.accounts@.len(),
                i <= n,
                forall|j: int| 0 <= j < i ==> self.accounts@[j].id@ != id@,
            decreases n - i,
        {
            if self.accounts[i].id == *id {
                return Some(i);
            }
            i = i + 1;
        }
        None
    }

    /// The share balance of `account_id`; zero for an unknown account.
    pub fn balance_of(&self, account_id: &String) -> (r: u128)
        ensures
            r == self.spec_balance_of(account_id@),
    {
        match self.find(account_id) {
            Some(i) => {
                proof {
                    lemma_balance_at(self.accounts@, account_id@, i as int);
                }
                self.accounts[i].shares
            },
            None => {
                proof {
                    lemma_balance_absent(self.accounts@, account_id@);
                }
                0
            },
        }
    }

    /// Mints `amount` shares to `account_id`: its balance and the supply grow
    /// by `amount`; every other balance is untouched.
    pub fn credit(&mut self, account_id: &String, amount: u128)
        requires
            old(self).wf(),
            old(self).spec_total_supply() + amount <= u128::MAX,
        ensures
            final(self).wf(),
            final(self).spec_total_supply() == old(self).spec_total_supply() + amount,
            final(self).spec_balance_of(account_id@) == old(self).spec_balance_of(account_id@)
                + amount,
            forall|id: Seq<char>|
                id != account_id@ ==> final(self).spec_balance_of(id) == old(
                    self,
                ).spec_balance_of(id),
    {
        let ghost s0 = self.accounts@;
        match self.find(account_id) {
            Some(i) => {
                proof {
                    lemma_balance_at(s0, account_id@, i as int);
                    lemma_elem_le_sum(s0, i as int);
                }
                let bal = self.accounts[i].shares;
                let e = &mut self.accounts[i];
                e.shares = bal + amount;
                proof {
                    let s1 = self.accounts@;
                    let enew = s1[i as int];
                    lemma_sum_update(s0, i as int, enew);
                    lemma_balance_at(s1, account_id@, i as int);
                    assert forall|id: Seq<char>| id != account_id@ implies balance_in(s1, id)
                        == balance_in(s0, id) by {
                        lemma_balance_update_other(s0, i as int, enew, id);
                    }
                }
                self.total_supply = self.total_supply + amount;
            },
            None => {
                proof {
                    lemma_balance_absent(s0, account_id@);
                }
                let e = AccountShares { id: account_id.clone(), shares: amount };
                self.accounts.push(e);
                proof {
                    let s1 = self.accounts@;
                    lemma_sum_push(s0, s1[s1.len() - 1]);
                    lemma_balance_at(s1, account_id@, s1.len() - 1);
                    assert forall|id: Seq<char>| id != account_id@ implies balance_in(s1, id)
                        == balance_in(s0, id) by {
                        lemma_balance_push_other(s0, s1[s1.len() - 1], id);
                    }
                }
                self.total_supply = self.total_supply + amount;
            },
        }
    }

    /// Burns `amount` shares from `account_id`: its balance and the supply
    /// shrink by `amount`; every other balance is untouched.
    pub fn debit(&mut self, account_id: &String, amount: u128)
        requires
            old(self).wf(),
            amount <= old(self).spec_balance_of(account_id@),
        ensures
            final(self).wf(),
            final(self).spec_total_supply() == old(self).spec_total_supply() - amount,
            final(self).spec_balance_of(account_id@) == old(self).spec_balance_of(account_id@)
                - amount,
            forall|id: Seq<char>|
                id != account_id@ ==> final(self).spec_balance_of(id) == old(
                    self,
                ).spec_balance_of(id),
    {
        let ghost s0 = self.accounts@;
        match self.find(account_id) {
            Some(i) => {
                proof {
                    lemma_balance_at(s0, account_id@, i as int);
                    lemma_elem_le_sum(s0, i as int);
                    lemma_sum_nonneg(s0);
                }
                let bal = self.accounts[i].shares;
                let e = &mut self.accounts[i];
                e.shares = bal - amount;
                proof {
                    let s1 = self.accounts@;
                    let enew = s1[i as int];
                    lemma_sum_update(s0, i as int, enew);
                    lemma_balance_at(s1, account_id@, i as int);
                    assert forall|id: Seq<char>| id != account_id@ implies balance_in(s1, id)
                        == balance_in(s0, id) by {
                        lemma_balance_update_other(s0, i as int, enew, id);
                    }
                }
                self.total_supply = self.total_supply - amount;
            },
            None => {
                proof {
                    lemma_balance_absent(s0, account_id@);
                }
            },
        }
    }

    /// The ledger's contents as plain pairs: every account with its balance,
    /// each identifier once, covering every account that holds shares.
    pub fn entries(&self) -> (r: Vec<(String, u128)>)
        requires
            self.wf(),
        ensures
            forall|i: int| 0 <= i < r@.len() ==> r@[i].1 == self.spec_balance_of(r@[i].0@),
            forall|i: int, j: int| 0 <= i < j < r@.len() ==> r@[i].0@ != r@[j].0@,
            forall|id: Seq<char>|
                self.spec_balance_of(id) != 0 ==> exists|i: int|
                    0 <= i < r@.len() && #[trigger] r@[i].0@ == id,
    {
        let n = self.accounts.len();
        let mut r: Vec<(String, u128)> = Vec::new();
        let mut i: usize = 0;
        while i < n
            invariant
                self.wf(),
                n == self.accounts@.len(),
                i <= n,
                r@.len() == i,
                forall|j: int|
                    0 <= j < i ==> r@[j].0@ == self.accounts@[j].id@ && r@[j].1
                        == self.accounts@[j].shares,
            decreases n - i,
        {
            r.push((self.accounts[i].id.clone(), self.accounts[i].shares));
            i = i + 1;
        }
        proof {
            assert forall|k: int| 0 <= k < r@.len() implies r@[k].1 == self.spec_balance_of(
                r@[k].0@,
            ) by {
                lemma_balance_at(self.accounts@, r@[k].0@, k);
            }
            assert forall|id: Seq<char>| self.spec_balance_of(id) != 0 implies exists|k: int|
                0 <= k < r@.len() && #[trigger] r@[k].0@ == id by {
                if forall|k: int| 0 <= k < r@.len() ==> #[trigger] r@[k].0@ != id {
                    assert forall|k: int|
                        0 <= k < self.accounts@.len() implies self.accounts@[k].id@ != id by {
                        assert(r@[k].0@ != id);
                    }
                    lemma_balance_absent(self.accounts@, id);
                }
            }
        }
        r
    }

    /// Moves `amount` shares from `sender_id` to `receiver_id`.
    pub fn transfer(&mut self, sender_id: &String, receiver_id: &String, amount: u128)
        requires
            old(self).wf(),
            sender_id@ != receiver_id@,
            amount <= old(self).spec_balance_of(sender_id@),
        ensures
            final(self).wf(),
            final(self).spec_total_supply() == old(self).spec_total_supply(),
            final(self).spec_balance_of(sender_id@) == old(self).spec_balance_of(sender_id@)
                - amount,
            final(self).spec_balance_of(receiver_id@) == old(self).spec_balance_of(receiver_id@)
                + amount,
            forall|id: Seq<char>|
                id != sender_id@ && id != receiver_id@ ==> final(self).spec_balance_of(id) == old(
                    self,
                ).spec_balance_of(id),
    {
        self.debit(sender_id, amount);
        self.credit(receiver_id, amount);
    }
}

} // verus!
