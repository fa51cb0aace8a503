//! The cashback token's whole persisted state as one aggregate, with the
//! invariants the handlers preserve: balances, allowances, viewing keys,
//! receiver hashes, minters, supply, status and configuration.

use vstd::prelude::*;
use crate::kvlist::{Entry, KvList, lookup};
use crate::types::SecretContract;
use crate::cashback::msg::ContractStatusLevel;
use crate::cashback::transaction_history::TxLog;

verus! {

/// The sum of all stored balances.
pub open spec fn sum_amounts(s: Seq<Entry<u128>>) -> int
    decreases s.len(),
{
    if s.len() == 0 {
        0
    } else {
        sum_amounts(s.drop_last()) + s.last().value
    }
}

pub proof fn lemma_sum_nonneg(s: Seq<Entry<u128>>)
    ensures
        sum_amounts(s) >= 0,
    decreases s.len(),
{
    if s.len() > 0 {
        lemma_sum_nonneg(s.drop_last());
    }
}

pub proof fn lemma_sum_push(s: Seq<Entry<u128>>, e: Entry<u128>)
    ensures
        sum_amounts(s.push(e)) == sum_amounts(s) + e.value,
{
    assert(s.push(e).drop_last() =~= s);
}

pub proof fn lemma_sum_update(s: Seq<Entry<u128>>, i: int, e: Entry<u128>)
    requires
        0 <= i < s.len(),
    ensures
        sum_amounts(s.update(i, e)) == sum_amounts(s) - s[i].value + e.value,
    decreases s.len(),
{
    let t = s.update(i, e);
    if i == s.len() - 1 {
        assert(t.last() == e);
        assert(t.drop_last() =~= s.drop_last());
    } else {
        assert(t.last() == s.last());
        assert(t.drop_last() =~= s.drop_last().update(i, e));
        lemma_sum_update(s.drop_last(), i, e);
    }
}

/// Any stored balance is at most the sum of all stored balances.
pub proof fn lemma_lookup_le_sum(s: Seq<Entry<u128>>, k: Seq<char>)
    ensures
        match lookup(s, k) {
            Some(v) => v <= sum_amounts(s),
            None => true,
        },
    decreases s.len(),
{
    if s.len() > 0 {
        lemma_sum_nonneg(s.drop_last());
        lemma_lookup_le_sum(s.drop_last(), k);
    }
}

/// A delegated spending grant: its remaining amount and, optionally, the
/// block time past which it counts as zero.
#[derive(PartialEq, Eq, Structural, Clone, Copy, Debug)]
pub struct Allowance {
    pub amount: u128,
    pub expiration: Option<u64>,
}

impl Allowance {
    /// The grant a pair without a stored entry has.
    pub open spec fn zero() -> Allowance {
        Allowance { amount: 0, expiration: None }
    }

    /// Whether the grant counts as spent at `block_time`.
    pub open spec fn is_expired_at(self, block_time: u64) -> bool {
        match self.expiration {
            Some(ex) => ex < block_time,
            None => false,
        }
    }
}

pub struct AllowanceEntry {
    pub owner: String,
    pub spender: String,
    pub allowance: Allowance,
}

pub open spec fn unique_pairs(s: Seq<AllowanceEntry>) -> bool {
    forall|i: int, j: int|
        0 <= i < j < s.len() ==> !(s[i].owner@ == s[j].owner@ && s[i].spender@ == s[j].spender@)
}

/// The grant stored for `(o, p)`; a pair without an entry has the zero grant.
pub open spec fn allowance_of(s: Seq<AllowanceEntry>, o: Seq<char>, p: Seq<char>) -> Allowance
    decreases s.len(),
{
    if s.len() == 0 {
        Allowance::zero()
    } else if s.last().owner@ == o && s.last().spender@ == p {
        s.last().allowance
    } else {
        allowance_of(s.drop_last(), o, p)
    }
}

pub proof fn lemma_allowance_at_index(s: Seq<AllowanceEntry>, i: int)
    requires
        unique_pairs(s),
        0 <= i < s.len(),
    ensures
        allowance_of(s, s[i].owner@, s[i].spender@) == s[i].allowance,
    decreases s.len(),
{
    if i < s.len() - 1 {
        assert(s.drop_last()[i] == s[i]);
        lemma_allowance_at_index(s.drop_last(), i);
    }
}

pub proof fn lemma_allowance_absent(s: Seq<AllowanceEntry>, o: Seq<char>, p: Seq<char>)
    requires
        forall|i: int| 0 <= i < s.len() ==> !(s[i].owner@ == o && s[i].spender@ == p),
    ensures
        allowance_of(s, o, p) == Allowance::zero(),
    decreases s.len(),
{
    if s.len() > 0 {
        lemma_allowance_absent(s.drop_last(), o, p);
    }
}

pub proof fn lemma_allowance_push(
    s: Seq<AllowanceEntry>,
    e: AllowanceEntry,
    o: Seq<char>,
    p: Seq<char>,
)
    ensures
        allowance_of(s.push(e), o, p) == if o == e.owner@ && p == e.spender@ {
            e.allowance
        } else {
            allowance_of(s, o, p)
        },
{
    assert(s.push(e).drop_last() =~= s);
}

pub proof fn lemma_allowance_update(
    s: Seq<AllowanceEntry>,
    i: int,
    e: AllowanceEntry,
    o: Seq<char>,
    p: Seq<char>,
)
    requires
        unique_pairs(s),
        0 <= i < s.len(),
        e.owner@ == s[i].owner@,
        e.spender@ == s[i].spender@,
    ensures
        allowance_of(s.update(i, e), o, p) == if o == e.owner@ && p == e.spender@ {
            e.allowance
        } else {
            allowance_of(s, o, p)
        },
    decreases s.len(),
{
    let t = s.update(i, e);
    if i == s.len() - 1 {
        assert(t.last() == e);
        assert(t.drop_last() =~= s.drop_last());
    } else {
        assert(t.last() == s.last());
        assert(t.drop_last() =~= s.drop_last().update(i, e));
        assert(s.drop_last()[i] == s[i]);
        lemma_allowance_update(s.drop_last(), i, e, o, p);
    }
}

/// The stored allowances, one entry per (owner, spender) pair.
pub struct AllowanceTable {
    pub entries: Vec<AllowanceEntry>,
}

impl AllowanceTable {
    pub open spec fn wf(self) -> bool {
        unique_pairs(self.entries@)
    }

    pub open spec fn spec_read(self, o: Seq<char>, p: Seq<char>) -> Allowance {
        allowance_of(self.entries@, o, p)
    }

    pub fn new() -> (r: AllowanceTable)
        ensures
            r.wf(),
            forall|o: Seq<char>, p: Seq<char>| r.spec_read(o, p) == Allowance::zero(),
    {
        let t = AllowanceTable { entries: Vec::new() };
        proof {
            assert forall|o: Seq<char>, p: Seq<char>| t.spec_read(o, p) == Allowance::zero() by {
                lemma_allowance_absent(t.entries@, o, p);
            }
        }
        t
    }

    fn index_of(&self, owner: &String, spender: &String) -> (r: Option<usize>)
        requires
            self.wf(),
        ensures
            match r {
                Some(i) => {
                    &&& i < self.entries@.len()
                    &&& self.entries@[i as int].owner@ == owner@
                    &&& self.entries@[i as int].spender@ == spender@
                    &&& self.spec_read(owner@, spender@) == self.entries@[i as int].allowance
                },
                None => {
                    &&& forall|j: int|
                        0 <= j < self.entries@.len() ==> !(self.entries@[j].owner@ == owner@
                            && self.entries@[j].spender@ == spender@)
                    &&& self.spec_read(owner@, spender@) == Allowance::zero()
                },
            },
    {
        let n = self.entries.len();
        for i in 0..n
            invariant
                n == self.entries@.len(),
                self.wf(),
                forall|j: int|
                    0 <= j < i ==> !(self.entries@[j].owner@ == owner@ && self.entries@[j].spender@
                        == spender@),
        {
            if self.entries[i].owner.eq(owner) && self.entries[i].spender.eq(spender) {
                proof {
                    lemma_allowance_at_index(self.entries@, i as int);
                }
                return Some(i);
            }
        }
        proof {
            lemma_allowance_absent(self.entries@, owner@, spender@);
        }
        None
    }

    /// The grant stored for `(owner, spender)`, the zero grant when none is.
    pub fn read_allowance(&self, owner: &String, spender: &String) -> (r: Allowance)
        requires
            self.wf(),
        ensures
            r == self.spec_read(owner@, spender@),
    {
        match self.index_of(owner, spender) {
            Some(i) => self.entries[i].allowance,
            None => Allowance { amount: 0, expiration: None },
        }
    }

    /// Stores `val` for `(owner, spender)`, replacing any previous grant.
    pub fn write_allowance(&mut self, owner: &String, spender: &String, val: Allowance)
        requires
            old(self).wf(),
        ensures
            final(self).wf(),
            final(self).spec_read(owner@, spender@) == val,
            forall|o: Seq<char>, p: Seq<char>|
                !(o == owner@ && p == spender@) ==> final(self).spec_read(o, p) == old(
                    self,
                ).spec_read(o, p),
    {
        let found = self.index_of(owner, spender);
        match found {
            Some(i) => {
                let ghost s = self.entries@;
                let e = AllowanceEntry { owner: owner.clone(), spender: spender.clone(), allowance: val };
                self.entries.set(i, e);
                proof {
                    assert forall|o: Seq<char>, p: Seq<char>| true implies allowance_of(
                        self.entries@,
                        o,
                        p,
                    ) == (if o == owner@ && p == spender@ {
                        val
                    } else {
                        allowance_of(s, o, p)
                    }) by {
                        lemma_allowance_update(s, i as int, self.entries@[i as int], o, p);
                    }
                }
            },
            None => {
                let ghost s = self.entries@;
                let e = AllowanceEntry { owner: owner.clone(), spender: spender.clone(), allowance: val };
                self.entries.push(e);
                proof {
                    let t = self.entries@;
                    assert forall|o: Seq<char>, p: Seq<char>| true implies allowance_of(t, o, p)
                        == (if o == owner@ && p == spender@ {
                        val
                    } else {
                        allowance_of(s, o, p)
                    }) by {
                        lemma_allowance_push(s, t.last(), o, p);
                    }
                    assert forall|i: int, j: int| 0 <= i < j < t.len() implies !(t[i].owner@
                        == t[j].owner@ && t[i].spender@ == t[j].spender@) by {
                        if j == t.len() - 1 {
                            if t[i].owner@ == owner@ && t[i].spender@ == spender@ {
                                lemma_allowance_at_index(s, i);
                            }
                        }
                    }
                }
            },
        }
    }
}

/// Whether some listed name reads `a`.
pub open spec fn name_listed(s: Seq<String>, a: Seq<char>) -> bool {
    exists|i: int| 0 <= i < s.len() && s[i]@ == a
}

/// `s` with every name listed in `rm` removed, order kept.
pub open spec fn names_removed(s: Seq<String>, rm: Seq<String>) -> Seq<String>
    decreases s.len(),
{
    if s.len() == 0 {
        Seq::empty()
    } else {
        let rest = names_removed(s.drop_last(), rm);
        if name_listed(rm, s.last()@) {
            rest
        } else {
            rest.push(s.last())
        }
    }
}

/// Whether `a` reads one of the names in `list`.
pub fn name_in(list: &Vec<String>, a: &String) -> (r: bool)
    ensures
        r == name_listed(list@, a@),
{
    let n = list.len();
    for i in 0..n
        invariant
            n == list@.len(),
            forall|j: int| 0 <= j < i ==> list@[j]@ != a@,
    {
        if list[i].eq(a) {
            return true;
        }
    }
    false
}

/// The fixed configuration of a token instance.
pub struct Constants {
    pub name: String,
    pub symbol: String,
    pub decimals: u8,
    pub admin: String,
    pub prng_seed: Vec<u8>,
    pub total_supply_is_public: bool,
}

/// The whole persisted state of one cashback token instance.
pub struct State {
    pub constants: Constants,
    pub total_supply: u128,
    pub contract_status: ContractStatusLevel,
    pub minters: Vec<String>,
    pub balances: KvList<u128>,
    pub allowances: AllowanceTable,
    pub viewing_keys: KvList<String>,
    pub receiver_hashes: KvList<String>,
    pub reward_balance: u128,
    pub master: SecretContract,
    pub sefi: SecretContract,
    pub history: TxLog,
}

impl State {
    /// The balance of `account`; an account without an entry holds zero.
    pub open spec fn balance_of(self, account: Seq<char>) -> u128 {
        match self.balances.spec_lookup(account) {
            Some(v) => v,
            None => 0,
        }
    }

    pub open spec fn allowance(self, owner: Seq<char>, spender: Seq<char>) -> Allowance {
        self.allowances.spec_read(owner, spender)
    }

    pub open spec fn spec_is_minter(self, account: Seq<char>) -> bool {
        name_listed(self.minters@, account)
    }

    pub open spec fn spec_is_admin(self, account: Seq<char>) -> bool {
        self.constants.admin@ == account
    }

    /// The well-formedness every handler preserves: keyed stores have
    /// pairwise-distinct keys, and the stored balances sum exactly to the
    /// total supply.
    pub open spec fn wf(self) -> bool {
        &&& self.balances.wf()
        &&& self.allowances.wf()
        &&& self.viewing_keys.wf()
        &&& self.receiver_hashes.wf()
        &&& sum_amounts(self.balances.entries@) == self.total_supply as int
    }

    pub fn balance(&self, account: &String) -> (r: u128)
        requires
            self.balances.wf(),
        ensures
            r == self.balance_of(account@),
    {
        match self.balances.get(account) {
            Some(v) => v,
            None => 0,
        }
    }

    /// Stores `amount` as the balance of `account`.
    pub fn set_account_balance(&mut self, account: &String, amount: u128)
        requires
            old(self).balances.wf(),
        ensures
            final(self).balances.wf(),
            final(self).balance_of(account@) == amount,
            forall|a: Seq<char>|
                a != account@ ==> final(self).balance_of(a) == old(self).balance_of(a),
            sum_amounts(final(self).balances.entries@) == sum_amounts(old(self).balances.entries@)
                - old(self).balance_of(account@) + amount,
            *final(self) == (State { balances: final(self).balances, ..*old(self) }),
    {
        let ghost s = self.balances.entries@;
        let replaced = self.balances.insert(account.clone(), amount);
        proof {
            match replaced {
                Some(i) => {
                    crate::kvlist::lemma_lookup_at_index(s, i as int);
                    lemma_sum_update(s, i as int, self.balances.entries@[i as int]);
                },
                None => {
                    lemma_sum_push(s, self.balances.entries@.last());
                },
            }
        }
    }

    pub fn is_minter(&self, account: &String) -> (r: bool)
        ensures
            r == self.spec_is_minter(account@),
    {
        name_in(&self.minters, account)
    }
}

} // verus!
