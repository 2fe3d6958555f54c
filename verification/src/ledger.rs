//! The account balance ledger: a namespaced mapping from account identifier to
//! an unsigned 128-bit balance, representing actual custody of funds. An
//! account with no stored entry has balance zero; entries are created lazily
//! and never removed, only overwritten. Balances are stored in their
//! fixed-width big-endian form (see [`crate::codec`]).

use vstd::prelude::*;

use crate::codec::{decode_balance, encode_balance, spec_decode_balance, BALANCE_WIDTH};
use crate::error::Error;

verus! {

/// One stored ledger entry: an account identifier and the stored (encoded)
/// form of its balance.
pub struct LedgerEntry {
    pub account: String,
    pub value: Vec<u8>,
}

/// The balance ledger. Well-formed ledgers hold at most one entry per account,
/// every entry's value of the fixed width.
pub struct Ledger {
    pub entries: Vec<LedgerEntry>,
}

/// The balance an entry stores.
pub open spec fn entry_balance(e: LedgerEntry) -> u128 {
    spec_decode_balance(e.value@)
}

/// The mapping from account to balance that a sequence of entries represents;
/// a later entry for the same account overrides an earlier one.
pub open spec fn seq_balances(s: Seq<LedgerEntry>) -> Map<Seq<char>, u128>
    decreases s.len(),
{
    if s.len() == 0 {
        Map::empty()
    } else {
        seq_balances(s.drop_last()).insert(s.last().account@, entry_balance(s.last()))
    }
}

/// The sum of the balances a sequence of entries stores.
pub open spec fn seq_total(s: Seq<LedgerEntry>) -> int
    decreases s.len(),
{
    if s.len() == 0 {
        0
    } else {
        seq_total(s.drop_last()) + entry_balance(s.last())
    }
}

/// No two entries name the same account.
pub open spec fn distinct_accounts(s: Seq<LedgerEntry>) -> bool {
    forall|i: int, j: int| 0 <= i < j < s.len() ==> s[i].account@ != s[j].account@
}

impl Ledger {
    /// The mapping from account to balance this ledger holds.
    pub open spec fn balances(self) -> Map<Seq<char>, u128> {
        seq_balances(self.entries@)
    }

    /// The balance of an account: what its entry stores, or zero when it has
    /// no entry. Absence is a valid zero, not an error.
    pub open spec fn balance(self, account: Seq<char>) -> u128 {
        if self.balances().contains_key(account) {
            self.balances()[account]
        } else {
            0
        }
    }

    /// The sum of all stored balances.
    pub open spec fn total(self) -> int {
        seq_total(self.entries@)
    }

    /// Well-formedness: one entry per account, every value of the fixed width.
    pub open spec fn wf(self) -> bool {
        &&& distinct_accounts(self.entries@)
        &&& forall|i: int|
            0 <= i < self.entries@.len() ==> (#[trigger] self.entries@[i].value@).len()
                == BALANCE_WIDTH
    }

    /// An empty ledger: no entries, every balance zero.
    pub fn new() -> (r: Ledger)
        ensures
            r.wf(),
            r.balances() == Map::<Seq<char>, u128>::empty(),
            r.total() == 0,
    {
        Ledger { entries: Vec::new() }
    }

    /// The index of the entry for `account`, if one exists.
    fn find(&self, account: &String) -> (r: Option<usize>)
        ensures
            match r {
                Some(i) => i < self.entries@.len() && self.entries@[i as int].account@ == account@,
                None => forall|j: int|
                    0 <= j < self.entries@.len() ==> self.entries@[j].account@ != account@,
            },
    {
        let mut k: usize = 0;
        while k < self.entries.len()
            invariant
                k <= self.entries@.len(),
                forall|j: int| 0 <= j < k ==> self.entries@[j].account@ != account@,
            decreases self.entries@.len() - k,
        {
            if self.entries[k].account == *account {
                return Some(k);
            }
            k = k + 1;
        }
        None
    }

    /// Returns the balance of `account`, zero when no entry exists.
    pub fn balance_of(&self, account: &String) -> (r: u128)
        requires
            self.wf(),
        ensures
            r == self.balance(account@),
    {
        match self.find(account) {
            Some(i) => {
                proof {
                    lemma_balances_found(self.entries@, i as int);
                }
                match decode_balance(&self.entries[i].value) {
                    Ok(b) => b,
                    Err(_) => 0,  // unreachable: a well-formed value decodes
                }
            },
            None => {
                proof {
                    lemma_balances_absent(self.entries@, account@);
                }
                0
            },
        }
    }

    /// Unconditionally overwrites the balance of `account`, creating its entry
    /// if none exists. Intended to be called only by the transfer engine.
    pub fn set_balance(&mut self, account: &String, value: u128)
        requires
            old(self).wf(),
        ensures
            final(self).wf(),
            final(self).balances() == old(self).balances().insert(account@, value),
            final(self).total() == old(self).total() - old(self).balance(account@) + value,
    {
        let encoded = encode_balance(value);
        match self.find(account) {
            Some(i) => {
                proof {
                    lemma_balances_found(self.entries@, i as int);
                }
                let entry = LedgerEntry { account: account.clone(), value: encoded };
                proof {
                    crate::codec::lemma_balance_codec_roundtrip(value, entry.value@);
                    lemma_balances_update(self.entries@, i as int, entry);
                    lemma_total_update(self.entries@, i as int, entry);
                }
                self.entries.set(i, entry);
            },
            None => {
                proof {
                    lemma_balances_absent(self.entries@, account@);
                }
                let entry = LedgerEntry { account: account.clone(), value: encoded };
                proof {
                    crate::codec::lemma_balance_codec_roundtrip(value, entry.value@);
                    lemma_balances_push(self.entries@, entry);
                    lemma_total_push(self.entries@, entry);
                }
                self.entries.push(entry);
            },
        }
    }
}

/// Appending an entry adds its balance to the sum.
proof fn lemma_total_push(s: Seq<LedgerEntry>, e: LedgerEntry)
    ensures
        seq_total(s.push(e)) == seq_total(s) + entry_balance(e),
{
    assert(s.push(e).drop_last() =~= s);
}

/// Appending an entry inserts its balance into the mapping.
proof fn lemma_balances_push(s: Seq<LedgerEntry>, e: LedgerEntry)
    ensures
        seq_balances(s.push(e)) == seq_balances(s).insert(e.account@, entry_balance(e)),
{
    assert(s.push(e).drop_last() =~= s);
}

/// Replacing the entry at `i` adjusts the sum by the difference.
proof fn lemma_total_update(s: Seq<LedgerEntry>, i: int, e: LedgerEntry)
    requires
        0 <= i < s.len(),
    ensures
        seq_total(s.update(i, e)) == seq_total(s) - entry_balance(s[i]) + entry_balance(e),
    decreases s.len(),
{
    if i == s.len() - 1 {
        assert(s.update(i, e).drop_last() =~= s.drop_last());
    } else {
        assert(s.update(i, e).drop_last() =~= s.drop_last().update(i, e));
        lemma_total_update(s.drop_last(), i, e);
    }
}

/// Replacing the entry at `i` with one for the same account re-inserts that
/// account's balance and leaves every other account's balance as it was.
proof fn lemma_balances_update(s: Seq<LedgerEntry>, i: int, e: LedgerEntry)
    requires
        0 <= i < s.len(),
        distinct_accounts(s),
        s[i].account@ == e.account@,
    ensures
        seq_balances(s.update(i, e)) == seq_balances(s).insert(e.account@, entry_balance(e)),
    decreases s.len(),
{
    if i == s.len() - 1 {
        assert(s.update(i, e).drop_last() =~= s.drop_last());
        assert(seq_balances(s.update(i, e)) =~= seq_balances(s).insert(
            e.account@,
            entry_balance(e),
        ));
    } else {
        assert(s.update(i, e).drop_last() =~= s.drop_last().update(i, e));
        assert(distinct_accounts(s.drop_last()));
        lemma_balances_update(s.drop_last(), i, e);
        assert(s.update(i, e).last() == s.last());
        assert(s.last().account@ != e.account@);
        assert(seq_balances(s.update(i, e)) =~= seq_balances(s).insert(
            e.account@,
            entry_balance(e),
        ));
    }
}

/// An account with an entry at `i` (in a ledger with one entry per account)
/// has that entry's stored balance.
proof fn lemma_balances_found(s: Seq<LedgerEntry>, i: int)
    requires
        0 <= i < s.len(),
        distinct_accounts(s),
    ensures
        seq_balances(s).contains_key(s[i].account@),
        seq_balances(s)[s[i].account@] == entry_balance(s[i]),
    decreases s.len(),
{
    if i == s.len() - 1 {
    } else {
        assert(distinct_accounts(s.drop_last()));
        lemma_balances_found(s.drop_last(), i);
        assert(s.last().account@ != s[i].account@);
    }
}

/// An account with no entry is absent from the mapping.
proof fn lemma_balances_absent(s: Seq<LedgerEntry>, account: Seq<char>)
    requires
        forall|j: int| 0 <= j < s.len() ==> s[j].account@ != account,
    ensures
        !seq_balances(s).contains_key(account),
    decreases s.len(),
{
    if s.len() > 0 {
        lemma_balances_absent(s.drop_last(), account);
    }
}

} // verus!
