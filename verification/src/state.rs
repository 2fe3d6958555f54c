//! Persistent contract state: the registry of campaign names (a singleton),
//! the per-campaign record store, and the account balance ledger. The store is
//! exclusively owned by the command being executed; a command either commits
//! every write it makes or fails having made none.

use vstd::prelude::*;

use crate::error::Error;
use crate::ledger::Ledger;

verus! {

/// The registry singleton: the ordered list of every campaign name ever
/// created, append-only (no removal operation exists).
#[derive(Debug)]
pub struct State {
    pub campaign_names: Vec<String>,
}

impl View for State {
    type V = Seq<Seq<char>>;

    open spec fn view(&self) -> Seq<Seq<char>> {
        self.campaign_names.deep_view()
    }
}

impl Clone for State {
    fn clone(&self) -> (r: Self)
        ensures
            r.campaign_names@ == self.campaign_names@,
            r@ == self@,
    {
        let names = self.campaign_names.clone();
        proof {
            assert(names@ =~= self.campaign_names@);
        }
        State { campaign_names: names }
    }
}

/// One campaign's record: its creator (immutable after creation), its
/// description, and the recorded amount of funds donated and not yet
/// withdrawn. The amount is bookkeeping that tracks, but is distinct from,
/// the custody held in the ledger.
#[derive(Debug)]
pub struct Campaign {
    pub owner: String,
    pub description: String,
    pub amount: u128,
}

/// The mathematical value of a campaign record.
pub ghost struct CampaignView {
    pub owner: Seq<char>,
    pub description: Seq<char>,
    pub amount: u128,
}

impl View for Campaign {
    type V = CampaignView;

    open spec fn view(&self) -> CampaignView {
        CampaignView { owner: self.owner@, description: self.description@, amount: self.amount }
    }
}

impl Clone for Campaign {
    fn clone(&self) -> (r: Self)
        ensures
            r == *self,
    {
        Campaign {
            owner: self.owner.clone(),
            description: self.description.clone(),
            amount: self.amount,
        }
    }
}

/// The mapping from campaign name to record that a sequence of keyed records
/// represents; a later record under the same name overrides an earlier one.
pub open spec fn seq_campaigns(s: Seq<(String, Campaign)>) -> Map<Seq<char>, CampaignView>
    decreases s.len(),
{
    if s.len() == 0 {
        Map::empty()
    } else {
        seq_campaigns(s.drop_last()).insert(s.last().0@, s.last().1@)
    }
}

/// No two records are stored under the same name.
pub open spec fn distinct_names(s: Seq<(String, Campaign)>) -> bool {
    forall|i: int, j: int| 0 <= i < j < s.len() ==> s[i].0@ != s[j].0@
}

/// The whole persistent store, threaded through every handler call: one
/// reserved slot for the registry singleton, one record per campaign name,
/// and the ledger's own namespace. The three cannot collide.
pub struct Storage {
    pub config: Option<State>,
    pub campaigns: Vec<(String, Campaign)>,
    pub ledger: Ledger,
}

impl Storage {
    /// The mapping from campaign name to stored record.
    pub open spec fn campaigns_map(self) -> Map<Seq<char>, CampaignView> {
        seq_campaigns(self.campaigns@)
    }

    /// The registry's contents, if the registry was initialized.
    pub open spec fn registry(self) -> Option<Seq<Seq<char>>> {
        match self.config {
            Some(s) => Some(s@),
            None => None,
        }
    }

    /// The mapping from account to ledger balance.
    pub open spec fn balances(self) -> Map<Seq<char>, u128> {
        self.ledger.balances()
    }

    /// The balance of one account, zero when it has no entry.
    pub open spec fn balance(self, account: Seq<char>) -> u128 {
        self.ledger.balance(account)
    }

    /// The sum of all ledger balances.
    pub open spec fn total(self) -> int {
        self.ledger.total()
    }

    /// Well-formedness: one record per campaign name and a well-formed ledger.
    pub open spec fn wf(self) -> bool {
        &&& distinct_names(self.campaigns@)
        &&& self.ledger.wf()
    }

    /// A fresh, empty store: no registry yet, no records, no balances.
    pub fn new() -> (r: Storage)
        ensures
            r.wf(),
            r.config is None,
            r.campaigns_map() == Map::<Seq<char>, CampaignView>::empty(),
            r.balances() == Map::<Seq<char>, u128>::empty(),
            r.total() == 0,
    {
        Storage { config: None, campaigns: Vec::new(), ledger: Ledger::new() }
    }
}

/// Writes the registry singleton, overwriting whatever it held.
pub fn config(storage: &mut Storage, state: State)
    ensures
        *final(storage) == (Storage {
            config: Some(state),
            campaigns: old(storage).campaigns,
            ledger: old(storage).ledger,
        }),
{
    storage.config = Some(state);
}

/// Reads the registry singleton; fails with `NotFound` before initialization.
pub fn config_read(storage: &Storage) -> (r: Result<State, Error>)
    ensures
        match r {
            Ok(s) => {
                &&& storage.config is Some
                &&& s@ == storage.config->Some_0@
                &&& s.campaign_names@ == storage.config->Some_0.campaign_names@
            },
            Err(e) => e == Error::NotFound && storage.config is None,
        },
{
    match &storage.config {
        Some(s) => Ok(s.clone()),
        None => Err(Error::NotFound),
    }
}

/// The index of the record stored under `key`, if one exists.
fn find_campaign(storage: &Storage, key: &String) -> (r: Option<usize>)
    ensures
        match r {
            Some(i) => i < storage.campaigns@.len() && storage.campaigns@[i as int].0@ == key@,
            None => forall|j: int|
                0 <= j < storage.campaigns@.len() ==> storage.campaigns@[j].0@ != key@,
        },
{
    let mut k: usize = 0;
    while k < storage.campaigns.len()
        invariant
            k <= storage.campaigns@.len(),
            forall|j: int| 0 <= j < k ==> storage.campaigns@[j].0@ != key@,
        decreases storage.campaigns@.len() - k,
    {
        if storage.campaigns[k].0 == *key {
            return Some(k);
        }
        k = k + 1;
    }
    None
}

/// Stores `value` under `key`, overwriting a record already there. The
/// registry and the ledger are untouched.
pub fn save(storage: &mut Storage, key: &String, value: Campaign)
    requires
        old(storage).wf(),
    ensures
        final(storage).wf(),
        final(storage).campaigns_map() == old(storage).campaigns_map().insert(key@, value@),
        final(storage).config == old(storage).config,
        final(storage).ledger == old(storage).ledger,
{
    match find_campaign(storage, key) {
        Some(i) => {
            let entry = (key.clone(), value);
            proof {
                lemma_campaigns_update(storage.campaigns@, i as int, entry);
            }
            storage.campaigns.set(i, entry);
        },
        None => {
            let entry = (key.clone(), value);
            proof {
                lemma_campaigns_push(storage.campaigns@, entry);
            }
            storage.campaigns.push(entry);
        },
    }
}

/// Reads the record stored under `key`; fails with `NotFound` when there is
/// none.
pub fn load(storage: &Storage, key: &String) -> (r: Result<Campaign, Error>)
    requires
        storage.wf(),
    ensures
        match r {
            Ok(c) => storage.campaigns_map().contains_key(key@) && c@ == storage.campaigns_map()[key@],
            Err(e) => e == Error::NotFound && !storage.campaigns_map().contains_key(key@),
        },
{
    match find_campaign(storage, key) {
        Some(i) => {
            proof {
                lemma_campaigns_found(storage.campaigns@, i as int);
            }
            Ok(storage.campaigns[i].1.clone())
        },
        None => {
            proof {
                lemma_campaigns_absent(storage.campaigns@, key@);
            }
            Err(Error::NotFound)
        },
    }
}

/// Reads the record stored under `key`, `None` when there is none; absence is
/// not an error here.
pub fn may_load(storage: &Storage, key: &String) -> (r: Result<Option<Campaign>, Error>)
    requires
        storage.wf(),
    ensures
        match r {
            Ok(Some(c)) => storage.campaigns_map().contains_key(key@) && c@
                == storage.campaigns_map()[key@],
            Ok(None) => !storage.campaigns_map().contains_key(key@),
            Err(_) => false,
        },
{
    match find_campaign(storage, key) {
        Some(i) => {
            proof {
                lemma_campaigns_found(storage.campaigns@, i as int);
            }
            Ok(Some(storage.campaigns[i].1.clone()))
        },
        None => {
            proof {
                lemma_campaigns_absent(storage.campaigns@, key@);
            }
            Ok(None)
        },
    }
}

/// Appending a keyed record inserts it into the mapping.
proof fn lemma_campaigns_push(s: Seq<(String, Campaign)>, e: (String, Campaign))
    ensures
        seq_campaigns(s.push(e)) == seq_campaigns(s).insert(e.0@, e.1@),
{
    assert(s.push(e).drop_last() =~= s);
}

/// Replacing the record at `i` with one under the same name re-inserts that
/// name's record and leaves every other name's record as it was.
proof fn lemma_campaigns_update(s: Seq<(String, Campaign)>, i: int, e: (String, Campaign))
    requires
        0 <= i < s.len(),
        distinct_names(s),
        s[i].0@ == e.0@,
    ensures
        seq_campaigns(s.update(i, e)) == seq_campaigns(s).insert(e.0@, e.1@),
    decreases s.len(),
{
    if i == s.len() - 1 {
        assert(s.update(i, e).drop_last() =~= s.drop_last());
        assert(seq_campaigns(s.update(i, e)) =~= seq_campaigns(s).insert(e.0@, e.1@));
    } else {
        assert(s.update(i, e).drop_last() =~= s.drop_last().update(i, e));
        assert(distinct_names(s.drop_last()));
        lemma_campaigns_update(s.drop_last(), i, e);
        assert(s.update(i, e).last() == s.last());
        assert(s.last().0@ != e.0@);
        assert(seq_campaigns(s.update(i, e)) =~= seq_campaigns(s).insert(e.0@, e.1@));
    }
}

/// A name with a record at `i` (all names distinct) maps to that record.
proof fn lemma_campaigns_found(s: Seq<(String, Campaign)>, i: int)
    requires
        0 <= i < s.len(),
        distinct_names(s),
    ensures
        seq_campaigns(s).contains_key(s[i].0@),
        seq_campaigns(s)[s[i].0@] == s[i].1@,
    decreases s.len(),
{
    if i == s.len() - 1 {
    } else {
        assert(distinct_names(s.drop_last()));
        lemma_campaigns_found(s.drop_last(), i);
        assert(s.last().0@ != s[i].0@);
    }
}

/// A name with no record is absent from the mapping.
proof fn lemma_campaigns_absent(s: Seq<(String, Campaign)>, key: Seq<char>)
    requires
        forall|j: int| 0 <= j < s.len() ==> s[j].0@ != key,
    ensures
        !seq_campaigns(s).contains_key(key),
    decreases s.len(),
{
    if s.len() > 0 {
        lemma_campaigns_absent(s.drop_last(), key);
    }
}

} // verus!
