//! The registry's stored state: a singleton configuration and one record
//! per registered name. The records are held as a sequence of entries with
//! pairwise-distinct names; their mathematical value is the map from each
//! name to its owner.

use crate::coins::{clone_opt_coin, Coin, CoinView};
use vstd::pervasive::unreached;
use vstd::prelude::*;

verus! {

/// The two fees, stored verbatim at initialization and immutable
/// thereafter. An unset price demands nothing.
#[derive(Debug, PartialEq, Eq, Clone)]
pub struct Config {
    pub purchase_price: Option<Coin>,
    pub transfer_price: Option<Coin>,
}

/// The mathematical value of a `Config`.
pub struct ConfigView {
    pub purchase_price: Option<CoinView>,
    pub transfer_price: Option<CoinView>,
}

impl View for Config {
    type V = ConfigView;

    open spec fn view(&self) -> ConfigView {
        ConfigView {
            purchase_price: self.purchase_price.deep_view(),
            transfer_price: self.transfer_price.deep_view(),
        }
    }
}

/// One record: the address that owns a registered name.
#[derive(Debug, PartialEq, Eq, Clone)]
pub struct NameRecord {
    pub owner: String,
}

/// The mathematical value of a registry: the configuration, if set, and
/// the map from each registered name to its owner.
pub struct RegistryView {
    pub config: Option<ConfigView>,
    pub records: Map<Seq<char>, Seq<char>>,
}

/// The map stored by a sequence of name records: each entry maps its name
/// to its owner, later entries winning (no two entries share a name in a
/// well-formed registry, so nothing is ever won).
pub open spec fn record_map(entries: Seq<(String, NameRecord)>) -> Map<Seq<char>, Seq<char>>
    decreases entries.len(),
{
    if entries.len() == 0 {
        Map::empty()
    } else {
        record_map(entries.drop_last()).insert(entries.last().0@, entries.last().1.owner@)
    }
}

/// Whether no two entries carry the same name.
pub open spec fn unique_names(entries: Seq<(String, NameRecord)>) -> bool {
    forall|i: int, j: int| 0 <= i < j < entries.len() ==> entries[i].0@ != entries[j].0@
}

/// What resolution answers on a given stored state: the owner recorded
/// under the name, or nothing for a name that was never registered.
pub open spec fn spec_resolve(records: Map<Seq<char>, Seq<char>>, name: Seq<char>) -> Option<
    Seq<char>,
> {
    if records.contains_key(name) {
        Some(records[name])
    } else {
        None
    }
}

/// Resolution is pure: its answer is a function of the stored records and
/// the queried name alone, so repeated resolutions with no intervening
/// write return identical results.
pub proof fn lemma_resolve_pure(
    records: Map<Seq<char>, Seq<char>>,
    name: Seq<char>,
    r1: Option<Seq<char>>,
    r2: Option<Seq<char>>,
)
    requires
        r1 == spec_resolve(records, name),
        r2 == spec_resolve(records, name),
    ensures
        r1 == r2,
{
}

/// The name registry: a deterministic state machine keyed by name strings,
/// mapping each name to its owning address.
pub struct NameRegistry {
    config: Option<Config>,
    records: Vec<(String, NameRecord)>,
}

impl View for NameRegistry {
    type V = RegistryView;

    closed spec fn view(&self) -> RegistryView {
        RegistryView {
            config: match self.config {
                Some(c) => Some(c@),
                None => None,
            },
            records: record_map(self.records@),
        }
    }
}

proof fn lemma_unique_drop_last(entries: Seq<(String, NameRecord)>)
    requires
        unique_names(entries),
        entries.len() > 0,
    ensures
        unique_names(entries.drop_last()),
{
    assert forall|i: int, j: int|
        0 <= i < j < entries.drop_last().len() implies entries.drop_last()[i].0@
        != entries.drop_last()[j].0@ by {
        assert(entries.drop_last()[i] == entries[i]);
        assert(entries.drop_last()[j] == entries[j]);
    }
}

/// A name is in the stored map exactly when some entry carries it.
proof fn lemma_record_map_domain(entries: Seq<(String, NameRecord)>, name: Seq<char>)
    ensures
        record_map(entries).contains_key(name) <==> exists|i: int|
            0 <= i < entries.len() && entries[i].0@ == name,
    decreases entries.len(),
{
    if entries.len() == 0 {
    } else {
        lemma_record_map_domain(entries.drop_last(), name);
        let prefix = entries.drop_last();
        if record_map(entries).contains_key(name) {
            if entries.last().0@ == name {
                assert(entries[entries.len() - 1].0@ == name);
            } else {
                let i = choose|i: int| 0 <= i < prefix.len() && prefix[i].0@ == name;
                assert(entries[i].0@ == name);
            }
        }
        if exists|i: int| 0 <= i < entries.len() && entries[i].0@ == name {
            let i = choose|i: int| 0 <= i < entries.len() && entries[i].0@ == name;
            if i < entries.len() - 1 {
                assert(prefix[i].0@ == name);
            }
        }
    }
}

/// With pairwise-distinct names, the stored map sends each entry's name to
/// that entry's owner.
proof fn lemma_record_map_value(entries: Seq<(String, NameRecord)>, i: int)
    requires
        unique_names(entries),
        0 <= i < entries.len(),
    ensures
        record_map(entries).contains_key(entries[i].0@),
        record_map(entries)[entries[i].0@] == entries[i].1.owner@,
    decreases entries.len(),
{
    if i == entries.len() - 1 {
    } else {
        assert(entries[i].0@ != entries.last().0@);
        lemma_unique_drop_last(entries);
        lemma_record_map_value(entries.drop_last(), i);
        assert(entries.drop_last()[i] == entries[i]);
    }
}

/// Appending an entry inserts its record into the stored map.
proof fn lemma_record_map_push(entries: Seq<(String, NameRecord)>, e: (String, NameRecord))
    ensures
        record_map(entries.push(e)) == record_map(entries).insert(e.0@, e.1.owner@),
{
    assert(entries.push(e).drop_last() =~= entries);
    assert(entries.push(e).last() == e);
}

/// Replacing the entry at `i` by one carrying the same name inserts the
/// new record into the stored map, and keeps the names pairwise distinct.
proof fn lemma_record_map_update(
    pre: Seq<(String, NameRecord)>,
    post: Seq<(String, NameRecord)>,
    i: int,
)
    requires
        unique_names(pre),
        0 <= i < pre.len(),
        post == pre.update(i, post[i]),
        post[i].0@ == pre[i].0@,
    ensures
        record_map(post) == record_map(pre).insert(post[i].0@, post[i].1.owner@),
        unique_names(post),
    decreases pre.len(),
{
    if i == pre.len() - 1 {
        assert(post.drop_last() =~= pre.drop_last());
        assert(post.last() == post[i]);
        assert(record_map(post) =~= record_map(pre).insert(post[i].0@, post[i].1.owner@));
    } else {
        lemma_unique_drop_last(pre);
        assert(post.drop_last() =~= pre.drop_last().update(i, post[i]));
        lemma_record_map_update(pre.drop_last(), post.drop_last(), i);
        assert(post.last() == pre.last());
        assert(pre[i].0@ != pre.last().0@);
        assert(record_map(post) =~= record_map(pre).insert(post[i].0@, post[i].1.owner@));
    }
    assert forall|a: int, b: int| 0 <= a < b < post.len() implies post[a].0@ != post[b].0@ by {
        if a != i && b != i {
            assert(post[a] == pre[a]);
            assert(post[b] == pre[b]);
        }
    }
}

impl NameRegistry {
    /// The registry's names are pairwise distinct, so each holds exactly
    /// one record.
    pub closed spec fn wf(&self) -> bool {
        unique_names(self.records@)
    }

    /// An empty registry: no configuration, no records.
    pub fn new() -> (r: NameRegistry)
        ensures
            r.wf(),
            r@.config is None,
            r@.records == Map::<Seq<char>, Seq<char>>::empty(),
    {
        NameRegistry { config: None, records: Vec::new() }
    }

    /// Stores the configuration verbatim, silently overwriting any earlier
    /// one. The records are untouched.
    pub(crate) fn set_config(&mut self, config: Config)
        ensures
            final(self)@.config == Some(config@),
            final(self)@.records == old(self)@.records,
            final(self).wf() <==> old(self).wf(),
    {
        self.config = Some(config);
    }

    /// The stored configuration, or `None` before initialization.
    pub fn config_ref(&self) -> (r: &Option<Config>)
        ensures
            match *r {
                Some(c) => self@.config == Some(c@),
                None => self@.config is None,
            },
    {
        &self.config
    }

    /// An owned copy of the configuration, equal in value to the stored
    /// one. Initialization is the host's duty and is assumed here.
    pub fn get_config(&self) -> (r: Config)
        requires
            self@.config is Some,
        ensures
            Some(r@) == self@.config,
    {
        match &self.config {
            Some(c) => Config {
                purchase_price: clone_opt_coin(&c.purchase_price),
                transfer_price: clone_opt_coin(&c.transfer_price),
            },
            None => unreached(),
        }
    }

    /// The index of the entry carrying `name`, if one does.
    fn find_index(&self, name: &String) -> (r: Option<usize>)
        ensures
            match r {
                Some(i) => i < self.records@.len() && self.records@[i as int].0@ == name@,
                None => forall|k: int|
                    0 <= k < self.records@.len() ==> self.records@[k].0@ != name@,
            },
    {
        let mut i: usize = 0;
        while i < self.records.len()
            invariant
                i <= self.records@.len(),
                forall|k: int| 0 <= k < i ==> self.records@[k].0@ != name@,
            decreases self.records@.len() - i,
        {
            if self.records[i].0 == *name {
                return Some(i);
            }
            i += 1;
        }
        None
    }

    /// Whether `name` has a record.
    pub fn has_record(&self, name: &String) -> (r: bool)
        ensures
            r == self@.records.contains_key(name@),
    {
        proof {
            lemma_record_map_domain(self.records@, name@);
        }
        self.find_index(name).is_some()
    }

    /// The owner of `name`, or `None` if the name was never registered.
    /// A miss is a valid outcome, not an error.
    pub fn resolve(&self, name: &String) -> (r: Option<String>)
        requires
            self.wf(),
        ensures
            r.deep_view() == spec_resolve(self@.records, name@),
    {
        proof {
            lemma_record_map_domain(self.records@, name@);
        }
        match self.find_index(name) {
            Some(i) => {
                proof {
                    lemma_record_map_value(self.records@, i as int);
                }
                Some(self.records[i].1.owner.clone())
            },
            None => None,
        }
    }

    /// Creates the record of a name that has none.
    pub(crate) fn insert_record(&mut self, name: String, record: NameRecord)
        requires
            old(self).wf(),
            !old(self)@.records.contains_key(name@),
        ensures
            final(self).wf(),
            final(self)@.config == old(self)@.config,
            final(self)@.records == old(self)@.records.insert(name@, record.owner@),
    {
        let ghost old_entries = self.records@;
        let ghost key = name@;
        proof {
            lemma_record_map_domain(old_entries, key);
        }
        self.records.push((name, record));
        proof {
            let entries = self.records@;
            lemma_record_map_push(old_entries, entries.last());
            assert(entries.drop_last() =~= old_entries);
            assert forall|a: int, b: int| 0 <= a < b < entries.len() implies entries[a].0@
                != entries[b].0@ by {
                if b < entries.len() - 1 {
                    assert(entries[a] == old_entries[a]);
                    assert(entries[b] == old_entries[b]);
                } else {
                    assert(entries[a] == old_entries[a]);
                    assert(!(exists|k: int|
                        0 <= k < old_entries.len() && old_entries[k].0@ == key));
                }
            }
        }
    }

    /// The stored entries, for a host that persists the registry.
    pub fn entries(&self) -> (r: &Vec<(String, NameRecord)>)
        ensures
            record_map(r@) == self@.records,
            unique_names(r@) <==> self.wf(),
    {
        &self.records
    }

    /// Rebuilds a registry from a stored configuration and stored entries.
    /// The entries are accepted only if no two of them carry the same
    /// name; the host's storage is trusted no further than that.
    pub fn from_entries(config: Option<Config>, entries: Vec<(String, NameRecord)>) -> (r:
        Option<NameRegistry>)
        ensures
            match r {
                Some(reg) => {
                    &&& reg.wf()
                    &&& unique_names(entries@)
                    &&& reg@.records == record_map(entries@)
                    &&& match config {
                        Some(c) => reg@.config == Some(c@),
                        None => reg@.config is None,
                    }
                },
                None => !unique_names(entries@),
            },
    {
        let n = entries.len();
        let mut i: usize = 0;
        while i < n
            invariant
                i <= n,
                n == entries@.len(),
                forall|a: int, b: int| 0 <= a < b < i ==> entries@[a].0@ != entries@[b].0@,
            decreases n - i,
        {
            let mut j: usize = 0;
            while j < i
                invariant
                    j <= i < n,
                    n == entries@.len(),
                    forall|a: int| 0 <= a < j ==> entries@[a].0@ != entries@[i as int].0@,
                decreases i - j,
            {
                if entries[j].0 == entries[i].0 {
                    proof {
                        assert(entries@[j as int].0@ == entries@[i as int].0@);
                    }
                    return None;
                }
                j += 1;
            }
            i += 1;
        }
        Some(NameRegistry { config, records: entries })
    }

    /// Replaces the owner of a name that has a record.
    pub(crate) fn set_owner(&mut self, name: &String, new_owner: String)
        requires
            old(self).wf(),
            old(self)@.records.contains_key(name@),
        ensures
            final(self).wf(),
            final(self)@.config == old(self)@.config,
            final(self)@.records == old(self)@.records.insert(name@, new_owner@),
    {
        proof {
            lemma_record_map_domain(self.records@, name@);
        }
        match self.find_index(name) {
            Some(i) => {
                let ghost old_entries = self.records@;
                let entry = (name.clone(), NameRecord { owner: new_owner });
                self.records[i] = entry;
                proof {
                    lemma_record_map_update(old_entries, self.records@, i as int);
                }
            },
            None => unreached(),
        }
    }
}

} // verus!
