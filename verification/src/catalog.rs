//! The catalog: packets under unique string keys, and lookups into it.
//!
//! A catalog is read as a `Map` from key to packet. It also remembers the
//! order in which its keys first arrived, which is the order a listing shows.

use crate::packet::{ExercisePacket, PacketView};
use crate::question::Question;
use crate::text::str_eq;
use vstd::prelude::*;
use vstd::seq_lib::seq_to_set_is_finite;
use vstd::set_lib::lemma_subset_equality;
use vstd::std_specs::cmp::PartialEqSpecImpl;

verus! {

/// The one failure of a lookup: no packet under the key, or no question at
/// the index. It carries nothing, and does not say which of the two it was.
#[derive(Clone, Copy, Debug, PartialEq, Eq, Structural)]
pub struct NotFound;

#[derive(Debug)]
struct Entry {
    key: String,
    packet: ExercisePacket,
}

spec fn entry_keys(entries: Seq<Entry>) -> Seq<Seq<char>> {
    entries.map_values(|e: Entry| e.key@)
}

spec fn entry_map(entries: Seq<Entry>) -> Map<Seq<char>, PacketView> {
    Map::new(
        |k: Seq<char>| entry_keys(entries).contains(k),
        |k: Seq<char>| entries[entry_keys(entries).index_of(k)].packet@,
    )
}

/// Where keys are distinct, the entry at a position is what the map holds
/// under that entry's key.
proof fn lemma_entry_at(entries: Seq<Entry>, i: int)
    requires
        entry_keys(entries).no_duplicates(),
        0 <= i < entries.len(),
    ensures
        entry_map(entries).dom().contains(entries[i].key@),
        entry_map(entries)[entries[i].key@] == entries[i].packet@,
{
    let keys = entry_keys(entries);
    assert(keys[i] == entries[i].key@);
}

/// Appending an entry under a fresh key adds one binding and one listed key.
proof fn lemma_entry_pushed(entries: Seq<Entry>, entry: Entry)
    requires
        entry_keys(entries).no_duplicates(),
        !entry_keys(entries).contains(entry.key@),
    ensures
        entry_keys(entries.push(entry)) == entry_keys(entries).push(entry.key@),
        entry_keys(entries.push(entry)).no_duplicates(),
        entry_map(entries.push(entry)) == entry_map(entries).insert(entry.key@, entry.packet@),
{
    let grown = entries.push(entry);
    assert(entry_keys(grown) =~= entry_keys(entries).push(entry.key@));
    assert forall|k: Seq<char>| #[trigger]
        entry_map(grown).dom().contains(k) <==> entry_map(entries).insert(
            entry.key@,
            entry.packet@,
        ).dom().contains(k) by {
        if entry_keys(entries).contains(k) {
            let i = choose|i: int| 0 <= i < entries.len() && entry_keys(entries)[i] == k;
            assert(entry_keys(grown)[i] == k);
        }
        if k == entry.key@ {
            assert(entry_keys(grown)[entries.len() as int] == k);
        }
    }
    assert forall|k: Seq<char>| #[trigger] entry_map(grown).dom().contains(k) implies entry_map(
        grown,
    )[k] == entry_map(entries).insert(entry.key@, entry.packet@)[k] by {
        let i = entry_keys(grown).index_of(k);
        lemma_entry_at(grown, i);
        if i < entries.len() {
            lemma_entry_at(entries, i);
        }
    }
}

/// Replacing the entry at a position by one with the same key rebinds that
/// key and leaves the listed keys as they were.
proof fn lemma_entry_replaced(entries: Seq<Entry>, i: int, entry: Entry)
    requires
        entry_keys(entries).no_duplicates(),
        0 <= i < entries.len(),
        entries[i].key@ == entry.key@,
    ensures
        entry_keys(entries.update(i, entry)) == entry_keys(entries),
        entry_map(entries.update(i, entry)) == entry_map(entries).insert(
            entry.key@,
            entry.packet@,
        ),
{
    let changed = entries.update(i, entry);
    assert(entry_keys(changed) =~= entry_keys(entries));
    lemma_entry_at(entries, i);
    assert forall|k: Seq<char>| #[trigger] entry_map(changed).dom().contains(k) implies entry_map(
        changed,
    )[k] == entry_map(entries).insert(entry.key@, entry.packet@)[k] by {
        let j = entry_keys(changed).index_of(k);
        assert(entry_keys(entries)[i] == entry.key@);
        lemma_entry_at(changed, j);
        lemma_entry_at(entries, j);
    }
}

/// Where keys are distinct, there are as many bindings as entries.
proof fn lemma_entry_count(entries: Seq<Entry>)
    requires
        entry_keys(entries).no_duplicates(),
    ensures
        entry_map(entries).dom().finite(),
        entry_map(entries).dom().len() == entries.len(),
{
    let keys = entry_keys(entries);
    seq_to_set_is_finite(keys);
    keys.unique_seq_to_set();
}

/// The position of the entry under `key`, if there is one.
fn position(entries: &Vec<Entry>, key: &str) -> (found: Option<usize>)
    ensures
        match found {
            Some(i) => i < entries@.len() && entries@[i as int].key@ == key@,
            None => !entry_keys(entries@).contains(key@),
        },
{
    let mut i: usize = 0;
    while i < entries.len()
        invariant
            i <= entries@.len(),
            forall|j: int| 0 <= j < i ==> entries@[j].key@ != key@,
        decreases entries@.len() - i,
    {
        if str_eq(entries[i].key.as_str(), key) {
            return Some(i);
        }
        i += 1;
    }
    assert(forall|j: int| 0 <= j < entries@.len() ==> entry_keys(entries@)[j] != key@);
    None
}

/// Exercise packets under unique string keys.
#[derive(Debug)]
pub struct Catalog {
    entries: Vec<Entry>,
}

impl View for Catalog {
    type V = Map<Seq<char>, PacketView>;

    closed spec fn view(&self) -> Map<Seq<char>, PacketView> {
        entry_map(self.entries@)
    }
}

impl Catalog {
    #[verifier::type_invariant]
    spec fn well_formed(&self) -> bool {
        entry_keys(self.entries@).no_duplicates()
    }

    /// The keys in the order in which they first arrived: the order of a
    /// listing.
    pub closed spec fn keys(&self) -> Seq<Seq<char>> {
        entry_keys(self.entries@)
    }

    /// The catalog without packets.
    pub fn new() -> (catalog: Catalog)
        ensures
            catalog@ == Map::<Seq<char>, PacketView>::empty(),
            catalog.keys() == Seq::<Seq<char>>::empty(),
    {
        Catalog { entries: Vec::new() }
    }

    /// The number of packets.
    pub fn len(&self) -> (count: usize)
        ensures
            self@.dom().finite(),
            count == self@.len(),
    {
        proof {
            use_type_invariant(self);
            lemma_entry_count(self.entries@);
        }
        self.entries.len()
    }

    /// Puts `packet` under `key`. A packet that was under that key is
    /// replaced, and the key keeps its place in the listing; a new key goes
    /// to the end of the listing.
    pub fn insert(&mut self, key: String, packet: ExercisePacket)
        ensures
            final(self)@ == old(self)@.insert(key@, packet@),
            final(self).keys() == if old(self)@.dom().contains(key@) {
                old(self).keys()
            } else {
                old(self).keys().push(key@)
            },
    {
        proof {
            use_type_invariant(&*self);
        }
        let mut entries: Vec<Entry> = Vec::new();
        std::mem::swap(&mut entries, &mut self.entries);
        let ghost before = entries@;
        let found = position(&entries, key.as_str());
        let entry = Entry { key, packet };
        match found {
            Some(i) => {
                proof {
                    lemma_entry_at(before, i as int);
                    lemma_entry_replaced(before, i as int, entry);
                }
                entries.set(i, entry);
            },
            None => {
                proof {
                    lemma_entry_pushed(before, entry);
                }
                entries.push(entry);
            },
        }
        self.entries = entries;
    }

    /// Every key of the catalog, each exactly once, in listing order. An empty
    /// catalog gives an empty list.
    pub fn list_packet_keys(&self) -> (keys: Vec<String>)
        ensures
            keys.deep_view() == self.keys(),
            forall|k: Seq<char>|
                keys.deep_view().to_multiset().count(k) == if self@.dom().contains(k) {
                    1nat
                } else {
                    0nat
                },
    {
        let mut keys: Vec<String> = Vec::new();
        let mut i: usize = 0;
        while i < self.entries.len()
            invariant
                i <= self.entries@.len(),
                keys@.len() == i,
                forall|j: int| 0 <= j < i ==> keys@[j]@ == self.entries@[j].key@,
            decreases self.entries@.len() - i,
        {
            keys.push(self.entries[i].key.clone());
            i += 1;
        }
        proof {
            use_type_invariant(self);
            assert(keys.deep_view() =~= self.keys());
            self.lemma_each_key_listed_once();
        }
        keys
    }

    /// The packet under `key`, compared exactly.
    pub fn get_packet(&self, key: &str) -> (found: Result<&ExercisePacket, NotFound>)
        ensures
            match found {
                Ok(packet) => self@.dom().contains(key@) && packet@ == self@[key@],
                Err(_) => !self@.dom().contains(key@),
            },
    {
        proof {
            use_type_invariant(self);
        }
        match position(&self.entries, key) {
            Some(i) => {
                proof {
                    lemma_entry_at(self.entries@, i as int);
                }
                Ok(&self.entries[i].packet)
            },
            None => Err(NotFound),
        }
    }

    /// The question at `index` of the packet under `key`. An unknown key and
    /// an index past the packet's last question fail alike.
    pub fn get_question(&self, key: &str, index: usize) -> (found: Result<&Question, NotFound>)
        ensures
            match found {
                Ok(question) => {
                    &&& self@.dom().contains(key@)
                    &&& index < self@[key@].questions.len()
                    &&& question@ == self@[key@].questions[index as int]
                },
                Err(_) => !(self@.dom().contains(key@) && index < self@[key@].questions.len()),
            },
    {
        match self.get_packet(key) {
            Ok(packet) => {
                if index < packet.questions.len() {
                    Ok(&packet.questions[index])
                } else {
                    Err(NotFound)
                }
            },
            Err(e) => Err(e),
        }
    }

    /// A key is listed exactly when the catalog holds a packet under it.
    pub proof fn lemma_listed_iff_held(&self, key: Seq<char>)
        ensures
            self.keys().contains(key) <==> self@.dom().contains(key),
    {
    }

    /// In a listing, a key of the catalog occurs once and any other key does
    /// not occur.
    proof fn lemma_each_key_listed_once(&self)
        requires
            self.well_formed(),
        ensures
            forall|k: Seq<char>|
                self.keys().to_multiset().count(k) == if self@.dom().contains(k) {
                    1nat
                } else {
                    0nat
                },
    {
        let keys = self.keys();
        keys.lemma_multiset_has_no_duplicates();
        assert forall|k: Seq<char>|
            keys.to_multiset().count(k) == if self@.dom().contains(k) {
                1nat
            } else {
                0nat
            } by {
            keys.to_multiset_ensures();
        }
    }
}

impl PartialEq for Catalog {
    /// Two catalogs are equal when they hold the same keys and, under each
    /// key, equal packets. The order of a listing plays no part.
    fn eq(&self, other: &Catalog) -> (same: bool) {
        if self.len() != other.len() {
            return false;
        }
        let mut i: usize = 0;
        while i < self.entries.len()
            invariant
                i <= self.entries@.len(),
                forall|j: int|
                    0 <= j < i ==> other@.dom().contains(#[trigger] self.entries@[j].key@)
                        && other@[self.entries@[j].key@] == self.entries@[j].packet@,
            decreases self.entries@.len() - i,
        {
            proof {
                use_type_invariant(self);
                lemma_entry_at(self.entries@, i as int);
            }
            match other.get_packet(self.entries[i].key.as_str()) {
                Ok(packet) => {
                    if *packet != self.entries[i].packet {
                        return false;
                    }
                },
                Err(_) => {
                    return false;
                },
            }
            i += 1;
        }
        proof {
            use_type_invariant(self);
            assert forall|k: Seq<char>| self@.dom().contains(k) implies other@.dom().contains(k)
                && other@[k] == self@[k] by {
                let j = entry_keys(self.entries@).index_of(k);
                lemma_entry_at(self.entries@, j);
            }
            lemma_subset_equality(self@.dom(), other@.dom());
            assert(self@ =~= other@);
        }
        true
    }
}

impl PartialEqSpecImpl for Catalog {
    open spec fn obeys_eq_spec() -> bool {
        true
    }

    open spec fn eq_spec(&self, other: &Catalog) -> bool {
        self@ == other@
    }
}

} // verus!
