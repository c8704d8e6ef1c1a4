//! The name registry: which display name each connection has registered.
//!
//! A registry never forgets: the name of a connection that is gone stays. The
//! sessions of one relay share one registry; since `register` takes the
//! registry by unique reference, whoever shares it decides how to take turns.
use vstd::prelude::*;
use vstd::string::*;
use crate::envelope::texts_of;

verus! {

/// One registration: a connection identity and the display name under it.
pub type Entry = (Seq<char>, Seq<char>);

/// Whether an identity has registered.
pub open spec fn has_id(entries: Seq<Entry>, id: Seq<char>) -> bool {
    exists|i: int| 0 <= i < entries.len() && (#[trigger] entries[i]).0 == id
}

/// The place of an identity that has registered.
pub open spec fn place_of(entries: Seq<Entry>, id: Seq<char>) -> int {
    choose|i: int| 0 <= i < entries.len() && (#[trigger] entries[i]).0 == id
}

/// No identity occurs twice.
pub open spec fn distinct_ids(entries: Seq<Entry>) -> bool {
    forall|i: int, j: int|
        0 <= i < j < entries.len() ==> (#[trigger] entries[i]).0 != (#[trigger] entries[j]).0
}

/// The display name of a connection: the name it registered last, or its own
/// identity where it never registered.
pub open spec fn name_of(entries: Seq<Entry>, id: Seq<char>) -> Seq<char> {
    if has_id(entries, id) {
        entries[place_of(entries, id)].1
    } else {
        id
    }
}

/// The entries after a registration: the name replaces the one that the
/// identity had, or a new entry comes last.
pub open spec fn registered(entries: Seq<Entry>, id: Seq<char>, name: Seq<char>) -> Seq<Entry> {
    if has_id(entries, id) {
        entries.update(place_of(entries, id), (id, name))
    } else {
        entries.push((id, name))
    }
}

/// The display names, one for each identity, in the order in which the
/// identities first registered.
pub open spec fn names_of(entries: Seq<Entry>) -> Seq<Seq<char>> {
    entries.map_values(|entry: Entry| entry.1)
}

/// The registry as a mapping from identity to display name.
pub open spec fn mapping_of(entries: Seq<Entry>) -> Map<Seq<char>, Seq<char>> {
    Map::new(|id: Seq<char>| has_id(entries, id), |id: Seq<char>| name_of(entries, id))
}

/// The mapping from connection identity to display name.
pub struct Registry {
    entries: Vec<(String, String)>,
}

impl View for Registry {
    type V = Seq<Entry>;

    closed spec fn view(&self) -> Seq<Entry> {
        self.entries@.map_values(|entry: (String, String)| (entry.0@, entry.1@))
    }
}

impl Registry {
    /// Whether a value is one that the functions of this type make: no
    /// identity occurs twice in it.
    pub open spec fn wf(self) -> bool {
        distinct_ids(self@)
    }

    /// The registry in which nobody has registered.
    pub fn new() -> (r: Registry)
        ensures
            r@ == Seq::<Entry>::empty(),
            r.wf(),
    {
        Registry { entries: Vec::new() }
    }

    /// The place of an identity among the entries.
    fn find(&self, id: &String) -> (r: Option<usize>)
        requires
            self.wf(),
        ensures
            match r {
                Some(i) => {
                    &&& i < self.entries@.len()
                    &&& has_id(self@, id@)
                    &&& place_of(self@, id@) == i
                },
                None => !has_id(self@, id@),
            },
    {
        let mut i: usize = 0;
        while i < self.entries.len()
            invariant
                i <= self.entries@.len(),
                distinct_ids(self@),
                forall|k: int| 0 <= k < i ==> (#[trigger] self@[k]).0 != id@,
            decreases self.entries@.len() - i,
        {
            if self.entries[i].0 == *id {
                assert(self@[i as int].0 == id@);
                return Some(i);
            }
            i += 1;
        }
        None
    }

    /// Records that a connection goes by a display name from now on: the
    /// name replaces the one that the identity had, or a new entry comes last.
    pub fn register(&mut self, id: &str, name: &str)
        requires
            old(self).wf(),
        ensures
            final(self)@ == registered(old(self)@, id@, name@),
            final(self).wf(),
    {
        let id = String::from_str(id);
        let name = String::from_str(name);
        match self.find(&id) {
            Some(i) => {
                self.entries.set(i, (id, name));
            },
            None => {
                self.entries.push((id, name));
            },
        }
        assert(self@ =~= registered(old(self)@, id@, name@));
    }

    /// The display name of a connection: the name it registered last, or its
    /// own identity where it never registered.
    pub fn lookup(&self, id: &str) -> (r: String)
        requires
            self.wf(),
        ensures
            r@ == name_of(self@, id@),
    {
        let id = String::from_str(id);
        match self.find(&id) {
            Some(i) => self.entries[i].1.clone(),
            None => id,
        }
    }

    /// The display names that are registered, one for each identity, in the
    /// order in which the identities first registered.
    pub fn snapshot(&self) -> (r: Vec<String>)
        ensures
            texts_of(r@) == names_of(self@),
    {
        let mut out: Vec<String> = Vec::new();
        let mut i: usize = 0;
        while i < self.entries.len()
            invariant
                i <= self.entries@.len(),
                out@.len() == i,
                forall|k: int| 0 <= k < i ==> (#[trigger] out@[k])@ == self.entries@[k].1@,
            decreases self.entries@.len() - i,
        {
            out.push(self.entries[i].1.clone());
            i += 1;
        }
        out
    }

    /// How many identities have registered.
    pub fn len(&self) -> (r: usize)
        ensures
            r == self@.len(),
    {
        self.entries.len()
    }
}

/// A registration keeps the identities distinct.
pub proof fn lemma_registered_distinct(entries: Seq<Entry>, id: Seq<char>, name: Seq<char>)
    requires
        distinct_ids(entries),
    ensures
        distinct_ids(registered(entries, id, name)),
{
}

/// Registering inserts or overwrites: the identity goes by the new name, and
/// every other identity goes by the name it had.
pub proof fn lemma_registered_names(
    entries: Seq<Entry>,
    id: Seq<char>,
    name: Seq<char>,
    other: Seq<char>,
)
    requires
        distinct_ids(entries),
    ensures
        has_id(registered(entries, id, name), id),
        name_of(registered(entries, id, name), id) == name,
        other != id ==> has_id(registered(entries, id, name), other) == has_id(entries, other),
        other != id ==> name_of(registered(entries, id, name), other) == name_of(entries, other),
{
    let after = registered(entries, id, name);
    lemma_registered_distinct(entries, id, name);
    if has_id(entries, id) {
        let at = place_of(entries, id);
        assert(after[at].0 == id);
    } else {
        assert(after[entries.len() as int].0 == id);
    }
    if other != id {
        if has_id(entries, other) {
            let at = place_of(entries, other);
            assert(after[at] == entries[at]);
        }
    }
}

/// As a mapping, a registry after a registration is the mapping before with
/// the one pair inserted.
pub proof fn lemma_registered_mapping(entries: Seq<Entry>, id: Seq<char>, name: Seq<char>)
    requires
        distinct_ids(entries),
    ensures
        mapping_of(registered(entries, id, name)) == mapping_of(entries).insert(id, name),
{
    let after = registered(entries, id, name);
    let inserted = mapping_of(entries).insert(id, name);
    assert forall|other: Seq<char>| #[trigger]
        mapping_of(after).dom().contains(other) implies inserted.dom().contains(other)
        && mapping_of(after)[other] == inserted[other] by {
        lemma_registered_names(entries, id, name, other);
    }
    assert forall|other: Seq<char>| #[trigger]
        inserted.dom().contains(other) implies mapping_of(after).dom().contains(other) by {
        lemma_registered_names(entries, id, name, other);
    }
}

/// A name that was just registered is among the names of a snapshot.
pub proof fn lemma_registered_in_snapshot(entries: Seq<Entry>, id: Seq<char>, name: Seq<char>)
    ensures
        names_of(registered(entries, id, name)).contains(name),
{
    let after = registered(entries, id, name);
    if has_id(entries, id) {
        let at = place_of(entries, id);
        assert(names_of(after)[at] == name);
    } else {
        assert(names_of(after)[entries.len() as int] == name);
    }
}

/// Two snapshots of one registry, with no registration between them, hold
/// the same names the same number of times.
pub proof fn lemma_snapshot_idempotent(registry: Registry, first: Vec<String>, second: Vec<String>)
    requires
        texts_of(first@) == names_of(registry@),
        texts_of(second@) == names_of(registry@),
    ensures
        texts_of(first@).to_multiset() == texts_of(second@).to_multiset(),
{
}

} // verus!
