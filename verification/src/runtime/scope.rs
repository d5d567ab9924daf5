//! Scopes: finite maps from variable names to stored slots.
use crate::data_type::SpecStoredValue;
use crate::data_type::StoredValue;
use crate::text::str_eq;
use vstd::prelude::*;

verus! {

/// The mathematical model of a [`Scope`].
pub type SpecScope = Map<Seq<char>, SpecStoredValue>;

/// One variable of a scope.
struct Entry {
    name: String,
    slot: StoredValue,
}

/// A scope: the variables of one tier, each name at most once.
pub struct Scope {
    entries: Vec<Entry>,
}

/// Whether no two entries have the same name.
spec fn distinct(entries: Seq<Entry>) -> bool {
    forall|i: int, j: int|
        0 <= i < entries.len() && 0 <= j < entries.len() && i != j ==> entries[i].name@
            != entries[j].name@
}

/// Whether `name` is the name of the entry at `index`.
spec fn names(entries: Seq<Entry>, index: int, name: Seq<char>) -> bool {
    0 <= index < entries.len() && entries[index].name@ == name
}

/// The map that a list of entries with distinct names stands for.
spec fn map_of(entries: Seq<Entry>) -> SpecScope {
    Map::new(
        |name: Seq<char>| exists|i: int| names(entries, i, name),
        |name: Seq<char>| entries[choose|i: int| names(entries, i, name)].slot@,
    )
}

impl View for Scope {
    type V = SpecScope;

    closed spec fn view(&self) -> SpecScope {
        map_of(self.entries@)
    }
}

impl Scope {
    #[verifier::type_invariant]
    spec fn well_formed(&self) -> bool {
        distinct(self.entries@)
    }

    /// A scope without variables.
    pub fn new() -> (scope: Scope)
        ensures
            scope@ == Map::<Seq<char>, SpecStoredValue>::empty(),
    {
        let scope = Scope { entries: Vec::new() };
        assert(scope@ =~= Map::<Seq<char>, SpecStoredValue>::empty());
        scope
    }

    /// The index of the entry named `name`.
    fn position(&self, name: &str) -> (found: Option<usize>)
        ensures
            match found {
                Some(index) => names(self.entries@, index as int, name@),
                None => forall|i: int| !names(self.entries@, i, name@),
            },
    {
        let mut index: usize = 0;
        while index < self.entries.len()
            invariant
                index <= self.entries.len(),
                forall|i: int| 0 <= i < index ==> !names(self.entries@, i, name@),
            decreases self.entries.len() - index,
        {
            if str_eq(self.entries[index].name.as_str(), name) {
                return Some(index);
            }
            index += 1;
        }
        None
    }

    /// Whether the scope has a variable `name`.
    pub fn contains(&self, name: &str) -> (present: bool)
        ensures
            present == self@.contains_key(name@),
    {
        self.position(name).is_some()
    }

    /// The slot of the variable `name`, if the scope has one.
    pub fn get(&self, name: &str) -> (slot: Option<&StoredValue>)
        ensures
            match slot {
                Some(slot) => self@.contains_key(name@) && self@[name@] == slot@,
                None => !self@.contains_key(name@),
            },
    {
        proof {
            use_type_invariant(self);
        }
        match self.position(name) {
            Some(index) => {
                assert(names(self.entries@, index as int, name@));
                Some(&self.entries[index].slot)
            },
            None => None,
        }
    }

    /// Binds `name` to `slot`, in place of what it was bound to, if anything.
    pub fn insert(&mut self, name: String, slot: StoredValue)
        ensures
            final(self)@ == old(self)@.insert(name@, slot@),
    {
        proof {
            use_type_invariant(&*self);
        }
        let ghost before = self.entries@;
        let found = self.position(name.as_str());
        let mut entries: Vec<Entry> = Vec::new();
        std::mem::swap(&mut entries, &mut self.entries);
        assert(entries@ == before);
        match found {
            Some(index) => {
                entries[index].slot = slot;
                proof {
                    lemma_replaced(before, entries@, index as int);
                }
            },
            None => {
                entries.push(Entry { name, slot });
                proof {
                    assert(entries@.drop_last() =~= before);
                    lemma_appended(before, entries@);
                }
            },
        }
        self.entries = entries;
    }
}

/// Replacing the slot of one entry keeps the names distinct and binds the
/// entry's name to the new slot.
proof fn lemma_replaced(before: Seq<Entry>, after: Seq<Entry>, index: int)
    requires
        distinct(before),
        0 <= index < before.len(),
        after.len() == before.len(),
        forall|i: int| 0 <= i < before.len() ==> #[trigger] after[i].name == before[i].name,
        forall|i: int|
            0 <= i < before.len() && i != index ==> #[trigger] after[i].slot == before[i].slot,
    ensures
        distinct(after),
        map_of(after) == map_of(before).insert(after[index].name@, after[index].slot@),
{
    assert forall|i: int, key: Seq<char>| names(after, i, key) <==> names(before, i, key) by {}
    assert(names(after, index, after[index].name@));
    assert forall|key: Seq<char>| #[trigger]
        map_of(after).contains_key(key) implies map_of(after)[key] == map_of(before).insert(
        after[index].name@,
        after[index].slot@,
    )[key] by {
        let i = choose|i: int| names(after, i, key);
        assert(names(before, i, key));
        let j = choose|j: int| names(before, j, key);
        assert(i == j);
    }
    assert(map_of(after) =~= map_of(before).insert(after[index].name@, after[index].slot@));
}

/// Appending an entry with a new name keeps the names distinct and binds the
/// new name.
proof fn lemma_appended(before: Seq<Entry>, after: Seq<Entry>)
    requires
        distinct(before),
        after.len() == before.len() + 1,
        after.drop_last() == before,
        forall|i: int| !names(before, i, after.last().name@),
    ensures
        distinct(after),
        map_of(after) == map_of(before).insert(after.last().name@, after.last().slot@),
{
    let name = after.last().name@;
    assert forall|i: int, key: Seq<char>| names(after, i, key) <==> (names(before, i, key) || (i
        == before.len() && key == name)) by {
        if 0 <= i < before.len() {
            assert(after[i] == before[i]);
        }
    }
    assert forall|i: int, j: int|
        0 <= i < after.len() && 0 <= j < after.len() && i != j implies after[i].name@
        != after[j].name@ by {
        assert(names(after, i, after[i].name@));
        assert(names(after, j, after[j].name@));
    }
    assert(names(after, before.len() as int, name));
    assert forall|key: Seq<char>| #[trigger]
        map_of(after).contains_key(key) implies map_of(after)[key] == map_of(before).insert(
        name,
        after.last().slot@,
    )[key] by {
        let i = choose|i: int| names(after, i, key);
        if key != name {
            assert(names(before, i, key));
            let j = choose|j: int| names(before, j, key);
            assert(i == j);
            assert(after[i] == before[i]);
        } else {
            assert(i == before.len());
        }
    }
    assert(map_of(after) =~= map_of(before).insert(name, after.last().slot@));
}

} // verus!
