//! A table from names to values.

use vstd::prelude::*;

verus! {

/// The map that a list of entries stands for: each name bound to its value.
/// Where a name occurs twice, the later entry counts.
pub open spec fn entries_map<V>(entries: Seq<(String, V)>) -> Map<Seq<char>, V>
    decreases entries.len(),
{
    if entries.len() == 0 {
        Map::empty()
    } else {
        entries_map(entries.drop_last()).insert(entries.last().0@, entries.last().1)
    }
}

/// Whether entry `i` is the last one with the name `name`.
pub open spec fn last_with<V>(entries: Seq<(String, V)>, name: Seq<char>, i: int) -> bool {
    &&& 0 <= i < entries.len()
    &&& entries[i].0@ == name
    &&& forall|j: int| i < j < entries.len() ==> (#[trigger] entries[j]).0@ != name
}

/// A name that no entry has is not bound.
proof fn lemma_absent<V>(entries: Seq<(String, V)>, name: Seq<char>)
    requires
        forall|j: int| 0 <= j < entries.len() ==> (#[trigger] entries[j]).0@ != name,
    ensures
        !entries_map(entries).contains_key(name),
    decreases entries.len(),
{
    if entries.len() > 0 {
        let front = entries.drop_last();
        assert forall|j: int| 0 <= j < front.len() implies (#[trigger] front[j]).0@ != name by {
            assert(entries[j].0@ != name);
        }
        lemma_absent(front, name);
        assert(entries[entries.len() - 1].0@ != name);
    }
}

/// A name is bound to the value of the last entry that has it.
proof fn lemma_last_value<V>(entries: Seq<(String, V)>, name: Seq<char>, i: int)
    requires
        last_with(entries, name, i),
    ensures
        entries_map(entries).contains_key(name),
        entries_map(entries)[name] == entries[i].1,
    decreases entries.len(),
{
    if i < entries.len() - 1 {
        let front = entries.drop_last();
        assert(last_with(front, name, i)) by {
            assert(front[i] == entries[i]);
            assert forall|j: int| i < j < front.len() implies (#[trigger] front[j]).0@ != name by {
                assert(entries[j].0@ != name);
            }
        }
        lemma_last_value(front, name, i);
        assert(entries[entries.len() - 1].0@ != name);
    }
}

/// Replacing the last entry that has a name rebinds the name.
proof fn lemma_update_last<V>(entries: Seq<(String, V)>, i: int, entry: (String, V))
    requires
        last_with(entries, entry.0@, i),
    ensures
        entries_map(entries.update(i, entry)) == entries_map(entries).insert(entry.0@, entry.1),
    decreases entries.len(),
{
    let after = entries.update(i, entry);
    let front = entries.drop_last();
    if i == entries.len() - 1 {
        assert(after.drop_last() =~= front);
        assert(entries_map(after) =~= entries_map(entries).insert(entry.0@, entry.1));
    } else {
        assert(last_with(front, entry.0@, i)) by {
            assert(front[i] == entries[i]);
            assert forall|j: int| i < j < front.len() implies (#[trigger] front[j]).0@
                != entry.0@ by {
                assert(entries[j].0@ != entry.0@);
            }
        }
        lemma_update_last(front, i, entry);
        assert(after.drop_last() =~= front.update(i, entry));
        assert(after.last() == entries.last());
        assert(entries[entries.len() - 1].0@ != entry.0@);
        assert(entries_map(after) =~= entries_map(entries).insert(entry.0@, entry.1));
    }
}

/// Taking out an entry changes nothing for the other names.
proof fn lemma_remove_entry<V>(entries: Seq<(String, V)>, i: int)
    requires
        0 <= i < entries.len(),
    ensures
        entries_map(entries.remove(i)).remove(entries[i].0@) == entries_map(entries).remove(
            entries[i].0@,
        ),
    decreases entries.len(),
{
    let after = entries.remove(i);
    let front = entries.drop_last();
    let name = entries[i].0@;
    if i == entries.len() - 1 {
        assert(after =~= front);
        assert(entries_map(after).remove(name) =~= entries_map(entries).remove(name));
    } else {
        lemma_remove_entry(front, i);
        assert(front[i] == entries[i]);
        assert(after.drop_last() =~= front.remove(i));
        assert(after.last() == entries.last());
        let a = entries_map(front.remove(i));
        let b = entries_map(front);
        let left = entries_map(after).remove(name);
        let right = entries_map(entries).remove(name);
        assert(entries_map(after) == a.insert(entries.last().0@, entries.last().1));
        assert(entries_map(entries) == b.insert(entries.last().0@, entries.last().1));
        assert forall|k: Seq<char>| #[trigger]
            left.dom().contains(k) == right.dom().contains(k) by {
            if k != name {
                assert(a.remove(name).dom().contains(k) == b.remove(name).dom().contains(k));
            }
        }
        assert forall|k: Seq<char>| #[trigger] left.dom().contains(k) implies left[k]
            == right[k] by {
            if k != name {
                assert(a.remove(name).dom().contains(k) == b.remove(name).dom().contains(k));
                assert(a.remove(name)[k] == b.remove(name)[k]);
            }
        }
        assert(left =~= right);
    }
}

/// Names bound to values. The view is the map from each name to its value.
pub struct Table<V> {
    entries: Vec<(String, V)>,
}

impl<V> View for Table<V> {
    type V = Map<Seq<char>, V>;

    closed spec fn view(&self) -> Map<Seq<char>, V> {
        entries_map(self.entries@)
    }
}

impl<V: Copy> Table<V> {
    /// A table that binds nothing.
    pub fn new() -> (made: Table<V>)
        ensures
            made@ == Map::<Seq<char>, V>::empty(),
    {
        Table { entries: Vec::new() }
    }

    /// The index of the last entry with this name, if there is one.
    fn position(&self, name: &String) -> (found: Option<usize>)
        ensures
            match found {
                Some(i) => last_with(self.entries@, name@, i as int),
                None => !self@.contains_key(name@),
            },
    {
        let mut i: usize = self.entries.len();
        while i > 0
            invariant
                i <= self.entries@.len(),
                forall|k: int|
                    i <= k < self.entries@.len() ==> (#[trigger] self.entries@[k]).0@ != name@,
            decreases i,
        {
            i -= 1;
            if self.entries[i].0 == *name {
                return Some(i);
            }
        }
        proof {
            lemma_absent(self.entries@, name@);
        }
        None
    }

    /// The value that a name is bound to.
    pub fn get(&self, name: &String) -> (value: Option<V>)
        ensures
            value == (if self@.contains_key(name@) {
                Some(self@[name@])
            } else {
                None
            }),
    {
        match self.position(name) {
            Some(i) => {
                proof {
                    lemma_last_value(self.entries@, name@, i as int);
                }
                Some(self.entries[i].1)
            },
            None => None,
        }
    }

    /// Binds a name, in place of what it was bound to.
    pub fn insert(&mut self, name: String, value: V)
        ensures
            final(self)@ == old(self)@.insert(name@, value),
    {
        match self.position(&name) {
            Some(i) => {
                proof {
                    lemma_update_last(self.entries@, i as int, (name, value));
                }
                self.entries.set(i, (name, value));
            },
            None => {
                let ghost before = self.entries@;
                self.entries.push((name, value));
                assert(self.entries@.drop_last() =~= before);
            },
        }
    }

    /// Unbinds a name and gives what it was bound to.
    pub fn remove(&mut self, name: &String) -> (value: Option<V>)
        ensures
            final(self)@ == old(self)@.remove(name@),
            value == (if old(self)@.contains_key(name@) {
                Some(old(self)@[name@])
            } else {
                None
            }),
    {
        let value = self.get(name);
        loop
            invariant
                self@.remove(name@) == old(self)@.remove(name@),
            ensures
                !self@.contains_key(name@),
            decreases self.entries@.len(),
        {
            match self.position(name) {
                Some(i) => {
                    proof {
                        lemma_remove_entry(self.entries@, i as int);
                    }
                    self.entries.remove(i);
                },
                None => {
                    break ;
                },
            }
        }
        assert(self@.remove(name@) =~= self@);
        value
    }

    /// Binds in `target` every name that is bound here, to its value here.
    pub fn pour_into(&self, target: &mut Table<V>)
        ensures
            final(target)@ == old(target)@.union_prefer_right(self@),
    {
        let ghost before = target@;
        let mut i: usize = 0;
        assert(self.entries@.take(0) =~= Seq::<(String, V)>::empty());
        assert(before.union_prefer_right(Map::<Seq<char>, V>::empty()) =~= before);
        while i < self.entries.len()
            invariant
                i <= self.entries@.len(),
                target@ == before.union_prefer_right(entries_map(self.entries@.take(i as int))),
            decreases self.entries@.len() - i,
        {
            let ghost poured = entries_map(self.entries@.take(i as int));
            assert(self.entries@.take(i + 1).drop_last() =~= self.entries@.take(i as int));
            let entry = &self.entries[i];
            target.insert(entry.0.clone(), entry.1);
            assert(target@ =~= before.union_prefer_right(poured.insert(entry.0@, entry.1)));
            i += 1;
        }
        assert(self.entries@.take(self.entries@.len() as int) =~= self.entries@);
    }
}

} // verus!
