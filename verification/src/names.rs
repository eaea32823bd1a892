//! A map from names to values.
use vstd::prelude::*;

verus! {

/// A finite map whose keys are texts. No name occurs twice, and a name keeps the place at which it
/// was first entered.
#[derive(Debug)]
#[verifier::reject_recursive_types(T)]
pub struct NameMap<T: View> {
    entries: Vec<(String, T)>,
}

/// The map that a list of entries stands for, none of whose names occurs twice.
pub open spec fn entries_map<T: View>(entries: Seq<(String, T)>) -> Map<Seq<char>, T::V>
    decreases entries.len(),
{
    if entries.len() == 0 {
        Map::empty()
    } else {
        entries_map(entries.drop_last()).insert(entries.last().0@, entries.last().1@)
    }
}

/// Whether no name occurs twice among the entries.
pub open spec fn distinct<T>(entries: Seq<(String, T)>) -> bool {
    forall|i: int, j: int|
        0 <= i < j < entries.len() ==> (#[trigger] entries[i]).0@ != (#[trigger] entries[j]).0@
}

/// What the map holds under the name at each place, and that it holds nothing else.
pub proof fn entries_are_the_map<T: View>(entries: Seq<(String, T)>)
    requires
        distinct(entries),
    ensures
        forall|i: int|
            0 <= i < entries.len() ==> entries_map(entries).contains_key(
                (#[trigger] entries[i]).0@,
            ) && entries_map(entries)[entries[i].0@] == entries[i].1@,
        forall|name: Seq<char>| #[trigger]
            entries_map(entries).contains_key(name) ==> exists|i: int|
                0 <= i < entries.len() && (#[trigger] entries[i]).0@ == name,
    decreases entries.len(),
{
    if entries.len() > 0 {
        let shorter = entries.drop_last();
        assert forall|i: int, j: int| 0 <= i < j < shorter.len() implies (
        #[trigger] shorter[i]).0@ != (#[trigger] shorter[j]).0@ by {
            assert(shorter[i] == entries[i] && shorter[j] == entries[j]);
        }
        entries_are_the_map(shorter);
        let last = entries.len() - 1;
        assert forall|i: int| 0 <= i < entries.len() implies entries_map(entries).contains_key(
            (#[trigger] entries[i]).0@,
        ) && entries_map(entries)[entries[i].0@] == entries[i].1@ by {
            if i < last {
                assert(shorter[i] == entries[i]);
                assert(entries[i].0@ != entries[last].0@);
            }
        }
        assert forall|name: Seq<char>| #[trigger]
            entries_map(entries).contains_key(name) implies exists|i: int|
            0 <= i < entries.len() && (#[trigger] entries[i]).0@ == name by {
            if name == entries[last].0@ {
                assert(entries[last].0@ == name);
            } else {
                assert(entries_map(shorter).contains_key(name));
                let i = choose|i: int| 0 <= i < shorter.len() && (#[trigger] shorter[i]).0@ == name;
                assert(entries[i] == shorter[i]);
            }
        }
    }
}

/// Two lists that differ only in what stands under one name stand for maps that do.
proof fn lemma_replaced<T: View>(
    before: Seq<(String, T)>,
    after: Seq<(String, T)>,
    name: Seq<char>,
    value: T::V,
)
    requires
        distinct(before),
        distinct(after),
        before.len() <= after.len(),
        forall|i: int|
            0 <= i < before.len() && (#[trigger] before[i]).0@ != name ==> after[i] == before[i],
        forall|i: int|
            0 <= i < after.len() && (#[trigger] after[i]).0@ != name ==> i < before.len()
                && after[i] == before[i],
        exists|i: int|
            0 <= i < after.len() && (#[trigger] after[i]).0@ == name && after[i].1@ == value,
    ensures
        entries_map(after) == entries_map(before).insert(name, value),
{
    entries_are_the_map(before);
    entries_are_the_map(after);
    let left = entries_map(after);
    let right = entries_map(before).insert(name, value);
    assert forall|key: Seq<char>| left.contains_key(key) == right.contains_key(key) by {
        if left.contains_key(key) {
            let i = choose|i: int| 0 <= i < after.len() && (#[trigger] after[i]).0@ == key;
            if key != name {
                assert(before[i].0@ == key);
            }
        }
        if right.contains_key(key) && key != name {
            let i = choose|i: int| 0 <= i < before.len() && (#[trigger] before[i]).0@ == key;
            assert(after[i].0@ == key);
        }
    }
    assert forall|key: Seq<char>| left.contains_key(key) implies left[key] == right[key] by {
        let i = choose|i: int| 0 <= i < after.len() && (#[trigger] after[i]).0@ == key;
        if key != name {
            assert(before[i].0@ == key);
        }
    }
    assert(left =~= right);
}

/// Taking one entry out of the list takes its name out of the map.
proof fn lemma_removed<T: View>(entries: Seq<(String, T)>, place: int)
    requires
        distinct(entries),
        0 <= place < entries.len(),
    ensures
        distinct(entries.remove(place)),
        entries_map(entries.remove(place)) == entries_map(entries).remove(entries[place].0@),
{
    let after = entries.remove(place);
    let name = entries[place].0@;
    assert forall|i: int, j: int| 0 <= i < j < after.len() implies (#[trigger] after[i]).0@ != (
    #[trigger] after[j]).0@ by {
        let a = if i < place { i } else { i + 1 };
        let b = if j < place { j } else { j + 1 };
        assert(after[i] == entries[a] && after[j] == entries[b]);
    }
    entries_are_the_map(entries);
    entries_are_the_map(after);
    let left = entries_map(after);
    let right = entries_map(entries).remove(name);
    assert forall|key: Seq<char>| left.contains_key(key) == right.contains_key(key) by {
        if left.contains_key(key) {
            let i = choose|i: int| 0 <= i < after.len() && (#[trigger] after[i]).0@ == key;
            let a = if i < place { i } else { i + 1 };
            assert(after[i] == entries[a]);
        }
        if right.contains_key(key) {
            let a = choose|a: int| 0 <= a < entries.len() && (#[trigger] entries[a]).0@ == key;
            let i = if a < place { a } else { a - 1 };
            assert(after[i] == entries[a]);
        }
    }
    assert forall|key: Seq<char>| left.contains_key(key) implies left[key] == right[key] by {
        let i = choose|i: int| 0 <= i < after.len() && (#[trigger] after[i]).0@ == key;
        let a = if i < place { i } else { i + 1 };
        assert(after[i] == entries[a]);
    }
    assert(left =~= right);
}

/// A list without repeated names stands for a map of as many names.
proof fn lemma_count<T: View>(entries: Seq<(String, T)>)
    requires
        distinct(entries),
    ensures
        entries_map(entries).dom().finite(),
        entries_map(entries).dom().len() == entries.len(),
    decreases entries.len(),
{
    if entries.len() > 0 {
        let shorter = entries.drop_last();
        let last = entries.len() - 1;
        assert forall|i: int, j: int| 0 <= i < j < shorter.len() implies (
        #[trigger] shorter[i]).0@ != (#[trigger] shorter[j]).0@ by {
            assert(shorter[i] == entries[i] && shorter[j] == entries[j]);
        }
        lemma_count(shorter);
        entries_are_the_map(shorter);
        let name = entries[last].0@;
        if entries_map(shorter).contains_key(name) {
            let i = choose|i: int| 0 <= i < shorter.len() && (#[trigger] shorter[i]).0@ == name;
            assert(shorter[i] == entries[i]);
            assert(entries[i].0@ != entries[last].0@);
        }
        assert(entries_map(entries).dom() =~= entries_map(shorter).dom().insert(name));
    }
}

impl<T: View> View for NameMap<T> {
    type V = Map<Seq<char>, T::V>;

    closed spec fn view(&self) -> Map<Seq<char>, T::V> {
        entries_map(self.entries@)
    }
}

impl<T: View> NameMap<T> {
    #[verifier::type_invariant]
    spec fn well_formed(self) -> bool {
        distinct(self.entries@)
    }

    /// The map that holds nothing.
    pub fn new() -> (map: Self)
        ensures
            map@ == Map::<Seq<char>, T::V>::empty(),
    {
        NameMap { entries: Vec::new() }
    }

    /// Where `name` stands among the entries.
    fn position(entries: &Vec<(String, T)>, name: &str) -> (place: Option<usize>)
        ensures
            match place {
                Some(place) => place < entries@.len() && entries@[place as int].0@ == name@,
                None => forall|i: int|
                    0 <= i < entries@.len() ==> (#[trigger] entries@[i]).0@ != name@,
            },
    {
        let wanted: String = name.to_owned();
        let mut i: usize = 0;
        while i < entries.len()
            invariant
                wanted@ == name@,
                i <= entries@.len(),
                forall|j: int| 0 <= j < i ==> (#[trigger] entries@[j]).0@ != name@,
            decreases entries@.len() - i,
        {
            if entries[i].0 == wanted {
                return Some(i);
            }
            i = i + 1;
        }
        None
    }

    /// The value under `name`.
    pub fn get(&self, name: &str) -> (value: Option<&T>)
        ensures
            match value {
                Some(value) => self@.contains_key(name@) && self@[name@] == value@,
                None => !self@.contains_key(name@),
            },
    {
        proof {
            use_type_invariant(self);
            entries_are_the_map(self.entries@);
        }
        match Self::position(&self.entries, name) {
            Some(place) => Some(&self.entries[place].1),
            None => None,
        }
    }

    /// Puts `value` under `name`, in place of what stood there before.
    pub fn insert(&mut self, name: &str, value: T)
        ensures
            final(self)@ == old(self)@.insert(name@, value@),
    {
        proof {
            use_type_invariant(&*self);
        }
        let ghost before = self.entries@;
        let mut entries: Vec<(String, T)> = Vec::new();
        std::mem::swap(&mut self.entries, &mut entries);
        match Self::position(&entries, name) {
            Some(place) => {
                entries.set(place, (name.to_owned(), value));
                assert(entries@[place as int].0@ == name@);
            },
            None => {
                entries.push((name.to_owned(), value));
                assert(entries@.last().0@ == name@);
            },
        }
        proof {
            entries_are_the_map(before);
            entries_are_the_map(entries@);
            lemma_replaced(before, entries@, name@, value@);
        }
        self.entries = entries;
    }

    /// Takes out what stands under `name`.
    pub fn remove(&mut self, name: &str) -> (value: Option<T>)
        ensures
            final(self)@ == old(self)@.remove(name@),
            match value {
                Some(value) => old(self)@.contains_key(name@) && old(self)@[name@] == value@,
                None => !old(self)@.contains_key(name@),
            },
    {
        proof {
            use_type_invariant(&*self);
            entries_are_the_map(self.entries@);
        }
        let ghost before = self.entries@;
        let mut entries: Vec<(String, T)> = Vec::new();
        std::mem::swap(&mut self.entries, &mut entries);
        match Self::position(&entries, name) {
            Some(place) => {
                let (_, value) = entries.remove(place);
                proof {
                    lemma_removed(before, place as int);
                }
                self.entries = entries;
                Some(value)
            },
            None => {
                proof {
                    assert(before == entries@);
                    assert(entries_map(before).remove(name@) =~= entries_map(before));
                }
                self.entries = entries;
                None
            },
        }
    }

    /// How many names the map holds.
    pub fn len(&self) -> (count: usize)
        ensures
            count == self@.dom().len(),
            self@.dom().finite(),
    {
        proof {
            use_type_invariant(self);
            lemma_count(self.entries@);
        }
        self.entries.len()
    }

    /// Whether the map holds nothing.
    pub fn is_empty(&self) -> (empty: bool)
        ensures
            empty == (self@ == Map::<Seq<char>, T::V>::empty()),
    {
        proof {
            use_type_invariant(self);
            entries_are_the_map(self.entries@);
            if self.entries@.len() > 0 {
                assert(self@.contains_key(self.entries@[0].0@));
            }
        }
        self.entries.len() == 0
    }

    /// The entries, each name once.
    pub fn entries(&self) -> (entries: &Vec<(String, T)>)
        ensures
            distinct(entries@),
            self@ == entries_map(entries@),
    {
        proof {
            use_type_invariant(self);
        }
        &self.entries
    }
}

/// Lists that hold equal values under equal names stand for the same map.
proof fn lemma_same_entries<T: View>(left: Seq<(String, T)>, right: Seq<(String, T)>)
    requires
        left.len() == right.len(),
        forall|i: int| 0 <= i < left.len() ==> (#[trigger] left[i]).0@ == right[i].0@,
    ensures
        entries_map(left).dom() == entries_map(right).dom(),
        (forall|i: int| 0 <= i < left.len() ==> (#[trigger] left[i]).1@ == right[i].1@)
            ==> entries_map(left) == entries_map(right),
    decreases left.len(),
{
    if left.len() > 0 {
        let shorter = left.drop_last();
        assert forall|i: int| 0 <= i < shorter.len() implies (#[trigger] shorter[i]).0@
            == right.drop_last()[i].0@ by {
            assert(shorter[i] == left[i]);
        }
        lemma_same_entries(shorter, right.drop_last());
        assert(entries_map(left).dom() =~= entries_map(shorter).dom().insert(left.last().0@));
        assert(entries_map(right).dom() =~= entries_map(right.drop_last()).dom().insert(
            right.last().0@,
        ));
        if forall|i: int| 0 <= i < left.len() ==> (#[trigger] left[i]).1@ == right[i].1@ {
            assert forall|i: int| 0 <= i < shorter.len() implies (#[trigger] shorter[i]).1@
                == right.drop_last()[i].1@ by {
                assert(shorter[i] == left[i]);
            }
            assert(left[left.len() - 1].1@ == right[left.len() - 1].1@);
        }
    }
}

impl<T: View + Clone> Clone for NameMap<T> {
    /// The copy holds the same names. Where copying a value keeps what it says, the copy says the
    /// same under each of them.
    fn clone(&self) -> (copy: Self)
        ensures
            copy@.dom() == self@.dom(),
            (forall|value: T, twin: T| #[trigger] cloned::<T>(value, twin) ==> value@ == twin@)
                ==> copy@ == self@,
    {
        proof {
            use_type_invariant(self);
        }
        let mut entries: Vec<(String, T)> = Vec::new();
        let mut i: usize = 0;
        while i < self.entries.len()
            invariant
                i <= self.entries@.len(),
                entries@.len() == i,
                forall|j: int|
                    0 <= j < i ==> {
                        &&& (#[trigger] entries@[j]).0@ == self.entries@[j].0@
                        &&& cloned::<T>(self.entries@[j].1, entries@[j].1)
                    },
            decreases self.entries@.len() - i,
        {
            let (name, value) = &self.entries[i];
            entries.push((name.clone(), value.clone()));
            i = i + 1;
        }
        proof {
            assert forall|a: int, b: int| 0 <= a < b < entries@.len() implies (
            #[trigger] entries@[a]).0@ != (#[trigger] entries@[b]).0@ by {
                assert(self.entries@[a].0@ != self.entries@[b].0@);
            }
            lemma_same_entries(entries@, self.entries@);
        }
        NameMap { entries }
    }
}

} // verus!
