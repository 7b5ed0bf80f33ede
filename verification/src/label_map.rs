//! A map from text labels to values, kept in insertion order.

use vstd::prelude::*;
use vstd::string::*;

verus! {

struct Entry<T> {
    label: String,
    value: T,
}

/// A finite map keyed by label. A label occurs at most once: inserting under
/// a label that is present replaces its value.
pub struct LabelMap<T> {
    entries: Vec<Entry<T>>,
}

spec fn holds<T>(entries: Seq<Entry<T>>, label: Seq<char>) -> bool {
    exists|i: int| 0 <= i < entries.len() && #[trigger] entries[i].label@ == label
}

spec fn index_of<T>(entries: Seq<Entry<T>>, label: Seq<char>) -> int {
    choose|i: int| 0 <= i < entries.len() && #[trigger] entries[i].label@ == label
}

spec fn distinct<T>(entries: Seq<Entry<T>>) -> bool {
    forall|i: int, j: int|
        0 <= i < j < entries.len() ==> #[trigger] entries[i].label@ != #[trigger] entries[j].label@
}

impl<T> View for LabelMap<T> {
    type V = Map<Seq<char>, T>;

    closed spec fn view(&self) -> Map<Seq<char>, T> {
        Map::new(
            |label: Seq<char>| holds(self.entries@, label),
            |label: Seq<char>| self.entries@[index_of(self.entries@, label)].value,
        )
    }
}

impl<T> LabelMap<T> {
    #[verifier::type_invariant]
    spec fn labels_distinct(self) -> bool {
        distinct(self.entries@)
    }

    /// The map without entries.
    pub fn new() -> (m: Self)
        ensures
            m@ == Map::<Seq<char>, T>::empty(),
    {
        let m = LabelMap { entries: Vec::new() };
        assert(m@ =~= Map::<Seq<char>, T>::empty());
        m
    }

    /// The position of `label` among the entries, if it is there.
    fn position(&self, label: &String) -> (r: Option<usize>)
        ensures
            match r {
                Some(i) => i < self.entries.len() && self.entries[i as int].label@ == label@,
                None => !holds(self.entries@, label@),
            },
    {
        let mut i: usize = 0;
        while i < self.entries.len()
            invariant
                i <= self.entries.len(),
                forall|j: int| 0 <= j < i ==> self.entries[j].label@ != label@,
            decreases self.entries.len() - i,
        {
            if self.entries[i].label == *label {
                return Some(i);
            }
            i += 1;
        }
        None
    }

    /// The map with `value` under `label`, in place of what was there.
    pub fn with(self, label: String, value: T) -> (m: Self)
        ensures
            m@ == self@.insert(label@, value),
    {
        proof {
            use_type_invariant(&self);
        }
        let ghost before = self.entries@;
        let ghost key = label@;
        let found = self.position(&label);
        let mut entries = self.entries;
        match found {
            Some(i) => {
                entries.set(i, Entry { label, value });
                proof {
                    let after = entries@;
                    assert forall|l: Seq<char>| holds(after, l) <==> (l == key || holds(before, l)) by {
                        if holds(before, l) {
                            let j = index_of(before, l);
                            assert(after[j].label@ == l);
                        }
                        if l == key {
                            assert(after[i as int].label@ == l);
                        }
                        if holds(after, l) {
                            let j = index_of(after, l);
                            assert(before[j].label@ == l);
                        }
                    }
                    assert forall|l: Seq<char>| holds(after, l) implies after[index_of(after, l)].value
                        == (if l == key {
                        value
                    } else {
                        before[index_of(before, l)].value
                    }) by {
                        let j = index_of(after, l);
                        assert(before[j].label@ == l);
                        let k = index_of(before, l);
                        assert(j == k);
                    }
                }
            },
            None => {
                entries.push(Entry { label, value });
                proof {
                    let after = entries@;
                    let n = before.len() as int;
                    assert forall|l: Seq<char>| holds(after, l) <==> (l == key || holds(before, l)) by {
                        if holds(before, l) {
                            let j = index_of(before, l);
                            assert(after[j].label@ == l);
                        }
                        if l == key {
                            assert(after[n].label@ == l);
                        }
                        if holds(after, l) {
                            let j = index_of(after, l);
                            if j < n {
                                assert(before[j].label@ == l);
                            }
                        }
                    }
                    assert forall|l: Seq<char>| holds(after, l) implies after[index_of(after, l)].value
                        == (if l == key {
                        value
                    } else {
                        before[index_of(before, l)].value
                    }) by {
                        let j = index_of(after, l);
                        if j < n {
                            assert(before[j].label@ == l);
                            let k = index_of(before, l);
                            assert(j == k);
                        }
                    }
                }
            },
        }
        let m = LabelMap { entries };
        assert(m@ =~= self@.insert(key, value));
        m
    }

    /// The value under `label`, if there is one.
    pub fn get(&self, label: &str) -> (r: Option<&T>)
        ensures
            match r {
                Some(value) => self@.dom().contains(label@) && *value == self@[label@],
                None => !self@.dom().contains(label@),
            },
    {
        proof {
            use_type_invariant(self);
        }
        let owned: String = String::from_str(label);
        match self.position(&owned) {
            Some(i) => {
                proof {
                    let j = index_of(self.entries@, label@);
                    assert(j == i);
                }
                Some(&self.entries[i].value)
            },
            None => None,
        }
    }

    /// Tells whether there is a value under `label`.
    pub fn contains_key(&self, label: &str) -> (r: bool)
        ensures
            r == self@.dom().contains(label@),
    {
        self.get(label).is_some()
    }

    /// The number of labels in the map.
    pub fn len(&self) -> (n: usize)
        ensures
            n == self@.dom().len(),
            self@.dom().finite(),
    {
        proof {
            use_type_invariant(self);
            lemma_len(self.entries@);
        }
        self.entries.len()
    }
}

proof fn lemma_len<T>(entries: Seq<Entry<T>>)
    requires
        distinct(entries),
    ensures
        Set::new(|l: Seq<char>| holds(entries, l)).finite(),
        Set::new(|l: Seq<char>| holds(entries, l)).len() == entries.len(),
    decreases entries.len(),
{
    let all = Set::new(|l: Seq<char>| holds(entries, l));
    if entries.len() == 0 {
        assert(all =~= Set::<Seq<char>>::empty());
    } else {
        let rest = entries.drop_last();
        let last = entries.last().label@;
        lemma_len(rest);
        let fewer = Set::new(|l: Seq<char>| holds(rest, l));
        assert forall|l: Seq<char>| all.contains(l) <==> fewer.insert(last).contains(l) by {
            if holds(rest, l) {
                let j = index_of(rest, l);
                assert(entries[j].label@ == l);
            }
            if l == last {
                assert(entries[entries.len() - 1].label@ == l);
            }
            if holds(entries, l) {
                let j = index_of(entries, l);
                if j < rest.len() {
                    assert(rest[j].label@ == l);
                }
            }
        }
        assert(all =~= fewer.insert(last));
        assert(!fewer.contains(last)) by {
            if holds(rest, last) {
                let j = index_of(rest, last);
                assert(entries[j].label@ == last);
            }
        }
    }
}

} // verus!
