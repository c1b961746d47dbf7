//! A small table of scores by name, which keeps its entries in the order in
//! which their names first came.

use vstd::prelude::*;
use vstd::string::*;
use crate::text::same_text;

verus! {

/// Scores by name. A table is in order when no name occurs twice in it
/// (`distinct_names`): `new` makes such a table, and `insert` and `remove`
/// keep it so.
pub struct Scores {
    entries: Vec<(String, i32)>,
}

/// Whether no two entries of a table carry the same name.
pub open spec fn distinct_names(entries: Seq<(Seq<char>, i32)>) -> bool {
    forall|i: int, j: int|
        0 <= i < j < entries.len() ==> (#[trigger] entries[i]).0 != (#[trigger] entries[j]).0
}

/// Whether some entry of a table carries `name`.
pub open spec fn has_name(entries: Seq<(Seq<char>, i32)>, name: Seq<char>) -> bool {
    exists|i: int| 0 <= i < entries.len() && (#[trigger] entries[i]).0 == name
}

/// The place of the entry that carries `name`, where there is one.
pub open spec fn place_of(entries: Seq<(Seq<char>, i32)>, name: Seq<char>) -> int {
    choose|i: int| 0 <= i < entries.len() && (#[trigger] entries[i]).0 == name
}

/// The score that a table holds under `name`, if any.
pub open spec fn score_of(entries: Seq<(Seq<char>, i32)>, name: Seq<char>) -> Option<i32> {
    if has_name(entries, name) {
        Some(entries[place_of(entries, name)].1)
    } else {
        None
    }
}

impl View for Scores {
    type V = Seq<(Seq<char>, i32)>;

    /// The entries, each a name and its score, oldest name first.
    closed spec fn view(&self) -> Seq<(Seq<char>, i32)> {
        Seq::new(self.entries@.len(), |i: int| (self.entries@[i].0@, self.entries@[i].1))
    }
}

impl Scores {
    /// A table without entries.
    pub fn new() -> (scores: Scores)
        ensures
            scores@ == Seq::<(Seq<char>, i32)>::empty(),
            distinct_names(scores@),
    {
        Scores { entries: Vec::new() }
    }

    /// The number of entries.
    pub fn len(&self) -> (count: usize)
        ensures
            count == self@.len(),
    {
        self.entries.len()
    }

    /// The place of the entry under `name`, if there is one.
    fn find(&self, name: &str) -> (found: Option<usize>)
        requires
            distinct_names(self@),
        ensures
            found.is_some() == has_name(self@, name@),
            found.is_some() ==> found.unwrap() == place_of(self@, name@),
    {
        let mut i: usize = 0;
        while i < self.entries.len()
            invariant
                i <= self.entries.len(),
                self@.len() == self.entries.len(),
                distinct_names(self@),
                forall|k: int| 0 <= k < i ==> (#[trigger] self@[k]).0 != name@,
            decreases self.entries.len() - i,
        {
            if same_text(self.entries[i].0.as_str(), name) {
                assert(self@[i as int].0 == name@);
                return Some(i);
            }
            i = i + 1;
        }
        None
    }

    /// The score under `name`, if the table holds one.
    pub fn get(&self, name: &str) -> (score: Option<i32>)
        requires
            distinct_names(self@),
        ensures
            score == score_of(self@, name@),
    {
        match self.find(name) {
            Some(place) => Some(self.entries[place].1),
            None => None,
        }
    }

    /// The score under a name that the table holds.
    pub fn index(&self, name: &str) -> (score: i32)
        requires
            distinct_names(self@),
            has_name(self@, name@),
        ensures
            Some(score) == score_of(self@, name@),
    {
        let place = self.find(name).unwrap();
        self.entries[place].1
    }

    /// The entry at `place`: its name and its score.
    pub fn entry(&self, place: usize) -> (entry: (&str, i32))
        requires
            place < self@.len(),
        ensures
            entry.0@ == self@[place as int].0,
            entry.1 == self@[place as int].1,
    {
        (self.entries[place].0.as_str(), self.entries[place].1)
    }

    /// Puts `score` under `name`. A name that the table holds keeps its place
    /// and gets the new score, and the old score is handed back; a new name
    /// goes to the end.
    pub fn insert(&mut self, name: &str, score: i32) -> (previous: Option<i32>)
        requires
            distinct_names(old(self)@),
        ensures
            previous == score_of(old(self)@, name@),
            has_name(old(self)@, name@) ==> final(self)@ == old(self)@.update(
                place_of(old(self)@, name@),
                (name@, score),
            ),
            !has_name(old(self)@, name@) ==> final(self)@ == old(self)@.push((name@, score)),
            distinct_names(final(self)@),
    {
        match self.find(name) {
            Some(place) => {
                let previous = self.entries[place].1;
                self.entries.set(place, (name.to_owned(), score));
                assert(self@ =~= old(self)@.update(place as int, (name@, score)));
                Some(previous)
            },
            None => {
                self.entries.push((name.to_owned(), score));
                assert(self@ =~= old(self)@.push((name@, score)));
                None
            },
        }
    }

    /// Takes the entry under `name` out, if there is one, and hands its score
    /// back. The other entries keep their order.
    pub fn remove(&mut self, name: &str) -> (removed: Option<i32>)
        requires
            distinct_names(old(self)@),
        ensures
            removed == score_of(old(self)@, name@),
            has_name(old(self)@, name@) ==> final(self)@ == old(self)@.remove(
                place_of(old(self)@, name@),
            ),
            !has_name(old(self)@, name@) ==> final(self)@ == old(self)@,
            !has_name(final(self)@, name@),
            distinct_names(final(self)@),
    {
        match self.find(name) {
            Some(place) => {
                let entry = self.entries.remove(place);
                assert(self@ =~= old(self)@.remove(place as int));
                Some(entry.1)
            },
            None => None,
        }
    }
}

} // verus!
