//! The ids under which sound sources are registered.

use vstd::prelude::*;

use super::traits::str_equal;

verus! {

/// The ids after registering `id`: a new id is appended, a known one keeps
/// its place.
pub open spec fn ids_after_insert(ids: Seq<Seq<char>>, id: Seq<char>) -> Seq<Seq<char>> {
    if ids.contains(id) {
        ids
    } else {
        ids.push(id)
    }
}

/// No id occurs twice.
pub open spec fn ids_distinct(ids: Seq<Seq<char>>) -> bool {
    forall|i: int, j: int| 0 <= i < j < ids.len() ==> ids[i] != ids[j]
}

/// The ids of the registered sound sources, in the order they were first
/// registered. Registering an id again keeps its place, so the position of
/// an id names one registry entry.
pub struct SourceIndex {
    ids: Vec<String>,
}

impl View for SourceIndex {
    type V = Seq<Seq<char>>;

    closed spec fn view(&self) -> Seq<Seq<char>> {
        self.ids@.map_values(|id: String| id@)
    }
}

impl SourceIndex {
    /// An index with no ids.
    pub fn new() -> (index: Self)
        ensures
            index@ == Seq::<Seq<char>>::empty(),
    {
        let index = SourceIndex { ids: Vec::new() };
        assert(index@ =~= Seq::<Seq<char>>::empty());
        index
    }

    /// The number of registered ids.
    pub fn len(&self) -> (count: usize)
        ensures
            count == self@.len(),
    {
        self.ids.len()
    }

    /// The position of `id`, if it is registered.
    pub fn find(&self, id: &str) -> (position: Option<usize>)
        ensures
            position is None <==> !self@.contains(id@),
            position matches Some(i) ==> i < self@.len() && self@[i as int] == id@ && forall|j: int|
                0 <= j < i ==> self@[j] != id@,
    {
        let n = self.ids.len();
        let mut i: usize = 0;
        while i < n
            invariant
                n == self@.len(),
                n == self.ids@.len(),
                i <= n,
                forall|j: int| 0 <= j < i ==> self@[j] != id@,
            decreases n - i,
        {
            assert(self@[i as int] == self.ids@[i as int]@);
            if str_equal(self.ids[i].as_str(), id) {
                return Some(i);
            }
            i = i + 1;
        }
        None
    }

    /// Whether `id` is registered.
    pub fn contains(&self, id: &str) -> (found: bool)
        ensures
            found == self@.contains(id@),
    {
        self.find(id).is_some()
    }

    /// Registers `id` and returns its position: the position it already has,
    /// or the end of the index for a new id.
    pub fn insert(&mut self, id: &str) -> (position: usize)
        ensures
            final(self)@ == ids_after_insert(old(self)@, id@),
            position < final(self)@.len(),
            final(self)@[position as int] == id@,
            old(self)@.contains(id@) ==> forall|j: int| 0 <= j < position ==> old(self)@[j] != id@,
            !old(self)@.contains(id@) ==> position == old(self)@.len(),
    {
        match self.find(id) {
            Some(i) => i,
            None => {
                let position = self.ids.len();
                let ghost before = self@;
                self.ids.push(id.to_owned());
                assert(self@ =~= before.push(id@));
                position
            },
        }
    }
}

/// Registering ids never records one twice.
pub proof fn lemma_insert_keeps_ids_distinct(ids: Seq<Seq<char>>, id: Seq<char>)
    requires
        ids_distinct(ids),
    ensures
        ids_distinct(ids_after_insert(ids, id)),
{
    if !ids.contains(id) {
        let after = ids.push(id);
        assert forall|i: int, j: int| 0 <= i < j < after.len() implies after[i] != after[j] by {
            if j == ids.len() {
                assert(after[i] == ids[i]);
            }
        }
    }
}

} // verus!
