use vstd::prelude::*;
use vstd::std_specs::iter::IteratorSpec;

verus! {

/// What a leaderboard can hold: items that can be ranked.
pub trait LeaderboardItem: Ord {}

impl<T: Ord> LeaderboardItem for T {}

/// A collection of items, kept in the order they were added.
pub struct Leaderboard<T: LeaderboardItem> {
    collection: Vec<T>,
}

impl<T: LeaderboardItem> View for Leaderboard<T> {
    type V = Seq<T>;

    closed spec fn view(&self) -> Seq<T> {
        self.collection@
    }
}

impl<T: LeaderboardItem> Leaderboard<T> {
    pub fn new(collection: Vec<T>) -> (r: Self)
        ensures
            r@ == collection@,
    {
        Self { collection }
    }

    pub fn add(&mut self, item: T)
        ensures
            final(self)@ == old(self)@.push(item),
    {
        self.collection.push(item);
    }

    /// The items, in the order they were added.
    pub fn iter(&self) -> (r: std::slice::Iter<'_, T>)
        ensures
            r.remaining() == self@.as_ref(),
    {
        broadcast use vstd::std_specs::slice::axiom_spec_slice_iter;

        self.collection.as_slice().iter()
    }
}

} // verus!
