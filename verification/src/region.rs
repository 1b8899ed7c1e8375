//! The reusable capture region: positions of capture groups from the most
//! recent successful search.

use vstd::prelude::*;

verus! {

/// A region contains text positions for capture groups in a match result.
///
/// Index 0 is the whole match. The region is overwritten by each successful
/// search and grows as needed, so one region can be reused across searches
/// of different patterns.
#[derive(Clone, Debug, PartialEq, Eq)]
pub struct Region {
    positions: Vec<Option<(usize, usize)>>,
}

impl View for Region {
    type V = Seq<Option<(usize, usize)>>;

    closed spec fn view(&self) -> Seq<Option<(usize, usize)>> {
        self.positions@
    }
}

impl Region {
    /// Create an empty region.
    pub fn new() -> (r: Self)
        ensures
            r@ == Seq::<Option<(usize, usize)>>::empty(),
    {
        Region { positions: Vec::new() }
    }

    /// Get the start/end byte positions of the capture group with the given
    /// index.
    ///
    /// If there is no match for that group or the index does not correspond
    /// to a group of the most recent populating search, `None` is returned.
    /// The index 0 returns the whole match.
    pub fn pos(&self, index: usize) -> (r: Option<(usize, usize)>)
        ensures
            r == (if index < self@.len() { self@[index as int] } else { None::<(usize, usize)> }),
    {
        if index < self.positions.len() {
            self.positions[index]
        } else {
            None
        }
    }

    /// Replace the region's contents with the given capture spans.
    pub(crate) fn set_positions(&mut self, positions: Vec<Option<(usize, usize)>>)
        ensures
            final(self)@ == positions@,
    {
        self.positions = positions;
    }
}

impl Default for Region {
    fn default() -> (r: Self)
        ensures
            r@ == Seq::<Option<(usize, usize)>>::empty(),
    {
        Self::new()
    }
}

} // verus!
