//! Logical positions and their physical slots.

use core::cmp::Ordering;

use vstd::arithmetic::div_mod::lemma_mod_decreases;
use vstd::prelude::*;
use vstd::std_specs::cmp::{PartialEqSpec, PartialOrdSpec};

verus! {

/// A position in the logical index space of a log, together with the
/// capacity of the physical storage it maps onto.
///
/// The logical position `idx` is an ever-increasing counter: an entry's
/// place in the log's total history, stable even after the storage slot
/// holding it has been reused. The capacity `len` is the number of physical
/// slots; it must be non-zero for the physical slot to be defined. Two
/// indexes compare by logical position alone — the capacity is carried only
/// to compute the physical slot, so positions drawn from headers with
/// different capacities still compare meaningfully.
#[derive(Clone, Copy, Debug)]
pub struct LogIndex {
    /// The logical position.
    pub idx: u64,
    /// The capacity of the physical storage: the number of physical slots.
    pub len: u64,
}

impl LogIndex {
    /// The logical position, unchanged.
    pub fn logical(&self) -> (r: u64)
        ensures
            r == self.idx,
    {
        self.idx
    }

    /// The bounded physical slot that holds this logical position:
    /// `idx` modulo `len`, always below the capacity and never above the
    /// logical position. The capacity must be non-zero.
    pub fn physical(&self) -> (r: u64)
        requires
            self.len != 0,
        ensures
            r == self.idx % self.len,
            r < self.len,
            r <= self.idx,
    {
        proof {
            lemma_mod_decreases(self.idx as nat, self.len as nat);
        }
        self.idx % self.len
    }
}

impl PartialEq for LogIndex {
    /// Equal exactly when the logical positions are; capacity is ignored.
    fn eq(&self, other: &Self) -> (r: bool)
        ensures
            r == (self.idx == other.idx),
    {
        self.idx == other.idx
    }
}

impl vstd::std_specs::cmp::PartialEqSpecImpl for LogIndex {
    open spec fn obeys_eq_spec() -> bool {
        true
    }

    open spec fn eq_spec(&self, other: &LogIndex) -> bool {
        self.idx == other.idx
    }
}

impl PartialOrd for LogIndex {
    /// Ordered by logical position alone, as `partial_cmp_spec` below
    /// states; capacity is ignored.
    fn partial_cmp(&self, other: &Self) -> (r: Option<Ordering>) {
        if self.idx < other.idx {
            Some(Ordering::Less)
        } else if self.idx == other.idx {
            Some(Ordering::Equal)
        } else {
            Some(Ordering::Greater)
        }
    }
}

impl vstd::std_specs::cmp::PartialOrdSpecImpl for LogIndex {
    open spec fn obeys_partial_cmp_spec() -> bool {
        true
    }

    open spec fn partial_cmp_spec(&self, other: &LogIndex) -> Option<Ordering> {
        if self.idx < other.idx {
            Some(Ordering::Less)
        } else if self.idx == other.idx {
            Some(Ordering::Equal)
        } else {
            Some(Ordering::Greater)
        }
    }
}

/// Comparing two logical indexes never consults their capacities: equality
/// and each possible ordering are decided by the logical positions alone.
pub proof fn lemma_compare_ignores_capacity(a: LogIndex, b: LogIndex)
    ensures
        a.eq_spec(&b) <==> a.idx == b.idx,
        a.partial_cmp_spec(&b) == Some(Ordering::Less) <==> a.idx < b.idx,
        a.partial_cmp_spec(&b) == Some(Ordering::Equal) <==> a.idx == b.idx,
        a.partial_cmp_spec(&b) == Some(Ordering::Greater) <==> a.idx > b.idx,
{
}

} // verus!
