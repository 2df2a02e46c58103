//! The interrupt sources that the router recognizes, and the order in which it
//! asks the controller about them.

use vstd::prelude::*;

verus! {

/// A device interrupt line that has a handler.
#[derive(Debug, PartialEq, Eq, Structural, Copy, Clone)]
pub enum Interrupt {
    /// The periodic system timer.
    Timer1,
}

impl Interrupt {
    /// Every recognized source, most urgent first.
    pub open spec fn priority() -> Seq<Interrupt> {
        seq![Interrupt::Timer1]
    }

    /// Position of this source in [`Interrupt::priority`].
    pub open spec fn rank(self) -> int {
        match self {
            Interrupt::Timer1 => 0,
        }
    }

    /// The source asked about right after this one, if there is one.
    pub open spec fn successor(self) -> Option<Interrupt> {
        if self.rank() + 1 < Self::priority().len() {
            Some(Self::priority()[self.rank() + 1])
        } else {
            None
        }
    }

    /// The source that is asked about first.
    pub fn first() -> (source: Interrupt)
        ensures
            source == Self::priority()[0],
    {
        Interrupt::Timer1
    }

    /// The source to ask about when this one is not pending.
    pub fn next(self) -> (source: Option<Interrupt>)
        ensures
            source == self.successor(),
    {
        match self {
            Interrupt::Timer1 => None,
        }
    }
}

/// The priority order lists every source exactly once: a source stands at its rank,
/// and the source at a position has that position as its rank.
pub proof fn lemma_priority_lists_each_source_once(source: Interrupt, position: int)
    ensures
        0 <= source.rank() < Interrupt::priority().len(),
        Interrupt::priority()[source.rank()] == source,
        0 <= position < Interrupt::priority().len() ==> Interrupt::priority()[position].rank()
            == position,
{
}

} // verus!
