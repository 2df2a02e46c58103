//! The descriptor that the entry stub hands over with every trap.

use vstd::prelude::*;

verus! {

/// What kind of exception was taken.
#[derive(Debug, PartialEq, Eq, Structural, Copy, Clone)]
pub enum Kind {
    Synchronous,
    Irq,
    Fiq,
    SError,
}

/// Where the processor was when the exception was taken.
#[derive(Debug, PartialEq, Eq, Structural, Copy, Clone)]
pub enum Source {
    CurrentSpEl0,
    CurrentSpElx,
    LowerAArch64,
    LowerAArch32,
}

/// Source and kind of one exception. Every pair of the two is a legal descriptor.
#[derive(Debug, PartialEq, Eq, Structural, Copy, Clone)]
pub struct Info {
    pub source: Source,
    pub kind: Kind,
}

} // verus!
