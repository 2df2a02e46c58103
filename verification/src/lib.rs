//! Exception dispatch for an AArch64 kernel: what a trap means and what to do about it.
//!
//! The entry stub hands over an [`Info`], the raw syndrome register and the saved
//! [`TrapFrame`]. Everything decided here is a function of those values and of the
//! answers that the platform gives; the platform's own work (the interrupt
//! controller, the device handlers, the syscall table, the console and the shell)
//! is asked for through [`Action`] values and never performed here.

pub mod course;
pub mod dispatch;
pub mod frame;
pub mod info;
pub mod irq;
pub mod syndrome;

pub use dispatch::{Action, Event, State, Trap};
pub use frame::TrapFrame;
pub use info::{Info, Kind, Source};
pub use irq::Interrupt;
pub use syndrome::Syndrome;
