//! The dispatch of one trap, as a machine that the platform drives.
//!
//! [`Trap::enter`] classifies the trap. From then on the machine says through
//! [`Trap::request`] what it needs from the platform, and [`Trap::step`] takes the
//! platform's answer. The machine itself touches nothing but the program counter
//! of the frame, and that at most once.

use crate::frame::TrapFrame;
use crate::info::{Info, Kind};
use crate::irq::Interrupt;
use crate::syndrome::{decoded, Syndrome};
use vstd::prelude::*;

verus! {

/// The prompt with which the diagnostic shell is entered.
pub const PROMPT: &'static str = "debug> ";

/// What the machine asks the platform to do before the next step.
#[derive(Debug, PartialEq, Eq, Copy, Clone)]
pub enum Action {
    /// Ask the interrupt controller whether the source is pending, and answer with
    /// [`Event::Pending`].
    Query(Interrupt),
    /// Run the handler of the device that owns the source, on the trap frame.
    Service(Interrupt),
    /// Look the number up in the syscall table and run the call on the trap frame.
    Syscall(u16),
    /// Print the descriptor and the decoded cause on the console.
    Report(Info, Syndrome),
    /// Enter the diagnostic shell with this prompt and come back when the operator
    /// leaves it.
    Shell(&'static str),
    /// Hand the frame back to the entry stub: the trap is dealt with.
    Return,
}

/// What the platform answers.
#[derive(Debug, PartialEq, Eq, Structural, Copy, Clone)]
pub enum Event {
    /// The controller's answer to [`Action::Query`].
    Pending(bool),
    /// Any other action has been carried out.
    Completed,
}

/// How far the dispatch of a trap has come.
#[derive(Debug, PartialEq, Eq, Structural, Copy, Clone)]
pub enum State {
    /// The controller is being asked about the source.
    Polling(Interrupt),
    /// The device handler of the source is running.
    Servicing(Interrupt),
    /// The system call with this number is running.
    Dispatching(u16),
    /// The console is printing the diagnostic record for this cause.
    Reporting(Syndrome),
    /// The operator is in the diagnostic shell.
    InShell,
    /// Done: a device interrupt was serviced. The program counter was left alone.
    IrqHandled,
    /// Done: the system call returned and was stepped over.
    SyscallHandled,
    /// Done: a trapped wait instruction was stepped over.
    Ignored,
    /// Done: the operator has seen the fault and left the shell; the faulting
    /// instruction was stepped over.
    Diagnosed,
}

impl State {
    /// Whether nothing is left to do.
    pub open spec fn is_terminal(self) -> bool {
        self is IrqHandled || self.has_advanced()
    }

    /// Whether this state is reached by stepping over the trapped instruction.
    pub open spec fn has_advanced(self) -> bool {
        self is SyscallHandled || self is Ignored || self is Diagnosed
    }

    /// An upper bound on the number of answers still awaited.
    pub open spec fn distance(self) -> nat {
        match self {
            State::Polling(source) => (3 + Interrupt::priority().len() - source.rank()) as nat,
            State::Reporting(_) => 2,
            State::Servicing(_) | State::Dispatching(_) | State::InShell => 1,
            _ => 0,
        }
    }
}

/// One trap on its way through the dispatcher.
#[derive(Debug, PartialEq, Eq, Structural, Copy, Clone)]
pub struct Trap {
    /// The descriptor that came with the trap.
    pub info: Info,
    /// The raw syndrome value that came with the trap.
    pub raw: u32,
    /// How far the dispatch has come.
    pub state: State,
}

impl Trap {
    /// Where the dispatch stands once no interrupt source is left to ask about:
    /// the cause decides.
    pub open spec fn classified(raw: u32) -> State {
        match decoded(raw) {
            Syndrome::Svc(number) => State::Dispatching(number),
            Syndrome::WfiWfe => State::Ignored,
            Syndrome::Other => State::Reporting(Syndrome::Other),
        }
    }

    /// The trap as [`Trap::enter`] leaves it. An IRQ goes to the interrupt router
    /// first; every other kind is classified by its syndrome at once.
    pub open spec fn entered(info: Info, raw: u32) -> Trap {
        Trap {
            info,
            raw,
            state: if info.kind == Kind::Irq {
                State::Polling(Interrupt::priority()[0])
            } else {
                Self::classified(raw)
            },
        }
    }

    /// What this state needs from the platform.
    pub open spec fn wanted(self) -> Action {
        match self.state {
            State::Polling(source) => Action::Query(source),
            State::Servicing(source) => Action::Service(source),
            State::Dispatching(number) => Action::Syscall(number),
            State::Reporting(syndrome) => Action::Report(self.info, syndrome),
            State::InShell => Action::Shell(PROMPT),
            _ => Action::Return,
        }
    }

    /// Whether `event` is the answer that this state waits for. A terminal state
    /// waits for none.
    pub open spec fn awaits(self, event: Event) -> bool {
        match self.state {
            State::Polling(_) => event is Pending,
            State::Servicing(_) | State::Dispatching(_) | State::Reporting(_) | State::InShell => {
                event is Completed
            },
            _ => false,
        }
    }

    /// The trap after `event`. A source that is pending is serviced and ends the
    /// dispatch; one that is not makes way for the next in priority, and after the
    /// last the trap is left to its syndrome, as a trap of any other kind is from
    /// the start. An answer that the state does not wait for changes nothing.
    pub open spec fn after(self, event: Event) -> Trap {
        let state = match (self.state, event) {
            (State::Polling(source), Event::Pending(true)) => State::Servicing(source),
            (State::Polling(source), Event::Pending(false)) => match source.successor() {
                Some(following) => State::Polling(following),
                None => Self::classified(self.raw),
            },
            (State::Servicing(_), Event::Completed) => State::IrqHandled,
            (State::Dispatching(_), Event::Completed) => State::SyscallHandled,
            (State::Reporting(_), Event::Completed) => State::InShell,
            (State::InShell, Event::Completed) => State::Diagnosed,
            _ => self.state,
        };
        Trap { state, ..self }
    }

    /// Whether `event` makes the machine step over the trapped instruction.
    pub open spec fn advances_on(self, event: Event) -> bool {
        !self.state.has_advanced() && self.after(event).state.has_advanced()
    }

    /// The frame after `event`: one instruction further where the machine steps
    /// over the trapped instruction, untouched otherwise.
    pub open spec fn frame_after(self, event: Event, frame: TrapFrame) -> TrapFrame {
        if self.advances_on(event) {
            frame.advanced()
        } else {
            frame
        }
    }

    fn classify(raw: u32) -> (state: State)
        ensures
            state == Self::classified(raw),
    {
        match Syndrome::decode(raw) {
            Syndrome::Svc(number) => State::Dispatching(number),
            Syndrome::WfiWfe => State::Ignored,
            Syndrome::Other => State::Reporting(Syndrome::Other),
        }
    }

    fn start(info: Info, raw: u32) -> (state: State)
        ensures
            state == Self::entered(info, raw).state,
    {
        match info.kind {
            Kind::Irq => State::Polling(Interrupt::first()),
            _ => Self::classify(raw),
        }
    }

    fn follow(&self, event: Event) -> (state: State)
        ensures
            state == self.after(event).state,
    {
        match (self.state, event) {
            (State::Polling(source), Event::Pending(true)) => State::Servicing(source),
            (State::Polling(source), Event::Pending(false)) => match source.next() {
                Some(following) => State::Polling(following),
                None => Self::classify(self.raw),
            },
            (State::Servicing(_), Event::Completed) => State::IrqHandled,
            (State::Dispatching(_), Event::Completed) => State::SyscallHandled,
            (State::Reporting(_), Event::Completed) => State::InShell,
            (State::InShell, Event::Completed) => State::Diagnosed,
            (state, _) => state,
        }
    }

    fn stepped_over(state: State) -> (yes: bool)
        ensures
            yes == state.has_advanced(),
    {
        match state {
            State::SyscallHandled | State::Ignored | State::Diagnosed => true,
            _ => false,
        }
    }

    /// Tells whether [`Trap::enter`] may be called with these values.
    pub fn may_enter(info: Info, raw: u32, frame: &TrapFrame) -> (yes: bool)
        ensures
            yes == (Self::entered(info, raw).state.has_advanced() ==> frame.advanceable()),
    {
        !Self::stepped_over(Self::start(info, raw)) || frame.can_advance()
    }

    /// Takes a trap over from the entry stub and classifies it. A trapped wait
    /// instruction is stepped over at once; nothing else touches the frame.
    pub fn enter(info: Info, raw: u32, frame: &mut TrapFrame) -> (trap: Trap)
        requires
            Self::entered(info, raw).state.has_advanced() ==> old(frame).advanceable(),
        ensures
            trap == Self::entered(info, raw),
            trap.state.has_advanced() ==> *final(frame) == old(frame).advanced(),
            !trap.state.has_advanced() ==> *final(frame) == *old(frame),
    {
        let state = Self::start(info, raw);
        if Self::stepped_over(state) {
            frame.advance();
        }
        Trap { info, raw, state }
    }

    /// What the platform is to do next.
    pub fn request(&self) -> (action: Action)
        ensures
            action == self.wanted(),
    {
        match self.state {
            State::Polling(source) => Action::Query(source),
            State::Servicing(source) => Action::Service(source),
            State::Dispatching(number) => Action::Syscall(number),
            State::Reporting(syndrome) => Action::Report(self.info, syndrome),
            State::InShell => Action::Shell(PROMPT),
            _ => Action::Return,
        }
    }

    /// Tells whether [`Trap::step`] may be called with this answer and frame.
    pub fn may_step(&self, event: Event, frame: &TrapFrame) -> (yes: bool)
        ensures
            yes == (self.advances_on(event) ==> frame.advanceable()),
    {
        Self::stepped_over(self.state) || !Self::stepped_over(self.follow(event))
            || frame.can_advance()
    }

    /// Takes the platform's answer and moves on. An answer that the state does not
    /// wait for is dropped.
    pub fn step(&mut self, event: Event, frame: &mut TrapFrame)
        requires
            old(self).advances_on(event) ==> old(frame).advanceable(),
        ensures
            *final(self) == old(self).after(event),
            *final(frame) == old(self).frame_after(event, *old(frame)),
    {
        let state = self.follow(event);
        if !Self::stepped_over(self.state) && Self::stepped_over(state) {
            frame.advance();
        }
        self.state = state;
    }
}

} // verus!
