//! Whole dispatches: what happens, from entry to return, when the platform
//! answers every request as asked.

use crate::dispatch::{Action, Event, State, Trap, PROMPT};
use crate::info::{Info, Kind};
use crate::irq::Interrupt;
use crate::syndrome::{decoded, Syndrome};
use vstd::prelude::*;

verus! {

/// One thing that happens in the course of a dispatch.
pub enum Move {
    /// The machine asks the platform for this action.
    Ask(Action),
    /// The machine moves the program counter of the frame to the next instruction.
    StepOver,
}

/// The platform's answer to `action` while exactly the lines in `pending` are
/// raised.
pub open spec fn answer(action: Action, pending: Set<Interrupt>) -> Event {
    match action {
        Action::Query(source) => Event::Pending(pending.contains(source)),
        _ => Event::Completed,
    }
}

/// A step over the trapped instruction if `stepping`, nothing otherwise.
pub open spec fn step_over_if(stepping: bool) -> Seq<Move> {
    if stepping {
        seq![Move::StepOver]
    } else {
        seq![]
    }
}

/// One query for each of `sources`, in their order.
pub open spec fn queries(sources: Seq<Interrupt>) -> Seq<Move> {
    sources.map_values(|source: Interrupt| Move::Ask(Action::Query(source)))
}

/// The queries that come before a trap is classified by its syndrome: one for each
/// recognized source if the trap is an IRQ, none otherwise.
pub open spec fn polled(info: Info) -> Seq<Move> {
    if info.kind == Kind::Irq {
        queries(Interrupt::priority())
    } else {
        seq![]
    }
}

/// Whether the trap is left to its syndrome: it is no IRQ, or no recognized source
/// is pending.
pub open spec fn unclaimed(info: Info, pending: Set<Interrupt>) -> bool {
    info.kind != Kind::Irq || forall|source: Interrupt| !pending.contains(source)
}

impl Trap {
    /// What happens from this state on, in order: what the machine asks for, and
    /// where it steps over the trapped instruction. The last thing it asks for is
    /// the return.
    pub open spec fn course(self, pending: Set<Interrupt>) -> Seq<Move>
        decreases self.state.distance(),
    {
        if self.state.is_terminal() {
            seq![Move::Ask(Action::Return)]
        } else {
            let event = answer(self.wanted(), pending);
            seq![Move::Ask(self.wanted())] + step_over_if(self.advances_on(event)) + self.after(
                event,
            ).course(pending)
        }
    }

    /// The terminal state in which the dispatch ends.
    pub open spec fn outcome(self, pending: Set<Interrupt>) -> State
        decreases self.state.distance(),
    {
        if self.state.is_terminal() {
            self.state
        } else {
            self.after(answer(self.wanted(), pending)).outcome(pending)
        }
    }

    /// Whether the state fits what came with the trap: only an IRQ is with the
    /// interrupt router, only a supervisor call with the syscall table, only a
    /// trapped wait is ignored, and only another cause is reported and diagnosed.
    pub open spec fn coherent(self) -> bool {
        match self.state {
            State::Polling(_) | State::Servicing(_) | State::IrqHandled => {
                self.info.kind == Kind::Irq
            },
            State::Dispatching(number) => decoded(self.raw) == Syndrome::Svc(number),
            State::SyscallHandled => decoded(self.raw) is Svc,
            State::Ignored => decoded(self.raw) == Syndrome::WfiWfe,
            State::Reporting(syndrome) => {
                syndrome == Syndrome::Other && decoded(self.raw) == Syndrome::Other
            },
            State::InShell | State::Diagnosed => decoded(self.raw) == Syndrome::Other,
        }
    }
}

/// The course of a whole dispatch, from [`Trap::enter`] to the return.
pub open spec fn course_of(info: Info, raw: u32, pending: Set<Interrupt>) -> Seq<Move> {
    let trap = Trap::entered(info, raw);
    step_over_if(trap.state.has_advanced()) + trap.course(pending)
}

/// The terminal state of a whole dispatch.
pub open spec fn outcome_of(info: Info, raw: u32, pending: Set<Interrupt>) -> State {
    Trap::entered(info, raw).outcome(pending)
}

/// An answer that is waited for brings the machine closer to its end; any other
/// answer changes neither the machine nor the frame. What a state that is not
/// terminal asks for is answered by what it waits for.
pub proof fn lemma_step_makes_progress(trap: Trap, event: Event, pending: Set<Interrupt>)
    ensures
        trap.awaits(event) ==> trap.after(event).state.distance() < trap.state.distance(),
        !trap.awaits(event) ==> trap.after(event) == trap && !trap.advances_on(event),
        !trap.state.is_terminal() ==> trap.awaits(answer(trap.wanted(), pending)),
        trap.state.is_terminal() <==> trap.wanted() == Action::Return,
        trap.after(event).info == trap.info,
        trap.after(event).raw == trap.raw,
{
}

/// The step over the trapped instruction is the last thing the machine does: what
/// it asked for before has been carried out, and all it asks for afterwards is the
/// return.
pub proof fn lemma_advance_comes_last(trap: Trap, event: Event)
    requires
        trap.advances_on(event),
    ensures
        trap.awaits(event),
        trap.after(event).state.is_terminal(),
        trap.after(event).wanted() == Action::Return,
{
}

/// A trap is coherent when it is entered, and no answer makes it incoherent.
pub proof fn lemma_coherence_is_kept(info: Info, raw: u32, trap: Trap, event: Event)
    ensures
        Trap::entered(info, raw).coherent(),
        trap.coherent() ==> trap.after(event).coherent(),
{
}

/// Every dispatch ends by asking for the return. Unless it ends with a serviced
/// interrupt, it steps over the trapped instruction exactly once, and does so
/// right before it asks for the return. With a serviced interrupt it never steps
/// over anything.
pub proof fn lemma_steps_over_once_unless_serviced(info: Info, raw: u32, pending: Set<Interrupt>)
    ensures
        outcome_of(info, raw, pending).is_terminal(),
        course_of(info, raw, pending).last() == Move::Ask(Action::Return),
        forall|at: int|
            0 <= at < course_of(info, raw, pending).len() ==> (course_of(info, raw, pending)[at]
                == Move::StepOver <==> outcome_of(info, raw, pending) !is IrqHandled && at
                == course_of(info, raw, pending).len() - 2),
        outcome_of(info, raw, pending) !is IrqHandled ==> course_of(info, raw, pending).len() >= 2,
{
    let trap = Trap::entered(info, raw);
    lemma_course_from(trap, pending);
}

/// The same, from any state on that is not past the step over the trapped
/// instruction; from a state that is, nothing happens but the return.
pub proof fn lemma_course_from(trap: Trap, pending: Set<Interrupt>)
    ensures
        trap.outcome(pending).is_terminal(),
        trap.course(pending).len() >= 1,
        trap.course(pending).last() == Move::Ask(Action::Return),
        trap.state.is_terminal() ==> trap.course(pending) == seq![Move::Ask(Action::Return)]
            && trap.outcome(pending) == trap.state,
        !trap.state.is_terminal() && trap.outcome(pending) !is IrqHandled ==> trap.course(
            pending,
        ).len() >= 2,
        !trap.state.is_terminal() ==> forall|at: int|
            0 <= at < trap.course(pending).len() ==> (trap.course(pending)[at] == Move::StepOver
                <==> trap.outcome(pending) !is IrqHandled && at == trap.course(pending).len() - 2),
    decreases trap.state.distance(),
{
    if !trap.state.is_terminal() {
        let event = answer(trap.wanted(), pending);
        let next = trap.after(event);
        lemma_course_from(next, pending);
        if trap.advances_on(event) {
            lemma_advance_comes_last(trap, event);
        }
    }
}

/// An IRQ of which a recognized source is pending: the controller is asked about
/// the sources in priority order up to the first one that is pending, the handler
/// of that one runs, and no other. The program counter is left alone.
pub proof fn lemma_first_pending_source_is_serviced(
    info: Info,
    raw: u32,
    pending: Set<Interrupt>,
    position: int,
)
    requires
        info.kind == Kind::Irq,
        0 <= position < Interrupt::priority().len(),
        pending.contains(Interrupt::priority()[position]),
        forall|earlier: int|
            0 <= earlier < position ==> !pending.contains(Interrupt::priority()[earlier]),
    ensures
        course_of(info, raw, pending) == queries(Interrupt::priority().take(position + 1))
            + seq![
            Move::Ask(Action::Service(Interrupt::priority()[position])),
            Move::Ask(Action::Return),
        ],
        outcome_of(info, raw, pending) == State::IrqHandled,
{
    reveal_with_fuel(Trap::course, 4);
    reveal_with_fuel(Trap::outcome, 4);
}

/// An IRQ whose timer line is raised: the controller is asked about the timer, the
/// timer's handler runs, and that is all. The program counter is left alone.
pub proof fn lemma_pending_timer_is_serviced(info: Info, raw: u32, pending: Set<Interrupt>)
    requires
        info.kind == Kind::Irq,
        pending.contains(Interrupt::Timer1),
    ensures
        course_of(info, raw, pending) == seq![
            Move::Ask(Action::Query(Interrupt::Timer1)),
            Move::Ask(Action::Service(Interrupt::Timer1)),
            Move::Ask(Action::Return),
        ],
        outcome_of(info, raw, pending) == State::IrqHandled,
{
    reveal_with_fuel(Trap::course, 4);
    reveal_with_fuel(Trap::outcome, 4);
}

/// A supervisor call that no device claims: the syscall table is asked for the
/// call with the instruction's immediate as its number, and once the call is back
/// the instruction is stepped over.
pub proof fn lemma_svc_is_dispatched(info: Info, raw: u32, pending: Set<Interrupt>, number: u16)
    requires
        unclaimed(info, pending),
        decoded(raw) == Syndrome::Svc(number),
    ensures
        course_of(info, raw, pending) == polled(info) + seq![
            Move::Ask(Action::Syscall(number)),
            Move::StepOver,
            Move::Ask(Action::Return),
        ],
        outcome_of(info, raw, pending) == State::SyscallHandled,
{
    reveal_with_fuel(Trap::course, 4);
    reveal_with_fuel(Trap::outcome, 4);
}

/// A trapped wait instruction that no device claims: nothing is printed, no shell
/// is entered, and the instruction is stepped over.
pub proof fn lemma_wait_is_ignored(info: Info, raw: u32, pending: Set<Interrupt>)
    requires
        unclaimed(info, pending),
        decoded(raw) == Syndrome::WfiWfe,
    ensures
        course_of(info, raw, pending) == polled(info) + seq![
            Move::StepOver,
            Move::Ask(Action::Return),
        ],
        outcome_of(info, raw, pending) == State::Ignored,
{
    reveal_with_fuel(Trap::course, 4);
    reveal_with_fuel(Trap::outcome, 4);
}

/// Any other cause that no device claims: the console gets the descriptor and the
/// cause, the shell is entered, and when the operator has left it the faulting
/// instruction is stepped over.
pub proof fn lemma_other_is_diagnosed(info: Info, raw: u32, pending: Set<Interrupt>)
    requires
        unclaimed(info, pending),
        decoded(raw) == Syndrome::Other,
    ensures
        course_of(info, raw, pending) == polled(info) + seq![
            Move::Ask(Action::Report(info, Syndrome::Other)),
            Move::Ask(Action::Shell(PROMPT)),
            Move::StepOver,
            Move::Ask(Action::Return),
        ],
        outcome_of(info, raw, pending) == State::Diagnosed,
{
    reveal_with_fuel(Trap::course, 5);
    reveal_with_fuel(Trap::outcome, 5);
}

} // verus!
