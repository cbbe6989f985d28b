//! The exit dispatcher: how the launcher answers each exit of the virtual
//! processor.

use vstd::prelude::*;
use crate::error::LaunchError;

verus! {

/// The one I/O port that the launcher emulates: the debug output port.
pub const DEBUG_PORT: u16 = 0x3f8;

/// What resuming the virtual processor produced.
#[derive(Clone, Debug, PartialEq, Eq)]
pub enum ExitEvent {
    /// The guest executed a halt.
    Halt,
    /// The guest wrote these bytes to this I/O port.
    IoOut(u16, Vec<u8>),
    /// Any other exit, with its reason code.
    Unhandled(u32),
}

/// What the launcher does about an exit.
#[derive(Clone, Debug, PartialEq, Eq)]
pub enum Action {
    /// Report the halt and stop: the run succeeded.
    Stop,
    /// Write these characters to the output, then resume.
    Emit(Vec<char>),
    /// Resume without doing anything.
    Ignore,
    /// Abort with this failure.
    Fail(LaunchError),
}

/// An action with its characters as a sequence.
pub enum Reaction {
    Stop,
    Emit(Seq<char>),
    Ignore,
    Fail(LaunchError),
}

impl View for Action {
    type V = Reaction;

    open spec fn view(&self) -> Reaction {
        match *self {
            Action::Stop => Reaction::Stop,
            Action::Emit(out) => Reaction::Emit(out@),
            Action::Ignore => Reaction::Ignore,
            Action::Fail(e) => Reaction::Fail(e),
        }
    }
}

/// The characters that output bytes stand for: each byte is one character,
/// the one with the byte's value as its code, in the order of the bytes.
pub open spec fn chars_of(data: Seq<u8>) -> Seq<char> {
    Seq::new(data.len(), |i: int| data[i] as char)
}

/// The answer to an exit: a halt stops the run; output on the debug port is
/// emitted character by character; output on any other port is ignored; any
/// other exit is a failure that carries the reason code.
pub open spec fn reaction(event: ExitEvent) -> Reaction {
    match event {
        ExitEvent::Halt => Reaction::Stop,
        ExitEvent::IoOut(port, data) => if port == DEBUG_PORT {
            Reaction::Emit(chars_of(data@))
        } else {
            Reaction::Ignore
        },
        ExitEvent::Unhandled(reason) => Reaction::Fail(LaunchError::UnexpectedExit(reason)),
    }
}

/// Turns output bytes into characters.
pub fn decode(data: &Vec<u8>) -> (out: Vec<char>)
    ensures
        out@ == chars_of(data@),
{
    let mut out: Vec<char> = Vec::new();
    let mut i: usize = 0;
    while i < data.len()
        invariant
            0 <= i <= data.len(),
            out@.len() == i,
            forall|k: int| 0 <= k < i ==> #[trigger] out@[k] == data@[k] as char,
        decreases data.len() - i,
    {
        out.push(data[i] as char);
        i += 1;
    }
    assert(out@ =~= chars_of(data@));
    out
}

/// Answers one exit of the virtual processor.
pub fn dispatch(event: &ExitEvent) -> (action: Action)
    ensures
        action@ == reaction(*event),
{
    match event {
        ExitEvent::Halt => Action::Stop,
        ExitEvent::IoOut(port, data) => {
            if *port == DEBUG_PORT {
                Action::Emit(decode(data))
            } else {
                Action::Ignore
            }
        },
        ExitEvent::Unhandled(reason) => Action::Fail(LaunchError::UnexpectedExit(*reason)),
    }
}

/// What one resume call came back with.
#[derive(Clone, Debug, PartialEq, Eq)]
pub enum ResumeOutcome {
    /// The processor left the guest with this exit.
    Exit(ExitEvent),
    /// The call itself failed.
    Failed,
}

/// The answer to a resume call: to its exit as `reaction` says, and to a
/// failed call the failure `ResumeFailed`.
pub open spec fn resume_reaction(outcome: ResumeOutcome) -> Reaction {
    match outcome {
        ResumeOutcome::Exit(event) => reaction(event),
        ResumeOutcome::Failed => Reaction::Fail(LaunchError::ResumeFailed),
    }
}

/// Answers one resume call. Nothing is retried: a failed call is fatal.
pub fn react(outcome: &ResumeOutcome) -> (action: Action)
    ensures
        action@ == resume_reaction(*outcome),
{
    match outcome {
        ResumeOutcome::Exit(event) => dispatch(event),
        ResumeOutcome::Failed => Action::Fail(LaunchError::ResumeFailed),
    }
}

/// Only a halt stops the run with success, only output on the debug port is
/// emitted, and every exit that is neither a halt nor output fails with
/// `UnexpectedExit` and the exit's reason code.
pub proof fn lemma_reaction_by_kind(event: ExitEvent)
    ensures
        reaction(event) is Stop <==> event is Halt,
        reaction(event) is Emit <==> (event matches ExitEvent::IoOut(port, _) && port
            == DEBUG_PORT),
        reaction(event) is Ignore <==> (event matches ExitEvent::IoOut(port, _) && port
            != DEBUG_PORT),
        reaction(event) is Fail <==> event is Unhandled,
        event matches ExitEvent::Unhandled(reason) ==> reaction(event) == Reaction::Fail(
            LaunchError::UnexpectedExit(reason),
        ),
{
}

/// How a run stands.
#[derive(Clone, Copy, Debug, PartialEq, Eq, Structural)]
pub enum RunState {
    /// The guest can be resumed.
    Running,
    /// The guest halted: the run succeeded.
    Halted,
    /// The run was aborted with this failure.
    Failed(LaunchError),
}

/// How a run stands after the exits `events`, in their order. Exits after a
/// halt or a failure change nothing.
pub open spec fn state_after(events: Seq<ExitEvent>) -> RunState
    decreases events.len(),
{
    if events.len() == 0 {
        RunState::Running
    } else {
        match state_after(events.drop_last()) {
            RunState::Running => match reaction(events.last()) {
                Reaction::Stop => RunState::Halted,
                Reaction::Fail(e) => RunState::Failed(e),
                _ => RunState::Running,
            },
            done => done,
        }
    }
}

/// What a run has written to the output after the exits `events`.
pub open spec fn output_after(events: Seq<ExitEvent>) -> Seq<char>
    decreases events.len(),
{
    if events.len() == 0 {
        Seq::empty()
    } else {
        let before = output_after(events.drop_last());
        match (state_after(events.drop_last()), reaction(events.last())) {
            (RunState::Running, Reaction::Emit(out)) => before + out,
            _ => before,
        }
    }
}

/// Once a run has halted or failed, a further exit changes neither how it
/// stands nor what it has written.
pub proof fn lemma_finished_run_is_final(events: Seq<ExitEvent>, next: ExitEvent)
    requires
        state_after(events) != RunState::Running,
    ensures
        state_after(events.push(next)) == state_after(events),
        output_after(events.push(next)) == output_after(events),
{
    assert(events.push(next).drop_last() =~= events);
}

/// A run that did not halt never stands as halted: after exits none of which
/// is a halt, the run is still running or has failed.
pub proof fn lemma_success_needs_a_halt(events: Seq<ExitEvent>)
    requires
        forall|i: int| 0 <= i < events.len() ==> !(#[trigger] events[i] is Halt),
    ensures
        state_after(events) != RunState::Halted,
    decreases events.len(),
{
    if events.len() > 0 {
        lemma_success_needs_a_halt(events.drop_last());
        assert(!(events[events.len() - 1] is Halt));
    }
}

/// Answers a recorded sequence of exits as the dispatcher loop does, and
/// returns what was written to the output and how the run stands.
pub fn replay(events: &Vec<ExitEvent>) -> (r: (Vec<char>, RunState))
    ensures
        r.0@ == output_after(events@),
        r.1 == state_after(events@),
{
    let mut output: Vec<char> = Vec::new();
    let mut state = RunState::Running;
    let mut i: usize = 0;
    while i < events.len()
        invariant
            0 <= i <= events.len(),
            output@ == output_after(events@.take(i as int)),
            state == state_after(events@.take(i as int)),
        decreases events.len() - i,
    {
        proof {
            assert(events@.take(i + 1).drop_last() =~= events@.take(i as int));
            assert(events@.take(i + 1).last() == events@[i as int]);
        }
        if let RunState::Running = state {
            match dispatch(&events[i]) {
                Action::Stop => {
                    state = RunState::Halted;
                },
                Action::Emit(mut out) => {
                    output.append(&mut out);
                },
                Action::Ignore => {},
                Action::Fail(e) => {
                    state = RunState::Failed(e);
                },
            }
        }
        i += 1;
    }
    assert(events@.take(events@.len() as int) =~= events@);
    (output, state)
}

} // verus!
