//! The state of the virtual processor: its register and segment snapshots,
//! how the launcher configures them, and the phases it moves through.

use vstd::prelude::*;

verus! {

/// The bit of the flags register that is reserved and always set.
pub const RFLAGS_RESERVED: u64 = 2;

/// A snapshot of the general registers.
#[derive(Clone, Copy, Debug, PartialEq, Eq, Structural)]
pub struct Registers {
    pub rax: u64,
    pub rbx: u64,
    pub rcx: u64,
    pub rdx: u64,
    pub rsi: u64,
    pub rdi: u64,
    pub rsp: u64,
    pub rbp: u64,
    pub r8: u64,
    pub r9: u64,
    pub r10: u64,
    pub r11: u64,
    pub r12: u64,
    pub r13: u64,
    pub r14: u64,
    pub r15: u64,
    pub rip: u64,
    pub rflags: u64,
}

/// A snapshot of one segment descriptor.
#[derive(Clone, Copy, Debug, PartialEq, Eq, Structural)]
pub struct Segment {
    pub base: u64,
    pub limit: u32,
    pub selector: u16,
    pub type_: u8,
    pub present: u8,
    pub dpl: u8,
    pub db: u8,
    pub s: u8,
    pub l: u8,
    pub g: u8,
    pub avl: u8,
    pub unusable: u8,
    pub padding: u8,
}

/// The values that the launcher seeds the processor with.
#[derive(Clone, Copy, Debug, PartialEq, Eq, Structural)]
pub struct InitialState {
    /// The guest address at which execution starts.
    pub entry: u64,
    /// The value of the accumulator.
    pub accumulator: u64,
    /// The value of the general register that holds the second operand.
    pub operand: u64,
}

/// The code segment `cs` made flat: base and selector are cleared, every
/// other field is kept.
pub open spec fn flattened(cs: Segment) -> Segment {
    Segment { base: 0, selector: 0, ..cs }
}

/// The registers `current` seeded with `init`: the instruction pointer at the
/// entry address, the accumulator and the operand register set, the flags
/// register holding only its reserved bit, every other register kept.
pub open spec fn seeded(current: Registers, init: InitialState) -> Registers {
    Registers {
        rip: init.entry,
        rax: init.accumulator,
        rbx: init.operand,
        rflags: RFLAGS_RESERVED,
        ..current
    }
}

/// The code segment of a flat real-address model, made from the snapshot
/// `cs`.
pub fn flat_code_segment(cs: Segment) -> (r: Segment)
    ensures
        r == flattened(cs),
{
    Segment { base: 0, selector: 0, ..cs }
}

/// The general registers at the start of execution, made from the snapshot
/// `current`.
pub fn initial_registers(current: Registers, init: InitialState) -> (r: Registers)
    ensures
        r == seeded(current, init),
{
    Registers {
        rip: init.entry,
        rax: init.accumulator,
        rbx: init.operand,
        rflags: RFLAGS_RESERVED,
        ..current
    }
}

/// Configuring a snapshot that is already configured with the same values
/// changes nothing.
pub proof fn lemma_configuration_idempotent(current: Registers, cs: Segment, init: InitialState)
    ensures
        seeded(seeded(current, init), init) == seeded(current, init),
        flattened(flattened(cs)) == flattened(cs),
{
}

/// The seeded flags register has its reserved bit set, whatever the
/// snapshot held before.
pub proof fn lemma_reserved_flag_set(current: Registers, init: InitialState)
    ensures
        seeded(current, init).rflags & RFLAGS_RESERVED == RFLAGS_RESERVED,
{
    assert(2u64 & 2u64 == 2u64) by (bit_vector);
}

/// The phase that a virtual processor is in.
#[derive(Clone, Copy, Debug, PartialEq, Eq, Structural)]
pub enum Phase {
    /// Created, with no state set yet.
    Created,
    /// Its register and segment state is set.
    Configured,
    /// Inside a resume call.
    Running,
    /// Back from a resume call with an exit that is not a halt.
    Exited,
    /// Halted: nothing follows.
    Halted,
}

/// What is done to a virtual processor.
#[derive(Clone, Copy, Debug, PartialEq, Eq, Structural)]
pub enum Operation {
    /// Its register or segment state is replaced.
    SetState,
    /// Its register or segment state is read.
    GetState,
    /// It is resumed.
    Resume,
    /// It leaves the guest; `halt` says whether by a halt.
    Exit { halt: bool },
}

/// The phase that follows `phase` under `op`, or `None` where the operation
/// is not allowed in that phase.
pub open spec fn phase_after(phase: Phase, op: Operation) -> Option<Phase> {
    match (phase, op) {
        (Phase::Created, Operation::SetState) => Some(Phase::Configured),
        (Phase::Configured, Operation::SetState) => Some(Phase::Configured),
        (Phase::Exited, Operation::SetState) => Some(Phase::Configured),
        (Phase::Created, Operation::GetState) => Some(Phase::Created),
        (Phase::Configured, Operation::GetState) => Some(Phase::Configured),
        (Phase::Exited, Operation::GetState) => Some(Phase::Exited),
        (Phase::Halted, Operation::GetState) => Some(Phase::Halted),
        (Phase::Configured, Operation::Resume) => Some(Phase::Running),
        (Phase::Exited, Operation::Resume) => Some(Phase::Running),
        (Phase::Running, Operation::Exit { halt }) => Some(
            if halt {
                Phase::Halted
            } else {
                Phase::Exited
            },
        ),
        _ => None,
    }
}

/// Moves a processor in phase `phase` on by `op`.
pub fn advance(phase: Phase, op: Operation) -> (r: Option<Phase>)
    ensures
        r == phase_after(phase, op),
{
    match op {
        Operation::SetState => match phase {
            Phase::Created | Phase::Configured | Phase::Exited => Some(Phase::Configured),
            _ => None,
        },
        Operation::GetState => match phase {
            Phase::Running => None,
            _ => Some(phase),
        },
        Operation::Resume => match phase {
            Phase::Configured | Phase::Exited => Some(Phase::Running),
            _ => None,
        },
        Operation::Exit { halt } => match phase {
            Phase::Running => if halt {
                Some(Phase::Halted)
            } else {
                Some(Phase::Exited)
            },
            _ => None,
        },
    }
}

/// A halted processor stays halted: nothing resumes it or replaces its
/// state.
pub proof fn lemma_halt_is_terminal(op: Operation)
    ensures
        phase_after(Phase::Halted, op) matches Some(next) ==> next == Phase::Halted && op
            == Operation::GetState,
{
}

/// Inside a resume call nothing happens to a processor but its exit: its
/// state is neither read nor replaced, and it is not resumed again.
pub proof fn lemma_running_only_exits(op: Operation)
    ensures
        phase_after(Phase::Running, op) is Some ==> op is Exit,
{
}

/// A processor is resumed only once its state has been set: a resume is
/// allowed in no phase but `Configured` and `Exited`, and `Exited` is reached
/// only from `Running`.
pub proof fn lemma_resume_needs_configuration(phase: Phase, op: Operation)
    ensures
        phase_after(phase, Operation::Resume) is Some ==> phase == Phase::Configured || phase
            == Phase::Exited,
        phase_after(phase, op) == Some(Phase::Exited) && phase != Phase::Exited ==> phase
            == Phase::Running,
        phase_after(phase, op) == Some(Phase::Running) ==> op == Operation::Resume,
{
}

} // verus!
