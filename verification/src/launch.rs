//! What is launched: the guest's memory layout, its instruction payload and
//! the processor's initial values, and the loading of the payload.

use vstd::prelude::*;
use crate::error::LaunchError;
use crate::memory::GuestMemory;
use crate::memory::GuestRange;
use crate::memory::layout_valid;
use crate::memory::lemma_store_then_load;
use crate::memory::load;
use crate::memory::range_valid;
use crate::memory::span_in_range;
use crate::memory::span_reserved;
use crate::processor::InitialState;

verus! {

/// The guest address at which the payload is loaded and execution starts.
pub const ENTRY_ADDRESS: u64 = 0x1000;

/// The length of the guest's single memory range.
pub const GUEST_MEMORY_LEN: u64 = 0x1000;

/// Everything that one launch is configured with.
#[derive(Clone, Debug)]
pub struct LaunchConfig {
    /// The ranges of the guest address space, in ascending order.
    pub layout: Vec<GuestRange>,
    /// The instruction stream.
    pub payload: Vec<u8>,
    /// The values that the processor starts with; its entry address is also
    /// where the payload is loaded.
    pub initial: InitialState,
}

/// The built-in instruction stream: it adds the operand register to the
/// accumulator, writes the sum as a decimal digit and then a line feed to the
/// debug output port, and halts.
pub open spec fn payload_bytes() -> Seq<u8> {
    seq![
        0xba, 0xf8, 0x03,  // mov $0x3f8, %dx
        0x00, 0xd8,  // add %bl, %al
        0x04, 0x30,  // add $'0', %al
        0xee,  // out %al, (%dx)
        0xb0, 0x0a,  // mov $'\n', %al
        0xee,  // out %al, (%dx)
        0xf4,  // hlt
    ]
}

/// The built-in instruction stream.
pub fn payload() -> (v: Vec<u8>)
    ensures
        v@ == payload_bytes(),
{
    let v: Vec<u8> = vec![0xba, 0xf8, 0x03, 0x00, 0xd8, 0x04, 0x30, 0xee, 0xb0, 0x0a, 0xee, 0xf4];
    assert(v@ =~= payload_bytes());
    v
}

/// The built-in launch: one page of guest memory at the entry address, the
/// built-in instruction stream, and the operands two and two.
pub fn default_config() -> (c: LaunchConfig)
    ensures
        c.layout@ == seq![GuestRange { start: ENTRY_ADDRESS, len: GUEST_MEMORY_LEN }],
        layout_valid(c.layout@),
        c.payload@ == payload_bytes(),
        c.initial == (InitialState { entry: ENTRY_ADDRESS, accumulator: 2, operand: 2 }),
        span_reserved(c.layout@, c.initial.entry, c.payload@.len()),
{
    let range = GuestRange { start: ENTRY_ADDRESS, len: GUEST_MEMORY_LEN };
    let layout: Vec<GuestRange> = vec![range];
    assert(layout@ =~= seq![range]);
    assert(range_valid(range)) by {
        assert(0x1000u64 % 4096u64 == 0);
    }
    assert(span_in_range(layout@[0], ENTRY_ADDRESS, 12));
    LaunchConfig {
        layout,
        payload: payload(),
        initial: InitialState { entry: ENTRY_ADDRESS, accumulator: 2, operand: 2 },
    }
}

/// Reserves the guest address space of `config` and writes its payload at the
/// entry address.
///
/// A layout that is not well formed fails with `AllocationFailed`, and so
/// does one that the host cannot map. A payload that does not lie inside a
/// single range of the layout fails with `OutOfRange`. Otherwise the address
/// space holds the payload, byte for byte, from the entry address on.
pub fn load_guest(config: &LaunchConfig) -> (r: Result<GuestMemory, LaunchError>)
    ensures
        r matches Ok(mem) ==> mem.wf() && mem.regions() == config.layout@ && load(
            mem.bytes(),
            config.initial.entry,
            config.payload@.len(),
        ) == config.payload@,
        r is Ok ==> layout_valid(config.layout@) && span_reserved(
            config.layout@,
            config.initial.entry,
            config.payload@.len(),
        ),
        !layout_valid(config.layout@) ==> r is Err,
        r matches Err(e) ==> e == LaunchError::AllocationFailed || (e == LaunchError::OutOfRange(
            config.initial.entry,
        ) && !span_reserved(config.layout@, config.initial.entry, config.payload@.len())),
{
    let mut mem = match GuestMemory::reserve(config.layout.clone()) {
        Ok(mem) => mem,
        Err(e) => {
            return Err(e);
        },
    };
    let ghost before = mem.bytes();
    match mem.write(&config.payload, config.initial.entry) {
        Ok(_) => {
            proof {
                let ghost len = config.payload@.len();
                let r = choose|i: int|
                    0 <= i < config.layout@.len() && span_in_range(
                        #[trigger] config.layout@[i],
                        config.initial.entry,
                        len,
                    );
                assert(range_valid(config.layout@[r]));
                lemma_store_then_load(before, config.initial.entry, config.payload@);
            }
            Ok(mem)
        },
        Err(e) => Err(e),
    }
}

} // verus!
