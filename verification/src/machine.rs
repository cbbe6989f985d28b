//! The virtual machine's memory regions: the records that tell the
//! hypervisor which host memory backs which guest-physical range.

use vstd::prelude::*;
use crate::error::LaunchError;
use crate::memory::GuestMemory;
use crate::memory::GuestRange;
use crate::memory::PAGE_SIZE;
use crate::memory::address_reserved;
use crate::memory::layout_valid;
use crate::memory::range_valid;
use crate::memory::span_in_range;

verus! {

/// One memory region registration, as it is handed to the virtual machine.
#[derive(Clone, Copy, Debug, PartialEq, Eq, Structural)]
pub struct MemoryRegistration {
    /// The slot index, unique within a virtual machine.
    pub slot: u32,
    /// The flags of the region; none are used.
    pub flags: u32,
    /// The guest-physical base of the region.
    pub guest_phys_addr: u64,
    /// The length of the region in bytes.
    pub memory_size: u64,
    /// The host address that backs the region.
    pub userspace_addr: u64,
}

/// The guest range of a registration is aligned: it starts on a page
/// boundary, is a positive whole number of pages long and ends within the
/// address space.
pub open spec fn guest_range_aligned(reg: MemoryRegistration) -> bool {
    &&& reg.guest_phys_addr % PAGE_SIZE == 0
    &&& reg.memory_size > 0
    &&& reg.memory_size % PAGE_SIZE == 0
    &&& reg.guest_phys_addr + reg.memory_size <= u64::MAX
}

/// The host address of a registration is mapped. A table knows no mapping, so
/// it holds the one address that is never mapped, the null address, to be
/// unmapped and takes every other one from the guest memory that planned the
/// registration.
pub open spec fn host_mapped(reg: MemoryRegistration) -> bool {
    reg.userspace_addr != 0
}

/// Some registration of `regs` uses slot `slot`.
pub open spec fn slot_used(regs: Seq<MemoryRegistration>, slot: u32) -> bool {
    exists|i: int| 0 <= i < regs.len() && (#[trigger] regs[i]).slot == slot
}

/// No two registrations of `regs` share a slot.
pub open spec fn slots_unique(regs: Seq<MemoryRegistration>) -> bool {
    forall|i: int, j: int|
        0 <= i < j < regs.len() ==> (#[trigger] regs[i]).slot != (#[trigger] regs[j]).slot
}

/// The registration that a virtual machine accepts after `regs`.
pub open spec fn registration_ok(regs: Seq<MemoryRegistration>, reg: MemoryRegistration) -> bool {
    &&& !slot_used(regs, reg.slot)
    &&& guest_range_aligned(reg)
    &&& host_mapped(reg)
}

/// The registration of the `i`-th range of a layout, backed at `host`: slot
/// `i`, no flags, the range's start and length.
pub open spec fn registration_for(i: int, range: GuestRange, host: u64) -> MemoryRegistration {
    MemoryRegistration {
        slot: i as u32,
        flags: 0,
        guest_phys_addr: range.start,
        memory_size: range.len,
        userspace_addr: host,
    }
}

/// The registrations of a layout whose ranges are backed at `hosts`, one per
/// range and in the same order, with slots counted from zero.
pub open spec fn registrations_for(ranges: Seq<GuestRange>, hosts: Seq<u64>) -> Seq<
    MemoryRegistration,
> {
    Seq::new(ranges.len(), |i: int| registration_for(i, ranges[i], hosts[i]))
}

/// Builds the registrations of a layout from its ranges and the host address
/// of each. Fails with `InvalidRegion`, naming the first slot that does not
/// fit, when there are more ranges than slot indices.
pub fn build_registrations(ranges: &Vec<GuestRange>, hosts: &Vec<u64>) -> (r: Result<
    Vec<MemoryRegistration>,
    LaunchError,
>)
    requires
        ranges@.len() == hosts@.len(),
    ensures
        ranges@.len() <= u32::MAX ==> (r matches Ok(v) && v@ == registrations_for(
            ranges@,
            hosts@,
        )),
        ranges@.len() > u32::MAX ==> r == Err::<Vec<MemoryRegistration>, LaunchError>(
            LaunchError::InvalidRegion(u32::MAX),
        ),
{
    if ranges.len() > u32::MAX as usize {
        return Err(LaunchError::InvalidRegion(u32::MAX));
    }
    let mut out: Vec<MemoryRegistration> = Vec::new();
    let mut i: usize = 0;
    while i < ranges.len()
        invariant
            0 <= i <= ranges.len(),
            ranges@.len() == hosts@.len(),
            ranges@.len() <= u32::MAX,
            out@.len() == i,
            forall|k: int| 0 <= k < i ==> #[trigger] out@[k] == registration_for(k, ranges@[k], hosts@[k]),
        decreases ranges.len() - i,
    {
        let range = ranges[i];
        out.push(
            MemoryRegistration {
                slot: i as u32,
                flags: 0,
                guest_phys_addr: range.start,
                memory_size: range.len,
                userspace_addr: hosts[i],
            },
        );
        i += 1;
    }
    assert(out@ =~= registrations_for(ranges@, hosts@));
    Ok(out)
}

/// The registrations of a layout never share a slot.
pub proof fn lemma_registrations_unique(ranges: Seq<GuestRange>, hosts: Seq<u64>)
    requires
        ranges.len() <= u32::MAX,
    ensures
        slots_unique(registrations_for(ranges, hosts)),
{
}

/// The registrations of a well-formed layout have aligned guest ranges.
pub proof fn lemma_registrations_aligned(ranges: Seq<GuestRange>, hosts: Seq<u64>)
    requires
        layout_valid(ranges),
    ensures
        forall|i: int|
            0 <= i < ranges.len() ==> guest_range_aligned(
                #[trigger] registrations_for(ranges, hosts)[i],
            ),
{
    assert forall|i: int| 0 <= i < ranges.len() implies guest_range_aligned(
        #[trigger] registrations_for(ranges, hosts)[i],
    ) by {
        assert(range_valid(ranges[i]));
    }
}

/// Plans the registration of every range of `mem`: for the `i`-th range,
/// slot `i` with no flags, the range's start and length, and the host address
/// that backs the range's start.
pub fn plan_registrations(mem: &GuestMemory) -> (r: Result<Vec<MemoryRegistration>, LaunchError>)
    requires
        mem.wf(),
    ensures
        mem.regions().len() <= u32::MAX ==> (r matches Ok(v) && exists|hosts: Seq<u64>|
            hosts.len() == mem.regions().len() && v@ == registrations_for(mem.regions(), hosts)),
        mem.regions().len() > u32::MAX ==> r == Err::<Vec<MemoryRegistration>, LaunchError>(
            LaunchError::InvalidRegion(u32::MAX),
        ),
{
    let n = mem.num_ranges();
    if n > u32::MAX as usize {
        return Err(LaunchError::InvalidRegion(u32::MAX));
    }
    let mut ranges: Vec<GuestRange> = Vec::new();
    let mut hosts: Vec<u64> = Vec::new();
    let mut i: usize = 0;
    proof {
        mem.lemma_wf_layout();
    }
    while i < n
        invariant
            0 <= i <= n,
            n == mem.regions().len(),
            mem.wf(),
            layout_valid(mem.regions()),
            ranges@.len() == i,
            hosts@.len() == i,
            forall|k: int| 0 <= k < i ==> #[trigger] ranges@[k] == mem.regions()[k],
        decreases n - i,
    {
        let range = mem.range(i).unwrap();
        proof {
            let s = mem.regions();
            assert(range_valid(s[i as int]));
            assert(span_in_range(s[i as int], range.start, 1));
            assert(address_reserved(s, range.start));
        }
        match mem.host_address_of(range.start) {
            Ok(host) => {
                ranges.push(range);
                hosts.push(host);
            },
            Err(e) => {
                return Err(e);
            },
        }
        i += 1;
    }
    assert(ranges@ =~= mem.regions());
    build_registrations(&ranges, &hosts)
}

/// The memory regions registered with one virtual machine.
#[derive(Clone, Debug)]
pub struct RegionTable {
    regions: Vec<MemoryRegistration>,
}

impl View for RegionTable {
    type V = Seq<MemoryRegistration>;

    closed spec fn view(&self) -> Seq<MemoryRegistration> {
        self.regions@
    }
}

impl RegionTable {
    /// No two registered regions share a slot, and each one was acceptable
    /// when it was registered.
    pub open spec fn wf(&self) -> bool {
        &&& slots_unique(self@)
        &&& forall|i: int|
            0 <= i < self@.len() ==> guest_range_aligned(#[trigger] self@[i]) && host_mapped(
                self@[i],
            )
    }

    /// The table of a virtual machine that has just been created.
    pub fn new() -> (t: RegionTable)
        ensures
            t@ == Seq::<MemoryRegistration>::empty(),
            t.wf(),
    {
        RegionTable { regions: Vec::new() }
    }

    /// The number of registered regions.
    pub fn len(&self) -> (n: usize)
        ensures
            n == self@.len(),
    {
        self.regions.len()
    }

    /// The `i`-th registered region, in the order of registration.
    pub fn get(&self, i: usize) -> (r: Option<MemoryRegistration>)
        ensures
            i < self@.len() ==> r == Some(self@[i as int]),
            i >= self@.len() ==> r.is_none(),
    {
        if i < self.regions.len() {
            Some(self.regions[i])
        } else {
            None
        }
    }

    /// Whether a registered region uses slot `slot`.
    pub fn uses_slot(&self, slot: u32) -> (used: bool)
        ensures
            used == slot_used(self@, slot),
    {
        let mut i: usize = 0;
        while i < self.regions.len()
            invariant
                0 <= i <= self.regions.len(),
                forall|k: int| 0 <= k < i ==> (#[trigger] self.regions@[k]).slot != slot,
            decreases self.regions.len() - i,
        {
            if self.regions[i].slot == slot {
                return true;
            }
            i += 1;
        }
        false
    }

    /// Registers one region.
    ///
    /// Fails with `InvalidRegion`, naming the slot and leaving the table as
    /// it was, if the slot is already used, if the guest range is misaligned
    /// or if the host address is unmapped. Otherwise the region is added
    /// after those registered before.
    pub fn register(&mut self, reg: MemoryRegistration) -> (r: Result<(), LaunchError>)
        requires
            old(self).wf(),
        ensures
            final(self).wf(),
            registration_ok(old(self)@, reg) ==> r == Ok::<(), LaunchError>(()) && final(self)@
                == old(self)@.push(reg),
            !registration_ok(old(self)@, reg) ==> r == Err::<(), LaunchError>(
                LaunchError::InvalidRegion(reg.slot),
            ) && final(self)@ == old(self)@,
    {
        if self.uses_slot(reg.slot) {
            return Err(LaunchError::InvalidRegion(reg.slot));
        }
        if reg.guest_phys_addr % PAGE_SIZE != 0 || reg.memory_size == 0 || reg.memory_size
            % PAGE_SIZE != 0 || reg.memory_size > u64::MAX - reg.guest_phys_addr {
            return Err(LaunchError::InvalidRegion(reg.slot));
        }
        if reg.userspace_addr == 0 {
            return Err(LaunchError::InvalidRegion(reg.slot));
        }
        self.regions.push(reg);
        proof {
            let before = old(self)@;
            let after = self@;
            assert(after =~= before.push(reg));
            assert forall|i: int, j: int| 0 <= i < j < after.len() implies (#[trigger] after[i]).slot
                != (#[trigger] after[j]).slot by {
                if j == before.len() {
                    assert(before[i].slot != reg.slot);
                }
            }
        }
        Ok(())
    }
}

/// After a region has been registered, no region with the same slot is
/// acceptable, whatever else has been registered since: `register` refuses it
/// with `InvalidRegion` and leaves the table as it was.
pub proof fn lemma_duplicate_slot_refused(
    regs: Seq<MemoryRegistration>,
    first: MemoryRegistration,
    later: Seq<MemoryRegistration>,
    second: MemoryRegistration,
)
    requires
        first.slot == second.slot,
    ensures
        !registration_ok(regs.push(first) + later, second),
{
    assert((regs.push(first) + later)[regs.len() as int].slot == second.slot);
}

} // verus!
