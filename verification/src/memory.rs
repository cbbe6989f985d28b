//! The guest address space: reserved guest-physical ranges backed by host
//! memory, with byte-exact writes and reads.

use vstd::prelude::*;
use vm_memory::Bytes;
use vm_memory::GuestAddress;
use vm_memory::GuestMemoryBackend;
use vm_memory::GuestMemoryError;
use vm_memory::GuestMemoryMmap;
use vm_memory::mmap::FromRangesError;
use crate::error::LaunchError;

verus! {

/// The platform page size, in bytes.
pub const PAGE_SIZE: u64 = 4096;

/// `vm_memory::GuestRegionCollection`, the sorted collection of regions that
/// backs a guest address space. Opaque here.
#[verifier::external_type_specification]
#[verifier::external_body]
#[verifier::reject_recursive_types(R)]
pub struct ExGuestRegionCollection<R>(vm_memory::GuestRegionCollection<R>);

/// `vm_memory::GuestRegionMmap`, one memory-mapped region. Opaque here.
#[verifier::external_type_specification]
#[verifier::external_body]
#[verifier::reject_recursive_types(B)]
pub struct ExGuestRegionMmap<B>(vm_memory::GuestRegionMmap<B>);

/// `vm_memory::GuestMemoryError`, the error of a guest memory access. Opaque
/// here.
#[verifier::external_type_specification]
#[verifier::external_body]
pub struct ExGuestMemoryError(vm_memory::GuestMemoryError);

/// `vm_memory::mmap::FromRangesError`, the error of mapping guest ranges.
/// Opaque here.
#[verifier::external_type_specification]
#[verifier::external_body]
pub struct ExFromRangesError(vm_memory::mmap::FromRangesError);

/// The regions that a mapped guest memory holds, in its own order: each one
/// as its guest-physical start and its length in bytes.
pub uninterp spec fn mmap_regions(m: GuestMemoryMmap<()>) -> Seq<(u64, u64)>;

/// The bytes that a mapped guest memory holds, by guest-physical address.
pub uninterp spec fn mmap_bytes(m: GuestMemoryMmap<()>) -> Map<u64, u8>;

/// One range of guest-physical addresses: `len` bytes from `start`.
#[derive(Clone, Copy, Debug, PartialEq, Eq, Structural)]
pub struct GuestRange {
    pub start: u64,
    pub len: u64,
}

/// A range is well formed when it starts on a page boundary, is a positive
/// whole number of pages long, and ends within the address space.
pub open spec fn range_valid(r: GuestRange) -> bool {
    &&& r.len > 0
    &&& r.start % PAGE_SIZE == 0
    &&& r.len % PAGE_SIZE == 0
    &&& r.start + r.len <= u64::MAX
    &&& r.len <= usize::MAX
}

/// A layout is well formed when it is not empty, each range is well formed,
/// and the ranges are in ascending order without overlap.
pub open spec fn layout_valid(s: Seq<GuestRange>) -> bool {
    &&& s.len() > 0
    &&& forall|i: int| 0 <= i < s.len() ==> range_valid(#[trigger] s[i])
    &&& forall|i: int, j: int|
        0 <= i < j < s.len() ==> (#[trigger] s[i]).start + s[i].len <= (#[trigger] s[j]).start
}

/// The span of `len` bytes from `addr` lies inside range `r`.
pub open spec fn span_in_range(r: GuestRange, addr: u64, len: nat) -> bool {
    r.start <= addr && addr + len <= r.start + r.len
}

/// The span of `len` bytes from `addr` lies inside a single range of `s`.
pub open spec fn span_reserved(s: Seq<GuestRange>, addr: u64, len: nat) -> bool {
    exists|i: int| 0 <= i < s.len() && span_in_range(#[trigger] s[i], addr, len)
}

/// The address `addr` lies inside a range of `s`.
pub open spec fn address_reserved(s: Seq<GuestRange>, addr: u64) -> bool {
    span_reserved(s, addr, 1)
}

/// The regions of a layout as plain pairs of start and length.
pub open spec fn as_pairs(s: Seq<GuestRange>) -> Seq<(u64, u64)> {
    Seq::new(s.len(), |i: int| (s[i].start, s[i].len))
}

/// The span of `len` bytes from `addr` lies inside a single one of the
/// regions `pairs`, each given as its start and its length.
pub open spec fn span_in_pairs(pairs: Seq<(u64, u64)>, addr: u64, len: nat) -> bool {
    exists|i: int|
        0 <= i < pairs.len() && (#[trigger] pairs[i]).0 <= addr && addr + len <= pairs[i].0
            + pairs[i].1
}

/// The memory `mem` after `data` has been stored from address `addr` on.
pub open spec fn store(mem: Map<u64, u8>, addr: u64, data: Seq<u8>) -> Map<u64, u8> {
    Map::new(
        |a: u64| mem.dom().contains(a) || (addr <= a && a < addr + data.len()),
        |a: u64|
            if addr <= a && a < addr + data.len() {
                data[a - addr]
            } else {
                mem[a]
            },
    )
}

/// The `len` bytes that `mem` holds from address `addr` on.
pub open spec fn load(mem: Map<u64, u8>, addr: u64, len: nat) -> Seq<u8> {
    Seq::new(len, |i: int| mem[(addr + i) as u64])
}

/// Calls `GuestMemoryMmap::from_ranges`, which maps anonymous host memory for
/// each range. Nothing is claimed of when it succeeds. When it does, the
/// collection holds one region per range given, with the same start and
/// length, in the same order.
#[verifier::external_body]
fn mmap_from_ranges(ranges: &Vec<(u64, usize)>) -> (r: Result<GuestMemoryMmap<()>, FromRangesError>)
    ensures
        r matches Ok(m) ==> mmap_regions(m) == Seq::new(
            ranges@.len(),
            |i: int| (ranges@[i].0, ranges@[i].1 as u64),
        ),
{
    let mut converted: Vec<(GuestAddress, usize)> = Vec::with_capacity(ranges.len());
    for r in ranges.iter() {
        converted.push((GuestAddress(r.0), r.1));
    }
    GuestMemoryMmap::<()>::from_ranges(&converted)
}

/// Calls `Bytes::write` on the mapped memory, for a span that lies inside one
/// region. The call then writes the whole buffer into that region and returns
/// its length: the bytes of the span become those of the buffer, every other
/// byte and the regions stay as they were.
#[verifier::external_body]
fn mmap_write(m: &mut GuestMemoryMmap<()>, buf: &Vec<u8>, addr: u64) -> (r: Result<
    usize,
    GuestMemoryError,
>)
    requires
        span_in_pairs(mmap_regions(*old(m)), addr, buf@.len()),
    ensures
        mmap_regions(*final(m)) == mmap_regions(*old(m)),
        r is Ok,
        r->Ok_0 == buf@.len(),
        mmap_bytes(*final(m)) == store(mmap_bytes(*old(m)), addr, buf@),
{
    m.write(buf.as_slice(), GuestAddress(addr))
}

/// Calls `Bytes::read_slice` on the mapped memory, for a span that lies
/// inside one region, with a buffer of the span's length. The call then
/// succeeds and fills the buffer with the bytes of the span.
#[verifier::external_body]
fn mmap_read(m: &GuestMemoryMmap<()>, addr: u64, len: usize) -> (r: Result<
    Vec<u8>,
    GuestMemoryError,
>)
    requires
        span_in_pairs(mmap_regions(*m), addr, len as nat),
    ensures
        r is Ok,
        r->Ok_0@ == load(mmap_bytes(*m), addr, len as nat),
{
    let mut buf: Vec<u8> = vec![0u8; len];
    m.read_slice(buf.as_mut_slice(), GuestAddress(addr))?;
    Ok(buf)
}

/// Calls `GuestMemoryBackend::get_host_address`, which resolves a guest
/// address to the host address that backs it. The call succeeds exactly when
/// the address lies inside a region. Nothing is claimed of the address that
/// it returns.
#[verifier::external_body]
fn mmap_host_address(m: &GuestMemoryMmap<()>, addr: u64) -> (r: Result<u64, GuestMemoryError>)
    ensures
        r.is_ok() == span_in_pairs(mmap_regions(*m), addr, 1),
{
    match m.get_host_address(GuestAddress(addr)) {
        Ok(p) => Ok(p as u64),
        Err(e) => Err(e),
    }
}

/// Whether `ranges` is a well-formed layout.
pub fn check_layout(ranges: &Vec<GuestRange>) -> (ok: bool)
    ensures
        ok == layout_valid(ranges@),
{
    if ranges.len() == 0 {
        return false;
    }
    let mut i: usize = 0;
    while i < ranges.len()
        invariant
            0 <= i <= ranges.len(),
            forall|k: int| 0 <= k < i ==> range_valid(#[trigger] ranges@[k]),
            forall|a: int, b: int|
                0 <= a < b < i ==> (#[trigger] ranges@[a]).start + ranges@[a].len <= (
                #[trigger] ranges@[b]).start,
        decreases ranges.len() - i,
    {
        let r = ranges[i];
        if r.len == 0 || r.start % PAGE_SIZE != 0 || r.len % PAGE_SIZE != 0 || r.len > u64::MAX
            - r.start || r.len > usize::MAX as u64 {
            assert(!range_valid(ranges@[i as int]));
            return false;
        }
        if i > 0 {
            let p = ranges[i - 1];
            if p.start + p.len > r.start {
                assert(ranges@[i - 1].start + ranges@[i - 1].len > ranges@[i as int].start);
                return false;
            }
            assert forall|a: int| 0 <= a < i implies (#[trigger] ranges@[a]).start
                + ranges@[a].len <= r.start by {
                if a < i - 1 {
                    assert(ranges@[a].start + ranges@[a].len <= ranges@[i - 1].start);
                }
            }
        }
        i += 1;
    }
    true
}

/// A span lies inside one range of a layout exactly when it lies inside one
/// of the layout's regions taken as pairs.
pub proof fn lemma_span_in_pairs(s: Seq<GuestRange>, addr: u64, len: nat)
    ensures
        span_in_pairs(as_pairs(s), addr, len) == span_reserved(s, addr, len),
{
    let pairs = as_pairs(s);
    if span_reserved(s, addr, len) {
        let i = choose|i: int| 0 <= i < s.len() && span_in_range(#[trigger] s[i], addr, len);
        assert(pairs[i].0 <= addr && addr + len <= pairs[i].0 + pairs[i].1);
    }
    if span_in_pairs(pairs, addr, len) {
        let i = choose|i: int|
            0 <= i < pairs.len() && (#[trigger] pairs[i]).0 <= addr && addr + len <= pairs[i].0
                + pairs[i].1;
        assert(span_in_range(s[i], addr, len));
    }
}

/// Reading a span back from a memory into which `data` was just stored at the
/// same address gives `data`.
pub proof fn lemma_store_then_load(mem: Map<u64, u8>, addr: u64, data: Seq<u8>)
    requires
        addr + data.len() <= u64::MAX + 1,
    ensures
        load(store(mem, addr, data), addr, data.len()) == data,
{
    assert(load(store(mem, addr, data), addr, data.len()) =~= data);
}

/// Storing a span leaves every byte outside the span as it was.
pub proof fn lemma_store_elsewhere(mem: Map<u64, u8>, addr: u64, data: Seq<u8>, other: u64)
    requires
        other < addr || other >= addr + data.len(),
    ensures
        store(mem, addr, data).dom().contains(other) == mem.dom().contains(other),
        mem.dom().contains(other) ==> store(mem, addr, data)[other] == mem[other],
{
}

/// What `write` returns for a payload of `expected` bytes once the backing
/// memory has answered: the length when all of it was written, `ShortWrite`
/// when less was, and `OutOfRange` when the backing memory refused the span.
pub fn write_outcome(expected: usize, addr: u64, written: Result<usize, GuestMemoryError>) -> (r:
    Result<usize, LaunchError>)
    ensures
        written matches Ok(n) ==> r == (if n == expected {
            Ok::<usize, LaunchError>(n)
        } else {
            Err::<usize, LaunchError>(LaunchError::ShortWrite(n))
        }),
        written is Err ==> r == Err::<usize, LaunchError>(LaunchError::OutOfRange(addr)),
{
    match written {
        Ok(n) => {
            if n == expected {
                Ok(n)
            } else {
                Err(LaunchError::ShortWrite(n))
            }
        },
        Err(_) => Err(LaunchError::OutOfRange(addr)),
    }
}

/// What `reserve` returns for a well-formed layout once the host has answered
/// the request to map it: the address space over the mapping, or
/// `AllocationFailed`.
fn reserve_outcome(
    ranges: Vec<GuestRange>,
    mapped: Result<GuestMemoryMmap<()>, FromRangesError>,
) -> (r: Result<GuestMemory, LaunchError>)
    requires
        layout_valid(ranges@),
        mapped matches Ok(m) ==> mmap_regions(m) == as_pairs(ranges@),
    ensures
        mapped is Ok ==> (r matches Ok(mem) && mem.wf() && mem.regions() == ranges@ && mem.bytes()
            == mmap_bytes(mapped->Ok_0)),
        mapped is Err ==> r == Err::<GuestMemory, LaunchError>(LaunchError::AllocationFailed),
{
    match mapped {
        Ok(backing) => Ok(GuestMemory { ranges, backing }),
        Err(_) => Err(LaunchError::AllocationFailed),
    }
}

/// A guest address space: an ordered set of disjoint, page-aligned ranges,
/// each backed by host memory.
///
/// What is stated of its bytes is what was written through this value. Once
/// the ranges are registered with a virtual machine and a processor runs, the
/// guest writes to the same memory, so all writes are to be made before the
/// first resume.
#[derive(Debug)]
pub struct GuestMemory {
    ranges: Vec<GuestRange>,
    backing: GuestMemoryMmap<()>,
}

impl GuestMemory {
    /// The reserved ranges, in ascending order.
    pub closed spec fn regions(&self) -> Seq<GuestRange> {
        self.ranges@
    }

    /// The bytes of the address space, by guest-physical address.
    pub closed spec fn bytes(&self) -> Map<u64, u8> {
        mmap_bytes(self.backing)
    }

    /// The layout is well formed and the backing memory holds exactly the
    /// ranges of the layout.
    pub closed spec fn wf(&self) -> bool {
        &&& layout_valid(self.ranges@)
        &&& mmap_regions(self.backing) == as_pairs(self.ranges@)
    }

    /// A well-formed address space has a well-formed layout.
    pub proof fn lemma_wf_layout(&self)
        requires
            self.wf(),
        ensures
            layout_valid(self.regions()),
    {
    }

    /// Reserves host-backed memory for each range of `ranges`.
    ///
    /// A layout that is not well formed is refused before the host is asked.
    /// For a well-formed one the host decides; every failure is
    /// `AllocationFailed`.
    pub fn reserve(ranges: Vec<GuestRange>) -> (r: Result<GuestMemory, LaunchError>)
        ensures
            r matches Ok(mem) ==> mem.wf() && mem.regions() == ranges@,
            r matches Err(e) ==> e == LaunchError::AllocationFailed,
            !layout_valid(ranges@) ==> r is Err,
    {
        if !check_layout(&ranges) {
            return Err(LaunchError::AllocationFailed);
        }
        let mut plain: Vec<(u64, usize)> = Vec::new();
        let mut i: usize = 0;
        while i < ranges.len()
            invariant
                0 <= i <= ranges.len(),
                layout_valid(ranges@),
                plain@.len() == i,
                forall|k: int|
                    0 <= k < i ==> (#[trigger] plain@[k]).0 == ranges@[k].start && plain@[k].1
                        == ranges@[k].len,
            decreases ranges.len() - i,
        {
            let r = ranges[i];
            assert(range_valid(ranges@[i as int]));
            plain.push((r.start, r.len as usize));
            i += 1;
        }
        let mapped = mmap_from_ranges(&plain);
        proof {
            if mapped is Ok {
                assert(mmap_regions(mapped->Ok_0) =~= as_pairs(ranges@));
            }
        }
        reserve_outcome(ranges, mapped)
    }

    /// Copies `bytes` into the address space from `guest_addr` on and returns
    /// how many bytes were written, which is all of them.
    ///
    /// Fails with `OutOfRange`, leaving the address space untouched, unless
    /// the whole span lies inside a single reserved range.
    pub fn write(&mut self, bytes: &Vec<u8>, guest_addr: u64) -> (r: Result<usize, LaunchError>)
        requires
            old(self).wf(),
        ensures
            final(self).wf(),
            final(self).regions() == old(self).regions(),
            span_reserved(old(self).regions(), guest_addr, bytes@.len()) ==> r == Ok::<
                usize,
                LaunchError,
            >(bytes@.len() as usize) && final(self).bytes() == store(
                old(self).bytes(),
                guest_addr,
                bytes@,
            ),
            !span_reserved(old(self).regions(), guest_addr, bytes@.len()) ==> r == Err::<
                usize,
                LaunchError,
            >(LaunchError::OutOfRange(guest_addr)) && *final(self) == *old(self),
    {
        if !self.contains_span(guest_addr, bytes.len()) {
            return Err(LaunchError::OutOfRange(guest_addr));
        }
        proof {
            lemma_span_in_pairs(self.ranges@, guest_addr, bytes@.len());
        }
        let written = mmap_write(&mut self.backing, bytes, guest_addr);
        write_outcome(bytes.len(), guest_addr, written)
    }

    /// Reads `len` bytes of the address space from `guest_addr` on.
    ///
    /// Fails with `OutOfRange` unless the whole span lies inside a single
    /// reserved range.
    pub fn read(&self, guest_addr: u64, len: usize) -> (r: Result<Vec<u8>, LaunchError>)
        requires
            self.wf(),
        ensures
            span_reserved(self.regions(), guest_addr, len as nat) ==> (r matches Ok(v) && v@ == load(
                self.bytes(),
                guest_addr,
                len as nat,
            )),
            !span_reserved(self.regions(), guest_addr, len as nat) ==> r == Err::<
                Vec<u8>,
                LaunchError,
            >(LaunchError::OutOfRange(guest_addr)),
    {
        if !self.contains_span(guest_addr, len) {
            return Err(LaunchError::OutOfRange(guest_addr));
        }
        proof {
            lemma_span_in_pairs(self.ranges@, guest_addr, len as nat);
        }
        match mmap_read(&self.backing, guest_addr, len) {
            Ok(v) => Ok(v),
            Err(_) => Err(LaunchError::OutOfRange(guest_addr)),
        }
    }

    /// The host address that backs `guest_addr`.
    ///
    /// Succeeds exactly when `guest_addr` lies inside a reserved range, and
    /// fails with `NotMapped` otherwise. The address itself is whatever the
    /// host gave when the range was mapped.
    pub fn host_address_of(&self, guest_addr: u64) -> (r: Result<u64, LaunchError>)
        requires
            self.wf(),
        ensures
            r.is_ok() == address_reserved(self.regions(), guest_addr),
            r is Err ==> r == Err::<u64, LaunchError>(LaunchError::NotMapped(guest_addr)),
    {
        proof {
            lemma_span_in_pairs(self.ranges@, guest_addr, 1);
        }
        match mmap_host_address(&self.backing, guest_addr) {
            Ok(host) => Ok(host),
            Err(_) => Err(LaunchError::NotMapped(guest_addr)),
        }
    }

    /// The number of reserved ranges.
    pub fn num_ranges(&self) -> (n: usize)
        ensures
            n == self.regions().len(),
    {
        self.ranges.len()
    }

    /// The `i`-th reserved range.
    pub fn range(&self, i: usize) -> (r: Option<GuestRange>)
        ensures
            i < self.regions().len() ==> r == Some(self.regions()[i as int]),
            i >= self.regions().len() ==> r.is_none(),
    {
        if i < self.ranges.len() {
            Some(self.ranges[i])
        } else {
            None
        }
    }

    /// Whether the span of `len` bytes from `addr` lies inside one range.
    pub fn contains_span(&self, addr: u64, len: usize) -> (found: bool)
        ensures
            found == span_reserved(self.regions(), addr, len as nat),
    {
        let mut i: usize = 0;
        while i < self.ranges.len()
            invariant
                0 <= i <= self.ranges.len(),
                forall|k: int| 0 <= k < i ==> !span_in_range(#[trigger] self.ranges@[k], addr, len as nat),
            decreases self.ranges.len() - i,
        {
            let r = self.ranges[i];
            if r.start <= addr && addr - r.start <= r.len && len as u64 <= r.len - (addr
                - r.start) {
                assert(span_in_range(self.ranges@[i as int], addr, len as nat));
                return true;
            }
            i += 1;
        }
        false
    }
}

} // verus!
