//! The virtual-machine composition: guest memory plus the loader-visible
//! CPU state, with ELF and raw-binary kernel loading.

use vstd::prelude::*;

use crate::elf::{
    elf_architecture, elf_entry, elf_is_64, elf_segments, file_kind_is_elf64, parse_architecture,
    parse_entry, parse_segments, select_segments, spec_select_segments, ElfSegment,
    HIGH_HALF_BITS,
};
use crate::mem::{
    spec_read, spec_write, GpaSpan, MappedGpa, Memory, SpanView,
};
use crate::{Arch, VmError};
use vstd::slice::slice_subrange;

verus! {

/// A sequence of `n` zero bytes: the initial contents of guest memory.
pub open spec fn zero_bytes(n: nat) -> Seq<u8> {
    Seq::new(n, |k: int| 0u8)
}

/// Whether a span request is acceptable: every span is non-empty and lies
/// within the guest physical address space, and the spans are declared in
/// ascending order without overlap.
pub open spec fn spans_layout_ok(spans: Seq<GpaSpan>) -> bool {
    &&& forall|i: int|
        0 <= i < spans.len() ==> spans[i].size > 0 && spans[i].start + spans[i].size <= u64::MAX
            as int + 1
    &&& forall|i: int|
        0 <= i < spans.len() - 1 ==> spans[i].start + spans[i].size <= spans[i + 1].start
}

/// The virtual machine: guest memory, the guest architecture, and the
/// loader-visible CPU state (the instruction pointer that the backend
/// programs into the vCPU before the first run).
pub struct SmolVm {
    pub memory: Memory,
    pub arch: Arch,
    pub ip: u64,
}

/// Create a machine whose memory is backed by one zero-filled region per
/// requested span.
///
/// Rejects overlapping, unordered, empty or out-of-range spans.
pub fn create_vm(spans: &[GpaSpan], arch: Arch) -> (r: Result<SmolVm, VmError>)
    ensures
        r is Ok <==> spans_layout_ok(spans@),
        match r {
            Ok(vm) => {
                &&& vm.arch == arch
                &&& vm.ip == 0
                &&& vm.memory@.len() == spans@.len()
                &&& forall|i: int|
                    0 <= i < spans@.len() ==> vm.memory@[i].gpa == spans@[i].start
                        && vm.memory@[i].bytes == zero_bytes(spans@[i].size as nat)
            },
            Err(e) => e == VmError::InvalidSpanLayout,
        },
{
    let n: usize = spans.len();
    let mut i: usize = 0;
    while i < n
        invariant
            n == spans@.len(),
            0 <= i <= n,
            forall|j: int|
                0 <= j < i ==> spans@[j].size > 0 && spans@[j].start + spans@[j].size <= u64::MAX
                    as int + 1,
            forall|j: int|
                0 <= j < i && j < n - 1 ==> spans@[j].start + spans@[j].size <= spans@[j
                    + 1].start,
        decreases n - i,
    {
        let s = &spans[i];
        if s.size == 0 {
            return Err(VmError::InvalidSpanLayout);
        }
        if (s.size - 1) as u64 > u64::MAX - s.start {
            return Err(VmError::InvalidSpanLayout);
        }
        if i + 1 < n {
            let end_m1: u64 = s.start + (s.size - 1) as u64;
            if spans[i + 1].start <= end_m1 {
                return Err(VmError::InvalidSpanLayout);
            }
        }
        i = i + 1;
    }
    let mut regions: Vec<MappedGpa> = Vec::new();
    let mut k: usize = 0;
    while k < n
        invariant
            n == spans@.len(),
            0 <= k <= n,
            regions@.len() == k,
            forall|j: int|
                0 <= j < k ==> regions@[j]@.gpa == spans@[j].start && regions@[j]@.bytes
                    == zero_bytes(spans@[j].size as nat),
        decreases n - k,
    {
        let s = &spans[k];
        let bytes: Vec<u8> = vec![0u8; s.size];
        proof {
            assert forall|m: int| 0 <= m < bytes@.len() implies bytes@[m] == 0u8 by {
                assert(vstd::pervasive::cloned(0u8, bytes@[m]));
            }
            assert(bytes@ =~= zero_bytes(s.size as nat));
        }
        regions.push(MappedGpa { gpa: s.start, bytes });
        k = k + 1;
    }
    let memory = Memory::new(regions);
    Ok(SmolVm { memory, arch, ip: 0 })
}

/// Guest memory after the given segments are loaded, in order: each
/// segment's `file_size` bytes, taken from the image at its file offset,
/// written at its physical address. `None` when a segment's file range
/// runs past the end of the image or its write does not fit in guest
/// memory.
pub open spec fn spec_load_segments(
    m: Seq<SpanView>,
    segs: Seq<ElfSegment>,
    data: Seq<u8>,
) -> Option<Seq<SpanView>>
    decreases segs.len(),
{
    if segs.len() == 0 {
        Some(m)
    } else {
        let s = segs[0];
        if s.offset + s.file_size <= data.len() {
            match spec_write(
                m,
                s.phys_addr,
                data.subrange(s.offset as int, s.offset + s.file_size),
            ) {
                Some(m2) => spec_load_segments(m2, segs.drop_first(), data),
                None => None,
            }
        } else {
            None
        }
    }
}

/// Whether `load_elf` succeeds: the image is a parseable 64-bit ELF for
/// the machine's own architecture, and every selected segment lies inside
/// the image and inside declared guest memory.
pub open spec fn spec_load_elf_ok(m: Seq<SpanView>, native: Arch, data: Seq<u8>) -> bool {
    &&& elf_is_64(data)
    &&& elf_architecture(data) is Some
    &&& elf_entry(data) is Some
    &&& elf_segments(data) is Some
    &&& elf_architecture(data).unwrap() == native
    &&& spec_load_segments(m, spec_select_segments(elf_segments(data).unwrap()), data) is Some
}

impl SmolVm {
    /// Copy a raw image verbatim into guest memory at `load_addr` and
    /// point the instruction pointer there.
    pub fn load_bin(&mut self, bin_data: &[u8], load_addr: u64) -> (r: Result<(), VmError>)
        ensures
            r is Ok <==> spec_write(old(self).memory@, load_addr, bin_data@) is Some,
            match r {
                Ok(()) => {
                    &&& Some(final(self).memory@) == spec_write(
                        old(self).memory@,
                        load_addr,
                        bin_data@,
                    )
                    &&& final(self).ip == load_addr
                },
                Err(e) => {
                    &&& e == VmError::InvalidGuestAddress
                    &&& final(self).memory@ == old(self).memory@
                    &&& final(self).ip == old(self).ip
                },
            },
            final(self).arch == old(self).arch,
    {
        match self.memory.write(load_addr, bin_data) {
            Ok(()) => {
                self.ip = load_addr;
                Ok(())
            },
            Err(e) => Err(e),
        }
    }

    /// Parse the image as 64-bit ELF, copy each loadable segment's file
    /// bytes to its (masked) physical address, and point the instruction
    /// pointer at the (masked) entry point.
    ///
    /// Images that do not parse, and images for a foreign architecture,
    /// are rejected before any guest state changes. Memory between a
    /// segment's `file_size` and its `memory_size` is left exactly as
    /// guest memory already holds it (zero right after creation).
    pub fn load_elf(&mut self, data: &[u8]) -> (r: Result<(), VmError>)
        ensures
            r is Ok <==> spec_load_elf_ok(old(self).memory@, old(self).arch, data@),
            r is Ok ==> {
                &&& Some(final(self).memory@) == spec_load_segments(
                    old(self).memory@,
                    spec_select_segments(elf_segments(data@).unwrap()),
                    data@,
                )
                &&& final(self).ip == (elf_entry(data@).unwrap() & !HIGH_HALF_BITS)
            },
            final(self).arch == old(self).arch,
            r is Err ==> final(self).ip == old(self).ip,
            !(elf_is_64(data@) && elf_architecture(data@) is Some && elf_entry(data@) is Some
                && elf_segments(data@) is Some) ==> {
                &&& r == Err::<(), VmError>(VmError::UnsupportedImageFormat)
                &&& final(self).memory@ == old(self).memory@
            },
            (elf_is_64(data@) && elf_architecture(data@) is Some && elf_entry(data@) is Some
                && elf_segments(data@) is Some && elf_architecture(data@).unwrap() != old(self).arch)
                ==> {
                &&& r == Err::<(), VmError>(VmError::ArchitectureMismatch)
                &&& final(self).memory@ == old(self).memory@
            },
    {
        if !file_kind_is_elf64(data) {
            return Err(VmError::UnsupportedImageFormat);
        }
        let arch = match parse_architecture(data) {
            Some(a) => a,
            None => {
                return Err(VmError::UnsupportedImageFormat);
            },
        };
        let entry = match parse_entry(data) {
            Some(e) => e,
            None => {
                return Err(VmError::UnsupportedImageFormat);
            },
        };
        let segs = match parse_segments(data) {
            Some(s) => s,
            None => {
                return Err(VmError::UnsupportedImageFormat);
            },
        };
        if arch != self.arch {
            return Err(VmError::ArchitectureMismatch);
        }
        let selected = select_segments(&segs);
        let ghost m_start = self.memory@;
        let ghost sel = selected@;
        let ghost ip0 = self.ip;
        let ghost arch0 = self.arch;
        let n: usize = selected.len();
        proof {
            assert(sel.skip(0) =~= sel);
        }
        let mut i: usize = 0;
        while i < n
            invariant
                n == sel.len(),
                0 <= i <= n,
                selected@ == sel,
                self.ip == ip0,
                self.arch == arch0,
                m_start == old(self).memory@,
                ip0 == old(self).ip,
                arch0 == old(self).arch,
                elf_is_64(data@),
                elf_architecture(data@) == Some(arch0),
                elf_entry(data@) == Some(entry),
                elf_segments(data@) is Some,
                sel == spec_select_segments(elf_segments(data@).unwrap()),
                spec_load_segments(self.memory@, sel.skip(i as int), data@) == spec_load_segments(
                    m_start,
                    sel,
                    data@,
                ),
            decreases n - i,
        {
            let s = &selected[i];
            proof {
                assert(sel.skip(i as int)[0] == sel[i as int]);
                assert(sel.skip(i as int).drop_first() =~= sel.skip(i as int + 1));
            }
            if s.offset > data.len() as u64 || s.file_size > data.len() as u64 - s.offset {
                proof {
                    assert(spec_load_segments(self.memory@, sel.skip(i as int), data@) is None);
                }
                return Err(VmError::UnsupportedImageFormat);
            }
            let start: usize = s.offset as usize;
            let end: usize = (s.offset + s.file_size) as usize;
            let chunk = slice_subrange(data, start, end);
            match self.memory.write(s.phys_addr, chunk) {
                Ok(()) => {},
                Err(_) => {
                    proof {
                        assert(spec_load_segments(self.memory@, sel.skip(i as int), data@)
                            is None);
                    }
                    return Err(VmError::InvalidGuestAddress);
                },
            }
            i = i + 1;
        }
        proof {
            assert(sel.skip(n as int) =~= Seq::<ElfSegment>::empty());
        }
        self.ip = entry & !HIGH_HALF_BITS;
        Ok(())
    }
}

/// For an image whose selection yields exactly one loadable segment,
/// loading places exactly that segment's file bytes at its physical
/// address: reading `file_size` bytes back at `phys_addr` returns the
/// image bytes from `offset` on.
pub proof fn lemma_single_segment_placement(m: Seq<SpanView>, seg: ElfSegment, data: Seq<u8>)
    requires
        spec_load_segments(m, seq![seg], data) is Some,
    ensures
        spec_read(
            spec_load_segments(m, seq![seg], data).unwrap(),
            seg.phys_addr,
            seg.file_size as int,
        ) == Some(data.subrange(seg.offset as int, seg.offset + seg.file_size)),
{
    let sub = data.subrange(seg.offset as int, seg.offset + seg.file_size);
    let segs = seq![seg];
    assert(segs[0] == seg);
    assert(segs.drop_first() =~= Seq::<ElfSegment>::empty());
    assert(seg.offset + seg.file_size <= data.len());
    let m2 = spec_write(m, seg.phys_addr, sub);
    assert(m2 is Some);
    assert(spec_load_segments(m2.unwrap(), Seq::<ElfSegment>::empty(), data) == Some(m2.unwrap()));
    assert(spec_load_segments(m, segs, data) == Some(m2.unwrap()));
    Memory::lemma_write_read_round_trip(m, seg.phys_addr, sub);
    assert(sub.len() == seg.file_size as int);
}

} // verus!
