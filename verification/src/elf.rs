//! The 64-bit ELF surface the loader consumes: the declared architecture,
//! the entry point and the program headers, each reduced to plain values
//! by the external object-parsing collaborator, and the verified selection
//! of loadable segments.

use vstd::prelude::*;

use object::read::elf::{FileHeader, ProgramHeader};
use object::Object;

use crate::Arch;

verus! {

/// One ELF64 program header, as plain values.
#[derive(Clone, Copy, Debug, PartialEq, Eq, Structural)]
pub struct ElfSegment {
    pub offset: u64,
    pub virt_addr: u64,
    pub phys_addr: u64,
    pub file_size: u64,
    pub memory_size: u64,
    pub align: u64,
    pub flags: u32,
}

// The three permission flags a loadable segment may carry.
pub const PF_X: u32 = 0x1;

pub const PF_W: u32 = 0x2;

pub const PF_R: u32 = 0x4;

/// The top address bits conventionally used for a kernel's high virtual
/// mapping, stripped from physical addresses and entry points on load.
pub const HIGH_HALF_BITS: u64 = 0xffff_8000_0000_0000;

/// Whether the image is a 64-bit ELF container.
pub uninterp spec fn elf_is_64(data: Seq<u8>) -> bool;

/// The architecture the image declares, when the image parses at all.
pub uninterp spec fn elf_architecture(data: Seq<u8>) -> Option<Arch>;

/// The entry point the image declares, when the image parses at all.
pub uninterp spec fn elf_entry(data: Seq<u8>) -> Option<u64>;

/// The image's program headers, when the image parses as ELF64.
pub uninterp spec fn elf_segments(data: Seq<u8>) -> Option<Seq<ElfSegment>>;

/// Relies on object::FileKind::parse: the container kind is a function of
/// the image bytes alone.
#[verifier::external_body]
pub fn file_kind_is_elf64(data: &[u8]) -> (r: bool)
    ensures
        r == elf_is_64(data@),
{
    matches!(object::FileKind::parse(data), Ok(object::FileKind::Elf64))
}

/// Relies on object::File::parse and File::architecture: the declared
/// architecture is a function of the image bytes alone; parsing fails on
/// images object does not understand.
#[verifier::external_body]
pub fn parse_architecture(data: &[u8]) -> (r: Option<Arch>)
    ensures
        r == elf_architecture(data@),
{
    match object::File::parse(data) {
        Ok(f) => match f.architecture() {
            object::Architecture::X86_64 => Some(Arch::X86_64),
            object::Architecture::Aarch64 => Some(Arch::Aarch64),
            _ => Some(Arch::Other),
        },
        Err(_) => None,
    }
}

/// Relies on object::File::parse and File::entry: the declared entry point
/// is a function of the image bytes alone.
#[verifier::external_body]
pub fn parse_entry(data: &[u8]) -> (r: Option<u64>)
    ensures
        r == elf_entry(data@),
{
    match object::File::parse(data) {
        Ok(f) => Some(f.entry()),
        Err(_) => None,
    }
}

/// Relies on object's ELF64 file-header and program-header accessors: each
/// header field is a function of the image bytes alone.
#[verifier::external_body]
pub fn parse_segments(data: &[u8]) -> (r: Option<Vec<ElfSegment>>)
    ensures
        match r {
            Some(v) => elf_segments(data@) == Some(v@),
            None => elf_segments(data@) is None,
        },
{
    let Ok(elf) = object::elf::FileHeader64::<object::Endianness>::parse(data) else { return None };
    let Ok(endian) = elf.endian() else { return None };
    let Ok(headers) = elf.program_headers(endian, data) else { return None };
    let mut out = Vec::new();
    for h in headers {
        out.push(ElfSegment {
            offset: h.p_offset(endian), virt_addr: h.p_vaddr(endian), phys_addr: h.p_paddr(endian),
            file_size: h.p_filesz(endian), memory_size: h.p_memsz(endian),
            align: h.p_align(endian), flags: h.p_flags(endian).0,
        });
    }
    Some(out)
}

/// Whether the loader selects a segment: it carries at least one of the
/// read/write/execute flags and occupies memory.
pub open spec fn segment_selected(s: ElfSegment) -> bool {
    &&& s.flags & (PF_R | PF_W | PF_X) != 0
    &&& s.memory_size != 0
}

/// A segment with the high virtual-mapping bits stripped from its physical
/// address, yielding the real physical load target.
pub open spec fn mask_segment(s: ElfSegment) -> ElfSegment {
    ElfSegment { phys_addr: s.phys_addr & !HIGH_HALF_BITS, ..s }
}

/// The loadable segments, in program-header order, each with its physical
/// address masked.
pub open spec fn spec_select_segments(s: Seq<ElfSegment>) -> Seq<ElfSegment>
    decreases s.len(),
{
    if s.len() == 0 {
        Seq::empty()
    } else {
        let rest = spec_select_segments(s.drop_last());
        if segment_selected(s.last()) {
            rest.push(mask_segment(s.last()))
        } else {
            rest
        }
    }
}

/// Select the loadable segments and strip the high virtual-mapping bits
/// from their physical addresses.
pub fn select_segments(segs: &Vec<ElfSegment>) -> (r: Vec<ElfSegment>)
    ensures
        r@ == spec_select_segments(segs@),
{
    let mut out: Vec<ElfSegment> = Vec::new();
    let n: usize = segs.len();
    let mut i: usize = 0;
    while i < n
        invariant
            n == segs@.len(),
            0 <= i <= n,
            out@ == spec_select_segments(segs@.take(i as int)),
        decreases n - i,
    {
        let s = &segs[i];
        if (s.flags & (PF_R | PF_W | PF_X)) != 0 && s.memory_size != 0 {
            out.push(
                ElfSegment {
                    offset: s.offset,
                    virt_addr: s.virt_addr,
                    phys_addr: s.phys_addr & !HIGH_HALF_BITS,
                    file_size: s.file_size,
                    memory_size: s.memory_size,
                    align: s.align,
                    flags: s.flags,
                },
            );
        }
        proof {
            assert(segs@.take(i + 1).drop_last() =~= segs@.take(i as int));
            assert(segs@.take(i + 1).last() == segs@[i as int]);
        }
        i = i + 1;
    }
    proof {
        assert(segs@.take(n as int) =~= segs@);
    }
    out
}

} // verus!
