//! x86-64 privileged bring-up: segment-descriptor encoding, the boot-time
//! descriptor-table and page-table layout installed into guest memory, and
//! the control-register state that starts the guest in 64-bit long mode
//! with identity paging.

use vstd::prelude::*;

use crate::mem::{
    lemma_write_preserves_disjoint_reads, lemma_write_preserves_layout, spec_can_access,
    spec_read, spec_write, Memory, SpanView,
};
use crate::VmError;

verus! {

// Fixed offsets of the boot descriptor tables and page tables within the
// first guest memory span, which must be contiguous from address 0.
pub const GDT_OFFSET: u64 = 0x2000;

pub const TSS_OFFSET: u64 = 0x3000;

pub const PML4T_OFFSET: u64 = 0x4000;

pub const PDPT_OFFSET: u64 = 0x5000;

pub const PDT_OFFSET: u64 = 0x6000;

pub const PAGE_SHIFT: u64 = 12;

pub const PAGE_SIZE: u64 = 0x1000;

pub const LARGE_PAGE_SIZE: u64 = 0x20_0000;

// Boot-time segment selectors and the GDT slots they reference. The task
// descriptor is 16 bytes, so it occupies two consecutive slots.
pub const BOOT_CODE_CS: u16 = 0x10;

pub const BOOT_CODE_DS: u16 = 0x18;

pub const BOOT_CODE_LDT: u16 = 0x30;

pub const BOOT_CODE_TSS: u16 = 0x40;

pub const BOOT_CODE_CS_GDT_INDEX: u64 = 2;

pub const BOOT_CODE_SS_GDT_INDEX: u64 = 3;

pub const BOOT_CODE_TSS_GDT_INDEX: u64 = 8;

pub const GDT_LIMIT: u16 = 0x7f;

// Descriptor type codes.
pub const DATA_TYPE_READ_WRITE_ACCESSED: u8 = 0x3;

pub const CODE_TYPE_EXECUTE_READ_ACCESSED: u8 = 0xb;

pub const SYSTEM_TYPE_LDT: u8 = 0x2;

pub const SYSTEM_TYPE_TSS_BUSY: u8 = 0xb;

// Page-table entry flags: present, writable, and the large-page size bit.
pub const PTE_P: u64 = 0x1;

pub const PTE_RW: u64 = 0x2;

pub const PTE_PS: u64 = 0x80;

// Control-register and extended-feature bits for 64-bit long mode.
pub const CR0_PE: u64 = 0x1;

pub const CR0_PG: u64 = 0x8000_0000;

pub const CR4_PAE: u64 = 0x20;

pub const EFER_SCE: u64 = 0x1;

pub const EFER_LME: u64 = 0x100;

pub const EFER_LMA: u64 = 0x400;

pub const EFER_NXE: u64 = 0x800;

// The page-attribute model-specific register and its documented default.
pub const MSR_CR_PAT: u32 = 0x277;

pub const MSR_CR_PAT_DEFAULT: u64 = 0x0007_0406_0007_0406;

/// One segment register as the hypervisor interface carries it: the cached
/// descriptor fields plus the selector.
#[derive(Clone, Copy, Debug, PartialEq, Eq, Structural)]
pub struct SegmentRegister {
    pub base: u64,
    pub limit: u32,
    pub selector: u16,
    pub type_: u8,
    pub present: u8,
    pub dpl: u8,
    pub db: u8,
    pub s: u8,
    pub l: u8,
    pub g: u8,
    pub avl: u8,
}

/// The first 64-bit word of a descriptor-table entry: bits 0-15 the low
/// limit, 16-31 the low base, 32-39 base bits 16-23, 40-43 the type,
/// bit 44 the descriptor kind (S), 45-46 the privilege level, bit 47
/// present, 48-51 limit bits 16-19, bit 53 long mode (L), bit 54 default
/// size (D/B), bit 55 granularity (G), and 56-63 base bits 24-31.
pub open spec fn descriptor_low(seg: SegmentRegister) -> u64 {
    ((seg.limit & 0xffff) as u64) | ((seg.base & 0xffff) << 16) | (((seg.base >> 16) & 0xff)
        << 32) | (((seg.type_ & 0xf) as u64) << 40) | (((seg.s & 0x1) as u64) << 44) | (((seg.dpl
        & 0x3) as u64) << 45) | (((seg.present & 0x1) as u64) << 47) | ((((seg.limit >> 16)
        & 0xf) as u64) << 48) | (((seg.l & 0x1) as u64) << 53) | (((seg.db & 0x1) as u64) << 54)
        | (((seg.g & 0x1) as u64) << 55) | (((seg.base >> 24) & 0xff) << 56)
}

/// The second 64-bit word of a descriptor-table entry: bits 32-63 of the
/// base, meaningful for system segments (LDT, TSS) only; code and data
/// segments emit zero there.
pub open spec fn descriptor_high(seg: SegmentRegister) -> u64 {
    if seg.s == 0 {
        seg.base >> 32
    } else {
        0
    }
}

/// Encode one segment register as its two 64-bit descriptor-table words.
pub fn get_x86_64_dtable_entry(seg: &SegmentRegister) -> (r: (u64, u64))
    ensures
        r.0 == descriptor_low(*seg),
        r.1 == descriptor_high(*seg),
{
    let low: u64 = ((seg.limit & 0xffff) as u64) | ((seg.base & 0xffff) << 16) | (((seg.base
        >> 16) & 0xff) << 32) | (((seg.type_ & 0xf) as u64) << 40) | (((seg.s & 0x1) as u64)
        << 44) | (((seg.dpl & 0x3) as u64) << 45) | (((seg.present & 0x1) as u64) << 47) | ((((
    seg.limit >> 16) & 0xf) as u64) << 48) | (((seg.l & 0x1) as u64) << 53) | (((seg.db
        & 0x1) as u64) << 54) | (((seg.g & 0x1) as u64) << 55) | (((seg.base >> 24) & 0xff)
        << 56);
    let high: u64 = if seg.s == 0 {
        seg.base >> 32
    } else {
        0
    };
    (low, high)
}

/// The flat, long-mode boot code segment: executable, full limit,
/// privilege level 0.
pub open spec fn spec_boot_code_segment() -> SegmentRegister {
    SegmentRegister {
        base: 0,
        limit: 0xfffff,
        selector: BOOT_CODE_CS,
        type_: CODE_TYPE_EXECUTE_READ_ACCESSED,
        present: 1,
        dpl: 0,
        db: 0,
        s: 1,
        l: 1,
        g: 1,
        avl: 0,
    }
}

/// The flat read/write boot data segment, reused for SS, DS, ES, FS, GS.
pub open spec fn spec_boot_data_segment() -> SegmentRegister {
    SegmentRegister {
        base: 0,
        limit: 0xfffff,
        selector: BOOT_CODE_DS,
        type_: DATA_TYPE_READ_WRITE_ACCESSED,
        present: 1,
        dpl: 0,
        db: 1,
        s: 0x1,
        l: 0,
        g: 1,
        avl: 0,
    }
}

/// The boot local-descriptor-table register value.
pub open spec fn spec_boot_ldt_segment() -> SegmentRegister {
    SegmentRegister {
        base: 0,
        limit: 0,
        selector: BOOT_CODE_LDT,
        type_: SYSTEM_TYPE_LDT,
        present: 1,
        dpl: 0,
        db: 0,
        s: 0,
        l: 0,
        g: 0,
        avl: 0,
    }
}

/// The busy task-state segment, based at the fixed TSS offset.
pub open spec fn spec_boot_tss_segment() -> SegmentRegister {
    SegmentRegister {
        base: TSS_OFFSET,
        limit: 0x67,
        selector: BOOT_CODE_TSS,
        type_: SYSTEM_TYPE_TSS_BUSY,
        present: 1,
        dpl: 0,
        db: 0,
        s: 0,
        l: 0,
        g: 0,
        avl: 0,
    }
}

/// The privileged register state a vCPU needs to start in 64-bit long
/// mode: segment registers, descriptor-table pointer, control registers
/// and the extended-feature register.
#[derive(Clone, Copy, Debug, PartialEq, Eq, Structural)]
pub struct SystemRegisters {
    pub cs: SegmentRegister,
    pub ds: SegmentRegister,
    pub es: SegmentRegister,
    pub fs: SegmentRegister,
    pub gs: SegmentRegister,
    pub ss: SegmentRegister,
    pub ldt: SegmentRegister,
    pub tr: SegmentRegister,
    pub gdt_base: u64,
    pub gdt_limit: u16,
    pub cr0: u64,
    pub cr3: u64,
    pub cr4: u64,
    pub efer: u64,
}

/// The full boot register state: flat code and data segments, the
/// descriptor-table pointer at the fixed GDT offset, protection and paging
/// enabled, CR3 at the top-level page table's frame, physical address
/// extensions on, and long mode active with no-execute and syscall
/// extensions.
pub open spec fn spec_boot_system_registers() -> SystemRegisters {
    SystemRegisters {
        cs: spec_boot_code_segment(),
        ds: spec_boot_data_segment(),
        es: spec_boot_data_segment(),
        fs: spec_boot_data_segment(),
        gs: spec_boot_data_segment(),
        ss: spec_boot_data_segment(),
        ldt: spec_boot_ldt_segment(),
        tr: spec_boot_tss_segment(),
        gdt_base: GDT_OFFSET,
        gdt_limit: GDT_LIMIT,
        cr0: CR0_PE | CR0_PG,
        cr3: (PML4T_OFFSET >> PAGE_SHIFT) << PAGE_SHIFT,
        cr4: CR4_PAE,
        efer: EFER_LMA | EFER_LME | EFER_NXE | EFER_SCE,
    }
}

// Guest physical addresses of the descriptor-table slots the boot state
// populates.
pub const CS_DESC_GPA: u64 = GDT_OFFSET + 8 * BOOT_CODE_CS_GDT_INDEX;

pub const SS_DESC_GPA: u64 = GDT_OFFSET + 8 * BOOT_CODE_SS_GDT_INDEX;

pub const TSS_DESC_GPA: u64 = GDT_OFFSET + 8 * BOOT_CODE_TSS_GDT_INDEX;

pub const TSS_DESC_HIGH_GPA: u64 = GDT_OFFSET + 8 * BOOT_CODE_TSS_GDT_INDEX + 8;

/// A 64-bit value as its eight little-endian bytes.
pub open spec fn u64_le_bytes(v: u64) -> Seq<u8> {
    seq![
        (v & 0xff) as u8,
        ((v >> 8) & 0xff) as u8,
        ((v >> 16) & 0xff) as u8,
        ((v >> 24) & 0xff) as u8,
        ((v >> 32) & 0xff) as u8,
        ((v >> 40) & 0xff) as u8,
        ((v >> 48) & 0xff) as u8,
        ((v >> 56) & 0xff) as u8,
    ]
}

/// Encode a 64-bit value as its eight little-endian bytes.
pub fn u64_to_le_vec(v: u64) -> (r: Vec<u8>)
    ensures
        r@ == u64_le_bytes(v),
{
    let mut r: Vec<u8> = Vec::new();
    proof {
        assert((v & 0xff) < 256 && ((v >> 8) & 0xff) < 256 && ((v >> 16) & 0xff) < 256 && ((v
            >> 24) & 0xff) < 256 && ((v >> 32) & 0xff) < 256 && ((v >> 40) & 0xff) < 256 && ((v
            >> 48) & 0xff) < 256 && ((v >> 56) & 0xff) < 256) by (bit_vector);
    }
    r.push((v & 0xff) as u8);
    r.push(((v >> 8) & 0xff) as u8);
    r.push(((v >> 16) & 0xff) as u8);
    r.push(((v >> 24) & 0xff) as u8);
    r.push(((v >> 32) & 0xff) as u8);
    r.push(((v >> 40) & 0xff) as u8);
    r.push(((v >> 48) & 0xff) as u8);
    r.push(((v >> 56) & 0xff) as u8);
    proof {
        assert(r@ =~= u64_le_bytes(v));
    }
    r
}

/// The page-directory entry mapping the 2 MiB large page at
/// `index * LARGE_PAGE_SIZE` to itself: present, writable, page-size set.
pub open spec fn pd_entry(index: u64) -> u64
    recommends
        index < 512,
{
    ((index * LARGE_PAGE_SIZE) as u64) | (PTE_P | PTE_RW | PTE_PS)
}

/// The first `n` entries of the identity-mapping page directory, as bytes.
pub open spec fn pdt_bytes(n: nat) -> Seq<u8>
    decreases n,
{
    if n == 0 {
        Seq::empty()
    } else {
        pdt_bytes((n - 1) as nat) + u64_le_bytes(pd_entry((n - 1) as u64))
    }
}

/// Build all 512 identity-mapping page-directory entries as bytes.
fn pdt_table_bytes() -> (r: Vec<u8>)
    ensures
        r@ == pdt_bytes(512),
{
    let mut out: Vec<u8> = Vec::new();
    let mut i: u64 = 0;
    while i < 512
        invariant
            0 <= i <= 512,
            out@ == pdt_bytes(i as nat),
        decreases 512 - i,
    {
        let e: u64 = (i * LARGE_PAGE_SIZE) | (PTE_P | PTE_RW | PTE_PS);
        let mut le = u64_to_le_vec(e);
        out.append(&mut le);
        proof {
            assert(e == pd_entry(i));
            assert(out@ == pdt_bytes((i + 1) as nat));
        }
        i = i + 1;
    }
    out
}

/// Whether the boot descriptor tables and page tables all lie inside
/// declared guest memory: they need a contiguous span covering the fixed
/// offsets, conventionally one span starting at guest physical address 0.
pub open spec fn boot_tables_fit(m: Seq<SpanView>) -> bool {
    &&& spec_can_access(m, CS_DESC_GPA, 8)
    &&& spec_can_access(m, SS_DESC_GPA, 8)
    &&& spec_can_access(m, TSS_DESC_GPA, 8)
    &&& spec_can_access(m, TSS_DESC_HIGH_GPA, 8)
    &&& spec_can_access(m, PML4T_OFFSET, 8)
    &&& spec_can_access(m, PDPT_OFFSET, 8)
    &&& spec_can_access(m, PDT_OFFSET, PAGE_SIZE as int)
}

/// Guest memory after the boot tables are installed: the code, data and
/// task descriptors in their GDT slots, one top-level entry pointing at
/// the directory-pointer table, one of those pointing at the page
/// directory, and the full identity-mapping directory.
pub open spec fn spec_install_boot_tables(m: Seq<SpanView>) -> Seq<SpanView>
    recommends
        boot_tables_fit(m),
{
    let m1 = spec_write(
        m,
        CS_DESC_GPA,
        u64_le_bytes(descriptor_low(spec_boot_code_segment())),
    ).unwrap();
    let m2 = spec_write(
        m1,
        SS_DESC_GPA,
        u64_le_bytes(descriptor_low(spec_boot_data_segment())),
    ).unwrap();
    let m3 = spec_write(
        m2,
        TSS_DESC_GPA,
        u64_le_bytes(descriptor_low(spec_boot_tss_segment())),
    ).unwrap();
    let m4 = spec_write(
        m3,
        TSS_DESC_HIGH_GPA,
        u64_le_bytes(descriptor_high(spec_boot_tss_segment())),
    ).unwrap();
    let m5 = spec_write(m4, PML4T_OFFSET, u64_le_bytes(PDPT_OFFSET | (PTE_P | PTE_RW))).unwrap();
    let m6 = spec_write(m5, PDPT_OFFSET, u64_le_bytes(PDT_OFFSET | (PTE_P | PTE_RW))).unwrap();
    spec_write(m6, PDT_OFFSET, pdt_bytes(512)).unwrap()
}

/// Write `data` where the caller has already established that it fits.
fn write_bytes_checked(mem: &mut Memory, gpa: u64, data: &[u8])
    requires
        spec_can_access(old(mem)@, gpa, data@.len() as int),
    ensures
        Some(final(mem)@) == spec_write(old(mem)@, gpa, data@),
{
    match mem.write(gpa, data) {
        Ok(()) => {},
        Err(_) => {
            proof {
                assert(false);
            }
        },
    }
}

/// Write one 64-bit table entry, little-endian, where it is known to fit.
fn write_u64_checked(mem: &mut Memory, gpa: u64, v: u64)
    requires
        spec_can_access(old(mem)@, gpa, 8),
    ensures
        Some(final(mem)@) == spec_write(old(mem)@, gpa, u64_le_bytes(v)),
{
    let b = u64_to_le_vec(v);
    write_bytes_checked(mem, gpa, b.as_slice());
}

/// Install the boot descriptor tables and the identity page-table
/// hierarchy directly into guest memory.
///
/// Fails, leaving memory unchanged, when the fixed table offsets are not
/// all covered by declared guest memory.
pub fn install_boot_tables(mem: &mut Memory) -> (r: Result<(), VmError>)
    ensures
        r is Ok <==> boot_tables_fit(old(mem)@),
        r is Ok ==> final(mem)@ == spec_install_boot_tables(old(mem)@),
        r is Err ==> final(mem)@ == old(mem)@ && r == Err::<(), VmError>(
            VmError::InvalidGuestAddress,
        ),
{
    let fits = mem.can_access(CS_DESC_GPA, 8) && mem.can_access(SS_DESC_GPA, 8) && mem.can_access(
        TSS_DESC_GPA,
        8,
    ) && mem.can_access(TSS_DESC_HIGH_GPA, 8) && mem.can_access(PML4T_OFFSET, 8) && mem.can_access(
        PDPT_OFFSET,
        8,
    ) && mem.can_access(PDT_OFFSET, 0x1000);
    if !fits {
        return Err(VmError::InvalidGuestAddress);
    }
    let ghost m0 = mem@;
    let sregs = boot_system_registers();
    let cs_hw = get_x86_64_dtable_entry(&sregs.cs);
    let ss_hw = get_x86_64_dtable_entry(&sregs.ss);
    let tss_hw = get_x86_64_dtable_entry(&sregs.tr);

    write_u64_checked(mem, CS_DESC_GPA, cs_hw.0);
    proof {
        lemma_write_preserves_layout(
            m0,
            CS_DESC_GPA,
            u64_le_bytes(descriptor_low(spec_boot_code_segment())),
        );
    }
    let ghost m1 = mem@;
    write_u64_checked(mem, SS_DESC_GPA, ss_hw.0);
    proof {
        lemma_write_preserves_layout(
            m1,
            SS_DESC_GPA,
            u64_le_bytes(descriptor_low(spec_boot_data_segment())),
        );
    }
    let ghost m2 = mem@;
    write_u64_checked(mem, TSS_DESC_GPA, tss_hw.0);
    proof {
        lemma_write_preserves_layout(
            m2,
            TSS_DESC_GPA,
            u64_le_bytes(descriptor_low(spec_boot_tss_segment())),
        );
    }
    let ghost m3 = mem@;
    write_u64_checked(mem, TSS_DESC_HIGH_GPA, tss_hw.1);
    proof {
        lemma_write_preserves_layout(
            m3,
            TSS_DESC_HIGH_GPA,
            u64_le_bytes(descriptor_high(spec_boot_tss_segment())),
        );
    }
    let ghost m4 = mem@;
    write_u64_checked(mem, PML4T_OFFSET, PDPT_OFFSET | (PTE_P | PTE_RW));
    proof {
        lemma_write_preserves_layout(m4, PML4T_OFFSET, u64_le_bytes(PDPT_OFFSET | (PTE_P | PTE_RW)));
    }
    let ghost m5 = mem@;
    write_u64_checked(mem, PDPT_OFFSET, PDT_OFFSET | (PTE_P | PTE_RW));
    proof {
        lemma_write_preserves_layout(m5, PDPT_OFFSET, u64_le_bytes(PDT_OFFSET | (PTE_P | PTE_RW)));
    }
    let pdt = pdt_table_bytes();
    proof {
        assert(pdt@.len() == PAGE_SIZE as int) by {
            lemma_pdt_bytes_len(512);
        }
    }
    write_bytes_checked(mem, PDT_OFFSET, pdt.as_slice());
    Ok(())
}

/// What the installed boot tables read back as: each populated GDT slot
/// holds its descriptor, the top-level and directory-pointer tables each
/// hold one entry pointing at the next level, and the page directory
/// holds the full identity mapping.
pub proof fn lemma_boot_tables_read_back(m: Seq<SpanView>)
    requires
        boot_tables_fit(m),
    ensures
        ({
            let m2 = spec_install_boot_tables(m);
            &&& spec_read(m2, CS_DESC_GPA, 8) == Some(
                u64_le_bytes(descriptor_low(spec_boot_code_segment())),
            )
            &&& spec_read(m2, SS_DESC_GPA, 8) == Some(
                u64_le_bytes(descriptor_low(spec_boot_data_segment())),
            )
            &&& spec_read(m2, TSS_DESC_GPA, 8) == Some(
                u64_le_bytes(descriptor_low(spec_boot_tss_segment())),
            )
            &&& spec_read(m2, TSS_DESC_HIGH_GPA, 8) == Some(
                u64_le_bytes(descriptor_high(spec_boot_tss_segment())),
            )
            &&& spec_read(m2, PML4T_OFFSET, 8) == Some(
                u64_le_bytes(PDPT_OFFSET | (PTE_P | PTE_RW)),
            )
            &&& spec_read(m2, PDPT_OFFSET, 8) == Some(
                u64_le_bytes(PDT_OFFSET | (PTE_P | PTE_RW)),
            )
            &&& spec_read(m2, PDT_OFFSET, PAGE_SIZE as int) == Some(pdt_bytes(512))
        }),
{
    let d1 = u64_le_bytes(descriptor_low(spec_boot_code_segment()));
    let d2 = u64_le_bytes(descriptor_low(spec_boot_data_segment()));
    let d3 = u64_le_bytes(descriptor_low(spec_boot_tss_segment()));
    let d4 = u64_le_bytes(descriptor_high(spec_boot_tss_segment()));
    let d5 = u64_le_bytes(PDPT_OFFSET | (PTE_P | PTE_RW));
    let d6 = u64_le_bytes(PDT_OFFSET | (PTE_P | PTE_RW));
    let d7 = pdt_bytes(512);
    lemma_pdt_bytes_len(512);

    let m1 = spec_write(m, CS_DESC_GPA, d1).unwrap();
    lemma_write_preserves_layout(m, CS_DESC_GPA, d1);
    let m2 = spec_write(m1, SS_DESC_GPA, d2).unwrap();
    lemma_write_preserves_layout(m1, SS_DESC_GPA, d2);
    let m3 = spec_write(m2, TSS_DESC_GPA, d3).unwrap();
    lemma_write_preserves_layout(m2, TSS_DESC_GPA, d3);
    let m4 = spec_write(m3, TSS_DESC_HIGH_GPA, d4).unwrap();
    lemma_write_preserves_layout(m3, TSS_DESC_HIGH_GPA, d4);
    let m5 = spec_write(m4, PML4T_OFFSET, d5).unwrap();
    lemma_write_preserves_layout(m4, PML4T_OFFSET, d5);
    let m6 = spec_write(m5, PDPT_OFFSET, d6).unwrap();
    lemma_write_preserves_layout(m5, PDPT_OFFSET, d6);
    let m7 = spec_write(m6, PDT_OFFSET, d7).unwrap();
    assert(m7 == spec_install_boot_tables(m));

    // Each entry reads back right after its own write, and every later
    // write lands strictly beyond it.
    Memory::lemma_write_read_round_trip(m, CS_DESC_GPA, d1);
    lemma_write_preserves_disjoint_reads(m1, SS_DESC_GPA, d2, CS_DESC_GPA, 8);
    lemma_write_preserves_disjoint_reads(m2, TSS_DESC_GPA, d3, CS_DESC_GPA, 8);
    lemma_write_preserves_disjoint_reads(m3, TSS_DESC_HIGH_GPA, d4, CS_DESC_GPA, 8);
    lemma_write_preserves_disjoint_reads(m4, PML4T_OFFSET, d5, CS_DESC_GPA, 8);
    lemma_write_preserves_disjoint_reads(m5, PDPT_OFFSET, d6, CS_DESC_GPA, 8);
    lemma_write_preserves_disjoint_reads(m6, PDT_OFFSET, d7, CS_DESC_GPA, 8);

    Memory::lemma_write_read_round_trip(m1, SS_DESC_GPA, d2);
    lemma_write_preserves_disjoint_reads(m2, TSS_DESC_GPA, d3, SS_DESC_GPA, 8);
    lemma_write_preserves_disjoint_reads(m3, TSS_DESC_HIGH_GPA, d4, SS_DESC_GPA, 8);
    lemma_write_preserves_disjoint_reads(m4, PML4T_OFFSET, d5, SS_DESC_GPA, 8);
    lemma_write_preserves_disjoint_reads(m5, PDPT_OFFSET, d6, SS_DESC_GPA, 8);
    lemma_write_preserves_disjoint_reads(m6, PDT_OFFSET, d7, SS_DESC_GPA, 8);

    Memory::lemma_write_read_round_trip(m2, TSS_DESC_GPA, d3);
    lemma_write_preserves_disjoint_reads(m3, TSS_DESC_HIGH_GPA, d4, TSS_DESC_GPA, 8);
    lemma_write_preserves_disjoint_reads(m4, PML4T_OFFSET, d5, TSS_DESC_GPA, 8);
    lemma_write_preserves_disjoint_reads(m5, PDPT_OFFSET, d6, TSS_DESC_GPA, 8);
    lemma_write_preserves_disjoint_reads(m6, PDT_OFFSET, d7, TSS_DESC_GPA, 8);

    Memory::lemma_write_read_round_trip(m3, TSS_DESC_HIGH_GPA, d4);
    lemma_write_preserves_disjoint_reads(m4, PML4T_OFFSET, d5, TSS_DESC_HIGH_GPA, 8);
    lemma_write_preserves_disjoint_reads(m5, PDPT_OFFSET, d6, TSS_DESC_HIGH_GPA, 8);
    lemma_write_preserves_disjoint_reads(m6, PDT_OFFSET, d7, TSS_DESC_HIGH_GPA, 8);

    Memory::lemma_write_read_round_trip(m4, PML4T_OFFSET, d5);
    lemma_write_preserves_disjoint_reads(m5, PDPT_OFFSET, d6, PML4T_OFFSET, 8);
    lemma_write_preserves_disjoint_reads(m6, PDT_OFFSET, d7, PML4T_OFFSET, 8);

    Memory::lemma_write_read_round_trip(m5, PDPT_OFFSET, d6);
    lemma_write_preserves_disjoint_reads(m6, PDT_OFFSET, d7, PDPT_OFFSET, 8);

    Memory::lemma_write_read_round_trip(m6, PDT_OFFSET, d7);
}

/// The page directory holds eight bytes per entry.
pub proof fn lemma_pdt_bytes_len(n: nat)
    ensures
        pdt_bytes(n).len() == 8 * n,
    decreases n,
{
    if n != 0 {
        lemma_pdt_bytes_len((n - 1) as nat);
    }
}

/// Build the boot register state.
pub fn boot_system_registers() -> (r: SystemRegisters)
    ensures
        r == spec_boot_system_registers(),
{
    let code = SegmentRegister {
        base: 0,
        limit: 0xfffff,
        selector: BOOT_CODE_CS,
        type_: CODE_TYPE_EXECUTE_READ_ACCESSED,
        present: 1,
        dpl: 0,
        db: 0,
        s: 1,
        l: 1,
        g: 1,
        avl: 0,
    };
    let data = SegmentRegister {
        base: 0,
        limit: 0xfffff,
        selector: BOOT_CODE_DS,
        type_: DATA_TYPE_READ_WRITE_ACCESSED,
        present: 1,
        dpl: 0,
        db: 1,
        s: 0x1,
        l: 0,
        g: 1,
        avl: 0,
    };
    let ldt = SegmentRegister {
        base: 0,
        limit: 0,
        selector: BOOT_CODE_LDT,
        type_: SYSTEM_TYPE_LDT,
        present: 1,
        dpl: 0,
        db: 0,
        s: 0,
        l: 0,
        g: 0,
        avl: 0,
    };
    let tr = SegmentRegister {
        base: TSS_OFFSET,
        limit: 0x67,
        selector: BOOT_CODE_TSS,
        type_: SYSTEM_TYPE_TSS_BUSY,
        present: 1,
        dpl: 0,
        db: 0,
        s: 0,
        l: 0,
        g: 0,
        avl: 0,
    };
    SystemRegisters {
        cs: code,
        ds: data,
        es: data,
        fs: data,
        gs: data,
        ss: data,
        ldt,
        tr,
        gdt_base: GDT_OFFSET,
        gdt_limit: GDT_LIMIT,
        cr0: CR0_PE | CR0_PG,
        cr3: (PML4T_OFFSET >> PAGE_SHIFT) << PAGE_SHIFT,
        cr4: CR4_PAE,
        efer: EFER_LMA | EFER_LME | EFER_NXE | EFER_SCE,
    }
}

} // verus!
