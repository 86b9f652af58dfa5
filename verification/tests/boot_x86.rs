//! x86-64 bring-up: descriptor encoding, boot register values, and the
//! tables installed into guest memory.

use smolvm::mem::GpaSpan;
use smolvm::vm::create_vm;
use smolvm::x86_64::{
    boot_system_registers, get_x86_64_dtable_entry, install_boot_tables, u64_to_le_vec,
    BOOT_CODE_CS, BOOT_CODE_DS, BOOT_CODE_LDT, BOOT_CODE_TSS, GDT_OFFSET, LARGE_PAGE_SIZE,
    MSR_CR_PAT, MSR_CR_PAT_DEFAULT, PDPT_OFFSET, PDT_OFFSET, PML4T_OFFSET, TSS_OFFSET,
};
use smolvm::{Arch, VmError};

#[test]
fn code_segment_encodes_to_known_descriptor() {
    let sregs = boot_system_registers();
    let (low, high) = get_x86_64_dtable_entry(&sregs.cs);
    // Flat 64-bit code segment: the canonical 0x00af9b000000ffff.
    assert_eq!(low, 0x00af_9b00_0000_ffff);
    assert_eq!(high, 0);
}

#[test]
fn data_segment_encodes_to_known_descriptor() {
    let sregs = boot_system_registers();
    let (low, high) = get_x86_64_dtable_entry(&sregs.ss);
    // Flat read/write data segment: the canonical 0x00cf93000000ffff.
    assert_eq!(low, 0x00cf_9300_0000_ffff);
    assert_eq!(high, 0);
}

#[test]
fn tss_segment_encodes_base_and_busy_type() {
    let sregs = boot_system_registers();
    let (low, high) = get_x86_64_dtable_entry(&sregs.tr);
    // Busy 64-bit TSS at 0x3000 with limit 0x67.
    assert_eq!(low, 0x0000_8b00_3000_0067);
    assert_eq!(high, 0);
}

#[test]
fn system_segment_with_high_base_uses_second_word() {
    let mut seg = boot_system_registers().tr;
    seg.base = 0x0000_00ab_0000_3000;
    let (_, high) = get_x86_64_dtable_entry(&seg);
    assert_eq!(high, 0xab);
}

#[test]
fn boot_register_values() {
    let sregs = boot_system_registers();
    assert_eq!(sregs.cr0, 0x8000_0001); // protection + paging
    assert_eq!(sregs.cr3, PML4T_OFFSET);
    assert_eq!(sregs.cr4, 0x20); // physical address extensions
    assert_eq!(sregs.efer, 0xd01); // LMA | LME | NXE | SCE
    assert_eq!(sregs.gdt_base, GDT_OFFSET);
    assert_eq!(sregs.gdt_limit, 0x7f);
    assert_eq!(sregs.cs.selector, BOOT_CODE_CS);
    assert_eq!(sregs.ds.selector, BOOT_CODE_DS);
    assert_eq!(sregs.ss.selector, BOOT_CODE_DS);
    assert_eq!(sregs.ldt.selector, BOOT_CODE_LDT);
    assert_eq!(sregs.tr.selector, BOOT_CODE_TSS);
    assert_eq!(sregs.tr.base, TSS_OFFSET);
    assert_eq!(MSR_CR_PAT, 0x277);
    assert_eq!(MSR_CR_PAT_DEFAULT, 0x0007_0406_0007_0406);
}

#[test]
fn u64_encodes_little_endian() {
    assert_eq!(
        u64_to_le_vec(0x1122_3344_5566_7788),
        vec![0x88, 0x77, 0x66, 0x55, 0x44, 0x33, 0x22, 0x11]
    );
}

#[test]
fn install_writes_descriptors_and_page_tables() {
    let mut vm = create_vm(
        &[GpaSpan {
            start: 0,
            size: 0x10000,
        }],
        Arch::X86_64,
    )
    .unwrap();
    install_boot_tables(&mut vm.memory).unwrap();

    // GDT slots: code at index 2, data at 3, the 16-byte TSS at 8 and 9.
    assert_eq!(
        vm.memory.read(GDT_OFFSET + 0x10, 8).unwrap(),
        u64_to_le_vec(0x00af_9b00_0000_ffff)
    );
    assert_eq!(
        vm.memory.read(GDT_OFFSET + 0x18, 8).unwrap(),
        u64_to_le_vec(0x00cf_9300_0000_ffff)
    );
    assert_eq!(
        vm.memory.read(GDT_OFFSET + 0x40, 8).unwrap(),
        u64_to_le_vec(0x0000_8b00_3000_0067)
    );
    assert_eq!(vm.memory.read(GDT_OFFSET + 0x48, 8).unwrap(), vec![0u8; 8]);
    // Untouched slots stay zero.
    assert_eq!(vm.memory.read(GDT_OFFSET, 8).unwrap(), vec![0u8; 8]);

    // One top-level entry and one directory-pointer entry, present+writable.
    assert_eq!(
        vm.memory.read(PML4T_OFFSET, 8).unwrap(),
        u64_to_le_vec(PDPT_OFFSET | 0x3)
    );
    assert_eq!(
        vm.memory.read(PDPT_OFFSET, 8).unwrap(),
        u64_to_le_vec(PDT_OFFSET | 0x3)
    );

    // The identity-mapped large-page directory.
    assert_eq!(vm.memory.read(PDT_OFFSET, 8).unwrap(), u64_to_le_vec(0x83));
    assert_eq!(
        vm.memory.read(PDT_OFFSET + 8, 8).unwrap(),
        u64_to_le_vec(LARGE_PAGE_SIZE | 0x83)
    );
    assert_eq!(
        vm.memory.read(PDT_OFFSET + 8 * 511, 8).unwrap(),
        u64_to_le_vec(511 * LARGE_PAGE_SIZE | 0x83)
    );
}

#[test]
fn install_fails_without_room_for_the_tables() {
    let mut vm = create_vm(
        &[GpaSpan {
            start: 0,
            size: 0x3000,
        }],
        Arch::X86_64,
    )
    .unwrap();
    assert_eq!(
        install_boot_tables(&mut vm.memory),
        Err(VmError::InvalidGuestAddress)
    );
    // Nothing was written.
    assert_eq!(vm.memory.read(GDT_OFFSET, 0x80).unwrap(), vec![0u8; 0x80]);
}
