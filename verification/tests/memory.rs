//! Guest physical memory: round trips, bounds checks, span resolution.

use smolvm::mem::GpaSpan;
use smolvm::vm::create_vm;
use smolvm::{Arch, VmError};

#[test]
fn write_then_read_round_trips() {
    let mut vm = create_vm(
        &[GpaSpan {
            start: 0x10000,
            size: 0x1000,
        }],
        Arch::X86_64,
    )
    .unwrap();
    let data = [1u8, 2, 3, 4, 5];
    vm.memory.write(0x10080, &data).unwrap();
    let back = vm.memory.read(0x10080, data.len()).unwrap();
    assert_eq!(back, data.to_vec());
}

#[test]
fn round_trip_at_span_edges() {
    let mut vm = create_vm(
        &[GpaSpan {
            start: 0x10000,
            size: 0x1000,
        }],
        Arch::X86_64,
    )
    .unwrap();
    // Fill the whole span, then read it back in pieces.
    let data: Vec<u8> = (0..0x1000u64).map(|i| (i % 251) as u8).collect();
    vm.memory.write(0x10000, &data).unwrap();
    assert_eq!(vm.memory.read(0x10000, 0x1000).unwrap(), data);
    assert_eq!(vm.memory.read(0x10fff, 1).unwrap(), vec![data[0xfff]]);
}

#[test]
fn new_memory_reads_as_zero() {
    let vm = create_vm(
        &[GpaSpan {
            start: 0x4000,
            size: 64,
        }],
        Arch::X86_64,
    )
    .unwrap();
    assert_eq!(vm.memory.read(0x4000, 64).unwrap(), vec![0u8; 64]);
}

#[test]
fn write_outside_all_spans_is_invalid() {
    let mut vm = create_vm(
        &[GpaSpan {
            start: 0x10000,
            size: 0x1000,
        }],
        Arch::X86_64,
    )
    .unwrap();
    assert_eq!(
        vm.memory.write(0x20000, &[1, 2, 3]),
        Err(VmError::InvalidGuestAddress)
    );
    assert_eq!(
        vm.memory.write(0xffff, &[1]),
        Err(VmError::InvalidGuestAddress)
    );
}

#[test]
fn read_outside_all_spans_is_invalid() {
    let vm = create_vm(
        &[GpaSpan {
            start: 0x10000,
            size: 0x1000,
        }],
        Arch::X86_64,
    )
    .unwrap();
    assert_eq!(vm.memory.read(0, 1), Err(VmError::InvalidGuestAddress));
}

#[test]
fn access_crossing_span_end_is_invalid() {
    let mut vm = create_vm(
        &[GpaSpan {
            start: 0x10000,
            size: 0x1000,
        }],
        Arch::X86_64,
    )
    .unwrap();
    assert_eq!(
        vm.memory.write(0x10fff, &[1, 2]),
        Err(VmError::InvalidGuestAddress)
    );
    assert_eq!(
        vm.memory.read(0x10ffe, 3),
        Err(VmError::InvalidGuestAddress)
    );
    // A failed write leaves memory untouched.
    assert_eq!(vm.memory.read(0x10fff, 1).unwrap(), vec![0]);
}

#[test]
fn lookup_resolves_across_spans() {
    let mut vm = create_vm(
        &[
            GpaSpan {
                start: 0x1000,
                size: 0x1000,
            },
            GpaSpan {
                start: 0x80000000,
                size: 0x2000,
            },
        ],
        Arch::X86_64,
    )
    .unwrap();
    vm.memory.write(0x80000010, &[0xaa, 0xbb]).unwrap();
    assert_eq!(vm.memory.read(0x80000010, 2).unwrap(), vec![0xaa, 0xbb]);
    assert_eq!(vm.memory.read(0x1000, 1).unwrap(), vec![0]);

    assert!(vm.memory.is_gpa_valid(0x1fff));
    assert!(!vm.memory.is_gpa_valid(0x2000));
    assert!(vm.memory.is_gpa_valid(0x80001fff));
    assert!(!vm.memory.is_gpa_valid(0x80002000));

    let span = vm.memory.find_span(0x80000000).unwrap();
    assert_eq!(span.gpa, 0x80000000);
    assert_eq!(span.bytes.len(), 0x2000);
    assert!(vm.memory.find_span(0x3000).is_none());
}

#[test]
fn can_access_checks_length() {
    let vm = create_vm(
        &[GpaSpan {
            start: 0x1000,
            size: 16,
        }],
        Arch::X86_64,
    )
    .unwrap();
    assert!(vm.memory.can_access(0x1000, 16));
    assert!(!vm.memory.can_access(0x1000, 17));
    assert!(vm.memory.can_access(0x100f, 1));
    assert!(!vm.memory.can_access(0x2000, 1));
}

#[test]
fn create_vm_rejects_bad_layouts() {
    // Overlapping spans.
    assert_eq!(
        create_vm(
            &[
                GpaSpan {
                    start: 0x1000,
                    size: 0x1000
                },
                GpaSpan {
                    start: 0x1fff,
                    size: 0x1000
                },
            ],
            Arch::X86_64,
        )
        .err(),
        Some(VmError::InvalidSpanLayout)
    );
    // Unordered spans.
    assert_eq!(
        create_vm(
            &[
                GpaSpan {
                    start: 0x2000,
                    size: 0x1000
                },
                GpaSpan {
                    start: 0x1000,
                    size: 0x1000
                },
            ],
            Arch::X86_64,
        )
        .err(),
        Some(VmError::InvalidSpanLayout)
    );
    // An empty span.
    assert_eq!(
        create_vm(&[GpaSpan { start: 0, size: 0 }], Arch::X86_64).err(),
        Some(VmError::InvalidSpanLayout)
    );
    // A span running past the end of the address space.
    assert_eq!(
        create_vm(
            &[GpaSpan {
                start: u64::MAX,
                size: 2
            }],
            Arch::X86_64,
        )
        .err(),
        Some(VmError::InvalidSpanLayout)
    );
    // Adjacent spans in order are fine.
    assert!(create_vm(
        &[
            GpaSpan {
                start: 0x1000,
                size: 0x1000
            },
            GpaSpan {
                start: 0x2000,
                size: 0x1000
            },
        ],
        Arch::X86_64,
    )
    .is_ok());
}
