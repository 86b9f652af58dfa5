//! A micro virtual-machine monitor library: guest physical memory with
//! bounds-checked access, x86-64 and AArch64 boot-state construction,
//! ELF and raw kernel loading, and architecture-neutral VM-exit dispatch.

use vstd::prelude::*;

pub mod aarch64;
pub mod elf;
pub mod exit;
pub mod mem;
pub mod vm;
pub mod x86_64;

verus! {

/// A guest instruction-set architecture.
#[derive(Clone, Copy, Debug, PartialEq, Eq, Structural)]
pub enum Arch {
    X86_64,
    Aarch64,
    /// Any architecture this monitor cannot run.
    Other,
}

/// The error categories of the library.
///
/// Address and format violations are reported as typed errors; the
/// top-level caller decides whether to treat them as fatal.
#[derive(Clone, Copy, Debug, PartialEq, Eq, Structural)]
pub enum VmError {
    /// A guest physical address outside every span, or an access that
    /// would run past the end of its span.
    InvalidGuestAddress,
    /// The image is not a container this loader understands.
    UnsupportedImageFormat,
    /// The image targets an architecture other than the machine's.
    ArchitectureMismatch,
    /// The requested spans overlap, are unordered, are empty, or do not
    /// fit in the guest physical address space.
    InvalidSpanLayout,
    /// A reserved capability that no boot path needs yet.
    NotImplemented,
}

} // verus!
