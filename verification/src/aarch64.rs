//! AArch64 bring-up constants: saved-program-status and system-control
//! register bit fields, and the op0/op1/CRn/CRm/op2 packing of system
//! register encodings, mirroring the architecture's register addressing
//! scheme.

use vstd::prelude::*;

verus! {

// Processor state (PSTATE/SPSR) fields.
pub const PSR_MODE_EL0T: u32 = 0x00000000;

pub const PSR_MODE_EL1T: u32 = 0x00000004;

pub const PSR_MODE_EL1H: u32 = 0x00000005;

pub const PSR_MODE_EL2T: u32 = 0x00000008;

pub const PSR_MODE_EL2H: u32 = 0x00000009;

pub const PSR_MODE_EL3T: u32 = 0x0000000c;

pub const PSR_MODE_EL3H: u32 = 0x0000000d;

pub const PSR_MODE_MASK: u32 = 0x0000000f;

pub const PSR_MODE32_BIT: u32 = 0x00000010;

pub const PSR_F_BIT: u32 = 0x00000040;

pub const PSR_I_BIT: u32 = 0x00000080;

pub const PSR_A_BIT: u32 = 0x00000100;

pub const PSR_D_BIT: u32 = 0x00000200;

pub const PSR_SSBS_BIT: u32 = 0x00001000;

pub const PSR_PAN_BIT: u32 = 0x00400000;

pub const PSR_UAO_BIT: u32 = 0x00800000;

pub const PSR_DIT_BIT: u32 = 0x01000000;

pub const PSR_TCO_BIT: u32 = 0x02000000;

pub const PSR_V_BIT: u32 = 0x10000000;

pub const PSR_C_BIT: u32 = 0x20000000;

pub const PSR_Z_BIT: u32 = 0x40000000;

pub const PSR_N_BIT: u32 = 0x80000000;

// Register-identifier bases used by the host's register-access interface.
pub const REG_ARM_COPROC_SHIFT: u64 = 16;

pub const REG_ARM_CORE: u64 = 0x0010 << REG_ARM_COPROC_SHIFT;

pub const REG_ARM64_SYSREG: u64 = 0x0013 << REG_ARM_COPROC_SHIFT;

pub const REG_ARM64: u64 = 0x6000000000000000;

pub const REG_ARM64_CORE_BASE: u64 = REG_ARM64 | REG_ARM_CORE;

pub const REG_ARM64_SYSREG_BASE: u64 = REG_ARM64 | REG_ARM64_SYSREG;

pub const REG_SIZE_U32: u64 = 0x0020000000000000;

pub const REG_SIZE_U64: u64 = 0x0030000000000000;

// System-control register (SCTLR_EL1) fields.
pub const SCTLR_RESERVED_MUST_BE_1: u64 = (3 << 28) | (3 << 22) | (1 << 20) | (1 << 11);

pub const SCTLR_EE_LITTLE_ENDIAN: u64 = 0 << 25;

pub const SCTLR_EOE_LITTLE_ENDIAN: u64 = 0 << 24;

pub const SCTLR_TRAP_WFE: u64 = 1 << 18;

pub const SCTLR_TRAP_WFI: u64 = 1 << 16;

pub const SCTLR_I_CACHE_DISABLED: u64 = 0 << 12;

pub const SCTLR_EXCEPTION_EXIT_CONTEXT_SYNC: u64 = 1 << 11;

pub const SCTLR_STACK_ALIGNMENT_EL0: u64 = 1 << 4;

pub const SCTLR_STACK_ALIGNMENT: u64 = 1 << 3;

pub const SCTLR_D_CACHE_DISABLED: u64 = 0 << 2;

pub const SCTLR_MMU_DISABLED: u64 = 0 << 0;

pub const SCTLR_MMU_ENABLED: u64 = 1 << 0;

/// The EL1h, all-interrupts-masked starting state for the saved program
/// status register.
pub const SPSR_INITIAL_VALUE: u64 = (PSR_D_BIT | PSR_A_BIT | PSR_I_BIT | PSR_F_BIT
    | PSR_MODE_EL1H) as u64;

/// The "MMU and caches off, exception-context-synchronizing,
/// stack-alignment-enforced" starting state for the system control register.
pub const SCTLR_INITIAL_VALUE: u64 = SCTLR_RESERVED_MUST_BE_1 | SCTLR_EE_LITTLE_ENDIAN
    | SCTLR_TRAP_WFE | SCTLR_TRAP_WFI | SCTLR_EXCEPTION_EXIT_CONTEXT_SYNC
    | SCTLR_I_CACHE_DISABLED | SCTLR_D_CACHE_DISABLED | SCTLR_STACK_ALIGNMENT
    | SCTLR_STACK_ALIGNMENT_EL0 | SCTLR_MMU_DISABLED;

/// The main ID register value reported to the guest.
pub const MIDR_EL1_INITIAL_VALUE: u64 = 0x00000000410fd034;

pub const OP0_SHIFT: u64 = 19;

pub const OP1_SHIFT: u64 = 16;

pub const CRN_SHIFT: u64 = 12;

pub const CRM_SHIFT: u64 = 8;

pub const OP2_SHIFT: u64 = 5;

/// The op0/op1/CRn/CRm/op2 5-tuple packed into one system-register
/// encoding.
pub open spec fn spec_sys_reg(op0: u8, op1: u8, crn: u8, crm: u8, op2: u8) -> u64 {
    ((op0 as u64) << OP0_SHIFT) | ((op1 as u64) << OP1_SHIFT) | ((crn as u64) << CRN_SHIFT) | ((
    crm as u64) << CRM_SHIFT) | ((op2 as u64) << OP2_SHIFT)
}

/// Pack a system-register address from its op0/op1/CRn/CRm/op2 5-tuple.
pub fn sys_reg(op0: u8, op1: u8, crn: u8, crm: u8, op2: u8) -> (r: u64)
    ensures
        r == spec_sys_reg(op0, op1, crn, crm, op2),
{
    ((op0 as u64) << OP0_SHIFT) | ((op1 as u64) << OP1_SHIFT) | ((crn as u64) << CRN_SHIFT) | ((
    crm as u64) << CRM_SHIFT) | ((op2 as u64) << OP2_SHIFT)
}

// Encodings of the system registers the bring-up touches; each equals the
// corresponding 5-tuple packing, as the proofs below state.
pub const SYS_MIDR_EL1: u64 = 3 << OP0_SHIFT;

pub const SYS_MPIDR_EL1: u64 = (3 << OP0_SHIFT) | (5 << OP2_SHIFT);

pub const SYS_SCTLR_EL1: u64 = (3 << OP0_SHIFT) | (1 << CRN_SHIFT);

pub const SYS_TTBR0_EL1: u64 = (3 << OP0_SHIFT) | (2 << CRN_SHIFT);

pub const SYS_TTBR1_EL1: u64 = (3 << OP0_SHIFT) | (2 << CRN_SHIFT) | (1 << OP2_SHIFT);

pub const SYS_ESR_EL1: u64 = (3 << OP0_SHIFT) | (5 << CRN_SHIFT) | (2 << CRM_SHIFT);

pub const SYS_SPSR_EL1: u64 = (3 << OP0_SHIFT) | (4 << CRN_SHIFT);

pub const SYS_MAIR_EL1: u64 = (3 << OP0_SHIFT) | (10 << CRN_SHIFT) | (2 << CRM_SHIFT);

/// Each named system-register encoding is the packing of its documented
/// op0/op1/CRn/CRm/op2 5-tuple.
pub proof fn lemma_sys_reg_encodings()
    ensures
        SYS_MIDR_EL1 == spec_sys_reg(3, 0, 0, 0, 0),
        SYS_MPIDR_EL1 == spec_sys_reg(3, 0, 0, 0, 5),
        SYS_SCTLR_EL1 == spec_sys_reg(3, 0, 1, 0, 0),
        SYS_TTBR0_EL1 == spec_sys_reg(3, 0, 2, 0, 0),
        SYS_TTBR1_EL1 == spec_sys_reg(3, 0, 2, 0, 1),
        SYS_ESR_EL1 == spec_sys_reg(3, 0, 5, 2, 0),
        SYS_SPSR_EL1 == spec_sys_reg(3, 0, 4, 0, 0),
        SYS_MAIR_EL1 == spec_sys_reg(3, 0, 10, 2, 0),
{
    assert(SYS_MIDR_EL1 == spec_sys_reg(3, 0, 0, 0, 0)) by (bit_vector);
    assert(SYS_MPIDR_EL1 == spec_sys_reg(3, 0, 0, 0, 5)) by (bit_vector);
    assert(SYS_SCTLR_EL1 == spec_sys_reg(3, 0, 1, 0, 0)) by (bit_vector);
    assert(SYS_TTBR0_EL1 == spec_sys_reg(3, 0, 2, 0, 0)) by (bit_vector);
    assert(SYS_TTBR1_EL1 == spec_sys_reg(3, 0, 2, 0, 1)) by (bit_vector);
    assert(SYS_ESR_EL1 == spec_sys_reg(3, 0, 5, 2, 0)) by (bit_vector);
    assert(SYS_SPSR_EL1 == spec_sys_reg(3, 0, 4, 0, 0)) by (bit_vector);
    assert(SYS_MAIR_EL1 == spec_sys_reg(3, 0, 10, 2, 0)) by (bit_vector);
}

} // verus!
