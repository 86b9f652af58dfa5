//! AArch64 register constants and the system-register encoding packing.

use smolvm::aarch64::{
    sys_reg, MIDR_EL1_INITIAL_VALUE, PSR_A_BIT, PSR_D_BIT, PSR_F_BIT, PSR_I_BIT, PSR_MODE_EL1H,
    SCTLR_INITIAL_VALUE, SPSR_INITIAL_VALUE, SYS_ESR_EL1, SYS_MAIR_EL1, SYS_MIDR_EL1,
    SYS_MPIDR_EL1, SYS_SCTLR_EL1, SYS_SPSR_EL1, SYS_TTBR0_EL1, SYS_TTBR1_EL1,
};

#[test]
fn sys_reg_packs_the_five_tuple() {
    assert_eq!(sys_reg(3, 0, 0, 0, 0), SYS_MIDR_EL1);
    assert_eq!(sys_reg(3, 0, 0, 0, 5), SYS_MPIDR_EL1);
    assert_eq!(sys_reg(3, 0, 1, 0, 0), SYS_SCTLR_EL1);
    assert_eq!(sys_reg(3, 0, 2, 0, 0), SYS_TTBR0_EL1);
    assert_eq!(sys_reg(3, 0, 2, 0, 1), SYS_TTBR1_EL1);
    assert_eq!(sys_reg(3, 0, 5, 2, 0), SYS_ESR_EL1);
    assert_eq!(sys_reg(3, 0, 4, 0, 0), SYS_SPSR_EL1);
    assert_eq!(sys_reg(3, 0, 10, 2, 0), SYS_MAIR_EL1);
}

#[test]
fn sys_reg_known_encodings() {
    assert_eq!(SYS_SCTLR_EL1, 0x181000);
    assert_eq!(SYS_MPIDR_EL1, 0x1800a0);
}

#[test]
fn spsr_starts_masked_at_el1h() {
    assert_eq!(
        SPSR_INITIAL_VALUE,
        (PSR_D_BIT | PSR_A_BIT | PSR_I_BIT | PSR_F_BIT | PSR_MODE_EL1H) as u64
    );
    assert_eq!(SPSR_INITIAL_VALUE, 0x3c5);
}

#[test]
fn sctlr_starts_with_mmu_and_caches_off() {
    assert_eq!(SCTLR_INITIAL_VALUE, 0x30d5_0818);
    // MMU off: bit 0 clear; caches off: bits 2 and 12 clear.
    assert_eq!(SCTLR_INITIAL_VALUE & 0x1, 0);
    assert_eq!(SCTLR_INITIAL_VALUE & 0x4, 0);
    assert_eq!(SCTLR_INITIAL_VALUE & 0x1000, 0);
    // Stack alignment enforced and exception exits context-synchronizing.
    assert_eq!(SCTLR_INITIAL_VALUE & 0x8, 0x8);
    assert_eq!(SCTLR_INITIAL_VALUE & 0x800, 0x800);
}

#[test]
fn midr_reports_the_fixed_part() {
    assert_eq!(MIDR_EL1_INITIAL_VALUE, 0x410f_d034);
}
