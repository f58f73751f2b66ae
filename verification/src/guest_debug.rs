//! The guest-debug request that is handed to the host kernel before the
//! virtual CPU is entered.

use crate::breakpoints::HwBreakpointTable;
use crate::registers::{debug_registers_spec, DebugRegisters};
use vstd::prelude::*;

verus! {

/// Control bit of the host kernel: guest debugging is on.
pub const GUESTDBG_ENABLE: u32 = 0x0000_0001;

/// Control bit of the host kernel: trap after every guest instruction.
pub const GUESTDBG_SINGLESTEP: u32 = 0x0000_0002;

/// Control bit of the host kernel: breakpoint instructions of the guest
/// are reported to the host.
pub const GUESTDBG_USE_SW_BP: u32 = 0x0001_0000;

/// Control bit of the host kernel: the debug registers of the request are
/// loaded into the guest.
pub const GUESTDBG_USE_HW_BP: u32 = 0x0002_0000;

/// Reads `kvm_bindings::KVM_GUESTDBG_ENABLE`, which the bindings define
/// as 1.
#[verifier::external_body]
fn kvm_guestdbg_enable() -> (flag: u32)
    ensures
        flag == GUESTDBG_ENABLE,
{
    kvm_bindings::KVM_GUESTDBG_ENABLE
}

/// Reads `kvm_bindings::KVM_GUESTDBG_SINGLESTEP`, which the bindings define
/// as 2.
#[verifier::external_body]
fn kvm_guestdbg_singlestep() -> (flag: u32)
    ensures
        flag == GUESTDBG_SINGLESTEP,
{
    kvm_bindings::KVM_GUESTDBG_SINGLESTEP
}

/// Reads `kvm_bindings::KVM_GUESTDBG_USE_SW_BP`, which the bindings define
/// as 65536.
#[verifier::external_body]
fn kvm_guestdbg_use_sw_bp() -> (flag: u32)
    ensures
        flag == GUESTDBG_USE_SW_BP,
{
    kvm_bindings::KVM_GUESTDBG_USE_SW_BP
}

/// Reads `kvm_bindings::KVM_GUESTDBG_USE_HW_BP`, which the bindings define
/// as 131072.
#[verifier::external_body]
fn kvm_guestdbg_use_hw_bp() -> (flag: u32)
    ensures
        flag == GUESTDBG_USE_HW_BP,
{
    kvm_bindings::KVM_GUESTDBG_USE_HW_BP
}

/// The control word of a request: debugging on, with software and hardware
/// breakpoints, and single-stepping if asked for.
pub open spec fn control_flags_spec(single_step: bool) -> u32 {
    if single_step {
        GUESTDBG_ENABLE | GUESTDBG_USE_SW_BP | GUESTDBG_USE_HW_BP | GUESTDBG_SINGLESTEP
    } else {
        GUESTDBG_ENABLE | GUESTDBG_USE_SW_BP | GUESTDBG_USE_HW_BP
    }
}

/// Computes the control word of a request.
pub fn control_flags(single_step: bool) -> (control: u32)
    ensures
        control == control_flags_spec(single_step),
{
    let mut control = kvm_guestdbg_enable() | kvm_guestdbg_use_sw_bp() | kvm_guestdbg_use_hw_bp();
    if single_step {
        control |= kvm_guestdbg_singlestep();
    }
    control
}

/// The control word as a number: 0x30001 to continue, 0x30003 to step. The
/// single-step bit is set exactly when a step is asked for.
pub proof fn control_flags_values(single_step: bool)
    ensures
        control_flags_spec(false) == 0x0003_0001,
        control_flags_spec(true) == 0x0003_0003,
        (control_flags_spec(single_step) & GUESTDBG_SINGLESTEP != 0) == single_step,
        control_flags_spec(single_step) & GUESTDBG_ENABLE != 0,
        control_flags_spec(single_step) & GUESTDBG_USE_SW_BP != 0,
        control_flags_spec(single_step) & GUESTDBG_USE_HW_BP != 0,
{
    assert(0x0000_0001u32 | 0x0001_0000 | 0x0002_0000 == 0x0003_0001) by (bit_vector);
    assert(0x0000_0001u32 | 0x0001_0000 | 0x0002_0000 | 0x0000_0002 == 0x0003_0003)
        by (bit_vector);
    assert(0x0003_0001u32 & 0x0000_0002 == 0 && 0x0003_0003u32 & 0x0000_0002 != 0)
        by (bit_vector);
    assert(0x0003_0001u32 & 0x0000_0001 != 0 && 0x0003_0003u32 & 0x0000_0001 != 0)
        by (bit_vector);
    assert(0x0003_0001u32 & 0x0001_0000 != 0 && 0x0003_0003u32 & 0x0001_0000 != 0)
        by (bit_vector);
    assert(0x0003_0001u32 & 0x0002_0000 != 0 && 0x0003_0003u32 & 0x0002_0000 != 0)
        by (bit_vector);
}

/// What the host kernel is asked to program: the control word and the
/// eight debug registers.
pub struct GuestDebugConfig {
    pub control: u32,
    pub debug_regs: DebugRegisters,
}

/// Builds the request for the table as it stands. The registers are always
/// rebuilt in full, with general detect enabled.
pub fn guest_debug_config(breakpoints: &HwBreakpointTable, single_step: bool) -> (config:
    GuestDebugConfig)
    ensures
        config.control == control_flags_spec(single_step),
        config.debug_regs@ == debug_registers_spec(breakpoints@, true),
{
    GuestDebugConfig { control: control_flags(single_step), debug_regs: breakpoints.snapshot() }
}

} // verus!
