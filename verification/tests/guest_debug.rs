use uhyve::breakpoints::HwBreakpointTable;
use uhyve::guest_debug::{
    control_flags, guest_debug_config, GUESTDBG_ENABLE, GUESTDBG_SINGLESTEP, GUESTDBG_USE_HW_BP,
    GUESTDBG_USE_SW_BP,
};

#[test]
fn control_flags_to_continue() {
    assert_eq!(control_flags(false), 0x0003_0001);
}

#[test]
fn control_flags_to_step() {
    assert_eq!(control_flags(true), 0x0003_0003);
}

#[test]
fn control_flags_are_those_of_the_kernel_bindings() {
    let base = kvm_bindings::KVM_GUESTDBG_ENABLE
        | kvm_bindings::KVM_GUESTDBG_USE_SW_BP
        | kvm_bindings::KVM_GUESTDBG_USE_HW_BP;
    assert_eq!(control_flags(false), base);
    assert_eq!(control_flags(true), base | kvm_bindings::KVM_GUESTDBG_SINGLESTEP);
}

#[test]
fn control_bits_are_those_of_the_kernel_bindings() {
    assert_eq!(GUESTDBG_ENABLE, kvm_bindings::KVM_GUESTDBG_ENABLE);
    assert_eq!(GUESTDBG_SINGLESTEP, kvm_bindings::KVM_GUESTDBG_SINGLESTEP);
    assert_eq!(GUESTDBG_USE_SW_BP, kvm_bindings::KVM_GUESTDBG_USE_SW_BP);
    assert_eq!(GUESTDBG_USE_HW_BP, kvm_bindings::KVM_GUESTDBG_USE_HW_BP);
}

#[test]
fn single_step_bit_is_set_only_for_a_step() {
    assert_eq!(control_flags(false) & GUESTDBG_SINGLESTEP, 0);
    assert_eq!(control_flags(true) & GUESTDBG_SINGLESTEP, GUESTDBG_SINGLESTEP);
    for single_step in [false, true] {
        let control = control_flags(single_step);
        assert_eq!(control & GUESTDBG_ENABLE, GUESTDBG_ENABLE);
        assert_eq!(control & GUESTDBG_USE_SW_BP, GUESTDBG_USE_SW_BP);
        assert_eq!(control & GUESTDBG_USE_HW_BP, GUESTDBG_USE_HW_BP);
    }
}

#[test]
fn config_holds_control_word_and_snapshot() {
    let mut table = HwBreakpointTable::new();
    assert!(table.add(0x1000, 1));
    let config = guest_debug_config(&table, false);
    assert_eq!(config.control, 0x0003_0001);
    assert_eq!(config.debug_regs.0, [0x1000, 0, 0, 0, 0, 0, 0, 0x2302]);
    let config = guest_debug_config(&table, true);
    assert_eq!(config.control, 0x0003_0003);
    assert_eq!(config.debug_regs.0, [0x1000, 0, 0, 0, 0, 0, 0, 0x2302]);
}

#[test]
fn config_fits_the_request_of_the_kernel_bindings() {
    let mut table = HwBreakpointTable::new();
    assert!(table.add(0x2000, 1));
    let config = guest_debug_config(&table, true);
    let request = kvm_bindings::kvm_guest_debug {
        control: config.control,
        pad: 0,
        arch: kvm_bindings::kvm_guest_debug_arch { debugreg: config.debug_regs.0 },
    };
    assert_eq!(request.control, 0x0003_0003);
    assert_eq!(request.arch.debugreg, [0x2000, 0, 0, 0, 0, 0, 0, 0x2302]);
}
