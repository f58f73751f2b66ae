use uhyve::registers::{
    control_value, DebugRegisters, HwBreakpoint, HwBreakpointCondition, HwBreakpointLevel,
    HwBreakpoints, GENERAL_DETECT_ENABLE_FLAG, GLOBAL_EXACT_BREAKPOINT_ENABLE_FLAG,
    LOCAL_EXACT_BREAKPOINT_ENABLE_FLAG,
};

fn breakpoint(
    addr: u64,
    level: HwBreakpointLevel,
    condition: HwBreakpointCondition,
) -> Option<HwBreakpoint> {
    Some(HwBreakpoint { addr, level, condition })
}

fn global_instruction(addr: u64) -> Option<HwBreakpoint> {
    breakpoint(addr, HwBreakpointLevel::Global, HwBreakpointCondition::InstructionExecution)
}

const LEVELS: [HwBreakpointLevel; 2] = [HwBreakpointLevel::Local, HwBreakpointLevel::Global];

const CONDITIONS: [HwBreakpointCondition; 4] = [
    HwBreakpointCondition::InstructionExecution,
    HwBreakpointCondition::DataWrites,
    HwBreakpointCondition::IoReadsWrites,
    HwBreakpointCondition::DataReadsWrites,
];

/// Every slot content that the tests run through: empty, and each level
/// with each condition.
fn slot_choices(addr: u64) -> Vec<Option<HwBreakpoint>> {
    let mut choices = vec![None];
    for level in LEVELS {
        for condition in CONDITIONS {
            choices.push(breakpoint(addr, level, condition));
        }
    }
    choices
}

/// All 9^4 tables over `slot_choices`.
fn all_tables() -> Vec<HwBreakpoints> {
    let mut tables = Vec::new();
    for a in slot_choices(0x1000) {
        for b in slot_choices(0xffff_8000_0000_2000) {
            for c in slot_choices(0xdead) {
                for d in slot_choices(u64::MAX) {
                    tables.push([a, b, c, d]);
                }
            }
        }
    }
    tables
}

#[test]
fn empty_table_encodes_to_flags_only() {
    let table: HwBreakpoints = [None; 4];
    let regs = DebugRegisters::encode(&table, true);
    assert_eq!(regs.0, [0, 0, 0, 0, 0, 0, 0, 0x2300]);
}

#[test]
fn empty_table_without_general_detect() {
    let table: HwBreakpoints = [None; 4];
    let regs = DebugRegisters::encode(&table, false);
    assert_eq!(regs.0, [0, 0, 0, 0, 0, 0, 0, 0x300]);
    assert_eq!(control_value(&table, false), 0x300);
}

#[test]
fn single_global_instruction_breakpoint_in_slot_0() {
    let table: HwBreakpoints = [global_instruction(0x1000), None, None, None];
    let regs = DebugRegisters::encode(&table, true);
    assert_eq!(regs.0[0], 0x1000);
    assert_eq!(regs.0[7], 0x2302);
    assert_eq!((regs.0[7] >> 16) & 0xf, 0);
    assert_eq!(regs.0, [0x1000, 0, 0, 0, 0, 0, 0, 0x2302]);
}

#[test]
fn single_local_data_write_breakpoint_in_slot_2() {
    let table: HwBreakpoints = [
        None,
        None,
        breakpoint(0xdead, HwBreakpointLevel::Local, HwBreakpointCondition::DataWrites),
        None,
    ];
    let regs = DebugRegisters::encode(&table, true);
    assert_eq!(regs.0[2], 0xdead);
    assert_eq!(regs.0[7], 0x0100_2310);
    assert_eq!(regs.0, [0, 0, 0xdead, 0, 0, 0, 0, 0x0100_2310]);
}

#[test]
fn full_table_of_global_instruction_breakpoints() {
    let table: HwBreakpoints = [
        global_instruction(0x1000),
        global_instruction(0x2000),
        global_instruction(0x3000),
        global_instruction(0x4000),
    ];
    let regs = DebugRegisters::encode(&table, true);
    assert_eq!(regs.0[7] & 0xff, 0xaa);
    assert_eq!(regs.0[7], 0x23aa);
    assert_eq!(regs.0, [0x1000, 0x2000, 0x3000, 0x4000, 0, 0, 0, 0x23aa]);
}

#[test]
fn full_table_of_local_read_write_breakpoints() {
    let table: HwBreakpoints = [
        breakpoint(1, HwBreakpointLevel::Local, HwBreakpointCondition::DataReadsWrites),
        breakpoint(2, HwBreakpointLevel::Local, HwBreakpointCondition::DataReadsWrites),
        breakpoint(3, HwBreakpointLevel::Local, HwBreakpointCondition::DataReadsWrites),
        breakpoint(4, HwBreakpointLevel::Local, HwBreakpointCondition::DataReadsWrites),
    ];
    assert_eq!(control_value(&table, false), 0x3333_0355);
    assert_eq!(control_value(&table, true), 0x3333_2355);
}

#[test]
fn io_breakpoint_in_slot_3() {
    let table: HwBreakpoints = [
        None,
        None,
        None,
        breakpoint(0x3f8, HwBreakpointLevel::Global, HwBreakpointCondition::IoReadsWrites),
    ];
    assert_eq!(control_value(&table, true), 0x2000_2380);
}

#[test]
fn condition_bits_follow_the_architecture() {
    assert_eq!(HwBreakpointCondition::InstructionExecution.bits(), 0b00);
    assert_eq!(HwBreakpointCondition::DataWrites.bits(), 0b01);
    assert_eq!(HwBreakpointCondition::IoReadsWrites.bits(), 0b10);
    assert_eq!(HwBreakpointCondition::DataReadsWrites.bits(), 0b11);
}

#[test]
fn flag_constants_are_bits_8_9_and_13() {
    assert_eq!(LOCAL_EXACT_BREAKPOINT_ENABLE_FLAG, 1 << 8);
    assert_eq!(GLOBAL_EXACT_BREAKPOINT_ENABLE_FLAG, 1 << 9);
    assert_eq!(GENERAL_DETECT_ENABLE_FLAG, 1 << 13);
}

#[test]
fn exact_match_flags_are_set_for_every_table() {
    for table in all_tables() {
        for general_detect in [false, true] {
            assert_eq!(control_value(&table, general_detect) & 0x300, 0x300);
        }
    }
}

#[test]
fn general_detect_flag_follows_the_request() {
    for table in all_tables() {
        assert_ne!(control_value(&table, true) & (1 << 13), 0);
        assert_eq!(control_value(&table, false) & (1 << 13), 0);
    }
}

#[test]
fn address_registers_hold_the_slot_addresses() {
    for table in all_tables() {
        let regs = DebugRegisters::encode(&table, true);
        for i in 0..4 {
            match table[i] {
                Some(bp) => assert_eq!(regs.0[i], bp.addr),
                None => assert_eq!(regs.0[i], 0),
            }
        }
        assert_eq!(regs.0[4], 0);
        assert_eq!(regs.0[5], 0);
        assert_eq!(regs.0[6], 0);
        assert_eq!(regs.0[7], control_value(&table, true));
    }
}

#[test]
fn occupied_slots_set_their_enable_bit_and_condition() {
    for table in all_tables() {
        let dr7 = control_value(&table, true);
        for i in 0..4 {
            let enable_bits = (dr7 >> (2 * i)) & 0b11;
            let field = (dr7 >> (16 + 4 * i)) & 0xf;
            match table[i] {
                Some(bp) => {
                    let expected = match bp.level {
                        HwBreakpointLevel::Local => 0b01,
                        HwBreakpointLevel::Global => 0b10,
                    };
                    assert_eq!(enable_bits, expected);
                    assert_eq!(field, bp.condition.bits() as u64);
                }
                None => {
                    assert_eq!(enable_bits, 0);
                    assert_eq!(field, 0);
                }
            }
        }
    }
}

#[test]
fn no_bit_is_set_outside_flags_and_slots() {
    for table in all_tables() {
        assert_eq!(control_value(&table, true) & !0xffff_23ffu64, 0);
        assert_eq!(control_value(&table, false) & !0xffff_03ffu64, 0);
    }
}

#[test]
fn encoding_twice_gives_the_same_registers() {
    for table in all_tables() {
        let first = DebugRegisters::encode(&table, true);
        let second = DebugRegisters::encode(&table, true);
        assert_eq!(first.0, second.0);
    }
}

#[test]
fn from_encodes_with_general_detect() {
    for table in all_tables() {
        let regs = DebugRegisters::from(table);
        assert_eq!(regs.0, DebugRegisters::encode(&table, true).0);
        assert_ne!(regs.0[7] & GENERAL_DETECT_ENABLE_FLAG, 0);
    }
}
