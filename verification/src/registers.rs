//! The x86-64 debug registers DR0 to DR7 and their encoding.

use vstd::prelude::*;
use vstd::std_specs::convert::FromSpecImpl;

verus! {

/// Whether the processor clears a breakpoint on a task switch.
#[derive(Clone, Copy, Debug, PartialEq, Eq, Structural)]
pub enum HwBreakpointLevel {
    /// Cleared by the processor on every task switch.
    Local,
    /// Kept across task switches.
    Global,
}

/// The kind of access that makes a breakpoint match: the R/W field of DR7.
#[derive(Clone, Copy, Debug, PartialEq, Eq, Structural)]
pub enum HwBreakpointCondition {
    InstructionExecution,
    DataWrites,
    IoReadsWrites,
    DataReadsWrites,
}

impl HwBreakpointCondition {
    /// The two bits that stand for the condition in DR7.
    pub open spec fn spec_bits(self) -> u8 {
        match self {
            HwBreakpointCondition::InstructionExecution => 0b00,
            HwBreakpointCondition::DataWrites => 0b01,
            HwBreakpointCondition::IoReadsWrites => 0b10,
            HwBreakpointCondition::DataReadsWrites => 0b11,
        }
    }

    #[verifier::when_used_as_spec(spec_bits)]
    pub fn bits(self) -> (bits: u8)
        ensures
            bits == self.spec_bits(),
    {
        match self {
            HwBreakpointCondition::InstructionExecution => 0b00,
            HwBreakpointCondition::DataWrites => 0b01,
            HwBreakpointCondition::IoReadsWrites => 0b10,
            HwBreakpointCondition::DataReadsWrites => 0b11,
        }
    }
}

/// One hardware breakpoint: the linear address to match, and how.
#[derive(Clone, Copy, Debug, PartialEq, Eq, Structural)]
pub struct HwBreakpoint {
    pub addr: u64,
    pub level: HwBreakpointLevel,
    pub condition: HwBreakpointCondition,
}

/// The breakpoint slots of one virtual CPU. Slot `i` programs DR`i`.
pub type HwBreakpoints = [Option<HwBreakpoint>; 4];

/// Number of breakpoint slots, DR0 to DR3.
pub const SLOTS: usize = 4;

/// DR7 bit 8, LE: exact match of local breakpoints.
pub const LOCAL_EXACT_BREAKPOINT_ENABLE_FLAG: u64 = 0x100;

/// DR7 bit 9, GE: exact match of global breakpoints.
pub const GLOBAL_EXACT_BREAKPOINT_ENABLE_FLAG: u64 = 0x200;

/// DR7 bit 13, GD: trap when the guest touches a debug register.
pub const GENERAL_DETECT_ENABLE_FLAG: u64 = 0x2000;

/// Position in DR7 of the bit that enables slot `slot` at `level`.
pub open spec fn enable_bit_index(slot: u64, level: HwBreakpointLevel) -> u64 {
    match level {
        HwBreakpointLevel::Local => (2 * slot) as u64,
        HwBreakpointLevel::Global => (2 * slot + 1) as u64,
    }
}

/// Position in DR7 of the lowest bit of the four-bit field of slot `slot`.
pub open spec fn field_index(slot: u64) -> u64 {
    (16 + 4 * slot) as u64
}

/// What one slot adds to DR7: nothing when empty, else its enable bit and
/// its condition. The length bits of the field stay clear.
pub open spec fn slot_control(slot: u64, entry: Option<HwBreakpoint>) -> u64 {
    match entry {
        None => 0,
        Some(bp) => (1u64 << enable_bit_index(slot, bp.level)) | ((bp.condition.spec_bits() as u64)
            << field_index(slot)),
    }
}

/// DR7 before any slot is looked at.
pub open spec fn base_control(general_detect_enable: bool) -> u64 {
    if general_detect_enable {
        LOCAL_EXACT_BREAKPOINT_ENABLE_FLAG | GLOBAL_EXACT_BREAKPOINT_ENABLE_FLAG
            | GENERAL_DETECT_ENABLE_FLAG
    } else {
        LOCAL_EXACT_BREAKPOINT_ENABLE_FLAG | GLOBAL_EXACT_BREAKPOINT_ENABLE_FLAG
    }
}

/// DR7 for a table of four slots.
pub open spec fn control_value_spec(
    table: Seq<Option<HwBreakpoint>>,
    general_detect_enable: bool,
) -> u64 {
    base_control(general_detect_enable) | slot_control(0, table[0]) | slot_control(1, table[1])
        | slot_control(2, table[2]) | slot_control(3, table[3])
}

/// DR7 with only the first `n` slots taken in.
spec fn control_prefix(
    table: Seq<Option<HwBreakpoint>>,
    general_detect_enable: bool,
    n: nat,
) -> u64
    decreases n,
{
    if n == 0 {
        base_control(general_detect_enable)
    } else {
        control_prefix(table, general_detect_enable, (n - 1) as nat) | slot_control(
            (n - 1) as u64,
            table[n - 1],
        )
    }
}

/// Computes DR7 from the breakpoint slots.
pub fn control_value(hw_breakpoints: &HwBreakpoints, general_detect_enable: bool) -> (control: u64)
    ensures
        control == control_value_spec(hw_breakpoints@, general_detect_enable),
{
    let mut control_value: u64 = LOCAL_EXACT_BREAKPOINT_ENABLE_FLAG
        | GLOBAL_EXACT_BREAKPOINT_ENABLE_FLAG;

    if general_detect_enable {
        control_value |= GENERAL_DETECT_ENABLE_FLAG;
    }
    let mut i: usize = 0;
    while i < SLOTS
        invariant
            i <= SLOTS,
            control_value == control_prefix(hw_breakpoints@, general_detect_enable, i as nat),
        decreases SLOTS - i,
    {
        if let Some(hw_breakpoint) = hw_breakpoints[i] {
            let enable: usize = match hw_breakpoint.level {
                HwBreakpointLevel::Local => 2 * i,
                HwBreakpointLevel::Global => 2 * i + 1,
            };
            let ghost before = control_value;
            let enable_bit: u64 = 1u64 << enable;
            let field: u64 = (hw_breakpoint.condition.bits() as u64) << (16 + 4 * i);
            control_value |= enable_bit;
            control_value |= field;
            assert(control_value == before | (enable_bit | field)) by (bit_vector)
                requires
                    control_value == (before | enable_bit) | field,
            ;
        } else {
            assert(control_value | 0 == control_value) by (bit_vector);
        }
        i += 1;
    }
    proof {
        reveal_with_fuel(control_prefix, 5);
    }
    control_value
}

/// The address that a slot puts into its register: that of its breakpoint,
/// or zero when the slot is empty.
pub open spec fn slot_address(entry: Option<HwBreakpoint>) -> u64 {
    match entry {
        Some(bp) => bp.addr,
        None => 0,
    }
}

/// The eight register values for a table of four slots: DR0 to DR3 hold the
/// addresses, DR4 to DR6 are zero, DR7 is the control value.
pub open spec fn debug_registers_spec(
    table: Seq<Option<HwBreakpoint>>,
    general_detect_enable: bool,
) -> Seq<u64> {
    seq![
        slot_address(table[0]),
        slot_address(table[1]),
        slot_address(table[2]),
        slot_address(table[3]),
        0,
        0,
        0,
        control_value_spec(table, general_detect_enable),
    ]
}

/// The values of DR0 to DR7, in this order.
pub struct DebugRegisters(pub [u64; 8]);

impl View for DebugRegisters {
    type V = Seq<u64>;

    open spec fn view(&self) -> Seq<u64> {
        self.0@
    }
}

fn address_of(entry: &Option<HwBreakpoint>) -> (addr: u64)
    ensures
        addr == slot_address(*entry),
{
    match entry {
        Some(hw_breakpoint) => hw_breakpoint.addr,
        None => 0,
    }
}

impl DebugRegisters {
    /// Encodes the breakpoint slots into the eight debug registers.
    pub fn encode(hw_breakpoints: &HwBreakpoints, general_detect_enable: bool) -> (regs: Self)
        ensures
            regs@ == debug_registers_spec(hw_breakpoints@, general_detect_enable),
    {
        let control_value = control_value(hw_breakpoints, general_detect_enable);
        let debug_registers = [
            address_of(&hw_breakpoints[0]),
            address_of(&hw_breakpoints[1]),
            address_of(&hw_breakpoints[2]),
            address_of(&hw_breakpoints[3]),
            0,
            0,
            0,
            control_value,
        ];
        Self(debug_registers)
    }
}

/// The registers that `DebugRegisters::from` gives for a table.
pub open spec fn registers_from(hw_breakpoints: HwBreakpoints) -> DebugRegisters {
    DebugRegisters(
        [
            slot_address(hw_breakpoints[0]),
            slot_address(hw_breakpoints[1]),
            slot_address(hw_breakpoints[2]),
            slot_address(hw_breakpoints[3]),
            0,
            0,
            0,
            control_value_spec(hw_breakpoints@, true),
        ],
    )
}

impl FromSpecImpl<HwBreakpoints> for DebugRegisters {
    open spec fn obeys_from_spec() -> bool {
        true
    }

    open spec fn from_spec(hw_breakpoints: HwBreakpoints) -> Self {
        registers_from(hw_breakpoints)
    }
}

impl From<HwBreakpoints> for DebugRegisters {
    /// Encodes the slots with general detect enabled.
    fn from(hw_breakpoints: HwBreakpoints) -> (regs: Self)
        ensures
            regs@ == debug_registers_spec(hw_breakpoints@, true),
    {
        let regs = Self::encode(&hw_breakpoints, true);
        proof {
            let expected = registers_from(hw_breakpoints);
            assert(regs.0@ =~= expected.0@);
            assert(regs.0 =~= expected.0);
        }
        regs
    }
}

/// The bits of DR7 that belong to slot `slot`: its two enable bits and its
/// four-bit field.
pub open spec fn slot_mask(slot: u64) -> u64 {
    (3u64 << (2 * slot) as u64) | (0xFu64 << field_index(slot))
}

proof fn lemma_slot_control_shape(slot: u64, enable: u64, field: u64, condition: u64, control: u64)
    by (bit_vector)
    requires
        slot < 4,
        enable == 2 * slot || enable == 2 * slot + 1,
        field == 16 + 4 * slot,
        condition < 4,
        control == (1u64 << enable) | (condition << field),
    ensures
        control & !((3u64 << (2 * slot) as u64) | (0xFu64 << field)) == 0,
        control & (1u64 << enable) != 0,
        control & (3u64 << (2 * slot) as u64) == 1u64 << enable,
        (control >> field) & 0xF == condition,
{
}

proof fn lemma_slots_do_not_overlap(base: u64, s0: u64, s1: u64, s2: u64, s3: u64)
    by (bit_vector)
    requires
        base & !0x2300u64 == 0,
        s0 & !((3u64 << 0u64) | (0xFu64 << 16u64)) == 0,
        s1 & !((3u64 << 2u64) | (0xFu64 << 20u64)) == 0,
        s2 & !((3u64 << 4u64) | (0xFu64 << 24u64)) == 0,
        s3 & !((3u64 << 6u64) | (0xFu64 << 28u64)) == 0,
    ensures
        (base | s0 | s1 | s2 | s3) & ((3u64 << 0u64) | (0xFu64 << 16u64)) == s0,
        (base | s0 | s1 | s2 | s3) & ((3u64 << 2u64) | (0xFu64 << 20u64)) == s1,
        (base | s0 | s1 | s2 | s3) & ((3u64 << 4u64) | (0xFu64 << 24u64)) == s2,
        (base | s0 | s1 | s2 | s3) & ((3u64 << 6u64) | (0xFu64 << 28u64)) == s3,
        (base | s0 | s1 | s2 | s3) & 0x2300u64 == base,
{
}

proof fn lemma_read_slot(slot: u64, field: u64, control: u64, dr7: u64)
    by (bit_vector)
    requires
        slot < 4,
        field == 16 + 4 * slot,
        dr7 & ((3u64 << (2 * slot) as u64) | (0xFu64 << field)) == control,
        control & !((3u64 << (2 * slot) as u64) | (0xFu64 << field)) == 0,
    ensures
        dr7 & (3u64 << (2 * slot) as u64) == control & (3u64 << (2 * slot) as u64),
        (dr7 >> field) & 0xF == (control >> field) & 0xF,
{
}

/// Within the bits of slot `i`, DR7 holds what that slot alone adds; the
/// flags LE, GE and GD are the only bits outside the slots.
pub proof fn control_value_by_slot(table: HwBreakpoints, general_detect_enable: bool, i: int)
    requires
        0 <= i < 4,
    ensures
        control_value_spec(table@, general_detect_enable) & slot_mask(i as u64) == slot_control(
            i as u64,
            table@[i],
        ),
        slot_control(i as u64, table@[i]) & !slot_mask(i as u64) == 0,
        control_value_spec(table@, general_detect_enable) & 0x2300 == base_control(
            general_detect_enable,
        ),
{
    let base = base_control(general_detect_enable);
    let s0 = slot_control(0, table@[0]);
    let s1 = slot_control(1, table@[1]);
    let s2 = slot_control(2, table@[2]);
    let s3 = slot_control(3, table@[3]);
    assert(base & !0x2300u64 == 0) by {
        assert((0x100u64 | 0x200 | 0x2000) & !0x2300u64 == 0) by (bit_vector);
        assert((0x100u64 | 0x200) & !0x2300u64 == 0) by (bit_vector);
    }
    lemma_slot_within_mask(0, table@[0]);
    lemma_slot_within_mask(1, table@[1]);
    lemma_slot_within_mask(2, table@[2]);
    lemma_slot_within_mask(3, table@[3]);
    lemma_slots_do_not_overlap(base, s0, s1, s2, s3);
}

proof fn lemma_slot_within_mask(slot: u64, entry: Option<HwBreakpoint>)
    requires
        slot < 4,
    ensures
        slot_control(slot, entry) & !slot_mask(slot) == 0,
{
    let mask = slot_mask(slot);
    match entry {
        None => {
            assert(0u64 & !mask == 0) by (bit_vector);
        },
        Some(bp) => {
            lemma_slot_control_shape(
                slot,
                enable_bit_index(slot, bp.level),
                field_index(slot),
                bp.condition.spec_bits() as u64,
                slot_control(slot, entry),
            );
        },
    }
}

/// LE and GE are set in DR7 whatever the table holds.
pub proof fn exact_match_flags_are_set(table: HwBreakpoints, general_detect_enable: bool)
    ensures
        control_value_spec(table@, general_detect_enable) & 0x300 == 0x300,
{
    let dr7 = control_value_spec(table@, general_detect_enable);
    let base = base_control(general_detect_enable);
    control_value_by_slot(table, general_detect_enable, 0);
    assert(base == 0x2300 || base == 0x300) by {
        assert(0x100u64 | 0x200 | 0x2000 == 0x2300) by (bit_vector);
        assert(0x100u64 | 0x200 == 0x300) by (bit_vector);
    }
    assert(dr7 & 0x300 == 0x300) by (bit_vector)
        requires
            dr7 & 0x2300 == base,
            base == 0x2300 || base == 0x300,
    ;
}

/// GD is set in DR7 exactly when general detect is asked for.
pub proof fn general_detect_flag_follows_request(table: HwBreakpoints, general_detect_enable: bool)
    ensures
        general_detect_enable ==> control_value_spec(table@, true) & (1u64 << 13) != 0,
        !general_detect_enable ==> control_value_spec(table@, false) & (1u64 << 13) == 0,
{
    let dr7 = control_value_spec(table@, general_detect_enable);
    let base = base_control(general_detect_enable);
    control_value_by_slot(table, general_detect_enable, 0);
    assert(0x100u64 | 0x200 | 0x2000 == 0x2300) by (bit_vector);
    assert(0x100u64 | 0x200 == 0x300) by (bit_vector);
    if general_detect_enable {
        assert(dr7 & (1u64 << 13) != 0) by (bit_vector)
            requires
                dr7 & 0x2300 == base,
                base == 0x2300,
        ;
    } else {
        assert(dr7 & (1u64 << 13) == 0) by (bit_vector)
            requires
                dr7 & 0x2300 == base,
                base == 0x300,
        ;
    }
}

/// DR0 to DR3 hold the address of their slot's breakpoint, or zero for an
/// empty slot; DR4, DR5 and DR6 are zero; DR7 is the control value.
pub proof fn registers_hold_slot_addresses(
    table: HwBreakpoints,
    general_detect_enable: bool,
    i: int,
)
    requires
        0 <= i < 4,
    ensures
        debug_registers_spec(table@, general_detect_enable).len() == 8,
        table@[i] matches Some(bp) ==> debug_registers_spec(table@, general_detect_enable)[i]
            == bp.addr,
        table@[i] is None ==> debug_registers_spec(table@, general_detect_enable)[i] == 0,
        debug_registers_spec(table@, general_detect_enable)[4] == 0,
        debug_registers_spec(table@, general_detect_enable)[5] == 0,
        debug_registers_spec(table@, general_detect_enable)[6] == 0,
        debug_registers_spec(table@, general_detect_enable)[7] == control_value_spec(
            table@,
            general_detect_enable,
        ),
{
}

/// An occupied slot sets the one enable bit of its level and leaves the
/// other clear, and its four-bit field holds the condition, with length
/// bits zero.
pub proof fn occupied_slot_sets_enable_and_condition(
    table: HwBreakpoints,
    general_detect_enable: bool,
    i: int,
)
    requires
        0 <= i < 4,
        table@[i] is Some,
    ensures
        ({
            let bp = table@[i]->0;
            let dr7 = control_value_spec(table@, general_detect_enable);
            &&& dr7 & (1u64 << enable_bit_index(i as u64, bp.level)) != 0
            &&& dr7 & (3u64 << (2 * i) as u64) == 1u64 << enable_bit_index(i as u64, bp.level)
            &&& (dr7 >> field_index(i as u64)) & 0xF == bp.condition.spec_bits()
        }),
{
    let slot = i as u64;
    let bp = table@[i]->0;
    let dr7 = control_value_spec(table@, general_detect_enable);
    let control = slot_control(slot, table@[i]);
    control_value_by_slot(table, general_detect_enable, i);
    lemma_slot_control_shape(
        slot,
        enable_bit_index(slot, bp.level),
        field_index(slot),
        bp.condition.spec_bits() as u64,
        control,
    );
    lemma_read_slot(slot, field_index(slot), control, dr7);
    let enable = enable_bit_index(slot, bp.level);
    assert(dr7 & (1u64 << enable) != 0) by (bit_vector)
        requires
            slot < 4,
            enable == 2 * slot || enable == 2 * slot + 1,
            dr7 & (3u64 << (2 * slot) as u64) == 1u64 << enable,
    ;
}

/// An empty slot leaves both of its enable bits and its field clear.
pub proof fn empty_slot_sets_nothing(table: HwBreakpoints, general_detect_enable: bool, i: int)
    requires
        0 <= i < 4,
        table@[i] is None,
    ensures
        control_value_spec(table@, general_detect_enable) & (3u64 << (2 * i) as u64) == 0,
        (control_value_spec(table@, general_detect_enable) >> field_index(i as u64)) & 0xF == 0,
{
    let slot = i as u64;
    let dr7 = control_value_spec(table@, general_detect_enable);
    let field = field_index(slot);
    control_value_by_slot(table, general_detect_enable, i);
    assert(dr7 & (3u64 << (2 * slot) as u64) == 0 && (dr7 >> field) & 0xF == 0) by (bit_vector)
        requires
            slot < 4,
            field == 16 + 4 * slot,
            dr7 & ((3u64 << (2 * slot) as u64) | (0xFu64 << field)) == 0,
    ;
}

/// The encoding depends on nothing but the slots and the flag: equal inputs
/// give equal registers.
pub proof fn encoding_is_a_function_of_its_input(
    first: HwBreakpoints,
    second: HwBreakpoints,
    general_detect_enable: bool,
)
    requires
        first@ == second@,
    ensures
        debug_registers_spec(first@, general_detect_enable) == debug_registers_spec(
            second@,
            general_detect_enable,
        ),
        control_value_spec(first@, general_detect_enable) == control_value_spec(
            second@,
            general_detect_enable,
        ),
{
}

} // verus!
