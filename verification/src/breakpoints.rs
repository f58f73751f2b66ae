//! The hardware breakpoint slots of one virtual CPU.
//!
//! The table has one slot per address register, DR0 to DR3. A slot keeps its
//! index for as long as it is occupied, and an emptied slot is free to be
//! used again.

use crate::registers::{
    debug_registers_spec, DebugRegisters, HwBreakpoint, HwBreakpointCondition, HwBreakpointLevel,
    HwBreakpoints, SLOTS,
};
use vstd::prelude::*;

verus! {

/// The table in which every slot is empty.
pub open spec fn empty_table() -> Seq<Option<HwBreakpoint>> {
    seq![None, None, None, None]
}

/// The breakpoint that a request of the debugger creates: it matches the
/// execution of the instruction at `addr` and survives task switches.
pub open spec fn instruction_breakpoint(addr: u64) -> HwBreakpoint {
    HwBreakpoint {
        addr,
        level: HwBreakpointLevel::Global,
        condition: HwBreakpointCondition::InstructionExecution,
    }
}

/// Index of the first empty slot, or 4 when every slot is occupied.
pub open spec fn first_empty_slot(table: Seq<Option<HwBreakpoint>>) -> int {
    if table[0] is None {
        0
    } else if table[1] is None {
        1
    } else if table[2] is None {
        2
    } else if table[3] is None {
        3
    } else {
        4
    }
}

/// Whether a breakpoint can still be added: some slot is empty.
pub open spec fn has_empty_slot(table: Seq<Option<HwBreakpoint>>) -> bool {
    first_empty_slot(table) < 4
}

/// Whether a slot is occupied by a breakpoint at `addr`.
pub open spec fn holds_address(entry: Option<HwBreakpoint>, addr: u64) -> bool {
    entry matches Some(bp) && bp.addr == addr
}

/// Index of the first slot occupied by a breakpoint at `addr`, or 4 when
/// there is none.
pub open spec fn first_slot_at(table: Seq<Option<HwBreakpoint>>, addr: u64) -> int {
    if holds_address(table[0], addr) {
        0
    } else if holds_address(table[1], addr) {
        1
    } else if holds_address(table[2], addr) {
        2
    } else if holds_address(table[3], addr) {
        3
    } else {
        4
    }
}

/// The table after a request to add a breakpoint at `addr`: the first empty
/// slot is filled; a full table stays as it is.
pub open spec fn add_spec(table: Seq<Option<HwBreakpoint>>, addr: u64) -> Seq<
    Option<HwBreakpoint>,
> {
    let slot = first_empty_slot(table);
    if slot < 4 {
        table.update(slot, Some(instruction_breakpoint(addr)))
    } else {
        table
    }
}

/// The table after a request to remove the breakpoint at `addr`: the first
/// slot that holds one is emptied; without such a slot the table stays as
/// it is.
pub open spec fn remove_spec(table: Seq<Option<HwBreakpoint>>, addr: u64) -> Seq<
    Option<HwBreakpoint>,
> {
    let slot = first_slot_at(table, addr);
    if slot < 4 {
        table.update(slot, None)
    } else {
        table
    }
}

/// Four optional breakpoints; slot `i` programs DR`i`.
pub struct HwBreakpointTable {
    pub slots: HwBreakpoints,
}

impl View for HwBreakpointTable {
    type V = Seq<Option<HwBreakpoint>>;

    open spec fn view(&self) -> Seq<Option<HwBreakpoint>> {
        self.slots@
    }
}

impl HwBreakpointTable {
    /// A table without breakpoints.
    pub fn new() -> (table: Self)
        ensures
            table@ == empty_table(),
    {
        HwBreakpointTable { slots: [None, None, None, None] }
    }

    /// Puts an instruction breakpoint at `addr` into the first empty slot.
    /// Returns `false`, and changes nothing, when all four slots are taken.
    /// The length hint of the debugger is not used: an instruction
    /// breakpoint has length one.
    pub fn add(&mut self, addr: u64, _kind: usize) -> (added: bool)
        ensures
            added == has_empty_slot(old(self)@),
            final(self)@ == add_spec(old(self)@, addr),
    {
        let mut i: usize = 0;
        while i < SLOTS
            invariant
                i <= SLOTS,
                *self == *old(self),
                forall|j: int| 0 <= j < i ==> self@[j] is Some,
            decreases SLOTS - i,
        {
            if self.slots[i].is_none() {
                self.slots[i] = Some(
                    HwBreakpoint {
                        addr,
                        level: HwBreakpointLevel::Global,
                        condition: HwBreakpointCondition::InstructionExecution,
                    },
                );
                return true;
            }
            i += 1;
        }
        false
    }

    /// Empties the first slot that holds a breakpoint at `addr`. Returns
    /// `true` whether or not there was one: the debugger may ask twice.
    pub fn remove(&mut self, addr: u64, _kind: usize) -> (removed: bool)
        ensures
            removed,
            final(self)@ == remove_spec(old(self)@, addr),
    {
        let mut i: usize = 0;
        while i < SLOTS
            invariant
                i <= SLOTS,
                *self == *old(self),
                forall|j: int| 0 <= j < i ==> !holds_address(self@[j], addr),
            decreases SLOTS - i,
        {
            let found = match self.slots[i] {
                Some(hw_breakpoint) => hw_breakpoint.addr == addr,
                None => false,
            };
            if found {
                self.slots[i] = None;
                return true;
            }
            i += 1;
        }
        true
    }

    /// The debug registers for the table as it stands, with general detect
    /// enabled.
    pub fn snapshot(&self) -> (regs: DebugRegisters)
        ensures
            regs@ == debug_registers_spec(self@, true),
    {
        DebugRegisters::encode(&self.slots, true)
    }
}

/// `first_empty_slot` names the least index of an empty slot.
pub proof fn first_empty_slot_is_least(table: HwBreakpoints)
    ensures
        0 <= first_empty_slot(table@) <= 4,
        first_empty_slot(table@) < 4 ==> table@[first_empty_slot(table@)] is None,
        forall|j: int| 0 <= j < first_empty_slot(table@) ==> table@[j] is Some,
{
}

/// `first_slot_at` names the least index of a slot that holds a breakpoint
/// at the address.
pub proof fn first_slot_at_is_least(table: HwBreakpoints, addr: u64)
    ensures
        0 <= first_slot_at(table@, addr) <= 4,
        first_slot_at(table@, addr) < 4 ==> holds_address(
            table@[first_slot_at(table@, addr)],
            addr,
        ),
        forall|j: int| 0 <= j < first_slot_at(table@, addr) ==> !holds_address(table@[j], addr),
{
}

/// Adding a breakpoint to the empty table and removing it again leaves the
/// table empty.
pub proof fn add_then_remove_leaves_empty(addr: u64)
    ensures
        has_empty_slot(empty_table()),
        remove_spec(add_spec(empty_table(), addr), addr) == empty_table(),
{
    assert(remove_spec(add_spec(empty_table(), addr), addr) =~= empty_table());
}

/// Removing undoes adding in any table that held no breakpoint at the
/// address before.
pub proof fn remove_undoes_add(table: HwBreakpoints, addr: u64)
    requires
        first_slot_at(table@, addr) == 4,
    ensures
        remove_spec(add_spec(table@, addr), addr) == table@,
{
    assert(remove_spec(add_spec(table@, addr), addr) =~= table@);
}

/// Two additions to the empty table both succeed and fill slot 0 and slot 1,
/// in this order.
pub proof fn two_adds_fill_first_two_slots(first: u64, second: u64)
    ensures
        has_empty_slot(empty_table()),
        has_empty_slot(add_spec(empty_table(), first)),
        add_spec(add_spec(empty_table(), first), second) == seq![
            Some(instruction_breakpoint(first)),
            Some(instruction_breakpoint(second)),
            None,
            None,
        ],
{
    assert(add_spec(add_spec(empty_table(), first), second) =~= seq![
        Some(instruction_breakpoint(first)),
        Some(instruction_breakpoint(second)),
        None,
        None,
    ]);
}

/// Starting from the empty table, four additions succeed and the fifth is
/// refused and changes nothing.
pub proof fn fifth_add_is_refused(a: u64, b: u64, c: u64, d: u64, e: u64)
    ensures
        ({
            let t0 = empty_table();
            let t1 = add_spec(t0, a);
            let t2 = add_spec(t1, b);
            let t3 = add_spec(t2, c);
            let t4 = add_spec(t3, d);
            &&& has_empty_slot(t0)
            &&& has_empty_slot(t1)
            &&& has_empty_slot(t2)
            &&& has_empty_slot(t3)
            &&& !has_empty_slot(t4)
            &&& add_spec(t4, e) == t4
        }),
{
}

/// Whatever a table holds, after four additions it is full: a further
/// addition is refused and changes nothing.
pub proof fn table_is_full_after_four_adds(
    table: HwBreakpoints,
    a: u64,
    b: u64,
    c: u64,
    d: u64,
    e: u64,
)
    ensures
        ({
            let t4 = add_spec(add_spec(add_spec(add_spec(table@, a), b), c), d);
            &&& !has_empty_slot(t4)
            &&& add_spec(t4, e) == t4
        }),
{
}

/// An addition touches no slot but the first empty one, and a removal no
/// slot but the first that holds the address.
pub proof fn other_slots_keep_their_breakpoints(table: HwBreakpoints, addr: u64, i: int)
    requires
        0 <= i < 4,
    ensures
        add_spec(table@, addr).len() == 4,
        remove_spec(table@, addr).len() == 4,
        i != first_empty_slot(table@) ==> add_spec(table@, addr)[i] == table@[i],
        i != first_slot_at(table@, addr) ==> remove_spec(table@, addr)[i] == table@[i],
{
}

} // verus!
