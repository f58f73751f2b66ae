//! Guest-debug control engine of a hypervisor-side GDB stub for x86-64 guests.
//!
//! The crate holds the parts of the stub that decide and compute: the bit
//! layout of the debug registers, the four-slot hardware breakpoint table,
//! the control word handed to the host kernel, the page-wise plan of a guest
//! memory access, and the state machine of a debug session. Talking to the
//! debugger and to the host kernel is left to the caller.

pub mod breakpoints;
pub mod guest_debug;
pub mod memory;
pub mod registers;
pub mod session;
