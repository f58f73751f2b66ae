//! The debug session of one virtual CPU.
//!
//! The session owns the breakpoint table and knows whether the virtual CPU
//! is running. It decides what is handed to the host kernel before the
//! virtual CPU is entered and what is told to the debugger when it comes
//! back. Entering the virtual CPU and talking to the debugger is done by
//! the caller, between the calls.

use crate::breakpoints::{add_spec, empty_table, has_empty_slot, remove_spec, HwBreakpointTable};
use crate::guest_debug::{control_flags_spec, guest_debug_config, GuestDebugConfig};
use crate::memory::{page_chunks, range_fits, split_at_pages, MemoryChunk, MemoryError};
use crate::registers::{debug_registers_spec, HwBreakpoint};
use vstd::prelude::*;

verus! {

/// Number of the interrupt signal, as the debugger knows it.
pub const SIGINT: u8 = 2;

/// How the debugger wants the virtual CPU to go on. A signal is taken but
/// has no effect.
#[derive(Clone, Copy, Debug, PartialEq, Eq, Structural)]
pub enum ResumeIntent {
    Continue,
    ContinueWithSignal(u8),
    Step,
    StepWithSignal(u8),
}

impl ResumeIntent {
    /// Whether a single instruction is to be executed.
    pub open spec fn is_step(self) -> bool {
        self is Step || self is StepWithSignal
    }

    #[verifier::when_used_as_spec(is_step)]
    pub fn single_step(self) -> (step: bool)
        ensures
            step == self.is_step(),
    {
        match self {
            ResumeIntent::Continue | ResumeIntent::ContinueWithSignal(_) => false,
            ResumeIntent::Step | ResumeIntent::StepWithSignal(_) => true,
        }
    }
}

/// Why the virtual CPU came back to the hypervisor.
#[derive(Clone, Copy, Debug, PartialEq, Eq, Structural)]
pub enum VcpuStopReason {
    /// A debug trap: a breakpoint was hit or a step is done.
    Debug,
    /// The guest ended or asked to be shut down, with this code.
    Exit(i32),
}

/// What the debugger is told about a stop.
#[derive(Clone, Copy, Debug, PartialEq, Eq, Structural)]
pub enum StopReport {
    /// The step that was asked for is done.
    DoneStep,
    /// A hardware breakpoint was hit.
    HwBreak,
    /// The guest ended, with this status.
    Exited(u8),
    /// The guest was stopped by this signal.
    Signal(u8),
}

/// Why the session is stopped.
#[derive(Clone, Copy, Debug, PartialEq, Eq, Structural)]
pub enum StopCause {
    /// The virtual CPU came back, and this was told to the debugger.
    Reported(StopReport),
    /// The host kernel refused the guest-debug request, with this errno.
    SubmissionFailed(i32),
}

/// Where the session stands.
#[derive(Clone, Copy, Debug, PartialEq, Eq, Structural)]
pub enum SessionState {
    /// The virtual CPU has not been resumed yet.
    Idle,
    /// The virtual CPU executes guest code under debug control.
    Running { single_step: bool, interrupted: bool },
    /// The virtual CPU is stopped.
    Stopped(StopCause),
}

/// A request that does not fit the state of the session.
#[derive(Clone, Copy, Debug, PartialEq, Eq, Structural)]
pub enum SessionError {
    /// The virtual CPU is running, so it cannot be resumed.
    VcpuRunning,
    /// The virtual CPU is not running, so it cannot have stopped, nor can
    /// a request for it have failed.
    VcpuNotRunning,
}

/// The status told to the debugger for an exit code of the guest: 0 for 0,
/// 1 for every other code.
pub open spec fn exit_status_spec(code: i32) -> u8 {
    if code == 0 {
        0
    } else {
        1
    }
}

/// Maps the exit code of the guest to the status told to the debugger.
pub fn exit_status(code: i32) -> (status: u8)
    ensures
        status == exit_status_spec(code),
{
    if code == 0 {
        0
    } else {
        1
    }
}

/// What is told to the debugger when the virtual CPU comes back: an exit
/// is an exit; a debug trap is the interrupt if one was asked for, else
/// the end of the step if one was asked for, else a hardware breakpoint.
pub open spec fn stop_report_spec(
    single_step: bool,
    interrupted: bool,
    reason: VcpuStopReason,
) -> StopReport {
    match reason {
        VcpuStopReason::Exit(code) => StopReport::Exited(exit_status_spec(code)),
        VcpuStopReason::Debug => if interrupted {
            StopReport::Signal(SIGINT)
        } else if single_step {
            StopReport::DoneStep
        } else {
            StopReport::HwBreak
        },
    }
}

/// Classifies a stop of the virtual CPU.
pub fn stop_report(single_step: bool, interrupted: bool, reason: VcpuStopReason) -> (report:
    StopReport)
    ensures
        report == stop_report_spec(single_step, interrupted, reason),
{
    match reason {
        VcpuStopReason::Exit(code) => StopReport::Exited(exit_status(code)),
        VcpuStopReason::Debug => {
            if interrupted {
                StopReport::Signal(SIGINT)
            } else if single_step {
                StopReport::DoneStep
            } else {
                StopReport::HwBreak
            }
        },
    }
}

/// The error number told to the debugger for an errno of the host: the
/// errno itself where it fits into a byte.
pub open spec fn target_errno_spec(errno: i32) -> Option<u8> {
    if 0 <= errno <= 255 {
        Some(errno as u8)
    } else {
        None
    }
}

/// Converts an errno of the host into the error number for the debugger.
pub fn target_errno(errno: i32) -> (code: Option<u8>)
    ensures
        code == target_errno_spec(errno),
{
    if 0 <= errno && errno <= 255 {
        Some(errno as u8)
    } else {
        None
    }
}

/// The state that a resume request leads to.
pub open spec fn resumed(intent: ResumeIntent) -> SessionState {
    SessionState::Running { single_step: intent.is_step(), interrupted: false }
}

/// The state of a running session after the virtual CPU came back.
pub open spec fn stopped(state: SessionState, reason: VcpuStopReason) -> SessionState {
    SessionState::Stopped(
        StopCause::Reported(
            stop_report_spec(state->single_step, state->interrupted, reason),
        ),
    )
}

/// The debug session of one virtual CPU.
pub struct DebugSession {
    breakpoints: HwBreakpointTable,
    state: SessionState,
}

impl DebugSession {
    /// Where the session stands.
    pub closed spec fn state(&self) -> SessionState {
        self.state
    }

    /// The breakpoint slots.
    pub closed spec fn table(&self) -> Seq<Option<HwBreakpoint>> {
        self.breakpoints@
    }

    /// A session for a virtual CPU that was just created: no breakpoints,
    /// not resumed.
    pub fn new() -> (session: Self)
        ensures
            session.state() == SessionState::Idle,
            session.table() == empty_table(),
    {
        DebugSession { breakpoints: HwBreakpointTable::new(), state: SessionState::Idle }
    }

    /// Where the session stands.
    pub fn current_state(&self) -> (state: SessionState)
        ensures
            state == self.state(),
    {
        self.state
    }

    /// The breakpoint slots.
    pub fn breakpoints(&self) -> (table: &HwBreakpointTable)
        ensures
            table@ == self.table(),
    {
        &self.breakpoints
    }

    /// Adds an instruction breakpoint at `addr`. Returns `false` when no
    /// slot is free. The new table reaches the guest with the next resume.
    pub fn add_hw_breakpoint(&mut self, addr: u64, kind: usize) -> (added: bool)
        ensures
            added == has_empty_slot(old(self).table()),
            final(self).table() == add_spec(old(self).table(), addr),
            final(self).state() == old(self).state(),
    {
        self.breakpoints.add(addr, kind)
    }

    /// Removes the breakpoint at `addr`, if there is one. Returns `true`
    /// either way. The new table reaches the guest with the next resume.
    pub fn remove_hw_breakpoint(&mut self, addr: u64, kind: usize) -> (removed: bool)
        ensures
            removed,
            final(self).table() == remove_spec(old(self).table(), addr),
            final(self).state() == old(self).state(),
    {
        self.breakpoints.remove(addr, kind)
    }

    /// Takes a resume request. Unless the virtual CPU is running already,
    /// the session is running from now on, and the result is the request
    /// to hand to the host kernel before the virtual CPU is entered: the
    /// registers for the table as it stands, and single-stepping exactly
    /// for a step.
    pub fn resume(&mut self, intent: ResumeIntent) -> (config: Result<
        GuestDebugConfig,
        SessionError,
    >)
        ensures
            final(self).table() == old(self).table(),
            match config {
                Ok(config) => {
                    &&& !(old(self).state() is Running)
                    &&& final(self).state() == resumed(intent)
                    &&& config.control == control_flags_spec(intent.is_step())
                    &&& config.debug_regs@ == debug_registers_spec(old(self).table(), true)
                },
                Err(error) => {
                    &&& old(self).state() is Running
                    &&& error == SessionError::VcpuRunning
                    &&& final(self).state() == old(self).state()
                },
            },
    {
        match self.state {
            SessionState::Running { .. } => Err(SessionError::VcpuRunning),
            _ => {
                let single_step = intent.single_step();
                self.state = SessionState::Running { single_step, interrupted: false };
                Ok(guest_debug_config(&self.breakpoints, single_step))
            },
        }
    }

    /// Takes note that the host kernel refused the request of the last
    /// resume. The session is stopped with the errno, which is handed
    /// back, and can be resumed again.
    pub fn submission_failed(&mut self, errno: i32) -> (reported: Result<i32, SessionError>)
        ensures
            final(self).table() == old(self).table(),
            match reported {
                Ok(code) => {
                    &&& old(self).state() is Running
                    &&& code == errno
                    &&& final(self).state() == SessionState::Stopped(
                        StopCause::SubmissionFailed(errno),
                    )
                },
                Err(error) => {
                    &&& !(old(self).state() is Running)
                    &&& error == SessionError::VcpuNotRunning
                    &&& final(self).state() == old(self).state()
                },
            },
    {
        match self.state {
            SessionState::Running { .. } => {
                self.state = SessionState::Stopped(StopCause::SubmissionFailed(errno));
                Ok(errno)
            },
            _ => Err(SessionError::VcpuNotRunning),
        }
    }

    /// Takes note that the debugger asked for an interrupt. Returns whether
    /// the virtual CPU has to be asked to leave the guest: that is so while
    /// it is running, and its next debug trap is then reported as the
    /// interrupt signal.
    pub fn interrupt(&mut self) -> (exit_requested: bool)
        ensures
            final(self).table() == old(self).table(),
            exit_requested == (old(self).state() is Running),
            old(self).state() is Running ==> final(self).state() == (SessionState::Running {
                single_step: old(self).state()->single_step,
                interrupted: true,
            }),
            !(old(self).state() is Running) ==> final(self).state() == old(self).state(),
    {
        match self.state {
            SessionState::Running { single_step, .. } => {
                self.state = SessionState::Running { single_step, interrupted: true };
                true
            },
            _ => false,
        }
    }

    /// Takes note that the virtual CPU came back. The session is stopped,
    /// and the result is what to tell the debugger. A stop of a virtual
    /// CPU that was not running is refused.
    pub fn vcpu_stopped(&mut self, reason: VcpuStopReason) -> (report: Result<
        StopReport,
        SessionError,
    >)
        ensures
            final(self).table() == old(self).table(),
            match report {
                Ok(report) => {
                    &&& old(self).state() is Running
                    &&& report == stop_report_spec(
                        old(self).state()->single_step,
                        old(self).state()->interrupted,
                        reason,
                    )
                    &&& final(self).state() == stopped(old(self).state(), reason)
                },
                Err(error) => {
                    &&& !(old(self).state() is Running)
                    &&& error == SessionError::VcpuNotRunning
                    &&& final(self).state() == old(self).state()
                },
            },
    {
        match self.state {
            SessionState::Running { single_step, interrupted } => {
                let report = stop_report(single_step, interrupted, reason);
                self.state = SessionState::Stopped(StopCause::Reported(report));
                Ok(report)
            },
            _ => Err(SessionError::VcpuNotRunning),
        }
    }

    /// Plans an access of the debugger to `len` bytes of guest memory at
    /// `va`. Guest memory may be touched only while the virtual CPU is
    /// stopped; then the range is cut at page boundaries.
    pub fn memory_access(&self, va: u64, len: usize) -> (plan: Result<
        Vec<MemoryChunk>,
        MemoryError,
    >)
        ensures
            match plan {
                Ok(chunks) => {
                    &&& self.state() is Stopped
                    &&& range_fits(va, len)
                    &&& chunks@ == page_chunks(va as int, 0, len as int)
                },
                Err(error) => if self.state() is Stopped {
                    !range_fits(va, len) && error == MemoryError::AddressOverflow
                } else {
                    error == MemoryError::VcpuNotStopped
                },
            },
    {
        match self.state {
            SessionState::Stopped(_) => split_at_pages(va, len),
            _ => Err(MemoryError::VcpuNotStopped),
        }
    }
}

} // verus!
