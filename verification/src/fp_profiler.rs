//! Userspace frame-pointer profiling.
//!
//! A load that may fault is made by a two-instruction trampoline. The SIGSEGV
//! handler recognises a fault there and lets the load answer
//! [`SAFE_LOAD_FAULT`]; every other fault goes to the handler that was
//! registered before.

use vstd::prelude::*;

use crate::error::IoError;
use crate::fp_profiler::context::{MachineContext, REG_RAX, REG_RIP};
use crate::fp_profiler::unwind::Arch;
use crate::os::{sa_nodefer, sa_siginfo, sig_dfl, sig_ign, sigsegv};

pub mod context;
pub mod ctimer;
pub mod unwind;

verus! {

/// What a load answers where memory cannot be read.
pub const SAFE_LOAD_FAULT: usize = 0;

/// The flag of a handler that takes the signal information.
pub const SIGINFO: i32 = 4;

/// What is registered for a signal.
#[derive(Copy, Clone, Debug, PartialEq, Eq, Structural)]
pub struct SignalAction {
    /// Address of the handler, or one of the two special values.
    pub handler: usize,
    /// Flags of the registration.
    pub flags: i32,
}

/// A registration that the kernel is asked for.
#[derive(Copy, Clone, Debug, PartialEq, Eq, Structural)]
pub struct SigactionRequest {
    pub signal: i32,
    pub flags: i32,
}

/// What the SIGSEGV handler does about a fault.
#[derive(Copy, Clone, Debug, PartialEq, Eq, Structural)]
pub enum SegvAction {
    /// The fault was the trampoline's; the interrupted thread goes on behind it.
    Resume,
    /// Call the earlier handler with the signal information.
    CallWithInfo { handler: usize },
    /// Register the default action and raise the signal again.
    RestoreDefaultAndRaise,
    /// Call the earlier handler with the signal number only.
    Call { handler: usize },
    /// Nothing to chain to.
    Return,
}

/// Where a fault outside the trampoline goes, given what was registered before.
pub open spec fn chained(old_action: Option<SignalAction>) -> SegvAction {
    match old_action {
        None => SegvAction::Return,
        Some(action) => if action.flags & SIGINFO != 0 {
            SegvAction::CallWithInfo { handler: action.handler }
        } else if action.handler == 0 {
            SegvAction::RestoreDefaultAndRaise
        } else if action.handler == 1 {
            SegvAction::Return
        } else {
            SegvAction::Call { handler: action.handler }
        },
    }
}

/// Handles a SIGSEGV. `start` and `end` bound the trampoline's load
/// instruction, and `old_action` is what was registered before.
pub fn sigsegv_handler(
    context: &mut MachineContext,
    start: usize,
    end: usize,
    old_action: Option<SignalAction>,
) -> (action: SegvAction)
    ensures
        start <= old(context).pc() < end ==> {
            &&& action == SegvAction::Resume
            &&& final(context).pc() == end
            &&& final(context).result() == SAFE_LOAD_FAULT
            &&& final(context).arch() == old(context).arch()
            &&& final(context).fp() == old(context).fp()
            &&& final(context).sp() == old(context).sp()
            &&& final(context).general() == match old(context).arch() {
                Arch::X86_64 => old(context).general().update(
                    REG_RIP as int,
                    (end as i64) as int,
                ).update(REG_RAX as int, (SAFE_LOAD_FAULT as i64) as int),
                Arch::Aarch64 => old(context).general().update(0, SAFE_LOAD_FAULT as int),
            }
        },
        !(start <= old(context).pc() < end) ==> {
            &&& action == chained(old_action)
            &&& *final(context) == *old(context)
        },
{
    let pc: usize = context.get_pc();
    if pc >= start && pc < end {
        context.set_pc(end);
        context.set_result_reg(SAFE_LOAD_FAULT);
        return SegvAction::Resume;
    }
    if let Some(action) = old_action {
        if action.flags & sa_siginfo() != 0 {
            return SegvAction::CallWithInfo { handler: action.handler };
        }
        if action.handler == sig_dfl() {
            return SegvAction::RestoreDefaultAndRaise;
        } else if action.handler != sig_ign() {
            return SegvAction::Call { handler: action.handler };
        }
    }
    SegvAction::Return
}

/// Whether the SIGSEGV handler is registered, and what was before it.
#[derive(Copy, Clone, Debug, PartialEq, Eq, Structural)]
pub struct HandlerState {
    pub installed: bool,
    pub old_action: Option<SignalAction>,
}

impl HandlerState {
    /// The handler is not registered.
    pub fn new() -> (state: HandlerState)
        ensures
            !state.installed,
            state.old_action is None,
    {
        HandlerState { installed: false, old_action: None }
    }
}

/// Begins to register the SIGSEGV handler. Gives the registration to ask the
/// kernel for, or `None` where the handler is registered already.
pub fn install_handler(state: &mut HandlerState) -> (request: Option<SigactionRequest>)
    ensures
        old(state).installed ==> request is None && *final(state) == *old(state),
        !old(state).installed ==> {
            &&& request == Some(SigactionRequest { signal: 11, flags: 0x4000_0004 })
            &&& *final(state) == HandlerState { installed: true, ..*old(state) }
        },
{
    if state.installed {
        return None;
    }
    state.installed = true;
    let flags: i32 = sa_siginfo() | sa_nodefer();
    assert(4i32 | 0x4000_0000i32 == 0x4000_0004i32) by (bit_vector);
    Some(SigactionRequest { signal: sigsegv(), flags })
}

/// Ends the registration with what the kernel answered: the action that was
/// registered before, or why it refused. After a refusal the handler can be
/// registered anew.
pub fn handler_installed(
    state: &mut HandlerState,
    outcome: Result<SignalAction, IoError>,
) -> (result: Result<(), IoError>)
    ensures
        match outcome {
            Ok(action) => {
                &&& result is Ok
                &&& *final(state) == HandlerState { old_action: Some(action), ..*old(state) }
            },
            Err(error) => {
                &&& result == Err::<(), IoError>(error)
                &&& *final(state) == HandlerState { installed: false, ..*old(state) }
            },
        },
{
    match outcome {
        Ok(action) => {
            state.old_action = Some(action);
            Ok(())
        },
        Err(error) => {
            state.installed = false;
            Err(error)
        },
    }
}

/// A fault outside of the trampoline goes to the handler that was there before,
/// and to no other: with the signal information where that handler takes it,
/// with the signal number where it does not. The default action is brought
/// back, and where signals were ignored or nothing was there, nothing is done.
pub proof fn law_other_faults_go_to_the_earlier_handler(handler: usize, flags: i32)
    ensures
        flags & 4 != 0 ==> chained(Some(SignalAction { handler, flags }))
            == (SegvAction::CallWithInfo { handler }),
        flags & 4 == 0 && handler > 1 ==> chained(Some(SignalAction { handler, flags }))
            == (SegvAction::Call { handler }),
        flags & 4 == 0 && handler == 0 ==> chained(Some(SignalAction { handler, flags }))
            == SegvAction::RestoreDefaultAndRaise,
        flags & 4 == 0 && handler == 1 ==> chained(Some(SignalAction { handler, flags }))
            == SegvAction::Return,
        chained(None) == SegvAction::Return,
{
}

} // verus!
