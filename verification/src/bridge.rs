//! The bridge's lifecycle logic: the decisions behind the host-facing start
//! and stop entry points, and the process-level state machine they follow.
//!
//! The engine call itself blocks its thread and is made outside the library;
//! so is the forced socket shutdown that unblocks it.  Everything those
//! actions depend on — whether a second start is admitted, whether the
//! arguments are marshalled, whether a stop may touch the socket, and what
//! result code the host sees — is decided here.

use vstd::prelude::*;

use crate::argv::{all_args_valid, marshal_args, ArgvTable, MarshalError};
use crate::lifecycle::LifecycleGuard;

verus! {

/// The distinguished result code for every reported failure: a start while
/// running, a stop while stopped, a rejected argument, a failed shutdown
/// system call.  The cases are told apart only in the log stream.
pub const FAILURE_CODE: i32 = -1;

/// The result code of a stop whose forced socket shutdown succeeded.
pub const STOP_SUCCESS_CODE: i32 = 0;

/// What a start request asks the caller to do.
pub enum StartDecision {
    /// A session is already running: report `FAILURE_CODE`, touch nothing.
    AlreadyRunning,
    /// An argument was rejected before any engine work: report
    /// `FAILURE_CODE`; the session was not kept.
    BadArgument(MarshalError),
    /// The session is acquired: reset the engine's global parse state, then
    /// invoke its entry point with this table, keeping the table alive until
    /// the call returns, and hand the returned code to `finish_session`.
    Invoke(ArgvTable),
}

/// What a stop request asks the caller to do.
pub enum StopDecision {
    /// No session is running: report `FAILURE_CODE`, issue no shutdown.
    NotRunning,
    /// A session is running: clear the engine's cached parameters and shut
    /// down both directions of its published socket descriptor, then map the
    /// system call's result through `stop_result`.
    ///
    /// A stop decided in the window right after a successful start may reach
    /// the descriptor before the engine has published it; the shutdown call
    /// then fails against a stale or invalid descriptor and is reported as
    /// `FAILURE_CODE`.  That race is accepted: the host retries at its own
    /// cadence, and nothing crashes.
    ForceShutdown,
}

/// One call observed by the bridge, for stating the state machine over whole
/// call histories.
pub enum BridgeCall {
    /// A start request with these arguments.
    Start(Seq<Seq<u8>>),
    /// A stop request.
    Stop,
    /// The blocking engine call of the current session returned.
    SessionEnd,
}

/// How one call moves the running flag.
///
/// A start leaves the flag set when a session was already running (the
/// request is turned away) and sets it when the arguments are accepted; a
/// start with a rejected argument leaves the process stopped.  A stop never
/// moves the flag — it only forces the engine to unwind — and the flag
/// clears exactly when the engine call returns.
pub open spec fn step_running(running: bool, call: BridgeCall) -> bool {
    match call {
        BridgeCall::Start(args) => running || all_args_valid(args),
        BridgeCall::Stop => running,
        BridgeCall::SessionEnd => false,
    }
}

/// The running flag after a whole history of calls, starting from the
/// stopped state the process loads in.
pub open spec fn running_after(calls: Seq<BridgeCall>) -> bool
    decreases calls.len(),
{
    if calls.len() == 0 {
        false
    } else {
        step_running(running_after(calls.drop_last()), calls.last())
    }
}

/// Call `i` of the history is a successful start: a start whose arguments
/// were all accepted, made while no session was running.
pub open spec fn successful_start(calls: Seq<BridgeCall>, i: int) -> bool {
    &&& 0 <= i < calls.len()
    &&& (calls[i] matches BridgeCall::Start(args) && all_args_valid(args))
    &&& !running_after(calls.take(i))
}

/// The session begun by call `i` has not ended by the end of the history.
pub open spec fn session_still_open(calls: Seq<BridgeCall>, i: int) -> bool {
    forall|j: int| i < j < calls.len() ==> !((#[trigger] calls[j]) is SessionEnd)
}

/// Some successful start's session is still in progress at the end of the
/// history.
pub open spec fn session_in_progress(calls: Seq<BridgeCall>) -> bool {
    exists|i: int| #[trigger] successful_start(calls, i) && session_still_open(calls, i)
}

/// An open session stays open when the appended call is not the end of a
/// session.
proof fn lemma_open_extends(calls: Seq<BridgeCall>, i: int)
    requires
        calls.len() >= 1,
        0 <= i,
        session_still_open(calls.drop_last(), i),
        !(calls.last() is SessionEnd),
    ensures
        session_still_open(calls, i),
{
    let prefix = calls.drop_last();
    let n = prefix.len() as int;
    assert forall|j: int| i < j < calls.len() implies !((#[trigger] calls[j]) is SessionEnd) by {
        if j < n {
            assert(calls[j] == prefix[j]);
        } else {
            assert(calls[j] == calls.last());
        }
    }
}

/// The lifecycle law: after any sequence of calls, the running flag is set
/// exactly when the most recent successful start's session has not yet
/// ended.  In particular the flag is never left set once the engine call of
/// a session has returned.
pub proof fn lemma_running_reflects_session(calls: Seq<BridgeCall>)
    ensures
        running_after(calls) == session_in_progress(calls),
    decreases calls.len(),
{
    if calls.len() == 0 {
        assert(!session_in_progress(calls)) by {
            assert forall|i: int| !(#[trigger] successful_start(calls, i)) by {};
        }
    } else {
        let prefix = calls.drop_last();
        let n = prefix.len() as int;
        lemma_running_reflects_session(prefix);
        assert forall|i: int| 0 <= i < n implies
            #[trigger] successful_start(calls, i) == successful_start(prefix, i) by {
            assert(calls.take(i) =~= prefix.take(i));
            assert(calls[i] == prefix[i]);
        }
        assert(calls.take(n) =~= prefix);
        match calls.last() {
            BridgeCall::SessionEnd => {
                assert(!running_after(calls));
                assert forall|i: int| !(#[trigger] successful_start(calls, i)
                    && session_still_open(calls, i)) by {
                    if 0 <= i < n {
                        assert(calls[n] is SessionEnd);
                        assert(!session_still_open(calls, i));
                    }
                }
                assert(!session_in_progress(calls));
            },
            BridgeCall::Stop => {
                assert(running_after(calls) == running_after(prefix));
                if session_in_progress(prefix) {
                    let i = choose|i: int| #[trigger] successful_start(prefix, i)
                        && session_still_open(prefix, i);
                    lemma_open_extends(calls, i);
                    assert(successful_start(calls, i));
                    assert(session_in_progress(calls));
                }
                if session_in_progress(calls) {
                    let i = choose|i: int| #[trigger] successful_start(calls, i)
                        && session_still_open(calls, i);
                    assert(i < n);
                    assert(successful_start(prefix, i));
                    assert(session_still_open(prefix, i));
                    assert(session_in_progress(prefix));
                }
            },
            BridgeCall::Start(args) => {
                if running_after(prefix) {
                    assert(running_after(calls));
                    let i = choose|i: int| #[trigger] successful_start(prefix, i)
                        && session_still_open(prefix, i);
                    lemma_open_extends(calls, i);
                    assert(successful_start(calls, i));
                    assert(session_in_progress(calls));
                } else if all_args_valid(args) {
                    assert(running_after(calls));
                    assert(successful_start(calls, n));
                    assert(session_still_open(calls, n));
                    assert(session_in_progress(calls));
                } else {
                    assert(!running_after(calls));
                    assert forall|i: int| !(#[trigger] successful_start(calls, i)
                        && session_still_open(calls, i)) by {
                        if 0 <= i < n && successful_start(calls, i)
                            && session_still_open(calls, i) {
                            assert(successful_start(prefix, i));
                            assert(session_still_open(prefix, i));
                            assert(session_in_progress(prefix));
                        }
                        if i == n {
                            assert(!successful_start(calls, i));
                        }
                    }
                    assert(!session_in_progress(calls));
                }
            },
        }
    }
}

/// The bridge itself: the lifecycle guard around the embedded engine.
///
/// Its view is the running flag.  Each mutating operation moves the flag as
/// `step_running` says, so `lemma_running_reflects_session` applies to any
/// history of calls made through it.
pub struct ProxyBridge {
    guard: LifecycleGuard,
}

impl View for ProxyBridge {
    type V = bool;

    closed spec fn view(&self) -> bool {
        self.guard@
    }
}

impl ProxyBridge {
    /// A bridge in the freshly loaded state: nothing running.
    pub fn new() -> (bridge: ProxyBridge)
        ensures
            !bridge@,
    {
        ProxyBridge { guard: LifecycleGuard::new() }
    }

    /// Non-mutating read of the running flag.
    pub fn is_running(&self) -> (running: bool)
        ensures
            running == self@,
    {
        self.guard.is_running()
    }

    /// Decide a start request.
    ///
    /// While a session is already running the request is turned away with no
    /// marshalling and no state change.  Otherwise the arguments are
    /// marshalled: acceptance acquires the session and hands back the table
    /// to invoke the engine with; a rejected argument releases the session
    /// again, so a failed start leaves the process stopped.
    pub fn start_request(&mut self, args: &Vec<Vec<u8>>) -> (decision: StartDecision)
        ensures
            final(self)@ == step_running(old(self)@, BridgeCall::Start(args.deep_view())),
            decision is AlreadyRunning <==> old(self)@,
            decision is Invoke <==> !old(self)@ && all_args_valid(args.deep_view()),
            decision matches StartDecision::Invoke(table) ==> {
                &&& table.wf()
                &&& table@ == args.deep_view()
                &&& table.slots@.len() == args@.len() + 1
                &&& final(self)@
            },
            decision matches StartDecision::BadArgument(MarshalError::EmbeddedNul { index })
                ==> {
                &&& index < args@.len()
                &&& crate::argv::has_nul(args.deep_view()[index as int])
                &&& forall|j: int| 0 <= j < index
                        ==> !crate::argv::has_nul(#[trigger] args.deep_view()[j])
                &&& !final(self)@
            },
    {
        if !self.guard.try_acquire() {
            return StartDecision::AlreadyRunning;
        }
        match marshal_args(args) {
            Ok(table) => StartDecision::Invoke(table),
            Err(err) => {
                self.guard.release();
                StartDecision::BadArgument(err)
            },
        }
    }

    /// Record that the blocking engine call of the current session returned.
    ///
    /// The running flag clears whatever the engine's exit code was, and that
    /// code is handed to the host verbatim.
    pub fn finish_session(&mut self, engine_code: i32) -> (result: i32)
        ensures
            final(self)@ == step_running(old(self)@, BridgeCall::SessionEnd),
            !final(self)@,
            result == engine_code,
    {
        self.guard.release();
        engine_code
    }

    /// Decide a stop request.
    ///
    /// Only a running session may be shut down; a stop while stopped issues
    /// no socket shutdown.  The request itself never moves the running flag:
    /// the flag clears only when the unblocked engine call returns.
    pub fn stop_request(&self) -> (decision: StopDecision)
        ensures
            decision is ForceShutdown <==> self@,
            self@ == step_running(self@, BridgeCall::Stop),
    {
        if self.guard.is_running() {
            StopDecision::ForceShutdown
        } else {
            StopDecision::NotRunning
        }
    }
}

/// The result code a stop reports once its forced shutdown was issued: the
/// success code when the system call succeeded, the failure code otherwise.
pub fn stop_result(shutdown_ret: i32) -> (result: i32)
    ensures
        shutdown_ret == 0 ==> result == STOP_SUCCESS_CODE,
        shutdown_ret != 0 ==> result == FAILURE_CODE,
{
    if shutdown_ret == 0 {
        STOP_SUCCESS_CODE
    } else {
        FAILURE_CODE
    }
}

} // verus!
