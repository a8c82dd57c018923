//! The bridge's decision core: lifecycle state machine and request router.
//!
//! One `PythonBackend` value is the whole observable state of a bridge. The
//! host around it owns the real process and pipes; it asks this state machine
//! what to do (`start`, `stop`, `send_command`), performs the returned
//! action, and feeds every outcome back in as an event (`started`,
//! `start_failed`, `deliver_line`, `timed_out`, ...). Every transition is a
//! verified function with an exact contract, so the host's loop carries no
//! protocol decision of its own.
//!
//! Concurrency contract: the host serializes all calls on one bridge behind
//! one lock, and serializes `send_command` callers so that at most one
//! request is in flight — the wire protocol has no correlation identifier,
//! so single-flight is a hard constraint, not an optimization. Additional
//! callers queue on the host's lock in FIFO order.
//!
//! Stale responses: a reply that arrives after its caller timed out must not
//! be attributed to the next request. Replies come back in request order on
//! one pipe, so the bridge counts abandoned requests (`stale_owed`) and
//! discards exactly that many lines before letting a line complete the
//! pending request.

use vstd::prelude::*;
use vstd::string::{StringExecFns, StringSliceAdditionalSpecFns};
use crate::errors::BridgeError;
use crate::json::{json_bytes_of, render};
use crate::response::{interpret_line, line_reading};
use crate::wire::{encode_envelope, envelope_bytes, no_newline};

verus! {

/// How long a request may wait for its response line, in milliseconds.
pub const DEFAULT_TIMEOUT_MS: u64 = 30000;

/// The lifecycle of the worker process, as the bridge sees it.
#[derive(Debug)]
pub enum WorkerState {
    /// No worker was ever launched.
    NotStarted,
    /// A spawn was requested and its outcome is not yet reported.
    Starting,
    /// A worker is live and commands may be sent.
    Ready,
    /// Termination was requested and its completion is not yet reported.
    Stopping,
    /// The worker was stopped; the bridge may be started again.
    Stopped,
    /// The worker could not be launched or died; the reason is kept.
    Failed(String),
}

/// The one outstanding request: its ticket and its deadline.
#[derive(Debug, PartialEq, Eq, Clone, Copy)]
pub struct PendingSlot {
    /// Identifies the request to the caller waiting on it.
    pub ticket: u64,
    /// The clock value, in milliseconds, at which the wait gives up.
    pub deadline_ms: u64,
}

/// What the host must do after asking to start.
#[derive(Debug, PartialEq, Eq, Clone, Copy)]
pub enum StartAction {
    /// A worker is already live: report success, launch nothing.
    AlreadyRunning,
    /// Launch the worker process with its three pipes redirected.
    SpawnWorker,
}

/// What the host must do after asking to stop.
#[derive(Debug, PartialEq, Eq, Clone, Copy)]
pub enum StopAction {
    /// No process exists: report success, touch nothing.
    NoProcess,
    /// Kill the worker and wait for it, then report `stop_finished`.
    Terminate,
}

/// An accepted request: the line to write and the wait to run.
#[derive(Debug)]
pub struct OutboundRequest {
    /// Identifies this request to `timed_out`.
    pub ticket: u64,
    /// The clock value, in milliseconds, at which the wait gives up.
    pub deadline_ms: u64,
    /// The one wire line to write to the worker's input pipe.
    pub line: Vec<u8>,
}

/// What became of one stdout line.
#[derive(Debug)]
pub enum DeliverOutcome {
    /// The line answered the pending request; hand this to its caller.
    Completed(Result<Option<serde_json::Value>, BridgeError>),
    /// The line belonged to no live request and was discarded.
    Discarded,
}

/// The next ticket counter value, wrapping at the top.
pub open spec fn bump(t: u64) -> u64 {
    if t == u64::MAX {
        0
    } else {
        (t + 1) as u64
    }
}

/// A count one higher, saturating at the top.
pub open spec fn inc_sat(n: u64) -> u64 {
    if n == u64::MAX {
        u64::MAX
    } else {
        (n + 1) as u64
    }
}

/// How long the caller of a request may still wait: the time from `now_ms`
/// to the request's deadline, and zero once the deadline has passed.
pub fn remaining_ms(deadline_ms: u64, now_ms: u64) -> (r: u64)
    ensures
        r == (if now_ms <= deadline_ms {
            (deadline_ms - now_ms) as u64
        } else {
            0u64
        }),
{
    if now_ms <= deadline_ms {
        deadline_ms - now_ms
    } else {
        0
    }
}

/// The bridge: worker lifecycle, the single-flight request slot, and the
/// stale-line debt, all behind the host's one lock.
#[derive(Debug)]
pub struct PythonBackend {
    /// Where the worker stands in its lifecycle.
    pub state: WorkerState,
    /// The live process, as an opaque identity chosen by the host; `Some`
    /// exactly while a process exists (live or being terminated).
    pub handle: Option<u64>,
    /// The one outstanding request, if any.
    pub pending: Option<PendingSlot>,
    /// The ticket the next accepted request will get.
    pub next_ticket: u64,
    /// How many stdout lines belong to abandoned requests and must be
    /// discarded before a line may complete the pending request.
    pub stale_owed: u64,
    /// The configured deadline for each request, in milliseconds.
    pub timeout_ms: u64,
}

/// The state after a successful start, and the action it asks of the host.
pub open spec fn start_result(s: PythonBackend) -> (PythonBackend, StartAction) {
    if s.state is Ready {
        (s, StartAction::AlreadyRunning)
    } else {
        (
            PythonBackend {
                state: WorkerState::Starting,
                handle: None,
                pending: None,
                ..s
            },
            StartAction::SpawnWorker,
        )
    }
}

/// The state after the host reports a successful spawn.
pub open spec fn started_result(s: PythonBackend, handle_id: u64) -> PythonBackend {
    PythonBackend {
        state: WorkerState::Ready,
        handle: Some(handle_id),
        pending: None,
        stale_owed: 0,
        ..s
    }
}

impl PythonBackend {
    /// The bridge's invariant: a process exists exactly while the state is
    /// `Ready` or `Stopping`, and a request can only be pending while
    /// `Ready`.
    pub open spec fn wf(&self) -> bool {
        &&& (self.state is Ready || self.state is Stopping) <==> self.handle is Some
        &&& self.pending is Some ==> self.state is Ready
    }

    /// Neither a start nor a stop is half-done: the host reports each
    /// spawn or termination outcome before asking for the next action.
    pub open spec fn settled(&self) -> bool {
        !(self.state is Starting) && !(self.state is Stopping)
    }

    /// A fresh bridge: never started, nothing pending.
    pub fn new() -> (r: PythonBackend)
        ensures
            r.wf(),
            r.settled(),
            r.state is NotStarted,
            r.handle is None,
            r.pending is None,
            r.next_ticket == 0,
            r.stale_owed == 0,
            r.timeout_ms == DEFAULT_TIMEOUT_MS,
    {
        PythonBackend {
            state: WorkerState::NotStarted,
            handle: None,
            pending: None,
            next_ticket: 0,
            stale_owed: 0,
            timeout_ms: DEFAULT_TIMEOUT_MS,
        }
    }

    /// Ask to start the worker. On a bridge that is already running this
    /// changes nothing and asks for no second spawn; otherwise the bridge
    /// turns `Starting` and the host must spawn and report back.
    pub fn start(&mut self) -> (a: StartAction)
        requires
            old(self).wf(),
            old(self).settled(),
        ensures
            final(self).wf(),
            (*final(self), a) == start_result(*old(self)),
            old(self).state is Ready ==> a == StartAction::AlreadyRunning && *final(self) == *old(self),
            !(old(self).state is Ready) ==> a == StartAction::SpawnWorker && final(self).state is Starting,
    {
        match &self.state {
            WorkerState::Ready => StartAction::AlreadyRunning,
            _ => {
                self.state = WorkerState::Starting;
                self.handle = None;
                self.pending = None;
                StartAction::SpawnWorker
            },
        }
    }

    /// The host spawned the worker; `handle_id` is its identity. The bridge
    /// turns `Ready` with a fresh pipe: no pending request, no stale debt.
    pub fn started(&mut self, handle_id: u64)
        requires
            old(self).wf(),
            old(self).state is Starting,
        ensures
            final(self).wf(),
            final(self).settled(),
            *final(self) == started_result(*old(self), handle_id),
            final(self).state is Ready,
            final(self).handle == Some(handle_id),
    {
        self.state = WorkerState::Ready;
        self.handle = Some(handle_id);
        self.pending = None;
        self.stale_owed = 0;
    }

    /// The host could not spawn the worker (bad path, permission denied).
    /// The reason is kept, the bridge turns `Failed`, and the caller gets
    /// the `Spawn` error carrying that reason; a later `start` may try
    /// again.
    pub fn start_failed(&mut self, reason: String) -> (r: BridgeError)
        requires
            old(self).wf(),
            old(self).state is Starting,
        ensures
            final(self).wf(),
            final(self).settled(),
            final(self).state == WorkerState::Failed(reason),
            r == BridgeError::Spawn(reason),
            final(self).handle is None,
            final(self).pending is None,
            final(self).stale_owed == old(self).stale_owed,
            final(self).next_ticket == old(self).next_ticket,
            final(self).timeout_ms == old(self).timeout_ms,
    {
        self.state = WorkerState::Failed(reason.clone());
        self.handle = None;
        self.pending = None;
        BridgeError::Spawn(reason)
    }

    /// Ask to stop the worker. With no process this is a success that
    /// performs no process operation, from any prior state. With a live
    /// process the host must terminate it and report back. A request still
    /// in flight is abandoned: the second part of the result is the
    /// `ChildExited` failure its caller must get at once, instead of
    /// hanging.
    pub fn stop(&mut self) -> (r: (StopAction, Option<BridgeError>))
        requires
            old(self).wf(),
            old(self).settled(),
        ensures
            final(self).wf(),
            ({
                let (a, aborted) = r;
                &&& (a is NoProcess <==> old(self).handle is None)
                &&& aborted == (if old(self).pending is Some {
                    Some(BridgeError::ChildExited)
                } else {
                    None::<BridgeError>
                })
            }),
            old(self).handle is None ==> final(self).state is Stopped && final(self).settled(),
            old(self).handle is Some ==> final(self).state is Stopping && final(self).handle == old(self).handle,
            final(self).pending is None,
            final(self).stale_owed == 0,
            final(self).next_ticket == old(self).next_ticket,
            final(self).timeout_ms == old(self).timeout_ms,
    {
        let aborted: Option<BridgeError> = if self.has_pending() {
            Some(BridgeError::ChildExited)
        } else {
            None
        };
        let action: StopAction = match &self.handle {
            None => {
                self.state = WorkerState::Stopped;
                StopAction::NoProcess
            },
            Some(_) => {
                self.state = WorkerState::Stopping;
                StopAction::Terminate
            },
        };
        self.pending = None;
        self.stale_owed = 0;
        (action, aborted)
    }

    /// The host terminated the worker (cleanly or not): the handle is gone
    /// and the bridge is `Stopped`, whatever the kill or wait reported, so
    /// it can always be started again.
    pub fn stop_finished(&mut self)
        requires
            old(self).wf(),
            old(self).state is Stopping,
        ensures
            final(self).wf(),
            final(self).settled(),
            final(self).state is Stopped,
            final(self).handle is None,
            final(self).pending is None,
            final(self).stale_owed == 0,
            final(self).next_ticket == old(self).next_ticket,
            final(self).timeout_ms == old(self).timeout_ms,
    {
        self.state = WorkerState::Stopped;
        self.handle = None;
        self.pending = None;
        self.stale_owed = 0;
    }

    /// Whether a command may be sent right now.
    pub fn is_ready(&self) -> (r: bool)
        ensures
            r == (self.state is Ready),
    {
        match &self.state {
            WorkerState::Ready => true,
            _ => false,
        }
    }

    /// Whether a request is waiting for its response line.
    pub fn has_pending(&self) -> (r: bool)
        ensures
            r == (self.pending is Some),
    {
        match &self.pending {
            Some(_) => true,
            None => false,
        }
    }

    /// Accept a command for sending. Outside `Ready` this fails at once
    /// with `NotRunning` and touches nothing — no pipe I/O is attempted.
    /// When ready, the command and its args become the one wire line to
    /// write, and the request is registered as pending with a fresh ticket
    /// and the configured deadline.
    pub fn send_command(&mut self, command: &str, args: &serde_json::Value, now_ms: u64) -> (r:
        Result<OutboundRequest, BridgeError>)
        requires
            old(self).wf(),
            old(self).pending is None,
            now_ms + old(self).timeout_ms <= u64::MAX,
        ensures
            final(self).wf(),
            !(old(self).state is Ready) ==> r == Err::<OutboundRequest, BridgeError>(
                BridgeError::NotRunning,
            ) && *final(self) == *old(self),
            old(self).state is Ready ==> (r matches Ok(req) && {
                &&& req.ticket == old(self).next_ticket
                &&& req.deadline_ms == now_ms + old(self).timeout_ms
                &&& req.line@ == envelope_bytes(command.spec_bytes(), json_bytes_of(*args))
                &&& no_newline(json_bytes_of(*args))
                &&& *final(self) == PythonBackend {
                    pending: Some(
                        PendingSlot { ticket: req.ticket, deadline_ms: req.deadline_ms },
                    ),
                    next_ticket: bump(old(self).next_ticket),
                    ..*old(self)
                }
            }),
    {
        match &self.state {
            WorkerState::Ready => {
                let args_json: Vec<u8> = render(args);
                let line: Vec<u8> = encode_envelope(command, &args_json);
                let ticket: u64 = self.next_ticket;
                let deadline_ms: u64 = now_ms + self.timeout_ms;
                self.pending = Some(PendingSlot { ticket, deadline_ms });
                self.next_ticket = if self.next_ticket == u64::MAX {
                    0
                } else {
                    self.next_ticket + 1
                };
                Ok(OutboundRequest { ticket, deadline_ms, line })
            },
            _ => Err(BridgeError::NotRunning),
        }
    }

    /// One line arrived on the worker's stdout. A line owed to an abandoned
    /// request is discarded and pays the debt down — it never completes the
    /// pending request. With no debt and a request pending, the line is read
    /// as a response envelope and completes that request with exactly the
    /// line's meaning (`line_reading`). With nothing pending the line is
    /// unsolicited and discarded.
    pub fn deliver_line(&mut self, line: &str) -> (r: DeliverOutcome)
        requires
            old(self).wf(),
        ensures
            final(self).wf(),
            old(self).stale_owed > 0 ==> {
                &&& r is Discarded
                &&& *final(self) == (PythonBackend {
                    stale_owed: (old(self).stale_owed - 1) as u64,
                    ..*old(self)
                })
            },
            old(self).stale_owed == 0 && old(self).pending is None ==> {
                &&& r is Discarded
                &&& *final(self) == *old(self)
            },
            old(self).stale_owed == 0 && old(self).pending is Some ==> {
                &&& *final(self) == (PythonBackend { pending: None, ..*old(self) })
                &&& (r matches DeliverOutcome::Completed(out) && line_reading(line@, out))
            },
    {
        if self.stale_owed > 0 {
            self.stale_owed = self.stale_owed - 1;
            DeliverOutcome::Discarded
        } else {
            match &self.pending {
                None => DeliverOutcome::Discarded,
                Some(_) => {
                    self.pending = None;
                    DeliverOutcome::Completed(interpret_line(line))
                },
            }
        }
    }

    /// The caller of request `ticket` gave up waiting. If that request is
    /// still pending it is abandoned: its caller gets `Timeout`, its future
    /// response line becomes owed-and-stale, and the bridge stays exactly as
    /// ready as it was — a timeout is not worker death. If the request was
    /// already completed there is nothing to do.
    pub fn timed_out(&mut self, ticket: u64) -> (r: Option<BridgeError>)
        requires
            old(self).wf(),
        ensures
            final(self).wf(),
            final(self).state == old(self).state,
            (old(self).pending matches Some(p) && p.ticket == ticket) ==> {
                &&& r == Some(BridgeError::Timeout)
                &&& *final(self) == (PythonBackend {
                    pending: None,
                    stale_owed: inc_sat(old(self).stale_owed),
                    ..*old(self)
                })
            },
            !(old(self).pending matches Some(p) && p.ticket == ticket) ==> {
                &&& r is None
                &&& *final(self) == *old(self)
            },
    {
        let matches_ticket: bool = match &self.pending {
            Some(p) => p.ticket == ticket,
            None => false,
        };
        if matches_ticket {
            self.pending = None;
            self.stale_owed = if self.stale_owed == u64::MAX {
                u64::MAX
            } else {
                self.stale_owed + 1
            };
            Some(BridgeError::Timeout)
        } else {
            None
        }
    }

    /// The host found the worker's pipes closed while the bridge thought it
    /// was running: the worker died. The bridge turns `Failed` so the next
    /// `send_command` fails fast, and the caller of a pending request, if
    /// any, gets `ChildExited`. During or after a stop the same observation
    /// is expected and changes nothing.
    pub fn worker_exited(&mut self) -> (r: Option<BridgeError>)
        requires
            old(self).wf(),
        ensures
            final(self).wf(),
            old(self).state is Ready ==> {
                &&& final(self).state matches WorkerState::Failed(m) && m@
                    == "worker process exited unexpectedly"@
                &&& final(self).handle is None
                &&& final(self).pending is None
                &&& final(self).stale_owed == old(self).stale_owed
                &&& final(self).next_ticket == old(self).next_ticket
                &&& final(self).timeout_ms == old(self).timeout_ms
                &&& r == if old(self).pending is Some {
                    Some(BridgeError::ChildExited)
                } else {
                    None::<BridgeError>
                }
            },
            !(old(self).state is Ready) ==> *final(self) == *old(self) && (r is None),
    {
        match &self.state {
            WorkerState::Ready => {
                let had_pending: bool = self.has_pending();
                self.state = WorkerState::Failed(
                    String::from_str("worker process exited unexpectedly"),
                );
                self.handle = None;
                self.pending = None;
                if had_pending {
                    Some(BridgeError::ChildExited)
                } else {
                    None
                }
            },
            _ => None,
        }
    }

    /// Writing the request line to the worker's input pipe failed: the
    /// worker is gone. The failed caller gets `ChildExited` back, and while
    /// the bridge thought the worker was running it turns `Failed`, exactly
    /// as for an observed exit.
    pub fn write_failed(&mut self) -> (r: BridgeError)
        requires
            old(self).wf(),
        ensures
            final(self).wf(),
            r == BridgeError::ChildExited,
            old(self).state is Ready ==> {
                &&& final(self).state matches WorkerState::Failed(m) && m@
                    == "failed to write to worker"@
                &&& final(self).handle is None
                &&& final(self).pending is None
                &&& final(self).stale_owed == old(self).stale_owed
                &&& final(self).next_ticket == old(self).next_ticket
                &&& final(self).timeout_ms == old(self).timeout_ms
            },
            !(old(self).state is Ready) ==> *final(self) == *old(self),
    {
        match &self.state {
            WorkerState::Ready => {
                self.state = WorkerState::Failed(String::from_str("failed to write to worker"));
                self.handle = None;
                self.pending = None;
            },
            _ => {},
        }
        BridgeError::ChildExited
    }

    /// One line arrived on the worker's stderr. It is diagnostic text for
    /// the host's sink, handed back verbatim; the bridge is read, never
    /// changed, so a diagnostic line can never complete a pending request.
    pub fn note_diagnostic(&self, line: &str) -> (r: String)
        ensures
            r@ == line@,
    {
        String::from_str(line)
    }
}

/// Starting twice without an intervening stop leaves exactly one live
/// worker and both calls succeed: the first start spawns and, once the
/// spawn is reported, the bridge is ready with that one handle; the second
/// start reports `AlreadyRunning`, changes nothing, and asks for no second
/// spawn.
pub proof fn lemma_start_twice_single_worker(s: PythonBackend, handle_id: u64)
    requires
        s.wf(),
        s.settled(),
        !(s.state is Ready),
    ensures
        ({
            let first = start_result(s);
            let ready = started_result(first.0, handle_id);
            &&& first.1 == StartAction::SpawnWorker
            &&& ready.state is Ready
            &&& ready.handle == Some(handle_id)
            &&& start_result(ready) == (ready, StartAction::AlreadyRunning)
        }),
{
}

} // verus!
