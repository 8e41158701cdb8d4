//! The life of one client session: waiting for the client's second
//! connection, reading and dispatching frames, and ending for one of three
//! reasons.
use crate::actions::DecodeError;
use crate::dispatch::ConnectionStatus;
use crate::pool::{apply_op, lemma_op_preserves, run_ops, PoolModel, PoolOp, CLIENT_POOL_RESERVED_ID};
use vstd::prelude::*;

verus! {

/// The read timeout of a session, in milliseconds: the longest a request
/// from the server to end a session waits before the session sees it.
pub const READ_TIMEOUT_MS: u64 = 1000;

/// The most bytes a session reads at once.
pub const READ_BUFFER_SIZE: usize = 1024;

/// Why a session ended.
#[derive(Debug, Clone, Copy, PartialEq, Eq, Structural)]
pub enum ExitReason {
    /// The client sent a disconnect action.
    RequestedByClient,
    /// The server asked the session to end.
    RequestedByServer,
    /// The listener, the connection or a frame failed.
    Unexpected,
}

/// Where a session stands.
#[derive(Debug, Clone, Copy, PartialEq, Eq, Structural)]
pub enum SessionState {
    /// Waiting for the client to connect to the session's port.
    Listening,
    /// Reading and dispatching frames.
    Running,
    /// Ended; the thread finishes.
    Terminating(ExitReason),
}

/// What happened to a session since its last step.
#[derive(Debug, Clone, Copy, PartialEq, Eq)]
pub enum SessionEvent {
    /// The client connected to the session's port.
    Accepted,
    /// The session's listener failed.
    ListenerFailed,
    /// A frame was dispatched, with this result.
    Dispatched(Result<ConnectionStatus, DecodeError>),
    /// Nothing arrived within the timeout; `exit_requested` is what the pool
    /// said of the session then.
    ReadTimeout { exit_requested: bool },
    /// Reading from the connection failed.
    ReadFailed,
    /// The client closed the connection.
    PeerClosed,
}

/// The state after an event.
pub open spec fn session_next(s: SessionState, e: SessionEvent) -> SessionState {
    match s {
        SessionState::Listening => match e {
            SessionEvent::Accepted => SessionState::Running,
            SessionEvent::ListenerFailed => SessionState::Terminating(ExitReason::Unexpected),
            SessionEvent::ReadTimeout { exit_requested } => if exit_requested {
                SessionState::Terminating(ExitReason::RequestedByServer)
            } else {
                SessionState::Listening
            },
            _ => SessionState::Listening,
        },
        SessionState::Running => match e {
            SessionEvent::Dispatched(Ok(ConnectionStatus::Connected)) => SessionState::Running,
            SessionEvent::Dispatched(Ok(ConnectionStatus::Disconnected)) => SessionState::Terminating(
                ExitReason::RequestedByClient,
            ),
            SessionEvent::Dispatched(Err(_)) => SessionState::Terminating(ExitReason::Unexpected),
            SessionEvent::ReadTimeout { exit_requested } => if exit_requested {
                SessionState::Terminating(ExitReason::RequestedByServer)
            } else {
                SessionState::Running
            },
            SessionEvent::ReadFailed => SessionState::Terminating(ExitReason::Unexpected),
            SessionEvent::PeerClosed => SessionState::Terminating(ExitReason::Unexpected),
            _ => SessionState::Running,
        },
        SessionState::Terminating(r) => SessionState::Terminating(r),
    }
}

/// Whether a session that ended this way tells the pool: not when the
/// server asked it to end, since the server posts that notice itself.
pub open spec fn notifies_pool(r: ExitReason) -> bool {
    r != ExitReason::RequestedByServer
}

impl SessionState {
    /// The state after `event`.
    pub fn next(self, event: SessionEvent) -> (r: SessionState)
        ensures
            r == session_next(self, event),
    {
        match self {
            SessionState::Listening => match event {
                SessionEvent::Accepted => SessionState::Running,
                SessionEvent::ListenerFailed => SessionState::Terminating(ExitReason::Unexpected),
                SessionEvent::ReadTimeout { exit_requested } => if exit_requested {
                    SessionState::Terminating(ExitReason::RequestedByServer)
                } else {
                    SessionState::Listening
                },
                _ => SessionState::Listening,
            },
            SessionState::Running => match event {
                SessionEvent::Dispatched(Ok(ConnectionStatus::Connected)) => SessionState::Running,
                SessionEvent::Dispatched(Ok(ConnectionStatus::Disconnected)) => {
                    SessionState::Terminating(ExitReason::RequestedByClient)
                },
                SessionEvent::Dispatched(Err(_)) => SessionState::Terminating(ExitReason::Unexpected),
                SessionEvent::ReadTimeout { exit_requested } => if exit_requested {
                    SessionState::Terminating(ExitReason::RequestedByServer)
                } else {
                    SessionState::Running
                },
                SessionEvent::ReadFailed => SessionState::Terminating(ExitReason::Unexpected),
                SessionEvent::PeerClosed => SessionState::Terminating(ExitReason::Unexpected),
                _ => SessionState::Running,
            },
            SessionState::Terminating(r) => SessionState::Terminating(r),
        }
    }

    /// Whether the session has ended.
    pub fn is_terminating(&self) -> (r: bool)
        ensures
            r == self is Terminating,
    {
        match self {
            SessionState::Terminating(_) => true,
            _ => false,
        }
    }
}

impl ExitReason {
    /// Whether a session that ended this way posts a termination notice.
    pub fn notifies_pool(&self) -> (r: bool)
        ensures
            r == notifies_pool(*self),
    {
        match self {
            ExitReason::RequestedByServer => false,
            _ => true,
        }
    }
}

/// Once the termination listener has removed a client, no operation brings
/// it back, and every later notice for it is ignored: its removal is
/// published exactly once.
pub proof fn lemma_removed_once(p: PoolModel, id: nat, ops: Seq<PoolOp>)
    requires
        p.wf(),
        p.notice(id).1 is Some,
    ensures
        !run_ops(p.notice(id).0, ops).has(id),
        run_ops(p.notice(id).0, ops).notice(id).1 is None,
        run_ops(p.notice(id).0, ops).should_exit(id),
{
    let q = p.notice(id).0;
    let i = p.position(id);
    assert(p.records[i].info.id == id);
    assert(id < p.next_id);
    if q.has(id) {
        let k = q.position(id);
        let a = if k < i { k } else { k + 1 };
        assert(q.records[k] == p.records[a]);
        if a < i {
            assert(p.records[a].info.id < p.records[i].info.id);
        } else {
            assert(p.records[i].info.id < p.records[a].info.id);
        }
    }
    lemma_op_preserves(p, PoolOp::Notice(id));
    assert(q == apply_op(p, PoolOp::Notice(id)));
    lemma_absent_stays_absent(q, id, ops);
}

/// An id below the next id that is not in the pool never comes back.
proof fn lemma_absent_stays_absent(p: PoolModel, id: nat, ops: Seq<PoolOp>)
    requires
        p.wf(),
        !p.has(id),
        id < p.next_id,
    ensures
        !run_ops(p, ops).has(id),
    decreases ops.len(),
{
    if ops.len() > 0 {
        let q = apply_op(p, ops[0]);
        lemma_op_preserves(p, ops[0]);
        if q.has(id) {
            let k = q.position(id);
            assert(q.records[k].info.id == id);
            match ops[0] {
                PoolOp::Add(a) => {
                    if k < p.records.len() {
                        assert(q.records[k] == p.records[k]);
                    }
                },
                PoolOp::Terminate(t) => {
                    assert(q.records[k].info == p.records[k].info);
                },
                PoolOp::Clear => {},
                PoolOp::Notice(t) => {
                    let j = p.position(t);
                    let a = if k < j { k } else { k + 1 };
                    assert(q.records[k] == p.records[a]);
                },
            }
        }
        lemma_absent_stays_absent(q, id, ops.drop_first());
    }
}

/// After the server asks a client's session to end, the pool tells the
/// session so at its next read timeout, before and after the client is
/// removed, and the session then ends without posting a notice of its own.
pub proof fn lemma_terminated_session_exits(p: PoolModel, id: nat, s: SessionState)
    requires
        p.wf(),
        p.terminate(id).1 is Ok,
        !(s is Terminating),
    ensures
        p.terminate(id).0.should_exit(id),
        p.terminate(id).0.notice(id).0.should_exit(id),
        session_next(s, SessionEvent::ReadTimeout { exit_requested: true }) == SessionState::Terminating(
            ExitReason::RequestedByServer,
        ),
        !notifies_pool(ExitReason::RequestedByServer),
{
    let q = p.terminate(id).0;
    let i = p.position(id);
    assert(q.records[i].info == p.records[i].info);
    assert(q.has(id));
    lemma_op_preserves(p, PoolOp::Terminate(id));
    assert(q == apply_op(p, PoolOp::Terminate(id)));
    if id == CLIENT_POOL_RESERVED_ID {
        assert(p.records[i].info.id >= 1);
    }
    let k = q.position(id);
    if k != i {
        if k < i {
            assert(q.records[k].info.id < q.records[i].info.id);
        } else {
            assert(q.records[i].info.id < q.records[k].info.id);
        }
    }
    lemma_removed_once(q, id, Seq::empty());
    assert(run_ops(q.notice(id).0, Seq::empty()) == q.notice(id).0);
}

} // verus!
