use vstd::prelude::*;

use crate::decimal::{decimal, push_decimal};

verus! {

/// Seconds allowed for connecting to the backend.
pub const CONNECT_TIMEOUT_SECS: u64 = 2;

/// Seconds allowed for reading the backend's answer.
pub const READ_TIMEOUT_SECS: u64 = 2;

/// Seconds the backend gets to finish its own shutdown.
pub const GRACE_SECS: u64 = 3;

/// The loopback address of the backend on `port`.
pub open spec fn backend_address(port: u16) -> Seq<char> {
    "127.0.0.1:"@ + decimal(port as nat)
}

/// The HTTP request that asks the backend on `port` to shut down: a POST
/// without a body, closing the connection.
pub open spec fn shutdown_request(port: u16) -> Seq<char> {
    "POST /api/shutdown HTTP/1.1\r\nHost: 127.0.0.1:"@ + decimal(port as nat)
        + "\r\nContent-Length: 0\r\nConnection: close\r\n\r\n"@
}

/// `127.0.0.1:<port>`.
pub fn backend_address_text(port: u16) -> (r: String)
    ensures
        r@ == backend_address(port),
{
    let mut s = String::from_str("127.0.0.1:");
    push_decimal(&mut s, port as u64);
    s
}

/// The text of the cooperative shutdown request for the backend on `port`.
pub fn shutdown_request_text(port: u16) -> (r: String)
    ensures
        r@ == shutdown_request(port),
{
    let mut s = String::from_str("POST /api/shutdown HTTP/1.1\r\nHost: 127.0.0.1:");
    push_decimal(&mut s, port as u64);
    s.append("\r\nContent-Length: 0\r\nConnection: close\r\n\r\n");
    s
}

/// What the coordinator waits for the outcome of.
#[derive(Clone, Copy, PartialEq, Eq, Structural, Debug)]
pub enum ShutdownPhase {
    /// The connection to the backend.
    Connecting,
    /// The shutdown request and the read of its answer.
    Requesting,
    /// The grace period.
    Waiting,
    /// The hard kill of the child.
    Killing,
    /// The kill of the child's own children.
    Reaping,
    /// Nothing: the child is torn down.
    TornDown,
}

/// An action that the coordinator asks its host to perform.
pub enum ShutdownAction {
    /// Connect to this address within the timeout, in seconds.
    Connect { address: String, timeout_secs: u64 },
    /// Write the request on the open connection, then read the answer within
    /// the timeout, in seconds, and drop it.
    SendRequest { request: String, read_timeout_secs: u64 },
    /// Wait this many seconds.
    Sleep(u64),
    /// Kill the child through its handle.
    KillChild,
    /// Kill by force every process whose parent is this one.
    KillChildrenOf(u32),
    /// Stop: the child is torn down.
    Finish,
}

/// The mathematical content of a [`ShutdownAction`].
pub enum ShutdownActionView {
    Connect { address: Seq<char>, timeout_secs: u64 },
    SendRequest { request: Seq<char>, read_timeout_secs: u64 },
    Sleep(u64),
    KillChild,
    KillChildrenOf(u32),
    Finish,
}

impl View for ShutdownAction {
    type V = ShutdownActionView;

    open spec fn view(&self) -> ShutdownActionView {
        match self {
            ShutdownAction::Connect { address, timeout_secs } => ShutdownActionView::Connect {
                address: address@,
                timeout_secs: *timeout_secs,
            },
            ShutdownAction::SendRequest { request, read_timeout_secs } =>
                ShutdownActionView::SendRequest {
                request: request@,
                read_timeout_secs: *read_timeout_secs,
            },
            ShutdownAction::Sleep(s) => ShutdownActionView::Sleep(*s),
            ShutdownAction::KillChild => ShutdownActionView::KillChild,
            ShutdownAction::KillChildrenOf(p) => ShutdownActionView::KillChildrenOf(*p),
            ShutdownAction::Finish => ShutdownActionView::Finish,
        }
    }
}

/// What the host reports after performing an action.
#[derive(Clone, Copy, PartialEq, Eq, Structural, Debug)]
pub enum ShutdownEvent {
    /// The connection to the backend is open.
    Connected,
    /// The backend could not be reached.
    Unreachable,
    /// Any other action was performed, successfully or not.
    Completed,
}

/// The next phase and action.
pub open spec fn shutdown_next(phase: ShutdownPhase, event: ShutdownEvent, pid: u32, port: u16) -> (
    ShutdownPhase,
    ShutdownActionView,
) {
    match phase {
        ShutdownPhase::Connecting => if event == ShutdownEvent::Connected {
            (
                ShutdownPhase::Requesting,
                ShutdownActionView::SendRequest {
                    request: shutdown_request(port),
                    read_timeout_secs: READ_TIMEOUT_SECS,
                },
            )
        } else {
            (ShutdownPhase::Waiting, ShutdownActionView::Sleep(GRACE_SECS))
        },
        ShutdownPhase::Requesting => (ShutdownPhase::Waiting, ShutdownActionView::Sleep(GRACE_SECS)),
        ShutdownPhase::Waiting => (ShutdownPhase::Killing, ShutdownActionView::KillChild),
        ShutdownPhase::Killing => (ShutdownPhase::Reaping, ShutdownActionView::KillChildrenOf(pid)),
        ShutdownPhase::Reaping | ShutdownPhase::TornDown => (
            ShutdownPhase::TornDown,
            ShutdownActionView::Finish,
        ),
    }
}

/// The first action: connect to the backend.
pub open spec fn shutdown_first(port: u16) -> ShutdownActionView {
    ShutdownActionView::Connect {
        address: backend_address(port),
        timeout_secs: CONNECT_TIMEOUT_SECS,
    }
}

/// The actions issued from `phase` as the host reports `events`, and the phase
/// reached.
pub open spec fn shutdown_run(phase: ShutdownPhase, events: Seq<ShutdownEvent>, pid: u32, port: u16) -> (
    ShutdownPhase,
    Seq<ShutdownActionView>,
)
    decreases events.len(),
{
    if events.len() == 0 {
        (phase, seq![])
    } else {
        let (next, action) = shutdown_next(phase, events[0], pid, port);
        let (last, rest) = shutdown_run(next, events.drop_first(), pid, port);
        (last, seq![action] + rest)
    }
}

/// The seconds that an action may block for at most.
pub open spec fn blocking_secs(action: ShutdownActionView) -> nat {
    match action {
        ShutdownActionView::Connect { timeout_secs, .. } => timeout_secs as nat,
        ShutdownActionView::SendRequest { read_timeout_secs, .. } => read_timeout_secs as nat,
        ShutdownActionView::Sleep(s) => s as nat,
        _ => 0,
    }
}

pub open spec fn total_blocking_secs(actions: Seq<ShutdownActionView>) -> nat
    decreases actions.len(),
{
    if actions.len() == 0 {
        0
    } else {
        blocking_secs(actions[0]) + total_blocking_secs(actions.drop_first())
    }
}

/// Tears down the backend child with process `pid`, listening on `port`: asks
/// it to stop, waits, kills it, then kills what it left behind.
pub struct ShutdownCoordinator {
    pub pid: u32,
    pub port: u16,
    pub phase: ShutdownPhase,
}

impl ShutdownCoordinator {
    /// A coordinator for the child `pid` on `port`, and its first action.
    pub fn start(pid: u32, port: u16) -> (r: (ShutdownCoordinator, ShutdownAction))
        ensures
            r.0.pid == pid,
            r.0.port == port,
            r.0.phase == ShutdownPhase::Connecting,
            r.1@ == shutdown_first(port),
    {
        (
            ShutdownCoordinator { pid, port, phase: ShutdownPhase::Connecting },
            ShutdownAction::Connect {
                address: backend_address_text(port),
                timeout_secs: CONNECT_TIMEOUT_SECS,
            },
        )
    }

    pub fn is_torn_down(&self) -> (r: bool)
        ensures
            r == (self.phase == ShutdownPhase::TornDown),
    {
        self.phase == ShutdownPhase::TornDown
    }

    /// Takes the outcome of the last action and returns the next one.
    pub fn step(&mut self, event: ShutdownEvent) -> (r: ShutdownAction)
        ensures
            final(self).pid == old(self).pid,
            final(self).port == old(self).port,
            (final(self).phase, r@) == shutdown_next(
                old(self).phase,
                event,
                old(self).pid,
                old(self).port,
            ),
    {
        match self.phase {
            ShutdownPhase::Connecting => {
                if event == ShutdownEvent::Connected {
                    self.phase = ShutdownPhase::Requesting;
                    ShutdownAction::SendRequest {
                        request: shutdown_request_text(self.port),
                        read_timeout_secs: READ_TIMEOUT_SECS,
                    }
                } else {
                    self.phase = ShutdownPhase::Waiting;
                    ShutdownAction::Sleep(GRACE_SECS)
                }
            },
            ShutdownPhase::Requesting => {
                self.phase = ShutdownPhase::Waiting;
                ShutdownAction::Sleep(GRACE_SECS)
            },
            ShutdownPhase::Waiting => {
                self.phase = ShutdownPhase::Killing;
                ShutdownAction::KillChild
            },
            ShutdownPhase::Killing => {
                self.phase = ShutdownPhase::Reaping;
                ShutdownAction::KillChildrenOf(self.pid)
            },
            ShutdownPhase::Reaping | ShutdownPhase::TornDown => {
                self.phase = ShutdownPhase::TornDown;
                ShutdownAction::Finish
            },
        }
    }
}

proof fn lemma_torn_down_stays(events: Seq<ShutdownEvent>, pid: u32, port: u16)
    ensures
        shutdown_run(ShutdownPhase::TornDown, events, pid, port).0 == ShutdownPhase::TornDown,
        total_blocking_secs(shutdown_run(ShutdownPhase::TornDown, events, pid, port).1) == 0,
    decreases events.len(),
{
    if events.len() > 0 {
        lemma_torn_down_stays(events.drop_first(), pid, port);
        let rest = shutdown_run(ShutdownPhase::TornDown, events.drop_first(), pid, port).1;
        assert((seq![ShutdownActionView::Finish] + rest).drop_first() =~= rest);
    }
}

proof fn lemma_blocking_concat(a: Seq<ShutdownActionView>, b: Seq<ShutdownActionView>)
    ensures
        total_blocking_secs(a + b) == total_blocking_secs(a) + total_blocking_secs(b),
    decreases a.len(),
{
    if a.len() > 0 {
        lemma_blocking_concat(a.drop_first(), b);
        assert((a + b).drop_first() =~= a.drop_first() + b);
    } else {
        assert(a + b =~= b);
    }
}

/// The shutdown never hangs and never skips a step. Whatever the host
/// reports (the backend answers, never answers, or is already gone), after
/// five reports the child is torn down; on the way the child is killed
/// through its handle and then its own children are killed, in that order;
/// and the actions block for at most seven seconds in all: the connect
/// timeout, the read timeout and the grace period.
pub proof fn lemma_shutdown_always_tears_down(events: Seq<ShutdownEvent>, pid: u32, port: u16)
    requires
        events.len() >= 5,
    ensures
        ({
            let (last, actions) = shutdown_run(ShutdownPhase::Connecting, events, pid, port);
            &&& last == ShutdownPhase::TornDown
            &&& exists|i: int, j: int|
                0 <= i < j < actions.len() && actions[i] == ShutdownActionView::KillChild
                    && actions[j] == ShutdownActionView::KillChildrenOf(pid)
            &&& total_blocking_secs(seq![shutdown_first(port)] + actions) <= CONNECT_TIMEOUT_SECS
                + READ_TIMEOUT_SECS + GRACE_SECS
        }),
{
    let e1 = events.drop_first();
    let e2 = e1.drop_first();
    let e3 = e2.drop_first();
    let e4 = e3.drop_first();
    if events[0] == ShutdownEvent::Connected {
        let e5 = e4.drop_first();
        lemma_torn_down_stays(e5, pid, port);
        let tail = shutdown_run(ShutdownPhase::TornDown, e5, pid, port).1;
        let r4 = shutdown_run(ShutdownPhase::Reaping, e4, pid, port);
        assert(r4.0 == ShutdownPhase::TornDown);
        assert(r4.1 == seq![ShutdownActionView::Finish] + tail);
        let r3 = shutdown_run(ShutdownPhase::Killing, e3, pid, port);
        assert(r3.1 == seq![ShutdownActionView::KillChildrenOf(pid)] + r4.1);
        let r2 = shutdown_run(ShutdownPhase::Waiting, e2, pid, port);
        assert(r2.1 == seq![ShutdownActionView::KillChild] + r3.1);
        let r1 = shutdown_run(ShutdownPhase::Requesting, e1, pid, port);
        assert(r1.1 == seq![ShutdownActionView::Sleep(GRACE_SECS)] + r2.1);
        let r0 = shutdown_run(ShutdownPhase::Connecting, events, pid, port);
        let head = seq![
            shutdown_first(port),
            ShutdownActionView::SendRequest {
                request: shutdown_request(port),
                read_timeout_secs: READ_TIMEOUT_SECS,
            },
            ShutdownActionView::Sleep(GRACE_SECS),
            ShutdownActionView::KillChild,
            ShutdownActionView::KillChildrenOf(pid),
            ShutdownActionView::Finish,
        ];
        assert(seq![shutdown_first(port)] + r0.1 =~= head + tail);
        assert(r0.1[2] == ShutdownActionView::KillChild);
        assert(r0.1[3] == ShutdownActionView::KillChildrenOf(pid));
        lemma_blocking_concat(head, tail);
        reveal_with_fuel(total_blocking_secs, 7);
        assert(head.drop_first().drop_first().drop_first().drop_first().drop_first().drop_first()
            =~= Seq::<ShutdownActionView>::empty());
    } else {
        lemma_torn_down_stays(e4, pid, port);
        let tail = shutdown_run(ShutdownPhase::TornDown, e4, pid, port).1;
        let r3 = shutdown_run(ShutdownPhase::Reaping, e3, pid, port);
        assert(r3.1 == seq![ShutdownActionView::Finish] + tail);
        let r2 = shutdown_run(ShutdownPhase::Killing, e2, pid, port);
        assert(r2.1 == seq![ShutdownActionView::KillChildrenOf(pid)] + r3.1);
        let r1 = shutdown_run(ShutdownPhase::Waiting, e1, pid, port);
        assert(r1.1 == seq![ShutdownActionView::KillChild] + r2.1);
        let r0 = shutdown_run(ShutdownPhase::Connecting, events, pid, port);
        let head = seq![
            shutdown_first(port),
            ShutdownActionView::Sleep(GRACE_SECS),
            ShutdownActionView::KillChild,
            ShutdownActionView::KillChildrenOf(pid),
            ShutdownActionView::Finish,
        ];
        assert(seq![shutdown_first(port)] + r0.1 =~= head + tail);
        assert(r0.1[1] == ShutdownActionView::KillChild);
        assert(r0.1[2] == ShutdownActionView::KillChildrenOf(pid));
        lemma_blocking_concat(head, tail);
        reveal_with_fuel(total_blocking_secs, 6);
        assert(head.drop_first().drop_first().drop_first().drop_first().drop_first()
            =~= Seq::<ShutdownActionView>::empty());
    }
}

} // verus!
