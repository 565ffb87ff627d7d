//! What holds of every session, whatever the events.
use vstd::prelude::*;
use crate::address::AddressView;
use crate::command::{has_prefix, parse, probe_prefix, relay_prefix, trimmed, words, CommandView};
use crate::session::{
    first_transport, next, next_handle, out_of_turn, started, ActionView, EventView, InboundView,
    OrderView, OutputView, PhaseView, ReportView, SessionView, TransportKind, TransportView,
};
use crate::telnet::order_of;
use crate::Failure;

verus! {

/// Whether the parts of a session's state fit together: an idle session has
/// started, and only a session that is still starting waits for the response
/// to its first request.
pub open spec fn consistent(s: SessionView) -> bool {
    &&& s.phase is Idle ==> !s.starting
    &&& s.phase is AwaitingReply ==> s.starting
}

/// A session starts in a consistent state, over the host's own socket.
pub proof fn start_is_consistent(
    server: Seq<char>,
    credentials: Option<(Seq<char>, Seq<char>)>,
    local: AddressView,
    probe: Seq<u8>,
)
    ensures
        consistent(started(server, credentials, local, probe).0),
        started(server, credentials, local, probe).0.transport == first_transport(local),
{
}

/// Every step leads from a consistent state to a consistent state.
pub proof fn step_keeps_consistency(s: SessionView, e: EventView)
    requires
        consistent(s),
    ensures
        consistent(next(s, e).0),
{
}

/// Whether a session in `phase` is waiting for `e`.
pub open spec fn in_turn(phase: PhaseView, e: EventView) -> bool {
    match phase {
        PhaseView::Idle => e is Typed || e is Heard,
        PhaseView::Resolving { .. } => e is Resolved,
        PhaseView::Sending => e is Sent,
        PhaseView::AwaitingReply => e is Heard,
        PhaseView::Connecting => e is Connected,
        PhaseView::Allocating => e is Allocated,
    }
}

/// The failure that `e` brings, if it brings one.
pub open spec fn failure_of(e: EventView) -> Option<Failure> {
    match e {
        EventView::Typed(Err(f)) => Some(f),
        EventView::Heard(Err(f)) => Some(f),
        EventView::Resolved(Err(f)) => Some(f),
        EventView::Sent(Err(x)) => Some(Failure::Transport(x)),
        EventView::Connected(Err(x)) => Some(Failure::ConnectFailed(x)),
        EventView::Allocated(Err(x)) => Some(Failure::AllocateFailed(x)),
        _ => None,
    }
}

/// An event that the session is not waiting for changes nothing: the state
/// stays, no new operation is asked for, and the operator is told.
pub proof fn event_out_of_turn_changes_nothing(s: SessionView, e: EventView)
    requires
        !in_turn(s.phase, e),
    ensures
        next(s, e) == out_of_turn(s),
        next(s, e).0 == s,
        next(s, e).1.report == Some(ReportView::Failed(Failure::OutOfTurn)),
        !(s.phase is Idle) && !(s.phase is AwaitingReply) ==> next(s, e).1.action is Await,
{
}

/// No failure ends a session. Whatever fails, the operator is told in the
/// same step, the session is idle again, and its transport is the one it had.
pub proof fn failure_is_reported_and_survived(s: SessionView, e: EventView, f: Failure)
    requires
        in_turn(s.phase, e),
        failure_of(e) == Some(f),
    ensures
        next(s, e).1.report == Some(ReportView::Failed(f)),
        next(s, e).1.action is Listen,
        next(s, e).0.phase is Idle,
        next(s, e).0.transport == s.transport,
{
}

/// Whatever is sent goes through the transport that the session holds at
/// that moment, and sending does not change it.
pub proof fn send_uses_the_current_transport(s: SessionView, e: EventView)
    ensures
        next(s, e).1.action matches ActionView::Send { via, .. } ==> via == s.transport.handle
            && next(s, e).0.transport == s.transport,
{
}

/// The transport changes in one case only: a relay allocation that was
/// awaited has succeeded. It is then the relay transport that the allocation
/// gave, under a handle that the transport before it did not have.
pub proof fn transport_changes_only_by_allocation(s: SessionView, e: EventView)
    ensures
        next(s, e).0.transport != s.transport ==> s.phase is Allocating && (
        e matches EventView::Allocated(Ok(local)) && next(s, e).0.transport == (TransportView {
            handle: next_handle(s.transport.handle),
            kind: TransportKind::Relay,
            local,
        })),
        next_handle(s.transport.handle) != s.transport.handle,
{
}

/// A line that is a raw send leads to exactly one send: of the bytes of the
/// line as typed, to the address that its text resolved to, through the
/// transport in use. Before it comes the lookup of the trimmed line, after
/// it the session is idle again, over the same transport.
pub proof fn raw_send_sends_once(
    s: SessionView,
    line: Seq<char>,
    dest: AddressView,
    done: Result<(), webrtc_util::Error>,
)
    requires
        s.phase is Idle,
        !s.starting,
        parse(line) matches Some(CommandView::RawSend { .. }),
    ensures
        ({
            let typed = EventView::Typed(Ok(order_of(parse(line)->0, Seq::empty())));
            let (s1, o1) = next(s, typed);
            let (s2, o2) = next(s1, EventView::Resolved(Ok(dest)));
            let (s3, o3) = next(s2, EventView::Sent(done));
            &&& o1.action == ActionView::Resolve { name: trimmed(line) }
            &&& o2.action == ActionView::Send {
                via: s.transport.handle,
                payload: vstd::utf8::encode_utf8(line),
                dest,
            }
            &&& o3.action is Listen
            &&& s3.phase is Idle
            &&& s3.transport == s.transport
        }),
{
}

/// A relay switch that names fewer than three words is a syntax error, and
/// the step on it leaves an idle session as it was: the transport is not
/// touched.
pub proof fn short_relay_switch_is_refused(s: SessionView, line: Seq<char>)
    requires
        has_prefix(trimmed(line), relay_prefix()),
        words(trimmed(line).skip(5)).len() < 3,
    ensures
        parse(line) is None,
        next(s, EventView::Typed(Err(Failure::CommandSyntax))).0.transport == s.transport,
        s.phase is Idle ==> next(s, EventView::Typed(Err(Failure::CommandSyntax))) == (
            s,
            OutputView {
                action: ActionView::Listen,
                report: Some(ReportView::Failed(Failure::CommandSyntax)),
            },
        ),
{
    let text = trimmed(line);
    assert(!has_prefix(text, probe_prefix())) by {
        assert(text.subrange(0, 5)[0] == relay_prefix()[0]);
    }
}

/// A relay switch that succeeds replaces the transport in one step: the
/// session is idle at once, and the next thing it sends goes through the new
/// transport, never through the old one.
pub proof fn switch_takes_effect_at_once(
    s: SessionView,
    local: AddressView,
    target: Seq<char>,
    payload: Seq<u8>,
    dest: AddressView,
)
    requires
        s.phase is Allocating,
    ensures
        ({
            let (s1, o1) = next(s, EventView::Allocated(Ok(local)));
            let (s2, o2) = next(s1, EventView::Typed(Ok(OrderView::Send { target, payload })));
            let (s3, o3) = next(s2, EventView::Resolved(Ok(dest)));
            &&& s1.transport == TransportView {
                handle: next_handle(s.transport.handle),
                kind: TransportKind::Relay,
                local,
            }
            &&& s1.transport.handle != s.transport.handle
            &&& s1.phase is Idle
            &&& o1.action is Listen
            &&& o1.report == Some(
                if s.starting {
                    ReportView::Local(local)
                } else {
                    ReportView::Switched(local)
                },
            )
            &&& o3.action == ActionView::Send { via: s1.transport.handle, payload, dest }
        }),
{
}

/// A relay switch that fails leaves the transport as it was, and says at
/// which stage it failed: while connecting, or while allocating.
pub proof fn failed_switch_keeps_the_transport(s: SessionView, cause: turn::Error)
    requires
        s.phase is Connecting || s.phase is Allocating,
    ensures
        ({
            let e = if s.phase is Connecting {
                EventView::Connected(Err(cause))
            } else {
                EventView::Allocated(Err(cause))
            };
            let told = if s.phase is Connecting {
                Failure::ConnectFailed(cause)
            } else {
                Failure::AllocateFailed(cause)
            };
            &&& next(s, e).0.transport == s.transport
            &&& next(s, e).1.report == Some(ReportView::Failed(told))
            &&& next(s, e).0.phase is Idle
            &&& next(s, e).1.action is Listen
        }),
{
}

/// An inbound datagram is reported in one way only: as the address of a
/// discovery response, or as the payload of its sender. An idle session is
/// not changed by it.
pub proof fn inbound_is_reported_one_way(s: SessionView, inbound: InboundView)
    requires
        s.phase is Idle,
    ensures
        next(s, EventView::Heard(Ok(inbound))).0 == s,
        next(s, EventView::Heard(Ok(inbound))).1.action is Listen,
        next(s, EventView::Heard(Ok(inbound))).1.report == Some(
            match inbound {
                InboundView::Response(a) => ReportView::Mapped(a),
                InboundView::Payload { sender, bytes, why } => ReportView::Payload {
                    sender,
                    bytes,
                },
            },
        ),
{
}

} // verus!
