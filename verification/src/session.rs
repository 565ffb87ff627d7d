//! The session: one transport, one operation at a time.
//!
//! A session owns one transport at a time and works on one thing at a time.
//! While it is idle, a console line or an inbound datagram starts a turn.
//! A command may need several operations that only the caller can perform
//! (a name lookup, a send, the set-up of a relay): the session asks for them
//! one by one through [`Action`], and the caller answers each with the
//! matching [`Event`]. The transport is replaced in one step, and only when a
//! relay allocation has succeeded.
//!
//! Two things the session does not do. It does not match a discovery
//! response to the request that caused it: whichever response arrives is
//! reported, so only one probe should be under way at a time. And it does not
//! say what becomes of datagrams that still arrive on a transport after it
//! has been replaced: the caller decides whether to go on reading it.
use vstd::prelude::*;
use crate::address::{Address, AddressView};
use crate::client::{binding_request, is_binding_request};
use crate::telnet::{paired, Args};
use crate::Failure;

verus! {

/// The handle of the transport with which a session starts.
pub const FIRST_HANDLE: u64 = 0;

/// The handle that follows `handle`. It is never `handle` itself.
pub open spec fn next_handle(handle: u64) -> u64 {
    if handle == u64::MAX {
        0
    } else {
        (handle + 1) as u64
    }
}

/// The two sorts of transport.
#[derive(Debug, Clone, Copy, PartialEq, Eq)]
pub enum TransportKind {
    /// A socket of the host itself.
    Direct,
    /// A virtual socket that a relay server allocated.
    Relay,
}

/// A live transport, as the session knows it.
///
/// The caller keeps the endpoint itself and finds it again by `handle`. The
/// session gives each transport a handle of its own: the first one has
/// [`FIRST_HANDLE`], and each later one the handle that [`next_handle`] makes
/// of the one before.
#[derive(Debug, PartialEq, Eq)]
pub struct Transport {
    pub handle: u64,
    pub kind: TransportKind,
    /// The address that the transport reports as its own.
    pub local: Address,
}

/// What a [`Transport`] stands for in contracts.
pub struct TransportView {
    pub handle: u64,
    pub kind: TransportKind,
    pub local: AddressView,
}

impl View for Transport {
    type V = TransportView;

    open spec fn view(&self) -> TransportView {
        TransportView { handle: self.handle, kind: self.kind, local: self.local@ }
    }
}

/// What a relay client is set up with.
#[derive(Debug, PartialEq, Eq)]
pub struct RelayConfig {
    pub stun_serv_addr: String,
    pub turn_serv_addr: String,
    pub username: String,
    pub password: String,
    pub realm: String,
    pub software: String,
    pub rto_in_ms: u16,
}

/// What a [`RelayConfig`] stands for in contracts.
pub struct RelayConfigView {
    pub stun_serv_addr: Seq<char>,
    pub turn_serv_addr: Seq<char>,
    pub username: Seq<char>,
    pub password: Seq<char>,
    pub realm: Seq<char>,
    pub software: Seq<char>,
    pub rto_in_ms: u16,
}

impl View for RelayConfig {
    type V = RelayConfigView;

    open spec fn view(&self) -> RelayConfigView {
        RelayConfigView {
            stun_serv_addr: self.stun_serv_addr@,
            turn_serv_addr: self.turn_serv_addr@,
            username: self.username@,
            password: self.password@,
            realm: self.realm@,
            software: self.software@,
            rto_in_ms: self.rto_in_ms,
        }
    }
}

/// The configuration for a relay at `server` with the given credentials: the
/// server serves both protocols, and everything else is left at its default.
pub open spec fn relay_config(
    server: Seq<char>,
    username: Seq<char>,
    password: Seq<char>,
) -> RelayConfigView {
    RelayConfigView {
        stun_serv_addr: server,
        turn_serv_addr: server,
        username,
        password,
        realm: Seq::empty(),
        software: Seq::empty(),
        rto_in_ms: 0,
    }
}

impl RelayConfig {
    /// The configuration with which to connect to the relay at `server`.
    pub fn new(server: &str, username: String, password: String) -> (config: RelayConfig)
        ensures
            config@ == relay_config(server@, username@, password@),
    {
        RelayConfig {
            stun_serv_addr: server.to_owned(),
            turn_serv_addr: server.to_owned(),
            username,
            password,
            realm: String::new(),
            software: String::new(),
            rto_in_ms: 0,
        }
    }
}

/// What the operator asked for, ready to be carried out.
#[derive(Debug, PartialEq, Eq)]
pub enum Order {
    /// Look `target` up and send `payload` there.
    Send { target: String, payload: Vec<u8> },
    /// Move onto the relay that `config` describes.
    Switch { config: RelayConfig },
}

/// What an [`Order`] stands for in contracts.
pub enum OrderView {
    Send { target: Seq<char>, payload: Seq<u8> },
    Switch { config: RelayConfigView },
}

impl View for Order {
    type V = OrderView;

    open spec fn view(&self) -> OrderView {
        match self {
            Order::Send { target, payload } => OrderView::Send {
                target: target@,
                payload: payload@,
            },
            Order::Switch { config } => OrderView::Switch { config: config@ },
        }
    }
}

/// An inbound datagram, judged.
#[derive(Debug)]
pub enum Inbound {
    /// A discovery response, reporting this endpoint.
    Response(Address),
    /// Anything else: the bytes, who sent them, and why they are no
    /// discovery response.
    Payload { sender: Address, bytes: Vec<u8>, why: Failure },
}

/// What an [`Inbound`] stands for in contracts.
pub enum InboundView {
    Response(AddressView),
    Payload { sender: AddressView, bytes: Seq<u8>, why: Failure },
}

impl View for Inbound {
    type V = InboundView;

    open spec fn view(&self) -> InboundView {
        match self {
            Inbound::Response(a) => InboundView::Response(a@),
            Inbound::Payload { sender, bytes, why } => InboundView::Payload {
                sender: sender@,
                bytes: bytes@,
                why: *why,
            },
        }
    }
}

/// Something that happened and that the session has to react to.
#[derive(Debug)]
pub enum Event {
    /// The console gave a line, or failed.
    Typed(Result<Order, Failure>),
    /// The transport gave a datagram, or failed.
    Heard(Result<Inbound, Failure>),
    /// The name lookup that was asked for is done.
    Resolved(Result<Address, Failure>),
    /// The send that was asked for is done.
    Sent(Result<(), webrtc_util::Error>),
    /// The relay client that was asked for is set up and listening, or not.
    Connected(Result<(), turn::Error>),
    /// The allocation that was asked for is done: the address that the relay
    /// gave.
    Allocated(Result<Address, turn::Error>),
}

/// What an [`Event`] stands for in contracts.
pub enum EventView {
    Typed(Result<OrderView, Failure>),
    Heard(Result<InboundView, Failure>),
    Resolved(Result<AddressView, Failure>),
    Sent(Result<(), webrtc_util::Error>),
    Connected(Result<(), turn::Error>),
    Allocated(Result<AddressView, turn::Error>),
}

impl View for Event {
    type V = EventView;

    open spec fn view(&self) -> EventView {
        match self {
            Event::Typed(Ok(o)) => EventView::Typed(Ok(o@)),
            Event::Typed(Err(f)) => EventView::Typed(Err(*f)),
            Event::Heard(Ok(i)) => EventView::Heard(Ok(i@)),
            Event::Heard(Err(f)) => EventView::Heard(Err(*f)),
            Event::Resolved(Ok(a)) => EventView::Resolved(Ok(a@)),
            Event::Resolved(Err(f)) => EventView::Resolved(Err(*f)),
            Event::Sent(r) => EventView::Sent(*r),
            Event::Connected(r) => EventView::Connected(*r),
            Event::Allocated(Ok(local)) => EventView::Allocated(Ok(local@)),
            Event::Allocated(Err(e)) => EventView::Allocated(Err(*e)),
        }
    }
}

/// What the caller is to do next.
#[derive(Debug, PartialEq, Eq)]
pub enum Action {
    /// Wait for a console line or a datagram, whichever comes first.
    Listen,
    /// Wait for a datagram.
    Receive,
    /// Look `name` up.
    Resolve { name: String },
    /// Send `payload` to `dest` through the transport kept under `via`.
    Send { via: u64, payload: Vec<u8>, dest: Address },
    /// Set up a relay client over the transport kept under `signaling`, and
    /// start its listening.
    Connect { signaling: u64, config: RelayConfig },
    /// Ask the relay for an allocation, and keep the transport that it gives
    /// under `handle`.
    Allocate { handle: u64 },
    /// Nothing new: the operation under way is still awaited.
    Await,
}

/// What an [`Action`] stands for in contracts.
pub enum ActionView {
    Listen,
    Receive,
    Resolve { name: Seq<char> },
    Send { via: u64, payload: Seq<u8>, dest: AddressView },
    Connect { signaling: u64, config: RelayConfigView },
    Allocate { handle: u64 },
    Await,
}

impl View for Action {
    type V = ActionView;

    open spec fn view(&self) -> ActionView {
        match self {
            Action::Listen => ActionView::Listen,
            Action::Receive => ActionView::Receive,
            Action::Resolve { name } => ActionView::Resolve { name: name@ },
            Action::Send { via, payload, dest } => ActionView::Send {
                via: *via,
                payload: payload@,
                dest: dest@,
            },
            Action::Connect { signaling, config } => ActionView::Connect {
                signaling: *signaling,
                config: config@,
            },
            Action::Allocate { handle } => ActionView::Allocate { handle: *handle },
            Action::Await => ActionView::Await,
        }
    }
}

/// What the operator is to be told.
#[derive(Debug)]
pub enum Report {
    /// A discovery response came in: the address it reports.
    Mapped(Address),
    /// A peer sent these bytes.
    Payload { sender: Address, bytes: Vec<u8> },
    /// The session has started; this is the address under which it is
    /// reachable.
    Local(Address),
    /// The session has moved onto a relay; this is the address that the
    /// relay gave.
    Switched(Address),
    /// Something failed.
    Failed(Failure),
}

/// What a [`Report`] stands for in contracts.
pub enum ReportView {
    Mapped(AddressView),
    Payload { sender: AddressView, bytes: Seq<u8> },
    Local(AddressView),
    Switched(AddressView),
    Failed(Failure),
}

impl View for Report {
    type V = ReportView;

    open spec fn view(&self) -> ReportView {
        match self {
            Report::Mapped(a) => ReportView::Mapped(a@),
            Report::Payload { sender, bytes } => ReportView::Payload {
                sender: sender@,
                bytes: bytes@,
            },
            Report::Local(a) => ReportView::Local(a@),
            Report::Switched(a) => ReportView::Switched(a@),
            Report::Failed(f) => ReportView::Failed(*f),
        }
    }
}

/// The outcome of one step: what to do next, and what to tell the operator.
#[derive(Debug)]
pub struct Output {
    pub action: Action,
    pub report: Option<Report>,
}

/// What an [`Output`] stands for in contracts.
pub struct OutputView {
    pub action: ActionView,
    pub report: Option<ReportView>,
}

impl View for Output {
    type V = OutputView;

    open spec fn view(&self) -> OutputView {
        OutputView {
            action: self.action@,
            report: match self.report {
                Some(r) => Some(r@),
                None => None,
            },
        }
    }
}

/// What the session is waiting for.
#[derive(Debug, PartialEq, Eq)]
pub enum Phase {
    /// A console line or a datagram.
    Idle,
    /// The lookup of the name to which `payload` will go.
    Resolving { payload: Vec<u8> },
    /// The end of a send.
    Sending,
    /// The response to the discovery request with which the session starts.
    AwaitingReply,
    /// The set-up of a relay client.
    Connecting,
    /// A relay allocation.
    Allocating,
}

/// What a [`Phase`] stands for in contracts.
pub enum PhaseView {
    Idle,
    Resolving { payload: Seq<u8> },
    Sending,
    AwaitingReply,
    Connecting,
    Allocating,
}

impl View for Phase {
    type V = PhaseView;

    open spec fn view(&self) -> PhaseView {
        match self {
            Phase::Idle => PhaseView::Idle,
            Phase::Resolving { payload } => PhaseView::Resolving { payload: payload@ },
            Phase::Sending => PhaseView::Sending,
            Phase::AwaitingReply => PhaseView::AwaitingReply,
            Phase::Connecting => PhaseView::Connecting,
            Phase::Allocating => PhaseView::Allocating,
        }
    }
}

/// The state of a session.
#[derive(Debug)]
pub struct Session {
    /// The one transport in use.
    pub transport: Transport,
    pub phase: Phase,
    /// Whether the session is still in its first exchange, at the end of
    /// which it tells the operator under which address it is reachable.
    pub starting: bool,
}

/// What a [`Session`] stands for in contracts.
pub struct SessionView {
    pub transport: TransportView,
    pub phase: PhaseView,
    pub starting: bool,
}

impl View for Session {
    type V = SessionView;

    open spec fn view(&self) -> SessionView {
        SessionView { transport: self.transport@, phase: self.phase@, starting: self.starting }
    }
}

/// What the caller does while the session waits in `phase` and nothing new
/// is asked of it.
pub open spec fn waiting(phase: PhaseView) -> ActionView {
    match phase {
        PhaseView::Idle => ActionView::Listen,
        PhaseView::AwaitingReply => ActionView::Receive,
        _ => ActionView::Await,
    }
}

/// The step on an event that the session was not waiting for: nothing
/// changes, and the operator is told.
pub open spec fn out_of_turn(s: SessionView) -> (SessionView, OutputView) {
    (
        s,
        OutputView {
            action: waiting(s.phase),
            report: Some(ReportView::Failed(Failure::OutOfTurn)),
        },
    )
}

/// The step on a failure `f` of the operation under way: the operator is
/// told, the operation is dropped, and the session is idle. The transport
/// stays.
pub open spec fn failed(s: SessionView, f: Failure) -> (SessionView, OutputView) {
    (
        SessionView { phase: PhaseView::Idle, starting: false, ..s },
        OutputView { action: ActionView::Listen, report: Some(ReportView::Failed(f)) },
    )
}

/// The step of an idle session.
pub open spec fn next_idle(s: SessionView, e: EventView) -> (SessionView, OutputView) {
    match e {
        EventView::Typed(Ok(OrderView::Send { target, payload })) => (
            SessionView { phase: PhaseView::Resolving { payload }, ..s },
            OutputView { action: ActionView::Resolve { name: target }, report: None },
        ),
        EventView::Typed(Ok(OrderView::Switch { config })) => (
            SessionView { phase: PhaseView::Connecting, ..s },
            OutputView {
                action: ActionView::Connect { signaling: s.transport.handle, config },
                report: None,
            },
        ),
        EventView::Typed(Err(f)) => (
            s,
            OutputView { action: ActionView::Listen, report: Some(ReportView::Failed(f)) },
        ),
        EventView::Heard(Ok(InboundView::Response(a))) => (
            s,
            OutputView { action: ActionView::Listen, report: Some(ReportView::Mapped(a)) },
        ),
        EventView::Heard(Ok(InboundView::Payload { sender, bytes, why })) => (
            s,
            OutputView {
                action: ActionView::Listen,
                report: Some(ReportView::Payload { sender, bytes }),
            },
        ),
        EventView::Heard(Err(f)) => (
            s,
            OutputView { action: ActionView::Listen, report: Some(ReportView::Failed(f)) },
        ),
        _ => out_of_turn(s),
    }
}

/// The step of a session that has taken up an order or is starting.
pub open spec fn next_busy(s: SessionView, e: EventView) -> (SessionView, OutputView) {
    match (s.phase, e) {
        (PhaseView::Resolving { payload }, EventView::Resolved(Ok(dest))) => (
            SessionView { phase: PhaseView::Sending, ..s },
            OutputView {
                action: ActionView::Send { via: s.transport.handle, payload, dest },
                report: None,
            },
        ),
        (PhaseView::Resolving { payload }, EventView::Resolved(Err(f))) => failed(s, f),
        (PhaseView::Sending, EventView::Sent(Ok(_))) => if s.starting {
            (
                SessionView { phase: PhaseView::AwaitingReply, ..s },
                OutputView { action: ActionView::Receive, report: None },
            )
        } else {
            (
                SessionView { phase: PhaseView::Idle, ..s },
                OutputView { action: ActionView::Listen, report: None },
            )
        },
        (PhaseView::Sending, EventView::Sent(Err(e))) => failed(s, Failure::Transport(e)),
        (PhaseView::AwaitingReply, EventView::Heard(Ok(InboundView::Response(a)))) => (
            SessionView { phase: PhaseView::Idle, starting: false, ..s },
            OutputView { action: ActionView::Listen, report: Some(ReportView::Local(a)) },
        ),
        (
            PhaseView::AwaitingReply,
            EventView::Heard(Ok(InboundView::Payload { sender, bytes, why })),
        ) => failed(s, why),
        (PhaseView::AwaitingReply, EventView::Heard(Err(f))) => failed(s, f),
        (PhaseView::Connecting, EventView::Connected(Ok(_))) => (
            SessionView { phase: PhaseView::Allocating, ..s },
            OutputView {
                action: ActionView::Allocate { handle: next_handle(s.transport.handle) },
                report: None,
            },
        ),
        (PhaseView::Connecting, EventView::Connected(Err(e))) => failed(
            s,
            Failure::ConnectFailed(e),
        ),
        (PhaseView::Allocating, EventView::Allocated(Ok(local))) => (
            SessionView {
                transport: TransportView {
                    handle: next_handle(s.transport.handle),
                    kind: TransportKind::Relay,
                    local,
                },
                phase: PhaseView::Idle,
                starting: false,
            },
            OutputView {
                action: ActionView::Listen,
                report: Some(
                    if s.starting {
                        ReportView::Local(local)
                    } else {
                        ReportView::Switched(local)
                    },
                ),
            },
        ),
        (PhaseView::Allocating, EventView::Allocated(Err(e))) => failed(
            s,
            Failure::AllocateFailed(e),
        ),
        _ => out_of_turn(s),
    }
}

/// The step of a session in state `s` on event `e`: the state after it, and
/// what comes out.
pub open spec fn next(s: SessionView, e: EventView) -> (SessionView, OutputView) {
    if s.phase is Idle {
        next_idle(s, e)
    } else {
        next_busy(s, e)
    }
}

/// The transport with which a session starts: the host's own socket, bound
/// to `local`.
pub open spec fn first_transport(local: AddressView) -> TransportView {
    TransportView { handle: FIRST_HANDLE, kind: TransportKind::Direct, local }
}

/// The start of a session over a socket bound to `local`, with the server
/// `server`: with credentials it sets out to move onto the relay there,
/// without them it sets out to send `probe` there and to learn its own
/// address from the response.
pub open spec fn started(
    server: Seq<char>,
    credentials: Option<(Seq<char>, Seq<char>)>,
    local: AddressView,
    probe: Seq<u8>,
) -> (SessionView, OutputView) {
    let direct = first_transport(local);
    match credentials {
        Some((username, password)) => (
            SessionView { transport: direct, phase: PhaseView::Connecting, starting: true },
            OutputView {
                action: ActionView::Connect {
                    signaling: direct.handle,
                    config: relay_config(server, username, password),
                },
                report: None,
            },
        ),
        None => (
            SessionView {
                transport: direct,
                phase: PhaseView::Resolving { payload: probe },
                starting: true,
            },
            OutputView { action: ActionView::Resolve { name: server }, report: None },
        ),
    }
}

impl Session {
    /// Starts a session as [`Session::start`] does, with `probe` as the
    /// discovery request to send if there are no credentials.
    pub fn start_with(args: &Args, local: Address, probe: Vec<u8>) -> (r: (Session, Output))
        ensures
            (r.0@, r.1@) == started(
                args.server@,
                paired(args.username, args.password),
                local@,
                probe@,
            ),
    {
        let direct = Transport { handle: FIRST_HANDLE, kind: TransportKind::Direct, local };
        match args.credentials() {
            Some((username, password)) => {
                let config = RelayConfig::new(args.server.as_str(), username, password);
                let action = Action::Connect { signaling: direct.handle, config };
                (
                    Session { transport: direct, phase: Phase::Connecting, starting: true },
                    Output { action, report: None },
                )
            },
            None => (
                Session {
                    transport: direct,
                    phase: Phase::Resolving { payload: probe },
                    starting: true,
                },
                Output { action: Action::Resolve { name: args.server.clone() }, report: None },
            ),
        }
    }

    /// Starts a session over the host's own socket, which is bound to
    /// `local`.
    ///
    /// With credentials the session sets out to move onto the relay at the
    /// server. Without them it sets out to send a fresh discovery request to
    /// the server, and to learn its own address from the response.
    pub fn start(args: &Args, local: Address) -> (r: (Session, Output))
        ensures
            match paired(args.username, args.password) {
                Some(credentials) => (r.0@, r.1@) == started(
                    args.server@,
                    Some(credentials),
                    local@,
                    Seq::empty(),
                ),
                None => exists|probe: Seq<u8>|
                    #![auto]
                    is_binding_request(probe) && (r.0@, r.1@) == started(
                        args.server@,
                        None,
                        local@,
                        probe,
                    ),
            },
    {
        let probe = match (&args.username, &args.password) {
            (Some(_), Some(_)) => Vec::new(),
            _ => binding_request(),
        };
        Session::start_with(args, local, probe)
    }

    /// Takes the session one step further on `event`.
    pub fn step(&mut self, event: Event) -> (out: Output)
        ensures
            (final(self)@, out@) == next(old(self)@, event@),
    {
        let mut phase = Phase::Idle;
        std::mem::swap(&mut self.phase, &mut phase);
        match phase {
            Phase::Idle => match event {
                Event::Typed(Ok(Order::Send { target, payload })) => {
                    self.phase = Phase::Resolving { payload };
                    Output { action: Action::Resolve { name: target }, report: None }
                },
                Event::Typed(Ok(Order::Switch { config })) => {
                    self.phase = Phase::Connecting;
                    Output {
                        action: Action::Connect { signaling: self.transport.handle, config },
                        report: None,
                    }
                },
                Event::Typed(Err(f)) => Output {
                    action: Action::Listen,
                    report: Some(Report::Failed(f)),
                },
                Event::Heard(Ok(Inbound::Response(a))) => Output {
                    action: Action::Listen,
                    report: Some(Report::Mapped(a)),
                },
                Event::Heard(Ok(Inbound::Payload { sender, bytes, why })) => Output {
                    action: Action::Listen,
                    report: Some(Report::Payload { sender, bytes }),
                },
                Event::Heard(Err(f)) => Output {
                    action: Action::Listen,
                    report: Some(Report::Failed(f)),
                },
                _ => self.refuse(Phase::Idle),
            },
            Phase::Resolving { payload } => match event {
                Event::Resolved(Ok(dest)) => {
                    self.phase = Phase::Sending;
                    Output {
                        action: Action::Send { via: self.transport.handle, payload, dest },
                        report: None,
                    }
                },
                Event::Resolved(Err(f)) => self.fail(f),
                _ => self.refuse(Phase::Resolving { payload }),
            },
            Phase::Sending => match event {
                Event::Sent(Ok(_)) => {
                    if self.starting {
                        self.phase = Phase::AwaitingReply;
                        Output { action: Action::Receive, report: None }
                    } else {
                        Output { action: Action::Listen, report: None }
                    }
                },
                Event::Sent(Err(e)) => self.fail(Failure::Transport(e)),
                _ => self.refuse(Phase::Sending),
            },
            Phase::AwaitingReply => match event {
                Event::Heard(Ok(Inbound::Response(a))) => {
                    self.starting = false;
                    Output { action: Action::Listen, report: Some(Report::Local(a)) }
                },
                Event::Heard(Ok(Inbound::Payload { sender, bytes, why })) => self.fail(why),
                Event::Heard(Err(f)) => self.fail(f),
                _ => self.refuse(Phase::AwaitingReply),
            },
            Phase::Connecting => match event {
                Event::Connected(Ok(_)) => {
                    self.phase = Phase::Allocating;
                    let handle = self.following_handle();
                    Output { action: Action::Allocate { handle }, report: None }
                },
                Event::Connected(Err(e)) => self.fail(Failure::ConnectFailed(e)),
                _ => self.refuse(Phase::Connecting),
            },
            Phase::Allocating => match event {
                Event::Allocated(Ok(local)) => {
                    let told = local.duplicate();
                    let handle = self.following_handle();
                    self.transport = Transport { handle, kind: TransportKind::Relay, local };
                    let report = if self.starting {
                        Report::Local(told)
                    } else {
                        Report::Switched(told)
                    };
                    self.starting = false;
                    Output { action: Action::Listen, report: Some(report) }
                },
                Event::Allocated(Err(e)) => self.fail(Failure::AllocateFailed(e)),
                _ => self.refuse(Phase::Allocating),
            },
        }
    }

    /// The handle for the transport that comes after the one in use.
    fn following_handle(&self) -> (handle: u64)
        ensures
            handle == next_handle(self.transport.handle),
            handle != self.transport.handle,
    {
        if self.transport.handle == u64::MAX {
            0
        } else {
            self.transport.handle + 1
        }
    }

    /// Reports the failure `f` of the operation under way and drops the
    /// operation.
    fn fail(&mut self, f: Failure) -> (out: Output)
        ensures
            (final(self)@, out@) == failed(old(self)@, f),
    {
        self.phase = Phase::Idle;
        self.starting = false;
        Output { action: Action::Listen, report: Some(Report::Failed(f)) }
    }

    /// Puts `phase` back and reports an event that came out of turn.
    fn refuse(&mut self, phase: Phase) -> (out: Output)
        ensures
            (final(self)@, out@) == out_of_turn(SessionView { phase: phase@, ..old(self)@ }),
    {
        let action = match &phase {
            Phase::Idle => Action::Listen,
            Phase::AwaitingReply => Action::Receive,
            _ => Action::Await,
        };
        self.phase = phase;
        Output { action, report: Some(Report::Failed(Failure::OutOfTurn)) }
    }
}

} // verus!
