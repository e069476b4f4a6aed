//! The connection lifecycle as a state machine.
//!
//! The program around the library performs one [`Command`] at a time and reports what
//! came of it as an [`Event`]; [`Session::step`] decides what follows. The machine itself
//! does no I/O, so every rule of the lifecycle is a statement about [`next`],
//! [`command_of`] and [`delivery`].

use vstd::prelude::*;
use crate::error::ConfigError;
use crate::poll_error::PollFailure;
use crate::qos::{planned, subscription_plan, subscription_views, QosLevel, Subscription};

verus! {

/// Reconnect attempts made after a connection loss before the session gives up.
pub const MAX_RECONNECT_ATTEMPTS: u32 = 12;

/// Seconds slept before each reconnect attempt.
pub const RECONNECT_DELAY_SECS: u64 = 5;

/// Seconds slept after a failed poll that did not lose the connection.
pub const POLL_RETRY_DELAY_SECS: u64 = 1;

/// Connectivity as the outside sees it.
#[derive(Clone, Copy, Debug, PartialEq, Eq, Structural)]
pub enum ConnState {
    Disconnected,
    Connecting,
    Connected,
    ShuttingDown,
}

/// Where in the lifecycle a session stands.
#[derive(Clone, Copy, Debug, PartialEq, Eq, Structural)]
pub enum Phase {
    /// Not started yet.
    Idle,
    /// The transport is being opened.
    Connecting,
    /// Connected; the subscriptions are being issued.
    Subscribing,
    /// Connected and subscribed; events are being polled.
    Listening,
    /// Connected; pausing after a failed poll.
    Pausing,
    /// The connection is lost; waiting before the next reconnect attempt.
    Backoff,
    /// Shutting down; asking whether the connection is still open.
    Closing,
    /// Shutting down; unsubscribing and disconnecting.
    Cleaning,
    /// Shut down; only the exit is left.
    Done,
}

impl Phase {
    /// The connectivity state that this phase belongs to.
    pub open spec fn state(self) -> ConnState {
        match self {
            Phase::Idle | Phase::Backoff => ConnState::Disconnected,
            Phase::Connecting => ConnState::Connecting,
            Phase::Subscribing | Phase::Listening | Phase::Pausing => ConnState::Connected,
            Phase::Closing | Phase::Cleaning | Phase::Done => ConnState::ShuttingDown,
        }
    }

    /// The connectivity state that this phase belongs to.
    pub fn conn_state(self) -> (r: ConnState)
        ensures
            r == self.state(),
    {
        match self {
            Phase::Idle | Phase::Backoff => ConnState::Disconnected,
            Phase::Connecting => ConnState::Connecting,
            Phase::Subscribing | Phase::Listening | Phase::Pausing => ConnState::Connected,
            Phase::Closing | Phase::Cleaning | Phase::Done => ConnState::ShuttingDown,
        }
    }
}

/// How the process ends.
#[derive(Clone, Copy, Debug, PartialEq, Eq, Structural)]
pub enum ExitStatus {
    /// The disconnect was acknowledged.
    Clean,
    /// The first connection or a subscription failed.
    Fatal,
    /// Every reconnect attempt after a connection loss failed.
    ReconnectExhausted,
}

impl ExitStatus {
    /// The process exit code: zero for a clean end only.
    pub open spec fn number(self) -> int {
        match self {
            ExitStatus::Clean => 0,
            ExitStatus::Fatal => 1,
            ExitStatus::ReconnectExhausted => 2,
        }
    }

    /// The process exit code.
    pub fn code(self) -> (r: i32)
        ensures
            r == self.number(),
    {
        match self {
            ExitStatus::Clean => 0,
            ExitStatus::Fatal => 1,
            ExitStatus::ReconnectExhausted => 2,
        }
    }
}

/// An application message as the broker sent it.
#[derive(Clone, Debug, PartialEq, Eq)]
pub struct Message {
    pub topic: String,
    pub payload: Vec<u8>,
    pub qos: QosLevel,
}

/// A [`Message`] as mathematical values.
pub struct MessageView {
    pub topic: Seq<char>,
    pub payload: Seq<u8>,
    pub qos: QosLevel,
}

impl View for Message {
    type V = MessageView;

    open spec fn view(&self) -> MessageView {
        MessageView { topic: self.topic@, payload: self.payload@, qos: self.qos }
    }
}

/// What the program reports back after performing a command.
#[derive(Debug, PartialEq, Eq)]
pub enum Event {
    /// The program is ready to begin.
    Start,
    /// The transport was opened.
    ConnectOk,
    /// The transport could not be opened.
    ConnectFailed,
    /// Every requested subscription was accepted.
    SubscribeOk,
    /// A subscription was refused.
    SubscribeFailed,
    /// The poll brought an application message.
    Incoming(Message),
    /// The poll brought the broker's connection acknowledgement.
    ConnAck,
    /// The poll brought the acknowledgement of an outgoing disconnect.
    OutgoingDisconnect,
    /// The poll reported that the transport was disconnected.
    Disconnected,
    /// The poll failed.
    PollFailed(PollFailure),
    /// The poll brought something that needs no action.
    Other,
    /// The sleep is over.
    Woke,
    /// Whether the connection is reported open.
    ConnectionReport { open: bool },
    /// Unsubscribing and disconnecting are over, whether or not they succeeded.
    CleanupDone,
}

/// An [`Event`] as mathematical values.
pub enum EventView {
    Start,
    ConnectOk,
    ConnectFailed,
    SubscribeOk,
    SubscribeFailed,
    Incoming(MessageView),
    ConnAck,
    OutgoingDisconnect,
    Disconnected,
    PollFailed(PollFailure),
    Other,
    Woke,
    ConnectionReport { open: bool },
    CleanupDone,
}

impl View for Event {
    type V = EventView;

    open spec fn view(&self) -> EventView {
        match self {
            Event::Start => EventView::Start,
            Event::ConnectOk => EventView::ConnectOk,
            Event::ConnectFailed => EventView::ConnectFailed,
            Event::SubscribeOk => EventView::SubscribeOk,
            Event::SubscribeFailed => EventView::SubscribeFailed,
            Event::Incoming(m) => EventView::Incoming(m@),
            Event::ConnAck => EventView::ConnAck,
            Event::OutgoingDisconnect => EventView::OutgoingDisconnect,
            Event::Disconnected => EventView::Disconnected,
            Event::PollFailed(kind) => EventView::PollFailed(*kind),
            Event::Other => EventView::Other,
            Event::Woke => EventView::Woke,
            Event::ConnectionReport { open } => EventView::ConnectionReport { open: *open },
            Event::CleanupDone => EventView::CleanupDone,
        }
    }
}

impl EventView {
    /// The event reports that the connection is gone.
    pub open spec fn loses_connection(self) -> bool {
        self == EventView::Disconnected || self == EventView::PollFailed(
            PollFailure::ConnectionLost,
        )
    }
}

/// What the program is to do next.
#[derive(Debug, PartialEq, Eq)]
pub enum Command {
    /// Report [`Event::Start`].
    Start,
    /// Open the transport; report [`Event::ConnectOk`] or [`Event::ConnectFailed`].
    Connect,
    /// Subscribe to each of these in order; report [`Event::SubscribeOk`], or
    /// [`Event::SubscribeFailed`] at the first refusal.
    Subscribe(Vec<Subscription>),
    /// Wait for the next transport event and report it.
    Poll,
    /// Sleep for so many seconds; report [`Event::Woke`].
    Sleep { seconds: u64 },
    /// Report whether the connection is open, as [`Event::ConnectionReport`].
    ReportConnection,
    /// Unsubscribe from these topics and disconnect; report [`Event::CleanupDone`].
    Cleanup { topics: Vec<String> },
    /// End the process.
    Exit(ExitStatus),
}

/// A [`Command`] as mathematical values.
pub enum CommandView {
    Start,
    Connect,
    Subscribe(Seq<(Seq<char>, QosLevel)>),
    Poll,
    Sleep { seconds: u64 },
    ReportConnection,
    Cleanup { topics: Seq<Seq<char>> },
    Exit(ExitStatus),
}

impl View for Command {
    type V = CommandView;

    open spec fn view(&self) -> CommandView {
        match self {
            Command::Start => CommandView::Start,
            Command::Connect => CommandView::Connect,
            Command::Subscribe(subs) => CommandView::Subscribe(subscription_views(subs@)),
            Command::Poll => CommandView::Poll,
            Command::Sleep { seconds } => CommandView::Sleep { seconds: *seconds },
            Command::ReportConnection => CommandView::ReportConnection,
            Command::Cleanup { topics } => CommandView::Cleanup { topics: topics.deep_view() },
            Command::Exit(status) => CommandView::Exit(*status),
        }
    }
}

/// A session as mathematical values.
#[verifier::ext_equal]
pub struct SessionView {
    /// The configured topic filters.
    pub topics: Seq<Seq<char>>,
    /// The configured QoS requests.
    pub qos: Seq<i32>,
    pub phase: Phase,
    /// A connection has been established at least once.
    pub established: bool,
    /// Reconnect attempts made since the connection was lost.
    pub attempts: nat,
    /// The subscriptions that are active on the broker.
    pub subscriptions: Seq<(Seq<char>, QosLevel)>,
    /// How the process is to end, once the session shuts down.
    pub status: ExitStatus,
}

impl SessionView {
    /// The subscriptions that the configuration asks for: every topic with its
    /// normalised guarantee, worked out anew from the same snapshot each time.
    pub open spec fn plan(self) -> Seq<(Seq<char>, QosLevel)> {
        planned(self.topics, self.qos)->Ok_0
    }

    /// What holds of every session that [`Session::new`] made and [`next`] moved on.
    pub open spec fn wf(self) -> bool {
        &&& planned(self.topics, self.qos) is Ok
        &&& self.attempts <= MAX_RECONNECT_ATTEMPTS
        &&& match self.phase {
            Phase::Idle => !self.established && self.attempts == 0,
            Phase::Connecting => !self.established ==> self.attempts == 0,
            Phase::Subscribing => self.established && self.attempts == 0,
            Phase::Listening | Phase::Pausing => self.established && self.attempts == 0
                && self.subscriptions == self.plan(),
            Phase::Backoff => self.established && self.attempts < MAX_RECONNECT_ATTEMPTS,
            Phase::Closing | Phase::Cleaning | Phase::Done => true,
        }
    }
}

/// The session before anything has happened.
pub open spec fn initial(topics: Seq<Seq<char>>, qos: Seq<i32>) -> SessionView {
    SessionView {
        topics,
        qos,
        phase: Phase::Idle,
        established: false,
        attempts: 0,
        subscriptions: Seq::empty(),
        status: ExitStatus::Clean,
    }
}

/// The session after `e` is reported in state `s`. An event that does not answer the
/// command in force changes nothing.
pub open spec fn next(s: SessionView, e: EventView) -> SessionView {
    match s.phase {
        Phase::Idle => if e == EventView::Start {
            SessionView { phase: Phase::Connecting, ..s }
        } else {
            s
        },
        Phase::Connecting => if e == EventView::ConnectOk {
            SessionView { phase: Phase::Subscribing, established: true, attempts: 0, ..s }
        } else if e == EventView::ConnectFailed {
            if !s.established {
                SessionView { phase: Phase::Done, status: ExitStatus::Fatal, ..s }
            } else if s.attempts < MAX_RECONNECT_ATTEMPTS {
                SessionView { phase: Phase::Backoff, ..s }
            } else {
                SessionView { phase: Phase::Closing, status: ExitStatus::ReconnectExhausted, ..s }
            }
        } else {
            s
        },
        Phase::Subscribing => if e == EventView::SubscribeOk {
            SessionView { phase: Phase::Listening, subscriptions: s.plan(), ..s }
        } else if e == EventView::SubscribeFailed {
            SessionView { phase: Phase::Done, status: ExitStatus::Fatal, ..s }
        } else {
            s
        },
        Phase::Listening => if e.loses_connection() {
            SessionView { phase: Phase::Backoff, attempts: 0, subscriptions: Seq::empty(), ..s }
        } else if e == EventView::PollFailed(PollFailure::Other) {
            SessionView { phase: Phase::Pausing, ..s }
        } else if e == EventView::OutgoingDisconnect {
            SessionView { phase: Phase::Closing, status: ExitStatus::Clean, ..s }
        } else if e == EventView::ConnAck {
            SessionView { attempts: 0, ..s }
        } else {
            s
        },
        Phase::Pausing => if e == EventView::Woke {
            SessionView { phase: Phase::Listening, ..s }
        } else {
            s
        },
        Phase::Backoff => if e == EventView::Woke {
            SessionView { phase: Phase::Connecting, attempts: s.attempts + 1, ..s }
        } else {
            s
        },
        Phase::Closing => match e {
            EventView::ConnectionReport { open } => if open {
                SessionView { phase: Phase::Cleaning, ..s }
            } else {
                SessionView { phase: Phase::Done, ..s }
            },
            _ => s,
        },
        Phase::Cleaning => if e == EventView::CleanupDone {
            SessionView { phase: Phase::Done, ..s }
        } else {
            s
        },
        Phase::Done => s,
    }
}

/// The command in force in state `s`.
pub open spec fn command_of(s: SessionView) -> CommandView {
    match s.phase {
        Phase::Idle => CommandView::Start,
        Phase::Connecting => CommandView::Connect,
        Phase::Subscribing => CommandView::Subscribe(s.plan()),
        Phase::Listening => CommandView::Poll,
        Phase::Pausing => CommandView::Sleep { seconds: POLL_RETRY_DELAY_SECS },
        Phase::Backoff => CommandView::Sleep { seconds: RECONNECT_DELAY_SECS },
        Phase::Closing => CommandView::ReportConnection,
        Phase::Cleaning => CommandView::Cleanup { topics: s.topics },
        Phase::Done => CommandView::Exit(s.status),
    }
}

/// The message that reporting `e` in state `s` hands to the program's output: the one
/// that a poll brought while listening, and no other.
pub open spec fn delivery(s: SessionView, e: EventView) -> Option<MessageView> {
    match e {
        EventView::Incoming(m) => if s.phase == Phase::Listening {
            Some(m)
        } else {
            None
        },
        _ => None,
    }
}

/// What one step decides.
#[derive(Debug, PartialEq, Eq)]
pub struct Step {
    /// The message to hand to the program's output, unchanged, if the event brought one.
    pub delivered: Option<Message>,
    /// What the program is to do next.
    pub command: Command,
}

/// A [`Step`] as mathematical values.
pub struct StepView {
    pub delivered: Option<MessageView>,
    pub command: CommandView,
}

impl View for Step {
    type V = StepView;

    open spec fn view(&self) -> StepView {
        StepView {
            delivered: match self.delivered {
                Some(m) => Some(m@),
                None => None,
            },
            command: self.command@,
        }
    }
}

/// One subscriber's connection, from start to exit.
pub struct Session {
    topics: Vec<String>,
    qos: Vec<i32>,
    phase: Phase,
    established: bool,
    attempts: u32,
    subscriptions: Vec<Subscription>,
    status: ExitStatus,
}

impl View for Session {
    type V = SessionView;

    closed spec fn view(&self) -> SessionView {
        SessionView {
            topics: self.topics.deep_view(),
            qos: self.qos@,
            phase: self.phase,
            established: self.established,
            attempts: self.attempts as nat,
            subscriptions: subscription_views(self.subscriptions@),
            status: self.status,
        }
    }
}

/// A copy of `topics`.
fn copy_topics(topics: &Vec<String>) -> (r: Vec<String>)
    ensures
        r.deep_view() == topics.deep_view(),
{
    let mut copy: Vec<String> = Vec::new();
    let mut i: usize = 0;
    while i < topics.len()
        invariant
            i <= topics@.len(),
            copy@.len() == i,
            forall|k: int| 0 <= k < i ==> copy@[k]@ == topics@[k]@,
        decreases topics@.len() - i,
    {
        copy.push(topics[i].clone());
        i += 1;
    }
    assert(copy.deep_view() =~= topics.deep_view());
    copy
}

impl Session {
    #[verifier::type_invariant]
    spec fn well_formed(&self) -> bool {
        self@.wf()
    }

    /// A session for these topics and QoS requests, not yet started. An invalid request
    /// among those that the topics use is refused here, before anything is connected.
    pub fn new(topics: Vec<String>, qos: Vec<i32>) -> (r: Result<Session, ConfigError>)
        ensures
            match r {
                Ok(session) => planned(topics.deep_view(), qos@) is Ok && session@ == initial(
                    topics.deep_view(),
                    qos@,
                ),
                Err(e) => planned(topics.deep_view(), qos@) == Err::<
                    Seq<(Seq<char>, QosLevel)>,
                    ConfigError,
                >(e),
            },
    {
        match subscription_plan(topics.as_slice(), qos.as_slice()) {
            Ok(_) => {
                let session = Session {
                    topics,
                    qos,
                    phase: Phase::Idle,
                    established: false,
                    attempts: 0,
                    subscriptions: Vec::new(),
                    status: ExitStatus::Clean,
                };
                assert(session@ =~= initial(topics.deep_view(), qos@));
                Ok(session)
            },
            Err(e) => Err(e),
        }
    }

    /// Where in the lifecycle the session stands.
    pub fn phase(&self) -> (r: Phase)
        ensures
            r == self@.phase,
            self@.wf(),
    {
        proof {
            use_type_invariant(self);
        }
        self.phase
    }

    /// The connectivity state.
    pub fn state(&self) -> (r: ConnState)
        ensures
            r == self@.phase.state(),
    {
        self.phase.conn_state()
    }

    /// Reconnect attempts made since the connection was last lost.
    pub fn reconnect_attempts(&self) -> (r: u32)
        ensures
            r == self@.attempts,
    {
        self.attempts
    }

    /// The subscriptions that are active on the broker.
    pub fn subscriptions(&self) -> (r: &Vec<Subscription>)
        ensures
            subscription_views(r@) == self@.subscriptions,
    {
        &self.subscriptions
    }

    /// The subscriptions that the configuration asks for, worked out from the snapshot.
    fn plan(&self) -> (r: Vec<Subscription>)
        ensures
            subscription_views(r@) == self@.plan(),
    {
        proof {
            use_type_invariant(self);
        }
        match subscription_plan(self.topics.as_slice(), self.qos.as_slice()) {
            Ok(subs) => subs,
            Err(_) => Vec::new(),
        }
    }

    /// The command in force.
    pub fn command(&self) -> (r: Command)
        ensures
            r@ == command_of(self@),
    {
        match self.phase {
            Phase::Idle => Command::Start,
            Phase::Connecting => Command::Connect,
            Phase::Subscribing => Command::Subscribe(self.plan()),
            Phase::Listening => Command::Poll,
            Phase::Pausing => Command::Sleep { seconds: POLL_RETRY_DELAY_SECS },
            Phase::Backoff => Command::Sleep { seconds: RECONNECT_DELAY_SECS },
            Phase::Closing => Command::ReportConnection,
            Phase::Cleaning => Command::Cleanup { topics: copy_topics(&self.topics) },
            Phase::Done => Command::Exit(self.status),
        }
    }

    /// Takes in what the program reports and decides what it does next.
    ///
    /// The session moves as [`next`] says, the command returned is the one in force
    /// afterwards, and a message is handed out exactly where [`delivery`] says, as it came.
    pub fn step(&mut self, event: Event) -> (r: Step)
        ensures
            final(self)@ == next(old(self)@, event@),
            r@.delivered == delivery(old(self)@, event@),
            r@.command == command_of(final(self)@),
            old(self)@.wf() && final(self)@.wf(),
    {
        proof {
            use_type_invariant(&*self);
        }
        let mut delivered: Option<Message> = None;
        match self.phase {
            Phase::Idle => match event {
                Event::Start => {
                    self.phase = Phase::Connecting;
                },
                _ => {},
            },
            Phase::Connecting => match event {
                Event::ConnectOk => {
                    self.established = true;
                    self.attempts = 0;
                    self.phase = Phase::Subscribing;
                },
                Event::ConnectFailed => {
                    if !self.established {
                        self.status = ExitStatus::Fatal;
                        self.phase = Phase::Done;
                    } else if self.attempts < MAX_RECONNECT_ATTEMPTS {
                        self.phase = Phase::Backoff;
                    } else {
                        self.status = ExitStatus::ReconnectExhausted;
                        self.phase = Phase::Closing;
                    }
                },
                _ => {},
            },
            Phase::Subscribing => match event {
                Event::SubscribeOk => {
                    self.subscriptions = self.plan();
                    self.phase = Phase::Listening;
                },
                Event::SubscribeFailed => {
                    self.status = ExitStatus::Fatal;
                    self.phase = Phase::Done;
                },
                _ => {},
            },
            Phase::Listening => match event {
                Event::Incoming(message) => {
                    delivered = Some(message);
                },
                Event::Disconnected | Event::PollFailed(PollFailure::ConnectionLost) => {
                    self.phase = Phase::Backoff;
                    self.subscriptions = Vec::new();
                },
                Event::PollFailed(PollFailure::Other) => {
                    self.phase = Phase::Pausing;
                },
                Event::OutgoingDisconnect => {
                    self.status = ExitStatus::Clean;
                    self.phase = Phase::Closing;
                },
                _ => {},
            },
            Phase::Pausing => match event {
                Event::Woke => {
                    self.phase = Phase::Listening;
                },
                _ => {},
            },
            Phase::Backoff => match event {
                Event::Woke => {
                    self.phase = Phase::Connecting;
                    self.attempts = self.attempts + 1;
                },
                _ => {},
            },
            Phase::Closing => match event {
                Event::ConnectionReport { open } => {
                    if open {
                        self.phase = Phase::Cleaning;
                    } else {
                        self.phase = Phase::Done;
                    }
                },
                _ => {},
            },
            Phase::Cleaning => match event {
                Event::CleanupDone => {
                    self.phase = Phase::Done;
                },
                _ => {},
            },
            Phase::Done => {},
        }
        assert(self@ =~= next(old(self)@, event@));
        let command = self.command();
        Step { delivered, command }
    }
}

} // verus!
