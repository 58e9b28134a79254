//! The session engine: one state machine per connection to a venue.
//!
//! The engine owns the connection's state and the set of subscribed topics. It performs
//! no I/O: the caller hands it one [`Event`] at a time, and carries out the [`Action`]
//! that the engine answers with. What the engine does is [`step`], a function of the
//! state and the event; [`Session::step`] computes it.

use vstd::prelude::*;
use crate::handler::{FrameClass, FrameClassModel};
use crate::kinds::{ConnectionState, MessageKind};
use crate::text::{contains_text, texts};

verus! {

/// One subscription: a channel kind and a symbol.
#[derive(Debug, Clone, PartialEq, Eq)]
pub struct Topic {
    pub kind: MessageKind,
    pub symbol: String,
}

pub struct TopicModel {
    pub kind: MessageKind,
    pub symbol: Seq<char>,
}

impl View for Topic {
    type V = TopicModel;

    open spec fn view(&self) -> TopicModel {
        TopicModel { kind: self.kind, symbol: self.symbol@ }
    }
}

/// The models of a list of topics.
pub open spec fn topic_models(topics: Seq<Topic>) -> Seq<TopicModel> {
    topics.map_values(|t: Topic| t@)
}

/// What can happen to a session.
#[derive(Debug, Clone, PartialEq, Eq)]
pub enum Event {
    /// The caller starts the session.
    Run,
    /// The transport is open.
    Connected,
    /// The transport could not be opened.
    ConnectFailed,
    /// A frame arrived, with its class and with whether the venue signals by it that
    /// the session cannot go on.
    Frame { text: String, class: FrameClass, reconnect: bool },
    /// The transport failed.
    TransportError,
    /// The heartbeat timer fired.
    HeartbeatDue,
    /// No frame arrived before the liveness deadline.
    LivenessExpired,
    /// The wait after a failure is over.
    BackoffElapsed,
    Subscribe { kind: MessageKind, symbols: Vec<String> },
    Unsubscribe { kind: MessageKind, symbols: Vec<String> },
    /// The caller closes the session.
    Close,
    /// The transport has completed its close.
    TransportClosed,
    /// Nobody reads what the session forwards.
    DownstreamClosed,
}

pub enum EventModel {
    Run,
    Connected,
    ConnectFailed,
    Frame { text: Seq<char>, class: FrameClassModel, reconnect: bool },
    TransportError,
    HeartbeatDue,
    LivenessExpired,
    BackoffElapsed,
    Subscribe { kind: MessageKind, symbols: Seq<Seq<char>> },
    Unsubscribe { kind: MessageKind, symbols: Seq<Seq<char>> },
    Close,
    TransportClosed,
    DownstreamClosed,
}

impl View for Event {
    type V = EventModel;

    open spec fn view(&self) -> EventModel {
        match self {
            Event::Run => EventModel::Run,
            Event::Connected => EventModel::Connected,
            Event::ConnectFailed => EventModel::ConnectFailed,
            Event::Frame { text, class, reconnect } => EventModel::Frame {
                text: text@,
                class: class@,
                reconnect: *reconnect,
            },
            Event::TransportError => EventModel::TransportError,
            Event::HeartbeatDue => EventModel::HeartbeatDue,
            Event::LivenessExpired => EventModel::LivenessExpired,
            Event::BackoffElapsed => EventModel::BackoffElapsed,
            Event::Subscribe { kind, symbols } => EventModel::Subscribe {
                kind: *kind,
                symbols: texts(symbols@),
            },
            Event::Unsubscribe { kind, symbols } => EventModel::Unsubscribe {
                kind: *kind,
                symbols: texts(symbols@),
            },
            Event::Close => EventModel::Close,
            Event::TransportClosed => EventModel::TransportClosed,
            Event::DownstreamClosed => EventModel::DownstreamClosed,
        }
    }
}

/// What the caller is to do after an event.
#[derive(Debug, Clone, PartialEq, Eq)]
pub enum Action {
    /// Nothing.
    Idle,
    /// Open the transport, and report `Connected` or `ConnectFailed`.
    Connect,
    /// The transport is open: subscribe to every topic of the list, through the rate
    /// limiter, before anything is read.
    Replay(Vec<Topic>),
    /// Send the venue's command for these symbols, through the rate limiter.
    Send { subscribe: bool, kind: MessageKind, symbols: Vec<String> },
    /// Hand the frame's text downstream, unchanged; wait while downstream is full.
    Forward(String),
    /// The venue is alive: move the liveness deadline.
    KeepAlive,
    /// Send the venue's heartbeat, if it has one.
    Ping,
    /// Report the venue's error beside the data.
    Report { code: i64, reason: String },
    /// Close the transport, wait for the delay of this attempt, and report
    /// `BackoffElapsed`.
    Backoff { attempt: u32 },
    /// Send a close frame, and report `TransportClosed`.
    SendClose,
    /// The session has ended.
    Exit,
}

pub enum ActionModel {
    Idle,
    Connect,
    Replay(Seq<TopicModel>),
    Send { subscribe: bool, kind: MessageKind, symbols: Seq<Seq<char>> },
    Forward(Seq<char>),
    KeepAlive,
    Ping,
    Report { code: i64, reason: Seq<char> },
    Backoff { attempt: u32 },
    SendClose,
    Exit,
}

impl View for Action {
    type V = ActionModel;

    open spec fn view(&self) -> ActionModel {
        match self {
            Action::Idle => ActionModel::Idle,
            Action::Connect => ActionModel::Connect,
            Action::Replay(topics) => ActionModel::Replay(topic_models(topics@)),
            Action::Send { subscribe, kind, symbols } => ActionModel::Send {
                subscribe: *subscribe,
                kind: *kind,
                symbols: texts(symbols@),
            },
            Action::Forward(text) => ActionModel::Forward(text@),
            Action::KeepAlive => ActionModel::KeepAlive,
            Action::Ping => ActionModel::Ping,
            Action::Report { code, reason } => ActionModel::Report {
                code: *code,
                reason: reason@,
            },
            Action::Backoff { attempt } => ActionModel::Backoff { attempt: *attempt },
            Action::SendClose => ActionModel::SendClose,
            Action::Exit => ActionModel::Exit,
        }
    }
}

/// A session as the contracts see it.
pub struct SessionModel {
    pub state: ConnectionState,
    /// The session was closed, and stays so.
    pub closed: bool,
    /// The subscribed topics, each once, in the order in which they were first asked
    /// for.
    pub topics: Seq<TopicModel>,
    /// How many connections in a row have failed: the backoff's exponent.
    pub attempt: u32,
    /// How many times the session has gone back to connecting after a failure.
    pub reconnects: u64,
}

impl SessionModel {
    /// A session before it is run: disconnected, with nothing subscribed.
    pub open spec fn initial() -> SessionModel {
        SessionModel {
            state: ConnectionState::Disconnected,
            closed: false,
            topics: Seq::empty(),
            attempt: 0,
            reconnects: 0,
        }
    }

    /// What holds of every session: no topic is subscribed twice; a closed session
    /// holds no topic and is closing or disconnected; only a closed session is closing.
    pub open spec fn wf(self) -> bool {
        &&& self.topics.no_duplicates()
        &&& self.closed ==> self.topics.len() == 0
        &&& self.closed ==> (self.state == ConnectionState::Closing || self.state
            == ConnectionState::Disconnected)
        &&& self.state == ConnectionState::Closing ==> self.closed
    }
}

/// `topics`, and after them each of `symbols` under `kind` that is not there yet.
pub open spec fn added(topics: Seq<TopicModel>, kind: MessageKind, symbols: Seq<Seq<char>>) -> Seq<
    TopicModel,
>
    decreases symbols.len(),
{
    if symbols.len() == 0 {
        topics
    } else {
        let before = added(topics, kind, symbols.drop_last());
        let topic = TopicModel { kind, symbol: symbols.last() };
        if before.contains(topic) {
            before
        } else {
            before.push(topic)
        }
    }
}

/// Whether a topic stays when `symbols` are unsubscribed from `kind`.
pub open spec fn stays(kind: MessageKind, symbols: Seq<Seq<char>>) -> spec_fn(TopicModel) -> bool {
    |t: TopicModel| !(t.kind == kind && symbols.contains(t.symbol))
}

/// `topics` without those of `kind` whose symbol is among `symbols`.
pub open spec fn removed(topics: Seq<TopicModel>, kind: MessageKind, symbols: Seq<Seq<char>>) -> Seq<
    TopicModel,
> {
    topics.filter(stays(kind, symbols))
}

/// One more, up to the largest value.
pub open spec fn bump32(n: u32) -> u32 {
    if n < u32::MAX {
        (n + 1) as u32
    } else {
        n
    }
}

/// One more, up to the largest value.
pub open spec fn bump64(n: u64) -> u64 {
    if n < u64::MAX {
        (n + 1) as u64
    } else {
        n
    }
}

/// The connection is lost or was not made: wait, then connect again.
pub open spec fn failed(s: SessionModel) -> (SessionModel, ActionModel) {
    (
        SessionModel { state: ConnectionState::Failed, attempt: bump32(s.attempt), ..s },
        ActionModel::Backoff { attempt: s.attempt },
    )
}

/// What a frame does to an open session.
pub open spec fn on_frame(s: SessionModel, text: Seq<char>, class: FrameClassModel, reconnect: bool) -> (
    SessionModel,
    ActionModel,
) {
    match class {
        FrameClassModel::Data => (s, ActionModel::Forward(text)),
        FrameClassModel::Pong => (s, ActionModel::KeepAlive),
        FrameClassModel::Ack(_) => (s, ActionModel::Idle),
        FrameClassModel::Misc => (s, ActionModel::Idle),
        FrameClassModel::Error(code, reason) => if reconnect {
            failed(s)
        } else {
            (s, ActionModel::Report { code, reason })
        },
    }
}

/// What an event other than a subscription or a close does to a session that is not
/// closed.
pub open spec fn on_event(s: SessionModel, e: EventModel) -> (SessionModel, ActionModel) {
    match s.state {
        ConnectionState::Disconnected => match e {
            EventModel::Run => (
                SessionModel { state: ConnectionState::Connecting, ..s },
                ActionModel::Connect,
            ),
            _ => (s, ActionModel::Idle),
        },
        ConnectionState::Connecting => match e {
            EventModel::Connected => (
                SessionModel { state: ConnectionState::Open, attempt: 0, ..s },
                ActionModel::Replay(s.topics),
            ),
            EventModel::ConnectFailed => failed(s),
            _ => (s, ActionModel::Idle),
        },
        ConnectionState::Open => match e {
            EventModel::Frame { text, class, reconnect } => on_frame(s, text, class, reconnect),
            EventModel::TransportError => failed(s),
            EventModel::LivenessExpired => failed(s),
            EventModel::HeartbeatDue => (s, ActionModel::Ping),
            _ => (s, ActionModel::Idle),
        },
        ConnectionState::Failed => match e {
            EventModel::BackoffElapsed => (
                SessionModel {
                    state: ConnectionState::Connecting,
                    reconnects: bump64(s.reconnects),
                    ..s
                },
                ActionModel::Connect,
            ),
            _ => (s, ActionModel::Idle),
        },
        ConnectionState::Closing => (s, ActionModel::Idle),
    }
}

/// What closing does to a session that is not closed: an open one sends its close frame
/// and waits for the transport, any other ends at once. The topics go with it.
pub open spec fn on_close(s: SessionModel) -> (SessionModel, ActionModel) {
    if s.state == ConnectionState::Open {
        (
            SessionModel {
                state: ConnectionState::Closing,
                closed: true,
                topics: Seq::empty(),
                ..s
            },
            ActionModel::SendClose,
        )
    } else {
        (
            SessionModel {
                state: ConnectionState::Disconnected,
                closed: true,
                topics: Seq::empty(),
                ..s
            },
            ActionModel::Exit,
        )
    }
}

/// The session after an event, and what the caller is to do.
///
/// A closed session answers nothing but the end of its transport. Subscriptions change
/// the topics in every state, and are sent at once only while the connection is open;
/// when a connection opens, all topics are replayed.
pub open spec fn step(s: SessionModel, e: EventModel) -> (SessionModel, ActionModel) {
    if s.closed {
        if s.state == ConnectionState::Closing && (e is TransportClosed || e is TransportError) {
            (SessionModel { state: ConnectionState::Disconnected, ..s }, ActionModel::Exit)
        } else {
            (s, ActionModel::Idle)
        }
    } else {
        match e {
            EventModel::Subscribe { kind, symbols } => (
                SessionModel { topics: added(s.topics, kind, symbols), ..s },
                if s.state == ConnectionState::Open {
                    ActionModel::Send { subscribe: true, kind, symbols }
                } else {
                    ActionModel::Idle
                },
            ),
            EventModel::Unsubscribe { kind, symbols } => (
                SessionModel { topics: removed(s.topics, kind, symbols), ..s },
                if s.state == ConnectionState::Open {
                    ActionModel::Send { subscribe: false, kind, symbols }
                } else {
                    ActionModel::Idle
                },
            ),
            EventModel::Close => on_close(s),
            EventModel::DownstreamClosed => on_close(s),
            _ => on_event(s, e),
        }
    }
}

/// Whether `topics` holds the topic of `kind` and `symbol`.
fn has_topic(topics: &Vec<Topic>, kind: MessageKind, symbol: &String) -> (found: bool)
    ensures
        found == topic_models(topics@).contains(TopicModel { kind, symbol: symbol@ }),
{
    let mut i: usize = 0;
    while i < topics.len()
        invariant
            i <= topics.len(),
            forall|j: int|
                0 <= j < i ==> topic_models(topics@)[j] != (TopicModel { kind, symbol: symbol@ }),
        decreases topics.len() - i,
    {
        if topics[i].kind == kind && topics[i].symbol == *symbol {
            assert(topic_models(topics@)[i as int] == (TopicModel { kind, symbol: symbol@ }));
            return true;
        }
        i += 1;
    }
    false
}

/// Adds to `topics` each of `symbols` under `kind` that is not there yet.
fn add_topics(topics: &mut Vec<Topic>, kind: MessageKind, symbols: &Vec<String>)
    ensures
        topic_models(final(topics)@) == added(topic_models(old(topics)@), kind, texts(symbols@)),
{
    let ghost before = topic_models(topics@);
    let mut i: usize = 0;
    while i < symbols.len()
        invariant
            i <= symbols.len(),
            topic_models(topics@) == added(before, kind, texts(symbols@).take(i as int)),
        decreases symbols.len() - i,
    {
        let ghost prev = topics@;
        assert(texts(symbols@).take(i + 1).drop_last() =~= texts(symbols@).take(i as int));
        assert(texts(symbols@).take(i + 1).last() == symbols@[i as int]@);
        if !has_topic(topics, kind, &symbols[i]) {
            let topic = Topic { kind, symbol: symbols[i].clone() };
            topics.push(topic);
            assert(topic_models(topics@) =~= topic_models(prev).push(topic@));
        }
        i += 1;
    }
    assert(texts(symbols@).take(symbols.len() as int) =~= texts(symbols@));
}

/// The topics of `topics` that stay when `symbols` are unsubscribed from `kind`.
fn remove_topics(topics: &Vec<Topic>, kind: MessageKind, symbols: &Vec<String>) -> (kept: Vec<Topic>)
    ensures
        topic_models(kept@) == removed(topic_models(topics@), kind, texts(symbols@)),
{
    let mut kept: Vec<Topic> = Vec::new();
    let ghost all = topic_models(topics@);
    let ghost pred = stays(kind, texts(symbols@));
    let mut i: usize = 0;
    assert(all.take(0) =~= Seq::<TopicModel>::empty());
    while i < topics.len()
        invariant
            i <= topics.len(),
            all == topic_models(topics@),
            pred == stays(kind, texts(symbols@)),
            topic_models(kept@) == all.take(i as int).filter(pred),
        decreases topics.len() - i,
    {
        let ghost prev = kept@;
        proof {
            assert(all.take(i + 1) =~= all.take(i as int).push(all[i as int]));
            all.take(i as int).lemma_filter_push(all[i as int], pred);
            assert(all[i as int] == topics@[i as int]@);
        }
        let gone = topics[i].kind == kind && contains_text(symbols, &topics[i].symbol);
        if !gone {
            let topic = Topic { kind: topics[i].kind, symbol: topics[i].symbol.clone() };
            kept.push(topic);
            assert(topic_models(kept@) =~= topic_models(prev).push(topic@));
        }
        i += 1;
    }
    assert(all.take(topics.len() as int) =~= all);
    kept
}

/// A copy of a list of topics.
fn clone_topics(topics: &Vec<Topic>) -> (copy: Vec<Topic>)
    ensures
        topic_models(copy@) == topic_models(topics@),
{
    let mut copy: Vec<Topic> = Vec::new();
    let mut i: usize = 0;
    while i < topics.len()
        invariant
            i <= topics.len(),
            copy@.len() == i,
            topic_models(copy@) == topic_models(topics@).take(i as int),
        decreases topics.len() - i,
    {
        let ghost prev = copy@;
        let topic = Topic { kind: topics[i].kind, symbol: topics[i].symbol.clone() };
        copy.push(topic);
        assert forall|j: int| 0 <= j < i + 1 implies topic_models(copy@)[j] == topic_models(
            topics@,
        ).take(i + 1)[j] by {
            if j < i {
                assert(topic_models(prev)[j] == topic_models(topics@).take(i as int)[j]);
            }
        }
        assert(topic_models(copy@) =~= topic_models(topics@).take(i + 1));
        i += 1;
    }
    assert(topic_models(topics@).take(topics.len() as int) =~= topic_models(topics@));
    copy
}

/// The session engine of one connection.
pub struct Session {
    state: ConnectionState,
    closed: bool,
    topics: Vec<Topic>,
    attempt: u32,
    reconnects: u64,
}

impl View for Session {
    type V = SessionModel;

    closed spec fn view(&self) -> SessionModel {
        SessionModel {
            state: self.state,
            closed: self.closed,
            topics: topic_models(self.topics@),
            attempt: self.attempt,
            reconnects: self.reconnects,
        }
    }
}

impl Session {
    /// A session that has not been run.
    pub fn new() -> (session: Session)
        ensures
            session@ == SessionModel::initial(),
            session@.wf(),
    {
        let session = Session {
            state: ConnectionState::Disconnected,
            closed: false,
            topics: Vec::new(),
            attempt: 0,
            reconnects: 0,
        };
        assert(topic_models(session.topics@) =~= Seq::<TopicModel>::empty());
        session
    }

    pub fn state(&self) -> (state: ConnectionState)
        ensures
            state == self@.state,
    {
        self.state
    }

    pub fn is_closed(&self) -> (closed: bool)
        ensures
            closed == self@.closed,
    {
        self.closed
    }

    pub fn attempt(&self) -> (attempt: u32)
        ensures
            attempt == self@.attempt,
    {
        self.attempt
    }

    pub fn reconnects(&self) -> (reconnects: u64)
        ensures
            reconnects == self@.reconnects,
    {
        self.reconnects
    }

    /// The subscribed topics.
    pub fn topics(&self) -> (topics: Vec<Topic>)
        ensures
            topic_models(topics@) == self@.topics,
    {
        clone_topics(&self.topics)
    }

    fn fail(&mut self) -> (action: Action)
        ensures
            (final(self)@, action@) == failed(old(self)@),
    {
        let attempt = self.attempt;
        self.state = ConnectionState::Failed;
        if self.attempt < u32::MAX {
            self.attempt = self.attempt + 1;
        }
        Action::Backoff { attempt }
    }

    fn close(&mut self) -> (action: Action)
        ensures
            (final(self)@, action@) == on_close(old(self)@),
    {
        self.closed = true;
        self.topics = Vec::new();
        assert(topic_models(self.topics@) =~= Seq::<TopicModel>::empty());
        if self.state == ConnectionState::Open {
            self.state = ConnectionState::Closing;
            Action::SendClose
        } else {
            self.state = ConnectionState::Disconnected;
            Action::Exit
        }
    }

    /// Takes one event and answers with what the caller is to do.
    pub fn step(&mut self, event: Event) -> (action: Action)
        ensures
            (final(self)@, action@) == step(old(self)@, event@),
            old(self)@.wf() ==> final(self)@.wf(),
    {
        proof {
            if self@.wf() {
                lemma_step_keeps_wf(self@, event@);
            }
        }
        if self.closed {
            let ends = match event {
                Event::TransportClosed => true,
                Event::TransportError => true,
                _ => false,
            };
            if self.state == ConnectionState::Closing && ends {
                self.state = ConnectionState::Disconnected;
                return Action::Exit;
            }
            return Action::Idle;
        }
        match event {
            Event::Subscribe { kind, symbols } => {
                add_topics(&mut self.topics, kind, &symbols);
                if self.state == ConnectionState::Open {
                    Action::Send { subscribe: true, kind, symbols }
                } else {
                    Action::Idle
                }
            },
            Event::Unsubscribe { kind, symbols } => {
                self.topics = remove_topics(&self.topics, kind, &symbols);
                if self.state == ConnectionState::Open {
                    Action::Send { subscribe: false, kind, symbols }
                } else {
                    Action::Idle
                }
            },
            Event::Close => self.close(),
            Event::DownstreamClosed => self.close(),
            Event::Run => {
                if self.state == ConnectionState::Disconnected {
                    self.state = ConnectionState::Connecting;
                    Action::Connect
                } else {
                    Action::Idle
                }
            },
            Event::Connected => {
                if self.state == ConnectionState::Connecting {
                    self.state = ConnectionState::Open;
                    self.attempt = 0;
                    Action::Replay(clone_topics(&self.topics))
                } else {
                    Action::Idle
                }
            },
            Event::ConnectFailed => {
                if self.state == ConnectionState::Connecting {
                    self.fail()
                } else {
                    Action::Idle
                }
            },
            Event::Frame { text, class, reconnect } => {
                if self.state == ConnectionState::Open {
                    match class {
                        FrameClass::Data => Action::Forward(text),
                        FrameClass::Pong => Action::KeepAlive,
                        FrameClass::Ack(_) => Action::Idle,
                        FrameClass::Misc => Action::Idle,
                        FrameClass::Error(code, reason) => {
                            if reconnect {
                                self.fail()
                            } else {
                                Action::Report { code, reason }
                            }
                        },
                    }
                } else {
                    Action::Idle
                }
            },
            Event::TransportError => {
                if self.state == ConnectionState::Open {
                    self.fail()
                } else {
                    Action::Idle
                }
            },
            Event::LivenessExpired => {
                if self.state == ConnectionState::Open {
                    self.fail()
                } else {
                    Action::Idle
                }
            },
            Event::HeartbeatDue => {
                if self.state == ConnectionState::Open {
                    Action::Ping
                } else {
                    Action::Idle
                }
            },
            Event::BackoffElapsed => {
                if self.state == ConnectionState::Failed {
                    self.state = ConnectionState::Connecting;
                    if self.reconnects < u64::MAX {
                        self.reconnects = self.reconnects + 1;
                    }
                    Action::Connect
                } else {
                    Action::Idle
                }
            },
            Event::TransportClosed => Action::Idle,
        }
    }
}

/// Adding topics keeps each topic single.
pub proof fn lemma_added_no_duplicates(
    topics: Seq<TopicModel>,
    kind: MessageKind,
    symbols: Seq<Seq<char>>,
)
    requires
        topics.no_duplicates(),
    ensures
        added(topics, kind, symbols).no_duplicates(),
    decreases symbols.len(),
{
    if symbols.len() > 0 {
        lemma_added_no_duplicates(topics, kind, symbols.drop_last());
    }
}

/// Removing topics keeps each topic single.
pub proof fn lemma_filter_no_duplicates(topics: Seq<TopicModel>, pred: spec_fn(TopicModel) -> bool)
    requires
        topics.no_duplicates(),
    ensures
        topics.filter(pred).no_duplicates(),
    decreases topics.len(),
{
    if topics.len() > 0 {
        let front = topics.drop_last();
        lemma_filter_no_duplicates(front, pred);
        assert(topics =~= front.push(topics.last()));
        front.lemma_filter_push(topics.last(), pred);
        if pred(topics.last()) {
            let kept = front.filter(pred);
            assert forall|i: int| 0 <= i < kept.len() implies kept[i] != topics.last() by {
                if kept[i] == topics.last() {
                    assert(kept.contains(topics.last()));
                    front.lemma_filter_contains_rev(pred, topics.last());
                    let k = choose|k: int| 0 <= k < front.len() && front[k] == topics.last();
                    assert(topics[k] == topics[topics.len() - 1]);
                }
            }
        }
    }
}

/// Every step keeps a session well formed.
pub proof fn lemma_step_keeps_wf(s: SessionModel, e: EventModel)
    requires
        s.wf(),
    ensures
        step(s, e).0.wf(),
{
    match e {
        EventModel::Subscribe { kind, symbols } => {
            lemma_added_no_duplicates(s.topics, kind, symbols);
        },
        EventModel::Unsubscribe { kind, symbols } => {
            lemma_filter_no_duplicates(s.topics, stays(kind, symbols));
        },
        _ => {},
    }
}

} // verus!
