//! The adapter of Gate's spot market: a session, driven by events, whose answers are
//! put into the venue's frames.

use vstd::prelude::*;
use crate::handler::{classified, classify, reconnects, should_reconnect, GateFrame};
use crate::kinds::{ConnectionState, MessageKind};
use crate::replay::{law_replay_names_every_topic, replay_frames, replayed};
use crate::session::{
    added, removed, stays, step, Action, ActionModel, Event, EventModel, Session, SessionModel,
    TopicModel,
};
use crate::text::{clone_texts, same_text, texts};
use crate::translator::{
    channel, channel_of, command_text, json_array_text, translate, translate_ping, translated,
    TranslateError,
};
use crate::transport::{quota_of, UplinkQuota};

verus! {

/// What the caller of an adapter is to do.
#[derive(Debug, Clone, PartialEq, Eq)]
pub enum Effect {
    /// Nothing.
    Idle,
    /// Open the transport to this address, and report `Connected` or `ConnectFailed`.
    Connect(String),
    /// Send these frames, in their order, through the rate limiter.
    Send(Vec<String>),
    /// Hand the frame's text downstream, unchanged; wait while downstream is full.
    Forward(String),
    /// The venue is alive: move the liveness deadline.
    KeepAlive,
    /// Send this heartbeat, through the rate limiter.
    Ping(String),
    /// Report the venue's error beside the data.
    Report { code: i64, reason: String },
    /// Close the transport, wait for the delay of this attempt, and report
    /// `BackoffElapsed`.
    Backoff { attempt: u32 },
    /// Send a close frame, and report `TransportClosed`.
    SendClose,
    /// The session has ended.
    Exit,
    /// The request was not put into frames.
    Fault(TranslateError),
}

pub enum EffectModel {
    Idle,
    Connect(Seq<char>),
    Send(Seq<Seq<char>>),
    Forward(Seq<char>),
    KeepAlive,
    Ping(Seq<char>),
    Report { code: i64, reason: Seq<char> },
    Backoff { attempt: u32 },
    SendClose,
    Exit,
    Fault(TranslateError),
}

impl View for Effect {
    type V = EffectModel;

    open spec fn view(&self) -> EffectModel {
        match self {
            Effect::Idle => EffectModel::Idle,
            Effect::Connect(url) => EffectModel::Connect(url@),
            Effect::Send(frames) => EffectModel::Send(texts(frames@)),
            Effect::Forward(text) => EffectModel::Forward(text@),
            Effect::KeepAlive => EffectModel::KeepAlive,
            Effect::Ping(frame) => EffectModel::Ping(frame@),
            Effect::Report { code, reason } => EffectModel::Report {
                code: *code,
                reason: reason@,
            },
            Effect::Backoff { attempt } => EffectModel::Backoff { attempt: *attempt },
            Effect::SendClose => EffectModel::SendClose,
            Effect::Exit => EffectModel::Exit,
            Effect::Fault(e) => EffectModel::Fault(*e),
        }
    }
}

/// Whether the venue has a channel for each topic.
pub open spec fn supported(topics: Seq<TopicModel>) -> bool {
    forall|i: int| 0 <= i < topics.len() ==> channel_of((#[trigger] topics[i]).kind) is Some
}

/// An adapter as the contracts see it.
pub struct ClientModel {
    pub url: Seq<char>,
    pub session: SessionModel,
}

impl ClientModel {
    /// What holds of every adapter: its session is well formed, and the venue has a
    /// channel for each of its topics.
    pub open spec fn wf(self) -> bool {
        self.session.wf() && supported(self.session.topics)
    }
}

/// The frames of the session's commands, or the fault that kept them from being made.
pub open spec fn sent(frames: Result<Seq<Seq<char>>, TranslateError>) -> EffectModel {
    match frames {
        Ok(list) => EffectModel::Send(list),
        Err(e) => EffectModel::Fault(e),
    }
}

/// What an answer of the session is in the venue's terms.
pub open spec fn effect_of(action: ActionModel, url: Seq<char>) -> EffectModel {
    match action {
        ActionModel::Idle => EffectModel::Idle,
        ActionModel::Connect => EffectModel::Connect(url),
        ActionModel::Replay(topics) => sent(replayed(topics)),
        ActionModel::Send { subscribe, kind, symbols } => sent(translated(subscribe, kind, symbols)),
        ActionModel::Forward(text) => EffectModel::Forward(text),
        ActionModel::KeepAlive => EffectModel::KeepAlive,
        ActionModel::Ping => EffectModel::Ping("{\"channel\":\"spot.ping\"}"@),
        ActionModel::Report { code, reason } => EffectModel::Report { code, reason },
        ActionModel::Backoff { attempt } => EffectModel::Backoff { attempt },
        ActionModel::SendClose => EffectModel::SendClose,
        ActionModel::Exit => EffectModel::Exit,
    }
}

/// Whether an event asks for a channel that the venue does not have.
pub open spec fn asks_unsupported(e: EventModel) -> bool {
    match e {
        EventModel::Subscribe { kind, symbols } => channel_of(kind).is_none(),
        EventModel::Unsubscribe { kind, symbols } => channel_of(kind).is_none(),
        _ => false,
    }
}

/// The adapter after an event, and what the caller is to do. A subscription to a
/// channel that the venue does not have is refused and changes nothing; every other
/// event goes to the session.
pub open spec fn handled(c: ClientModel, e: EventModel) -> (ClientModel, EffectModel) {
    if asks_unsupported(e) {
        (c, EffectModel::Fault(TranslateError::UnsupportedChannel))
    } else {
        let (session, action) = step(c.session, e);
        (ClientModel { session, ..c }, effect_of(action, c.url))
    }
}

/// The kind of a channel of the venue.
pub open spec fn kind_of_channel(name: Seq<char>) -> Option<MessageKind> {
    if name == "spot.trades"@ {
        Some(MessageKind::Trade)
    } else if name == "spot.order_book_update"@ {
        Some(MessageKind::L2Book)
    } else if name == "spot.order_book"@ {
        Some(MessageKind::L2BookTopK)
    } else if name == "spot.book_ticker"@ {
        Some(MessageKind::BBO)
    } else if name == "spot.tickers"@ {
        Some(MessageKind::Ticker)
    } else if name == "spot.candlesticks"@ {
        Some(MessageKind::Candlestick)
    } else {
        None
    }
}

/// The event of a subscription by the channel's name, where the venue has the channel.
pub open spec fn named_event(subscribe: bool, name: Seq<char>, symbols: Seq<Seq<char>>) -> Option<
    EventModel,
> {
    match kind_of_channel(name) {
        None => None,
        Some(kind) => Some(
            if subscribe {
                EventModel::Subscribe { kind, symbols }
            } else {
                EventModel::Unsubscribe { kind, symbols }
            },
        ),
    }
}

/// The adapter after a subscription by the channel's name.
pub open spec fn handled_named(
    c: ClientModel,
    subscribe: bool,
    name: Seq<char>,
    symbols: Seq<Seq<char>>,
) -> (ClientModel, EffectModel) {
    match named_event(subscribe, name, symbols) {
        None => (c, EffectModel::Fault(TranslateError::UnsupportedChannel)),
        Some(e) => handled(c, e),
    }
}

/// The kind of a channel of the venue.
pub fn channel_kind(name: &str) -> (kind: Option<MessageKind>)
    ensures
        kind == kind_of_channel(name@),
{
    if same_text(name, "spot.trades") {
        Some(MessageKind::Trade)
    } else if same_text(name, "spot.order_book_update") {
        Some(MessageKind::L2Book)
    } else if same_text(name, "spot.order_book") {
        Some(MessageKind::L2BookTopK)
    } else if same_text(name, "spot.book_ticker") {
        Some(MessageKind::BBO)
    } else if same_text(name, "spot.tickers") {
        Some(MessageKind::Ticker)
    } else if same_text(name, "spot.candlesticks") {
        Some(MessageKind::Candlestick)
    } else {
        None
    }
}

/// The adapter of Gate's spot market.
pub struct GateSpotWSClient {
    url: String,
    session: Session,
}

impl View for GateSpotWSClient {
    type V = ClientModel;

    closed spec fn view(&self) -> ClientModel {
        ClientModel { url: self.url@, session: self.session@ }
    }
}

impl GateSpotWSClient {
    /// An adapter that has not been run, for the venue's own address or for another.
    pub fn new(url: Option<&str>) -> (client: GateSpotWSClient)
        ensures
            client@.url == match url {
                Some(endpoint) => endpoint@,
                None => "wss://api.gateio.ws/ws/v4/"@,
            },
            client@.session == SessionModel::initial(),
            client@.wf(),
    {
        let real_url = match url {
            Some(endpoint) => endpoint,
            None => "wss://api.gateio.ws/ws/v4/",
        };
        GateSpotWSClient { url: String::from_str(real_url), session: Session::new() }
    }

    /// The venue's limit on outbound frames: ten in every second.
    pub fn uplink_limit() -> (quota: UplinkQuota)
        ensures
            quota_of(10, 1_000_000_000) == Ok::<UplinkQuota, crate::transport::QuotaError>(quota),
    {
        assert(1_000_000_000u64 / 10u64 == 100_000_000u64) by (nonlinear_arith);
        UplinkQuota { max_burst: 10, cell_nanos: 100_000_000 }
    }

    /// The address that the adapter connects to.
    pub fn url(&self) -> (url: String)
        ensures
            url@ == self@.url,
    {
        self.url.clone()
    }

    /// The state of the adapter's connection.
    pub fn state(&self) -> (state: ConnectionState)
        ensures
            state == self@.session.state,
    {
        self.session.state()
    }

    /// How many times the adapter has gone back to connecting after a failure.
    pub fn reconnects(&self) -> (reconnects: u64)
        ensures
            reconnects == self@.session.reconnects,
    {
        self.session.reconnects()
    }

    fn effect(&self, action: Action) -> (effect: Effect)
        ensures
            effect@ == effect_of(action@, self@.url),
    {
        match action {
            Action::Idle => Effect::Idle,
            Action::Connect => Effect::Connect(self.url.clone()),
            Action::Replay(topics) => match replay_frames(&topics) {
                Ok(frames) => Effect::Send(frames),
                Err(e) => Effect::Fault(e),
            },
            Action::Send { subscribe, kind, symbols } => match translate(
                subscribe,
                kind,
                &symbols,
            ) {
                Ok(frames) => Effect::Send(frames),
                Err(e) => Effect::Fault(e),
            },
            Action::Forward(text) => Effect::Forward(text),
            Action::KeepAlive => Effect::KeepAlive,
            Action::Ping => match translate_ping() {
                Some(frame) => Effect::Ping(frame),
                None => Effect::Idle,
            },
            Action::Report { code, reason } => Effect::Report { code, reason },
            Action::Backoff { attempt } => Effect::Backoff { attempt },
            Action::SendClose => Effect::SendClose,
            Action::Exit => Effect::Exit,
        }
    }

    /// Takes one event and answers with what the caller is to do.
    pub fn handle(&mut self, event: Event) -> (effect: Effect)
        ensures
            (final(self)@, effect@) == handled(old(self)@, event@),
            old(self)@.wf() ==> final(self)@.wf(),
    {
        proof {
            if self@.wf() {
                lemma_handled_keeps_wf(self@, event@);
            }
        }
        let unsupported = match &event {
            Event::Subscribe { kind, symbols } => channel(*kind).is_none(),
            Event::Unsubscribe { kind, symbols } => channel(*kind).is_none(),
            _ => false,
        };
        if unsupported {
            return Effect::Fault(TranslateError::UnsupportedChannel);
        }
        let action = self.session.step(event);
        self.effect(action)
    }

    /// Takes one inbound frame, with what the handler reads of it.
    pub fn on_frame(&mut self, text: String, fields: &GateFrame) -> (effect: Effect)
        ensures
            (final(self)@, effect@) == handled(
                old(self)@,
                EventModel::Frame {
                    text: text@,
                    class: classified(fields@),
                    reconnect: reconnects(classified(fields@)),
                },
            ),
            old(self)@.wf() ==> final(self)@.wf(),
    {
        let class = classify(fields);
        let reconnect = should_reconnect(&class);
        self.handle(Event::Frame { text, class, reconnect })
    }

    /// Subscribes to the channel of a kind.
    pub fn subscribe_kind(&mut self, kind: MessageKind, symbols: &Vec<String>) -> (effect: Effect)
        ensures
            (final(self)@, effect@) == handled(
                old(self)@,
                EventModel::Subscribe { kind, symbols: texts(symbols@) },
            ),
            old(self)@.wf() ==> final(self)@.wf(),
    {
        self.handle(Event::Subscribe { kind, symbols: clone_texts(symbols) })
    }

    /// Ends the subscriptions to the channel of a kind.
    pub fn unsubscribe_kind(&mut self, kind: MessageKind, symbols: &Vec<String>) -> (effect: Effect)
        ensures
            (final(self)@, effect@) == handled(
                old(self)@,
                EventModel::Unsubscribe { kind, symbols: texts(symbols@) },
            ),
            old(self)@.wf() ==> final(self)@.wf(),
    {
        self.handle(Event::Unsubscribe { kind, symbols: clone_texts(symbols) })
    }

    /// Subscribes to the trades of the symbols.
    pub fn subscribe_trade(&mut self, symbols: &Vec<String>) -> (effect: Effect)
        ensures
            (final(self)@, effect@) == handled(
                old(self)@,
                EventModel::Subscribe { kind: MessageKind::Trade, symbols: texts(symbols@) },
            ),
            old(self)@.wf() ==> final(self)@.wf(),
    {
        self.subscribe_kind(MessageKind::Trade, symbols)
    }

    /// Subscribes to the updates of the order books of the symbols.
    pub fn subscribe_orderbook(&mut self, symbols: &Vec<String>) -> (effect: Effect)
        ensures
            (final(self)@, effect@) == handled(
                old(self)@,
                EventModel::Subscribe { kind: MessageKind::L2Book, symbols: texts(symbols@) },
            ),
            old(self)@.wf() ==> final(self)@.wf(),
    {
        self.subscribe_kind(MessageKind::L2Book, symbols)
    }

    /// Subscribes to the snapshots of the best levels of the order books of the symbols.
    pub fn subscribe_orderbook_topk(&mut self, symbols: &Vec<String>) -> (effect: Effect)
        ensures
            (final(self)@, effect@) == handled(
                old(self)@,
                EventModel::Subscribe { kind: MessageKind::L2BookTopK, symbols: texts(symbols@) },
            ),
            old(self)@.wf() ==> final(self)@.wf(),
    {
        self.subscribe_kind(MessageKind::L2BookTopK, symbols)
    }

    /// Subscribes to the best bid and ask of the symbols.
    pub fn subscribe_bbo(&mut self, symbols: &Vec<String>) -> (effect: Effect)
        ensures
            (final(self)@, effect@) == handled(
                old(self)@,
                EventModel::Subscribe { kind: MessageKind::BBO, symbols: texts(symbols@) },
            ),
            old(self)@.wf() ==> final(self)@.wf(),
    {
        self.subscribe_kind(MessageKind::BBO, symbols)
    }

    /// Subscribes to the tickers of the symbols.
    pub fn subscribe_ticker(&mut self, symbols: &Vec<String>) -> (effect: Effect)
        ensures
            (final(self)@, effect@) == handled(
                old(self)@,
                EventModel::Subscribe { kind: MessageKind::Ticker, symbols: texts(symbols@) },
            ),
            old(self)@.wf() ==> final(self)@.wf(),
    {
        self.subscribe_kind(MessageKind::Ticker, symbols)
    }

    /// Subscribes to the candlesticks of the symbols.
    pub fn subscribe_candlestick(&mut self, symbols: &Vec<String>) -> (effect: Effect)
        ensures
            (final(self)@, effect@) == handled(
                old(self)@,
                EventModel::Subscribe { kind: MessageKind::Candlestick, symbols: texts(symbols@) },
            ),
            old(self)@.wf() ==> final(self)@.wf(),
    {
        self.subscribe_kind(MessageKind::Candlestick, symbols)
    }

    /// The venue has no level 3 order book: the subscription is refused.
    pub fn subscribe_l3_orderbook(&mut self, symbols: &Vec<String>) -> (effect: Effect)
        ensures
            final(self)@ == old(self)@,
            effect@ == EffectModel::Fault(TranslateError::UnsupportedChannel),
    {
        self.subscribe_kind(MessageKind::L3Book, symbols)
    }

    /// Subscribes to a channel by the venue's name for it.
    pub fn subscribe(&mut self, raw_topic: &str, symbols: &Vec<String>) -> (effect: Effect)
        ensures
            (final(self)@, effect@) == handled_named(
                old(self)@,
                true,
                raw_topic@,
                texts(symbols@),
            ),
            old(self)@.wf() ==> final(self)@.wf(),
    {
        match channel_kind(raw_topic) {
            Some(kind) => self.subscribe_kind(kind, symbols),
            None => Effect::Fault(TranslateError::UnsupportedChannel),
        }
    }

    /// Ends the subscriptions to a channel by the venue's name for it.
    pub fn unsubscribe(&mut self, raw_topic: &str, symbols: &Vec<String>) -> (effect: Effect)
        ensures
            (final(self)@, effect@) == handled_named(
                old(self)@,
                false,
                raw_topic@,
                texts(symbols@),
            ),
            old(self)@.wf() ==> final(self)@.wf(),
    {
        match channel_kind(raw_topic) {
            Some(kind) => self.unsubscribe_kind(kind, symbols),
            None => Effect::Fault(TranslateError::UnsupportedChannel),
        }
    }

    /// Starts the session.
    pub fn run(&mut self) -> (effect: Effect)
        ensures
            (final(self)@, effect@) == handled(old(self)@, EventModel::Run),
            old(self)@.wf() ==> final(self)@.wf(),
    {
        self.handle(Event::Run)
    }

    /// Closes the session. Closing again changes nothing.
    pub fn close(&mut self) -> (effect: Effect)
        ensures
            (final(self)@, effect@) == handled(old(self)@, EventModel::Close),
            old(self)@.wf() ==> final(self)@.wf(),
    {
        self.handle(Event::Close)
    }
}

proof fn lemma_added_supported(topics: Seq<TopicModel>, kind: MessageKind, symbols: Seq<Seq<char>>)
    requires
        supported(topics),
        channel_of(kind) is Some,
    ensures
        supported(added(topics, kind, symbols)),
    decreases symbols.len(),
{
    if symbols.len() > 0 {
        lemma_added_supported(topics, kind, symbols.drop_last());
    }
}

proof fn lemma_removed_supported(topics: Seq<TopicModel>, kind: MessageKind, symbols: Seq<Seq<char>>)
    requires
        supported(topics),
    ensures
        supported(removed(topics, kind, symbols)),
{
    let kept = removed(topics, kind, symbols);
    assert forall|i: int| 0 <= i < kept.len() implies channel_of((#[trigger] kept[i]).kind)
        is Some by {
        assert(kept.contains(kept[i]));
        topics.lemma_filter_contains_rev(stays(kind, symbols), kept[i]);
        let k = choose|k: int| 0 <= k < topics.len() && topics[k] == kept[i];
        assert(channel_of(topics[k].kind) is Some);
    }
}

/// Every event keeps an adapter well formed.
pub proof fn lemma_handled_keeps_wf(c: ClientModel, e: EventModel)
    requires
        c.wf(),
    ensures
        handled(c, e).0.wf(),
{
    crate::session::lemma_step_keeps_wf(c.session, e);
    match e {
        EventModel::Subscribe { kind, symbols } => {
            if channel_of(kind) is Some {
                lemma_added_supported(c.session.topics, kind, symbols);
            }
        },
        EventModel::Unsubscribe { kind, symbols } => {
            lemma_removed_supported(c.session.topics, kind, symbols);
        },
        _ => {},
    }
}

/// Resubscription: when the connection of an adapter opens, the adapter sends frames
/// that name every topic it holds, each in a subscription on the channel of the topic's
/// kind, unless the encoder gives no text for a group.
pub proof fn law_open_resubscribes(c: ClientModel, topic: TopicModel)
    requires
        c.wf(),
        !c.session.closed,
        c.session.state == ConnectionState::Connecting,
        c.session.topics.contains(topic),
    ensures
        handled(c, EventModel::Connected).0.session.state == ConnectionState::Open,
        handled(c, EventModel::Connected).1 is Send || handled(c, EventModel::Connected).1
            == EffectModel::Fault(TranslateError::Encoding),
        handled(c, EventModel::Connected).1 matches EffectModel::Send(frames) ==> exists|
            group: Seq<Seq<char>>,
        |
            {
                &&& group.contains(topic.symbol)
                &&& (#[trigger] json_array_text(group)) is Some
                &&& frames.contains(
                    command_text(
                        true,
                        channel_of(topic.kind)->Some_0,
                        json_array_text(group)->Some_0,
                    ),
                )
            },
{
    let topics = c.session.topics;
    lemma_replay_faults_on_encoding_only(topics, 10);
    if replayed(topics) is Ok {
        law_replay_names_every_topic(topics, topic);
    }
}

/// Where the venue has a channel for every topic, a replay fails on the encoder alone.
proof fn lemma_replay_faults_on_encoding_only(topics: Seq<TopicModel>, n: nat)
    requires
        supported(topics),
        n <= 10,
    ensures
        crate::replay::replayed_upto(topics, n) is Ok || crate::replay::replayed_upto(topics, n)
            == Err::<Seq<Seq<char>>, TranslateError>(TranslateError::Encoding),
    decreases n,
{
    if n > 0 {
        lemma_replay_faults_on_encoding_only(topics, (n - 1) as nat);
        let kind = crate::replay::all_kinds()[n - 1];
        let symbols = crate::replay::symbols_of(topics, kind);
        if symbols.len() > 0 {
            let of = topics.filter(crate::replay::of_kind(kind));
            assert(of.len() > 0);
            assert(of.contains(of[0]));
            topics.lemma_filter_contains_rev(crate::replay::of_kind(kind), of[0]);
            topics.lemma_filter_pred(crate::replay::of_kind(kind), 0);
            let k = choose|k: int| 0 <= k < topics.len() && topics[k] == of[0];
            assert(channel_of(topics[k].kind) is Some);
        }
    }
}

} // verus!
