//! The transport's decisions: which inbound frames surface as text, which outbound
//! frames wait for the rate limiter, and when the driver stops.
//!
//! The socket itself, the limiter's clock and the channels live with the caller. The
//! caller hands every command and every frame it reads to a [`Driver`] and performs
//! what the driver answers.

use vstd::prelude::*;

verus! {

/// One frame on the wire.
#[derive(Debug, Clone, PartialEq, Eq)]
pub enum WireFrame {
    Text(String),
    Binary(Vec<u8>),
    Ping(Vec<u8>),
    Pong(Vec<u8>),
    Close,
    /// A frame kind that carries nothing this library reads.
    Raw,
}

pub enum WireFrameModel {
    Text(Seq<char>),
    Binary(Seq<u8>),
    Ping(Seq<u8>),
    Pong(Seq<u8>),
    Close,
    Raw,
}

impl View for WireFrame {
    type V = WireFrameModel;

    open spec fn view(&self) -> WireFrameModel {
        match self {
            WireFrame::Text(s) => WireFrameModel::Text(s@),
            WireFrame::Binary(b) => WireFrameModel::Binary(b@),
            WireFrame::Ping(b) => WireFrameModel::Ping(b@),
            WireFrame::Pong(b) => WireFrameModel::Pong(b@),
            WireFrame::Close => WireFrameModel::Close,
            WireFrame::Raw => WireFrameModel::Raw,
        }
    }
}

/// What an inbound frame is to the session once the transport has decoded it.
#[derive(Debug, Clone, PartialEq, Eq)]
pub enum Inbound {
    /// A text frame, or a compressed frame's text.
    Text(String),
    /// A transport-level ping or pong.
    Control,
    /// The peer closed the connection.
    Closed,
    /// A frame of a kind that is not surfaced.
    Dropped,
}

pub enum InboundModel {
    Text(Seq<char>),
    Control,
    Closed,
    Dropped,
}

impl View for Inbound {
    type V = InboundModel;

    open spec fn view(&self) -> InboundModel {
        match self {
            Inbound::Text(s) => InboundModel::Text(s@),
            Inbound::Control => InboundModel::Control,
            Inbound::Closed => InboundModel::Closed,
            Inbound::Dropped => InboundModel::Dropped,
        }
    }
}

/// The text that a gzip stream holds, where the bytes are such a stream and the text in
/// it is UTF-8.
pub uninterp spec fn gunzip_text(bytes: Seq<u8>) -> Option<Seq<char>>;

/// Runs `flate2::read::GzDecoder` over `bytes` and reads it to the end as a string.
/// Trusted: the text returned is a function of the bytes alone, and `None` stands for
/// every error of the decoder, invalid UTF-8 among them.
#[verifier::external_body]
fn gunzip(bytes: &Vec<u8>) -> (text: Option<String>)
    ensures
        text.is_some() == gunzip_text(bytes@).is_some(),
        text matches Some(t) ==> gunzip_text(bytes@) == Some(t@),
{
    let mut out = String::new();
    let mut decoder = flate2::read::GzDecoder::new(bytes.as_slice());
    match std::io::Read::read_to_string(&mut decoder, &mut out) {
        Ok(_) => Some(out),
        Err(_) => None,
    }
}

/// What a compressed frame surfaces as, given what came out of inflating it.
pub open spec fn inflated_model(inflated: Option<Seq<char>>) -> InboundModel {
    match inflated {
        Some(text) => InboundModel::Text(text),
        None => InboundModel::Dropped,
    }
}

/// What an inbound frame surfaces as. `gzip` says whether the venue compresses its
/// binary frames; a binary frame of a venue that does not is of no known kind.
pub open spec fn decoded(frame: WireFrameModel, gzip: bool) -> InboundModel {
    match frame {
        WireFrameModel::Text(text) => InboundModel::Text(text),
        WireFrameModel::Binary(bytes) => if gzip {
            inflated_model(gunzip_text(bytes))
        } else {
            InboundModel::Dropped
        },
        WireFrameModel::Ping(_) => InboundModel::Control,
        WireFrameModel::Pong(_) => InboundModel::Control,
        WireFrameModel::Close => InboundModel::Closed,
        WireFrameModel::Raw => InboundModel::Dropped,
    }
}

/// Surfaces the outcome of inflating a compressed frame: its text, or nothing where the
/// frame did not hold any.
pub fn inbound_of_inflated(inflated: Option<String>) -> (inbound: Inbound)
    ensures
        inbound@ == inflated_model(
            match inflated {
                Some(text) => Some(text@),
                None => None,
            },
        ),
{
    match inflated {
        Some(text) => Inbound::Text(text),
        None => Inbound::Dropped,
    }
}

/// Decodes one inbound frame.
pub fn decode_inbound(frame: WireFrame, gzip: bool) -> (inbound: Inbound)
    ensures
        inbound@ == decoded(frame@, gzip),
{
    match frame {
        WireFrame::Text(text) => Inbound::Text(text),
        WireFrame::Binary(bytes) => {
            if gzip {
                inbound_of_inflated(gunzip(&bytes))
            } else {
                Inbound::Dropped
            }
        },
        WireFrame::Ping(_) => Inbound::Control,
        WireFrame::Pong(_) => Inbound::Control,
        WireFrame::Close => Inbound::Closed,
        WireFrame::Raw => Inbound::Dropped,
    }
}

/// The quota of a connection's outbound frames: a bucket of `max_burst` tokens that
/// gains one token every `cell_nanos` nanoseconds.
#[derive(Debug, Clone, Copy, PartialEq, Eq, Structural)]
pub struct UplinkQuota {
    pub max_burst: u32,
    pub cell_nanos: u64,
}

/// Why a limit is no quota.
#[derive(Debug, Clone, Copy, PartialEq, Eq, Structural)]
pub enum QuotaError {
    /// The bucket would hold nothing.
    ZeroBurst,
    /// The period is too short for the burst: a token would take no time.
    ZeroInterval,
}

/// The quota of `max_burst` frames in every `period_nanos` nanoseconds: the bucket
/// holds `max_burst` tokens and refills in one period.
pub open spec fn quota_of(max_burst: u32, period_nanos: u64) -> Result<UplinkQuota, QuotaError> {
    if max_burst == 0 {
        Err(QuotaError::ZeroBurst)
    } else if period_nanos / (max_burst as u64) == 0 {
        Err(QuotaError::ZeroInterval)
    } else {
        Ok(UplinkQuota { max_burst, cell_nanos: period_nanos / (max_burst as u64) })
    }
}

/// The quota of a venue's uplink limit.
pub fn uplink_quota(max_burst: u32, period_nanos: u64) -> (quota: Result<UplinkQuota, QuotaError>)
    ensures
        quota == quota_of(max_burst, period_nanos),
{
    if max_burst == 0 {
        return Err(QuotaError::ZeroBurst);
    }
    let cell_nanos = period_nanos / (max_burst as u64);
    if cell_nanos == 0 {
        Err(QuotaError::ZeroInterval)
    } else {
        Ok(UplinkQuota { max_burst, cell_nanos })
    }
}

/// What the driver does with one command from the session.
#[derive(Debug, Clone, PartialEq, Eq)]
pub enum Uplink {
    /// Wait for the rate limiter, then write the frame.
    Limited(WireFrame),
    /// Write the frame at once.
    Direct(WireFrame),
    /// Send a close frame, close the inbound stream and stop.
    Shutdown,
    /// The driver has stopped: the command is dropped.
    Discard,
}

pub enum UplinkModel {
    Limited(WireFrameModel),
    Direct(WireFrameModel),
    Shutdown,
    Discard,
}

impl View for Uplink {
    type V = UplinkModel;

    open spec fn view(&self) -> UplinkModel {
        match self {
            Uplink::Limited(f) => UplinkModel::Limited(f@),
            Uplink::Direct(f) => UplinkModel::Direct(f@),
            Uplink::Shutdown => UplinkModel::Shutdown,
            Uplink::Discard => UplinkModel::Discard,
        }
    }
}

/// What the socket's read half gave.
#[derive(Debug, Clone, PartialEq, Eq)]
pub enum Incoming {
    Frame(WireFrame),
    /// The socket failed.
    Failed,
    /// The stream ended.
    Ended,
}

pub enum IncomingModel {
    Frame(WireFrameModel),
    Failed,
    Ended,
}

impl View for Incoming {
    type V = IncomingModel;

    open spec fn view(&self) -> IncomingModel {
        match self {
            Incoming::Frame(f) => IncomingModel::Frame(f@),
            Incoming::Failed => IncomingModel::Failed,
            Incoming::Ended => IncomingModel::Ended,
        }
    }
}

/// What the driver does with what it read.
#[derive(Debug, Clone, PartialEq, Eq)]
pub enum Downlink {
    /// Hand the text to the session; wait while the session's channel is full.
    Deliver(String),
    /// A transport-level ping or pong arrived.
    Control,
    /// Nothing to hand on.
    Skip,
    /// Send a close frame, close the inbound stream and stop.
    Shutdown,
    /// The driver has stopped: what was read is dropped.
    Discard,
}

pub enum DownlinkModel {
    Deliver(Seq<char>),
    Control,
    Skip,
    Shutdown,
    Discard,
}

impl View for Downlink {
    type V = DownlinkModel;

    open spec fn view(&self) -> DownlinkModel {
        match self {
            Downlink::Deliver(s) => DownlinkModel::Deliver(s@),
            Downlink::Control => DownlinkModel::Control,
            Downlink::Skip => DownlinkModel::Skip,
            Downlink::Shutdown => DownlinkModel::Shutdown,
            Downlink::Discard => DownlinkModel::Discard,
        }
    }
}

/// The driver of one connection: whether its venue compresses binary frames, and
/// whether it has stopped.
#[derive(Debug, Clone, Copy, PartialEq, Eq, Structural)]
pub struct Driver {
    pub gzip: bool,
    pub stopped: bool,
}

/// The driver's answer to a command, and whether the driver has stopped after it. No
/// command stands for the command channel having been closed.
pub open spec fn uplink_of(stopped: bool, command: Option<WireFrameModel>) -> (UplinkModel, bool) {
    if stopped {
        (UplinkModel::Discard, true)
    } else {
        match command {
            None => (UplinkModel::Shutdown, true),
            Some(WireFrameModel::Close) => (UplinkModel::Shutdown, true),
            Some(WireFrameModel::Text(t)) => (UplinkModel::Limited(WireFrameModel::Text(t)), false),
            Some(WireFrameModel::Binary(b)) => (
                UplinkModel::Limited(WireFrameModel::Binary(b)),
                false,
            ),
            Some(control) => (UplinkModel::Direct(control), false),
        }
    }
}

/// The driver's answer to what the socket gave, and whether the driver has stopped
/// after it.
pub open spec fn downlink_of(stopped: bool, gzip: bool, incoming: IncomingModel) -> (
    DownlinkModel,
    bool,
) {
    if stopped {
        (DownlinkModel::Discard, true)
    } else {
        match incoming {
            IncomingModel::Failed => (DownlinkModel::Shutdown, true),
            IncomingModel::Ended => (DownlinkModel::Shutdown, true),
            IncomingModel::Frame(frame) => match decoded(frame, gzip) {
                InboundModel::Text(text) => (DownlinkModel::Deliver(text), false),
                InboundModel::Control => (DownlinkModel::Control, false),
                InboundModel::Closed => (DownlinkModel::Shutdown, true),
                InboundModel::Dropped => (DownlinkModel::Skip, false),
            },
        }
    }
}

impl Driver {
    /// A running driver.
    pub fn new(gzip: bool) -> (driver: Driver)
        ensures
            driver == (Driver { gzip, stopped: false }),
    {
        Driver { gzip, stopped: false }
    }

    /// Takes one command from the session, or the news that the command channel is
    /// closed. Text and binary frames go through the rate limiter, control frames pass
    /// it by, and a close frame stops the driver.
    pub fn on_command(&mut self, command: Option<WireFrame>) -> (uplink: Uplink)
        ensures
            final(self).gzip == old(self).gzip,
            (uplink@, final(self).stopped) == uplink_of(
                old(self).stopped,
                match command {
                    Some(frame) => Some(frame@),
                    None => None,
                },
            ),
    {
        if self.stopped {
            return Uplink::Discard;
        }
        match command {
            None => {
                self.stopped = true;
                Uplink::Shutdown
            },
            Some(WireFrame::Close) => {
                self.stopped = true;
                Uplink::Shutdown
            },
            Some(WireFrame::Text(text)) => Uplink::Limited(WireFrame::Text(text)),
            Some(WireFrame::Binary(bytes)) => Uplink::Limited(WireFrame::Binary(bytes)),
            Some(WireFrame::Ping(bytes)) => Uplink::Direct(WireFrame::Ping(bytes)),
            Some(WireFrame::Pong(bytes)) => Uplink::Direct(WireFrame::Pong(bytes)),
            Some(WireFrame::Raw) => Uplink::Direct(WireFrame::Raw),
        }
    }

    /// Takes what the socket's read half gave. Text is delivered in the order in which
    /// it was read; a failure, the end of the stream and the peer's close stop the
    /// driver.
    pub fn on_incoming(&mut self, incoming: Incoming) -> (downlink: Downlink)
        ensures
            final(self).gzip == old(self).gzip,
            (downlink@, final(self).stopped) == downlink_of(
                old(self).stopped,
                old(self).gzip,
                incoming@,
            ),
    {
        if self.stopped {
            return Downlink::Discard;
        }
        match incoming {
            Incoming::Failed => {
                self.stopped = true;
                Downlink::Shutdown
            },
            Incoming::Ended => {
                self.stopped = true;
                Downlink::Shutdown
            },
            Incoming::Frame(frame) => match decode_inbound(frame, self.gzip) {
                Inbound::Text(text) => Downlink::Deliver(text),
                Inbound::Control => Downlink::Control,
                Inbound::Closed => {
                    self.stopped = true;
                    Downlink::Shutdown
                },
                Inbound::Dropped => Downlink::Skip,
            },
        }
    }
}

/// What a driver answers to a run of reads, and whether it has stopped after them.
pub open spec fn received(stopped: bool, gzip: bool, incoming: Seq<IncomingModel>) -> (
    Seq<DownlinkModel>,
    bool,
)
    decreases incoming.len(),
{
    if incoming.len() == 0 {
        (Seq::empty(), stopped)
    } else {
        let (answers, before) = received(stopped, gzip, incoming.drop_last());
        let (answer, after) = downlink_of(before, gzip, incoming.last());
        (answers.push(answer), after)
    }
}

/// One text frame for each text.
pub open spec fn text_frames(texts: Seq<Seq<char>>) -> Seq<IncomingModel> {
    texts.map_values(|text: Seq<char>| IncomingModel::Frame(WireFrameModel::Text(text)))
}

/// One delivery for each text.
pub open spec fn deliveries(texts: Seq<Seq<char>>) -> Seq<DownlinkModel> {
    texts.map_values(|text: Seq<char>| DownlinkModel::Deliver(text))
}

/// Ordering: a running driver delivers every text frame, each once, in the order in
/// which the frames were read, and goes on running.
pub proof fn law_text_is_delivered_in_order(gzip: bool, texts: Seq<Seq<char>>)
    ensures
        received(false, gzip, text_frames(texts)) == (deliveries(texts), false),
    decreases texts.len(),
{
    if texts.len() == 0 {
        assert(deliveries(texts) =~= Seq::<DownlinkModel>::empty());
    } else {
        law_text_is_delivered_in_order(gzip, texts.drop_last());
        assert(text_frames(texts).drop_last() =~= text_frames(texts.drop_last()));
        assert(deliveries(texts) =~= deliveries(texts.drop_last()).push(
            DownlinkModel::Deliver(texts.last()),
        ));
    }
}

/// What a driver answers to a run of commands, and whether it has stopped after them.
pub open spec fn answered(stopped: bool, commands: Seq<Option<WireFrameModel>>) -> (
    Seq<UplinkModel>,
    bool,
)
    decreases commands.len(),
{
    if commands.len() == 0 {
        (Seq::empty(), stopped)
    } else {
        let (answers, before) = answered(stopped, commands.drop_last());
        let (answer, after) = uplink_of(before, commands.last());
        (answers.push(answer), after)
    }
}

/// One text command for each text.
pub open spec fn text_commands(texts: Seq<Seq<char>>) -> Seq<Option<WireFrameModel>> {
    texts.map_values(|text: Seq<char>| Some(WireFrameModel::Text(text)))
}

/// One frame for the rate limiter for each text.
pub open spec fn limited(texts: Seq<Seq<char>>) -> Seq<UplinkModel> {
    texts.map_values(|text: Seq<char>| UplinkModel::Limited(WireFrameModel::Text(text)))
}

/// Outbound ordering: a running driver hands every text command to the rate limiter,
/// each once, in the order of the commands, and goes on running.
pub proof fn law_commands_pass_in_order(texts: Seq<Seq<char>>)
    ensures
        answered(false, text_commands(texts)) == (limited(texts), false),
    decreases texts.len(),
{
    if texts.len() == 0 {
        assert(limited(texts) =~= Seq::<UplinkModel>::empty());
    } else {
        law_commands_pass_in_order(texts.drop_last());
        assert(text_commands(texts).drop_last() =~= text_commands(texts.drop_last()));
        assert(limited(texts) =~= limited(texts.drop_last()).push(
            UplinkModel::Limited(WireFrameModel::Text(texts.last())),
        ));
    }
}

/// Close idempotence: a close command stops a running driver, and a stopped driver
/// drops every command and everything it reads, a further close among them.
pub proof fn law_stopped_driver_drops_everything(
    stopped: bool,
    gzip: bool,
    command: Option<WireFrameModel>,
    incoming: IncomingModel,
)
    ensures
        uplink_of(stopped, Some(WireFrameModel::Close)).1,
        uplink_of(true, command) == (UplinkModel::Discard, true),
        downlink_of(true, gzip, incoming) == (DownlinkModel::Discard, true),
{
}

} // verus!
