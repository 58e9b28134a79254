//! The classes of inbound frames, and how Gate's spot market frames fall into them.

use vstd::prelude::*;
use crate::text::field_is;

verus! {

/// What an inbound frame is to the session.
#[derive(Debug, Clone, PartialEq, Eq)]
pub enum FrameClass {
    /// Market data, to be forwarded unchanged.
    Data,
    /// The venue's answer to a heartbeat.
    Pong,
    /// The venue confirms a subscription or its end; with the request's id where the
    /// venue echoes one.
    Ack(Option<i64>),
    /// The venue reports an error, with its code and its reason.
    Error(i64, String),
    /// Anything else.
    Misc,
}

pub enum FrameClassModel {
    Data,
    Pong,
    Ack(Option<i64>),
    Error(i64, Seq<char>),
    Misc,
}

impl View for FrameClass {
    type V = FrameClassModel;

    open spec fn view(&self) -> FrameClassModel {
        match self {
            FrameClass::Data => FrameClassModel::Data,
            FrameClass::Pong => FrameClassModel::Pong,
            FrameClass::Ack(id) => FrameClassModel::Ack(*id),
            FrameClass::Error(code, reason) => FrameClassModel::Error(*code, reason@),
            FrameClass::Misc => FrameClassModel::Misc,
        }
    }
}

/// An error as the venue reports it.
#[derive(Debug, Clone, PartialEq, Eq)]
pub struct VenueError {
    pub code: i64,
    pub message: String,
}

/// What the handler reads of a frame of the venue: the fields of its envelope, each
/// where the frame has it.
#[derive(Debug, Clone, PartialEq, Eq)]
pub struct GateFrame {
    pub channel: Option<String>,
    pub event: Option<String>,
    pub id: Option<i64>,
    pub error: Option<VenueError>,
}

pub struct GateFrameModel {
    pub channel: Option<Seq<char>>,
    pub event: Option<Seq<char>>,
    pub id: Option<i64>,
    pub error: Option<(i64, Seq<char>)>,
}

impl View for GateFrame {
    type V = GateFrameModel;

    open spec fn view(&self) -> GateFrameModel {
        GateFrameModel {
            channel: match self.channel {
                Some(text) => Some(text@),
                None => None,
            },
            event: match self.event {
                Some(text) => Some(text@),
                None => None,
            },
            id: self.id,
            error: match self.error {
                Some(error) => Some((error.code, error.message@)),
                None => None,
            },
        }
    }
}

/// The code by which the venue reports a fault of its own.
pub const SERVER_ERROR: i64 = 3;

/// The class of a frame. An error comes first; then the answer to a heartbeat, which
/// the venue sends on a channel of its own; then the event decides.
pub open spec fn classified(frame: GateFrameModel) -> FrameClassModel {
    if frame.error is Some {
        FrameClassModel::Error(frame.error->Some_0.0, frame.error->Some_0.1)
    } else if frame.channel == Some("spot.pong"@) {
        FrameClassModel::Pong
    } else if frame.event == Some("update"@) || frame.event == Some("all"@) {
        FrameClassModel::Data
    } else if frame.event == Some("subscribe"@) || frame.event == Some("unsubscribe"@) {
        FrameClassModel::Ack(frame.id)
    } else {
        FrameClassModel::Misc
    }
}

/// Whether the venue signals by a frame of this class that the session cannot go on:
/// it does so by an error of its own side.
pub open spec fn reconnects(class: FrameClassModel) -> bool {
    class matches FrameClassModel::Error(code, _) && code == SERVER_ERROR
}

/// The channel that a frame's data belongs to.
pub open spec fn channel_of_frame(frame: GateFrameModel) -> Option<Seq<char>> {
    if classified(frame) is Data {
        frame.channel
    } else {
        None
    }
}

/// Classifies a frame.
pub fn classify(frame: &GateFrame) -> (class: FrameClass)
    ensures
        class@ == classified(frame@),
{
    match &frame.error {
        Some(error) => {
            return FrameClass::Error(error.code, error.message.clone());
        },
        None => {},
    }
    if field_is(&frame.channel, "spot.pong") {
        FrameClass::Pong
    } else if field_is(&frame.event, "update") || field_is(&frame.event, "all") {
        FrameClass::Data
    } else if field_is(&frame.event, "subscribe") || field_is(&frame.event, "unsubscribe") {
        FrameClass::Ack(frame.id)
    } else {
        FrameClass::Misc
    }
}

/// Whether the session is to give up its connection on a frame of this class.
pub fn should_reconnect(class: &FrameClass) -> (reconnect: bool)
    ensures
        reconnect == reconnects(class@),
{
    match class {
        FrameClass::Error(code, _) => *code == SERVER_ERROR,
        _ => false,
    }
}

/// The channel of a data frame, by which its normalizer is found.
pub fn extract_channel(frame: &GateFrame) -> (channel: Option<String>)
    ensures
        match channel {
            Some(text) => channel_of_frame(frame@) == Some(text@),
            None => channel_of_frame(frame@).is_none(),
        },
{
    match classify(frame) {
        FrameClass::Data => match &frame.channel {
            Some(text) => Some(text.clone()),
            None => None,
        },
        _ => None,
    }
}

} // verus!
