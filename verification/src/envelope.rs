//! The envelope that every normalized message carries.

use vstd::prelude::*;
use crate::kinds::{MarketType, MessageKind};
use crate::pair::{normalize_pair, pair_of};

verus! {

/// Why a frame gave no message.
#[derive(Clone, Copy, Debug, PartialEq, Eq, Structural)]
pub enum ParseError {
    /// The symbol has no canonical pair.
    UnknownPair,
    /// The market has no rule for the sizes of this pair.
    UnknownContract,
}

/// What every normalized message says of itself.
#[derive(Debug, Clone, PartialEq, Eq)]
pub struct Envelope {
    pub exchange: String,
    pub market_type: MarketType,
    /// The symbol as the venue writes it.
    pub symbol: String,
    /// The canonical pair.
    pub pair: String,
    pub msg_type: MessageKind,
    /// When the event happened, in milliseconds since the epoch.
    pub timestamp: i64,
    /// When the frame was received, in milliseconds since the epoch.
    pub received_at: i64,
}

pub struct EnvelopeModel {
    pub exchange: Seq<char>,
    pub market_type: MarketType,
    pub symbol: Seq<char>,
    pub pair: Seq<char>,
    pub msg_type: MessageKind,
    pub timestamp: i64,
    pub received_at: i64,
}

impl View for Envelope {
    type V = EnvelopeModel;

    open spec fn view(&self) -> EnvelopeModel {
        EnvelopeModel {
            exchange: self.exchange@,
            market_type: self.market_type,
            symbol: self.symbol@,
            pair: self.pair@,
            msg_type: self.msg_type,
            timestamp: self.timestamp,
            received_at: self.received_at,
        }
    }
}

/// The time of an event: the venue's, and the time of receipt only where the venue
/// gives none.
pub open spec fn event_time(venue_time: Option<i64>, received_at: i64) -> i64 {
    match venue_time {
        Some(time) => time,
        None => received_at,
    }
}

/// The envelope of a message, where its symbol has a canonical pair.
pub open spec fn enveloped(
    exchange: Seq<char>,
    market_type: MarketType,
    msg_type: MessageKind,
    symbol: Seq<char>,
    venue_time: Option<i64>,
    received_at: i64,
) -> Result<EnvelopeModel, ParseError> {
    match pair_of(symbol, exchange) {
        None => Err(ParseError::UnknownPair),
        Some(pair) => Ok(
            EnvelopeModel {
                exchange,
                market_type,
                symbol,
                pair,
                msg_type,
                timestamp: event_time(venue_time, received_at),
                received_at,
            },
        ),
    }
}

/// Makes the envelope of a message. A symbol without a canonical pair is refused.
pub fn envelope(
    exchange: &str,
    market_type: MarketType,
    msg_type: MessageKind,
    symbol: &str,
    venue_time: Option<i64>,
    received_at: i64,
) -> (made: Result<Envelope, ParseError>)
    ensures
        match made {
            Ok(e) => enveloped(exchange@, market_type, msg_type, symbol@, venue_time, received_at)
                == Ok::<EnvelopeModel, ParseError>(e@),
            Err(e) => enveloped(exchange@, market_type, msg_type, symbol@, venue_time, received_at)
                == Err::<EnvelopeModel, ParseError>(e),
        },
{
    let pair = match normalize_pair(symbol, exchange) {
        None => {
            return Err(ParseError::UnknownPair);
        },
        Some(pair) => pair,
    };
    let timestamp = match venue_time {
        Some(time) => time,
        None => received_at,
    };
    Ok(
        Envelope {
            exchange: String::from_str(exchange),
            market_type,
            symbol: String::from_str(symbol),
            pair,
            msg_type,
            timestamp,
            received_at,
        },
    )
}

} // verus!
