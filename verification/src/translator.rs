//! The command dialect of Gate's spot market: the frames that subscribe to channels and
//! end subscriptions, and the heartbeat.

use vstd::prelude::*;
use crate::batch::{chunks, group_texts, partition_symbols};
use crate::kinds::MessageKind;
use crate::text::texts;

verus! {

/// How many symbols one subscription frame may name.
pub const SYMBOL_CEILING: usize = 100;

/// Why a subscription could not be put into frames.
#[derive(Clone, Copy, Debug, PartialEq, Eq, Structural)]
pub enum TranslateError {
    /// The venue has no channel of this kind.
    UnsupportedChannel,
    /// The encoder gave no text for a group of symbols.
    Encoding,
}

/// `serde_json::Error`: carried from the encoder to the caller, and never read.
#[verifier::external_type_specification]
#[verifier::external_body]
pub struct ExJsonError(serde_json::Error);

/// The JSON text of an array of strings, where the encoder gives one.
pub uninterp spec fn json_array_text(strings: Seq<Seq<char>>) -> Option<Seq<char>>;

/// Calls `serde_json::to_string` on the list. Trusted: whether the encoder gives a text,
/// and which, is a function of the strings alone.
#[verifier::external_body]
fn encode_symbols(symbols: &Vec<String>) -> (encoded: Result<String, serde_json::Error>)
    ensures
        match encoded {
            Ok(text) => json_array_text(texts(symbols@)) == Some(text@),
            Err(_) => json_array_text(texts(symbols@)).is_none(),
        },
{
    serde_json::to_string(symbols)
}

/// The venue's name for the channel of a kind, where it has one.
pub open spec fn channel_of(kind: MessageKind) -> Option<Seq<char>> {
    match kind {
        MessageKind::Trade => Some("spot.trades"@),
        MessageKind::L2Book => Some("spot.order_book_update"@),
        MessageKind::L2BookTopK => Some("spot.order_book"@),
        MessageKind::BBO => Some("spot.book_ticker"@),
        MessageKind::Ticker => Some("spot.tickers"@),
        MessageKind::Candlestick => Some("spot.candlesticks"@),
        _ => None,
    }
}

/// The venue's name for the channel of a kind.
pub fn channel(kind: MessageKind) -> (name: Option<&'static str>)
    ensures
        match name {
            Some(text) => channel_of(kind) == Some(text@),
            None => channel_of(kind).is_none(),
        },
{
    match kind {
        MessageKind::Trade => Some("spot.trades"),
        MessageKind::L2Book => Some("spot.order_book_update"),
        MessageKind::L2BookTopK => Some("spot.order_book"),
        MessageKind::BBO => Some("spot.book_ticker"),
        MessageKind::Ticker => Some("spot.tickers"),
        MessageKind::Candlestick => Some("spot.candlesticks"),
        _ => None,
    }
}

/// How many symbols one subscription frame of a kind may name.
pub fn subscription_ceiling(kind: MessageKind) -> (ceiling: usize)
    ensures
        ceiling == SYMBOL_CEILING,
{
    SYMBOL_CEILING
}

/// The word for the event of a command.
pub open spec fn event_word(subscribe: bool) -> Seq<char> {
    if subscribe {
        "subscribe"@
    } else {
        "unsubscribe"@
    }
}

/// The text of a command frame: the event, the channel, and the payload as it stands.
pub open spec fn command_text(subscribe: bool, channel: Seq<char>, payload: Seq<char>) -> Seq<char> {
    "{\"event\": \""@ + event_word(subscribe) + "\",\"channel\": \""@ + channel
        + "\", \"payload\": "@ + payload + "}"@
}

/// Builds a command frame around a payload that is JSON already.
pub fn command_frame(subscribe: bool, channel: &str, payload: &str) -> (frame: String)
    ensures
        frame@ == command_text(subscribe, channel@, payload@),
{
    let mut frame = String::from_str("{\"event\": \"");
    if subscribe {
        frame.append("subscribe");
    } else {
        frame.append("unsubscribe");
    }
    frame.append("\",\"channel\": \"");
    frame.append(channel);
    frame.append("\", \"payload\": ");
    frame.append(payload);
    frame.append("}");
    frame
}

/// Whether the encoder gives a text for every group.
pub open spec fn encodable(groups: Seq<Seq<Seq<char>>>) -> bool {
    forall|i: int| 0 <= i < groups.len() ==> (#[trigger] json_array_text(groups[i])).is_some()
}

/// One command frame for each group, with the group's symbols as its payload.
pub open spec fn frames_of(subscribe: bool, channel: Seq<char>, groups: Seq<Seq<Seq<char>>>) -> Seq<
    Seq<char>,
> {
    Seq::new(
        groups.len(),
        |i: int| command_text(subscribe, channel, json_array_text(groups[i]).unwrap()),
    )
}

/// The frames of a command for `symbols` on the channel of `kind`: as few as the ceiling
/// allows, the symbols in their order.
pub open spec fn translated(subscribe: bool, kind: MessageKind, symbols: Seq<Seq<char>>) -> Result<
    Seq<Seq<char>>,
    TranslateError,
> {
    match channel_of(kind) {
        None => Err(TranslateError::UnsupportedChannel),
        Some(channel) => {
            let groups = chunks(symbols, SYMBOL_CEILING as nat);
            if encodable(groups) {
                Ok(frames_of(subscribe, channel, groups))
            } else {
                Err(TranslateError::Encoding)
            }
        },
    }
}

/// The frames that subscribe to `symbols` on the channel of `kind`, or that end these
/// subscriptions.
pub fn translate(subscribe: bool, kind: MessageKind, symbols: &Vec<String>) -> (frames: Result<
    Vec<String>,
    TranslateError,
>)
    ensures
        match frames {
            Ok(list) => translated(subscribe, kind, texts(symbols@)) == Ok::<
                Seq<Seq<char>>,
                TranslateError,
            >(texts(list@)),
            Err(e) => translated(subscribe, kind, texts(symbols@)) == Err::<
                Seq<Seq<char>>,
                TranslateError,
            >(e),
        },
{
    let name = match channel(kind) {
        None => {
            return Err(TranslateError::UnsupportedChannel);
        },
        Some(name) => name,
    };
    let groups = partition_symbols(symbols, SYMBOL_CEILING);
    let ghost parts = chunks(texts(symbols@), SYMBOL_CEILING as nat);
    let mut list: Vec<String> = Vec::new();
    let mut i: usize = 0;
    while i < groups.len()
        invariant
            i <= groups.len(),
            channel_of(kind) == Some(name@),
            parts == chunks(texts(symbols@), SYMBOL_CEILING as nat),
            parts == group_texts(groups@),
            list@.len() == i,
            forall|j: int| 0 <= j < i ==> (#[trigger] json_array_text(parts[j])).is_some(),
            forall|j: int|
                0 <= j < i ==> #[trigger] texts(list@)[j] == command_text(
                    subscribe,
                    name@,
                    json_array_text(parts[j]).unwrap(),
                ),
        decreases groups.len() - i,
    {
        let ghost prev = list@;
        assert(parts[i as int] == texts(groups@[i as int]@));
        match encode_symbols(&groups[i]) {
            Err(_) => {
                assert(!encodable(parts));
                return Err(TranslateError::Encoding);
            },
            Ok(payload) => {
                list.push(command_frame(subscribe, name, payload.as_str()));
            },
        }
        assert forall|j: int| 0 <= j < i + 1 implies #[trigger] texts(list@)[j] == command_text(
            subscribe,
            name@,
            json_array_text(parts[j]).unwrap(),
        ) by {
            if j < i {
                assert(texts(prev)[j] == texts(list@)[j]);
            }
        }
        i += 1;
    }
    assert(encodable(parts));
    assert(texts(list@) =~= frames_of(subscribe, name@, parts));
    Ok(list)
}

/// The frames that subscribe to `symbols` on the channel of `kind`.
pub fn translate_subscribe(kind: MessageKind, symbols: &Vec<String>) -> (frames: Result<
    Vec<String>,
    TranslateError,
>)
    ensures
        match frames {
            Ok(list) => translated(true, kind, texts(symbols@)) == Ok::<
                Seq<Seq<char>>,
                TranslateError,
            >(texts(list@)),
            Err(e) => translated(true, kind, texts(symbols@)) == Err::<
                Seq<Seq<char>>,
                TranslateError,
            >(e),
        },
{
    translate(true, kind, symbols)
}

/// The frames that end the subscriptions to `symbols` on the channel of `kind`.
pub fn translate_unsubscribe(kind: MessageKind, symbols: &Vec<String>) -> (frames: Result<
    Vec<String>,
    TranslateError,
>)
    ensures
        match frames {
            Ok(list) => translated(false, kind, texts(symbols@)) == Ok::<
                Seq<Seq<char>>,
                TranslateError,
            >(texts(list@)),
            Err(e) => translated(false, kind, texts(symbols@)) == Err::<
                Seq<Seq<char>>,
                TranslateError,
            >(e),
        },
{
    translate(false, kind, symbols)
}

/// The venue's heartbeat frame.
pub fn translate_ping() -> (frame: Option<String>)
    ensures
        frame matches Some(text) && text@ == "{\"channel\":\"spot.ping\"}"@,
{
    Some(String::from_str("{\"channel\":\"spot.ping\"}"))
}

} // verus!
