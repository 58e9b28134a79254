//! The normalizer of MXC's swap market: from a trade frame to trade messages.
//!
//! Prices and sizes are carried as the bits of their binary64 values. This library
//! never computes with them: it names the [`QuantityRule`] by which the caller
//! reconciles the size into a quantity and a volume.

use vstd::prelude::*;
use crate::contracts::{rule_in, ContractModel, ContractTable, QuantityRule};
use crate::envelope::ParseError;
use crate::kinds::{MarketType, MessageKind, TradeSide};
use crate::pair::{normalize_pair, pair_of};
use crate::text::{decimal_string, decimal_text};

verus! {

/// One trade as the venue sends it.
#[derive(Debug, Clone, Copy, PartialEq, Eq, Structural)]
pub struct RawTrade {
    /// The price, as the bits of its binary64 value.
    pub price: u64,
    /// The size, as the bits of its binary64 value.
    pub size: u64,
    /// 1 for a buy, 2 for a sell.
    pub side: i64,
    /// When the trade happened, in milliseconds since the epoch.
    pub timestamp: i64,
}

/// A frame of the venue's trade channel.
#[derive(Debug, Clone, PartialEq, Eq)]
pub struct TradeFrame {
    pub channel: String,
    pub symbol: String,
    /// When the venue sent the frame, in milliseconds since the epoch.
    pub ts: i64,
    pub data: RawTrade,
}

pub struct TradeFrameModel {
    pub channel: Seq<char>,
    pub symbol: Seq<char>,
    pub ts: i64,
    pub data: RawTrade,
}

impl View for TradeFrame {
    type V = TradeFrameModel;

    open spec fn view(&self) -> TradeFrameModel {
        TradeFrameModel {
            channel: self.channel@,
            symbol: self.symbol@,
            ts: self.ts,
            data: self.data,
        }
    }
}

/// A normalized trade.
#[derive(Debug, Clone, PartialEq, Eq)]
pub struct TradeMsg {
    pub exchange: String,
    pub market_type: MarketType,
    /// The symbol as the venue writes it.
    pub symbol: String,
    /// The canonical pair.
    pub pair: String,
    pub msg_type: MessageKind,
    /// When the trade happened, in milliseconds since the epoch.
    pub timestamp: i64,
    /// The price, as the bits of its binary64 value.
    pub price: u64,
    /// How the size of `raw` becomes the quantity and the volume.
    pub rule: QuantityRule,
    pub side: TradeSide,
    pub trade_id: String,
    /// The trade as it came.
    pub raw: RawTrade,
}

pub struct TradeMsgModel {
    pub exchange: Seq<char>,
    pub market_type: MarketType,
    pub symbol: Seq<char>,
    pub pair: Seq<char>,
    pub msg_type: MessageKind,
    pub timestamp: i64,
    pub price: u64,
    pub rule: QuantityRule,
    pub side: TradeSide,
    pub trade_id: Seq<char>,
    pub raw: RawTrade,
}

impl View for TradeMsg {
    type V = TradeMsgModel;

    open spec fn view(&self) -> TradeMsgModel {
        TradeMsgModel {
            exchange: self.exchange@,
            market_type: self.market_type,
            symbol: self.symbol@,
            pair: self.pair@,
            msg_type: self.msg_type,
            timestamp: self.timestamp,
            price: self.price,
            rule: self.rule,
            side: self.side,
            trade_id: self.trade_id@,
            raw: self.raw,
        }
    }
}

/// The models of a list of trades.
pub open spec fn trade_models(trades: Seq<TradeMsg>) -> Seq<TradeMsgModel> {
    trades.map_values(|t: TradeMsg| t@)
}

/// The side that the venue's code stands for: 2 is a sell, anything else a buy.
pub open spec fn side_of(code: i64) -> TradeSide {
    if code == 2 {
        TradeSide::Sell
    } else {
        TradeSide::Buy
    }
}

/// The side that the venue's code stands for.
pub fn trade_side(code: i64) -> (side: TradeSide)
    ensures
        side == side_of(code),
{
    if code == 2 {
        TradeSide::Sell
    } else {
        TradeSide::Buy
    }
}

/// The trade of a frame: under the venue's name, with the symbol's canonical pair, the
/// trade's own time as its timestamp and, in decimal, as its identifier.
pub open spec fn trade_of(
    market_type: MarketType,
    frame: TradeFrameModel,
    pair: Seq<char>,
    rule: QuantityRule,
) -> TradeMsgModel {
    TradeMsgModel {
        exchange: "mxc"@,
        market_type,
        symbol: frame.symbol,
        pair,
        msg_type: MessageKind::Trade,
        timestamp: frame.data.timestamp,
        price: frame.data.price,
        rule,
        side: side_of(frame.data.side),
        trade_id: decimal_text(frame.data.timestamp as int),
        raw: frame.data,
    }
}

/// The trades of a frame: one, or the reason why there is none. The symbol's pair is
/// looked for first, then the rule for the pair's sizes.
pub open spec fn parsed(
    market_type: MarketType,
    frame: TradeFrameModel,
    contracts: Seq<ContractModel>,
) -> Result<Seq<TradeMsgModel>, ParseError> {
    match pair_of(frame.symbol, "mxc"@) {
        None => Err(ParseError::UnknownPair),
        Some(pair) => match rule_in(contracts, "mxc"@, market_type, pair) {
            None => Err(ParseError::UnknownContract),
            Some(rule) => Ok(seq![trade_of(market_type, frame, pair, rule)]),
        },
    }
}

/// Normalizes a trade frame.
pub fn parse_trade(market_type: MarketType, frame: &TradeFrame, contracts: &ContractTable) -> (trades:
    Result<Vec<TradeMsg>, ParseError>)
    ensures
        match trades {
            Ok(list) => parsed(market_type, frame@, contracts@) == Ok::<
                Seq<TradeMsgModel>,
                ParseError,
            >(trade_models(list@)),
            Err(e) => parsed(market_type, frame@, contracts@) == Err::<
                Seq<TradeMsgModel>,
                ParseError,
            >(e),
        },
{
    let pair = match normalize_pair(frame.symbol.as_str(), "mxc") {
        None => {
            return Err(ParseError::UnknownPair);
        },
        Some(pair) => pair,
    };
    let rule = match contracts.rule("mxc", market_type, pair.as_str()) {
        None => {
            return Err(ParseError::UnknownContract);
        },
        Some(rule) => rule,
    };
    let trade = TradeMsg {
        exchange: String::from_str("mxc"),
        market_type,
        symbol: frame.symbol.clone(),
        pair,
        msg_type: MessageKind::Trade,
        timestamp: frame.data.timestamp,
        price: frame.data.price,
        rule,
        side: trade_side(frame.data.side),
        trade_id: decimal_string(frame.data.timestamp),
        raw: frame.data,
    };
    let mut list: Vec<TradeMsg> = Vec::new();
    list.push(trade);
    assert(trade_models(list@) =~= seq![trade_of(market_type, frame@, pair@, rule)]);
    Ok(list)
}

} // verus!
