//! The tags that every message carries: market type, message kind, trade side, and the
//! state of a connection.

use vstd::prelude::*;

verus! {

/// The convention of a market: what is traded and in which unit sizes are quoted.
#[derive(Clone, Copy, Debug, PartialEq, Eq, Hash, Structural)]
pub enum MarketType {
    Spot,
    LinearPerpetual,
    InversePerpetual,
    LinearFuture,
    InverseFuture,
    EuropeanOption,
    Unknown,
}

/// The kind of a channel and of the messages that it carries.
#[derive(Clone, Copy, Debug, PartialEq, Eq, Hash, Structural)]
pub enum MessageKind {
    Trade,
    /// Incremental order book updates.
    L2Book,
    /// Snapshots of the best levels.
    L2BookTopK,
    /// Full snapshots.
    L2BookAll,
    L3Book,
    BBO,
    Ticker,
    Candlestick,
    FundingRate,
    Other,
}

/// Which side the aggressor of a trade took.
#[derive(Clone, Copy, Debug, PartialEq, Eq, Hash, Structural)]
pub enum TradeSide {
    Buy,
    Sell,
}

/// The state of a session's connection. A session is in one state at a time.
#[derive(Clone, Copy, Debug, PartialEq, Eq, Hash, Structural)]
pub enum ConnectionState {
    Disconnected,
    Connecting,
    Open,
    Closing,
    Failed,
}

/// In which unit a market quotes the size of a trade.
#[derive(Clone, Copy, Debug, PartialEq, Eq, Hash, Structural)]
pub enum ContractStyle {
    /// The size is in base units.
    Spot,
    /// The size counts contracts, and a contract is worth a number of base units.
    Linear,
    /// The size counts contracts, and a contract is worth a number of quote units.
    Inverse,
}

/// The style of a market type. An unknown market has none, and neither has an option.
pub open spec fn style_of(market_type: MarketType) -> Option<ContractStyle> {
    match market_type {
        MarketType::Spot => Some(ContractStyle::Spot),
        MarketType::LinearPerpetual => Some(ContractStyle::Linear),
        MarketType::LinearFuture => Some(ContractStyle::Linear),
        MarketType::InversePerpetual => Some(ContractStyle::Inverse),
        MarketType::InverseFuture => Some(ContractStyle::Inverse),
        MarketType::EuropeanOption => None,
        MarketType::Unknown => None,
    }
}

/// The style of a market type.
pub fn contract_style(market_type: MarketType) -> (style: Option<ContractStyle>)
    ensures
        style == style_of(market_type),
{
    match market_type {
        MarketType::Spot => Some(ContractStyle::Spot),
        MarketType::LinearPerpetual => Some(ContractStyle::Linear),
        MarketType::LinearFuture => Some(ContractStyle::Linear),
        MarketType::InversePerpetual => Some(ContractStyle::Inverse),
        MarketType::InverseFuture => Some(ContractStyle::Inverse),
        MarketType::EuropeanOption => None,
        MarketType::Unknown => None,
    }
}

} // verus!
