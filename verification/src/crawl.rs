//! The crawl orchestrator's plan: which venue serves a request, and which frames
//! subscribe to its symbols.

use vstd::prelude::*;
use crate::batch::{chunks, group_texts, partition_symbols};
use crate::kinds::{MarketType, MessageKind};
use crate::text::{same_text, texts};
use crate::translator::{
    channel_of, encodable, frames_of, translate, translated, TranslateError, SYMBOL_CEILING,
};

verus! {

/// Why a crawl cannot start.
#[derive(Clone, Copy, Debug, PartialEq, Eq, Structural)]
pub enum CrawlError {
    /// No adapter serves this exchange and market.
    UnsupportedVenue,
    /// The venue has no channel of this kind.
    UnsupportedChannel,
    /// The channel needs symbols, and none were given.
    SymbolsRequired,
    /// The encoder gave no text for a group of symbols.
    Encoding,
}

/// The venues that have an adapter.
#[derive(Clone, Copy, Debug, PartialEq, Eq, Structural)]
pub enum Venue {
    GateSpot,
}

/// The adapter of an exchange and a market.
pub open spec fn venue_of(exchange: Seq<char>, market_type: MarketType) -> Option<Venue> {
    if exchange == "gate"@ && market_type == MarketType::Spot {
        Some(Venue::GateSpot)
    } else {
        None
    }
}

/// The adapter of an exchange and a market.
pub fn resolve_venue(exchange: &str, market_type: MarketType) -> (venue: Option<Venue>)
    ensures
        venue == venue_of(exchange@, market_type),
{
    if same_text(exchange, "gate") && market_type == MarketType::Spot {
        Some(Venue::GateSpot)
    } else {
        None
    }
}

/// What a crawl sends when its session is open.
#[derive(Debug, Clone, PartialEq, Eq)]
pub struct CrawlPlan {
    pub venue: Venue,
    pub kind: MessageKind,
    /// The symbols, in groups of no more than the venue's ceiling.
    pub groups: Vec<Vec<String>>,
    /// One subscription frame for each group.
    pub frames: Vec<String>,
}

pub struct CrawlPlanModel {
    pub venue: Venue,
    pub kind: MessageKind,
    pub groups: Seq<Seq<Seq<char>>>,
    pub frames: Seq<Seq<char>>,
}

impl View for CrawlPlan {
    type V = CrawlPlanModel;

    open spec fn view(&self) -> CrawlPlanModel {
        CrawlPlanModel {
            venue: self.venue,
            kind: self.kind,
            groups: group_texts(self.groups@),
            frames: texts(self.frames@),
        }
    }
}

/// Whether symbols were given.
pub open spec fn has_symbols(symbols: Option<Seq<Seq<char>>>) -> bool {
    symbols matches Some(list) && list.len() > 0
}

/// The plan of a crawl. The venue is resolved first; then symbols are asked for; then
/// the symbols are parted by the venue's ceiling and each group is put into a frame.
pub open spec fn planned(
    exchange: Seq<char>,
    market_type: MarketType,
    kind: MessageKind,
    symbols: Option<Seq<Seq<char>>>,
) -> Result<CrawlPlanModel, CrawlError> {
    match venue_of(exchange, market_type) {
        None => Err(CrawlError::UnsupportedVenue),
        Some(venue) => if !has_symbols(symbols) {
            Err(CrawlError::SymbolsRequired)
        } else {
            match translated(true, kind, symbols->Some_0) {
                Err(TranslateError::UnsupportedChannel) => Err(CrawlError::UnsupportedChannel),
                Err(TranslateError::Encoding) => Err(CrawlError::Encoding),
                Ok(frames) => Ok(
                    CrawlPlanModel {
                        venue,
                        kind,
                        groups: chunks(symbols->Some_0, SYMBOL_CEILING as nat),
                        frames,
                    },
                ),
            }
        },
    }
}

/// The texts of symbols that may be missing.
pub open spec fn given(symbols: Option<&Vec<String>>) -> Option<Seq<Seq<char>>> {
    match symbols {
        Some(list) => Some(texts(list@)),
        None => None,
    }
}

/// Plans a crawl of one kind of channel at one venue.
pub fn plan_crawl(
    exchange: &str,
    market_type: MarketType,
    kind: MessageKind,
    symbols: Option<&Vec<String>>,
) -> (plan: Result<CrawlPlan, CrawlError>)
    ensures
        match plan {
            Ok(p) => planned(exchange@, market_type, kind, given(symbols)) == Ok::<
                CrawlPlanModel,
                CrawlError,
            >(p@),
            Err(e) => planned(exchange@, market_type, kind, given(symbols)) == Err::<
                CrawlPlanModel,
                CrawlError,
            >(e),
        },
{
    let venue = match resolve_venue(exchange, market_type) {
        None => {
            return Err(CrawlError::UnsupportedVenue);
        },
        Some(venue) => venue,
    };
    let list = match symbols {
        None => {
            return Err(CrawlError::SymbolsRequired);
        },
        Some(list) => list,
    };
    if list.len() == 0 {
        return Err(CrawlError::SymbolsRequired);
    }
    match translate(true, kind, list) {
        Err(TranslateError::UnsupportedChannel) => Err(CrawlError::UnsupportedChannel),
        Err(TranslateError::Encoding) => Err(CrawlError::Encoding),
        Ok(frames) => {
            let groups = partition_symbols(list, SYMBOL_CEILING);
            Ok(CrawlPlan { venue, kind, groups, frames })
        },
    }
}

/// The plan of a crawl of Gate's tickers: symbols are asked for before anything else.
pub open spec fn ticker_plan(market_type: MarketType, symbols: Option<Seq<Seq<char>>>) -> Result<
    CrawlPlanModel,
    CrawlError,
> {
    if !has_symbols(symbols) {
        Err(CrawlError::SymbolsRequired)
    } else {
        planned("gate"@, market_type, MessageKind::Ticker, symbols)
    }
}

/// Plans a crawl of Gate's tickers.
pub fn crawl_ticker(market_type: MarketType, symbols: Option<&Vec<String>>) -> (plan: Result<
    CrawlPlan,
    CrawlError,
>)
    ensures
        match plan {
            Ok(p) => ticker_plan(market_type, given(symbols)) == Ok::<CrawlPlanModel, CrawlError>(
                p@,
            ),
            Err(e) => ticker_plan(market_type, given(symbols)) == Err::<
                CrawlPlanModel,
                CrawlError,
            >(e),
        },
{
    let missing = match symbols {
        None => true,
        Some(list) => list.len() == 0,
    };
    if missing {
        return Err(CrawlError::SymbolsRequired);
    }
    plan_crawl("gate", market_type, MessageKind::Ticker, symbols)
}

/// A plan holds one frame for each group, and the frame of a group is the subscription
/// to the group's symbols on the channel of the plan's kind.
pub proof fn law_plan_frames_match_groups(
    exchange: Seq<char>,
    market_type: MarketType,
    kind: MessageKind,
    symbols: Option<Seq<Seq<char>>>,
)
    requires
        planned(exchange, market_type, kind, symbols) is Ok,
    ensures
        ({
            let plan = planned(exchange, market_type, kind, symbols)->Ok_0;
            &&& channel_of(kind) is Some
            &&& encodable(plan.groups)
            &&& plan.frames == frames_of(true, channel_of(kind)->Some_0, plan.groups)
            &&& plan.frames.len() == plan.groups.len()
        }),
{
}

} // verus!
