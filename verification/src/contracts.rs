//! Contract values: how much one contract of a market is worth, and the rule by which
//! the size of a trade becomes a quantity and a volume.
//!
//! A multiplier is carried as the bits of its binary64 value. This library looks
//! multipliers up and hands them on; it never computes with them.

use vstd::prelude::*;
use crate::kinds::{contract_style, style_of, ContractStyle, MarketType};
use crate::text::same_text;

verus! {

/// How the size that a venue reports for a trade becomes a quantity in base units and
/// a volume in quote units.
#[derive(Clone, Copy, Debug, PartialEq, Eq, Hash, Structural)]
pub enum QuantityRule {
    /// The size is the quantity; the volume is the price times the quantity.
    Spot,
    /// The quantity is the size times the multiplier; the volume is the price times the
    /// quantity.
    Linear { multiplier: u64 },
    /// The volume is the size times the multiplier; the quantity is the volume divided
    /// by the price.
    Inverse { multiplier: u64 },
}

/// The value of the contracts of one pair in one market.
#[derive(Debug, Clone, PartialEq, Eq)]
pub struct Contract {
    pub exchange: String,
    pub market_type: MarketType,
    pub pair: String,
    /// How much one contract is worth, as the bits of its binary64 value.
    pub multiplier: u64,
}

pub struct ContractModel {
    pub exchange: Seq<char>,
    pub market_type: MarketType,
    pub pair: Seq<char>,
    pub multiplier: u64,
}

impl View for Contract {
    type V = ContractModel;

    open spec fn view(&self) -> ContractModel {
        ContractModel {
            exchange: self.exchange@,
            market_type: self.market_type,
            pair: self.pair@,
            multiplier: self.multiplier,
        }
    }
}

/// The models of a list of contracts.
pub open spec fn contract_models(contracts: Seq<Contract>) -> Seq<ContractModel> {
    contracts.map_values(|c: Contract| c@)
}

/// Whether an entry is for this exchange, market and pair.
pub open spec fn is_for(
    entry: ContractModel,
    exchange: Seq<char>,
    market_type: MarketType,
    pair: Seq<char>,
) -> bool {
    entry.exchange == exchange && entry.market_type == market_type && entry.pair == pair
}

/// The multiplier that a table holds for an exchange, a market and a pair: that of the
/// entry that was put in last.
pub open spec fn multiplier_in(
    entries: Seq<ContractModel>,
    exchange: Seq<char>,
    market_type: MarketType,
    pair: Seq<char>,
) -> Option<u64>
    decreases entries.len(),
{
    if entries.len() == 0 {
        None
    } else if is_for(entries.last(), exchange, market_type, pair) {
        Some(entries.last().multiplier)
    } else {
        multiplier_in(entries.drop_last(), exchange, market_type, pair)
    }
}

/// The rule for the trades of a pair. A spot market needs no entry. A contract market
/// whose pair has no entry has no rule: it is never taken for another.
pub open spec fn rule_in(
    entries: Seq<ContractModel>,
    exchange: Seq<char>,
    market_type: MarketType,
    pair: Seq<char>,
) -> Option<QuantityRule> {
    match style_of(market_type) {
        None => None,
        Some(ContractStyle::Spot) => Some(QuantityRule::Spot),
        Some(ContractStyle::Linear) => match multiplier_in(entries, exchange, market_type, pair) {
            Some(multiplier) => Some(QuantityRule::Linear { multiplier }),
            None => None,
        },
        Some(ContractStyle::Inverse) => match multiplier_in(entries, exchange, market_type, pair) {
            Some(multiplier) => Some(QuantityRule::Inverse { multiplier }),
            None => None,
        },
    }
}

/// The table of contract values, keyed by exchange, market type and pair.
pub struct ContractTable {
    entries: Vec<Contract>,
}

impl View for ContractTable {
    type V = Seq<ContractModel>;

    closed spec fn view(&self) -> Seq<ContractModel> {
        contract_models(self.entries@)
    }
}

impl ContractTable {
    /// A table without entries.
    pub fn new() -> (table: ContractTable)
        ensures
            table@ == Seq::<ContractModel>::empty(),
    {
        let table = ContractTable { entries: Vec::new() };
        assert(contract_models(table.entries@) =~= Seq::<ContractModel>::empty());
        table
    }

    /// How many entries were put in.
    pub fn len(&self) -> (len: usize)
        ensures
            len == self@.len(),
    {
        self.entries.len()
    }

    /// Puts an entry in. It stands for its exchange, market and pair from now on.
    pub fn insert(&mut self, contract: Contract)
        ensures
            final(self)@ == old(self)@.push(contract@),
    {
        let ghost before = self.entries@;
        self.entries.push(contract);
        assert(contract_models(self.entries@) =~= contract_models(before).push(contract@));
    }

    /// The multiplier for an exchange, a market and a pair.
    pub fn multiplier(&self, exchange: &str, market_type: MarketType, pair: &str) -> (multiplier:
        Option<u64>)
        ensures
            multiplier == multiplier_in(self@, exchange@, market_type, pair@),
    {
        let ghost all = contract_models(self.entries@);
        let mut i: usize = self.entries.len();
        assert(all.take(i as int) =~= all);
        while i > 0
            invariant
                i <= self.entries.len(),
                all == contract_models(self.entries@),
                multiplier_in(all, exchange@, market_type, pair@) == multiplier_in(
                    all.take(i as int),
                    exchange@,
                    market_type,
                    pair@,
                ),
            decreases i,
        {
            let entry = &self.entries[i - 1];
            assert(all.take(i as int).last() == entry@);
            assert(all.take(i as int).drop_last() =~= all.take(i - 1));
            if entry.market_type == market_type && same_text(entry.exchange.as_str(), exchange)
                && same_text(entry.pair.as_str(), pair) {
                return Some(entry.multiplier);
            }
            i -= 1;
        }
        None
    }

    /// The rule for the trades of a pair.
    pub fn rule(&self, exchange: &str, market_type: MarketType, pair: &str) -> (rule: Option<
        QuantityRule,
    >)
        ensures
            rule == rule_in(self@, exchange@, market_type, pair@),
    {
        match contract_style(market_type) {
            None => None,
            Some(ContractStyle::Spot) => Some(QuantityRule::Spot),
            Some(ContractStyle::Linear) => match self.multiplier(exchange, market_type, pair) {
                Some(multiplier) => Some(QuantityRule::Linear { multiplier }),
                None => None,
            },
            Some(ContractStyle::Inverse) => match self.multiplier(exchange, market_type, pair) {
                Some(multiplier) => Some(QuantityRule::Inverse { multiplier }),
                None => None,
            },
        }
    }
}

/// An entry that was put in is found, and the entries for other keys are as they were.
pub proof fn law_insert_then_lookup(
    entries: Seq<ContractModel>,
    entry: ContractModel,
    exchange: Seq<char>,
    market_type: MarketType,
    pair: Seq<char>,
)
    ensures
        multiplier_in(entries.push(entry), entry.exchange, entry.market_type, entry.pair) == Some(
            entry.multiplier,
        ),
        !is_for(entry, exchange, market_type, pair) ==> multiplier_in(
            entries.push(entry),
            exchange,
            market_type,
            pair,
        ) == multiplier_in(entries, exchange, market_type, pair),
{
    assert(entries.push(entry).last() == entry);
    assert(entries.push(entry).drop_last() =~= entries);
}

} // verus!
