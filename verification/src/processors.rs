//! The registry of processors selectable by name at startup.

pub mod marketplace_processor;

use vstd::prelude::*;

use crate::json::str_eq;

verus! {

/// One registered processor per indexed domain.
#[derive(Debug, Clone, Copy, PartialEq, Eq, Structural)]
pub enum Processor {
    CoinProcessor,
    DefaultProcessor,
    TokenProcessor,
    StakeProcessor,
    MarketplaceProcessor,
}

/// The processor a configured name selects, if any.
pub open spec fn spec_processor_for_name(name: Seq<char>) -> Option<Processor> {
    if name == "default_processor"@ {
        Some(Processor::DefaultProcessor)
    } else if name == "token_processor"@ {
        Some(Processor::TokenProcessor)
    } else if name == "coin_processor"@ {
        Some(Processor::CoinProcessor)
    } else if name == "stake_processor"@ {
        Some(Processor::StakeProcessor)
    } else if name == "marketplace_processor"@ {
        Some(Processor::MarketplaceProcessor)
    } else {
        None
    }
}

impl Processor {
    /// Selects the processor a registered name names; an unregistered
    /// name is a fatal configuration error, so callers rule it out with
    /// `try_from_string` first.
    pub fn from_string(input_str: &String) -> (r: Self)
        requires
            spec_processor_for_name(input_str@) is Some,
        ensures
            Some(r) == spec_processor_for_name(input_str@),
    {
        match Self::try_from_string(input_str) {
            Some(p) => p,
            None => vstd::pervasive::unreached(),
        }
    }

    /// Selects the processor a name names, or `None` for a name outside
    /// the registry.
    pub fn try_from_string(input_str: &String) -> (r: Option<Self>)
        ensures
            r == spec_processor_for_name(input_str@),
    {
        let s = input_str.as_str();
        if str_eq(s, "default_processor") {
            Some(Processor::DefaultProcessor)
        } else if str_eq(s, "token_processor") {
            Some(Processor::TokenProcessor)
        } else if str_eq(s, "coin_processor") {
            Some(Processor::CoinProcessor)
        } else if str_eq(s, "stake_processor") {
            Some(Processor::StakeProcessor)
        } else if str_eq(s, "marketplace_processor") {
            Some(Processor::MarketplaceProcessor)
        } else {
            None
        }
    }
}

} // verus!
