use vstd::prelude::*;

verus! {

/// When the character exchanges HEXA boosters.
#[derive(Debug, Clone, Copy, PartialEq, Eq, Structural, Default)]
pub enum ExchangeHexaBoosterCondition {
    /// Never exchange.
    #[default]
    Never,
    /// Exchange when the booster stock is full.
    Full,
    /// Exchange as soon as one booster can be had.
    AtLeastOne,
}

} // verus!
