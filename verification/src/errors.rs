use vstd::prelude::*;

verus! {

/// The error taxonomy of the market core. Every failure is reported to the
/// caller as a typed value; none is fatal to the process.
#[derive(Clone, Copy, PartialEq, Eq, Structural, Debug)]
pub enum MarketError {
    /// An unknown player, stock, transaction or upgrade was named.
    NotFound,
    /// A zero share count, an empty identifier, or an otherwise malformed
    /// argument was supplied.
    InvalidArgument,
    /// A player's balance cannot cover a cost.
    InsufficientFunds,
    /// Too few shares are available in inventory or held by the player.
    InsufficientShares,
    /// Arithmetic overflow in a price or cost computation.
    Overflow,
    /// The market configuration row is missing.
    NotInitialized,
}

/// The text each error reports.
pub open spec fn spec_message(e: MarketError) -> Seq<char> {
    match e {
        MarketError::NotFound => "not found"@,
        MarketError::InvalidArgument => "invalid argument"@,
        MarketError::InsufficientFunds => "not enough money"@,
        MarketError::InsufficientShares => "not enough shares"@,
        MarketError::Overflow => "arithmetic overflow"@,
        MarketError::NotInitialized => "market configuration not initialized"@,
    }
}

impl MarketError {
    /// A short description of the error, for callers that report failures
    /// as text.
    pub fn message(&self) -> (r: &'static str)
        ensures
            r@ == spec_message(*self),
    {
        let s: &'static str = match self {
            MarketError::NotFound => "not found",
            MarketError::InvalidArgument => "invalid argument",
            MarketError::InsufficientFunds => "not enough money",
            MarketError::InsufficientShares => "not enough shares",
            MarketError::Overflow => "arithmetic overflow",
            MarketError::NotInitialized => "market configuration not initialized",
        };
        proof {
            reveal_strlit("not found");
            reveal_strlit("invalid argument");
            reveal_strlit("not enough money");
            reveal_strlit("not enough shares");
            reveal_strlit("arithmetic overflow");
            reveal_strlit("market configuration not initialized");
        }
        s
    }
}

} // verus!
