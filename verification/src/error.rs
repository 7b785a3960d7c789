use vstd::prelude::*;

verus! {

/// Why an instruction is refused.
#[derive(Clone, Copy, Debug, PartialEq, Eq, Structural)]
pub enum ErrorCode {
    MarketHalted,
    InsufficientOptions,
    NotWithinExerciseWindow,
    NotExpired,
    FactoryNotActive,
    NoUnsoldOptions,
    CannotTradeWithSelf,
}

/// The message that goes with each refusal.
pub open spec fn error_message(e: ErrorCode) -> Seq<char> {
    match e {
        ErrorCode::MarketHalted => "Market is halted."@,
        ErrorCode::InsufficientOptions => "Insufficient options in escrow to fill the order."@,
        ErrorCode::NotWithinExerciseWindow => "Not within the exercise window."@,
        ErrorCode::NotExpired => "Option has not expired yet."@,
        ErrorCode::FactoryNotActive => "Factory is not active."@,
        ErrorCode::NoUnsoldOptions => "No unsold options to reclaim."@,
        ErrorCode::CannotTradeWithSelf => "Self trading is not allowed on mainnet."@,
    }
}

impl ErrorCode {
    /// The human-readable message of this refusal.
    pub fn message(&self) -> (text: &'static str)
        ensures
            text@ == error_message(*self),
    {
        match self {
            ErrorCode::MarketHalted => "Market is halted.",
            ErrorCode::InsufficientOptions => "Insufficient options in escrow to fill the order.",
            ErrorCode::NotWithinExerciseWindow => "Not within the exercise window.",
            ErrorCode::NotExpired => "Option has not expired yet.",
            ErrorCode::FactoryNotActive => "Factory is not active.",
            ErrorCode::NoUnsoldOptions => "No unsold options to reclaim.",
            ErrorCode::CannotTradeWithSelf => "Self trading is not allowed on mainnet.",
        }
    }
}

} // verus!
