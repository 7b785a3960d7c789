//! A verified model of the `stableperp` covered-option program: its account
//! state, the arithmetic that prices collateral, premiums and payouts, and the
//! instruction handlers as transitions from accounts to accounts plus the token
//! instructions that the runtime has to carry out.
pub mod error;
pub mod math;
pub mod pubkey;
pub mod seeds;
pub mod state;
pub mod pricing;
pub mod token;
pub mod instructions;
pub mod laws;
pub mod outcomes;
