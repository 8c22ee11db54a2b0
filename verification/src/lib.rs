//! A ballot-with-incentive library: a voting ledger that records at most one
//! vote per voter over a fixed candidate roster, plus a reward dispatcher that
//! describes the two side effects a committed vote triggers (a fixed reward
//! mint and a deposit forwarded to an external liquidity-pool program).
//!
//! The ledger and the dispatcher are pure: they validate, mutate in-memory
//! state and build requests. Performing the external calls, and converting the
//! requests to the host chain's account and instruction types, is left to the
//! surrounding application.

pub mod ids;
pub mod errors;
pub mod state;
pub mod model;
pub mod dispatcher;
pub mod flow;
