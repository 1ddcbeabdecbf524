//! Core decision logic for a two-leg hedging strategy on a binary-outcome
//! market venue: fixed-point sizing, trading-window gating, a bounded-retry
//! schedule, and the position/hedge state machine that reacts to observed
//! order state.
//!
//! The library never performs I/O itself.  A driver places orders, reads
//! their status and fetches prices, and hands every observation to the
//! state machine as a plain value; the machine's contract pins down each
//! decision taken in response.  The one item taken on trust inside the
//! library is the wall-clock read in [`window`], and the functions built on
//! it state no more than that; the gating decisions themselves are pure
//! functions of an explicit clock reading.

pub mod engine;
pub mod fixed;
pub mod market;
pub mod retry;
pub mod types;
pub mod window;
