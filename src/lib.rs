//! Settlement engine for pari-mutuel prediction markets: protocol
//! configuration, the market lifecycle, stake aggregation, fee and payout
//! accounting.
pub mod address;
pub mod constants;
pub mod enums;
pub mod errors;
pub mod laws;
pub mod lifecycle;
pub mod market;
pub mod math;
pub mod protocol;
pub mod settlement;
pub mod staking;
