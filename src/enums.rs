use vstd::prelude::*;

verus! {

/// Lifecycle state of a market: `Draft -> Open -> Closed -> Settled`.
#[derive(Clone, Copy, Debug, PartialEq, Eq, Structural)]
pub enum MarketStatus {
    Draft,
    Open,
    Closed,
    Settled,
}

/// The transitions of the lifecycle graph: staying put, or one step forward.
pub open spec fn lifecycle_step(from: MarketStatus, to: MarketStatus) -> bool {
    ||| from == to
    ||| (from == MarketStatus::Draft && to == MarketStatus::Open)
    ||| (from == MarketStatus::Open && to == MarketStatus::Closed)
    ||| (from == MarketStatus::Closed && to == MarketStatus::Settled)
}

} // verus!
