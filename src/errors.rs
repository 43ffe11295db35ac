use vstd::prelude::*;

verus! {

/// Every way a lifecycle operation can be rejected.
#[derive(Clone, Copy, Debug, PartialEq, Eq, Structural)]
pub enum ProtocolError {
    /// The fee rate lies outside `0..=10000` basis points.
    InvalidProtocolFeeBps,
    /// The caller is not the configured administrator.
    Unauthorized,
    /// The protocol is paused.
    ProtocolPaused,
    /// The market is not in the state the operation needs, or a claim was
    /// made on a losing position.
    InvalidMarketState,
    /// A malformed staking window, or a time gate not yet (or no longer) met.
    InvalidTimestamp,
    /// An outcome count or outcome index out of bounds.
    InvalidItemIndex,
    /// A zero stake, a custody account that does not belong to the market,
    /// or a zero winning denominator.
    InvalidStakeAmount,
    /// The effective stake exceeds the multiplier cap.
    EffectiveStakeTooLarge,
    /// The position has already been paid out.
    AlreadyClaimed,
    /// The market has already been settled.
    MarketAlreadySettled,
    /// A checked arithmetic operation overflowed.
    MathOverflow,
}

impl ProtocolError {
    /// The human-readable message of the error.
    pub fn message(&self) -> (r: &'static str) {
        match self {
            ProtocolError::InvalidProtocolFeeBps => "Protocol fee bps must be between 0 and 10000.",
            ProtocolError::Unauthorized => "Unauthorized access.",
            ProtocolError::ProtocolPaused => "Protocol is paused.",
            ProtocolError::InvalidMarketState => "Market is not in the required state.",
            ProtocolError::InvalidTimestamp => "Invalid timestamp.",
            ProtocolError::InvalidItemIndex => "Invalid item index.",
            ProtocolError::InvalidStakeAmount => "Invalid stake amount.",
            ProtocolError::EffectiveStakeTooLarge => "Effective stake exceeds allowed multiplier.",
            ProtocolError::AlreadyClaimed => "Position already claimed.",
            ProtocolError::MarketAlreadySettled => "Market already settled.",
            ProtocolError::MathOverflow => "Math overflow occurred.",
        }
    }
}

} // verus!
