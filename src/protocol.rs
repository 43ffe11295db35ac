use vstd::prelude::*;
use crate::address::Address;
use crate::constants::MAX_FEE_BPS;
use crate::errors::ProtocolError;

verus! {

/// Deployment-wide configuration: administrator, fee destination, fee rate,
/// pause switch and the counter that numbers markets.
#[derive(Clone, Copy, Debug)]
pub struct Protocol {
    pub admin_authority: Address,
    pub treasury: Address,
    pub protocol_fee_bps: u16,
    pub market_count: u64,
    pub paused: bool,
    pub bump: u8,
}

impl Protocol {
    /// The fee rate is at most one whole.
    pub open spec fn wf(&self) -> bool {
        self.protocol_fee_bps <= MAX_FEE_BPS
    }

    /// Tests the configuration's invariant, for records that come from
    /// outside.
    pub fn is_well_formed(&self) -> (r: bool)
        ensures
            r == self.wf(),
    {
        self.protocol_fee_bps <= MAX_FEE_BPS
    }
}

/// The outcome of `initialize_protocol`.
pub open spec fn initialize_spec(admin: Address, protocol_fee_bps: u16, treasury: Address, bump: u8)
    -> Result<Protocol, ProtocolError>
{
    if protocol_fee_bps > MAX_FEE_BPS {
        Err(ProtocolError::InvalidProtocolFeeBps)
    } else {
        Ok(
            Protocol {
                admin_authority: admin,
                treasury,
                protocol_fee_bps,
                market_count: 0,
                paused: false,
                bump,
            },
        )
    }
}

/// The outcome of `update_protocol` on `p`.
pub open spec fn update_spec(
    p: Protocol,
    caller: Address,
    protocol_fee_bps: u16,
    treasury: Address,
    paused: bool,
) -> Result<Protocol, ProtocolError> {
    if caller != p.admin_authority {
        Err(ProtocolError::Unauthorized)
    } else if protocol_fee_bps > MAX_FEE_BPS {
        Err(ProtocolError::InvalidProtocolFeeBps)
    } else {
        Ok(Protocol { protocol_fee_bps, treasury, paused, ..p })
    }
}

/// Creates the configuration with `admin` as administrator, an unpaused
/// switch and a market counter at zero.
pub fn initialize_protocol(admin: Address, protocol_fee_bps: u16, treasury: Address, bump: u8) -> (r:
    Result<Protocol, ProtocolError>)
    ensures
        r == initialize_spec(admin, protocol_fee_bps, treasury, bump),
        r matches Ok(p) ==> p.wf(),
{
    if protocol_fee_bps > MAX_FEE_BPS {
        return Err(ProtocolError::InvalidProtocolFeeBps);
    }
    Ok(
        Protocol {
            admin_authority: admin,
            treasury,
            protocol_fee_bps,
            market_count: 0,
            paused: false,
            bump,
        },
    )
}

/// Overwrites fee rate, treasury and pause switch; only the administrator
/// may do so, and the fee rate stays within one whole.
pub fn update_protocol(
    protocol: &mut Protocol,
    caller: &Address,
    protocol_fee_bps: u16,
    treasury: Address,
    paused: bool,
) -> (r: Result<(), ProtocolError>)
    ensures
        match update_spec(*old(protocol), *caller, protocol_fee_bps, treasury, paused) {
            Ok(p) => r is Ok && *final(protocol) == p,
            Err(e) => r == Err::<(), ProtocolError>(e) && *final(protocol) == *old(protocol),
        },
        old(protocol).wf() ==> final(protocol).wf(),
{
    if !caller.same_as(&protocol.admin_authority) {
        return Err(ProtocolError::Unauthorized);
    }
    if protocol_fee_bps > MAX_FEE_BPS {
        return Err(ProtocolError::InvalidProtocolFeeBps);
    }
    protocol.protocol_fee_bps = protocol_fee_bps;
    protocol.treasury = treasury;
    protocol.paused = paused;
    Ok(())
}

} // verus!
