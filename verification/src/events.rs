//! Notifications for off-chain observers: one per state transition.
//!
//! Delivery is not part of any guarantee of the escrow; the events are
//! collected in the order in which they were emitted and handed to whoever
//! runs the contract.

use vstd::prelude::*;
use crate::address::Address;
use crate::storage::Env;
use crate::types::SwapStatus;

verus! {

#[derive(Clone, Debug, PartialEq, Eq)]
pub struct ContractInitializedEvent {
    pub admin: Address,
    pub fee_recipient: Address,
    pub protocol_fee_bps: u32,
}

#[derive(Clone, Debug, PartialEq, Eq)]
pub struct SwapInitializedEvent {
    pub swap_id: String,
    pub sender: Address,
    pub recipient: Address,
    pub token: Address,
    pub amount: i128,
    pub hashlock: [u8; 32],
    pub timelock: u64,
    pub resolver: Option<Address>,
}

#[derive(Clone, Debug, PartialEq, Eq)]
pub struct FundsClaimedEvent {
    pub swap_id: String,
    pub recipient: Address,
    pub amount: i128,
    pub preimage: [u8; 32],
}

#[derive(Clone, Debug, PartialEq, Eq)]
pub struct FundsRefundedEvent {
    pub swap_id: String,
    pub sender: Address,
    pub amount: i128,
}

#[derive(Clone, Debug, PartialEq, Eq)]
pub struct SwapStatusUpdatedEvent {
    pub swap_id: String,
    pub old_status: SwapStatus,
    pub new_status: SwapStatus,
}

#[derive(Clone, Debug, PartialEq, Eq)]
pub struct ResolverRegisteredEvent {
    pub resolver: Address,
    pub collateral: i128,
}

#[derive(Clone, Debug, PartialEq, Eq)]
pub struct ResolverDeactivatedEvent {
    pub resolver: Address,
}

#[derive(Clone, Debug, PartialEq, Eq)]
pub struct ProtocolFeeUpdatedEvent {
    pub old_fee_bps: u32,
    pub new_fee_bps: u32,
}

#[derive(Clone, Debug, PartialEq, Eq)]
pub struct FeeRecipientUpdatedEvent {
    pub old_recipient: Address,
    pub new_recipient: Address,
}

/// Any one of the notifications.
#[derive(Clone, Debug, PartialEq, Eq)]
pub enum Event {
    ContractInitialized(ContractInitializedEvent),
    SwapInitialized(SwapInitializedEvent),
    FundsClaimed(FundsClaimedEvent),
    FundsRefunded(FundsRefundedEvent),
    SwapStatusUpdated(SwapStatusUpdatedEvent),
    ResolverRegistered(ResolverRegisteredEvent),
    ResolverDeactivated(ResolverDeactivatedEvent),
    ProtocolFeeUpdated(ProtocolFeeUpdatedEvent),
    FeeRecipientUpdated(FeeRecipientUpdatedEvent),
}

/// Records that the contract was initialized.
pub fn emit_contract_initialized(
    env: &mut Env,
    admin: Address,
    fee_recipient: Address,
    protocol_fee_bps: u32,
)
    ensures
        final(env)@ == old(env)@.with_event(
            Event::ContractInitialized(
                ContractInitializedEvent { admin, fee_recipient, protocol_fee_bps },
            ),
        ),
{
    env.publish(
        Event::ContractInitialized(
            ContractInitializedEvent { admin, fee_recipient, protocol_fee_bps },
        ),
    );
}

/// Records that a swap was created.
pub fn emit_swap_initialized(
    env: &mut Env,
    swap_id: String,
    sender: Address,
    recipient: Address,
    token: Address,
    amount: i128,
    hashlock: [u8; 32],
    timelock: u64,
    resolver: Option<Address>,
)
    ensures
        final(env)@ == old(env)@.with_event(
            Event::SwapInitialized(
                SwapInitializedEvent {
                    swap_id,
                    sender,
                    recipient,
                    token,
                    amount,
                    hashlock,
                    timelock,
                    resolver,
                },
            ),
        ),
{
    env.publish(
        Event::SwapInitialized(
            SwapInitializedEvent {
                swap_id,
                sender,
                recipient,
                token,
                amount,
                hashlock,
                timelock,
                resolver,
            },
        ),
    );
}

/// Records that the recipient claimed the funds of a swap.
pub fn emit_funds_claimed(
    env: &mut Env,
    swap_id: String,
    recipient: Address,
    amount: i128,
    preimage: [u8; 32],
)
    ensures
        final(env)@ == old(env)@.with_event(
            Event::FundsClaimed(FundsClaimedEvent { swap_id, recipient, amount, preimage }),
        ),
{
    env.publish(Event::FundsClaimed(FundsClaimedEvent { swap_id, recipient, amount, preimage }));
}

/// Records that the funds of a swap went back to the sender.
pub fn emit_funds_refunded(env: &mut Env, swap_id: String, sender: Address, amount: i128)
    ensures
        final(env)@ == old(env)@.with_event(
            Event::FundsRefunded(FundsRefundedEvent { swap_id, sender, amount }),
        ),
{
    env.publish(Event::FundsRefunded(FundsRefundedEvent { swap_id, sender, amount }));
}

/// Records that a swap changed its status.
pub fn emit_swap_status_updated(
    env: &mut Env,
    swap_id: String,
    old_status: SwapStatus,
    new_status: SwapStatus,
)
    ensures
        final(env)@ == old(env)@.with_event(
            Event::SwapStatusUpdated(SwapStatusUpdatedEvent { swap_id, old_status, new_status }),
        ),
{
    env.publish(
        Event::SwapStatusUpdated(SwapStatusUpdatedEvent { swap_id, old_status, new_status }),
    );
}

/// Records that a resolver was registered.
pub fn emit_resolver_registered(env: &mut Env, resolver: Address, collateral: i128)
    ensures
        final(env)@ == old(env)@.with_event(
            Event::ResolverRegistered(ResolverRegisteredEvent { resolver, collateral }),
        ),
{
    env.publish(Event::ResolverRegistered(ResolverRegisteredEvent { resolver, collateral }));
}

/// Records that a resolver was deactivated.
pub fn emit_resolver_deactivated(env: &mut Env, resolver: Address)
    ensures
        final(env)@ == old(env)@.with_event(
            Event::ResolverDeactivated(ResolverDeactivatedEvent { resolver }),
        ),
{
    env.publish(Event::ResolverDeactivated(ResolverDeactivatedEvent { resolver }));
}

/// Records that the protocol fee changed.
pub fn emit_protocol_fee_updated(env: &mut Env, old_fee_bps: u32, new_fee_bps: u32)
    ensures
        final(env)@ == old(env)@.with_event(
            Event::ProtocolFeeUpdated(ProtocolFeeUpdatedEvent { old_fee_bps, new_fee_bps }),
        ),
{
    env.publish(Event::ProtocolFeeUpdated(ProtocolFeeUpdatedEvent { old_fee_bps, new_fee_bps }));
}

/// Records that the fee recipient changed.
pub fn emit_fee_recipient_updated(env: &mut Env, old_recipient: Address, new_recipient: Address)
    ensures
        final(env)@ == old(env)@.with_event(
            Event::FeeRecipientUpdated(FeeRecipientUpdatedEvent { old_recipient, new_recipient }),
        ),
{
    env.publish(
        Event::FeeRecipientUpdated(FeeRecipientUpdatedEvent { old_recipient, new_recipient }),
    );
}

} // verus!
