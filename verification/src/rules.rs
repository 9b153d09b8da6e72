//! The rules of the escrow, stated on the mathematical state.
//!
//! Every operation is described by two functions: the error it fails with,
//! if any, and the state it leaves behind when it succeeds. The checks of an
//! operation are made in a fixed order and the first one that fails decides
//! the error; a failed operation changes nothing.

use vstd::prelude::*;
use crate::address::Address;
use crate::errors::HTLCError;
use crate::events::{
    ContractInitializedEvent,
    Event,
    FeeRecipientUpdatedEvent,
    FundsClaimedEvent,
    FundsRefundedEvent,
    ProtocolFeeUpdatedEvent,
    ResolverDeactivatedEvent,
    ResolverRegisteredEvent,
    SwapInitializedEvent,
    SwapStatusUpdatedEvent,
};
use crate::fees::{fee_of, MAX_PROTOCOL_FEE_BPS};
use crate::hash::sha256_digest;
use crate::ident::{swap_id, IdSeed};
use crate::storage::State;
use crate::types::{timelock_in_window, ResolverInfo, Swap, SwapStatus};

verus! {

/// What a sender asks for when creating a swap.
pub struct SwapRequest {
    pub sender: Address,
    pub recipient: Address,
    pub hashlock: [u8; 32],
    pub timelock: u64,
    pub token: Address,
    /// The gross amount: the protocol fee is taken out of it.
    pub amount: i128,
    pub eth_contract: Address,
    pub eth_chain_id: u64,
    pub resolver: Option<Address>,
    pub eth_tx_hash: Option<String>,
}

impl State {
    /// Why a call that only the administrator may make is refused: there is
    /// no administrator yet, or the administrator did not authorize the call.
    pub open spec fn admin_error(self) -> Option<HTLCError> {
        match self.admin {
            None => Some(HTLCError::NotInitialized),
            Some(admin) => if self.authorized.contains(admin) {
                None
            } else {
                Some(HTLCError::Unauthorized)
            },
        }
    }

    // ---------------------------------------------------------------- initialize
    /// Why `initialize` fails, if it does.
    pub open spec fn initialize_error(self, admin: Address, fee_bps: u32) -> Option<HTLCError> {
        if self.admin is Some {
            Some(HTLCError::AlreadyInitialized)
        } else if !self.authorized.contains(admin) {
            Some(HTLCError::Unauthorized)
        } else if fee_bps > MAX_PROTOCOL_FEE_BPS {
            Some(HTLCError::InvalidFee)
        } else {
            None
        }
    }

    /// The state after a successful `initialize`: the configuration is stored,
    /// every counter is zero and the initialization is announced.
    pub open spec fn initialize_effect(
        self,
        admin: Address,
        fee_recipient: Address,
        fee_bps: u32,
    ) -> State {
        State {
            admin: Some(admin),
            fee_recipient: Some(fee_recipient),
            protocol_fee_bps: Some(fee_bps),
            swap_counter: Some(0),
            total_swaps_created: Some(0),
            total_swaps_completed: Some(0),
            total_swaps_refunded: Some(0),
            total_fees_collected: Some(0),
            events: self.events.push(
                Event::ContractInitialized(
                    ContractInitializedEvent { admin, fee_recipient, protocol_fee_bps: fee_bps },
                ),
            ),
            ..self
        }
    }

    // --------------------------------------------------------------- create_swap
    /// What the identifier of the next swap is derived from: the request, the
    /// next value of the counter and the ledger's clock and sequence number.
    pub open spec fn id_seed(self, request: SwapRequest) -> IdSeed {
        IdSeed {
            sender: request.sender,
            recipient: request.recipient,
            token: request.token,
            amount: request.amount,
            hashlock: request.hashlock,
            timelock: request.timelock,
            counter: self.next_counter(),
            timestamp: self.timestamp,
            sequence: self.sequence,
        }
    }

    /// Why `create_swap` fails, if it does.
    pub open spec fn create_error(self, request: SwapRequest) -> Option<HTLCError> {
        if !self.authorized.contains(request.sender) {
            Some(HTLCError::Unauthorized)
        } else if request.amount <= 0 {
            Some(HTLCError::InvalidAmount)
        } else if !timelock_in_window(self.timestamp, request.timelock) {
            Some(HTLCError::InvalidTimelock)
        } else if request.resolver matches Some(resolver) && !self.resolver_active(resolver) {
            Some(HTLCError::ResolverNotActive)
        } else if self.swaps.contains_key(swap_id(self.id_seed(request))) {
            Some(HTLCError::SwapAlreadyExists)
        } else {
            None
        }
    }

    /// The counters that `create_swap` raises have room to grow.
    pub open spec fn create_headroom(self, request: SwapRequest) -> bool {
        &&& self.counter() < u64::MAX
        &&& self.created() < u64::MAX
        &&& request.amount > 0 ==> self.fees_collected() + fee_of(
            request.amount as int,
            self.fee_bps() as int,
        ) <= i128::MAX
        &&& request.resolver matches Some(resolver) ==> (self.resolvers.contains_key(resolver)
            ==> self.resolvers[resolver].total_swaps < u64::MAX)
    }

    /// The record of the swap that a request creates under identifier `id`.
    pub open spec fn new_swap(self, request: SwapRequest, id: String) -> Swap {
        let fee = fee_of(request.amount as int, self.fee_bps() as int);
        Swap {
            id,
            sender: request.sender,
            recipient: request.recipient,
            token: request.token,
            amount: (request.amount - fee) as i128,
            protocol_fee: fee as i128,
            hashlock: request.hashlock,
            timelock: request.timelock,
            status: SwapStatus::Pending,
            created_at: self.timestamp,
            claimed_at: None,
            refunded_at: None,
            preimage: None,
            eth_contract: request.eth_contract,
            eth_chain_id: request.eth_chain_id,
            eth_tx_hash: request.eth_tx_hash,
            resolver: request.resolver,
        }
    }

    /// The state after a successful `create_swap` that returned `id`: the
    /// counter moved on, the fee was added to the total, the swap is stored
    /// and indexed under its sender, the creation is counted for the contract
    /// and for the resolver, and announced.
    pub open spec fn create_effect(self, request: SwapRequest, id: String) -> State {
        let swap = self.new_swap(request, id);
        let counted = match request.resolver {
            Some(resolver) => self.with_resolver_swap(resolver).resolvers,
            None => self.resolvers,
        };
        State {
            swap_counter: Some(self.next_counter()),
            total_fees_collected: if swap.protocol_fee > 0 {
                Some((self.fees_collected() + swap.protocol_fee) as i128)
            } else {
                self.total_fees_collected
            },
            swaps: self.swaps.insert(id@, swap),
            user_swaps: self.user_swaps.insert(
                request.sender,
                self.swaps_of(request.sender).push(id),
            ),
            total_swaps_created: Some((self.created() + 1) as u64),
            resolvers: counted,
            events: self.events.push(
                Event::SwapInitialized(
                    SwapInitializedEvent {
                        swap_id: id,
                        sender: request.sender,
                        recipient: request.recipient,
                        token: request.token,
                        amount: swap.amount,
                        hashlock: request.hashlock,
                        timelock: request.timelock,
                        resolver: request.resolver,
                    },
                ),
            ),
            ..self
        }
    }

    // ---------------------------------------------------------------- claim_swap
    /// Why a swap that is stored can no longer be claimed, refunded or marked:
    /// it has reached a final state.
    pub open spec fn settled_error(status: SwapStatus) -> Option<HTLCError> {
        match status {
            SwapStatus::Claimed => Some(HTLCError::AlreadyClaimed),
            SwapStatus::Refunded => Some(HTLCError::AlreadyRefunded),
            SwapStatus::Failed => Some(HTLCError::NotInitiated),
            _ => None,
        }
    }

    /// Why a claim is refused before any funds are moved, if it is.
    pub open spec fn claim_error(self, id: Seq<char>, preimage: [u8; 32]) -> Option<HTLCError> {
        if !self.swaps.contains_key(id) {
            Some(HTLCError::SwapNotFound)
        } else {
            let swap = self.swaps[id];
            if Self::settled_error(swap.status) is Some {
                Self::settled_error(swap.status)
            } else if self.timestamp >= swap.timelock {
                Some(HTLCError::TimelockExpired)
            } else if sha256_digest(preimage@) != swap.hashlock@ {
                Some(HTLCError::InvalidPreimage)
            } else if !self.authorized.contains(swap.recipient) {
                Some(HTLCError::Unauthorized)
            } else {
                None
            }
        }
    }

    /// The counters that a claim raises have room to grow.
    pub open spec fn claim_headroom(self, id: Seq<char>) -> bool {
        &&& self.completed() < u64::MAX
        &&& self.swaps.contains_key(id) ==> (self.swaps[id].resolver matches Some(resolver) ==> (
        self.resolvers.contains_key(resolver) ==> self.resolvers[resolver].total_resolved
            < u64::MAX))
    }

    /// The state after a successful claim: the swap is claimed, with the time
    /// and the preimage on record; the claim is counted for the contract and
    /// for the resolver, and announced.
    pub open spec fn claim_effect(self, id: Seq<char>, preimage: [u8; 32]) -> State {
        let swap = self.swaps[id];
        let claimed = Swap {
            status: SwapStatus::Claimed,
            claimed_at: Some(self.timestamp),
            preimage: Some(preimage),
            ..swap
        };
        let counted = match swap.resolver {
            Some(resolver) => self.with_resolver_success(resolver).resolvers,
            None => self.resolvers,
        };
        State {
            swaps: self.swaps.insert(id, claimed),
            total_swaps_completed: Some((self.completed() + 1) as u64),
            resolvers: counted,
            events: self.events.push(
                Event::FundsClaimed(
                    FundsClaimedEvent {
                        swap_id: swap.id,
                        recipient: swap.recipient,
                        amount: swap.amount,
                        preimage,
                    },
                ),
            ).push(
                Event::SwapStatusUpdated(
                    SwapStatusUpdatedEvent {
                        swap_id: swap.id,
                        old_status: swap.status,
                        new_status: SwapStatus::Claimed,
                    },
                ),
            ),
            ..self
        }
    }

    // --------------------------------------------------------------- refund_swap
    /// Why a refund is refused before any funds are moved, if it is.
    pub open spec fn refund_error(self, id: Seq<char>) -> Option<HTLCError> {
        if !self.swaps.contains_key(id) {
            Some(HTLCError::SwapNotFound)
        } else {
            let swap = self.swaps[id];
            if Self::settled_error(swap.status) is Some {
                Self::settled_error(swap.status)
            } else if self.timestamp < swap.timelock {
                Some(HTLCError::TimelockNotExpired)
            } else if !self.authorized.contains(swap.sender) {
                Some(HTLCError::Unauthorized)
            } else {
                None
            }
        }
    }

    /// The state after a successful refund: the swap is refunded, with the
    /// time on record; the refund is counted and announced.
    pub open spec fn refund_effect(self, id: Seq<char>) -> State {
        let swap = self.swaps[id];
        let refunded = Swap {
            status: SwapStatus::Refunded,
            refunded_at: Some(self.timestamp),
            ..swap
        };
        State {
            swaps: self.swaps.insert(id, refunded),
            total_swaps_refunded: Some((self.refunded() + 1) as u64),
            events: self.events.push(
                Event::FundsRefunded(
                    FundsRefundedEvent {
                        swap_id: swap.id,
                        sender: swap.sender,
                        amount: swap.amount,
                    },
                ),
            ).push(
                Event::SwapStatusUpdated(
                    SwapStatusUpdatedEvent {
                        swap_id: swap.id,
                        old_status: swap.status,
                        new_status: SwapStatus::Refunded,
                    },
                ),
            ),
            ..self
        }
    }

    // ---------------------------------------------------------- mark_swap_failed
    /// Why marking a swap as failed is refused, if it is.
    pub open spec fn mark_failed_error(self, id: Seq<char>) -> Option<HTLCError> {
        if !self.swaps.contains_key(id) {
            Some(HTLCError::SwapNotFound)
        } else if self.swaps[id].status == SwapStatus::Claimed {
            Some(HTLCError::AlreadyClaimed)
        } else if self.swaps[id].status == SwapStatus::Refunded {
            Some(HTLCError::AlreadyRefunded)
        } else {
            self.admin_error()
        }
    }

    /// The state after a swap was marked as failed: its status is `Failed`
    /// and the change is announced. No funds move and nothing is counted.
    pub open spec fn mark_failed_effect(self, id: Seq<char>) -> State {
        let swap = self.swaps[id];
        State {
            swaps: self.swaps.insert(id, Swap { status: SwapStatus::Failed, ..swap }),
            events: self.events.push(
                Event::SwapStatusUpdated(
                    SwapStatusUpdatedEvent {
                        swap_id: swap.id,
                        old_status: swap.status,
                        new_status: SwapStatus::Failed,
                    },
                ),
            ),
            ..self
        }
    }

    // ----------------------------------------------------------------- resolvers
    /// Why registering a resolver is refused, if it is.
    pub open spec fn register_error(self, min_collateral: i128) -> Option<HTLCError> {
        if self.admin_error() is Some {
            self.admin_error()
        } else if min_collateral <= 0 {
            Some(HTLCError::InsufficientCollateral)
        } else {
            None
        }
    }

    /// The state after a resolver was registered: a fresh, active record with
    /// both counters at zero replaces whatever was stored for that identity.
    pub open spec fn register_effect(
        self,
        resolver: Address,
        collateral_token: Address,
        min_collateral: i128,
    ) -> State {
        State {
            resolvers: self.resolvers.insert(
                resolver,
                ResolverInfo {
                    resolver,
                    collateral_token,
                    min_collateral,
                    is_active: true,
                    total_swaps: 0,
                    total_resolved: 0,
                    created_at: self.timestamp,
                },
            ),
            events: self.events.push(
                Event::ResolverRegistered(
                    ResolverRegisteredEvent { resolver, collateral: min_collateral },
                ),
            ),
            ..self
        }
    }

    /// Why deactivating a resolver is refused, if it is.
    pub open spec fn deactivate_error(self, resolver: Address) -> Option<HTLCError> {
        if self.admin_error() is Some {
            self.admin_error()
        } else if !self.resolvers.contains_key(resolver) {
            Some(HTLCError::ResolverNotFound)
        } else {
            None
        }
    }

    /// The state after a resolver was deactivated: the flag is cleared, the
    /// rest of the record stays.
    pub open spec fn deactivate_effect(self, resolver: Address) -> State {
        State {
            resolvers: self.resolvers.insert(
                resolver,
                ResolverInfo { is_active: false, ..self.resolvers[resolver] },
            ),
            events: self.events.push(
                Event::ResolverDeactivated(ResolverDeactivatedEvent { resolver }),
            ),
            ..self
        }
    }

    // ------------------------------------------------------------- configuration
    /// Why changing the protocol fee is refused, if it is.
    pub open spec fn update_fee_error(self, new_fee_bps: u32) -> Option<HTLCError> {
        if self.admin_error() is Some {
            self.admin_error()
        } else if new_fee_bps > MAX_PROTOCOL_FEE_BPS {
            Some(HTLCError::InvalidFee)
        } else {
            None
        }
    }

    /// The state after the protocol fee was changed.
    pub open spec fn update_fee_effect(self, new_fee_bps: u32) -> State {
        State {
            protocol_fee_bps: Some(new_fee_bps),
            events: self.events.push(
                Event::ProtocolFeeUpdated(
                    ProtocolFeeUpdatedEvent { old_fee_bps: self.fee_bps(), new_fee_bps },
                ),
            ),
            ..self
        }
    }

    /// Why changing the fee recipient is refused, if it is.
    pub open spec fn update_recipient_error(self) -> Option<HTLCError> {
        if self.admin_error() is Some {
            self.admin_error()
        } else if self.fee_recipient is None {
            Some(HTLCError::NotInitialized)
        } else {
            None
        }
    }

    /// The state after the fee recipient was changed.
    pub open spec fn update_recipient_effect(self, new_recipient: Address) -> State {
        State {
            fee_recipient: Some(new_recipient),
            events: self.events.push(
                Event::FeeRecipientUpdated(
                    FeeRecipientUpdatedEvent {
                        old_recipient: self.fee_recipient->0,
                        new_recipient,
                    },
                ),
            ),
            ..self
        }
    }
}

} // verus!
