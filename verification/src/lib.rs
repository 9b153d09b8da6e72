//! Hash time-locked escrow for atomic cross-chain swaps.
//!
//! A sender locks funds under a hash commitment and a deadline. The recipient
//! can unlock them by revealing the preimage of the hash before the deadline;
//! after the deadline the sender can take them back.

pub mod address;
pub mod contract;
pub mod errors;
pub mod events;
pub mod fees;
pub mod hash;
pub mod ident;
pub mod laws;
pub mod rules;
pub mod storage;
mod table;
pub mod types;

pub use address::{Address, AddressKind};
pub use contract::StellarHTLC;
pub use errors::{HTLCError, TransferError};
pub use events::{
    emit_contract_initialized, emit_fee_recipient_updated, emit_funds_claimed,
    emit_funds_refunded, emit_protocol_fee_updated, emit_resolver_deactivated,
    emit_resolver_registered, emit_swap_initialized, emit_swap_status_updated,
    ContractInitializedEvent, Event, FeeRecipientUpdatedEvent, FundsClaimedEvent,
    FundsRefundedEvent, ProtocolFeeUpdatedEvent, ResolverDeactivatedEvent,
    ResolverRegisteredEvent, SwapInitializedEvent, SwapStatusUpdatedEvent,
};
pub use fees::{
    compute_fee, split_amount, BPS_DENOMINATOR, DEFAULT_PROTOCOL_FEE_BPS, MAX_PROTOCOL_FEE_BPS,
};
pub use hash::{bytes32_eq, preimage_opens};
pub use ident::{generate_swap_id, hex_encode, SWAP_ID_LEN};
pub use storage::{
    add_user_swap, authorized_as, get_admin, get_fee_recipient, get_protocol_fee_bps,
    get_resolver, get_swap, get_swap_counter, get_total_fees_collected,
    get_total_swaps_completed, get_total_swaps_created, get_total_swaps_refunded,
    get_user_swap_ids, has, has_swap, increment_resolver_successful_swaps,
    increment_resolver_swaps, is_resolver_active, set_admin, set_fee_recipient,
    set_protocol_fee_bps, set_resolver, set_swap, set_swap_counter, set_total_fees_collected,
    set_total_swaps_completed, set_total_swaps_created, set_total_swaps_refunded, Env,
    StorageKey,
};
pub use types::{
    check_timelock, ContractStats, Ledger, ResolverInfo, Swap, SwapStatus, Token, TransferOrder,
    MAX_TIMELOCK_DURATION, MIN_RESOLVER_COLLATERAL, MIN_TIMELOCK_DURATION,
};
