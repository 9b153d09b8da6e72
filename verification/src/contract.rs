//! The operations of the escrow contract.
//!
//! Each operation checks its preconditions in a fixed order, fails with the
//! error of the first one that does not hold and otherwise applies its whole
//! effect. A failed operation leaves the environment exactly as it was.

use vstd::prelude::*;
use crate::address::Address;
use crate::errors::{HTLCError, TransferError};
use crate::events::{
    emit_contract_initialized,
    emit_fee_recipient_updated,
    emit_funds_claimed,
    emit_funds_refunded,
    emit_protocol_fee_updated,
    emit_resolver_deactivated,
    emit_resolver_registered,
    emit_swap_initialized,
    emit_swap_status_updated,
};
use crate::fees::{compute_fee, split_amount, MAX_PROTOCOL_FEE_BPS};
use crate::hash::preimage_opens;
use crate::ident::{generate_swap_id, swap_id, SWAP_ID_LEN};
use crate::rules::SwapRequest;
use crate::storage::{
    add_user_swap,
    authorized_as,
    get_admin,
    get_fee_recipient,
    get_protocol_fee_bps,
    get_resolver,
    get_swap,
    get_swap_counter,
    get_total_fees_collected,
    get_total_swaps_completed,
    get_total_swaps_created,
    get_total_swaps_refunded,
    get_user_swap_ids,
    has_swap,
    increment_resolver_successful_swaps,
    increment_resolver_swaps,
    is_resolver_active,
    set_admin,
    set_fee_recipient,
    set_protocol_fee_bps,
    set_resolver,
    set_swap,
    set_swap_counter,
    set_total_fees_collected,
    set_total_swaps_completed,
    set_total_swaps_created,
    set_total_swaps_refunded,
    Env,
};
use crate::types::{
    check_timelock, ContractStats, ResolverInfo, Swap, SwapStatus, Token, TransferOrder,
};

verus! {

/// The hash time-locked escrow contract.
pub struct StellarHTLC;

impl StellarHTLC {
    /// Decides whether a creation may go ahead and, if so, derives the
    /// identifier of the swap to be created.
    fn check_create(
        env: &Env,
        sender: Address,
        recipient: Address,
        hashlock: &[u8; 32],
        timelock: u64,
        token: Address,
        amount: i128,
        eth_contract: Address,
        eth_chain_id: u64,
        resolver_address: &Option<Address>,
        eth_tx_hash: &Option<String>,
    ) -> (result: Result<String, HTLCError>)
        ensures
            ({
                let request = SwapRequest {
                    sender,
                    recipient,
                    hashlock: *hashlock,
                    timelock,
                    token,
                    amount,
                    eth_contract,
                    eth_chain_id,
                    resolver: *resolver_address,
                    eth_tx_hash: *eth_tx_hash,
                };
                match result {
                    Ok(id) => {
                        &&& env@.create_error(request) is None
                        &&& id@.len() == SWAP_ID_LEN
                        &&& id@ == swap_id(env@.id_seed(request))
                    },
                    Err(error) => env@.create_error(request) == Some(error),
                }
            }),
    {
        if !authorized_as(env, &sender) {
            return Err(HTLCError::Unauthorized);
        }
        if amount <= 0 {
            return Err(HTLCError::InvalidAmount);
        }
        if !check_timelock(env.timestamp(), timelock) {
            return Err(HTLCError::InvalidTimelock);
        }
        match resolver_address {
            Some(resolver) => {
                if !is_resolver_active(env, resolver) {
                    return Err(HTLCError::ResolverNotActive);
                }
            },
            None => {},
        }
        let stored: u64 = get_swap_counter(env);
        let counter: u64 = if stored < u64::MAX {
            stored + 1
        } else {
            stored
        };
        let id = generate_swap_id(
            env,
            &sender,
            &recipient,
            &token,
            amount,
            hashlock,
            timelock,
            counter,
        );
        if has_swap(env, &id) {
            return Err(HTLCError::SwapAlreadyExists);
        }
        Ok(id)
    }

    /// Whether the counters that a creation raises have room to grow.
    fn room_to_create(env: &Env, amount: i128, resolver_address: &Option<Address>) -> (room: bool)
        ensures
            forall|request: SwapRequest|
                request.amount == amount && request.resolver == *resolver_address ==> room
                    == #[trigger] env@.create_headroom(request),
    {
        let fees_fit = if amount > 0 {
            let fee: i128 = compute_fee(amount, get_protocol_fee_bps(env));
            get_total_fees_collected(env) <= i128::MAX - fee
        } else {
            true
        };
        let resolver_fits = match resolver_address {
            Some(resolver) => match get_resolver(env, resolver) {
                Some(info) => info.total_swaps < u64::MAX,
                None => true,
            },
            None => true,
        };
        get_swap_counter(env) < u64::MAX && get_total_swaps_created(env) < u64::MAX && fees_fit
            && resolver_fits
    }

    /// Creates a swap as `create_swap` does, wherever the counters it would
    /// raise have room to grow. Where a creation would go through but for a
    /// counter at its limit, nothing happens and `None` is returned.
    pub fn try_create_swap(
        env: &mut Env,
        sender: Address,
        recipient: Address,
        hashlock: [u8; 32],
        timelock: u64,
        token: Address,
        amount: i128,
        eth_contract: Address,
        eth_chain_id: u64,
        resolver_address: Option<Address>,
        eth_tx_hash: Option<String>,
    ) -> (result: Option<Result<String, HTLCError>>)
        ensures
            ({
                let request = SwapRequest {
                    sender,
                    recipient,
                    hashlock,
                    timelock,
                    token,
                    amount,
                    eth_contract,
                    eth_chain_id,
                    resolver: resolver_address,
                    eth_tx_hash,
                };
                match result {
                    None => {
                        &&& old(env)@.create_error(request) is None
                        &&& !old(env)@.create_headroom(request)
                        &&& final(env)@ == old(env)@
                    },
                    Some(Ok(id)) => {
                        &&& old(env)@.create_error(request) is None
                        &&& old(env)@.create_headroom(request)
                        &&& id@.len() == SWAP_ID_LEN
                        &&& id@ == swap_id(old(env)@.id_seed(request))
                        &&& final(env)@ == old(env)@.create_effect(request, id)
                    },
                    Some(Err(error)) => {
                        &&& old(env)@.create_error(request) == Some(error)
                        &&& final(env)@ == old(env)@
                    },
                }
            }),
    {
        let ghost request = SwapRequest {
            sender,
            recipient,
            hashlock,
            timelock,
            token,
            amount,
            eth_contract,
            eth_chain_id,
            resolver: resolver_address,
            eth_tx_hash,
        };
        if Self::room_to_create(env, amount, &resolver_address) {
            assert(env@.create_headroom(request));
            Some(
                Self::create_swap(
                    env,
                    sender,
                    recipient,
                    hashlock,
                    timelock,
                    token,
                    amount,
                    eth_contract,
                    eth_chain_id,
                    resolver_address,
                    eth_tx_hash,
                ),
            )
        } else {
            assert(!env@.create_headroom(request));
            match Self::check_create(
                env,
                sender,
                recipient,
                &hashlock,
                timelock,
                token,
                amount,
                eth_contract,
                eth_chain_id,
                &resolver_address,
                &eth_tx_hash,
            ) {
                Ok(_) => None,
                Err(error) => Some(Err(error)),
            }
        }
    }

    /// Creates a swap: locks `amount` of `token`, less the protocol fee, for
    /// `recipient` under `hashlock` until `timelock`, and returns the
    /// identifier of the new swap.
    ///
    /// Fails with `Unauthorized` unless `sender` authorized the call, with
    /// `InvalidAmount` unless the amount is positive, with `InvalidTimelock`
    /// unless the timelock lies more than an hour and at most seven days
    /// ahead, with `ResolverNotActive` if a resolver is named that is not
    /// registered and active, and with `SwapAlreadyExists` if the derived
    /// identifier is taken.
    ///
    /// A creation that passes all these checks raises counters, which must
    /// have room to grow; `try_create_swap` asks nothing of the caller.
    pub fn create_swap(
        env: &mut Env,
        sender: Address,
        recipient: Address,
        hashlock: [u8; 32],
        timelock: u64,
        token: Address,
        amount: i128,
        eth_contract: Address,
        eth_chain_id: u64,
        resolver_address: Option<Address>,
        eth_tx_hash: Option<String>,
    ) -> (result: Result<String, HTLCError>)
        requires
            ({
                let request = SwapRequest {
                    sender,
                    recipient,
                    hashlock,
                    timelock,
                    token,
                    amount,
                    eth_contract,
                    eth_chain_id,
                    resolver: resolver_address,
                    eth_tx_hash,
                };
                old(env)@.create_error(request) is None ==> old(env)@.create_headroom(request)
            }),
        ensures
            ({
                let request = SwapRequest {
                    sender,
                    recipient,
                    hashlock,
                    timelock,
                    token,
                    amount,
                    eth_contract,
                    eth_chain_id,
                    resolver: resolver_address,
                    eth_tx_hash,
                };
                match result {
                    Ok(id) => {
                        &&& old(env)@.create_error(request) is None
                        &&& id@.len() == SWAP_ID_LEN
                        &&& id@ == swap_id(old(env)@.id_seed(request))
                        &&& final(env)@ == old(env)@.create_effect(request, id)
                    },
                    Err(error) => {
                        &&& old(env)@.create_error(request) == Some(error)
                        &&& final(env)@ == old(env)@
                    },
                }
            }),
    {
        let ghost request = SwapRequest {
            sender,
            recipient,
            hashlock,
            timelock,
            token,
            amount,
            eth_contract,
            eth_chain_id,
            resolver: resolver_address,
            eth_tx_hash,
        };
        let id = match Self::check_create(
            env,
            sender,
            recipient,
            &hashlock,
            timelock,
            token,
            amount,
            eth_contract,
            eth_chain_id,
            &resolver_address,
            &eth_tx_hash,
        ) {
            Ok(id) => id,
            Err(error) => {
                return Err(error);
            },
        };
        let now: u64 = env.timestamp();
        let counter: u64 = get_swap_counter(env) + 1;
        let (fee, net) = split_amount(amount, get_protocol_fee_bps(env));
        set_swap_counter(env, counter);
        if fee > 0 {
            let collected: i128 = get_total_fees_collected(env);
            set_total_fees_collected(env, collected + fee);
        }
        let swap = Swap {
            id: id.clone(),
            sender,
            recipient,
            token,
            amount: net,
            protocol_fee: fee,
            hashlock,
            timelock,
            status: SwapStatus::Pending,
            created_at: now,
            claimed_at: None,
            refunded_at: None,
            preimage: None,
            eth_contract,
            eth_chain_id,
            eth_tx_hash,
            resolver: resolver_address,
        };
        set_swap(env, &id, &swap);
        add_user_swap(env, &sender, &id);
        let created: u64 = get_total_swaps_created(env);
        set_total_swaps_created(env, created + 1);
        match &resolver_address {
            Some(resolver) => {
                increment_resolver_swaps(env, resolver);
            },
            None => {},
        }
        emit_swap_initialized(
            env,
            id.clone(),
            sender,
            recipient,
            token,
            net,
            hashlock,
            timelock,
            resolver_address,
        );
        proof {
            assert(swap == old(env)@.new_swap(request, id));
            assert(env@.user_swaps =~= old(env)@.create_effect(request, id).user_swaps);
            assert(env@ == old(env)@.create_effect(request, id));
        }
        Ok(id)
    }

    /// Decides whether a claim may go ahead and, if so, hands out the record
    /// of the swap to be claimed.
    fn check_claim(env: &Env, swap_id: &String, preimage: &[u8; 32]) -> (result: Result<
        Swap,
        HTLCError,
    >)
        ensures
            match result {
                Ok(swap) => {
                    &&& env@.claim_error(swap_id@, *preimage) is None
                    &&& swap == env@.swaps[swap_id@]
                    &&& swap.valid()
                },
                Err(error) => env@.claim_error(swap_id@, *preimage) == Some(error),
            },
    {
        let swap = match get_swap(env, swap_id) {
            Some(swap) => swap,
            None => {
                return Err(HTLCError::SwapNotFound);
            },
        };
        match swap.status {
            SwapStatus::Claimed => {
                return Err(HTLCError::AlreadyClaimed);
            },
            SwapStatus::Refunded => {
                return Err(HTLCError::AlreadyRefunded);
            },
            SwapStatus::Failed => {
                return Err(HTLCError::NotInitiated);
            },
            _ => {},
        }
        if env.timestamp() >= swap.timelock {
            return Err(HTLCError::TimelockExpired);
        }
        if !preimage_opens(preimage, &swap.hashlock) {
            return Err(HTLCError::InvalidPreimage);
        }
        if !authorized_as(env, &swap.recipient) {
            return Err(HTLCError::Unauthorized);
        }
        Ok(swap)
    }

    /// Finishes a claim whose checks have passed, given how the transfer of
    /// the funds to the recipient went: a transfer that went through commits
    /// the claim, a failed one fails the claim and leaves everything as it was.
    pub fn settle_claim(
        env: &mut Env,
        swap_id: &String,
        preimage: [u8; 32],
        outcome: Result<(), TransferError>,
    ) -> (result: Result<(), HTLCError>)
        requires
            old(env)@.claim_error(swap_id@, preimage) is None,
            old(env)@.claim_headroom(swap_id@),
        ensures
            match outcome {
                Ok(_) => result is Ok && final(env)@ == old(env)@.claim_effect(swap_id@, preimage),
                Err(failure) => result == Err::<(), HTLCError>(failure.as_error()) && final(env)@
                    == old(env)@,
            },
    {
        match outcome {
            Err(failure) => {
                return Err(failure.as_error());
            },
            Ok(_) => {},
        }
        let swap = match get_swap(env, swap_id) {
            Some(swap) => swap,
            None => vstd::pervasive::unreached(),
        };
        let now: u64 = env.timestamp();
        let claimed = Swap {
            id: swap.id.clone(),
            sender: swap.sender,
            recipient: swap.recipient,
            token: swap.token,
            amount: swap.amount,
            protocol_fee: swap.protocol_fee,
            hashlock: swap.hashlock,
            timelock: swap.timelock,
            status: SwapStatus::Claimed,
            created_at: swap.created_at,
            claimed_at: Some(now),
            refunded_at: swap.refunded_at,
            preimage: Some(preimage),
            eth_contract: swap.eth_contract,
            eth_chain_id: swap.eth_chain_id,
            eth_tx_hash: swap.eth_tx_hash,
            resolver: swap.resolver,
        };
        set_swap(env, swap_id, &claimed);
        let completed: u64 = get_total_swaps_completed(env);
        set_total_swaps_completed(env, completed + 1);
        match &swap.resolver {
            Some(resolver) => {
                increment_resolver_successful_swaps(env, resolver);
            },
            None => {},
        }
        emit_funds_claimed(env, swap.id.clone(), swap.recipient, swap.amount, preimage);
        emit_swap_status_updated(env, swap.id, swap.status, SwapStatus::Claimed);
        proof {
            assert(env@ == old(env)@.claim_effect(swap_id@, preimage));
        }
        Ok(())
    }

    /// Whether the counters that a claim of `swap_id` raises have room to
    /// grow.
    fn room_to_claim(env: &Env, swap_id: &String) -> (room: bool)
        ensures
            room == env@.claim_headroom(swap_id@),
    {
        let resolver_fits = match get_swap(env, swap_id) {
            Some(swap) => match &swap.resolver {
                Some(resolver) => match get_resolver(env, resolver) {
                    Some(info) => info.total_resolved < u64::MAX,
                    None => true,
                },
                None => true,
            },
            None => true,
        };
        get_total_swaps_completed(env) < u64::MAX && resolver_fits
    }

    /// Claims a swap as `claim_swap` does, wherever the counters it would
    /// raise have room to grow. Where a claim would go ahead but for a
    /// counter at its limit, nothing happens, no transfer is asked for and
    /// `None` is returned.
    pub fn try_claim_swap<T: Token>(
        env: &mut Env,
        token: &mut T,
        swap_id: &String,
        preimage: [u8; 32],
    ) -> (result: Option<Result<(), HTLCError>>)
        ensures
            match result {
                None => {
                    &&& old(env)@.claim_error(swap_id@, preimage) is None
                    &&& !old(env)@.claim_headroom(swap_id@)
                    &&& final(env)@ == old(env)@
                    &&& final(token).asked() == old(token).asked()
                },
                Some(Ok(_)) => {
                    &&& old(env)@.claim_error(swap_id@, preimage) is None
                    &&& final(env)@ == old(env)@.claim_effect(swap_id@, preimage)
                },
                Some(Err(error)) => {
                    &&& final(env)@ == old(env)@
                    &&& match old(env)@.claim_error(swap_id@, preimage) {
                        Some(expected) => error == expected,
                        None => error == HTLCError::InsufficientBalance || error
                            == HTLCError::TokenTransferFailed,
                    }
                },
            },
            result is Some && old(env)@.claim_error(swap_id@, preimage) is Some ==> final(token).asked() == old(token).asked(),
            result is Some && old(env)@.claim_error(swap_id@, preimage) is None ==> final(token).asked() == old(token).asked().push(
                (TransferOrder {
                    asset: old(env)@.swaps[swap_id@].token,
                    from: old(env)@.contract,
                    to: old(env)@.swaps[swap_id@].recipient,
                    amount: old(env)@.swaps[swap_id@].amount,
                }),
            ),
    {
        if Self::room_to_claim(env, swap_id) {
            Some(Self::claim_swap(env, token, swap_id, preimage))
        } else {
            match Self::check_claim(env, swap_id, &preimage) {
                Ok(_) => None,
                Err(error) => Some(Err(error)),
            }
        }
    }

    /// Claims a swap: the recipient reveals the preimage before the timelock
    /// and receives the escrowed amount.
    ///
    /// Fails with `SwapNotFound` if no such swap is stored, with
    /// `AlreadyClaimed`, `AlreadyRefunded` or `NotInitiated` if the swap was
    /// claimed, refunded or marked as failed, with `TimelockExpired` at or
    /// after the timelock, with `InvalidPreimage` unless the preimage hashes
    /// to the hashlock, and with `Unauthorized` unless the recipient
    /// authorized the call. Only then is the collaborator asked, once, to
    /// move the escrowed amount of the swap's asset from the contract to the
    /// recipient; if it fails the claim fails with `InsufficientBalance` or
    /// `TokenTransferFailed`. A claim that is refused asks for no transfer.
    ///
    /// A claim that passes all these checks raises counters, which must have
    /// room to grow; `try_claim_swap` asks nothing of the caller.
    pub fn claim_swap<T: Token>(
        env: &mut Env,
        token: &mut T,
        swap_id: &String,
        preimage: [u8; 32],
    ) -> (result: Result<(), HTLCError>)
        requires
            old(env)@.claim_error(swap_id@, preimage) is None ==> old(env)@.claim_headroom(
                swap_id@,
            ),
        ensures
            match result {
                Ok(_) => {
                    &&& old(env)@.claim_error(swap_id@, preimage) is None
                    &&& final(env)@ == old(env)@.claim_effect(swap_id@, preimage)
                },
                Err(error) => {
                    &&& final(env)@ == old(env)@
                    &&& match old(env)@.claim_error(swap_id@, preimage) {
                        Some(expected) => error == expected,
                        None => error == HTLCError::InsufficientBalance || error
                            == HTLCError::TokenTransferFailed,
                    }
                },
            },
            old(env)@.claim_error(swap_id@, preimage) is Some ==> final(token).asked() == old(token).asked(),
            old(env)@.claim_error(swap_id@, preimage) is None ==> final(token).asked() == old(token).asked().push(
                (TransferOrder {
                    asset: old(env)@.swaps[swap_id@].token,
                    from: old(env)@.contract,
                    to: old(env)@.swaps[swap_id@].recipient,
                    amount: old(env)@.swaps[swap_id@].amount,
                }),
            ),
    {
        let swap = match Self::check_claim(env, swap_id, &preimage) {
            Ok(swap) => swap,
            Err(error) => {
                return Err(error);
            },
        };
        let escrow = env.current_contract_address();
        let outcome = token.transfer(&swap.token, &escrow, &swap.recipient, swap.amount);
        Self::settle_claim(env, swap_id, preimage, outcome)
    }

    /// Decides whether a refund may go ahead and, if so, hands out the record
    /// of the swap to be refunded.
    fn check_refund(env: &Env, swap_id: &String) -> (result: Result<Swap, HTLCError>)
        ensures
            match result {
                Ok(swap) => {
                    &&& env@.refund_error(swap_id@) is None
                    &&& swap == env@.swaps[swap_id@]
                    &&& swap.valid()
                },
                Err(error) => env@.refund_error(swap_id@) == Some(error),
            },
    {
        let swap = match get_swap(env, swap_id) {
            Some(swap) => swap,
            None => {
                return Err(HTLCError::SwapNotFound);
            },
        };
        match swap.status {
            SwapStatus::Claimed => {
                return Err(HTLCError::AlreadyClaimed);
            },
            SwapStatus::Refunded => {
                return Err(HTLCError::AlreadyRefunded);
            },
            SwapStatus::Failed => {
                return Err(HTLCError::NotInitiated);
            },
            _ => {},
        }
        if env.timestamp() < swap.timelock {
            return Err(HTLCError::TimelockNotExpired);
        }
        if !authorized_as(env, &swap.sender) {
            return Err(HTLCError::Unauthorized);
        }
        Ok(swap)
    }

    /// Finishes a refund whose checks have passed, given how the transfer of
    /// the funds back to the sender went: a transfer that went through
    /// commits the refund, a failed one fails the refund and leaves everything
    /// as it was.
    pub fn settle_refund(env: &mut Env, swap_id: &String, outcome: Result<(), TransferError>) -> (result:
        Result<(), HTLCError>)
        requires
            old(env)@.refund_error(swap_id@) is None,
            old(env)@.refunded() < u64::MAX,
        ensures
            match outcome {
                Ok(_) => result is Ok && final(env)@ == old(env)@.refund_effect(swap_id@),
                Err(failure) => result == Err::<(), HTLCError>(failure.as_error()) && final(env)@
                    == old(env)@,
            },
    {
        match outcome {
            Err(failure) => {
                return Err(failure.as_error());
            },
            Ok(_) => {},
        }
        let swap = match get_swap(env, swap_id) {
            Some(swap) => swap,
            None => vstd::pervasive::unreached(),
        };
        let now: u64 = env.timestamp();
        let refunded = Swap {
            id: swap.id.clone(),
            sender: swap.sender,
            recipient: swap.recipient,
            token: swap.token,
            amount: swap.amount,
            protocol_fee: swap.protocol_fee,
            hashlock: swap.hashlock,
            timelock: swap.timelock,
            status: SwapStatus::Refunded,
            created_at: swap.created_at,
            claimed_at: swap.claimed_at,
            refunded_at: Some(now),
            preimage: swap.preimage,
            eth_contract: swap.eth_contract,
            eth_chain_id: swap.eth_chain_id,
            eth_tx_hash: swap.eth_tx_hash,
            resolver: swap.resolver,
        };
        set_swap(env, swap_id, &refunded);
        let count: u64 = get_total_swaps_refunded(env);
        set_total_swaps_refunded(env, count + 1);
        emit_funds_refunded(env, swap.id.clone(), swap.sender, swap.amount);
        emit_swap_status_updated(env, swap.id, swap.status, SwapStatus::Refunded);
        proof {
            assert(env@ == old(env)@.refund_effect(swap_id@));
        }
        Ok(())
    }

    /// Refunds a swap as `refund_swap` does, wherever the counter it would
    /// raise has room to grow. Where a refund would go ahead but for the
    /// counter at its limit, nothing happens, no transfer is asked for and
    /// `None` is returned.
    pub fn try_refund_swap<T: Token>(env: &mut Env, token: &mut T, swap_id: &String) -> (result:
        Option<Result<(), HTLCError>>)
        ensures
            match result {
                None => {
                    &&& old(env)@.refund_error(swap_id@) is None
                    &&& old(env)@.refunded() == u64::MAX
                    &&& final(env)@ == old(env)@
                    &&& final(token).asked() == old(token).asked()
                },
                Some(Ok(_)) => {
                    &&& old(env)@.refund_error(swap_id@) is None
                    &&& final(env)@ == old(env)@.refund_effect(swap_id@)
                },
                Some(Err(error)) => {
                    &&& final(env)@ == old(env)@
                    &&& match old(env)@.refund_error(swap_id@) {
                        Some(expected) => error == expected,
                        None => error == HTLCError::InsufficientBalance || error
                            == HTLCError::TokenTransferFailed,
                    }
                },
            },
            result is Some && old(env)@.refund_error(swap_id@) is Some ==> final(token).asked()
                == old(token).asked(),
            result is Some && old(env)@.refund_error(swap_id@) is None ==> final(token).asked()
                == old(token).asked().push(
                (TransferOrder {
                    asset: old(env)@.swaps[swap_id@].token,
                    from: old(env)@.contract,
                    to: old(env)@.swaps[swap_id@].sender,
                    amount: old(env)@.swaps[swap_id@].amount,
                }),
            ),
    {
        if get_total_swaps_refunded(env) < u64::MAX {
            Some(Self::refund_swap(env, token, swap_id))
        } else {
            match Self::check_refund(env, swap_id) {
                Ok(_) => None,
                Err(error) => Some(Err(error)),
            }
        }
    }

    /// Refunds a swap: at or after the timelock the sender takes the escrowed
    /// amount back.
    ///
    /// Fails with `SwapNotFound` if no such swap is stored, with
    /// `AlreadyClaimed`, `AlreadyRefunded` or `NotInitiated` if the swap was
    /// claimed, refunded or marked as failed, with `TimelockNotExpired`
    /// before the timelock, and with `Unauthorized` unless the sender
    /// authorized the call. Only then is the collaborator asked, once, to
    /// move the escrowed amount of the swap's asset from the contract back to
    /// the sender; if it fails the refund fails with `InsufficientBalance` or
    /// `TokenTransferFailed`. A refund that is refused asks for no transfer.
    ///
    /// A refund that passes all these checks raises a counter, which must
    /// have room to grow; `try_refund_swap` asks nothing of the caller.
    pub fn refund_swap<T: Token>(env: &mut Env, token: &mut T, swap_id: &String) -> (result: Result<
        (),
        HTLCError,
    >)
        requires
            old(env)@.refund_error(swap_id@) is None ==> old(env)@.refunded() < u64::MAX,
        ensures
            match result {
                Ok(_) => {
                    &&& old(env)@.refund_error(swap_id@) is None
                    &&& final(env)@ == old(env)@.refund_effect(swap_id@)
                },
                Err(error) => {
                    &&& final(env)@ == old(env)@
                    &&& match old(env)@.refund_error(swap_id@) {
                        Some(expected) => error == expected,
                        None => error == HTLCError::InsufficientBalance || error
                            == HTLCError::TokenTransferFailed,
                    }
                },
            },
            old(env)@.refund_error(swap_id@) is Some ==> final(token).asked() == old(token).asked(),
            old(env)@.refund_error(swap_id@) is None ==> final(token).asked() == old(token).asked().push(
                (TransferOrder {
                    asset: old(env)@.swaps[swap_id@].token,
                    from: old(env)@.contract,
                    to: old(env)@.swaps[swap_id@].sender,
                    amount: old(env)@.swaps[swap_id@].amount,
                }),
            ),
    {
        let swap = match Self::check_refund(env, swap_id) {
            Ok(swap) => swap,
            Err(error) => {
                return Err(error);
            },
        };
        let escrow = env.current_contract_address();
        let outcome = token.transfer(&swap.token, &escrow, &swap.sender, swap.amount);
        Self::settle_refund(env, swap_id, outcome)
    }

    /// Decides whether the call in progress comes from the administrator.
    fn check_admin(env: &Env) -> (result: Result<Address, HTLCError>)
        ensures
            match result {
                Ok(admin) => env@.admin_error() is None && env@.admin == Some(admin),
                Err(error) => env@.admin_error() == Some(error),
            },
    {
        match get_admin(env) {
            None => Err(HTLCError::NotInitialized),
            Some(admin) => {
                if authorized_as(env, &admin) {
                    Ok(admin)
                } else {
                    Err(HTLCError::Unauthorized)
                }
            },
        }
    }

    /// Initializes the contract: stores the administrator, the fee recipient
    /// and the fee rate, and sets every counter to zero.
    ///
    /// Fails with `AlreadyInitialized` if an administrator is already stored,
    /// with `Unauthorized` unless `admin` authorized the call, and with
    /// `InvalidFee` if the rate exceeds 500 basis points.
    pub fn initialize(
        env: &mut Env,
        admin: Address,
        fee_recipient: Address,
        protocol_fee_bps: u32,
    ) -> (result: Result<(), HTLCError>)
        ensures
            match result {
                Ok(_) => {
                    &&& old(env)@.initialize_error(admin, protocol_fee_bps) is None
                    &&& final(env)@ == old(env)@.initialize_effect(
                        admin,
                        fee_recipient,
                        protocol_fee_bps,
                    )
                },
                Err(error) => {
                    &&& old(env)@.initialize_error(admin, protocol_fee_bps) == Some(error)
                    &&& final(env)@ == old(env)@
                },
            },
    {
        if get_admin(env).is_some() {
            return Err(HTLCError::AlreadyInitialized);
        }
        if !authorized_as(env, &admin) {
            return Err(HTLCError::Unauthorized);
        }
        if protocol_fee_bps > MAX_PROTOCOL_FEE_BPS {
            return Err(HTLCError::InvalidFee);
        }
        set_admin(env, &admin);
        set_fee_recipient(env, &fee_recipient);
        set_protocol_fee_bps(env, protocol_fee_bps);
        set_swap_counter(env, 0);
        set_total_swaps_created(env, 0);
        set_total_swaps_completed(env, 0);
        set_total_swaps_refunded(env, 0);
        set_total_fees_collected(env, 0);
        emit_contract_initialized(env, admin, fee_recipient, protocol_fee_bps);
        Ok(())
    }

    /// Marks a swap as failed: the administrator's way to set aside a swap
    /// whose cross-chain coordination is stuck. No funds move.
    ///
    /// Fails with `SwapNotFound` if no such swap is stored, with
    /// `AlreadyClaimed` or `AlreadyRefunded` if the swap was claimed or
    /// refunded, with `NotInitialized` if there is no administrator and with
    /// `Unauthorized` unless the administrator authorized the call. The
    /// reason is for the caller's own records and is not stored.
    pub fn mark_swap_failed(env: &mut Env, swap_id: &String, reason: &str) -> (result: Result<
        (),
        HTLCError,
    >)
        ensures
            match result {
                Ok(_) => {
                    &&& old(env)@.mark_failed_error(swap_id@) is None
                    &&& final(env)@ == old(env)@.mark_failed_effect(swap_id@)
                },
                Err(error) => {
                    &&& old(env)@.mark_failed_error(swap_id@) == Some(error)
                    &&& final(env)@ == old(env)@
                },
            },
    {
        let swap = match get_swap(env, swap_id) {
            Some(swap) => swap,
            None => {
                return Err(HTLCError::SwapNotFound);
            },
        };
        match swap.status {
            SwapStatus::Claimed => {
                return Err(HTLCError::AlreadyClaimed);
            },
            SwapStatus::Refunded => {
                return Err(HTLCError::AlreadyRefunded);
            },
            _ => {},
        }
        match Self::check_admin(env) {
            Ok(_) => {},
            Err(error) => {
                return Err(error);
            },
        }
        let failed = Swap {
            id: swap.id.clone(),
            sender: swap.sender,
            recipient: swap.recipient,
            token: swap.token,
            amount: swap.amount,
            protocol_fee: swap.protocol_fee,
            hashlock: swap.hashlock,
            timelock: swap.timelock,
            status: SwapStatus::Failed,
            created_at: swap.created_at,
            claimed_at: swap.claimed_at,
            refunded_at: swap.refunded_at,
            preimage: swap.preimage,
            eth_contract: swap.eth_contract,
            eth_chain_id: swap.eth_chain_id,
            eth_tx_hash: swap.eth_tx_hash,
            resolver: swap.resolver,
        };
        set_swap(env, swap_id, &failed);
        emit_swap_status_updated(env, swap.id, swap.status, SwapStatus::Failed);
        proof {
            assert(env@ == old(env)@.mark_failed_effect(swap_id@));
        }
        Ok(())
    }

    /// Registers a resolver, or registers it anew: whatever was recorded for
    /// that identity is replaced by a fresh, active record.
    ///
    /// Fails with `NotInitialized` if there is no administrator, with
    /// `Unauthorized` unless the administrator authorized the call, and with
    /// `InsufficientCollateral` unless the collateral is positive.
    pub fn register_resolver(
        env: &mut Env,
        resolver: Address,
        collateral_token: Address,
        min_collateral: i128,
    ) -> (result: Result<(), HTLCError>)
        ensures
            match result {
                Ok(_) => {
                    &&& old(env)@.register_error(min_collateral) is None
                    &&& final(env)@ == old(env)@.register_effect(
                        resolver,
                        collateral_token,
                        min_collateral,
                    )
                },
                Err(error) => {
                    &&& old(env)@.register_error(min_collateral) == Some(error)
                    &&& final(env)@ == old(env)@
                },
            },
    {
        match Self::check_admin(env) {
            Ok(_) => {},
            Err(error) => {
                return Err(error);
            },
        }
        if min_collateral <= 0 {
            return Err(HTLCError::InsufficientCollateral);
        }
        let info = ResolverInfo {
            resolver,
            collateral_token,
            min_collateral,
            is_active: true,
            total_swaps: 0,
            total_resolved: 0,
            created_at: env.timestamp(),
        };
        set_resolver(env, &resolver, &info);
        emit_resolver_registered(env, resolver, min_collateral);
        Ok(())
    }

    /// Deactivates a resolver. Its record and its counters stay.
    ///
    /// Fails with `NotInitialized` if there is no administrator, with
    /// `Unauthorized` unless the administrator authorized the call, and with
    /// `ResolverNotFound` if the resolver is not registered.
    pub fn deactivate_resolver(env: &mut Env, resolver: Address) -> (result: Result<(), HTLCError>)
        ensures
            match result {
                Ok(_) => {
                    &&& old(env)@.deactivate_error(resolver) is None
                    &&& final(env)@ == old(env)@.deactivate_effect(resolver)
                },
                Err(error) => {
                    &&& old(env)@.deactivate_error(resolver) == Some(error)
                    &&& final(env)@ == old(env)@
                },
            },
    {
        match Self::check_admin(env) {
            Ok(_) => {},
            Err(error) => {
                return Err(error);
            },
        }
        let info = match get_resolver(env, &resolver) {
            Some(info) => info,
            None => {
                return Err(HTLCError::ResolverNotFound);
            },
        };
        let inactive = ResolverInfo { is_active: false, ..info };
        set_resolver(env, &resolver, &inactive);
        emit_resolver_deactivated(env, resolver);
        Ok(())
    }

    /// Changes the protocol fee rate.
    ///
    /// Fails with `NotInitialized` if there is no administrator, with
    /// `Unauthorized` unless the administrator authorized the call, and with
    /// `InvalidFee` if the rate exceeds 500 basis points.
    pub fn update_protocol_fee(env: &mut Env, new_fee_bps: u32) -> (result: Result<(), HTLCError>)
        ensures
            match result {
                Ok(_) => {
                    &&& old(env)@.update_fee_error(new_fee_bps) is None
                    &&& final(env)@ == old(env)@.update_fee_effect(new_fee_bps)
                },
                Err(error) => {
                    &&& old(env)@.update_fee_error(new_fee_bps) == Some(error)
                    &&& final(env)@ == old(env)@
                },
            },
    {
        match Self::check_admin(env) {
            Ok(_) => {},
            Err(error) => {
                return Err(error);
            },
        }
        if new_fee_bps > MAX_PROTOCOL_FEE_BPS {
            return Err(HTLCError::InvalidFee);
        }
        let old_fee_bps: u32 = get_protocol_fee_bps(env);
        set_protocol_fee_bps(env, new_fee_bps);
        emit_protocol_fee_updated(env, old_fee_bps, new_fee_bps);
        Ok(())
    }

    /// Changes who receives the protocol fees.
    ///
    /// Fails with `NotInitialized` if there is no administrator or no fee
    /// recipient to replace, and with `Unauthorized` unless the administrator
    /// authorized the call.
    pub fn update_fee_recipient(env: &mut Env, new_recipient: Address) -> (result: Result<
        (),
        HTLCError,
    >)
        ensures
            match result {
                Ok(_) => {
                    &&& old(env)@.update_recipient_error() is None
                    &&& final(env)@ == old(env)@.update_recipient_effect(new_recipient)
                },
                Err(error) => {
                    &&& old(env)@.update_recipient_error() == Some(error)
                    &&& final(env)@ == old(env)@
                },
            },
    {
        match Self::check_admin(env) {
            Ok(_) => {},
            Err(error) => {
                return Err(error);
            },
        }
        let old_recipient = match get_fee_recipient(env) {
            Some(recipient) => recipient,
            None => {
                return Err(HTLCError::NotInitialized);
            },
        };
        set_fee_recipient(env, &new_recipient);
        emit_fee_recipient_updated(env, old_recipient, new_recipient);
        Ok(())
    }

    /// Whether a swap is stored under `swap_id`.
    pub fn swap_exists(env: &Env, swap_id: &String) -> (exists: bool)
        ensures
            exists == env@.swaps.contains_key(swap_id@),
    {
        has_swap(env, swap_id)
    }

    /// The record of the swap stored under `swap_id`, if there is one. Every
    /// record handed out is valid.
    pub fn get_swap_details(env: &Env, swap_id: &String) -> (swap: Option<Swap>)
        ensures
            swap is Some == env@.swaps.contains_key(swap_id@),
            swap matches Some(found) ==> found == env@.swaps[swap_id@] && found.valid() && found.id@
                == swap_id@,
    {
        get_swap(env, swap_id)
    }

    /// The aggregate figures of the contract. Fails with `NotInitialized`
    /// while there is no administrator or no fee recipient.
    pub fn get_contract_stats(env: &Env) -> (stats: Result<ContractStats, HTLCError>)
        ensures
            stats is Ok == (env@.admin is Some && env@.fee_recipient is Some),
            stats matches Err(error) ==> error == HTLCError::NotInitialized,
            stats matches Ok(figures) ==> figures == (ContractStats {
                total_swaps_created: env@.created(),
                total_swaps_completed: env@.completed(),
                total_swaps_refunded: env@.refunded(),
                total_fees_collected: env@.fees_collected(),
                protocol_fee_bps: env@.fee_bps(),
                admin: env@.admin->0,
                fee_recipient: env@.fee_recipient->0,
            }),
    {
        let admin = match get_admin(env) {
            Some(admin) => admin,
            None => {
                return Err(HTLCError::NotInitialized);
            },
        };
        let fee_recipient = match get_fee_recipient(env) {
            Some(recipient) => recipient,
            None => {
                return Err(HTLCError::NotInitialized);
            },
        };
        Ok(
            ContractStats {
                total_swaps_created: get_total_swaps_created(env),
                total_swaps_completed: get_total_swaps_completed(env),
                total_swaps_refunded: get_total_swaps_refunded(env),
                total_fees_collected: get_total_fees_collected(env),
                protocol_fee_bps: get_protocol_fee_bps(env),
                admin,
                fee_recipient,
            },
        )
    }

    /// The record of `resolver`, if it is registered.
    pub fn get_resolver_info(env: &Env, resolver: Address) -> (info: Option<ResolverInfo>)
        ensures
            info is Some == env@.resolvers.contains_key(resolver),
            info matches Some(found) ==> found == env@.resolvers[resolver] && found.valid(),
    {
        get_resolver(env, &resolver)
    }

    /// The identifiers of the swaps that `user` created, oldest first.
    pub fn get_user_swaps(env: &Env, user: Address) -> (ids: Vec<String>)
        ensures
            ids@ == env@.swaps_of(user),
    {
        get_user_swap_ids(env, &user)
    }

    /// The current ledger time.
    pub fn get_current_time(env: &Env) -> (now: u64)
        ensures
            now == env@.timestamp,
    {
        env.timestamp()
    }
}

} // verus!
