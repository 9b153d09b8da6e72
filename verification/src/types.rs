//! The records of the escrow: swaps, resolvers and aggregate statistics.

use vstd::prelude::*;
use crate::address::Address;
use crate::errors::TransferError;
use crate::hash::{preimage_opens, sha256_digest};

verus! {

/// A timelock must lie more than this many seconds after creation: 1 hour.
pub const MIN_TIMELOCK_DURATION: u64 = 3600;

/// A timelock must lie at most this many seconds after creation: 7 days.
pub const MAX_TIMELOCK_DURATION: u64 = 604800;

/// Collateral, in stroops, that a deployment is advised to ask of a resolver.
/// Registration itself only insists on a positive amount.
pub const MIN_RESOLVER_COLLATERAL: i128 = 1000000;

/// Whether `timelock` is an acceptable deadline for a swap created at `now`:
/// more than an hour and at most seven days ahead.
pub open spec fn timelock_in_window(now: u64, timelock: u64) -> bool {
    MIN_TIMELOCK_DURATION < timelock - now <= MAX_TIMELOCK_DURATION
}

/// Decides whether `timelock` is an acceptable deadline for a swap created at
/// `now`.
pub fn check_timelock(now: u64, timelock: u64) -> (ok: bool)
    ensures
        ok == timelock_in_window(now, timelock),
{
    timelock > now && timelock - now > MIN_TIMELOCK_DURATION && timelock - now
        <= MAX_TIMELOCK_DURATION
}

/// Where a swap stands in its life.
///
/// `Pending` and `Active` are the two names of the live state; the other
/// three are final.
#[derive(Copy, Clone, Debug, PartialEq, Eq, Hash, Structural)]
pub enum SwapStatus {
    Pending,
    Active,
    Claimed,
    Refunded,
    Failed,
}

impl SwapStatus {
    /// The swap still holds its funds and waits for a claim or a refund.
    pub open spec fn spec_is_live(self) -> bool {
        self == SwapStatus::Pending || self == SwapStatus::Active
    }

    /// The swap has reached a state that it never leaves.
    pub open spec fn spec_is_terminal(self) -> bool {
        !self.spec_is_live()
    }

    /// Whether the swap still waits for a claim or a refund.
    #[verifier::when_used_as_spec(spec_is_live)]
    pub fn is_live(self) -> (live: bool)
        ensures
            live == self.spec_is_live(),
    {
        match self {
            SwapStatus::Pending => true,
            SwapStatus::Active => true,
            _ => false,
        }
    }

    /// Whether the swap has reached a state that it never leaves.
    #[verifier::when_used_as_spec(spec_is_terminal)]
    pub fn is_terminal(self) -> (terminal: bool)
        ensures
            terminal == self.spec_is_terminal(),
    {
        !self.is_live()
    }
}

/// One escrow: funds locked by `sender` for `recipient` under a hashlock and
/// a timelock.
#[derive(Debug, PartialEq, Eq)]
pub struct Swap {
    /// Unique identifier, fixed at creation.
    pub id: String,
    /// Who locked the funds and may take them back after the timelock.
    pub sender: Address,
    /// Who may claim the funds by revealing the preimage.
    pub recipient: Address,
    /// The asset that is locked.
    pub token: Address,
    /// The amount held in escrow, net of the protocol fee. Always positive.
    pub amount: i128,
    /// The protocol fee that was taken from the gross amount at creation.
    pub protocol_fee: i128,
    /// SHA-256 digest of the secret.
    pub hashlock: [u8; 32],
    /// Deadline: claims come before it, refunds at or after it.
    pub timelock: u64,
    pub status: SwapStatus,
    pub created_at: u64,
    /// When the swap was claimed; present exactly on a claimed swap.
    pub claimed_at: Option<u64>,
    /// When the swap was refunded; present exactly on a refunded swap.
    pub refunded_at: Option<u64>,
    /// The revealed secret; present exactly on a claimed swap.
    pub preimage: Option<[u8; 32]>,
    /// Contract on the counterparty chain that mirrors this swap.
    pub eth_contract: Address,
    /// Identifier of the counterparty chain.
    pub eth_chain_id: u64,
    /// Transaction on the counterparty chain, where one is known.
    pub eth_tx_hash: Option<String>,
    /// The third party that facilitates this swap, if any.
    pub resolver: Option<Address>,
}

impl Clone for Swap {
    fn clone(&self) -> (copy: Swap)
        ensures
            copy == *self,
    {
        Swap {
            id: self.id.clone(),
            sender: self.sender,
            recipient: self.recipient,
            token: self.token,
            amount: self.amount,
            protocol_fee: self.protocol_fee,
            hashlock: self.hashlock,
            timelock: self.timelock,
            status: self.status,
            created_at: self.created_at,
            claimed_at: self.claimed_at,
            refunded_at: self.refunded_at,
            preimage: self.preimage,
            eth_contract: self.eth_contract,
            eth_chain_id: self.eth_chain_id,
            eth_tx_hash: match &self.eth_tx_hash {
                Some(hash) => Some(hash.clone()),
                None => None,
            },
            resolver: self.resolver,
        }
    }
}

impl Swap {
    /// What holds of every swap record at all times.
    ///
    /// The escrowed amount is positive and the fee not negative; the deadline
    /// lies in the permitted window after creation; the preimage and the time
    /// of the claim are recorded exactly on a claimed swap, the time of the
    /// refund exactly on a refunded one; a recorded preimage hashes to the
    /// hashlock; a claim happened before the deadline and a refund not before
    /// it.
    pub open spec fn valid(self) -> bool {
        &&& self.amount > 0
        &&& self.protocol_fee >= 0
        &&& timelock_in_window(self.created_at, self.timelock)
        &&& (self.preimage is Some <==> self.status == SwapStatus::Claimed)
        &&& (self.claimed_at is Some <==> self.status == SwapStatus::Claimed)
        &&& (self.refunded_at is Some <==> self.status == SwapStatus::Refunded)
        &&& (self.preimage matches Some(secret) ==> sha256_digest(secret@) == self.hashlock@)
        &&& (self.claimed_at matches Some(at) ==> at < self.timelock)
        &&& (self.refunded_at matches Some(at) ==> self.timelock <= at)
    }

    /// Checks the record against everything that must hold of it, hashing the
    /// recorded preimage anew. Anyone who holds the record can repeat this.
    pub fn is_consistent(&self) -> (ok: bool)
        ensures
            ok == self.valid(),
    {
        let claimed = self.status == SwapStatus::Claimed;
        let refunded = self.status == SwapStatus::Refunded;
        let secret_ok = match &self.preimage {
            Some(secret) => claimed && preimage_opens(secret, &self.hashlock),
            None => !claimed,
        };
        let claim_ok = match self.claimed_at {
            Some(at) => claimed && at < self.timelock,
            None => !claimed,
        };
        let refund_ok = match self.refunded_at {
            Some(at) => refunded && self.timelock <= at,
            None => !refunded,
        };
        self.amount > 0 && self.protocol_fee >= 0 && check_timelock(self.created_at, self.timelock)
            && secret_ok && claim_ok && refund_ok
    }
}

/// A registered third-party facilitator.
#[derive(Copy, Clone, Debug, PartialEq, Eq)]
pub struct ResolverInfo {
    pub resolver: Address,
    /// The asset in which the resolver posts collateral.
    pub collateral_token: Address,
    /// The collateral asked of the resolver. Always positive.
    pub min_collateral: i128,
    /// Cleared when the resolver is deactivated; the record itself stays.
    pub is_active: bool,
    /// Swaps created that name this resolver.
    pub total_swaps: u64,
    /// Swaps naming this resolver that were claimed.
    pub total_resolved: u64,
    pub created_at: u64,
}

impl ResolverInfo {
    /// What holds of every resolver record: the collateral is positive.
    pub open spec fn valid(self) -> bool {
        self.min_collateral > 0
    }
}

/// Aggregate figures of the contract, computed from its state on request.
#[derive(Copy, Clone, Debug, PartialEq, Eq)]
pub struct ContractStats {
    pub total_swaps_created: u64,
    pub total_swaps_completed: u64,
    pub total_swaps_refunded: u64,
    pub total_fees_collected: i128,
    pub protocol_fee_bps: u32,
    pub admin: Address,
    pub fee_recipient: Address,
}

/// One request to move funds, as it was handed to the asset-transfer
/// collaborator.
#[derive(Copy, Clone, Debug, PartialEq, Eq)]
pub struct TransferOrder {
    /// The asset to move.
    pub asset: Address,
    /// Who pays.
    pub from: Address,
    /// Who receives.
    pub to: Address,
    pub amount: i128,
}

/// The asset-transfer collaborator: whatever moves the locked asset between
/// parties. The escrow asks it once for every claim or refund whose checks
/// have passed and commits the state change only if the transfer went
/// through.
///
/// Whether a transfer goes through is the collaborator's own business. What
/// it has to keep is the record of what it was asked: every call adds the
/// order it was given, as it was given, to the end of that record.
pub trait Token {
    /// The orders this collaborator was asked to carry out, oldest first.
    spec fn asked(&self) -> Seq<TransferOrder>;

    /// Moves `amount` of `asset` from `from` to `to`.
    fn transfer(&mut self, asset: &Address, from: &Address, to: &Address, amount: i128) -> (outcome:
        Result<(), TransferError>)
        ensures
            final(self).asked() == old(self).asked().push(
                (TransferOrder { asset: *asset, from: *from, to: *to, amount }),
            ),
    ;
}

/// A collaborator that keeps the orders it is asked to carry out and answers
/// each of them the same way: it lets every transfer through, or refuses
/// every transfer for the reason it was set up with.
pub struct Ledger {
    orders: Vec<TransferOrder>,
    refusal: Option<TransferError>,
}

impl Ledger {
    /// The reason for which this ledger refuses transfers, if it does.
    pub closed spec fn refusal(&self) -> Option<TransferError> {
        self.refusal
    }

    /// A ledger that lets every transfer through.
    pub fn open() -> (ledger: Ledger)
        ensures
            ledger.asked() == Seq::<TransferOrder>::empty(),
            ledger.refusal() is None,
    {
        Ledger { orders: Vec::new(), refusal: None }
    }

    /// A ledger that refuses every transfer for the given reason.
    pub fn refusing(reason: TransferError) -> (ledger: Ledger)
        ensures
            ledger.asked() == Seq::<TransferOrder>::empty(),
            ledger.refusal() == Some(reason),
    {
        Ledger { orders: Vec::new(), refusal: Some(reason) }
    }

    /// The orders this ledger was asked to carry out, oldest first.
    pub fn orders(&self) -> (orders: &Vec<TransferOrder>)
        ensures
            orders@ == self.asked(),
    {
        &self.orders
    }
}

impl Token for Ledger {
    closed spec fn asked(&self) -> Seq<TransferOrder> {
        self.orders@
    }

    fn transfer(&mut self, asset: &Address, from: &Address, to: &Address, amount: i128) -> (outcome:
        Result<(), TransferError>)
        ensures
            final(self).refusal() == old(self).refusal(),
            outcome == match old(self).refusal() {
                Some(reason) => Err::<(), TransferError>(reason),
                None => Ok::<(), TransferError>(()),
            },
    {
        self.orders.push(TransferOrder { asset: *asset, from: *from, to: *to, amount });
        match self.refusal {
            Some(reason) => Err(reason),
            None => Ok(()),
        }
    }
}

} // verus!
