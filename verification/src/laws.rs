//! What holds of the escrow whatever is done with it.
//!
//! The laws speak of histories: any sequence of calls, successful or not,
//! interleaved with the passing of time and with changes of who authorizes
//! the call in progress.

use vstd::prelude::*;
use crate::address::Address;
use crate::errors::HTLCError;
use crate::fees::{fee_of, lemma_fee_bounds, MAX_PROTOCOL_FEE_BPS};
use crate::hash::sha256_digest;
use crate::ident::{id_message, lemma_id_message_injective, swap_id};
use crate::rules::SwapRequest;
use crate::storage::{Env, State};
use crate::types::{timelock_in_window, Swap, SwapStatus};

verus! {

/// One thing that can happen to the contract.
pub enum Step {
    /// The ledger moves on to another time and sequence number.
    Tick { timestamp: u64, sequence: u32 },
    /// A new call begins, authorized by the given identities.
    Call { authorized: Set<Address> },
    Initialize { admin: Address, fee_recipient: Address, fee_bps: u32 },
    /// A creation that, if it goes through, returns `returned`.
    Create { request: SwapRequest, returned: String },
    /// A claim, and whether the transfer to the recipient goes through.
    Claim { id: Seq<char>, preimage: [u8; 32], transferred: bool },
    /// A refund, and whether the transfer to the sender goes through.
    Refund { id: Seq<char>, transferred: bool },
    MarkFailed { id: Seq<char> },
    Register { resolver: Address, collateral_token: Address, min_collateral: i128 },
    Deactivate { resolver: Address },
    UpdateFee { new_fee_bps: u32 },
    UpdateRecipient { new_recipient: Address },
}

impl Step {
    /// Whether the step is a call that goes through in state `s`: all its
    /// checks pass, its counters have room, and the transfer it depends on
    /// succeeds.
    pub open spec fn succeeds(self, s: State) -> bool {
        match self {
            Step::Tick { .. } => true,
            Step::Call { .. } => true,
            Step::Initialize { admin, fee_recipient, fee_bps } => s.initialize_error(admin, fee_bps)
                is None,
            Step::Create { request, returned } => {
                &&& s.create_error(request) is None
                &&& s.create_headroom(request)
                &&& returned@ == swap_id(s.id_seed(request))
            },
            Step::Claim { id, preimage, transferred } => {
                &&& s.claim_error(id, preimage) is None
                &&& s.claim_headroom(id)
                &&& transferred
            },
            Step::Refund { id, transferred } => {
                &&& s.refund_error(id) is None
                &&& s.refunded() < u64::MAX
                &&& transferred
            },
            Step::MarkFailed { id } => s.mark_failed_error(id) is None,
            Step::Register { resolver, collateral_token, min_collateral } => s.register_error(
                min_collateral,
            ) is None,
            Step::Deactivate { resolver } => s.deactivate_error(resolver) is None,
            Step::UpdateFee { new_fee_bps } => s.update_fee_error(new_fee_bps) is None,
            Step::UpdateRecipient { new_recipient } => s.update_recipient_error() is None,
        }
    }

    /// The state after the step: its effect where it goes through, the state
    /// as it was where it does not.
    pub open spec fn apply(self, s: State) -> State {
        if !self.succeeds(s) {
            s
        } else {
            match self {
                Step::Tick { timestamp, sequence } => State { timestamp, sequence, ..s },
                Step::Call { authorized } => State { authorized, ..s },
                Step::Initialize { admin, fee_recipient, fee_bps } => s.initialize_effect(
                    admin,
                    fee_recipient,
                    fee_bps,
                ),
                Step::Create { request, returned } => s.create_effect(request, returned),
                Step::Claim { id, preimage, transferred } => s.claim_effect(id, preimage),
                Step::Refund { id, transferred } => s.refund_effect(id),
                Step::MarkFailed { id } => s.mark_failed_effect(id),
                Step::Register { resolver, collateral_token, min_collateral } => s.register_effect(
                    resolver,
                    collateral_token,
                    min_collateral,
                ),
                Step::Deactivate { resolver } => s.deactivate_effect(resolver),
                Step::UpdateFee { new_fee_bps } => s.update_fee_effect(new_fee_bps),
                Step::UpdateRecipient { new_recipient } => s.update_recipient_effect(new_recipient),
            }
        }
    }

    /// Whether the step is a claim or a refund of swap `id` that goes through
    /// in state `s`: the two ways in which the escrowed funds leave.
    pub open spec fn pays_out(self, s: State, id: Seq<char>) -> bool {
        self.succeeds(s) && match self {
            Step::Claim { id: claimed, .. } => claimed == id,
            Step::Refund { id: refunded, .. } => refunded == id,
            _ => false,
        }
    }
}

/// The state after a whole history, starting from `s`.
pub open spec fn run(s: State, steps: Seq<Step>) -> State
    decreases steps.len(),
{
    if steps.len() == 0 {
        s
    } else {
        steps.last().apply(run(s, steps.drop_last()))
    }
}

/// How many times the funds of swap `id` were paid out in a history that
/// starts from `s`.
pub open spec fn payouts(s: State, steps: Seq<Step>, id: Seq<char>) -> nat
    decreases steps.len(),
{
    if steps.len() == 0 {
        0
    } else {
        let before = payouts(s, steps.drop_last(), id);
        if steps.last().pays_out(run(s, steps.drop_last()), id) {
            before + 1
        } else {
            before
        }
    }
}

/// Whether a stored swap has reached a final state.
pub open spec fn settled(s: State, id: Seq<char>) -> bool {
    s.swaps.contains_key(id) && s.swaps[id].status.spec_is_terminal()
}

/// What never changes about a swap: everything but its status, the times of
/// claim and refund and the revealed preimage.
pub open spec fn same_terms(a: Swap, b: Swap) -> bool {
    &&& a.id == b.id
    &&& a.sender == b.sender
    &&& a.recipient == b.recipient
    &&& a.token == b.token
    &&& a.amount == b.amount
    &&& a.protocol_fee == b.protocol_fee
    &&& a.hashlock == b.hashlock
    &&& a.timelock == b.timelock
    &&& a.created_at == b.created_at
    &&& a.eth_contract == b.eth_contract
    &&& a.eth_chain_id == b.eth_chain_id
    &&& a.eth_tx_hash == b.eth_tx_hash
    &&& a.resolver == b.resolver
}

/// No step removes a swap or changes its terms, and no step changes a swap
/// that has reached a final state. A swap that changes at all was live and
/// is final afterwards.
pub proof fn lemma_step_on_swap(s: State, step: Step, id: Seq<char>)
    requires
        s.swaps.contains_key(id),
    ensures
        step.apply(s).swaps.contains_key(id),
        same_terms(s.swaps[id], step.apply(s).swaps[id]),
        settled(s, id) ==> step.apply(s).swaps[id] == s.swaps[id],
        step.apply(s).swaps[id] != s.swaps[id] ==> s.swaps[id].status.spec_is_live() && settled(
            step.apply(s),
            id,
        ),
        step.pays_out(s, id) ==> !settled(s, id) && settled(step.apply(s), id),
{
}

/// The same holds of whole histories: swaps stay, their terms stay, and a
/// swap in a final state stays exactly as it is.
pub proof fn lemma_run_on_swap(s: State, steps: Seq<Step>, id: Seq<char>)
    requires
        s.swaps.contains_key(id),
    ensures
        run(s, steps).swaps.contains_key(id),
        same_terms(s.swaps[id], run(s, steps).swaps[id]),
        settled(s, id) ==> run(s, steps).swaps[id] == s.swaps[id],
    decreases steps.len(),
{
    if steps.len() > 0 {
        lemma_run_on_swap(s, steps.drop_last(), id);
        lemma_step_on_swap(run(s, steps.drop_last()), steps.last(), id);
    }
}

/// Once a swap has reached a final state, its funds are never paid out
/// again, whatever is tried.
pub proof fn lemma_settled_never_pays(s: State, steps: Seq<Step>, id: Seq<char>)
    requires
        settled(s, id),
    ensures
        payouts(s, steps, id) == 0,
    decreases steps.len(),
{
    if steps.len() > 0 {
        lemma_settled_never_pays(s, steps.drop_last(), id);
        lemma_run_on_swap(s, steps.drop_last(), id);
        lemma_step_on_swap(run(s, steps.drop_last()), steps.last(), id);
    }
}

/// In every history, from every state, the funds of a swap are paid out at
/// most once: at most one claim or refund of it ever goes through, and after
/// the one that does the swap is in a final state.
pub proof fn lemma_at_most_one_payout(s: State, steps: Seq<Step>, id: Seq<char>)
    ensures
        payouts(s, steps, id) <= 1,
        payouts(s, steps, id) == 1 ==> settled(run(s, steps), id),
    decreases steps.len(),
{
    if steps.len() > 0 {
        let before = steps.drop_last();
        let mid = run(s, before);
        lemma_at_most_one_payout(s, before, id);
        if mid.swaps.contains_key(id) {
            lemma_step_on_swap(mid, steps.last(), id);
        }
    }
}

/// After a claim has gone through, every later claim of the same swap fails
/// with `AlreadyClaimed` and so does every later refund, whatever happened in
/// between.
pub proof fn lemma_claim_excludes_refund(
    s: State,
    id: Seq<char>,
    preimage: [u8; 32],
    later: Seq<Step>,
    again: [u8; 32],
)
    requires
        s.claim_error(id, preimage) is None,
    ensures
        run(s.claim_effect(id, preimage), later).refund_error(id) == Some(
            HTLCError::AlreadyClaimed,
        ),
        run(s.claim_effect(id, preimage), later).claim_error(id, again) == Some(
            HTLCError::AlreadyClaimed,
        ),
{
    lemma_run_on_swap(s.claim_effect(id, preimage), later, id);
}

/// After a refund has gone through, every later refund of the same swap fails
/// with `AlreadyRefunded` and so does every later claim, whatever happened in
/// between.
pub proof fn lemma_refund_excludes_claim(
    s: State,
    id: Seq<char>,
    later: Seq<Step>,
    preimage: [u8; 32],
)
    requires
        s.refund_error(id) is None,
    ensures
        run(s.refund_effect(id), later).claim_error(id, preimage) == Some(
            HTLCError::AlreadyRefunded,
        ),
        run(s.refund_effect(id), later).refund_error(id) == Some(HTLCError::AlreadyRefunded),
{
    lemma_run_on_swap(s.refund_effect(id), later, id);
}

/// At no moment can a swap be both claimed and refunded: a claim needs the
/// ledger time to lie before the timelock and a refund needs it not to.
pub proof fn lemma_windows_disjoint(s: State, id: Seq<char>, preimage: [u8; 32])
    ensures
        !(s.claim_error(id, preimage) is None && s.refund_error(id) is None),
{
}

/// A claim that goes through leaves the preimage on record, and the record
/// shows that it opens the hashlock: the digest of the recorded preimage is
/// the recorded hashlock, which is the one the swap was created with.
pub proof fn lemma_claim_records_preimage(s: State, id: Seq<char>, preimage: [u8; 32])
    requires
        s.claim_error(id, preimage) is None,
    ensures
        ({
            let record = s.claim_effect(id, preimage).swaps[id];
            &&& record.status == SwapStatus::Claimed
            &&& record.preimage == Some(preimage)
            &&& record.claimed_at == Some(s.timestamp)
            &&& record.hashlock == s.swaps[id].hashlock
            &&& sha256_digest(preimage@) == record.hashlock@
            &&& s.swaps[id].valid() ==> record.valid()
        }),
{
}

/// Every step keeps the stored data valid: amounts stay positive, the fee
/// rate stays within its cap, and every swap keeps its preimage and its times
/// exactly as its status demands.
pub proof fn lemma_step_keeps_valid(s: State, step: Step)
    requires
        s.valid(),
    ensures
        step.apply(s).valid(),
{
    let t = step.apply(s);
    if step.succeeds(s) {
        match step {
            Step::Create { request, returned: id } => {
                lemma_fee_bounds(request.amount as int, s.fee_bps() as int);
                let swap = s.new_swap(request, id);
                assert(swap.valid());
                assert forall|k: Seq<char>| #[trigger] t.swaps.contains_key(k) implies t.swaps[k].valid()
                    && t.swaps[k].id@ == k by {
                    if k != id@ {
                        assert(s.swaps.contains_key(k));
                    }
                }
                assert forall|r: Address| #[trigger] t.resolvers.contains_key(r) implies t.resolvers[r].valid()
                    && t.resolvers[r].resolver == r by {
                    assert(s.resolvers.contains_key(r));
                }
            },
            Step::Claim { id, preimage, transferred } => {
                assert forall|k: Seq<char>| #[trigger] t.swaps.contains_key(k) implies t.swaps[k].valid()
                    && t.swaps[k].id@ == k by {
                    assert(s.swaps.contains_key(k));
                }
                assert forall|r: Address| #[trigger] t.resolvers.contains_key(r) implies t.resolvers[r].valid()
                    && t.resolvers[r].resolver == r by {
                    assert(s.resolvers.contains_key(r));
                }
            },
            Step::Refund { id, transferred } => {
                assert forall|k: Seq<char>| #[trigger] t.swaps.contains_key(k) implies t.swaps[k].valid()
                    && t.swaps[k].id@ == k by {
                    assert(s.swaps.contains_key(k));
                }
            },
            Step::MarkFailed { id } => {
                assert forall|k: Seq<char>| #[trigger] t.swaps.contains_key(k) implies t.swaps[k].valid()
                    && t.swaps[k].id@ == k by {
                    assert(s.swaps.contains_key(k));
                }
            },
            Step::Register { resolver, collateral_token, min_collateral } => {
                assert forall|r: Address| #[trigger] t.resolvers.contains_key(r) implies t.resolvers[r].valid()
                    && t.resolvers[r].resolver == r by {
                    if r != resolver {
                        assert(s.resolvers.contains_key(r));
                    }
                }
            },
            Step::Deactivate { resolver } => {
                assert forall|r: Address| #[trigger] t.resolvers.contains_key(r) implies t.resolvers[r].valid()
                    && t.resolvers[r].resolver == r by {
                    assert(s.resolvers.contains_key(r));
                }
            },
            _ => {},
        }
    }
}

/// Every history keeps the stored data valid.
pub proof fn lemma_run_keeps_valid(s: State, steps: Seq<Step>)
    requires
        s.valid(),
    ensures
        run(s, steps).valid(),
    decreases steps.len(),
{
    if steps.len() > 0 {
        lemma_run_keeps_valid(s, steps.drop_last());
        lemma_step_keeps_valid(run(s, steps.drop_last()), steps.last());
    }
}

/// A creation goes through only with a timelock more than an hour and at
/// most seven days ahead; with any other timelock it fails with
/// `InvalidTimelock`, provided the sender authorized the call and the amount
/// is positive. The swap that is created carries that timelock and the time
/// of its creation.
pub proof fn lemma_timelock_window(s: State, request: SwapRequest, id: String)
    ensures
        s.create_error(request) is None ==> timelock_in_window(s.timestamp, request.timelock),
        s.create_error(request) is None ==> 3600 < request.timelock - s.timestamp <= 604800,
        !timelock_in_window(s.timestamp, request.timelock) && s.authorized.contains(request.sender)
            && request.amount > 0 ==> s.create_error(request) == Some(HTLCError::InvalidTimelock),
        timelock_in_window(s.new_swap(request, id).created_at, s.new_swap(request, id).timelock)
            == timelock_in_window(s.timestamp, request.timelock),
{
}

/// The fee taken at creation and the amount that goes into escrow add up to
/// the amount the sender gave, and the fee is that amount times the rate,
/// divided by ten thousand and rounded down.
pub proof fn lemma_fee_at_creation(s: State, request: SwapRequest, id: String)
    requires
        s.valid(),
        request.amount > 0,
    ensures
        ({
            let swap = s.new_swap(request, id);
            &&& swap.amount + swap.protocol_fee == request.amount
            &&& swap.protocol_fee == fee_of(request.amount as int, s.fee_bps() as int)
            &&& swap.protocol_fee == (request.amount * s.fee_bps()) / 10000
            &&& swap.amount > 0
            &&& 0 <= swap.protocol_fee
        }),
{
    lemma_fee_bounds(request.amount as int, s.fee_bps() as int);
}

/// Two creations never return the same identifier, however alike their
/// requests and whatever happens between them: the second is derived from a
/// later counter value, hence from different bytes, and it goes through only
/// if its identifier is not taken.
pub proof fn lemma_identifiers_distinct(
    s: State,
    first: SwapRequest,
    first_id: String,
    between: Seq<Step>,
    second: SwapRequest,
    second_id: String,
)
    requires
        (Step::Create { request: first, returned: first_id }).succeeds(s),
        (Step::Create { request: second, returned: second_id }).succeeds(
            run(s.create_effect(first, first_id), between),
        ),
    ensures
        first_id@ != second_id@,
{
    let after = s.create_effect(first, first_id);
    assert(after.swaps.contains_key(first_id@));
    lemma_run_on_swap(after, between, first_id@);
}

/// Two creations by one sender that go through one after the other, however
/// alike their requests: the identifiers differ, the record of the first
/// swap is untouched by the second creation, and the sender's list ends with
/// the first identifier followed by the second.
pub proof fn lemma_two_creations(
    s: State,
    first: SwapRequest,
    first_id: String,
    second: SwapRequest,
    second_id: String,
)
    requires
        first.sender == second.sender,
        (Step::Create { request: first, returned: first_id }).succeeds(s),
        (Step::Create { request: second, returned: second_id }).succeeds(
            s.create_effect(first, first_id),
        ),
    ensures
        ({
            let middle = s.create_effect(first, first_id);
            let after = middle.create_effect(second, second_id);
            let list = after.swaps_of(first.sender);
            &&& first_id@ != second_id@
            &&& after.swaps[first_id@] == middle.swaps[first_id@]
            &&& middle.swaps[first_id@] == s.new_swap(first, first_id)
            &&& after.swaps[second_id@] == middle.new_swap(second, second_id)
            &&& list == s.swaps_of(first.sender).push(first_id).push(second_id)
        }),
{
    let middle = s.create_effect(first, first_id);
    assert(middle.swaps.contains_key(first_id@));
}

/// A creation that follows another at once, in the same instant, is hashed
/// from different bytes even if the two requests are the same, as long as the
/// counter has room to grow.
pub proof fn lemma_same_instant_messages_differ(
    s: State,
    first: SwapRequest,
    first_id: String,
    second: SwapRequest,
)
    requires
        (Step::Create { request: first, returned: first_id }).succeeds(s),
        s.create_effect(first, first_id).counter() < u64::MAX,
    ensures
        id_message(s.id_seed(first)) != id_message(
            s.create_effect(first, first_id).id_seed(second),
        ),
{
    let a = s.id_seed(first);
    let b = s.create_effect(first, first_id).id_seed(second);
    assert(a.counter != b.counter);
    lemma_id_message_injective(a, b);
}

/// The list of the swaps a sender made only ever grows at its end: whatever
/// happens, the list as it was stays the beginning of the list as it is.
pub proof fn lemma_index_append_only(s: State, steps: Seq<Step>, user: Address)
    ensures
        s.swaps_of(user).is_prefix_of(run(s, steps).swaps_of(user)),
    decreases steps.len(),
{
    if steps.len() > 0 {
        let mid = run(s, steps.drop_last());
        lemma_index_append_only(s, steps.drop_last(), user);
        let after = steps.last().apply(mid);
        assert(mid.swaps_of(user).is_prefix_of(after.swaps_of(user))) by {
            if after.swaps_of(user) != mid.swaps_of(user) {
                assert(after.swaps_of(user).len() == mid.swaps_of(user).len() + 1);
                assert(after.swaps_of(user).subrange(0, mid.swaps_of(user).len() as int)
                    =~= mid.swaps_of(user));
            } else {
                assert(after.swaps_of(user).subrange(0, mid.swaps_of(user).len() as int)
                    =~= mid.swaps_of(user));
            }
        }
        let a = s.swaps_of(user);
        let b = mid.swaps_of(user);
        let c = after.swaps_of(user);
        assert(a =~= b.subrange(0, a.len() as int));
        assert(b =~= c.subrange(0, b.len() as int));
        assert(a =~= c.subrange(0, a.len() as int));
    }
}

/// The administrator, the fee recipient and the fee rate change only in a
/// call that the administrator authorized: the one that is being installed,
/// for the first initialization, and the one in office ever after. A fee rate
/// that changes stays within its cap.
pub proof fn lemma_configuration_is_the_administrators(s: State, step: Step)
    requires
        step.apply(s).admin != s.admin || step.apply(s).fee_recipient != s.fee_recipient
            || step.apply(s).protocol_fee_bps != s.protocol_fee_bps,
    ensures
        match s.admin {
            Some(admin) => s.authorized.contains(admin) && step.apply(s).admin == s.admin,
            None => step matches Step::Initialize { admin, .. } && s.authorized.contains(admin)
                && step.apply(s).admin == Some(admin),
        },
        step.apply(s).protocol_fee_bps != s.protocol_fee_bps ==> step.apply(s).fee_bps()
            <= MAX_PROTOCOL_FEE_BPS,
{
}

/// Why a claim is refused, case by case and whatever the counters hold: a
/// claimed swap stays claimed and a refunded one refunded; at or after the
/// timelock the deadline decides, whatever the preimage; before it a wrong
/// preimage is refused whoever brings it; and only then does it matter who
/// authorized the call. A claim passes its checks in no other case.
pub proof fn lemma_claim_refusals(s: State, id: Seq<char>, preimage: [u8; 32])
    ensures
        !s.swaps.contains_key(id) ==> s.claim_error(id, preimage) == Some(HTLCError::SwapNotFound),
        s.swaps.contains_key(id) ==> ({
            let swap = s.swaps[id];
            let live = swap.status.spec_is_live();
            let early = s.timestamp < swap.timelock;
            let opens = sha256_digest(preimage@) == swap.hashlock@;
            &&& swap.status == SwapStatus::Claimed ==> s.claim_error(id, preimage) == Some(
                HTLCError::AlreadyClaimed,
            )
            &&& swap.status == SwapStatus::Refunded ==> s.claim_error(id, preimage) == Some(
                HTLCError::AlreadyRefunded,
            )
            &&& swap.status == SwapStatus::Failed ==> s.claim_error(id, preimage) == Some(
                HTLCError::NotInitiated,
            )
            &&& live && !early ==> s.claim_error(id, preimage) == Some(HTLCError::TimelockExpired)
            &&& live && early && !opens ==> s.claim_error(id, preimage) == Some(
                HTLCError::InvalidPreimage,
            )
            &&& live && early && opens && !s.authorized.contains(swap.recipient) ==> s.claim_error(
                id,
                preimage,
            ) == Some(HTLCError::Unauthorized)
            &&& s.claim_error(id, preimage) is None <==> live && early && opens
                && s.authorized.contains(swap.recipient)
        }),
{
}

/// Why a refund is refused, case by case and whatever the counters hold: a
/// claimed swap stays claimed and a refunded one refunded; before the
/// timelock the deadline decides; and only then does it matter who authorized
/// the call. A refund passes its checks in no other case.
pub proof fn lemma_refund_refusals(s: State, id: Seq<char>)
    ensures
        !s.swaps.contains_key(id) ==> s.refund_error(id) == Some(HTLCError::SwapNotFound),
        s.swaps.contains_key(id) ==> ({
            let swap = s.swaps[id];
            let live = swap.status.spec_is_live();
            let due = s.timestamp >= swap.timelock;
            &&& swap.status == SwapStatus::Claimed ==> s.refund_error(id) == Some(
                HTLCError::AlreadyClaimed,
            )
            &&& swap.status == SwapStatus::Refunded ==> s.refund_error(id) == Some(
                HTLCError::AlreadyRefunded,
            )
            &&& swap.status == SwapStatus::Failed ==> s.refund_error(id) == Some(
                HTLCError::NotInitiated,
            )
            &&& live && !due ==> s.refund_error(id) == Some(HTLCError::TimelockNotExpired)
            &&& live && due && !s.authorized.contains(swap.sender) ==> s.refund_error(id) == Some(
                HTLCError::Unauthorized,
            )
            &&& s.refund_error(id) is None <==> live && due && s.authorized.contains(swap.sender)
        }),
{
}

/// Why a creation is refused, case by case and whatever the counters hold:
/// first who authorized the call, then the amount, then the timelock, then
/// the resolver, which has to be registered and active if one is named, and
/// last the identifier, which must not be taken.
pub proof fn lemma_create_refusals(s: State, request: SwapRequest)
    ensures
        ({
            let signed = s.authorized.contains(request.sender);
            let positive = request.amount > 0;
            let timely = timelock_in_window(s.timestamp, request.timelock);
            let resolved = request.resolver matches Some(resolver) ==> s.resolver_active(resolver);
            let fresh = !s.swaps.contains_key(swap_id(s.id_seed(request)));
            &&& !signed ==> s.create_error(request) == Some(HTLCError::Unauthorized)
            &&& signed && !positive ==> s.create_error(request) == Some(HTLCError::InvalidAmount)
            &&& signed && positive && !timely ==> s.create_error(request) == Some(
                HTLCError::InvalidTimelock,
            )
            &&& signed && positive && timely && !resolved ==> s.create_error(request) == Some(
                HTLCError::ResolverNotActive,
            )
            &&& signed && positive && timely && resolved && !fresh ==> s.create_error(request)
                == Some(HTLCError::SwapAlreadyExists)
            &&& s.create_error(request) is None <==> signed && positive && timely && resolved
                && fresh
        }),
{
}

/// Why a change of the configuration or of the resolvers is refused when the
/// administrator authorized it: a fee rate above the cap is an invalid fee,
/// a collateral that is not positive is insufficient, and a resolver that is
/// not registered cannot be deactivated.
pub proof fn lemma_admin_refusals(
    s: State,
    new_fee_bps: u32,
    min_collateral: i128,
    resolver: Address,
)
    requires
        s.admin_error() is None,
    ensures
        s.update_fee_error(new_fee_bps) == (if new_fee_bps > MAX_PROTOCOL_FEE_BPS {
            Some(HTLCError::InvalidFee)
        } else {
            None
        }),
        s.register_error(min_collateral) == (if min_collateral <= 0 {
            Some(HTLCError::InsufficientCollateral)
        } else {
            None
        }),
        s.deactivate_error(resolver) == (if s.resolvers.contains_key(resolver) {
            None
        } else {
            Some(HTLCError::ResolverNotFound)
        }),
{
}

/// The lists of swaps by sender are in order: every identifier on the list
/// of a sender names a stored swap of that sender, and no identifier is
/// listed twice.
pub open spec fn index_sound(s: State) -> bool {
    &&& forall|user: Address, i: int|
        0 <= i < s.swaps_of(user).len() ==> s.swaps.contains_key(#[trigger] s.swaps_of(user)[i]@)
            && s.swaps[s.swaps_of(user)[i]@].sender == user
    &&& forall|user: Address, i: int, j: int|
        0 <= i < j < s.swaps_of(user).len() ==> (#[trigger] s.swaps_of(user)[i])@
            != (#[trigger] s.swaps_of(user)[j])@
}

/// No step disturbs the order of the lists by sender: a creation adds the new
/// identifier, which was not stored before, at the end of its sender's list,
/// and nothing else touches the lists or who the sender of a swap is.
pub proof fn lemma_step_keeps_index(s: State, step: Step)
    requires
        index_sound(s),
    ensures
        index_sound(step.apply(s)),
{
    let t = step.apply(s);
    assert forall|user: Address, i: int| 0 <= i < t.swaps_of(user).len() implies t.swaps.contains_key(
        #[trigger] t.swaps_of(user)[i]@,
    ) && t.swaps[t.swaps_of(user)[i]@].sender == user by {
        if i < s.swaps_of(user).len() && t.swaps_of(user)[i] == s.swaps_of(user)[i] {
            let id = s.swaps_of(user)[i]@;
            assert(s.swaps.contains_key(id));
            lemma_step_on_swap(s, step, id);
        }
    }
    assert forall|user: Address, i: int, j: int| 0 <= i < j < t.swaps_of(user).len() implies (
    #[trigger] t.swaps_of(user)[i])@ != (#[trigger] t.swaps_of(user)[j])@ by {
        if j < s.swaps_of(user).len() {
            assert(t.swaps_of(user)[i] == s.swaps_of(user)[i]);
            assert(t.swaps_of(user)[j] == s.swaps_of(user)[j]);
        } else {
            assert(t.swaps_of(user)[i] == s.swaps_of(user)[i]);
            assert(s.swaps.contains_key(s.swaps_of(user)[i]@));
        }
    }
}

/// Before anything is stored the data is valid and the lists by sender are in
/// order.
pub proof fn lemma_initial_state()
    ensures
        Env::initial().valid(),
        index_sound(Env::initial()),
{
}

/// Starting from lists in order, as they are when nothing is stored yet, the
/// lists by sender stay in order through every history.
pub proof fn lemma_run_keeps_index(s: State, steps: Seq<Step>)
    requires
        index_sound(s),
    ensures
        index_sound(run(s, steps)),
    decreases steps.len(),
{
    if steps.len() > 0 {
        lemma_run_keeps_index(s, steps.drop_last());
        lemma_step_keeps_index(run(s, steps.drop_last()), steps.last());
    }
}

} // verus!
