//! The world a contract call runs in: the ledger clock, the identities that
//! authorized the call, the contract's stored data and the events it emitted.
//!
//! The stored data is partitioned by key namespace: a handful of single
//! configuration entries and counters, the swaps by identifier, the resolvers
//! by identity and, for each sender, the identifiers of the swaps they made.

use vstd::prelude::*;
use crate::address::{Address, AddressKind};
use crate::events::Event;
use crate::fees::{DEFAULT_PROTOCOL_FEE_BPS, MAX_PROTOCOL_FEE_BPS};
use crate::table::Table;
use crate::types::{ResolverInfo, Swap};

verus! {

/// The keys of the contract's stored data, one variant per namespace.
#[derive(Clone, Debug, PartialEq, Eq)]
pub enum StorageKey {
    /// Contract administrator.
    Admin,
    /// Who receives the protocol fees.
    FeeRecipient,
    /// Protocol fee in basis points.
    ProtocolFeeBps,
    /// Counter that makes swap identifiers unique.
    SwapCounter,
    /// One swap, by identifier.
    Swap(String),
    /// One resolver, by identity.
    Resolver(Address),
    /// The identifiers of the swaps one sender made.
    UserSwaps(Address),
    /// Number of swaps created.
    TotalSwapsCreated,
    /// Number of swaps claimed.
    TotalSwapsCompleted,
    /// Number of swaps refunded.
    TotalSwapsRefunded,
    /// Sum of the protocol fees taken.
    TotalFeesCollected,
}

/// Everything a contract call can observe or change, as plain mathematics.
pub struct State {
    /// Current ledger time, in seconds.
    pub timestamp: u64,
    /// Current ledger sequence number.
    pub sequence: u32,
    /// The address of the contract itself, which holds the escrowed funds.
    pub contract: Address,
    /// The identities that authorized the current call.
    pub authorized: Set<Address>,
    pub admin: Option<Address>,
    pub fee_recipient: Option<Address>,
    pub protocol_fee_bps: Option<u32>,
    pub swap_counter: Option<u64>,
    pub total_swaps_created: Option<u64>,
    pub total_swaps_completed: Option<u64>,
    pub total_swaps_refunded: Option<u64>,
    pub total_fees_collected: Option<i128>,
    pub swaps: Map<Seq<char>, Swap>,
    pub resolvers: Map<Address, ResolverInfo>,
    pub user_swaps: Map<Address, Seq<String>>,
    /// The events emitted so far, oldest first.
    pub events: Seq<Event>,
}

impl State {
    /// The fee rate in force: the stored one, or the default where none was
    /// stored yet.
    pub open spec fn fee_bps(self) -> u32 {
        match self.protocol_fee_bps {
            Some(bps) => bps,
            None => DEFAULT_PROTOCOL_FEE_BPS,
        }
    }

    /// The identifier counter; zero where none was stored yet.
    pub open spec fn counter(self) -> u64 {
        match self.swap_counter {
            Some(n) => n,
            None => 0,
        }
    }

    /// The counter value that the next creation is derived from: one more
    /// than the counter, as long as the counter has room to grow.
    pub open spec fn next_counter(self) -> u64 {
        if self.counter() < u64::MAX {
            (self.counter() + 1) as u64
        } else {
            u64::MAX
        }
    }

    /// Number of swaps created; zero where none was stored yet.
    pub open spec fn created(self) -> u64 {
        match self.total_swaps_created {
            Some(n) => n,
            None => 0,
        }
    }

    /// Number of swaps claimed; zero where none was stored yet.
    pub open spec fn completed(self) -> u64 {
        match self.total_swaps_completed {
            Some(n) => n,
            None => 0,
        }
    }

    /// Number of swaps refunded; zero where none was stored yet.
    pub open spec fn refunded(self) -> u64 {
        match self.total_swaps_refunded {
            Some(n) => n,
            None => 0,
        }
    }

    /// Sum of the fees taken; zero where none was stored yet.
    pub open spec fn fees_collected(self) -> i128 {
        match self.total_fees_collected {
            Some(n) => n,
            None => 0,
        }
    }

    /// The identifiers of the swaps `user` made, oldest first.
    pub open spec fn swaps_of(self, user: Address) -> Seq<String> {
        if self.user_swaps.contains_key(user) {
            self.user_swaps[user]
        } else {
            Seq::empty()
        }
    }

    /// Whether a resolver is registered and active.
    pub open spec fn resolver_active(self, resolver: Address) -> bool {
        self.resolvers.contains_key(resolver) && self.resolvers[resolver].is_active
    }

    /// Whether anything is stored under `key`.
    pub open spec fn has(self, key: StorageKey) -> bool {
        match key {
            StorageKey::Admin => self.admin is Some,
            StorageKey::FeeRecipient => self.fee_recipient is Some,
            StorageKey::ProtocolFeeBps => self.protocol_fee_bps is Some,
            StorageKey::SwapCounter => self.swap_counter is Some,
            StorageKey::Swap(id) => self.swaps.contains_key(id@),
            StorageKey::Resolver(resolver) => self.resolvers.contains_key(resolver),
            StorageKey::UserSwaps(user) => self.user_swaps.contains_key(user),
            StorageKey::TotalSwapsCreated => self.total_swaps_created is Some,
            StorageKey::TotalSwapsCompleted => self.total_swaps_completed is Some,
            StorageKey::TotalSwapsRefunded => self.total_swaps_refunded is Some,
            StorageKey::TotalFeesCollected => self.total_fees_collected is Some,
        }
    }

    /// The same state with one more swap counted for `resolver`, where it is
    /// registered.
    pub open spec fn with_resolver_swap(self, resolver: Address) -> State {
        if self.resolvers.contains_key(resolver) {
            let info = self.resolvers[resolver];
            State {
                resolvers: self.resolvers.insert(
                    resolver,
                    ResolverInfo { total_swaps: (info.total_swaps + 1) as u64, ..info },
                ),
                ..self
            }
        } else {
            self
        }
    }

    /// The same state with one more claimed swap counted for `resolver`,
    /// where it is registered.
    pub open spec fn with_resolver_success(self, resolver: Address) -> State {
        if self.resolvers.contains_key(resolver) {
            let info = self.resolvers[resolver];
            State {
                resolvers: self.resolvers.insert(
                    resolver,
                    ResolverInfo { total_resolved: (info.total_resolved + 1) as u64, ..info },
                ),
                ..self
            }
        } else {
            self
        }
    }

    /// The same state with one more event at the end of the log.
    pub open spec fn with_event(self, event: Event) -> State {
        State { events: self.events.push(event), ..self }
    }

    /// What holds of the stored data at all times: the fee rate is within its
    /// cap, the fee total is not negative, every swap and every resolver
    /// record is valid and is stored under its own identifier.
    pub open spec fn valid(self) -> bool {
        &&& self.fee_bps() <= MAX_PROTOCOL_FEE_BPS
        &&& self.fees_collected() >= 0
        &&& forall|id: Seq<char>| #[trigger]
            self.swaps.contains_key(id) ==> self.swaps[id].valid() && self.swaps[id].id@ == id
        &&& forall|resolver: Address| #[trigger]
            self.resolvers.contains_key(resolver) ==> self.resolvers[resolver].valid()
                && self.resolvers[resolver].resolver == resolver
    }
}

/// The state of the contract and of the call in progress.
pub struct Env {
    timestamp: u64,
    sequence: u32,
    contract: Address,
    all_authorized: bool,
    authorized: Vec<Address>,
    admin: Option<Address>,
    fee_recipient: Option<Address>,
    protocol_fee_bps: Option<u32>,
    swap_counter: Option<u64>,
    total_swaps_created: Option<u64>,
    total_swaps_completed: Option<u64>,
    total_swaps_refunded: Option<u64>,
    total_fees_collected: Option<i128>,
    swaps: Table<String, Swap>,
    resolvers: Table<Address, ResolverInfo>,
    user_swaps: Table<Address, Vec<String>>,
    events: Vec<Event>,
}

impl View for Env {
    type V = State;

    closed spec fn view(&self) -> State {
        State {
            timestamp: self.timestamp,
            sequence: self.sequence,
            contract: self.contract,
            authorized: Set::new(
                |who: Address| self.all_authorized || self.authorized@.contains(who),
            ),
            admin: self.admin,
            fee_recipient: self.fee_recipient,
            protocol_fee_bps: self.protocol_fee_bps,
            swap_counter: self.swap_counter,
            total_swaps_created: self.total_swaps_created,
            total_swaps_completed: self.total_swaps_completed,
            total_swaps_refunded: self.total_swaps_refunded,
            total_fees_collected: self.total_fees_collected,
            swaps: self.swaps@,
            resolvers: self.resolvers@,
            user_swaps: Map::new(
                |user: Address| self.user_swaps@.contains_key(user),
                |user: Address| self.user_swaps@[user]@,
            ),
            events: self.events@,
        }
    }
}

impl Env {
    /// The tables are well formed and the stored data is valid.
    #[verifier::type_invariant]
    pub closed spec fn inv(&self) -> bool {
        &&& self.swaps.wf()
        &&& self.resolvers.wf()
        &&& self.user_swaps.wf()
        &&& self@.valid()
    }

    /// Every environment holds valid data.
    pub proof fn lemma_valid(&self)
        requires
            self.inv(),
        ensures
            self@.valid(),
    {
    }

    /// The state before the first call: time zero, nobody authorized, nothing
    /// stored, nothing emitted. The contract lives at the all-zero contract
    /// address until it is given another.
    pub open spec fn initial() -> State {
        State {
            timestamp: 0,
            sequence: 0,
            contract: Address {
                kind: AddressKind::Contract,
                key: vstd::array::spec_array_fill_for_copy_type::<u8, 32>(0u8),
            },
            authorized: Set::empty(),
            admin: None,
            fee_recipient: None,
            protocol_fee_bps: None,
            swap_counter: None,
            total_swaps_created: None,
            total_swaps_completed: None,
            total_swaps_refunded: None,
            total_fees_collected: None,
            swaps: Map::empty(),
            resolvers: Map::empty(),
            user_swaps: Map::empty(),
            events: Seq::empty(),
        }
    }

    /// A fresh environment.
    pub fn new() -> (env: Env)
        ensures
            env@ == Self::initial(),
    {
        let env = Env {
            timestamp: 0,
            sequence: 0,
            contract: Address::contract([0u8; 32]),
            all_authorized: false,
            authorized: Vec::new(),
            admin: None,
            fee_recipient: None,
            protocol_fee_bps: None,
            swap_counter: None,
            total_swaps_created: None,
            total_swaps_completed: None,
            total_swaps_refunded: None,
            total_fees_collected: None,
            swaps: Table::new(),
            resolvers: Table::new(),
            user_swaps: Table::new(),
            events: Vec::new(),
        };
        proof {
            assert(env@.authorized =~= Set::empty());
            assert(env@.user_swaps =~= Map::empty());
            assert(env@ == Self::initial());
        }
        env
    }

    /// Current ledger time, in seconds.
    pub fn timestamp(&self) -> (now: u64)
        ensures
            now == self@.timestamp,
    {
        self.timestamp
    }

    /// Current ledger sequence number.
    pub fn sequence(&self) -> (sequence: u32)
        ensures
            sequence == self@.sequence,
    {
        self.sequence
    }

    /// Moves the ledger clock.
    pub fn set_timestamp(&mut self, timestamp: u64)
        ensures
            final(self)@ == (State { timestamp, ..old(self)@ }),
    {
        proof {
            use_type_invariant(&*self);
        }
        self.timestamp = timestamp;
    }

    /// Moves the ledger sequence number.
    pub fn set_sequence(&mut self, sequence: u32)
        ensures
            final(self)@ == (State { sequence, ..old(self)@ }),
    {
        proof {
            use_type_invariant(&*self);
        }
        self.sequence = sequence;
    }

    /// The address of the contract itself.
    pub fn current_contract_address(&self) -> (contract: Address)
        ensures
            contract == self@.contract,
    {
        self.contract
    }

    /// Places the contract at `contract`.
    pub fn set_contract_address(&mut self, contract: Address)
        ensures
            final(self)@ == (State { contract, ..old(self)@ }),
    {
        proof {
            use_type_invariant(&*self);
        }
        self.contract = contract;
    }

    /// Notes that `who` authorized the call in progress.
    pub fn authorize(&mut self, who: Address)
        ensures
            final(self)@ == (State { authorized: old(self)@.authorized.insert(who), ..old(self)@ }),
    {
        proof {
            use_type_invariant(&*self);
        }
        let mut list: Vec<Address> = Vec::new();
        core::mem::swap(&mut self.authorized, &mut list);
        let ghost before = list@;
        list.push(who);
        self.authorized = list;
        proof {
            assert forall|a: Address| self@.authorized.contains(a) <==> old(self)@.authorized.insert(
                who,
            ).contains(a) by {
                if before.contains(a) {
                    let i = choose|i: int| 0 <= i < before.len() && before[i] == a;
                    assert(self.authorized@[i] == a);
                }
                if a == who {
                    assert(self.authorized@[before.len() as int] == a);
                }
            }
            assert(self@.authorized =~= old(self)@.authorized.insert(who));
        }
    }

    /// Treats every identity as having authorized the call in progress.
    pub fn mock_all_auths(&mut self)
        ensures
            final(self)@ == (State { authorized: Set::full(), ..old(self)@ }),
    {
        proof {
            use_type_invariant(&*self);
        }
        self.all_authorized = true;
        proof {
            assert(self@.authorized =~= Set::full());
        }
    }

    /// Forgets every authorization: a new call begins.
    pub fn clear_auths(&mut self)
        ensures
            final(self)@ == (State { authorized: Set::empty(), ..old(self)@ }),
    {
        proof {
            use_type_invariant(&*self);
        }
        self.all_authorized = false;
        self.authorized = Vec::new();
        proof {
            assert(self@.authorized =~= Set::empty());
        }
    }

    /// Whether `identity` authorized the call in progress.
    pub fn is_authorized(&self, identity: &Address) -> (granted: bool)
        ensures
            granted == self@.authorized.contains(*identity),
    {
        if self.all_authorized {
            return true;
        }
        let mut i: usize = 0;
        while i < self.authorized.len()
            invariant
                i <= self.authorized@.len(),
                forall|j: int| 0 <= j < i ==> self.authorized@[j] != *identity,
            decreases self.authorized@.len() - i,
        {
            if self.authorized[i] == *identity {
                return true;
            }
            i += 1;
        }
        false
    }

    /// Appends an event to the log.
    pub fn publish(&mut self, event: Event)
        ensures
            final(self)@ == old(self)@.with_event(event),
    {
        proof {
            use_type_invariant(&*self);
        }
        let mut log: Vec<Event> = Vec::new();
        core::mem::swap(&mut self.events, &mut log);
        log.push(event);
        self.events = log;
    }

    /// The events emitted so far, oldest first.
    pub fn events(&self) -> (log: &Vec<Event>)
        ensures
            log@ == self@.events,
    {
        &self.events
    }

    /// Hands out the events emitted so far and empties the log.
    pub fn take_events(&mut self) -> (log: Vec<Event>)
        ensures
            log@ == old(self)@.events,
            final(self)@ == (State { events: Seq::empty(), ..old(self)@ }),
    {
        proof {
            use_type_invariant(&*self);
        }
        let mut log: Vec<Event> = Vec::new();
        core::mem::swap(&mut self.events, &mut log);
        log
    }
}

/// Whether anything is stored under `key`.
pub fn has(env: &Env, key: &StorageKey) -> (present: bool)
    ensures
        present == env@.has(*key),
{
    match key {
        StorageKey::Admin => env.admin.is_some(),
        StorageKey::FeeRecipient => env.fee_recipient.is_some(),
        StorageKey::ProtocolFeeBps => env.protocol_fee_bps.is_some(),
        StorageKey::SwapCounter => env.swap_counter.is_some(),
        StorageKey::Swap(id) => env.swaps.contains_key(id),
        StorageKey::Resolver(resolver) => env.resolvers.contains_key(resolver),
        StorageKey::UserSwaps(user) => env.user_swaps.contains_key(user),
        StorageKey::TotalSwapsCreated => env.total_swaps_created.is_some(),
        StorageKey::TotalSwapsCompleted => env.total_swaps_completed.is_some(),
        StorageKey::TotalSwapsRefunded => env.total_swaps_refunded.is_some(),
        StorageKey::TotalFeesCollected => env.total_fees_collected.is_some(),
    }
}

/// Stores the administrator.
pub fn set_admin(env: &mut Env, admin: &Address)
    ensures
        final(env)@ == (State { admin: Some(*admin), ..old(env)@ }),
{
    proof {
        use_type_invariant(&*env);
    }
    env.admin = Some(*admin);
}

/// The administrator, once the contract is initialized.
pub fn get_admin(env: &Env) -> (admin: Option<Address>)
    ensures
        admin == env@.admin,
{
    env.admin
}

/// Stores who receives the protocol fees.
pub fn set_fee_recipient(env: &mut Env, recipient: &Address)
    ensures
        final(env)@ == (State { fee_recipient: Some(*recipient), ..old(env)@ }),
{
    proof {
        use_type_invariant(&*env);
    }
    env.fee_recipient = Some(*recipient);
}

/// Who receives the protocol fees, once the contract is initialized.
pub fn get_fee_recipient(env: &Env) -> (recipient: Option<Address>)
    ensures
        recipient == env@.fee_recipient,
{
    env.fee_recipient
}

/// Stores the protocol fee rate, which may not exceed the cap.
pub fn set_protocol_fee_bps(env: &mut Env, fee_bps: u32)
    requires
        fee_bps <= MAX_PROTOCOL_FEE_BPS,
    ensures
        final(env)@ == (State { protocol_fee_bps: Some(fee_bps), ..old(env)@ }),
{
    proof {
        use_type_invariant(&*env);
    }
    env.protocol_fee_bps = Some(fee_bps);
}

/// The protocol fee rate in force; the default where none was stored.
pub fn get_protocol_fee_bps(env: &Env) -> (fee_bps: u32)
    ensures
        fee_bps == env@.fee_bps(),
        fee_bps <= MAX_PROTOCOL_FEE_BPS,
{
    proof {
        use_type_invariant(env);
    }
    match env.protocol_fee_bps {
        Some(fee_bps) => fee_bps,
        None => DEFAULT_PROTOCOL_FEE_BPS,
    }
}

/// Stores the identifier counter.
pub fn set_swap_counter(env: &mut Env, counter: u64)
    ensures
        final(env)@ == (State { swap_counter: Some(counter), ..old(env)@ }),
{
    proof {
        use_type_invariant(&*env);
    }
    env.swap_counter = Some(counter);
}

/// The identifier counter; zero where none was stored.
pub fn get_swap_counter(env: &Env) -> (counter: u64)
    ensures
        counter == env@.counter(),
{
    match env.swap_counter {
        Some(counter) => counter,
        None => 0,
    }
}

/// Stores the number of swaps created.
pub fn set_total_swaps_created(env: &mut Env, total: u64)
    ensures
        final(env)@ == (State { total_swaps_created: Some(total), ..old(env)@ }),
{
    proof {
        use_type_invariant(&*env);
    }
    env.total_swaps_created = Some(total);
}

/// The number of swaps created; zero where none was stored.
pub fn get_total_swaps_created(env: &Env) -> (total: u64)
    ensures
        total == env@.created(),
{
    match env.total_swaps_created {
        Some(total) => total,
        None => 0,
    }
}

/// Stores the number of swaps claimed.
pub fn set_total_swaps_completed(env: &mut Env, total: u64)
    ensures
        final(env)@ == (State { total_swaps_completed: Some(total), ..old(env)@ }),
{
    proof {
        use_type_invariant(&*env);
    }
    env.total_swaps_completed = Some(total);
}

/// The number of swaps claimed; zero where none was stored.
pub fn get_total_swaps_completed(env: &Env) -> (total: u64)
    ensures
        total == env@.completed(),
{
    match env.total_swaps_completed {
        Some(total) => total,
        None => 0,
    }
}

/// Stores the number of swaps refunded.
pub fn set_total_swaps_refunded(env: &mut Env, total: u64)
    ensures
        final(env)@ == (State { total_swaps_refunded: Some(total), ..old(env)@ }),
{
    proof {
        use_type_invariant(&*env);
    }
    env.total_swaps_refunded = Some(total);
}

/// The number of swaps refunded; zero where none was stored.
pub fn get_total_swaps_refunded(env: &Env) -> (total: u64)
    ensures
        total == env@.refunded(),
{
    match env.total_swaps_refunded {
        Some(total) => total,
        None => 0,
    }
}

/// Stores the sum of the protocol fees taken, which is never negative.
pub fn set_total_fees_collected(env: &mut Env, total: i128)
    requires
        total >= 0,
    ensures
        final(env)@ == (State { total_fees_collected: Some(total), ..old(env)@ }),
{
    proof {
        use_type_invariant(&*env);
    }
    env.total_fees_collected = Some(total);
}

/// The sum of the protocol fees taken; zero where none was stored.
pub fn get_total_fees_collected(env: &Env) -> (total: i128)
    ensures
        total == env@.fees_collected(),
        total >= 0,
{
    proof {
        use_type_invariant(env);
    }
    match env.total_fees_collected {
        Some(total) => total,
        None => 0,
    }
}

/// Stores a swap record under its identifier, replacing what was there.
pub fn set_swap(env: &mut Env, swap_id: &String, swap: &Swap)
    requires
        swap.valid(),
        swap.id@ == swap_id@,
    ensures
        final(env)@ == (State { swaps: old(env)@.swaps.insert(swap_id@, *swap), ..old(env)@ }),
{
    proof {
        use_type_invariant(&*env);
    }
    let mut swaps: Table<String, Swap> = Table::new();
    core::mem::swap(&mut env.swaps, &mut swaps);
    swaps.insert(swap_id.clone(), swap.clone());
    env.swaps = swaps;
}

/// The swap stored under `swap_id`. Every stored record is valid and carries
/// the identifier it is stored under.
pub fn get_swap(env: &Env, swap_id: &String) -> (swap: Option<Swap>)
    ensures
        swap is Some == env@.swaps.contains_key(swap_id@),
        swap matches Some(found) ==> found == env@.swaps[swap_id@] && found.valid() && found.id@
            == swap_id@,
{
    proof {
        use_type_invariant(env);
    }
    match env.swaps.get(swap_id) {
        Some(swap) => Some(swap.clone()),
        None => None,
    }
}

/// Whether a swap is stored under `swap_id`.
pub fn has_swap(env: &Env, swap_id: &String) -> (present: bool)
    ensures
        present == env@.swaps.contains_key(swap_id@),
{
    env.swaps.contains_key(swap_id)
}

/// Stores a resolver record under its identity, replacing what was there.
pub fn set_resolver(env: &mut Env, resolver: &Address, info: &ResolverInfo)
    requires
        info.valid(),
        info.resolver == *resolver,
    ensures
        final(env)@ == (State {
            resolvers: old(env)@.resolvers.insert(*resolver, *info),
            ..old(env)@
        }),
{
    proof {
        use_type_invariant(&*env);
    }
    let mut resolvers: Table<Address, ResolverInfo> = Table::new();
    core::mem::swap(&mut env.resolvers, &mut resolvers);
    resolvers.insert(*resolver, *info);
    env.resolvers = resolvers;
}

/// The record of `resolver`, if it is registered.
pub fn get_resolver(env: &Env, resolver: &Address) -> (info: Option<ResolverInfo>)
    ensures
        info is Some == env@.resolvers.contains_key(*resolver),
        info matches Some(found) ==> found == env@.resolvers[*resolver] && found.valid()
            && found.resolver == *resolver,
{
    proof {
        use_type_invariant(env);
    }
    match env.resolvers.get(resolver) {
        Some(info) => Some(*info),
        None => None,
    }
}

/// Whether `resolver` is registered and active.
pub fn is_resolver_active(env: &Env, resolver: &Address) -> (active: bool)
    ensures
        active == env@.resolver_active(*resolver),
{
    match get_resolver(env, resolver) {
        Some(info) => info.is_active,
        None => false,
    }
}

/// Counts one more swap that names `resolver`. Nothing changes where the
/// resolver is not registered.
pub fn increment_resolver_swaps(env: &mut Env, resolver: &Address)
    requires
        old(env)@.resolvers.contains_key(*resolver) ==> old(env)@.resolvers[*resolver].total_swaps
            < u64::MAX,
    ensures
        final(env)@ == old(env)@.with_resolver_swap(*resolver),
{
    match get_resolver(env, resolver) {
        Some(info) => {
            let counted = ResolverInfo { total_swaps: info.total_swaps + 1, ..info };
            set_resolver(env, resolver, &counted);
        },
        None => {},
    }
}

/// Counts one more claimed swap that names `resolver`. Nothing changes where
/// the resolver is not registered.
pub fn increment_resolver_successful_swaps(env: &mut Env, resolver: &Address)
    requires
        old(env)@.resolvers.contains_key(*resolver) ==> old(env)@.resolvers[*resolver].total_resolved
            < u64::MAX,
    ensures
        final(env)@ == old(env)@.with_resolver_success(*resolver),
{
    match get_resolver(env, resolver) {
        Some(info) => {
            let counted = ResolverInfo { total_resolved: info.total_resolved + 1, ..info };
            set_resolver(env, resolver, &counted);
        },
        None => {},
    }
}

/// A copy of a list of identifiers.
fn copy_ids(ids: &Vec<String>) -> (copy: Vec<String>)
    ensures
        copy@ == ids@,
{
    let mut copy: Vec<String> = Vec::new();
    let mut i: usize = 0;
    while i < ids.len()
        invariant
            i <= ids@.len(),
            copy@ == ids@.subrange(0, i as int),
        decreases ids@.len() - i,
    {
        copy.push(ids[i].clone());
        proof {
            assert(copy@ =~= ids@.subrange(0, i as int + 1));
        }
        i += 1;
    }
    proof {
        assert(copy@ =~= ids@);
    }
    copy
}

/// Appends `swap_id` to the list of swaps that `user` made.
pub fn add_user_swap(env: &mut Env, user: &Address, swap_id: &String)
    ensures
        final(env)@ == (State {
            user_swaps: old(env)@.user_swaps.insert(*user, old(env)@.swaps_of(*user).push(*swap_id)),
            ..old(env)@
        }),
{
    proof {
        use_type_invariant(&*env);
    }
    let mut ids = get_user_swap_ids(env, user);
    ids.push(swap_id.clone());
    let mut lists: Table<Address, Vec<String>> = Table::new();
    core::mem::swap(&mut env.user_swaps, &mut lists);
    lists.insert(*user, ids);
    env.user_swaps = lists;
    proof {
        assert(env@.user_swaps =~= old(env)@.user_swaps.insert(
            *user,
            old(env)@.swaps_of(*user).push(*swap_id),
        ));
    }
}

/// The identifiers of the swaps that `user` made, oldest first.
pub fn get_user_swap_ids(env: &Env, user: &Address) -> (ids: Vec<String>)
    ensures
        ids@ == env@.swaps_of(*user),
{
    proof {
        use_type_invariant(env);
    }
    match env.user_swaps.get(user) {
        Some(ids) => copy_ids(ids),
        None => Vec::new(),
    }
}

/// Whether `identity` authorized the call in progress.
pub fn authorized_as(env: &Env, identity: &Address) -> (granted: bool)
    ensures
        granted == env@.authorized.contains(*identity),
{
    env.is_authorized(identity)
}

} // verus!
