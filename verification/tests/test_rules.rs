use stellar_htlc::{
    authorized_as, compute_fee, generate_swap_id, get_resolver, get_swap_counter,
    get_total_fees_collected, get_total_swaps_refunded, get_user_swap_ids, has, hex_encode,
    set_resolver, set_swap_counter, set_total_fees_collected, set_total_swaps_completed,
    set_total_swaps_created, set_total_swaps_refunded,
    preimage_opens, set_swap, split_amount, Address, Env, Event, HTLCError, Ledger, StellarHTLC,
    StorageKey, Swap, SwapStatus, TransferError, TransferOrder,
};

const SENDER: [u8; 32] = [1; 32];
const RECIPIENT: [u8; 32] = [2; 32];
const TOKEN: [u8; 32] = [3; 32];
const ADMIN: [u8; 32] = [0xAD; 32];
const FEES: [u8; 32] = [0xFE; 32];
const ETH: [u8; 32] = [0xE7; 32];

/// SHA-256 of thirty-two zero bytes.
const ZERO_DIGEST: [u8; 32] = [
    0x66, 0x68, 0x7a, 0xad, 0xf8, 0x62, 0xbd, 0x77, 0x6c, 0x8f, 0xc1, 0x8b, 0x8e, 0x9f, 0x8e,
    0x20, 0x08, 0x97, 0x14, 0x85, 0x6e, 0xe2, 0x33, 0xb3, 0x90, 0x2a, 0x59, 0x1d, 0x0d, 0x5f,
    0x29, 0x25,
];

fn sender() -> Address {
    Address::account(SENDER)
}

fn recipient() -> Address {
    Address::account(RECIPIENT)
}

fn token() -> Address {
    Address::contract(TOKEN)
}

fn admin() -> Address {
    Address::account(ADMIN)
}

fn initialized(fee_bps: u32) -> Env {
    let mut env = Env::new();
    env.authorize(admin());
    StellarHTLC::initialize(&mut env, admin(), Address::account(FEES), fee_bps).unwrap();
    env.clear_auths();
    env
}

fn create(env: &mut Env, hashlock: [u8; 32], timelock: u64, amount: i128) -> Result<String, HTLCError> {
    StellarHTLC::create_swap(
        env,
        sender(),
        recipient(),
        hashlock,
        timelock,
        token(),
        amount,
        Address::contract(ETH),
        1,
        None,
        None,
    )
}

fn created(env: &mut Env, hashlock: [u8; 32]) -> String {
    env.clear_auths();
    env.authorize(sender());
    let id = create(env, hashlock, env.timestamp() + 7200, 1_000_000).unwrap();
    env.clear_auths();
    id
}

// ------------------------------------------------------------------ fees

#[test]
fn fee_of_one_million_at_thirty_bps() {
    assert_eq!(compute_fee(1_000_000, 30), 3000);
    assert_eq!(split_amount(1_000_000, 30), (3000, 997_000));
}

#[test]
fn fee_rounds_down_and_parts_add_up() {
    assert_eq!(compute_fee(1, 500), 0);
    assert_eq!(compute_fee(19, 500), 0);
    assert_eq!(compute_fee(20, 500), 1);
    assert_eq!(compute_fee(9_999, 1), 0);
    assert_eq!(compute_fee(10_000, 1), 1);
    assert_eq!(compute_fee(12_345, 77), 95);
    assert_eq!(compute_fee(0, 500), 0);
    assert_eq!(compute_fee(1_000_000, 0), 0);
    assert_eq!(compute_fee(777, 10_000), 777);
    for amount in [1i128, 7, 19, 20, 9_999, 10_001, 123_456_789, i128::MAX] {
        for bps in [0u32, 1, 30, 499, 500] {
            let (fee, net) = split_amount(amount, bps);
            assert_eq!(fee + net, amount);
            assert!(net > 0);
            assert!(fee >= 0);
        }
    }
}

#[test]
fn fee_of_the_largest_amount_does_not_overflow() {
    let amount = i128::MAX;
    let fee = compute_fee(amount, 500);
    assert_eq!(fee, amount / 20);
    assert_eq!(compute_fee(amount, 30), 510423550381407695195061911147652317);
}

#[test]
fn creation_takes_the_fee_and_adds_it_to_the_total() {
    let mut env = initialized(30);
    env.authorize(sender());
    let id = create(&mut env, [1; 32], 7200, 1_000_000).unwrap();
    let swap = StellarHTLC::get_swap_details(&env, &id).unwrap();
    assert_eq!(swap.protocol_fee, 3000);
    assert_eq!(swap.amount, 997_000);
    assert_eq!(get_total_fees_collected(&env), 3000);
    let id2 = create(&mut env, [1; 32], 7200, 2_000_000).unwrap();
    assert_eq!(StellarHTLC::get_swap_details(&env, &id2).unwrap().protocol_fee, 6000);
    assert_eq!(get_total_fees_collected(&env), 9000);
    let stats = StellarHTLC::get_contract_stats(&env).unwrap();
    assert_eq!(stats.total_fees_collected, 9000);
    assert_eq!(stats.total_swaps_created, 2);
}

#[test]
fn default_fee_applies_before_initialization() {
    let mut env = Env::new();
    env.authorize(sender());
    let id = create(&mut env, [1; 32], 7200, 1_000_000).unwrap();
    let swap = StellarHTLC::get_swap_details(&env, &id).unwrap();
    assert_eq!(swap.protocol_fee, 3000);
    assert!(!has(&env, &StorageKey::ProtocolFeeBps));
    assert!(has(&env, &StorageKey::SwapCounter));
    assert!(has(&env, &StorageKey::Swap(id.clone())));
    assert!(has(&env, &StorageKey::UserSwaps(sender())));
    assert!(!has(&env, &StorageKey::UserSwaps(recipient())));
    assert!(!has(&env, &StorageKey::Admin));
}

// ------------------------------------------------------------ identifiers

#[test]
fn hash_is_sha256() {
    assert!(preimage_opens(&[0; 32], &ZERO_DIGEST));
    assert!(!preimage_opens(&[0; 32], &[0; 32]));
    assert!(!preimage_opens(&[1; 32], &ZERO_DIGEST));
    let mut close = ZERO_DIGEST;
    close[31] ^= 1;
    assert!(!preimage_opens(&[0; 32], &close));
}

#[test]
fn hex_is_lower_case_two_digits_per_byte() {
    assert_eq!(
        hex_encode(&ZERO_DIGEST),
        "66687aadf862bd776c8fc18b8e9f8e20089714856ee233b3902a591d0d5f2925"
    );
    let mut bytes = [0u8; 32];
    for (i, byte) in bytes.iter_mut().enumerate() {
        *byte = (i as u8) * 8 + 7;
    }
    assert_eq!(
        hex_encode(&bytes),
        "070f171f272f373f474f575f676f777f878f979fa7afb7bfc7cfd7dfe7eff7ff"
    );
}

#[test]
fn identifier_is_the_digest_of_the_laid_out_parameters() {
    let env = Env::new();
    let id = generate_swap_id(&env, &sender(), &recipient(), &token(), 1_000_000, &[1; 32], 7200, 1);
    assert_eq!(id, "1de1e09c2ac1f7bf4f02a542b8f06bc6c803699530160eb7d506f2460fc17866");
    let next = generate_swap_id(&env, &sender(), &recipient(), &token(), 1_000_000, &[1; 32], 7200, 2);
    assert_eq!(next, "557b5c9cb78462cc69755ff2404cdca63fa28fd3ead4289d9c492cc5c91fb5e5");
}

#[test]
fn identifier_mixes_in_time_sequence_and_negative_amounts() {
    let mut env = Env::new();
    env.set_timestamp(1_700_000_000);
    env.set_sequence(123_456);
    let id = generate_swap_id(
        &env,
        &sender(),
        &recipient(),
        &token(),
        -5,
        &[9; 32],
        0x0102030405060708,
        0xffff_ffff_ffff_fffe,
    );
    assert_eq!(id, "9b9a77a473538c14bcf4a74ae4e9168c75beb91ebb5330c23bbc608a22914403");
}

#[test]
fn created_swap_gets_the_derived_identifier() {
    let mut env = Env::new();
    env.authorize(sender());
    let id = create(&mut env, [1; 32], 7200, 1_000_000).unwrap();
    assert_eq!(id, "1de1e09c2ac1f7bf4f02a542b8f06bc6c803699530160eb7d506f2460fc17866");
    assert_eq!(id.len(), 64);
    assert_eq!(get_swap_counter(&env), 1);
}

#[test]
fn same_instant_same_parameters_distinct_identifiers() {
    let mut env = initialized(30);
    env.authorize(sender());
    let mut ids: Vec<String> = Vec::new();
    for _ in 0..20 {
        let id = create(&mut env, [1; 32], 7200, 1_000_000).unwrap();
        assert!(!ids.contains(&id));
        ids.push(id);
    }
    assert_eq!(get_swap_counter(&env), 20);
    assert_eq!(StellarHTLC::get_user_swaps(&env, sender()), ids);
    assert_eq!(get_user_swap_ids(&env, &sender()), ids);
    assert!(StellarHTLC::get_user_swaps(&env, recipient()).is_empty());
}

#[test]
fn creation_fails_rather_than_overwrite() {
    let mut env = initialized(30);
    let taken = generate_swap_id(&env, &sender(), &recipient(), &token(), 500, &[7; 32], 7200, 1);
    let squatter = Swap {
        id: taken.clone(),
        sender: recipient(),
        recipient: sender(),
        token: token(),
        amount: 1,
        protocol_fee: 0,
        hashlock: [0; 32],
        timelock: 4000,
        status: SwapStatus::Pending,
        created_at: 0,
        claimed_at: None,
        refunded_at: None,
        preimage: None,
        eth_contract: Address::contract(ETH),
        eth_chain_id: 1,
        eth_tx_hash: None,
        resolver: None,
    };
    assert!(squatter.is_consistent());
    set_swap(&mut env, &taken, &squatter);
    env.authorize(sender());
    assert_eq!(create(&mut env, [7; 32], 7200, 500), Err(HTLCError::SwapAlreadyExists));
    // Nothing changed: the counter did not move and the record is the old one.
    assert_eq!(get_swap_counter(&env), 0);
    assert_eq!(StellarHTLC::get_swap_details(&env, &taken).unwrap(), squatter);
    assert!(StellarHTLC::get_user_swaps(&env, sender()).is_empty());
    assert!(env.events().len() == 1);
}

// ---------------------------------------------------------------- creation

#[test]
fn creation_checks_come_in_order() {
    let mut env = initialized(30);
    // Nobody authorized: that comes before the bad amount and timelock.
    assert_eq!(create(&mut env, [1; 32], 0, 0), Err(HTLCError::Unauthorized));
    env.authorize(sender());
    assert_eq!(create(&mut env, [1; 32], 0, 0), Err(HTLCError::InvalidAmount));
    assert_eq!(create(&mut env, [1; 32], 0, -1), Err(HTLCError::InvalidAmount));
    assert_eq!(create(&mut env, [1; 32], 0, 1), Err(HTLCError::InvalidTimelock));
    let unknown = Address::account([0x77; 32]);
    let result = StellarHTLC::create_swap(
        &mut env,
        sender(),
        recipient(),
        [1; 32],
        0,
        token(),
        1,
        Address::contract(ETH),
        1,
        Some(unknown),
        None,
    );
    assert_eq!(result, Err(HTLCError::InvalidTimelock));
    let result = StellarHTLC::create_swap(
        &mut env,
        sender(),
        recipient(),
        [1; 32],
        7200,
        token(),
        1,
        Address::contract(ETH),
        1,
        Some(unknown),
        None,
    );
    assert_eq!(result, Err(HTLCError::ResolverNotActive));
    assert_eq!(get_swap_counter(&env), 0);
    assert_eq!(env.events().len(), 1);
}

#[test]
fn timelock_window_is_open_below_and_closed_above() {
    let mut env = initialized(30);
    env.set_timestamp(1_000);
    env.authorize(sender());
    assert_eq!(create(&mut env, [1; 32], 999, 10), Err(HTLCError::InvalidTimelock));
    assert_eq!(create(&mut env, [1; 32], 1_000, 10), Err(HTLCError::InvalidTimelock));
    assert_eq!(create(&mut env, [1; 32], 1_000 + 3_599, 10), Err(HTLCError::InvalidTimelock));
    assert_eq!(create(&mut env, [1; 32], 1_000 + 3_600, 10), Err(HTLCError::InvalidTimelock));
    assert!(create(&mut env, [1; 32], 1_000 + 3_601, 10).is_ok());
    assert!(create(&mut env, [1; 32], 1_000 + 604_800, 10).is_ok());
    assert_eq!(create(&mut env, [1; 32], 1_000 + 604_801, 10), Err(HTLCError::InvalidTimelock));
    assert_eq!(create(&mut env, [1; 32], u64::MAX, 10), Err(HTLCError::InvalidTimelock));
    env.set_timestamp(u64::MAX);
    assert_eq!(create(&mut env, [1; 32], u64::MAX, 10), Err(HTLCError::InvalidTimelock));
    assert_eq!(create(&mut env, [1; 32], 5_000, 10), Err(HTLCError::InvalidTimelock));
}

#[test]
fn creation_records_the_request_and_announces_it() {
    let mut env = initialized(100);
    env.set_timestamp(50);
    env.authorize(sender());
    let id = StellarHTLC::create_swap(
        &mut env,
        sender(),
        recipient(),
        [5; 32],
        50 + 4000,
        token(),
        20_000,
        Address::contract(ETH),
        11155111,
        None,
        Some(String::from("0xabc")),
    )
    .unwrap();
    let swap = StellarHTLC::get_swap_details(&env, &id).unwrap();
    assert_eq!(swap.id, id);
    assert_eq!(swap.sender, sender());
    assert_eq!(swap.recipient, recipient());
    assert_eq!(swap.token, token());
    assert_eq!(swap.amount, 19_800);
    assert_eq!(swap.protocol_fee, 200);
    assert_eq!(swap.hashlock, [5; 32]);
    assert_eq!(swap.timelock, 4050);
    assert_eq!(swap.status, SwapStatus::Pending);
    assert_eq!(swap.created_at, 50);
    assert_eq!(swap.claimed_at, None);
    assert_eq!(swap.refunded_at, None);
    assert_eq!(swap.preimage, None);
    assert_eq!(swap.eth_contract, Address::contract(ETH));
    assert_eq!(swap.eth_chain_id, 11155111);
    assert_eq!(swap.eth_tx_hash, Some(String::from("0xabc")));
    assert_eq!(swap.resolver, None);
    assert!(swap.is_consistent());
    let events = env.events();
    assert_eq!(events.len(), 2);
    match &events[1] {
        Event::SwapInitialized(event) => {
            assert_eq!(event.swap_id, id);
            assert_eq!(event.sender, sender());
            assert_eq!(event.recipient, recipient());
            assert_eq!(event.token, token());
            assert_eq!(event.amount, 19_800);
            assert_eq!(event.hashlock, [5; 32]);
            assert_eq!(event.timelock, 4050);
            assert_eq!(event.resolver, None);
        }
        other => panic!("unexpected event {:?}", other),
    }
}

// ----------------------------------------------------------- claim, refund

#[test]
fn claim_succeeds_once_then_already_claimed() {
    let mut env = initialized(30);
    let id = created(&mut env, ZERO_DIGEST);
    let mut ledger = Ledger::open();
    env.authorize(recipient());
    env.set_timestamp(100);
    assert_eq!(StellarHTLC::claim_swap(&mut env, &mut ledger, &id, [0; 32]), Ok(()));
    assert_eq!(
        StellarHTLC::claim_swap(&mut env, &mut ledger, &id, [0; 32]),
        Err(HTLCError::AlreadyClaimed)
    );
    env.set_timestamp(10_000);
    env.authorize(sender());
    assert_eq!(
        StellarHTLC::refund_swap(&mut env, &mut ledger, &id),
        Err(HTLCError::AlreadyClaimed)
    );
    // One transfer was asked for, from the contract to the recipient.
    assert_eq!(
        ledger.orders(),
        &vec![TransferOrder {
            asset: token(),
            from: env.current_contract_address(),
            to: recipient(),
            amount: 997_000
        }]
    );
    let swap = StellarHTLC::get_swap_details(&env, &id).unwrap();
    assert_eq!(swap.status, SwapStatus::Claimed);
    assert_eq!(swap.claimed_at, Some(100));
    assert_eq!(swap.preimage, Some([0; 32]));
    assert_eq!(swap.refunded_at, None);
    // Anyone can check the record again.
    assert!(swap.is_consistent());
    assert!(preimage_opens(&swap.preimage.unwrap(), &swap.hashlock));
    assert_eq!(StellarHTLC::get_contract_stats(&env).unwrap().total_swaps_completed, 1);
}

#[test]
fn claim_announces_funds_and_status() {
    let mut env = initialized(30);
    let id = created(&mut env, ZERO_DIGEST);
    env.authorize(recipient());
    let before = env.events().len();
    StellarHTLC::claim_swap(&mut env, &mut Ledger::open(), &id, [0; 32]).unwrap();
    let events = env.events();
    assert_eq!(events.len(), before + 2);
    match &events[before] {
        Event::FundsClaimed(event) => {
            assert_eq!(event.swap_id, id);
            assert_eq!(event.recipient, recipient());
            assert_eq!(event.amount, 997_000);
            assert_eq!(event.preimage, [0; 32]);
        }
        other => panic!("unexpected event {:?}", other),
    }
    match &events[before + 1] {
        Event::SwapStatusUpdated(event) => {
            assert_eq!(event.swap_id, id);
            assert_eq!(event.old_status, SwapStatus::Pending);
            assert_eq!(event.new_status, SwapStatus::Claimed);
        }
        other => panic!("unexpected event {:?}", other),
    }
    let taken = env.take_events();
    assert_eq!(taken.len(), before + 2);
    assert!(env.events().is_empty());
}

#[test]
fn claim_at_or_after_timelock_fails_even_with_the_preimage() {
    let mut env = initialized(30);
    let id = created(&mut env, ZERO_DIGEST);
    env.authorize(recipient());
    let mut ledger = Ledger::open();
    env.set_timestamp(7200);
    assert_eq!(
        StellarHTLC::claim_swap(&mut env, &mut ledger, &id, [0; 32]),
        Err(HTLCError::TimelockExpired)
    );
    env.set_timestamp(7201);
    assert_eq!(
        StellarHTLC::claim_swap(&mut env, &mut ledger, &id, [0; 32]),
        Err(HTLCError::TimelockExpired)
    );
    assert!(ledger.orders().is_empty());
    env.set_timestamp(7199);
    assert_eq!(StellarHTLC::claim_swap(&mut env, &mut ledger, &id, [0; 32]), Ok(()));
}

#[test]
fn claim_checks_come_in_order() {
    let mut env = initialized(30);
    let id = created(&mut env, ZERO_DIGEST);
    let mut ledger = Ledger::open();
    let missing = String::from("no such swap");
    assert_eq!(
        StellarHTLC::claim_swap(&mut env, &mut ledger, &missing, [0; 32]),
        Err(HTLCError::SwapNotFound)
    );
    // A wrong preimage is refused whoever brings it, authorized or not.
    assert_eq!(
        StellarHTLC::claim_swap(&mut env, &mut ledger, &id, [9; 32]),
        Err(HTLCError::InvalidPreimage)
    );
    env.authorize(recipient());
    assert_eq!(
        StellarHTLC::claim_swap(&mut env, &mut ledger, &id, [9; 32]),
        Err(HTLCError::InvalidPreimage)
    );
    env.clear_auths();
    // The right preimage from somebody else is not enough.
    env.authorize(sender());
    assert_eq!(
        StellarHTLC::claim_swap(&mut env, &mut ledger, &id, [0; 32]),
        Err(HTLCError::Unauthorized)
    );
    // After the timelock the deadline comes before the preimage.
    env.set_timestamp(8000);
    assert_eq!(
        StellarHTLC::claim_swap(&mut env, &mut ledger, &id, [9; 32]),
        Err(HTLCError::TimelockExpired)
    );
    assert!(ledger.orders().is_empty());
    assert_eq!(
        StellarHTLC::get_swap_details(&env, &id).unwrap().status,
        SwapStatus::Pending
    );
}

#[test]
fn refund_before_timelock_fails_and_after_it_succeeds() {
    let mut env = initialized(30);
    let id = created(&mut env, [1; 32]);
    let mut ledger = Ledger::open();
    env.authorize(sender());
    env.set_timestamp(7199);
    assert_eq!(
        StellarHTLC::refund_swap(&mut env, &mut ledger, &id),
        Err(HTLCError::TimelockNotExpired)
    );
    env.set_timestamp(7200);
    assert_eq!(StellarHTLC::refund_swap(&mut env, &mut ledger, &id), Ok(()));
    assert_eq!(
        StellarHTLC::refund_swap(&mut env, &mut ledger, &id),
        Err(HTLCError::AlreadyRefunded)
    );
    env.authorize(recipient());
    assert_eq!(
        StellarHTLC::claim_swap(&mut env, &mut ledger, &id, [0; 32]),
        Err(HTLCError::AlreadyRefunded)
    );
    assert_eq!(
        ledger.orders(),
        &vec![TransferOrder {
            asset: token(),
            from: env.current_contract_address(),
            to: sender(),
            amount: 997_000
        }]
    );
    let swap = StellarHTLC::get_swap_details(&env, &id).unwrap();
    assert_eq!(swap.status, SwapStatus::Refunded);
    assert_eq!(swap.refunded_at, Some(7200));
    assert_eq!(swap.claimed_at, None);
    assert_eq!(swap.preimage, None);
    assert!(swap.is_consistent());
    assert_eq!(get_total_swaps_refunded(&env), 1);
    let stats = StellarHTLC::get_contract_stats(&env).unwrap();
    assert_eq!(stats.total_swaps_refunded, 1);
    assert_eq!(stats.total_swaps_completed, 0);
}

#[test]
fn refund_checks_come_in_order_and_announce() {
    let mut env = initialized(30);
    let id = created(&mut env, [1; 32]);
    let mut ledger = Ledger::open();
    assert_eq!(
        StellarHTLC::refund_swap(&mut env, &mut ledger, &String::from("nothing")),
        Err(HTLCError::SwapNotFound)
    );
    assert_eq!(
        StellarHTLC::refund_swap(&mut env, &mut ledger, &id),
        Err(HTLCError::TimelockNotExpired)
    );
    env.set_timestamp(9000);
    assert_eq!(
        StellarHTLC::refund_swap(&mut env, &mut ledger, &id),
        Err(HTLCError::Unauthorized)
    );
    env.authorize(recipient());
    assert_eq!(
        StellarHTLC::refund_swap(&mut env, &mut ledger, &id),
        Err(HTLCError::Unauthorized)
    );
    env.authorize(sender());
    let before = env.events().len();
    assert_eq!(StellarHTLC::refund_swap(&mut env, &mut ledger, &id), Ok(()));
    let events = env.events();
    assert_eq!(events.len(), before + 2);
    match &events[before] {
        Event::FundsRefunded(event) => {
            assert_eq!(event.swap_id, id);
            assert_eq!(event.sender, sender());
            assert_eq!(event.amount, 997_000);
        }
        other => panic!("unexpected event {:?}", other),
    }
    match &events[before + 1] {
        Event::SwapStatusUpdated(event) => {
            assert_eq!(event.old_status, SwapStatus::Pending);
            assert_eq!(event.new_status, SwapStatus::Refunded);
        }
        other => panic!("unexpected event {:?}", other),
    }
}

#[test]
fn failed_transfer_leaves_the_swap_untouched() {
    let mut env = initialized(30);
    let id = created(&mut env, ZERO_DIGEST);
    env.authorize(recipient());
    env.authorize(sender());
    let events = env.events().len();
    let mut poor = Ledger::refusing(TransferError::InsufficientBalance);
    assert_eq!(
        StellarHTLC::claim_swap(&mut env, &mut poor, &id, [0; 32]),
        Err(HTLCError::InsufficientBalance)
    );
    // The transfer was asked for once, as it should be, and refused.
    assert_eq!(
        poor.orders(),
        &vec![TransferOrder {
            asset: token(),
            from: env.current_contract_address(),
            to: recipient(),
            amount: 997_000
        }]
    );
    assert_eq!(
        StellarHTLC::claim_swap(
            &mut env,
            &mut Ledger::refusing(TransferError::Failed),
            &id,
            [0; 32]
        ),
        Err(HTLCError::TokenTransferFailed)
    );
    let swap = StellarHTLC::get_swap_details(&env, &id).unwrap();
    assert_eq!(swap.status, SwapStatus::Pending);
    assert_eq!(swap.preimage, None);
    assert_eq!(swap.claimed_at, None);
    assert_eq!(env.events().len(), events);
    assert_eq!(StellarHTLC::get_contract_stats(&env).unwrap().total_swaps_completed, 0);
    env.set_timestamp(7200);
    assert_eq!(
        StellarHTLC::refund_swap(&mut env, &mut Ledger::refusing(TransferError::Failed), &id),
        Err(HTLCError::TokenTransferFailed)
    );
    assert_eq!(
        StellarHTLC::refund_swap(
            &mut env,
            &mut Ledger::refusing(TransferError::InsufficientBalance),
            &id
        ),
        Err(HTLCError::InsufficientBalance)
    );
    assert_eq!(
        StellarHTLC::get_swap_details(&env, &id).unwrap().status,
        SwapStatus::Pending
    );
    assert_eq!(get_total_swaps_refunded(&env), 0);
    // The swap is still live: the refund goes through once the ledger does.
    assert_eq!(StellarHTLC::refund_swap(&mut env, &mut Ledger::open(), &id), Ok(()));
}

#[test]
fn settle_takes_the_outcome_of_the_transfer() {
    let mut env = initialized(30);
    let id = created(&mut env, ZERO_DIGEST);
    env.authorize(recipient());
    assert_eq!(
        StellarHTLC::settle_claim(&mut env, &id, [0; 32], Err(TransferError::Failed)),
        Err(HTLCError::TokenTransferFailed)
    );
    assert_eq!(
        StellarHTLC::get_swap_details(&env, &id).unwrap().status,
        SwapStatus::Pending
    );
    assert_eq!(StellarHTLC::settle_claim(&mut env, &id, [0; 32], Ok(())), Ok(()));
    assert_eq!(
        StellarHTLC::get_swap_details(&env, &id).unwrap().status,
        SwapStatus::Claimed
    );
    let other = created(&mut env, [1; 32]);
    env.authorize(sender());
    env.set_timestamp(20_000);
    assert_eq!(
        StellarHTLC::settle_refund(&mut env, &other, Err(TransferError::InsufficientBalance)),
        Err(HTLCError::InsufficientBalance)
    );
    assert_eq!(StellarHTLC::settle_refund(&mut env, &other, Ok(())), Ok(()));
    assert_eq!(
        StellarHTLC::get_swap_details(&env, &other).unwrap().status,
        SwapStatus::Refunded
    );
}

// ---------------------------------------------------------------- failing

#[test]
fn failed_swap_is_final() {
    let mut env = initialized(30);
    let id = created(&mut env, ZERO_DIGEST);
    let mut ledger = Ledger::open();
    env.authorize(admin());
    StellarHTLC::mark_swap_failed(&mut env, &id, "stuck").unwrap();
    env.authorize(recipient());
    env.authorize(sender());
    assert_eq!(
        StellarHTLC::claim_swap(&mut env, &mut ledger, &id, [0; 32]),
        Err(HTLCError::NotInitiated)
    );
    env.set_timestamp(10_000);
    assert_eq!(
        StellarHTLC::refund_swap(&mut env, &mut ledger, &id),
        Err(HTLCError::NotInitiated)
    );
    assert!(ledger.orders().is_empty());
    let swap = StellarHTLC::get_swap_details(&env, &id).unwrap();
    assert_eq!(swap.status, SwapStatus::Failed);
    assert!(swap.is_consistent());
    let stats = StellarHTLC::get_contract_stats(&env).unwrap();
    assert_eq!(stats.total_swaps_completed, 0);
    assert_eq!(stats.total_swaps_refunded, 0);
}

#[test]
fn marking_checks_come_in_order() {
    let mut env = Env::new();
    env.authorize(sender());
    let id = create(&mut env, [1; 32], 7200, 100).unwrap();
    assert_eq!(
        StellarHTLC::mark_swap_failed(&mut env, &String::from("none"), "x"),
        Err(HTLCError::SwapNotFound)
    );
    // No administrator yet.
    assert_eq!(
        StellarHTLC::mark_swap_failed(&mut env, &id, "x"),
        Err(HTLCError::NotInitialized)
    );
    env.authorize(admin());
    StellarHTLC::initialize(&mut env, admin(), Address::account(FEES), 30).unwrap();
    env.clear_auths();
    assert_eq!(
        StellarHTLC::mark_swap_failed(&mut env, &id, "x"),
        Err(HTLCError::Unauthorized)
    );
    env.authorize(sender());
    env.set_timestamp(7200);
    StellarHTLC::refund_swap(&mut env, &mut Ledger::open(), &id).unwrap();
    assert_eq!(
        StellarHTLC::mark_swap_failed(&mut env, &id, "x"),
        Err(HTLCError::AlreadyRefunded)
    );
    env.authorize(admin());
    assert_eq!(
        StellarHTLC::mark_swap_failed(&mut env, &id, "x"),
        Err(HTLCError::AlreadyRefunded)
    );
}

#[test]
fn marking_announces_the_change() {
    let mut env = initialized(30);
    let id = created(&mut env, [1; 32]);
    env.authorize(admin());
    let before = env.events().len();
    StellarHTLC::mark_swap_failed(&mut env, &id, "stuck").unwrap();
    assert_eq!(env.events().len(), before + 1);
    match &env.events()[before] {
        Event::SwapStatusUpdated(event) => {
            assert_eq!(event.swap_id, id);
            assert_eq!(event.old_status, SwapStatus::Pending);
            assert_eq!(event.new_status, SwapStatus::Failed);
        }
        other => panic!("unexpected event {:?}", other),
    }
}

// ----------------------------------------------------- configuration

#[test]
fn initialize_checks_come_in_order() {
    let mut env = Env::new();
    assert_eq!(
        StellarHTLC::initialize(&mut env, admin(), Address::account(FEES), 600),
        Err(HTLCError::Unauthorized)
    );
    env.authorize(admin());
    assert_eq!(
        StellarHTLC::initialize(&mut env, admin(), Address::account(FEES), 501),
        Err(HTLCError::InvalidFee)
    );
    assert_eq!(StellarHTLC::get_contract_stats(&env), Err(HTLCError::NotInitialized));
    assert!(env.events().is_empty());
    assert_eq!(StellarHTLC::initialize(&mut env, admin(), Address::account(FEES), 500), Ok(()));
    assert_eq!(
        StellarHTLC::initialize(&mut env, admin(), Address::account(FEES), 30),
        Err(HTLCError::AlreadyInitialized)
    );
    assert_eq!(
        StellarHTLC::initialize(&mut env, sender(), sender(), 9999),
        Err(HTLCError::AlreadyInitialized)
    );
    let stats = StellarHTLC::get_contract_stats(&env).unwrap();
    assert_eq!(stats.protocol_fee_bps, 500);
    assert_eq!(stats.admin, admin());
    match &env.events()[0] {
        Event::ContractInitialized(event) => {
            assert_eq!(event.admin, admin());
            assert_eq!(event.fee_recipient, Address::account(FEES));
            assert_eq!(event.protocol_fee_bps, 500);
        }
        other => panic!("unexpected event {:?}", other),
    }
    assert!(has(&env, &StorageKey::Admin));
    assert!(has(&env, &StorageKey::FeeRecipient));
    assert!(has(&env, &StorageKey::ProtocolFeeBps));
    assert!(has(&env, &StorageKey::TotalSwapsCreated));
    assert!(has(&env, &StorageKey::TotalSwapsCompleted));
    assert!(has(&env, &StorageKey::TotalSwapsRefunded));
    assert!(has(&env, &StorageKey::TotalFeesCollected));
}

#[test]
fn fee_of_six_hundred_is_refused_and_five_hundred_accepted() {
    let mut env = initialized(30);
    env.authorize(admin());
    assert_eq!(StellarHTLC::update_protocol_fee(&mut env, 600), Err(HTLCError::InvalidFee));
    assert_eq!(StellarHTLC::get_contract_stats(&env).unwrap().protocol_fee_bps, 30);
    assert_eq!(StellarHTLC::update_protocol_fee(&mut env, 500), Ok(()));
    assert_eq!(StellarHTLC::get_contract_stats(&env).unwrap().protocol_fee_bps, 500);
    match env.events().last().unwrap() {
        Event::ProtocolFeeUpdated(event) => {
            assert_eq!(event.old_fee_bps, 30);
            assert_eq!(event.new_fee_bps, 500);
        }
        other => panic!("unexpected event {:?}", other),
    }
    assert_eq!(StellarHTLC::update_protocol_fee(&mut env, 0), Ok(()));
    env.authorize(sender());
    let id = create(&mut env, [1; 32], 7200, 1_000_000).unwrap();
    let swap = StellarHTLC::get_swap_details(&env, &id).unwrap();
    assert_eq!((swap.amount, swap.protocol_fee), (1_000_000, 0));
    assert_eq!(get_total_fees_collected(&env), 0);
}

#[test]
fn only_the_administrator_changes_the_configuration() {
    let mut env = Env::new();
    env.mock_all_auths();
    assert_eq!(StellarHTLC::update_protocol_fee(&mut env, 10), Err(HTLCError::NotInitialized));
    assert_eq!(
        StellarHTLC::update_fee_recipient(&mut env, sender()),
        Err(HTLCError::NotInitialized)
    );
    assert_eq!(
        StellarHTLC::register_resolver(&mut env, sender(), token(), 1),
        Err(HTLCError::NotInitialized)
    );
    assert_eq!(
        StellarHTLC::deactivate_resolver(&mut env, sender()),
        Err(HTLCError::NotInitialized)
    );
    let mut env = initialized(30);
    env.authorize(sender());
    assert!(authorized_as(&env, &sender()));
    assert!(!authorized_as(&env, &admin()));
    assert_eq!(StellarHTLC::update_protocol_fee(&mut env, 600), Err(HTLCError::Unauthorized));
    assert_eq!(
        StellarHTLC::update_fee_recipient(&mut env, sender()),
        Err(HTLCError::Unauthorized)
    );
    assert_eq!(
        StellarHTLC::register_resolver(&mut env, sender(), token(), 0),
        Err(HTLCError::Unauthorized)
    );
    assert_eq!(
        StellarHTLC::deactivate_resolver(&mut env, sender()),
        Err(HTLCError::Unauthorized)
    );
    env.authorize(admin());
    assert_eq!(StellarHTLC::update_fee_recipient(&mut env, sender()), Ok(()));
    assert_eq!(StellarHTLC::get_contract_stats(&env).unwrap().fee_recipient, sender());
    match env.events().last().unwrap() {
        Event::FeeRecipientUpdated(event) => {
            assert_eq!(event.old_recipient, Address::account(FEES));
            assert_eq!(event.new_recipient, sender());
        }
        other => panic!("unexpected event {:?}", other),
    }
}

// --------------------------------------------------------------- resolvers

#[test]
fn resolver_needs_collateral_and_must_be_active_to_be_named() {
    let mut env = initialized(30);
    let resolver = Address::account([0x55; 32]);
    env.authorize(admin());
    assert_eq!(
        StellarHTLC::register_resolver(&mut env, resolver, token(), 0),
        Err(HTLCError::InsufficientCollateral)
    );
    assert_eq!(
        StellarHTLC::register_resolver(&mut env, resolver, token(), -7),
        Err(HTLCError::InsufficientCollateral)
    );
    assert_eq!(StellarHTLC::get_resolver_info(&env, resolver), None);
    env.authorize(sender());
    let named = |env: &mut Env| {
        StellarHTLC::create_swap(
            env,
            sender(),
            recipient(),
            ZERO_DIGEST,
            7200,
            token(),
            1_000,
            Address::contract(ETH),
            1,
            Some(resolver),
            None,
        )
    };
    assert_eq!(named(&mut env), Err(HTLCError::ResolverNotActive));
    assert_eq!(
        StellarHTLC::deactivate_resolver(&mut env, resolver),
        Err(HTLCError::ResolverNotFound)
    );
    env.set_timestamp(10);
    assert_eq!(StellarHTLC::register_resolver(&mut env, resolver, token(), 1), Ok(()));
    match env.events().last().unwrap() {
        Event::ResolverRegistered(event) => {
            assert_eq!(event.resolver, resolver);
            assert_eq!(event.collateral, 1);
        }
        other => panic!("unexpected event {:?}", other),
    }
    env.set_timestamp(0);
    let id = named(&mut env).unwrap();
    let info = StellarHTLC::get_resolver_info(&env, resolver).unwrap();
    assert_eq!(info.created_at, 10);
    assert_eq!((info.total_swaps, info.total_resolved), (1, 0));
    assert_eq!(StellarHTLC::get_swap_details(&env, &id).unwrap().resolver, Some(resolver));
    env.authorize(recipient());
    StellarHTLC::claim_swap(&mut env, &mut Ledger::open(), &id, [0; 32]).unwrap();
    let info = get_resolver(&env, &resolver).unwrap();
    assert_eq!((info.total_swaps, info.total_resolved), (1, 1));
    assert_eq!(StellarHTLC::deactivate_resolver(&mut env, resolver), Ok(()));
    match env.events().last().unwrap() {
        Event::ResolverDeactivated(event) => assert_eq!(event.resolver, resolver),
        other => panic!("unexpected event {:?}", other),
    }
    let info = StellarHTLC::get_resolver_info(&env, resolver).unwrap();
    assert!(!info.is_active);
    assert_eq!((info.total_swaps, info.total_resolved, info.min_collateral), (1, 1, 1));
    assert_eq!(named(&mut env), Err(HTLCError::ResolverNotActive));
    // Registering anew starts the record over.
    assert_eq!(StellarHTLC::register_resolver(&mut env, resolver, token(), 9), Ok(()));
    let info = StellarHTLC::get_resolver_info(&env, resolver).unwrap();
    assert!(info.is_active);
    assert_eq!((info.total_swaps, info.total_resolved, info.min_collateral), (0, 0, 9));
    assert!(named(&mut env).is_ok());
}

// -------------------------------------------------------------- histories

#[test]
fn at_most_one_payout_whatever_is_tried() {
    let mut env = initialized(30);
    let claimed = created(&mut env, ZERO_DIGEST);
    let refunded = created(&mut env, ZERO_DIGEST);
    let mut ledger = Ledger::open();
    env.mock_all_auths();
    let mut payouts = 0;
    for now in [0u64, 100, 7199, 7200, 7201, 50, 100_000, 0] {
        env.set_timestamp(now);
        for id in [&claimed, &refunded] {
            if id == &refunded && now < 7200 {
                // Leave this one for the sender.
            } else if StellarHTLC::claim_swap(&mut env, &mut ledger, id, [0; 32]).is_ok() {
                payouts += 1;
            }
            if StellarHTLC::refund_swap(&mut env, &mut ledger, id).is_ok() {
                payouts += 1;
            }
            if now >= 7200 {
                assert!(StellarHTLC::mark_swap_failed(&mut env, id, "late").is_err());
            }
        }
    }
    assert_eq!(payouts, 2);
    assert_eq!(ledger.orders().len(), 2);
    assert_eq!(ledger.orders()[0].to, recipient());
    assert_eq!(ledger.orders()[1].to, sender());
    assert_eq!(
        StellarHTLC::get_swap_details(&env, &claimed).unwrap().status,
        SwapStatus::Claimed
    );
    assert_eq!(
        StellarHTLC::get_swap_details(&env, &refunded).unwrap().status,
        SwapStatus::Refunded
    );
}

#[test]
fn inconsistent_records_are_told_apart() {
    let good = Swap {
        id: String::from("s"),
        sender: sender(),
        recipient: recipient(),
        token: token(),
        amount: 5,
        protocol_fee: 0,
        hashlock: ZERO_DIGEST,
        timelock: 10_000,
        status: SwapStatus::Claimed,
        created_at: 100,
        claimed_at: Some(200),
        refunded_at: None,
        preimage: Some([0; 32]),
        eth_contract: Address::contract(ETH),
        eth_chain_id: 1,
        eth_tx_hash: None,
        resolver: None,
    };
    assert!(good.is_consistent());
    assert!(!Swap { preimage: Some([1; 32]), ..good.clone() }.is_consistent());
    assert!(!Swap { preimage: None, ..good.clone() }.is_consistent());
    assert!(!Swap { claimed_at: None, ..good.clone() }.is_consistent());
    assert!(!Swap { claimed_at: Some(10_000), ..good.clone() }.is_consistent());
    assert!(!Swap { refunded_at: Some(10_000), ..good.clone() }.is_consistent());
    assert!(!Swap { status: SwapStatus::Pending, ..good.clone() }.is_consistent());
    assert!(!Swap { amount: 0, ..good.clone() }.is_consistent());
    assert!(!Swap { protocol_fee: -1, ..good.clone() }.is_consistent());
    assert!(!Swap { timelock: 3_700, ..good.clone() }.is_consistent());
    assert!(!Swap { timelock: 100 + 604_801, ..good.clone() }.is_consistent());
    let refunded = Swap {
        status: SwapStatus::Refunded,
        claimed_at: None,
        preimage: None,
        refunded_at: Some(10_000),
        ..good.clone()
    };
    assert!(refunded.is_consistent());
    assert!(!Swap { refunded_at: Some(9_999), ..refunded.clone() }.is_consistent());
    assert!(!Swap { refunded_at: None, ..refunded.clone() }.is_consistent());
}

#[test]
fn clock_and_addresses() {
    let mut env = Env::new();
    assert_eq!(env.timestamp(), 0);
    assert_eq!(env.sequence(), 0);
    assert_eq!(env.current_contract_address(), Address::contract([0; 32]));
    env.set_timestamp(77);
    env.set_sequence(5);
    env.set_contract_address(Address::contract([9; 32]));
    assert_eq!(StellarHTLC::get_current_time(&env), 77);
    assert_eq!(env.sequence(), 5);
    assert_eq!(env.current_contract_address(), Address::contract([9; 32]));
    assert_ne!(Address::account([9; 32]), Address::contract([9; 32]));
    assert_eq!(Address::account([9; 32]), Address::account([9; 32]));
    let mut other = [9u8; 32];
    other[31] = 8;
    assert_ne!(Address::account([9; 32]), Address::account(other));
    let mut out = vec![0xffu8];
    Address::contract([4; 32]).encode_into(&mut out);
    assert_eq!(out.len(), 34);
    assert_eq!(&out[..2], &[0xff, 1]);
    assert_eq!(&out[2..], &[4u8; 32]);
}

// ------------------------------------------------------ counters at the limit

#[test]
fn refusals_do_not_depend_on_the_counters() {
    let mut env = initialized(30);
    let claimed = created(&mut env, ZERO_DIGEST);
    let refunded = created(&mut env, ZERO_DIGEST);
    let live = created(&mut env, ZERO_DIGEST);
    let mut ledger = Ledger::open();
    env.mock_all_auths();
    StellarHTLC::claim_swap(&mut env, &mut ledger, &claimed, [0; 32]).unwrap();
    env.set_timestamp(7200);
    StellarHTLC::refund_swap(&mut env, &mut ledger, &refunded).unwrap();
    set_total_swaps_completed(&mut env, u64::MAX);
    set_total_swaps_refunded(&mut env, u64::MAX);
    set_total_swaps_created(&mut env, u64::MAX);
    set_swap_counter(&mut env, u64::MAX);
    assert_eq!(
        StellarHTLC::claim_swap(&mut env, &mut ledger, &claimed, [0; 32]),
        Err(HTLCError::AlreadyClaimed)
    );
    assert_eq!(
        StellarHTLC::claim_swap(&mut env, &mut ledger, &refunded, [0; 32]),
        Err(HTLCError::AlreadyRefunded)
    );
    assert_eq!(
        StellarHTLC::claim_swap(&mut env, &mut ledger, &live, [0; 32]),
        Err(HTLCError::TimelockExpired)
    );
    assert_eq!(
        StellarHTLC::refund_swap(&mut env, &mut ledger, &claimed),
        Err(HTLCError::AlreadyClaimed)
    );
    assert_eq!(
        StellarHTLC::refund_swap(&mut env, &mut ledger, &refunded),
        Err(HTLCError::AlreadyRefunded)
    );
    env.set_timestamp(100);
    assert_eq!(
        StellarHTLC::claim_swap(&mut env, &mut ledger, &live, [7; 32]),
        Err(HTLCError::InvalidPreimage)
    );
    assert_eq!(
        StellarHTLC::refund_swap(&mut env, &mut ledger, &live),
        Err(HTLCError::TimelockNotExpired)
    );
    assert_eq!(create(&mut env, [1; 32], 100, 1), Err(HTLCError::InvalidTimelock));
    assert_eq!(create(&mut env, [1; 32], 7300, 0), Err(HTLCError::InvalidAmount));
    assert_eq!(ledger.orders().len(), 2);
}

#[test]
fn a_counter_at_its_limit_stops_the_call_before_anything_happens() {
    let mut env = initialized(30);
    let id = created(&mut env, ZERO_DIGEST);
    let mut ledger = Ledger::open();
    env.mock_all_auths();

    set_total_swaps_completed(&mut env, u64::MAX);
    assert_eq!(StellarHTLC::try_claim_swap(&mut env, &mut ledger, &id, [0; 32]), None);
    assert_eq!(
        StellarHTLC::try_claim_swap(&mut env, &mut ledger, &id, [5; 32]),
        Some(Err(HTLCError::InvalidPreimage))
    );
    assert!(ledger.orders().is_empty());
    assert_eq!(
        StellarHTLC::get_swap_details(&env, &id).unwrap().status,
        SwapStatus::Pending
    );
    set_total_swaps_completed(&mut env, u64::MAX - 1);
    assert_eq!(StellarHTLC::try_claim_swap(&mut env, &mut ledger, &id, [0; 32]), Some(Ok(())));
    assert_eq!(StellarHTLC::get_contract_stats(&env).unwrap().total_swaps_completed, u64::MAX);
    assert_eq!(ledger.orders().len(), 1);

    let other = created(&mut env, ZERO_DIGEST);
    env.mock_all_auths();
    env.set_timestamp(7200);
    set_total_swaps_refunded(&mut env, u64::MAX);
    assert_eq!(StellarHTLC::try_refund_swap(&mut env, &mut ledger, &other), None);
    assert_eq!(
        StellarHTLC::try_refund_swap(&mut env, &mut ledger, &id),
        Some(Err(HTLCError::AlreadyClaimed))
    );
    assert_eq!(ledger.orders().len(), 1);
    set_total_swaps_refunded(&mut env, 41);
    assert_eq!(StellarHTLC::try_refund_swap(&mut env, &mut ledger, &other), Some(Ok(())));
    assert_eq!(get_total_swaps_refunded(&env), 42);
    assert_eq!(ledger.orders().len(), 2);
    assert_eq!(ledger.orders()[1].to, sender());
}

fn try_create(
    env: &mut Env,
    amount: i128,
    resolver: Option<Address>,
) -> Option<Result<String, HTLCError>> {
    StellarHTLC::try_create_swap(
        env,
        sender(),
        recipient(),
        [1; 32],
        env.timestamp() + 7200,
        token(),
        amount,
        Address::contract(ETH),
        1,
        resolver,
        None,
    )
}

#[test]
fn creation_stops_at_each_of_its_limits() {
    let mut env = initialized(500);
    env.mock_all_auths();
    let resolver = Address::account([0x55; 32]);
    StellarHTLC::register_resolver(&mut env, resolver, token(), 1).unwrap();
    let events = env.events().len();

    set_swap_counter(&mut env, u64::MAX);
    assert_eq!(try_create(&mut env, 1_000, None), None);
    assert_eq!(try_create(&mut env, 0, None), Some(Err(HTLCError::InvalidAmount)));
    set_swap_counter(&mut env, 7);

    set_total_swaps_created(&mut env, u64::MAX);
    assert_eq!(try_create(&mut env, 1_000, None), None);
    set_total_swaps_created(&mut env, 0);

    set_total_fees_collected(&mut env, i128::MAX - 49);
    assert_eq!(try_create(&mut env, 1_000, None), None);
    // A creation that takes no fee does not touch the total.
    let free = try_create(&mut env, 19, None);
    assert!(matches!(free, Some(Ok(_))));
    set_total_fees_collected(&mut env, i128::MAX - 50);
    assert!(matches!(try_create(&mut env, 1_000, None), Some(Ok(_))));
    assert_eq!(get_total_fees_collected(&env), i128::MAX);
    set_total_fees_collected(&mut env, 0);

    let mut info = get_resolver(&env, &resolver).unwrap();
    info.total_swaps = u64::MAX;
    set_resolver(&mut env, &resolver, &info);
    assert_eq!(try_create(&mut env, 1_000, Some(resolver)), None);
    assert!(matches!(try_create(&mut env, 1_000, None), Some(Ok(_))));
    info.total_swaps = 3;
    set_resolver(&mut env, &resolver, &info);
    let named = try_create(&mut env, 1_000, Some(resolver)).unwrap().unwrap();
    assert_eq!(named.len(), 64);
    assert_eq!(get_resolver(&env, &resolver).unwrap().total_swaps, 4);
    assert_eq!(get_swap_counter(&env), 11);
    assert_eq!(env.events().len(), events + 4);
    assert_eq!(StellarHTLC::get_user_swaps(&env, sender()).len(), 4);
}
