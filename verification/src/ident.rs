//! Swap identifiers.
//!
//! An identifier is derived from the parameters of the swap together with a
//! counter that grows with every creation, the ledger time and the ledger
//! sequence number: all of it is laid out as one byte string, hashed, and the
//! digest written in lower-case hexadecimal.

use vstd::prelude::*;
use vstd::string::*;
use crate::address::Address;
use crate::hash::{host_sha256, sha256_digest};
use crate::storage::Env;

verus! {

/// The big-endian form of `value` in `width` bytes: the low `width` bytes of
/// the number, most significant first.
pub open spec fn be_bytes(value: nat, width: nat) -> Seq<u8>
    decreases width,
{
    if width == 0 {
        Seq::empty()
    } else {
        be_bytes(value / 256, (width - 1) as nat).push((value % 256) as u8)
    }
}

/// The number of values that fit in `width` bytes.
pub open spec fn capacity(width: nat) -> nat
    decreases width,
{
    if width == 0 {
        1
    } else {
        256 * capacity((width - 1) as nat)
    }
}

/// The big-endian form has exactly `width` bytes.
pub proof fn lemma_be_len(value: nat, width: nat)
    ensures
        be_bytes(value, width).len() == width,
    decreases width,
{
    if width > 0 {
        lemma_be_len(value / 256, (width - 1) as nat);
    }
}

/// Two numbers that fit in `width` bytes and have the same big-endian form
/// are the same number.
pub proof fn lemma_be_injective(a: nat, b: nat, width: nat)
    requires
        a < capacity(width),
        b < capacity(width),
        be_bytes(a, width) == be_bytes(b, width),
    ensures
        a == b,
    decreases width,
{
    if width > 0 {
        let w = (width - 1) as nat;
        lemma_be_len(a / 256, w);
        lemma_be_len(b / 256, w);
        let sa = be_bytes(a / 256, w).push((a % 256) as u8);
        let sb = be_bytes(b / 256, w).push((b % 256) as u8);
        assert(sa[w as int] == sb[w as int]);
        assert(sa.drop_last() =~= be_bytes(a / 256, w));
        assert(sb.drop_last() =~= be_bytes(b / 256, w));
        lemma_be_injective(a / 256, b / 256, w);
    }
}

/// The values of the integer types fit in their widths.
pub proof fn lemma_capacities()
    ensures
        capacity(4) == 0x1_0000_0000,
        capacity(8) == 0x1_0000_0000_0000_0000,
        capacity(16) == 0x1_0000_0000_0000_0000_0000_0000_0000_0000,
{
    reveal_with_fuel(capacity, 17);
}

/// Appends the big-endian form of `value` in `width` bytes to `out`.
fn push_be(out: &mut Vec<u8>, value: u128, width: usize)
    ensures
        final(out)@ == old(out)@ + be_bytes(value as nat, width as nat),
    decreases width,
{
    if width > 0 {
        push_be(out, value / 256, width - 1);
        out.push((value % 256) as u8);
        proof {
            assert(out@ =~= old(out)@ + be_bytes(value as nat, width as nat));
        }
    } else {
        proof {
            assert(out@ =~= old(out)@ + be_bytes(value as nat, width as nat));
        }
    }
}

/// The character of one hexadecimal digit.
pub open spec fn hex_digit(digit: u8) -> char {
    if digit == 0 {
        '0'
    } else if digit == 1 {
        '1'
    } else if digit == 2 {
        '2'
    } else if digit == 3 {
        '3'
    } else if digit == 4 {
        '4'
    } else if digit == 5 {
        '5'
    } else if digit == 6 {
        '6'
    } else if digit == 7 {
        '7'
    } else if digit == 8 {
        '8'
    } else if digit == 9 {
        '9'
    } else if digit == 10 {
        'a'
    } else if digit == 11 {
        'b'
    } else if digit == 12 {
        'c'
    } else if digit == 13 {
        'd'
    } else if digit == 14 {
        'e'
    } else {
        'f'
    }
}

/// The lower-case hexadecimal text of `bytes`: two digits per byte, the high
/// one first.
pub open spec fn hex(bytes: Seq<u8>) -> Seq<char>
    decreases bytes.len(),
{
    if bytes.len() == 0 {
        Seq::empty()
    } else {
        hex(bytes.drop_last()).push(hex_digit(bytes.last() / 16)).push(
            hex_digit(bytes.last() % 16),
        )
    }
}

/// The text has two characters per byte.
pub proof fn lemma_hex_len(bytes: Seq<u8>)
    ensures
        hex(bytes).len() == 2 * bytes.len(),
    decreases bytes.len(),
{
    if bytes.len() > 0 {
        lemma_hex_len(bytes.drop_last());
    }
}

/// Different byte strings have different texts.
pub proof fn lemma_hex_injective(a: Seq<u8>, b: Seq<u8>)
    requires
        hex(a) == hex(b),
    ensures
        a == b,
    decreases a.len(),
{
    lemma_hex_len(a);
    lemma_hex_len(b);
    if a.len() > 0 {
        lemma_hex_len(a.drop_last());
        lemma_hex_len(b.drop_last());
        let n = 2 * (a.len() - 1);
        let ha = hex(a.drop_last()).push(hex_digit(a.last() / 16)).push(hex_digit(a.last() % 16));
        let hb = hex(b.drop_last()).push(hex_digit(b.last() / 16)).push(hex_digit(b.last() % 16));
        assert(ha[n] == hb[n]);
        assert(ha[n + 1] == hb[n + 1]);
        assert(ha.drop_last().drop_last() =~= hex(a.drop_last()));
        assert(hb.drop_last().drop_last() =~= hex(b.drop_last()));
        lemma_hex_injective(a.drop_last(), b.drop_last());
        assert(a.last() == b.last());
        assert(a =~= a.drop_last().push(a.last()));
        assert(b =~= b.drop_last().push(b.last()));
    } else {
        assert(a =~= b);
    }
}

/// The one-character text of a hexadecimal digit.
fn hex_digit_text(digit: u8) -> (text: &'static str)
    requires
        digit < 16,
    ensures
        text@ == seq![hex_digit(digit)],
{
    proof {
        reveal_strlit("0");
        reveal_strlit("1");
        reveal_strlit("2");
        reveal_strlit("3");
        reveal_strlit("4");
        reveal_strlit("5");
        reveal_strlit("6");
        reveal_strlit("7");
        reveal_strlit("8");
        reveal_strlit("9");
        reveal_strlit("a");
        reveal_strlit("b");
        reveal_strlit("c");
        reveal_strlit("d");
        reveal_strlit("e");
        reveal_strlit("f");
    }
    let text = if digit == 0 {
        "0"
    } else if digit == 1 {
        "1"
    } else if digit == 2 {
        "2"
    } else if digit == 3 {
        "3"
    } else if digit == 4 {
        "4"
    } else if digit == 5 {
        "5"
    } else if digit == 6 {
        "6"
    } else if digit == 7 {
        "7"
    } else if digit == 8 {
        "8"
    } else if digit == 9 {
        "9"
    } else if digit == 10 {
        "a"
    } else if digit == 11 {
        "b"
    } else if digit == 12 {
        "c"
    } else if digit == 13 {
        "d"
    } else if digit == 14 {
        "e"
    } else {
        "f"
    };
    proof {
        assert(text@ =~= seq![hex_digit(digit)]);
    }
    text
}

/// Writes a digest in lower-case hexadecimal.
pub fn hex_encode(bytes: &[u8; 32]) -> (text: String)
    ensures
        text@ == hex(bytes@),
        text@.len() == SWAP_ID_LEN,
{
    proof {
        lemma_hex_len(bytes@);
    }
    let mut text = String::new();
    let mut i: usize = 0;
    proof {
        assert(bytes@.subrange(0, 0) =~= Seq::<u8>::empty());
    }
    while i < 32
        invariant
            i <= 32,
            text@ == hex(bytes@.subrange(0, i as int)),
        decreases 32 - i,
    {
        let byte: u8 = bytes[i];
        text.append(hex_digit_text(byte / 16));
        text.append(hex_digit_text(byte % 16));
        proof {
            let next = bytes@.subrange(0, i as int + 1);
            assert(next.drop_last() =~= bytes@.subrange(0, i as int));
            assert(next.last() == byte);
            assert(text@ =~= hex(next));
        }
        i += 1;
    }
    proof {
        assert(bytes@.subrange(0, 32) =~= bytes@);
    }
    text
}

/// Everything an identifier is derived from.
pub struct IdSeed {
    pub sender: Address,
    pub recipient: Address,
    pub token: Address,
    /// The gross amount the sender asked to lock.
    pub amount: i128,
    pub hashlock: [u8; 32],
    pub timelock: u64,
    /// The value of the identifier counter for this creation.
    pub counter: u64,
    /// Ledger time of the creation.
    pub timestamp: u64,
    /// Ledger sequence number of the creation.
    pub sequence: u32,
}

/// Length of an identifier: two characters for each of the 32 bytes of the
/// digest.
pub const SWAP_ID_LEN: usize = 64;

/// Length of the byte string that is hashed into an identifier.
pub const ID_MESSAGE_LEN: usize = 175;

/// The byte string that is hashed into an identifier: the three identities in
/// canonical form, the amount as a 128-bit two's-complement number, the
/// hashlock, then timelock, counter, ledger time and ledger sequence number,
/// every number big-endian.
pub open spec fn id_message(seed: IdSeed) -> Seq<u8> {
    seed.sender.encoding() + seed.recipient.encoding() + seed.token.encoding() + be_bytes(
        (seed.amount as u128) as nat,
        16,
    ) + seed.hashlock@ + be_bytes(seed.timelock as nat, 8) + be_bytes(seed.counter as nat, 8)
        + be_bytes(seed.timestamp as nat, 8) + be_bytes(seed.sequence as nat, 4)
}

/// The identifier of the swap created from `seed`.
pub open spec fn swap_id(seed: IdSeed) -> Seq<char> {
    hex(sha256_digest(id_message(seed)))
}

/// Two byte strings that agree after a common-length prefix was put in front
/// agree part by part.
proof fn lemma_concat_parts(a1: Seq<u8>, b1: Seq<u8>, a2: Seq<u8>, b2: Seq<u8>)
    requires
        a1 + b1 == a2 + b2,
        b1.len() == b2.len(),
    ensures
        a1 == a2,
        b1 == b2,
{
    let s1 = a1 + b1;
    let s2 = a2 + b2;
    assert(s1.len() == s2.len());
    assert(a1.len() == a2.len());
    assert(a1 =~= s1.subrange(0, a1.len() as int));
    assert(a2 =~= s2.subrange(0, a2.len() as int));
    assert(b1 =~= s1.subrange(a1.len() as int, s1.len() as int));
    assert(b2 =~= s2.subrange(a2.len() as int, s2.len() as int));
}

/// The hashed byte string has a fixed length and determines the seed: no two
/// different seeds are laid out as the same bytes. In particular, two swaps
/// that differ in nothing but the counter are hashed from different bytes.
pub proof fn lemma_id_message_injective(a: IdSeed, b: IdSeed)
    ensures
        id_message(a).len() == ID_MESSAGE_LEN,
        id_message(a) == id_message(b) <==> a == b,
{
    lemma_capacities();
    a.sender.lemma_encoding_injective(b.sender);
    a.recipient.lemma_encoding_injective(b.recipient);
    a.token.lemma_encoding_injective(b.token);
    b.sender.lemma_encoding_injective(a.sender);
    b.recipient.lemma_encoding_injective(a.recipient);
    b.token.lemma_encoding_injective(a.token);
    lemma_be_len((a.amount as u128) as nat, 16);
    lemma_be_len((b.amount as u128) as nat, 16);
    lemma_be_len(a.timelock as nat, 8);
    lemma_be_len(b.timelock as nat, 8);
    lemma_be_len(a.counter as nat, 8);
    lemma_be_len(b.counter as nat, 8);
    lemma_be_len(a.timestamp as nat, 8);
    lemma_be_len(b.timestamp as nat, 8);
    lemma_be_len(a.sequence as nat, 4);
    lemma_be_len(b.sequence as nat, 4);
    if id_message(a) == id_message(b) {
        let a1 = a.sender.encoding();
        let a2 = a1 + a.recipient.encoding();
        let a3 = a2 + a.token.encoding();
        let a4 = a3 + be_bytes((a.amount as u128) as nat, 16);
        let a5 = a4 + a.hashlock@;
        let a6 = a5 + be_bytes(a.timelock as nat, 8);
        let a7 = a6 + be_bytes(a.counter as nat, 8);
        let a8 = a7 + be_bytes(a.timestamp as nat, 8);
        let b1 = b.sender.encoding();
        let b2 = b1 + b.recipient.encoding();
        let b3 = b2 + b.token.encoding();
        let b4 = b3 + be_bytes((b.amount as u128) as nat, 16);
        let b5 = b4 + b.hashlock@;
        let b6 = b5 + be_bytes(b.timelock as nat, 8);
        let b7 = b6 + be_bytes(b.counter as nat, 8);
        let b8 = b7 + be_bytes(b.timestamp as nat, 8);
        lemma_concat_parts(a8, be_bytes(a.sequence as nat, 4), b8, be_bytes(b.sequence as nat, 4));
        lemma_concat_parts(a7, be_bytes(a.timestamp as nat, 8), b7, be_bytes(b.timestamp as nat, 8));
        lemma_concat_parts(a6, be_bytes(a.counter as nat, 8), b6, be_bytes(b.counter as nat, 8));
        lemma_concat_parts(a5, be_bytes(a.timelock as nat, 8), b5, be_bytes(b.timelock as nat, 8));
        lemma_concat_parts(a4, a.hashlock@, b4, b.hashlock@);
        lemma_concat_parts(
            a3,
            be_bytes((a.amount as u128) as nat, 16),
            b3,
            be_bytes((b.amount as u128) as nat, 16),
        );
        lemma_concat_parts(a2, a.token.encoding(), b2, b.token.encoding());
        lemma_concat_parts(a1, a.recipient.encoding(), b1, b.recipient.encoding());
        lemma_be_injective(a.sequence as nat, b.sequence as nat, 4);
        lemma_be_injective(a.timestamp as nat, b.timestamp as nat, 8);
        lemma_be_injective(a.counter as nat, b.counter as nat, 8);
        lemma_be_injective(a.timelock as nat, b.timelock as nat, 8);
        lemma_be_injective((a.amount as u128) as nat, (b.amount as u128) as nat, 16);
        let x: i128 = a.amount;
        let y: i128 = b.amount;
        assert(x as u128 == y as u128 ==> x == y) by (bit_vector);
        assert(a.hashlock =~= b.hashlock);
    }
}

/// Identifiers differ exactly where the digests of the hashed bytes differ.
pub proof fn lemma_swap_id_follows_digest(a: IdSeed, b: IdSeed)
    ensures
        swap_id(a) == swap_id(b) <==> sha256_digest(id_message(a)) == sha256_digest(
            id_message(b),
        ),
{
    if swap_id(a) == swap_id(b) {
        lemma_hex_injective(sha256_digest(id_message(a)), sha256_digest(id_message(b)));
    }
}

/// Derives the identifier of a swap that is being created with the given
/// parameters and counter value, at the current ledger time and sequence
/// number.
pub fn generate_swap_id(
    env: &Env,
    sender: &Address,
    recipient: &Address,
    token: &Address,
    amount: i128,
    hashlock: &[u8; 32],
    timelock: u64,
    counter: u64,
) -> (id: String)
    ensures
        id@.len() == SWAP_ID_LEN,
        id@ == swap_id(
            IdSeed {
                sender: *sender,
                recipient: *recipient,
                token: *token,
                amount,
                hashlock: *hashlock,
                timelock,
                counter,
                timestamp: env@.timestamp,
                sequence: env@.sequence,
            },
        ),
{
    let ghost seed = IdSeed {
        sender: *sender,
        recipient: *recipient,
        token: *token,
        amount,
        hashlock: *hashlock,
        timelock,
        counter,
        timestamp: env@.timestamp,
        sequence: env@.sequence,
    };
    let mut data: Vec<u8> = Vec::new();
    sender.encode_into(&mut data);
    recipient.encode_into(&mut data);
    token.encode_into(&mut data);
    push_be(&mut data, amount as u128, 16);
    let mut i: usize = 0;
    let ghost head = data@;
    while i < 32
        invariant
            i <= 32,
            data@ == head + hashlock@.subrange(0, i as int),
        decreases 32 - i,
    {
        data.push(hashlock[i]);
        proof {
            assert(data@ =~= head + hashlock@.subrange(0, i as int + 1));
        }
        i += 1;
    }
    proof {
        assert(hashlock@.subrange(0, 32) =~= hashlock@);
    }
    push_be(&mut data, timelock as u128, 8);
    push_be(&mut data, counter as u128, 8);
    push_be(&mut data, env.timestamp() as u128, 8);
    push_be(&mut data, env.sequence() as u128, 4);
    proof {
        assert(data@ =~= id_message(seed));
        lemma_id_message_injective(seed, seed);
    }
    let digest = host_sha256(data.as_slice());
    proof {
        lemma_hex_len(digest@);
    }
    hex_encode(&digest)
}

} // verus!
