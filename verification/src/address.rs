//! Identities: the parties of a swap, the assets, the administrator.

use vstd::prelude::*;
use crate::hash::bytes32_eq;

verus! {

/// What an address names.
#[derive(Copy, Clone, Debug, PartialEq, Eq, Hash, Structural)]
pub enum AddressKind {
    /// An account, named by its Ed25519 public key.
    Account,
    /// A contract, named by its contract hash.
    Contract,
}

/// An identity on the ledger: the kind of address and its 32-byte payload.
///
/// Two addresses are the same identity exactly when both parts agree.
#[derive(Copy, Clone, Debug, Eq, Hash)]
pub struct Address {
    pub kind: AddressKind,
    pub key: [u8; 32],
}

impl PartialEq for Address {
    fn eq(&self, other: &Address) -> (same: bool) {
        let same = self.kind == other.kind && bytes32_eq(&self.key, &other.key);
        proof {
            if same {
                assert(self.key =~= other.key);
            }
        }
        same
    }
}

impl vstd::std_specs::cmp::PartialEqSpecImpl for Address {
    open spec fn obeys_eq_spec() -> bool {
        true
    }

    open spec fn eq_spec(&self, other: &Address) -> bool {
        *self == *other
    }
}

/// Length of the canonical byte form of an address.
pub const ADDRESS_ENCODING_LEN: usize = 33;

impl Address {
    /// The address of the account with the given public key.
    pub fn account(key: [u8; 32]) -> (address: Address)
        ensures
            address == (Address { kind: AddressKind::Account, key }),
    {
        Address { kind: AddressKind::Account, key }
    }

    /// The address of the contract with the given hash.
    pub fn contract(hash: [u8; 32]) -> (address: Address)
        ensures
            address == (Address { kind: AddressKind::Contract, key: hash }),
    {
        Address { kind: AddressKind::Contract, key: hash }
    }

    /// The byte that tells the two kinds apart in the canonical form.
    pub open spec fn tag(self) -> u8 {
        match self.kind {
            AddressKind::Account => 0,
            AddressKind::Contract => 1,
        }
    }

    /// The canonical byte form: the kind tag followed by the 32 payload bytes.
    pub open spec fn encoding(self) -> Seq<u8> {
        seq![self.tag()] + self.key@
    }

    /// Appends the canonical byte form of this address to `out`.
    pub fn encode_into(&self, out: &mut Vec<u8>)
        ensures
            final(out)@ == old(out)@ + self.encoding(),
    {
        let tag: u8 = match self.kind {
            AddressKind::Account => 0,
            AddressKind::Contract => 1,
        };
        out.push(tag);
        let mut i: usize = 0;
        while i < 32
            invariant
                i <= 32,
                out@ == old(out)@ + seq![self.tag()] + self.key@.subrange(0, i as int),
            decreases 32 - i,
        {
            out.push(self.key[i]);
            proof {
                assert(self.key@.subrange(0, i as int).push(self.key@[i as int])
                    =~= self.key@.subrange(0, i as int + 1));
                assert(out@ =~= old(out)@ + seq![self.tag()] + self.key@.subrange(0, i as int + 1));
            }
            i += 1;
        }
        proof {
            assert(self.key@.subrange(0, 32) =~= self.key@);
            assert(out@ =~= old(out)@ + self.encoding());
        }
    }

    /// The canonical form is 33 bytes long and determines the address.
    pub proof fn lemma_encoding_injective(self, other: Address)
        ensures
            self.encoding().len() == ADDRESS_ENCODING_LEN,
            self.encoding() == other.encoding() <==> self == other,
    {
        if self.encoding() == other.encoding() {
            assert(self.encoding()[0] == other.encoding()[0]);
            assert forall|i: int| 0 <= i < 32 implies self.key[i] == other.key[i] by {
                assert(self.encoding()[i + 1] == other.encoding()[i + 1]);
            }
            assert(self.key =~= other.key);
        }
    }
}

} // verus!
