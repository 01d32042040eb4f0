//! Identities: the 32-byte keys that name owners, signers and storage slots.
//!
//! The ledger never looks inside an identity. It compares two of them, or
//! compares one with the empty identity, and both comparisons are the key
//! type's own.

use anchor_lang::prelude::Pubkey;
use vstd::prelude::*;
use vstd::std_specs::cmp::PartialEqSpecImpl;

verus! {

/// The bytes of the empty identity: 32 zeros.
pub open spec fn empty_bytes() -> Seq<u8> {
    Seq::new(32, |i: int| 0u8)
}

/// Calls `Pubkey::default()` and hands back the bytes of that key.
///
/// Trusted, not proved: that these are 32 zero bytes. The key type derives
/// `Default` over its one field, a `[u8; 32]`.
#[verifier::external_body]
fn default_key_bytes() -> (bytes: [u8; 32])
    ensures
        bytes@ == empty_bytes(),
{
    Pubkey::default().to_bytes()
}

/// Compares the keys with these bytes by `Pubkey`'s own `==`.
///
/// Trusted, not proved: that two keys are equal exactly when their bytes
/// are. The key type derives `PartialEq` over its one field, a `[u8; 32]`.
#[verifier::external_body]
fn key_bytes_equal(a: &[u8; 32], b: &[u8; 32]) -> (equal: bool)
    ensures
        equal == (a@ == b@),
{
    Pubkey::new_from_array(*a) == Pubkey::new_from_array(*b)
}

/// A public-key-like value that names an owner, a signer or a storage slot.
#[derive(Clone, Copy, Debug)]
pub struct Identity {
    /// The key itself.
    pub bytes: [u8; 32],
}

impl View for Identity {
    type V = Seq<u8>;

    open spec fn view(&self) -> Seq<u8> {
        self.bytes@
    }
}

impl Identity {
    /// Whether this is the empty identity, the owner of a record that does
    /// not exist.
    pub open spec fn is_empty(&self) -> bool {
        self@ == empty_bytes()
    }

    /// Two identities with the same bytes are the same identity.
    pub proof fn lemma_view_injective(a: Identity, b: Identity)
        ensures
            (a@ == b@) <==> (a == b),
    {
        if a@ == b@ {
            assert(a.bytes =~= b.bytes);
        }
    }

    /// The identity with the given bytes.
    pub fn new(bytes: [u8; 32]) -> (id: Identity)
        ensures
            id.bytes == bytes,
    {
        Identity { bytes }
    }

    /// The bytes of this identity.
    pub fn to_bytes(&self) -> (bytes: [u8; 32])
        ensures
            bytes == self.bytes,
    {
        self.bytes
    }

    /// Tells whether this is the empty identity.
    pub fn is_default(&self) -> (r: bool)
        ensures
            r == self.is_empty(),
    {
        let empty = default_key_bytes();
        key_bytes_equal(&self.bytes, &empty)
    }
}

impl Default for Identity {
    /// The empty identity.
    fn default() -> (id: Identity)
        ensures
            id.is_empty(),
    {
        Identity { bytes: default_key_bytes() }
    }
}

impl PartialEq for Identity {
    fn eq(&self, other: &Identity) -> (r: bool) {
        let r = key_bytes_equal(&self.bytes, &other.bytes);
        proof {
            Identity::lemma_view_injective(*self, *other);
        }
        r
    }
}

impl Eq for Identity {}

impl PartialEqSpecImpl for Identity {
    open spec fn obeys_eq_spec() -> bool {
        true
    }

    open spec fn eq_spec(&self, other: &Identity) -> bool {
        *self == *other
    }
}

} // verus!
