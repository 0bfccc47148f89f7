//! A keypair as the search sees it: sixty-four bytes, and the two texts
//! derived from them.

use vstd::prelude::*;

verus! {

/// Bytes in the secret half of a keypair.
pub const SECRET_KEY_LENGTH: usize = 32;

/// Bytes in the public half of a keypair.
pub const PUBLIC_KEY_LENGTH: usize = 32;

/// Bytes in a whole keypair: the secret half, then the public half.
pub const KEYPAIR_LENGTH: usize = 64;

/// The public key that belongs to the given thirty-two secret bytes: what
/// `ed25519_dalek` derives from them when `solana_sdk` makes a keypair.
pub uninterp spec fn ed25519_public(secret: Seq<u8>) -> Seq<u8>;

/// The text that `solana_sdk`'s `Pubkey` displays for the given thirty-two
/// key bytes: the address of the key.
pub uninterp spec fn pubkey_text(public: Seq<u8>) -> Seq<char>;

/// The text that `bs58` encodes the given bytes to, in its default
/// alphabet.
pub uninterp spec fn base58_text(bytes: Seq<u8>) -> Seq<char>;

/// An Ed25519 keypair, held as the bytes it serialises to.
pub struct Keypair {
    bytes: [u8; 64],
}

impl View for Keypair {
    type V = Seq<u8>;

    closed spec fn view(&self) -> Seq<u8> {
        self.bytes@
    }
}

impl Keypair {
    /// The secret half: the first thirty-two bytes.
    pub open spec fn secret_bytes(&self) -> Seq<u8> {
        self@.subrange(0, SECRET_KEY_LENGTH as int)
    }

    /// The two halves belong together: the public half is the public key of
    /// the secret half. Bytes from elsewhere need not be so.
    pub open spec fn genuine(&self) -> bool {
        self.public_bytes() == ed25519_public(self.secret_bytes())
    }

    /// The public half: the last thirty-two bytes.
    pub open spec fn public_bytes(&self) -> Seq<u8> {
        self@.subrange(SECRET_KEY_LENGTH as int, KEYPAIR_LENGTH as int)
    }

    /// The address: the public half as its owner would publish it.
    pub open spec fn address(&self) -> Seq<char> {
        pubkey_text(self.public_bytes())
    }

    /// The whole keypair in the encoding it is stored in.
    pub open spec fn secret_text(&self) -> Seq<char> {
        base58_text(self@)
    }

    /// Every keypair is sixty-four bytes long.
    pub proof fn lemma_length(&self)
        ensures
            self@.len() == KEYPAIR_LENGTH,
            self.public_bytes().len() == PUBLIC_KEY_LENGTH,
    {
    }

    /// The keypair that serialises to `bytes`.
    pub fn from_bytes(bytes: [u8; 64]) -> (keypair: Keypair)
        ensures
            keypair@ == bytes@,
    {
        Keypair { bytes }
    }

    /// The bytes the keypair serialises to.
    pub fn to_bytes(&self) -> (bytes: [u8; 64])
        ensures
            bytes@ == self@,
    {
        self.bytes
    }

    /// A copy of the public half.
    pub fn public_key(&self) -> (public: [u8; 32])
        ensures
            public@ == self.public_bytes(),
    {
        let mut public: [u8; 32] = [0u8; 32];
        let mut i: usize = 0;
        while i < PUBLIC_KEY_LENGTH
            invariant
                i <= PUBLIC_KEY_LENGTH,
                forall|j: int| 0 <= j < i ==> public@[j] == self.bytes@[SECRET_KEY_LENGTH + j],
            decreases PUBLIC_KEY_LENGTH - i,
        {
            public[i] = self.bytes[SECRET_KEY_LENGTH + i];
            i += 1;
        }
        assert(public@ =~= self.public_bytes());
        public
    }
}

/// Calls `solana_sdk::signature::Keypair::new` and serialises the keypair
/// with `to_bytes`. The secret half is random and nothing is claimed of it.
/// Claimed: the public half that follows it is the public key derived from
/// that secret half.
#[verifier::external_body]
pub(crate) fn fresh_keypair_bytes() -> (bytes: [u8; 64])
    ensures
        bytes@.subrange(32, 64) == ed25519_public(bytes@.subrange(0, 32)),
{
    solana_sdk::signature::Keypair::new().to_bytes()
}

/// Calls `to_string` on the `solana_sdk::pubkey::Pubkey` made of `public`.
/// Claimed: the text depends on the bytes alone.
#[verifier::external_body]
pub(crate) fn pubkey_to_string(public: &[u8; 32]) -> (text: String)
    ensures
        text@ == pubkey_text(public@),
{
    solana_sdk::pubkey::Pubkey::new_from_array(*public).to_string()
}

/// Calls `bs58::encode(..).into_string()` on `bytes`. Claimed: the text
/// depends on the bytes alone.
#[verifier::external_body]
pub(crate) fn base58_encode(bytes: &[u8]) -> (text: String)
    ensures
        text@ == base58_text(bytes@),
{
    bs58::encode(bytes).into_string()
}

} // verus!
