//! Generating candidate keypairs and testing them against the wanted
//! suffix.

use vstd::prelude::*;
use crate::keypair::{base58_encode, fresh_keypair_bytes, pubkey_to_string, Keypair};
use crate::predicate::is_suffix_of;

verus! {

/// Produces keypairs and knows which addresses are wanted.
#[derive(Clone)]
pub struct WalletGenerator {
    suffix: String,
}

impl WalletGenerator {
    /// The suffix an address must end with to count as a match.
    pub closed spec fn suffix(&self) -> Seq<char> {
        self.suffix@
    }

    /// Whether `keypair` is a match: its address ends with the suffix.
    pub open spec fn wants(&self, keypair: &Keypair) -> bool {
        is_suffix_of(self.suffix(), keypair.address())
    }

    /// A generator that looks for addresses ending in `suffix`.
    pub fn new(suffix: &str) -> (generator: Self)
        ensures
            generator.suffix() == suffix@,
    {
        WalletGenerator { suffix: suffix.to_owned() }
    }

    /// The suffix this generator looks for.
    pub fn pattern(&self) -> (suffix: &str)
        ensures
            suffix@ == self.suffix(),
    {
        self.suffix.as_str()
    }

    /// Draws a fresh keypair from the operating system's random source. The
    /// secret is up to that source; the public half is the one it owns.
    pub fn generate_wallet(&self) -> (keypair: Keypair)
        ensures
            keypair.genuine(),
    {
        Keypair::from_bytes(fresh_keypair_bytes())
    }

    /// Whether the address of `keypair` ends with the suffix, compared
    /// exactly: `PUMP` does not end in `pump`.
    pub fn is_vanity_wallet(&self, keypair: &Keypair) -> (hit: bool)
        ensures
            hit == self.wants(keypair),
    {
        let address = Self::get_pubkey_string(keypair);
        crate::predicate::matches(address.as_str(), self.suffix.as_str())
    }

    /// The address of `keypair`, as text.
    pub fn get_pubkey_string(keypair: &Keypair) -> (text: String)
        ensures
            text@ == keypair.address(),
    {
        let public: [u8; 32] = keypair.public_key();
        pubkey_to_string(&public)
    }

    /// The whole of `keypair`, secret half included, as the text it is
    /// stored as.
    pub fn get_private_key_string(keypair: &Keypair) -> (text: String)
        ensures
            text@ == keypair.secret_text(),
    {
        let bytes: [u8; 64] = keypair.to_bytes();
        base58_encode(bytes.as_slice())
    }
}

} // verus!
