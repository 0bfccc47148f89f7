//! The record that is stored for each match.

use vstd::prelude::*;
use crate::keypair::Keypair;
use crate::wallet_generator::WalletGenerator;

verus! {

/// A point in time: whole seconds since 1970-01-01 00:00:00 UTC, and the
/// nanoseconds past that second.
#[derive(Clone, Copy, Debug, PartialEq, Eq, Structural)]
pub struct Timestamp {
    pub seconds: i64,
    pub nanoseconds: u32,
}

/// One matched keypair, as it is written to the store.
#[derive(Debug)]
pub struct WalletDocument {
    /// The address.
    pub public_key: String,
    /// The whole keypair in its stored encoding.
    pub private_key: String,
    /// When the match was found.
    pub created_at: Timestamp,
}

impl WalletDocument {
    /// Whether this is the record of `keypair`.
    pub open spec fn describes(&self, keypair: &Keypair) -> bool {
        &&& self.public_key@ == keypair.address()
        &&& self.private_key@ == keypair.secret_text()
    }

    /// The record of `keypair`, found at `created_at`.
    pub fn for_keypair(keypair: &Keypair, created_at: Timestamp) -> (document: WalletDocument)
        ensures
            document.describes(keypair),
            document.created_at == created_at,
    {
        WalletDocument {
            public_key: WalletGenerator::get_pubkey_string(keypair),
            private_key: WalletGenerator::get_private_key_string(keypair),
            created_at,
        }
    }

    /// The record of `keypair`, stamped with the time of this call as the
    /// system clock gives it.
    pub fn stamped_now(keypair: &Keypair) -> (document: WalletDocument)
        ensures
            document.describes(keypair),
    {
        Self::for_keypair(keypair, current_time())
    }
}

/// Calls `chrono::Utc::now` and reads the result's `timestamp` and
/// `timestamp_subsec_nanos`. The clock decides the value, so nothing is
/// claimed of it.
#[verifier::external_body]
pub(crate) fn current_time() -> (now: Timestamp) {
    let now = chrono::Utc::now();
    Timestamp { seconds: now.timestamp(), nanoseconds: now.timestamp_subsec_nanos() }
}

} // verus!
