//! Configuration data carried by account files.
//!
//! Reading and writing the files themselves, and the network-level genesis
//! configuration (validator addresses and ports), live with the process
//! bootstrap outside this crate; the account record is kept here as the
//! shape that key material takes on disk.

use vstd::prelude::*;

verus! {

/// Key material of one account: the hex encodings of its public and
/// private keys.
#[derive(Debug)]
pub struct AccountConfig {
    pub pubkey: String,
    pub privkey: String,
}

impl AccountConfig {
    /// Pairs a public and a private key encoding into an account record.
    pub fn new(pubkey: String, privkey: String) -> (config: AccountConfig)
        ensures
            config.pubkey == pubkey,
            config.privkey == privkey,
    {
        AccountConfig { pubkey, privkey }
    }
}

} // verus!
