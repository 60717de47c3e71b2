use vstd::prelude::*;

verus! {

/// The settings of a relayer, as they are written down: endpoints, a path
/// and base58 identities, not yet understood.
#[derive(Clone, Debug, PartialEq, Eq)]
pub struct RelayerConfig {
    pub l1_url: String,
    pub l2_url: String,
    pub watched_account: String,
    pub wallet_path: String,
    pub l1_program_id: String,
    pub l2_program_id: String,
    pub fixed_account: String,
    pub nonce_account: String,
}

} // verus!
