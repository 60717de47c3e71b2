use vstd::prelude::*;

verus! {

/// The setting that could not be understood when the relayer was set up.
#[derive(Clone, Copy, Debug, PartialEq, Eq, Structural)]
pub enum ConfigField {
    WatchedAccount,
    Keypair,
    L1ProgramId,
    L2ProgramId,
    FixedAccount,
    NonceAccount,
}

/// Every way in which relaying can fail. None of them is recovered from:
/// the first one ends the run.
#[derive(Clone, Copy, Debug, PartialEq, Eq, Structural)]
pub enum RelayError {
    /// A configured identity or the signing key is malformed.
    Config(ConfigField),
    /// Account data is shorter than the layout it should hold.
    Decode,
    /// The asset-kind byte of a transfer record is not one of the known tags.
    InvalidTag,
    /// No address off the curve exists for an event index.
    Derivation,
    /// An account that should exist on the source chain does not.
    NotFound,
    /// The source chain could not be reached.
    Transport,
    /// No transaction could be built: the freshness token is missing, or the
    /// signed transaction does not carry the requested transfer.
    Build,
    /// The destination chain did not confirm a transaction.
    Submission,
    /// The driver reported something that the relayer was not waiting for.
    UnexpectedEvent,
}

} // verus!
