use vstd::prelude::*;

verus! {

/// Every failure the wallet engine reports, with one variant per distinct
/// cause so a caller can tell "fix the input" from "the data source is bad".
#[derive(Clone, Copy, Debug, PartialEq, Eq, Structural)]
pub enum WalletError {
    /// The recovery phrase has a wrong word count, an unknown word, or a
    /// checksum that does not match its entropy.
    InvalidMnemonic,
    /// The payload-type byte of a vote plan is not a recognized value.
    InvalidPayloadType,
    /// The option count of a proposal is zero or above the protocol maximum.
    InvalidChoiceCount,
    /// The selected choice lies outside the proposal's option range.
    ChoiceOutOfRange,
    /// A vote plan identifier is not exactly 32 bytes long.
    InvalidVotePlanId,
    /// The genesis block cannot be decoded: truncated, wrong version, or
    /// inconsistent structure.
    BlockDecode,
    /// No supported derivation scheme produced structurally valid keys.
    Recovery,
    /// An index into a previously produced collection exceeds its size.
    OutOfBound,
}

/// The coarse grouping of [`WalletError`] variants: callers decide between
/// "fix input and retry", "data source is bad", and "phrase is wrong" by
/// this kind alone.
#[derive(Clone, Copy, Debug, PartialEq, Eq, Structural)]
pub enum ErrorKind {
    InvalidInput,
    BlockDecode,
    Recovery,
    OutOfBound,
}

impl WalletError {
    /// The kind an error belongs to.
    pub open spec fn kind_spec(self) -> ErrorKind {
        match self {
            WalletError::InvalidMnemonic => ErrorKind::InvalidInput,
            WalletError::InvalidPayloadType => ErrorKind::InvalidInput,
            WalletError::InvalidChoiceCount => ErrorKind::InvalidInput,
            WalletError::ChoiceOutOfRange => ErrorKind::InvalidInput,
            WalletError::InvalidVotePlanId => ErrorKind::InvalidInput,
            WalletError::BlockDecode => ErrorKind::BlockDecode,
            WalletError::Recovery => ErrorKind::Recovery,
            WalletError::OutOfBound => ErrorKind::OutOfBound,
        }
    }

    /// Group this error into its coarse kind.
    pub fn kind(&self) -> (k: ErrorKind)
        ensures
            k == self.kind_spec(),
    {
        match self {
            WalletError::InvalidMnemonic => ErrorKind::InvalidInput,
            WalletError::InvalidPayloadType => ErrorKind::InvalidInput,
            WalletError::InvalidChoiceCount => ErrorKind::InvalidInput,
            WalletError::ChoiceOutOfRange => ErrorKind::InvalidInput,
            WalletError::InvalidVotePlanId => ErrorKind::InvalidInput,
            WalletError::BlockDecode => ErrorKind::BlockDecode,
            WalletError::Recovery => ErrorKind::Recovery,
            WalletError::OutOfBound => ErrorKind::OutOfBound,
        }
    }
}

} // verus!
