//! The error taxonomy of the processing core.
//!
//! Every failure is returned as a typed result; nothing is retried
//! internally, and a rejected message never mutates group state.

use vstd::prelude::*;

verus! {

/// An operation was invalid for the group's current state.
#[derive(Clone, Copy, PartialEq, Eq, Structural, Debug)]
pub enum MlsGroupStateError {
    /// The member was evicted; the group is terminally inactive.
    UseAfterEviction,
    /// A locally created commit is already pending merge or discard.
    PendingCommit,
}

/// A framing, decryption, signature or epoch-window failure.  The message is
/// rejected; group state is unchanged.
#[derive(Clone, Copy, PartialEq, Eq, Structural, Debug)]
pub enum ValidationError {
    /// The message names another group.
    WrongGroupId,
    /// The message's epoch lies in the future.
    WrongEpoch,
    /// The sender index does not name a current member or configured
    /// external sender.
    UnknownSender,
    /// The message's epoch is older than the retained window; no past-epoch
    /// message secrets exist for it.
    NoPastEpochData,
    /// A publicly framed member message carries no membership tag.
    MissingMembershipTag,
    /// The membership tag does not verify under that epoch's secrets.
    InvalidMembershipTag,
    /// The ciphertext does not decrypt under that epoch's secrets.
    UnableToDecrypt,
    /// The sender-ratchet generation lies outside the tolerated window.
    GenerationOutOfBound,
    /// The carried credential does not match the group's records.
    InvalidCredential,
    /// The content's signature does not verify against the sender's
    /// credential.
    InvalidSignature,
    /// The sender category cannot produce this content type.
    InvalidSenderContentType,
}

/// A commit-specific validation failure.  The commit is rejected; nothing is
/// mutated.
#[derive(Clone, Copy, PartialEq, Eq, Structural, Debug)]
pub enum StageCommitError {
    /// The commit was built for another epoch than the group's current one.
    EpochMismatch,
    /// A referenced proposal is not in the proposal store.
    MissingProposal,
    /// Two covered proposals target the same leaf.
    ConflictingProposals,
    /// A covered proposal is invalid against the tree (bad remove target, or
    /// the committer removing itself).
    InvalidProposal,
    /// A covered proposal's kind is not supported by every current member.
    UnsupportedProposalType,
    /// A referenced pre-shared key did not resolve to a secret.
    PskError,
    /// An own pending leaf's decryption key pair is missing from storage.
    MissingDecryptionKey,
    /// The commit requires a fresh path but carries none.
    RequiredPathMissing,
    /// The commit's path has the wrong length for the tree.
    PathLengthMismatch,
    /// No held decryption key pair matches the path's recipient key.
    PathDecryptionFailure,
    /// The path's claimed node keys do not match the keys recomputed from the
    /// decrypted path secret.
    PublicKeyMismatch,
    /// An internal invariant failed (such as the epoch counter being
    /// exhausted); surfaced rather than silently swallowed.
    LibraryError,
}

/// A persistence failure reported by the storage collaborator.
#[derive(Clone, Copy, PartialEq, Eq, Structural, Debug)]
pub enum StorageError {
    WriteFailed,
}

/// Why processing an incoming message failed.
#[derive(Clone, Copy, PartialEq, Eq, Structural, Debug)]
pub enum ProcessMessageError {
    GroupStateError(MlsGroupStateError),
    /// A handshake message's framing is incompatible with the group's
    /// incoming wire-format policy.
    IncompatibleWireFormat,
    ValidationError(ValidationError),
    InvalidCommit(StageCommitError),
    /// An external sender sent an application message.
    UnauthorizedExternalApplicationMessage,
    /// An external sender sent a proposal kind other than a removal.
    UnsupportedProposalType,
    /// A commit from an external sender is not a supported protocol path.
    ExternalCommitNotSupported,
}

/// Why creating a commit over the pending proposals failed.
#[derive(Clone, Copy, PartialEq, Eq, Structural, Debug)]
pub enum CommitToPendingProposalsError {
    GroupStateError(MlsGroupStateError),
    CreateCommitError(StageCommitError),
    StorageError(StorageError),
}

/// Why merging a staged commit failed.
#[derive(Clone, Copy, PartialEq, Eq, Structural, Debug)]
pub enum MergeCommitError {
    GroupStateError(MlsGroupStateError),
    StorageError(StorageError),
}

/// Why merging the pending commit failed.
#[derive(Clone, Copy, PartialEq, Eq, Structural, Debug)]
pub enum MergePendingCommitError {
    GroupStateError(MlsGroupStateError),
    MergeCommitError(MergeCommitError),
}

} // verus!
