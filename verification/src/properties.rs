//! The library's cross-cutting guarantees, stated over the same
//! specification functions the public contracts use.
//!
//! Guarantees that belong to a single function stand in that function's
//! `ensures`: rejection never mutates the group (`process_message` ensures
//! the group is unchanged in every case, and takes the store read-only), and
//! a successful merge deletes every own pending leaf key pair from storage
//! (`merge_staged_commit`).  The proofs here state the guarantees that
//! relate several functions or all states.

use vstd::prelude::*;

use crate::errors::{
    CommitToPendingProposalsError, MlsGroupStateError, ProcessMessageError, ValidationError,
};
use crate::group::MlsGroup;
use crate::merging::{spec_commit_creation_error};
use crate::processing::{spec_io_error, spec_process_error};
use crate::storage::{Storage, spec_find_keypair};
use crate::types::{EncryptionKeyPair, ProtocolMessage, Proposal, Sender, FramedContentBody};
use crate::validate::{
    spec_authenticated_content, spec_decrypt_error, spec_decrypt_verify_error, spec_msg_epoch,
};

verus! {

/// Exactly one pending commit: creating a commit moves the group to
/// `PendingCommit` (the `ensures` of `commit_to_pending_proposals`), and in
/// that state any further commit creation is refused with the
/// pending-commit error until the commit is merged or cleared.
pub proof fn lemma_exactly_one_pending_commit(g: MlsGroup)
    requires
        g.group_state is PendingCommit,
    ensures
        spec_commit_creation_error(g) == Some(
            CommitToPendingProposalsError::GroupStateError(MlsGroupStateError::PendingCommit),
        ),
{
}

/// Inactive is sticky: once the group is `Inactive`, processing any message
/// and creating any commit fail with the use-after-eviction error.  The
/// merge operations guarantee the same directly in their `ensures`, and
/// every one of these failures leaves the group and the store unchanged, so
/// no operation ever leaves the `Inactive` state.
pub proof fn lemma_inactive_is_sticky(g: MlsGroup, st: Storage, m: ProtocolMessage)
    requires
        g.group_state is Inactive,
    ensures
        spec_process_error(g, st, m) == Some(
            ProcessMessageError::GroupStateError(MlsGroupStateError::UseAfterEviction),
        ),
        spec_commit_creation_error(g) == Some(
            CommitToPendingProposalsError::GroupStateError(MlsGroupStateError::UseAfterEviction),
        ),
{
}

/// Forward secrecy: once a merge has deleted the member's own pending leaf
/// key pairs (the `ensures` of `merge_staged_commit` leaves that pool
/// empty), no key pair is retrievable from the pool under any public key.
pub proof fn lemma_forward_secrecy(st: Storage, public_key: u64)
    requires
        st.leaf_keypairs@ == Seq::<EncryptionKeyPair>::empty(),
    ensures
        spec_find_keypair(st.leaf_keypairs@, public_key) is None,
{
}

/// External sender restriction: for any authenticated message from an
/// external sender that has passed decryption, verification and the
/// storage-read phase, an application payload is always rejected as
/// unauthorized, a removal proposal is always accepted, any other proposal
/// kind is rejected as unsupported, and a commit is rejected as an
/// unsupported protocol path.
pub proof fn lemma_external_sender_restriction(g: MlsGroup, st: Storage, m: ProtocolMessage)
    requires
        spec_decrypt_verify_error(g, m) is None,
        spec_io_error(g, st, spec_authenticated_content(m)) is None,
        spec_authenticated_content(m).sender is External,
    ensures
        spec_authenticated_content(m).body is Application ==> spec_process_error(g, st, m) == Some(
            ProcessMessageError::UnauthorizedExternalApplicationMessage,
        ),
        spec_authenticated_content(m).body matches FramedContentBody::Proposal(p) ==> if p
            is Remove {
            spec_process_error(g, st, m) is None
        } else {
            spec_process_error(g, st, m) == Some(ProcessMessageError::UnsupportedProposalType)
        },
        spec_authenticated_content(m).body is Commit ==> spec_process_error(g, st, m) == Some(
            ProcessMessageError::ExternalCommitNotSupported,
        ),
{
}

/// Epoch window: a public message whose epoch has left the retained window
/// fails decryption with the distinct no-past-epoch-data error, while a
/// member message within the window is checked exactly against that
/// epoch's retained membership secret.
pub proof fn lemma_epoch_window(g: MlsGroup, m: ProtocolMessage)
    requires
        m is PublicMessage,
    ensures
        g.spec_secret_for_epoch(spec_msg_epoch(m)) is None ==> spec_decrypt_error(g, m) == Some(
            ValidationError::NoPastEpochData,
        ),
        m matches ProtocolMessage::PublicMessage(pm) ==> (g.spec_secret_for_epoch(
            pm.content.epoch,
        ) matches Some(secret) ==> (pm.content.sender is Member ==> (spec_decrypt_error(g, m)
            is None <==> pm.membership_tag == Some(secret)))),
{
}

} // verus!
