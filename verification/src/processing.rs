//! The processing state machine: a three-phase pipeline per incoming
//! message, separating pure computation from storage reads.
//!
//! Phase one decrypts and verifies the message; phase two resolves the
//! decryption key pools and pre-shared keys a commit would need; phase three
//! dispatches the authenticated content by sender category and content type.
//! The pipeline never mutates the group or the store: a staged commit is
//! returned to the caller, who decides whether to merge it.

use vstd::prelude::*;

use crate::errors::{ProcessMessageError, StageCommitError, StorageError};
use crate::group::{MlsGroup, ProposalStore, ResumptionPskStore, spec_find_proposal, spec_find_psk};
use crate::staging::{
    spec_commit_secret, spec_covered, spec_self_removed, spec_stage_commit_error,
    spec_staged_leaves,
};
use crate::storage::{Storage, spec_find_keypair};
use crate::types::{
    ApplicationMessage, AuthenticatedContent, Credential, EncryptionKeyPair, FramedContentBody,
    LeafNode, ProcessedMessage, ProcessedMessageContent, Proposal, ProtocolMessage, PskEntry,
    QueuedProposal, ResolvedPsk, Sender, spec_next_epoch_secret, spec_proposal_reference,
    spec_resumption_psk,
};
use crate::validate::{
    spec_authenticated_content, spec_decrypt_verify_error, spec_resolved_credential,
};

verus! {

/// Whether every own pending leaf's key pair is present in the pool.
pub open spec fn spec_leaf_keypairs_ok(nodes: Seq<LeafNode>, pool: Seq<EncryptionKeyPair>) -> bool {
    forall|k: int|
        0 <= k < nodes.len() ==> spec_find_keypair(pool, (#[trigger] nodes[k]).encryption_key)
            is Some
}

/// The key pairs read for the own pending leaves, in leaf order.
pub open spec fn spec_leaf_keypairs(nodes: Seq<LeafNode>, pool: Seq<EncryptionKeyPair>) -> Seq<
    EncryptionKeyPair,
> {
    Seq::new(nodes.len(), |k: int| spec_find_keypair(pool, nodes[k].encryption_key)->Some_0)
}

/// The pre-shared-key identifiers referenced by the proposals a commit
/// covers, in reference order.
pub open spec fn spec_psk_ids_from_refs(store: Seq<QueuedProposal>, refs: Seq<u64>) -> Seq<u64>
    decreases refs.len(),
{
    if refs.len() == 0 {
        Seq::empty()
    } else {
        spec_psk_ids_from_refs(store, refs.drop_last()) + (match spec_find_proposal(
            store,
            refs.last(),
        ) {
            Some(q) => match q.proposal {
                Proposal::PreSharedKey(id) => seq![id],
                _ => Seq::<u64>::empty(),
            },
            None => Seq::<u64>::empty(),
        })
    }
}

/// The pre-shared-key identifiers a message's content commits to: empty for
/// anything but a commit.
pub open spec fn spec_committed_psk_ids(
    store: Seq<QueuedProposal>,
    content: AuthenticatedContent,
) -> Seq<u64> {
    match content.body {
        FramedContentBody::Commit(c) => spec_psk_ids_from_refs(store, c.proposal_refs@),
        _ => Seq::empty(),
    }
}

/// Whether every identifier resolves in the resumption store.
pub open spec fn spec_psks_all_resolve(entries: Seq<PskEntry>, ids: Seq<u64>) -> bool {
    forall|k: int| 0 <= k < ids.len() ==> spec_find_psk(entries, (#[trigger] ids[k])) is Some
}

/// The identifiers resolved to their secrets, in order.
pub open spec fn spec_loaded_psks(entries: Seq<PskEntry>, ids: Seq<u64>) -> Seq<ResolvedPsk> {
    Seq::new(
        ids.len(),
        |k: int| ResolvedPsk { psk_id: ids[k], secret: spec_find_psk(entries, ids[k])->Some_0 },
    )
}

/// The first failure of the storage-read phase, or `None`: an own pending
/// leaf's decryption key pair may be missing, or a committed pre-shared key
/// may not resolve.
pub open spec fn spec_io_error(
    g: MlsGroup,
    st: Storage,
    content: AuthenticatedContent,
) -> Option<ProcessMessageError> {
    if !spec_leaf_keypairs_ok(g.own_leaf_nodes@, st.leaf_keypairs@) {
        Some(ProcessMessageError::InvalidCommit(StageCommitError::MissingDecryptionKey))
    } else if !spec_psks_all_resolve(
        g.resumption_psk_store.entries@,
        spec_committed_psk_ids(g.proposal_store.proposals@, content),
    ) {
        Some(ProcessMessageError::InvalidCommit(StageCommitError::PskError))
    } else {
        None
    }
}

/// The first failure of the dispatch phase, or `None`.  An external sender
/// may only send removal proposals: application messages are unauthorized,
/// other proposal kinds unsupported, and a commit from an external sender is
/// not a supported protocol path.  A commit from a member-category sender is
/// staged, and any staging failure is reported as an invalid commit.
pub open spec fn spec_dispatch_error(
    g: MlsGroup,
    content: AuthenticatedContent,
    psks: Seq<ResolvedPsk>,
    old_epoch_keypairs: Seq<EncryptionKeyPair>,
    leaf_node_keypairs: Seq<EncryptionKeyPair>,
) -> Option<ProcessMessageError> {
    match content.sender {
        Sender::External(_) => match content.body {
            FramedContentBody::Application(_) => Some(
                ProcessMessageError::UnauthorizedExternalApplicationMessage,
            ),
            FramedContentBody::Proposal(p) => if p is Remove {
                None
            } else {
                Some(ProcessMessageError::UnsupportedProposalType)
            },
            FramedContentBody::Commit(_) => Some(ProcessMessageError::ExternalCommitNotSupported),
        },
        _ => match content.body {
            FramedContentBody::Commit(c) => match spec_stage_commit_error(
                g,
                content.epoch,
                content.sender,
                c,
                psks,
                old_epoch_keypairs,
                leaf_node_keypairs,
            ) {
                Some(e) => Some(ProcessMessageError::InvalidCommit(e)),
                None => None,
            },
            _ => None,
        },
    }
}

/// What a successfully processed message holds: the group and epoch it was
/// validated at, the sender, the authenticated data, the resolved
/// credential, and the content variant produced by dispatch.
pub open spec fn spec_processed_ok(
    g: MlsGroup,
    content: AuthenticatedContent,
    credential: Credential,
    psks: Seq<ResolvedPsk>,
    old_epoch_keypairs: Seq<EncryptionKeyPair>,
    leaf_node_keypairs: Seq<EncryptionKeyPair>,
    p: ProcessedMessage,
) -> bool {
    &&& p.group_id == g.group_id
    &&& p.epoch == g.epoch
    &&& p.sender == content.sender
    &&& p.authenticated_data == content.authenticated_data
    &&& p.credential == credential
    &&& (content.body matches FramedContentBody::Application(bytes)
        ==> p.content matches ProcessedMessageContent::ApplicationMessage(am) && am.bytes == bytes)
    &&& (content.body matches FramedContentBody::Proposal(prop) ==> ({
        let q = QueuedProposal {
            proposal: prop,
            proposal_reference: spec_proposal_reference(prop, content.sender),
            sender: content.sender,
        };
        if content.sender is NewMemberProposal {
            p.content == ProcessedMessageContent::ExternalJoinProposalMessage(q)
        } else {
            p.content == ProcessedMessageContent::ProposalMessage(q)
        }
    }))
    &&& (content.body matches FramedContentBody::Commit(c)
        ==> p.content matches ProcessedMessageContent::StagedCommitMessage(st) && ({
            let covered = spec_covered(g.proposal_store.proposals@, c.proposal_refs@);
            &&& st.staged_epoch == g.epoch + 1
            &&& st.new_leaves@ == spec_staged_leaves(
                g.leaves@,
                covered,
                content.sender,
                credential,
                c,
            )
            &&& st.new_epoch_secret == spec_next_epoch_secret(g.epoch_secret, spec_commit_secret(c))
            &&& st.new_resumption_psk == spec_resumption_psk(st.new_epoch_secret)
            &&& st.self_removed == spec_self_removed(covered, g.own_leaf_index)
        }))
}

/// The first failure of the whole pipeline, in phase order, or `None`.
pub open spec fn spec_process_error(g: MlsGroup, st: Storage, m: ProtocolMessage) -> Option<
    ProcessMessageError,
> {
    match spec_decrypt_verify_error(g, m) {
        Some(e) => Some(e),
        None => {
            let content = spec_authenticated_content(m);
            match spec_io_error(g, st, content) {
                Some(e) => Some(e),
                None => spec_dispatch_error(
                    g,
                    content,
                    spec_loaded_psks(
                        g.resumption_psk_store.entries@,
                        spec_committed_psk_ids(g.proposal_store.proposals@, content),
                    ),
                    st.epoch_keypairs@,
                    spec_leaf_keypairs(g.own_leaf_nodes@, st.leaf_keypairs@),
                ),
            }
        },
    }
}

impl AuthenticatedContent {
    /// The pre-shared-key identifiers this content's commit covers, looked
    /// up among the queued proposals; empty for other content.
    pub fn committed_psk_proposals(&self, store: &ProposalStore) -> (r: Vec<u64>)
        ensures
            r@ == spec_committed_psk_ids(store.proposals@, *self),
    {
        let mut ids: Vec<u64> = Vec::new();
        let commit = match &self.body {
            FramedContentBody::Commit(c) => c,
            _ => {
                return ids;
            },
        };
        let ghost refs: Seq<u64> = commit.proposal_refs@;
        let mut k: usize = 0;
        assert(refs.take(0) =~= Seq::<u64>::empty());
        while k < commit.proposal_refs.len()
            invariant
                k <= commit.proposal_refs.len(),
                refs == commit.proposal_refs@,
                ids@ == spec_psk_ids_from_refs(store.proposals@, refs.take(k as int)),
            decreases commit.proposal_refs.len() - k,
        {
            assert(refs.take(k as int + 1).drop_last() =~= refs.take(k as int));
            assert(refs.take(k as int + 1).last() == refs[k as int]);
            if let Some(q) = store.find(commit.proposal_refs[k]) {
                if let Proposal::PreSharedKey(id) = q.proposal {
                    ids.push(id);
                }
            }
            assert(ids@ =~= spec_psk_ids_from_refs(store.proposals@, refs.take(k as int + 1)));
            k = k + 1;
        }
        assert(refs.take(refs.len() as int) =~= refs);
        ids
    }
}

/// Resolves each pre-shared-key identifier in the resumption store, or
/// fails on the first that is missing.
pub fn load_psks(store: &ResumptionPskStore, psk_ids: &Vec<u64>) -> (r: Result<
    Vec<ResolvedPsk>,
    StageCommitError,
>)
    ensures
        spec_psks_all_resolve(store.entries@, psk_ids@) ==> (r matches Ok(psks) && psks@
            == spec_loaded_psks(store.entries@, psk_ids@)),
        !spec_psks_all_resolve(store.entries@, psk_ids@) ==> r == Result::<
            Vec<ResolvedPsk>,
            StageCommitError,
        >::Err(StageCommitError::PskError),
{
    let mut psks: Vec<ResolvedPsk> = Vec::new();
    let mut k: usize = 0;
    while k < psk_ids.len()
        invariant
            k <= psk_ids.len(),
            psks@.len() == k as int,
            forall|j: int| 0 <= j < k ==> spec_find_psk(store.entries@, (#[trigger] psk_ids@[j]))
                is Some,
            forall|j: int|
                0 <= j < k ==> psks@[j] == (ResolvedPsk {
                    psk_id: psk_ids@[j],
                    secret: spec_find_psk(store.entries@, psk_ids@[j])->Some_0,
                }),
        decreases psk_ids.len() - k,
    {
        match store.get(psk_ids[k]) {
            Some(secret) => {
                psks.push(ResolvedPsk { psk_id: psk_ids[k], secret });
            },
            None => {
                return Err(StageCommitError::PskError);
            },
        }
        k = k + 1;
    }
    assert(psks@ =~= spec_loaded_psks(store.entries@, psk_ids@));
    Ok(psks)
}

impl MlsGroup {
    /// Reads the decryption key pairs a commit may need: the previous
    /// epoch's pool, and the pair of each own pending leaf update (missing
    /// pairs fail the read).
    pub fn read_decryption_keypairs(&self, storage: &Storage) -> (r: Result<
        (Vec<EncryptionKeyPair>, Vec<EncryptionKeyPair>),
        StageCommitError,
    >)
        ensures
            spec_leaf_keypairs_ok(self.own_leaf_nodes@, storage.leaf_keypairs@) ==> (r matches
                Ok(pools) && pools.0@ == storage.epoch_keypairs@ && pools.1@ == spec_leaf_keypairs(
                self.own_leaf_nodes@,
                storage.leaf_keypairs@,
            )),
            !spec_leaf_keypairs_ok(self.own_leaf_nodes@, storage.leaf_keypairs@) ==> r == Result::<
                (Vec<EncryptionKeyPair>, Vec<EncryptionKeyPair>),
                StageCommitError,
            >::Err(StageCommitError::MissingDecryptionKey),
    {
        // All keys from the previous epoch are potential decryption pairs.
        let old_epoch_keypairs: Vec<EncryptionKeyPair> = storage.read_epoch_keypairs();
        // If a commit covers an update proposal the member itself authored,
        // the pair of that pending leaf is a potential decryption pair too.
        let mut leaf_node_keypairs: Vec<EncryptionKeyPair> = Vec::new();
        let mut k: usize = 0;
        while k < self.own_leaf_nodes.len()
            invariant
                k <= self.own_leaf_nodes.len(),
                leaf_node_keypairs@.len() == k as int,
                forall|j: int|
                    0 <= j < k ==> spec_find_keypair(
                        storage.leaf_keypairs@,
                        (#[trigger] self.own_leaf_nodes@[j]).encryption_key,
                    ) is Some,
                forall|j: int|
                    0 <= j < k ==> leaf_node_keypairs@[j] == spec_find_keypair(
                        storage.leaf_keypairs@,
                        self.own_leaf_nodes@[j].encryption_key,
                    )->Some_0,
            decreases self.own_leaf_nodes.len() - k,
        {
            match storage.encryption_key_pair(self.own_leaf_nodes[k].encryption_key) {
                Some(pair) => {
                    leaf_node_keypairs.push(pair);
                },
                None => {
                    return Err(StageCommitError::MissingDecryptionKey);
                },
            }
            k = k + 1;
        }
        assert(leaf_node_keypairs@ =~= spec_leaf_keypairs(
            self.own_leaf_nodes@,
            storage.leaf_keypairs@,
        ));
        Ok((old_epoch_keypairs, leaf_node_keypairs))
    }

    /// Dispatches authenticated content by sender category and content
    /// type: an application payload is wrapped, a proposal is queued for a
    /// future commit, and a commit is staged for the caller's inspection.
    /// External senders may only send removal proposals.
    pub fn process_authenticated_content(
        &self,
        content: AuthenticatedContent,
        credential: Credential,
        psks: Vec<ResolvedPsk>,
        old_epoch_keypairs: Vec<EncryptionKeyPair>,
        leaf_node_keypairs: Vec<EncryptionKeyPair>,
    ) -> (r: Result<ProcessedMessage, ProcessMessageError>)
        ensures
            r is Err <==> spec_dispatch_error(
                *self,
                content,
                psks@,
                old_epoch_keypairs@,
                leaf_node_keypairs@,
            ) is Some,
            r matches Err(e) ==> Some(e) == spec_dispatch_error(
                *self,
                content,
                psks@,
                old_epoch_keypairs@,
                leaf_node_keypairs@,
            ),
            r matches Ok(p) ==> spec_processed_ok(
                *self,
                content,
                credential,
                psks@,
                old_epoch_keypairs@,
                leaf_node_keypairs@,
                p,
            ),
    {
        match content.sender {
            Sender::External(_) => {
                let AuthenticatedContent { sender, authenticated_data, body, .. } = content;
                match body {
                    FramedContentBody::Application(_) => Err(
                        ProcessMessageError::UnauthorizedExternalApplicationMessage,
                    ),
                    FramedContentBody::Proposal(proposal) => {
                        if !matches!(proposal, Proposal::Remove(_)) {
                            return Err(ProcessMessageError::UnsupportedProposalType);
                        }
                        let queued = QueuedProposal::from_parts(proposal, sender);
                        Ok(
                            ProcessedMessage {
                                group_id: self.group_id,
                                epoch: self.epoch,
                                sender,
                                authenticated_data,
                                content: ProcessedMessageContent::ProposalMessage(queued),
                                credential,
                            },
                        )
                    },
                    FramedContentBody::Commit(_) => Err(
                        ProcessMessageError::ExternalCommitNotSupported,
                    ),
                }
            },
            _ => {
                if matches!(content.body, FramedContentBody::Commit(_)) {
                    let staged = match self.stage_commit(
                        &content,
                        credential,
                        &old_epoch_keypairs,
                        &leaf_node_keypairs,
                        &psks,
                    ) {
                        Ok(st) => st,
                        Err(e) => {
                            return Err(ProcessMessageError::InvalidCommit(e));
                        },
                    };
                    let AuthenticatedContent { sender, authenticated_data, .. } = content;
                    Ok(
                        ProcessedMessage {
                            group_id: self.group_id,
                            epoch: self.epoch,
                            sender,
                            authenticated_data,
                            content: ProcessedMessageContent::StagedCommitMessage(staged),
                            credential,
                        },
                    )
                } else {
                    let AuthenticatedContent { sender, authenticated_data, body, .. } = content;
                    let processed_content: ProcessedMessageContent = match body {
                        FramedContentBody::Application(bytes) => {
                            ProcessedMessageContent::ApplicationMessage(
                                ApplicationMessage { bytes },
                            )
                        },
                        FramedContentBody::Proposal(proposal) => {
                            let queued = QueuedProposal::from_parts(proposal, sender);
                            if matches!(sender, Sender::NewMemberProposal) {
                                ProcessedMessageContent::ExternalJoinProposalMessage(queued)
                            } else {
                                ProcessedMessageContent::ProposalMessage(queued)
                            }
                        },
                        FramedContentBody::Commit(_) => {
                            return Err(
                                ProcessMessageError::InvalidCommit(StageCommitError::LibraryError),
                            );
                        },
                    };
                    Ok(
                        ProcessedMessage {
                            group_id: self.group_id,
                            epoch: self.epoch,
                            sender,
                            authenticated_data,
                            content: processed_content,
                            credential,
                        },
                    )
                }
            },
        }
    }

    /// Begins processing: decrypts and verifies the message, capturing the
    /// authenticated content and resolved credential for the later phases.
    pub fn init_message_processing(&mut self, message: ProtocolMessage) -> (r: Result<
        InitialProcessingState,
        ProcessMessageError,
    >)
        ensures
            *final(self) == *old(self),
            r is Err <==> spec_decrypt_verify_error(*old(self), message) is Some,
            r matches Err(e) ==> Some(e) == spec_decrypt_verify_error(*old(self), message),
            r matches Ok(state) ==> state.authenticated_content == spec_authenticated_content(
                message,
            ) && state.credential == spec_resolved_credential(*old(self), message),
    {
        match self.decrypt_and_verify_message(message) {
            Ok((content, credential)) => Ok(
                InitialProcessingState { authenticated_content: content, credential },
            ),
            Err(e) => Err(e),
        }
    }

    /// Stores a standalone proposal: persisted first, then added to the
    /// internal proposal store (deduplicated by reference).
    pub fn store_pending_proposal(&mut self, storage: &mut Storage, proposal: QueuedProposal) -> (r:
        Result<(), StorageError>)
        ensures
            r is Ok,
            final(storage).proposals@ == old(storage).proposals@.push(proposal),
            final(storage).group_state == old(storage).group_state,
            final(storage).resumption_psks == old(storage).resumption_psks,
            final(storage).epoch_keypairs == old(storage).epoch_keypairs,
            final(storage).leaf_keypairs == old(storage).leaf_keypairs,
            final(self).proposal_store.proposals@ == if old(
                self,
            ).proposal_store.spec_contains_reference(proposal.proposal_reference) {
                old(self).proposal_store.proposals@
            } else {
                old(self).proposal_store.proposals@.push(proposal)
            },
            final(self).group_id == old(self).group_id,
            final(self).epoch == old(self).epoch,
            final(self).leaves == old(self).leaves,
            final(self).own_leaf_index == old(self).own_leaf_index,
            final(self).external_senders == old(self).external_senders,
            final(self).group_state == old(self).group_state,
            final(self).configuration == old(self).configuration,
            final(self).epoch_secret == old(self).epoch_secret,
            final(self).past_message_secrets == old(self).past_message_secrets,
            final(self).resumption_psk_store == old(self).resumption_psk_store,
            final(self).own_leaf_nodes == old(self).own_leaf_nodes,
    {
        if let Err(e) = storage.queue_proposal(
            self.group_id,
            proposal.proposal_reference,
            &proposal,
        ) {
            return Err(e);
        }
        self.proposal_store.add(proposal);
        Ok(())
    }

    /// Parses an incoming message: decrypts and validates it, resolves the
    /// key material a commit would need, and dispatches the authenticated
    /// content.  Processing never mutates the group: rejected messages
    /// change nothing, and even a staged commit is only returned to the
    /// caller for explicit merging.
    pub fn process_message(&mut self, storage: &Storage, message: ProtocolMessage) -> (r: Result<
        ProcessedMessage,
        ProcessMessageError,
    >)
        ensures
            *final(self) == *old(self),
            r is Err <==> spec_process_error(*old(self), *storage, message) is Some,
            r matches Err(e) ==> Some(e) == spec_process_error(*old(self), *storage, message),
            r matches Ok(p) ==> spec_processed_ok(
                *old(self),
                spec_authenticated_content(message),
                spec_resolved_credential(*old(self), message),
                spec_loaded_psks(
                    old(self).resumption_psk_store.entries@,
                    spec_committed_psk_ids(
                        old(self).proposal_store.proposals@,
                        spec_authenticated_content(message),
                    ),
                ),
                storage.epoch_keypairs@,
                spec_leaf_keypairs(old(self).own_leaf_nodes@, storage.leaf_keypairs@),
                p,
            ),
    {
        let processing_state: InitialProcessingState = match self.init_message_processing(message) {
            Ok(state) => state,
            Err(e) => {
                return Err(e);
            },
        };
        let loaded_state: MessageProcessingIo = match processing_state.perform_io(self, storage) {
            Ok(io) => io,
            Err(e) => {
                return Err(e);
            },
        };
        processing_state.finalize(self, loaded_state)
    }
}

/// Phase-one output: the authenticated content and resolved credential,
/// held for the duration of one message's processing and never persisted.
#[derive(Debug)]
pub struct InitialProcessingState {
    pub authenticated_content: AuthenticatedContent,
    pub credential: Credential,
}

/// Phase-two output: the key material read from storage for commit
/// validation.
#[derive(Debug)]
pub struct MessageProcessingIo {
    pub psks: Vec<ResolvedPsk>,
    pub old_epoch_keypairs: Vec<EncryptionKeyPair>,
    pub leaf_node_keypairs: Vec<EncryptionKeyPair>,
}

impl InitialProcessingState {
    /// Resolves the decryption key pools and pre-shared keys commit
    /// validation would need; a no-op in effect for application and
    /// proposal content, but executed uniformly.
    pub fn perform_io(&self, group: &MlsGroup, storage: &Storage) -> (r: Result<
        MessageProcessingIo,
        ProcessMessageError,
    >)
        ensures
            r is Err <==> spec_io_error(*group, *storage, self.authenticated_content) is Some,
            r matches Err(e) ==> Some(e) == spec_io_error(
                *group,
                *storage,
                self.authenticated_content,
            ),
            r matches Ok(io) ==> ({
                &&& io.psks@ == spec_loaded_psks(
                    group.resumption_psk_store.entries@,
                    spec_committed_psk_ids(
                        group.proposal_store.proposals@,
                        self.authenticated_content,
                    ),
                )
                &&& io.old_epoch_keypairs@ == storage.epoch_keypairs@
                &&& io.leaf_node_keypairs@ == spec_leaf_keypairs(
                    group.own_leaf_nodes@,
                    storage.leaf_keypairs@,
                )
            }),
    {
        let (old_epoch_keypairs, leaf_node_keypairs) = match group.read_decryption_keypairs(
            storage,
        ) {
            Ok(pools) => pools,
            Err(_) => {
                return Err(
                    ProcessMessageError::InvalidCommit(StageCommitError::MissingDecryptionKey),
                );
            },
        };
        let psk_ids: Vec<u64> = self.authenticated_content.committed_psk_proposals(
            &group.proposal_store,
        );
        let psks: Vec<ResolvedPsk> = match load_psks(&group.resumption_psk_store, &psk_ids) {
            Ok(psks) => psks,
            Err(_) => {
                return Err(ProcessMessageError::InvalidCommit(StageCommitError::PskError));
            },
        };
        Ok(MessageProcessingIo { psks, old_epoch_keypairs, leaf_node_keypairs })
    }

    /// Dispatches the authenticated content using the phase-two results,
    /// producing the final processed message.
    pub fn finalize(self, group: &MlsGroup, loaded_state: MessageProcessingIo) -> (r: Result<
        ProcessedMessage,
        ProcessMessageError,
    >)
        ensures
            r is Err <==> spec_dispatch_error(
                *group,
                self.authenticated_content,
                loaded_state.psks@,
                loaded_state.old_epoch_keypairs@,
                loaded_state.leaf_node_keypairs@,
            ) is Some,
            r matches Err(e) ==> Some(e) == spec_dispatch_error(
                *group,
                self.authenticated_content,
                loaded_state.psks@,
                loaded_state.old_epoch_keypairs@,
                loaded_state.leaf_node_keypairs@,
            ),
            r matches Ok(p) ==> spec_processed_ok(
                *group,
                self.authenticated_content,
                self.credential,
                loaded_state.psks@,
                loaded_state.old_epoch_keypairs@,
                loaded_state.leaf_node_keypairs@,
                p,
            ),
    {
        let InitialProcessingState { authenticated_content, credential } = self;
        let MessageProcessingIo { psks, old_epoch_keypairs, leaf_node_keypairs } = loaded_state;
        group.process_authenticated_content(
            authenticated_content,
            credential,
            psks,
            old_epoch_keypairs,
            leaf_node_keypairs,
        )
    }
}

} // verus!
