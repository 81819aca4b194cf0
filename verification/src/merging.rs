//! Commit creation and the commit merger.
//!
//! Creating a commit over the pending proposals computes a staged commit and
//! moves the group to `PendingCommit`; merging applies a staged commit as one
//! logical unit, flagging self-removal first so that a crash mid-merge leaves
//! the group safely non-operational, then advancing the epoch, extending the
//! resumption store, deleting the member's superseded leaf key pairs, and
//! clearing any pending-commit marker.

use vstd::prelude::*;

use crate::errors::{
    CommitToPendingProposalsError, MergeCommitError, MergePendingCommitError, MlsGroupStateError,
    StageCommitError,
};
use crate::group::{
    MlsGroup, spec_find_psk, spec_psk_added,
};
use crate::staging::{
    apply_proposals, check_no_conflicts, check_remove_targets, check_supported_by_all,
    spec_base_leaves, spec_is_remove_of, spec_no_conflicts, spec_remove_targets_ok,
    spec_self_removed, spec_supported_by_all, has_remove_of,
};
use crate::storage::Storage;
use crate::types::{
    AuthenticatedContent, Commit, Credential, FramedContentBody, GroupInfo, GroupStateKind, Leaf,
    Member, MessageSecrets, MlsGroupState, MlsMessageOut, Proposal, PskEntry, PublicMessage,
    QueuedProposal, Sender, StagedCommit, UpdatePath, Welcome, direct_path_len, next_epoch_secret,
    node_key, own_leaf_key, own_path_secret, resumption_psk, spec_direct_path_len,
    spec_next_epoch_secret, spec_node_key, spec_own_leaf_key, spec_own_path_secret,
    spec_resumption_psk, spec_state_kind,
};

verus! {

/// Relies on `core::mem::replace`: moves `src` into `dest` and returns the
/// value that `dest` held before.
pub assume_specification<T>[ core::mem::replace::<T> ](dest: &mut T, src: T) -> (r: T)
    ensures
        r == *old(dest),
        *final(dest) == src,
;

/// What a bounded window retains of a secrets history: the newest `w`
/// entries.
pub open spec fn spec_retained(s: Seq<MessageSecrets>, w: usize) -> Seq<MessageSecrets> {
    if s.len() <= w {
        s
    } else {
        s.skip(s.len() - w)
    }
}

/// Drops the oldest retained secrets until at most `w` remain.
fn trim_past_secrets(secrets: &mut Vec<MessageSecrets>, w: usize)
    ensures
        final(secrets)@ == spec_retained(old(secrets)@, w),
{
    while secrets.len() > w
        invariant
            spec_retained(old(secrets)@, w) == spec_retained(secrets@, w),
        decreases secrets.len(),
    {
        let ghost prev: Seq<MessageSecrets> = secrets@;
        secrets.remove(0);
        proof {
            assert(secrets@ =~= prev.skip(1));
            assert(spec_retained(prev, w) =~= spec_retained(secrets@, w));
        }
    }
}

/// The relation between a group before a merge, the staged commit, and the
/// group afterwards: the epoch advances to the staged epoch, the staged tree
/// and secrets replace the live ones, the old epoch's message secrets join
/// the bounded retained window, the new epoch's resumption key joins the
/// store, the member's pending leaf updates and the consumed proposals are
/// discarded, and the state machine lands on `Inactive` exactly when the
/// commit removed the member, else on `Operational`.
pub open spec fn spec_merged_group(g: MlsGroup, staged: StagedCommit, g2: MlsGroup) -> bool {
    &&& g2.group_id == g.group_id
    &&& g2.epoch == staged.staged_epoch
    &&& g2.leaves == staged.new_leaves
    &&& g2.own_leaf_index == g.own_leaf_index
    &&& g2.external_senders == g.external_senders
    &&& g2.configuration == g.configuration
    &&& g2.epoch_secret == staged.new_epoch_secret
    &&& g2.past_message_secrets@ == spec_retained(
        g.past_message_secrets@.push(MessageSecrets { epoch: g.epoch, secret: g.epoch_secret }),
        g.configuration.max_past_epochs,
    )
    &&& g2.resumption_psk_store.max_entries == g.resumption_psk_store.max_entries
    &&& g2.resumption_psk_store.entries@ == spec_psk_added(
        g.resumption_psk_store.entries@,
        g.resumption_psk_store.max_entries,
        PskEntry { epoch: staged.staged_epoch, secret: staged.new_resumption_psk },
    )
    &&& g2.own_leaf_nodes@ == Seq::<crate::types::LeafNode>::empty()
    &&& g2.proposal_store.proposals@ == Seq::<QueuedProposal>::empty()
    &&& g2.group_state == if staged.self_removed {
        MlsGroupState::Inactive
    } else {
        MlsGroupState::Operational
    }
}

/// The relation between the store before a merge, the store afterwards, and
/// the merged group: the persisted state variant tracks the live one, the
/// consumed proposals and the superseded own leaf key pairs are deleted, the
/// resumption store is persisted, and the previous epoch's pool is kept.
pub open spec fn spec_merged_storage(st: Storage, st2: Storage, g2: MlsGroup) -> bool {
    &&& st2.group_state == spec_state_kind(g2.group_state)
    &&& st2.proposals@ == Seq::<QueuedProposal>::empty()
    &&& st2.resumption_psks@ == g2.resumption_psk_store.entries@
    &&& st2.leaf_keypairs@ == Seq::<crate::types::EncryptionKeyPair>::empty()
    &&& st2.epoch_keypairs == st.epoch_keypairs
}

/// Every pre-shared-key proposal among the pending ones resolves in the
/// group's own resumption store.
pub open spec fn spec_own_psks_resolved(c: Seq<QueuedProposal>, entries: Seq<PskEntry>) -> bool {
    forall|k: int|
        0 <= k < c.len() ==> ((#[trigger] c[k]).proposal matches Proposal::PreSharedKey(id)
            ==> spec_find_psk(entries, id) is Some)
}

/// The first reason creating a commit over the pending proposals fails, in
/// order, or `None` when creation succeeds.
pub open spec fn spec_commit_creation_error(g: MlsGroup) -> Option<CommitToPendingProposalsError> {
    match g.group_state {
        MlsGroupState::PendingCommit(_) => Some(
            CommitToPendingProposalsError::GroupStateError(MlsGroupStateError::PendingCommit),
        ),
        MlsGroupState::Inactive => Some(
            CommitToPendingProposalsError::GroupStateError(MlsGroupStateError::UseAfterEviction),
        ),
        MlsGroupState::Operational => {
            if g.epoch == u64::MAX {
                Some(CommitToPendingProposalsError::CreateCommitError(StageCommitError::LibraryError))
            } else if !(g.own_leaf_index < g.leaves@.len() && g.leaves@[g.own_leaf_index as int]
                is Member) {
                Some(CommitToPendingProposalsError::CreateCommitError(StageCommitError::LibraryError))
            } else {
                let c = g.proposal_store.proposals@;
                if !spec_no_conflicts(c) {
                    Some(
                        CommitToPendingProposalsError::CreateCommitError(
                            StageCommitError::ConflictingProposals,
                        ),
                    )
                } else if !spec_remove_targets_ok(c, g.leaves@, Some(g.own_leaf_index)) {
                    Some(
                        CommitToPendingProposalsError::CreateCommitError(
                            StageCommitError::InvalidProposal,
                        ),
                    )
                } else if !spec_supported_by_all(c, g.leaves@) {
                    Some(
                        CommitToPendingProposalsError::CreateCommitError(
                            StageCommitError::UnsupportedProposalType,
                        ),
                    )
                } else if !spec_own_psks_resolved(c, g.resumption_psk_store.entries@) {
                    Some(
                        CommitToPendingProposalsError::CreateCommitError(
                            StageCommitError::PskError,
                        ),
                    )
                } else {
                    None
                }
            }
        },
    }
}

/// The tree an own commit stages: the pending proposals applied, then the
/// member's own leaf rekeyed with the freshly derived leaf key.
pub open spec fn spec_own_committed_leaves(g: MlsGroup) -> Seq<Leaf> {
    let base = spec_base_leaves(g.leaves@, g.proposal_store.proposals@);
    let own = g.own_leaf_index as int;
    if own < base.len() {
        match base[own] {
            Leaf::Member(mem) => base.update(
                own,
                Leaf::Member(
                    Member {
                        encryption_key: spec_own_leaf_key(spec_own_path_secret(g.epoch_secret)),
                        ..mem
                    },
                ),
            ),
            Leaf::Blank => base,
        }
    } else {
        base
    }
}

impl MlsGroup {
    /// Merges a staged commit (own or a peer's) into the group, advancing the
    /// epoch.  Self-removal is flagged and persisted before any other write;
    /// the member's pending leaf key pairs are deleted from storage, and the
    /// proposals the commit consumed are cleared atomically with the merge.
    pub fn merge_staged_commit(&mut self, storage: &mut Storage, staged_commit: StagedCommit) -> (r:
        Result<(), MergeCommitError>)
        ensures
            old(self).group_state is Inactive ==> r == Result::<(), MergeCommitError>::Err(
                MergeCommitError::GroupStateError(MlsGroupStateError::UseAfterEviction),
            ) && *final(self) == *old(self) && *final(storage) == *old(storage),
            !(old(self).group_state is Inactive) ==> r is Ok && spec_merged_group(
                *old(self),
                staged_commit,
                *final(self),
            ) && spec_merged_storage(*old(storage), *final(storage), *final(self)),
    {
        if !self.is_active() {
            return Err(MergeCommitError::GroupStateError(MlsGroupStateError::UseAfterEviction));
        }
        // Flag self-removal before anything else, so a crash mid-merge
        // leaves the group safely non-operational.
        if staged_commit.self_removed {
            self.group_state = MlsGroupState::Inactive;
        }
        if let Err(e) = storage.write_group_state(self.group_id, &self.group_state) {
            return Err(MergeCommitError::StorageError(e));
        }
        // Replace the live epoch and tree state with the staged result.
        self.past_message_secrets.push(
            MessageSecrets { epoch: self.epoch, secret: self.epoch_secret },
        );
        let window: usize = self.configuration.max_past_epochs;
        trim_past_secrets(&mut self.past_message_secrets, window);
        self.epoch = staged_commit.staged_epoch;
        self.leaves = staged_commit.new_leaves;
        self.epoch_secret = staged_commit.new_epoch_secret;
        // The covered proposals are consumed with the merge.
        self.proposal_store.clear();
        if let Err(e) = storage.clear_proposals(self.group_id) {
            return Err(MergeCommitError::StorageError(e));
        }
        // Extend and persist the resumption pre-shared-key store.
        self.resumption_psk_store.add(
            staged_commit.staged_epoch,
            staged_commit.new_resumption_psk,
        );
        if let Err(e) = storage.write_resumption_psk_store(
            self.group_id,
            &self.resumption_psk_store.entries,
        ) {
            return Err(MergeCommitError::StorageError(e));
        }
        // Delete the member's superseded pending leaf key pairs.
        self.own_leaf_nodes.clear();
        if let Err(e) = storage.delete_own_leaf_nodes(self.group_id) {
            return Err(MergeCommitError::StorageError(e));
        }
        // Clear an outstanding pending-commit marker, unless the merge just
        // made the group inactive: that state is terminal.
        if !matches!(self.group_state, MlsGroupState::Inactive) {
            self.group_state = MlsGroupState::Operational;
        }
        if let Err(e) = storage.write_group_state(self.group_id, &self.group_state) {
            return Err(MergeCommitError::StorageError(e));
        }
        Ok(())
    }

    /// Merges the pending commit if there is one; doing nothing while
    /// operational, and failing once the member was evicted.
    pub fn merge_pending_commit(&mut self, storage: &mut Storage) -> (r: Result<
        (),
        MergePendingCommitError,
    >)
        ensures
            old(self).group_state is Inactive ==> r == Result::<(), MergePendingCommitError>::Err(
                MergePendingCommitError::GroupStateError(MlsGroupStateError::UseAfterEviction),
            ) && *final(self) == *old(self) && *final(storage) == *old(storage),
            old(self).group_state is Operational ==> r is Ok && *final(self) == *old(self)
                && *final(storage) == *old(storage),
            old(self).group_state matches MlsGroupState::PendingCommit(staged) ==> r is Ok
                && spec_merged_group(*old(self), staged, *final(self)) && spec_merged_storage(
                *old(storage),
                *final(storage),
                *final(self),
            ),
    {
        match &self.group_state {
            MlsGroupState::PendingCommit(_) => {
                let old_state: MlsGroupState = core::mem::replace(
                    &mut self.group_state,
                    MlsGroupState::Operational,
                );
                match old_state {
                    MlsGroupState::PendingCommit(staged) => {
                        match self.merge_staged_commit(storage, staged) {
                            Ok(()) => Ok(()),
                            Err(e) => Err(MergePendingCommitError::MergeCommitError(e)),
                        }
                    },
                    _ => Ok(()),
                }
            },
            MlsGroupState::Inactive => Err(
                MergePendingCommitError::GroupStateError(MlsGroupStateError::UseAfterEviction),
            ),
            MlsGroupState::Operational => Ok(()),
        }
    }

    /// Creates a commit covering every pending proposal, staging its result
    /// and moving the group to `PendingCommit`.  Fails while a commit is
    /// already pending, and leaves everything unchanged on failure.  Returns
    /// the commit message, a welcome when the commit adds members, and no
    /// published group info.
    pub fn commit_to_pending_proposals(&mut self, storage: &mut Storage) -> (r: Result<
        (MlsMessageOut, Option<MlsMessageOut>, Option<GroupInfo>),
        CommitToPendingProposalsError,
    >)
        ensures
            r is Err <==> spec_commit_creation_error(*old(self)) is Some,
            r matches Err(e) ==> Some(e) == spec_commit_creation_error(*old(self)) && *final(self)
                == *old(self) && *final(storage) == *old(storage),
            r matches Ok(out) ==> ({
                let (commit_message, welcome_option, group_info) = out;
                &&& final(self).group_state matches MlsGroupState::PendingCommit(st) && ({
                    &&& st.staged_epoch == old(self).epoch + 1
                    &&& st.new_leaves@ == spec_own_committed_leaves(*old(self))
                    &&& st.new_epoch_secret == spec_next_epoch_secret(
                        old(self).epoch_secret,
                        spec_own_path_secret(old(self).epoch_secret),
                    )
                    &&& st.new_resumption_psk == spec_resumption_psk(st.new_epoch_secret)
                    &&& st.self_removed == false
                })
                &&& final(self).group_id == old(self).group_id
                &&& final(self).epoch == old(self).epoch
                &&& final(self).leaves == old(self).leaves
                &&& final(self).own_leaf_index == old(self).own_leaf_index
                &&& final(self).external_senders == old(self).external_senders
                &&& final(self).configuration == old(self).configuration
                &&& final(self).epoch_secret == old(self).epoch_secret
                &&& final(self).past_message_secrets == old(self).past_message_secrets
                &&& final(self).resumption_psk_store == old(self).resumption_psk_store
                &&& final(self).own_leaf_nodes == old(self).own_leaf_nodes
                &&& final(self).proposal_store == old(self).proposal_store
                &&& final(storage).group_state == GroupStateKind::PendingCommit
                &&& final(storage).proposals == old(storage).proposals
                &&& final(storage).resumption_psks == old(storage).resumption_psks
                &&& final(storage).epoch_keypairs == old(storage).epoch_keypairs
                &&& final(storage).leaf_keypairs == old(storage).leaf_keypairs
                &&& commit_message matches MlsMessageOut::PublicMessage(pm) && ({
                    &&& pm.content.group_id == old(self).group_id
                    &&& pm.content.epoch == old(self).epoch
                    &&& pm.content.sender == Sender::Member(old(self).own_leaf_index)
                    &&& pm.content.authenticated_data@ == Seq::<u8>::empty()
                    &&& pm.content.body matches FramedContentBody::Commit(cm) && ({
                        &&& cm.proposal_refs@ == Seq::new(
                            old(self).proposal_store.proposals@.len(),
                            |k: int| old(self).proposal_store.proposals@[k].proposal_reference,
                        )
                        &&& cm.path matches Some(p) && p.path_secret == spec_own_path_secret(
                            old(self).epoch_secret,
                        ) && p.leaf_encryption_key == spec_own_leaf_key(p.path_secret)
                            && p.node_keys@.len() == spec_direct_path_len(old(self).leaves@.len())
                            && (forall|j: int|
                            0 <= j < p.node_keys@.len() ==> p.node_keys@[j] == spec_node_key(
                                p.path_secret,
                                j as u64,
                            ))
                    })
                    &&& pm.membership_tag == Some(old(self).epoch_secret)
                    &&& (old(self).leaves@[old(self).own_leaf_index as int] matches Leaf::Member(
                        mem,
                    ) ==> pm.signature == mem.credential.signature_key && pm.credential == Some(
                        mem.credential,
                    ))
                })
                &&& (welcome_option is Some <==> exists|k: int|
                    0 <= k < old(self).proposal_store.proposals@.len() && (#[trigger] old(
                        self,
                    ).proposal_store.proposals@[k]).proposal is Add)
                &&& (welcome_option matches Some(w) ==> w == MlsMessageOut::Welcome(
                    Welcome { group_id: old(self).group_id, epoch: (old(self).epoch + 1) as u64 },
                ))
                &&& group_info is None
            }),
    {
        if let Err(e) = self.is_operational() {
            return Err(CommitToPendingProposalsError::GroupStateError(e));
        }
        if self.epoch == u64::MAX {
            return Err(
                CommitToPendingProposalsError::CreateCommitError(StageCommitError::LibraryError),
            );
        }
        if self.own_leaf_index >= self.leaves.len() {
            return Err(
                CommitToPendingProposalsError::CreateCommitError(StageCommitError::LibraryError),
            );
        }
        let own_member: Member = match self.leaves[self.own_leaf_index] {
            Leaf::Member(mem) => mem,
            Leaf::Blank => {
                return Err(
                    CommitToPendingProposalsError::CreateCommitError(
                        StageCommitError::LibraryError,
                    ),
                );
            },
        };
        // Validate the pending proposals as the stager would.
        if !check_no_conflicts(&self.proposal_store.proposals) {
            return Err(
                CommitToPendingProposalsError::CreateCommitError(
                    StageCommitError::ConflictingProposals,
                ),
            );
        }
        if !check_remove_targets(
            &self.proposal_store.proposals,
            &self.leaves,
            Some(self.own_leaf_index),
        ) {
            return Err(
                CommitToPendingProposalsError::CreateCommitError(StageCommitError::InvalidProposal),
            );
        }
        if !check_supported_by_all(&self.proposal_store.proposals, &self.leaves) {
            return Err(
                CommitToPendingProposalsError::CreateCommitError(
                    StageCommitError::UnsupportedProposalType,
                ),
            );
        }
        let mut k: usize = 0;
        while k < self.proposal_store.proposals.len()
            invariant
                k <= self.proposal_store.proposals.len(),
                *self == *old(self),
                self.group_state is Operational,
                self.epoch != u64::MAX,
                self.own_leaf_index < self.leaves@.len(),
                self.leaves@[self.own_leaf_index as int] is Member,
                spec_no_conflicts(self.proposal_store.proposals@),
                spec_remove_targets_ok(
                    self.proposal_store.proposals@,
                    self.leaves@,
                    Some(self.own_leaf_index),
                ),
                spec_supported_by_all(self.proposal_store.proposals@, self.leaves@),
                forall|j: int|
                    0 <= j < k ==> ((#[trigger] self.proposal_store.proposals@[j]).proposal matches
                        Proposal::PreSharedKey(id) ==> spec_find_psk(
                        self.resumption_psk_store.entries@,
                        id,
                    ) is Some),
            decreases self.proposal_store.proposals.len() - k,
        {
            if let Proposal::PreSharedKey(id) = self.proposal_store.proposals[k].proposal {
                if self.resumption_psk_store.get(id).is_none() {
                    proof {
                        assert((#[trigger] self.proposal_store.proposals@[k as int]).proposal
                            matches Proposal::PreSharedKey(id2) && spec_find_psk(
                            self.resumption_psk_store.entries@,
                            id2,
                        ) is None);
                        assert(!spec_own_psks_resolved(
                            self.proposal_store.proposals@,
                            self.resumption_psk_store.entries@,
                        ));
                    }
                    return Err(
                        CommitToPendingProposalsError::CreateCommitError(
                            StageCommitError::PskError,
                        ),
                    );
                }
            }
            k = k + 1;
        }
        // Derive the fresh path and stage the result.
        let path_secret: u64 = own_path_secret(self.epoch_secret);
        let leaf_key: u64 = own_leaf_key(path_secret);
        let node_count: usize = direct_path_len(self.leaves.len());
        let mut node_keys: Vec<u64> = Vec::new();
        let mut n: usize = 0;
        while n < node_count
            invariant
                n <= node_count,
                node_keys@.len() == n as int,
                forall|j: int|
                    0 <= j < n ==> node_keys@[j] == spec_node_key(path_secret, j as u64),
            decreases node_count - n,
        {
            node_keys.push(node_key(path_secret, n as u64));
            n = n + 1;
        }
        let mut proposal_refs: Vec<u64> = Vec::new();
        let mut any_add: bool = false;
        let mut i: usize = 0;
        while i < self.proposal_store.proposals.len()
            invariant
                i <= self.proposal_store.proposals.len(),
                proposal_refs@.len() == i as int,
                forall|j: int|
                    0 <= j < i ==> proposal_refs@[j] == self.proposal_store.proposals@[
                        j
                    ].proposal_reference,
                any_add == exists|j: int|
                    0 <= j < i && (#[trigger] self.proposal_store.proposals@[j]).proposal is Add,
            decreases self.proposal_store.proposals.len() - i,
        {
            proposal_refs.push(self.proposal_store.proposals[i].proposal_reference);
            if matches!(self.proposal_store.proposals[i].proposal, Proposal::Add(_)) {
                any_add = true;
                assert((#[trigger] self.proposal_store.proposals@[i as int]).proposal is Add);
            }
            i = i + 1;
        }
        let mut new_leaves: Vec<Leaf> = apply_proposals(
            &self.leaves,
            &self.proposal_store.proposals,
        );
        if self.own_leaf_index < new_leaves.len() {
            match new_leaves[self.own_leaf_index] {
                Leaf::Member(mem) => {
                    new_leaves.set(
                        self.own_leaf_index,
                        Leaf::Member(Member { encryption_key: leaf_key, ..mem }),
                    );
                },
                Leaf::Blank => {},
            }
        }
        let self_removed: bool = has_remove_of(&self.proposal_store.proposals, self.own_leaf_index);
        proof {
            if self_removed {
                let kk = choose|kk: int|
                    0 <= kk < self.proposal_store.proposals@.len() && spec_is_remove_of(
                        self.proposal_store.proposals@[kk],
                        self.own_leaf_index as int,
                    );
                assert(spec_remove_targets_ok(
                    self.proposal_store.proposals@,
                    self.leaves@,
                    Some(self.own_leaf_index),
                ));
                assert((self.proposal_store.proposals@[kk]).proposal matches Proposal::Remove(t)
                    ==> t != self.own_leaf_index);
                assert(false);
            }
        }
        let new_epoch_secret: u64 = next_epoch_secret(self.epoch_secret, path_secret);
        let new_resumption_psk: u64 = resumption_psk(new_epoch_secret);
        let staged: StagedCommit = StagedCommit {
            staged_epoch: self.epoch + 1,
            new_leaves,
            new_epoch_secret,
            new_resumption_psk,
            self_removed,
        };
        let commit_message: PublicMessage = PublicMessage {
            content: AuthenticatedContent {
                group_id: self.group_id,
                epoch: self.epoch,
                sender: Sender::Member(self.own_leaf_index),
                authenticated_data: Vec::new(),
                body: FramedContentBody::Commit(
                    Commit {
                        proposal_refs,
                        path: Some(
                            UpdatePath {
                                leaf_encryption_key: leaf_key,
                                recipient_encryption_key: own_member.encryption_key,
                                path_secret,
                                node_keys,
                            },
                        ),
                    },
                ),
            },
            signature: own_member.credential.signature_key,
            membership_tag: Some(self.epoch_secret),
            credential: Some(own_member.credential),
        };
        let welcome_option: Option<MlsMessageOut> = if any_add {
            Some(MlsMessageOut::Welcome(Welcome { group_id: self.group_id, epoch: self.epoch + 1 }))
        } else {
            None
        };
        // Record the staged commit as the pending local commit and persist
        // the new state.
        self.group_state = MlsGroupState::PendingCommit(staged);
        if let Err(e) = storage.write_group_state(self.group_id, &self.group_state) {
            return Err(CommitToPendingProposalsError::StorageError(e));
        }
        Ok((MlsMessageOut::PublicMessage(commit_message), welcome_option, None))
    }
}

} // verus!
