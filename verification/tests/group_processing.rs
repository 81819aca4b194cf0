//! End-to-end tests of the message-processing pipeline and the commit
//! staging and merging engine, on concrete groups.

use mls_processing::errors::{
    CommitToPendingProposalsError, MergeCommitError, MergePendingCommitError, MlsGroupStateError,
    ProcessMessageError, StageCommitError, ValidationError,
};
use mls_processing::group::{MlsGroup, ProposalStore, ResumptionPskStore};
use mls_processing::storage::Storage;
use mls_processing::types::{
    node_key, proposal_reference, AuthenticatedContent, Commit, Credential, FramedContentBody,
    GroupConfiguration, GroupStateKind, IncomingWireFormatPolicy, Leaf, LeafNode, Member,
    MessageSecrets, MlsGroupState, MlsMessageOut, PrivateMessage, ProcessedMessageContent,
    Proposal, ProtocolMessage, PskEntry, PublicMessage, QueuedProposal, Sender,
    SenderRatchetConfiguration, UpdatePath, EncryptionKeyPair, EPOCH_SECRET_DOMAIN,
    RESUMPTION_PSK_DOMAIN,
};

const GROUP_ID: u64 = 0x6d6c73;
const CURRENT_EPOCH: u64 = 3;
const CURRENT_SECRET: u64 = 0xaa;
const PAST_SECRET: u64 = 0x22;

fn member(id: u64) -> Member {
    Member {
        credential: Credential { identity: id, signature_key: id * 100 },
        encryption_key: id * 7,
        capabilities: 0xf,
        ratchet_generation: 5,
    }
}

fn test_group() -> MlsGroup {
    MlsGroup {
        group_id: GROUP_ID,
        epoch: CURRENT_EPOCH,
        leaves: vec![
            Leaf::Member(member(1)),
            Leaf::Member(member(2)),
            Leaf::Member(member(3)),
        ],
        own_leaf_index: 0,
        external_senders: vec![Credential { identity: 99, signature_key: 990 }],
        group_state: MlsGroupState::Operational,
        configuration: GroupConfiguration {
            incoming_wire_format_policy: IncomingWireFormatPolicy::Mixed,
            sender_ratchet_configuration: SenderRatchetConfiguration {
                out_of_order_tolerance: 2,
                maximum_forward_distance: 5,
            },
            max_past_epochs: 2,
        },
        epoch_secret: CURRENT_SECRET,
        past_message_secrets: vec![MessageSecrets { epoch: 2, secret: PAST_SECRET }],
        resumption_psk_store: ResumptionPskStore {
            max_entries: 4,
            entries: vec![PskEntry { epoch: 2, secret: 0x52 }],
        },
        own_leaf_nodes: vec![],
        proposal_store: ProposalStore { proposals: vec![] },
    }
}

fn test_storage() -> Storage {
    Storage {
        group_state: GroupStateKind::Operational,
        proposals: vec![],
        resumption_psks: vec![],
        epoch_keypairs: vec![],
        leaf_keypairs: vec![],
    }
}

fn member_public_message(sender_leaf: usize, epoch: u64, tag: u64, body: FramedContentBody) -> ProtocolMessage {
    ProtocolMessage::PublicMessage(PublicMessage {
        content: AuthenticatedContent {
            group_id: GROUP_ID,
            epoch,
            sender: Sender::Member(sender_leaf),
            authenticated_data: vec![1, 2],
            body,
        },
        signature: member(sender_leaf as u64 + 1).credential.signature_key,
        membership_tag: Some(tag),
        credential: None,
    })
}

fn external_public_message(body: FramedContentBody) -> ProtocolMessage {
    ProtocolMessage::PublicMessage(PublicMessage {
        content: AuthenticatedContent {
            group_id: GROUP_ID,
            epoch: CURRENT_EPOCH,
            sender: Sender::External(0),
            authenticated_data: vec![],
            body,
        },
        signature: 990,
        membership_tag: None,
        credential: None,
    })
}

fn assert_group_unchanged(g: &MlsGroup) {
    let fresh = test_group();
    assert_eq!(g.group_id, fresh.group_id);
    assert_eq!(g.epoch, fresh.epoch);
    assert_eq!(g.leaves, fresh.leaves);
    assert_eq!(g.epoch_secret, fresh.epoch_secret);
    assert_eq!(g.past_message_secrets, fresh.past_message_secrets);
    assert_eq!(g.resumption_psk_store.entries, fresh.resumption_psk_store.entries);
    assert_eq!(g.own_leaf_nodes, fresh.own_leaf_nodes);
    assert_eq!(g.proposal_store.proposals, fresh.proposal_store.proposals);
    assert!(matches!(g.group_state, MlsGroupState::Operational));
}

#[test]
fn member_application_message_at_current_epoch() {
    let mut group = test_group();
    let storage = test_storage();
    let message = member_public_message(
        1,
        CURRENT_EPOCH,
        CURRENT_SECRET,
        FramedContentBody::Application(vec![9, 9]),
    );
    let processed = group.process_message(&storage, message).unwrap();
    assert_eq!(processed.group_id, GROUP_ID);
    assert_eq!(processed.epoch, 3);
    assert_eq!(processed.sender, Sender::Member(1));
    assert_eq!(processed.authenticated_data, vec![1, 2]);
    assert_eq!(processed.credential, member(2).credential);
    match processed.content {
        ProcessedMessageContent::ApplicationMessage(am) => assert_eq!(am.bytes, vec![9, 9]),
        _ => panic!("expected an application payload"),
    }
    assert_group_unchanged(&group);
}

#[test]
fn rejection_leaves_group_unchanged() {
    let mut group = test_group();
    let storage = test_storage();
    let message = member_public_message(
        1,
        CURRENT_EPOCH,
        CURRENT_SECRET ^ 1,
        FramedContentBody::Application(vec![3]),
    );
    let result = group.process_message(&storage, message);
    assert_eq!(
        result.unwrap_err(),
        ProcessMessageError::ValidationError(ValidationError::InvalidMembershipTag)
    );
    assert_group_unchanged(&group);
}

#[test]
fn framing_rejections() {
    let mut group = test_group();
    let storage = test_storage();

    let mut wrong_group = test_group();
    wrong_group.group_id = 0xdead;
    let message = member_public_message(1, 3, CURRENT_SECRET, FramedContentBody::Application(vec![]));
    assert_eq!(
        wrong_group.process_message(&storage, message).unwrap_err(),
        ProcessMessageError::ValidationError(ValidationError::WrongGroupId)
    );

    let future = member_public_message(1, 9, CURRENT_SECRET, FramedContentBody::Application(vec![]));
    assert_eq!(
        group.process_message(&storage, future).unwrap_err(),
        ProcessMessageError::ValidationError(ValidationError::WrongEpoch)
    );

    let unknown = member_public_message(7, 3, CURRENT_SECRET, FramedContentBody::Application(vec![]));
    assert_eq!(
        group.process_message(&storage, unknown).unwrap_err(),
        ProcessMessageError::ValidationError(ValidationError::UnknownSender)
    );

    let untagged = ProtocolMessage::PublicMessage(PublicMessage {
        content: AuthenticatedContent {
            group_id: GROUP_ID,
            epoch: 3,
            sender: Sender::Member(1),
            authenticated_data: vec![],
            body: FramedContentBody::Application(vec![]),
        },
        signature: 200,
        membership_tag: None,
        credential: None,
    });
    assert_eq!(
        group.process_message(&storage, untagged).unwrap_err(),
        ProcessMessageError::ValidationError(ValidationError::MissingMembershipTag)
    );

    let badly_signed = ProtocolMessage::PublicMessage(PublicMessage {
        content: AuthenticatedContent {
            group_id: GROUP_ID,
            epoch: 3,
            sender: Sender::Member(1),
            authenticated_data: vec![],
            body: FramedContentBody::Application(vec![]),
        },
        signature: 12345,
        membership_tag: Some(CURRENT_SECRET),
        credential: None,
    });
    assert_eq!(
        group.process_message(&storage, badly_signed).unwrap_err(),
        ProcessMessageError::ValidationError(ValidationError::InvalidSignature)
    );

    let wrong_credential = ProtocolMessage::PublicMessage(PublicMessage {
        content: AuthenticatedContent {
            group_id: GROUP_ID,
            epoch: 3,
            sender: Sender::Member(1),
            authenticated_data: vec![],
            body: FramedContentBody::Application(vec![]),
        },
        signature: 200,
        membership_tag: Some(CURRENT_SECRET),
        credential: Some(Credential { identity: 5, signature_key: 500 }),
    });
    assert_eq!(
        group.process_message(&storage, wrong_credential).unwrap_err(),
        ProcessMessageError::ValidationError(ValidationError::InvalidCredential)
    );
}

#[test]
fn wire_format_policy_rejects_public_handshake() {
    let mut group = test_group();
    group.configuration.incoming_wire_format_policy = IncomingWireFormatPolicy::AlwaysCiphertext;
    let storage = test_storage();
    let message = member_public_message(
        1,
        CURRENT_EPOCH,
        CURRENT_SECRET,
        FramedContentBody::Proposal(Proposal::Remove(2)),
    );
    assert_eq!(
        group.process_message(&storage, message).unwrap_err(),
        ProcessMessageError::IncompatibleWireFormat
    );
    // An external sender's handshake message is exempt from the policy.
    let external = external_public_message(FramedContentBody::Proposal(Proposal::Remove(2)));
    assert!(group.process_message(&storage, external).is_ok());
}

#[test]
fn private_message_decryption() {
    let mut group = test_group();
    let storage = test_storage();
    let private = |generation: u32, aead_tag: u64| {
        ProtocolMessage::PrivateMessage(PrivateMessage {
            group_id: GROUP_ID,
            epoch: CURRENT_EPOCH,
            sender_leaf: 2,
            generation,
            aead_tag,
            authenticated_data: vec![7],
            body: FramedContentBody::Application(vec![4, 2]),
            signature: member(3).credential.signature_key,
        })
    };
    let processed = group.process_message(&storage, private(6, CURRENT_SECRET)).unwrap();
    assert_eq!(processed.sender, Sender::Member(2));
    match processed.content {
        ProcessedMessageContent::ApplicationMessage(am) => assert_eq!(am.bytes, vec![4, 2]),
        _ => panic!("expected an application payload"),
    }
    assert_eq!(
        group.process_message(&storage, private(6, 0xbb)).unwrap_err(),
        ProcessMessageError::ValidationError(ValidationError::UnableToDecrypt)
    );
    // The sender's ratchet is at generation 5; tolerance 2 back, 5 forward.
    assert_eq!(
        group.process_message(&storage, private(11, CURRENT_SECRET)).unwrap_err(),
        ProcessMessageError::ValidationError(ValidationError::GenerationOutOfBound)
    );
    assert_eq!(
        group.process_message(&storage, private(2, CURRENT_SECRET)).unwrap_err(),
        ProcessMessageError::ValidationError(ValidationError::GenerationOutOfBound)
    );
}

#[test]
fn external_sender_restriction() {
    let mut group = test_group();
    let storage = test_storage();
    assert_eq!(
        group
            .process_message(
                &storage,
                external_public_message(FramedContentBody::Application(vec![1])),
            )
            .unwrap_err(),
        ProcessMessageError::UnauthorizedExternalApplicationMessage
    );
    let processed = group
        .process_message(
            &storage,
            external_public_message(FramedContentBody::Proposal(Proposal::Remove(2))),
        )
        .unwrap();
    match processed.content {
        ProcessedMessageContent::ProposalMessage(q) => {
            assert_eq!(q.proposal, Proposal::Remove(2));
            assert_eq!(q.sender, Sender::External(0));
            // The accepted removal can be queued for a future commit.
            let mut writable_storage = test_storage();
            group.store_pending_proposal(&mut writable_storage, q).unwrap();
            assert_eq!(group.proposal_store.proposals, vec![q]);
            group.proposal_store.proposals.clear();
        }
        _ => panic!("expected a queued proposal"),
    }
    assert_eq!(
        group
            .process_message(
                &storage,
                external_public_message(FramedContentBody::Proposal(Proposal::Update(5))),
            )
            .unwrap_err(),
        ProcessMessageError::UnsupportedProposalType
    );
    assert_eq!(
        group
            .process_message(
                &storage,
                external_public_message(FramedContentBody::Commit(Commit {
                    proposal_refs: vec![],
                    path: None,
                })),
            )
            .unwrap_err(),
        ProcessMessageError::ExternalCommitNotSupported
    );
    assert_group_unchanged(&group);
}

#[test]
fn epoch_window() {
    let mut group = test_group();
    let storage = test_storage();
    // Epoch 2 is retained: its secrets still decrypt the message.
    let retained = member_public_message(1, 2, PAST_SECRET, FramedContentBody::Application(vec![8]));
    let processed = group.process_message(&storage, retained).unwrap();
    match processed.content {
        ProcessedMessageContent::ApplicationMessage(am) => assert_eq!(am.bytes, vec![8]),
        _ => panic!("expected an application payload"),
    }
    // Epoch 1 left the retained window: the distinct no-past-epoch-data error.
    let too_old = member_public_message(1, 1, PAST_SECRET, FramedContentBody::Application(vec![8]));
    assert_eq!(
        group.process_message(&storage, too_old).unwrap_err(),
        ProcessMessageError::ValidationError(ValidationError::NoPastEpochData)
    );
}

#[test]
fn new_member_proposal_external_join() {
    let mut group = test_group();
    let storage = test_storage();
    let joiner = Credential { identity: 44, signature_key: 4400 };
    let message = ProtocolMessage::PublicMessage(PublicMessage {
        content: AuthenticatedContent {
            group_id: GROUP_ID,
            epoch: CURRENT_EPOCH,
            sender: Sender::NewMemberProposal,
            authenticated_data: vec![],
            body: FramedContentBody::Proposal(Proposal::Add(member(44))),
        },
        signature: 4400,
        membership_tag: None,
        credential: Some(joiner),
    });
    let processed = group.process_message(&storage, message).unwrap();
    assert_eq!(processed.credential, joiner);
    assert!(matches!(
        processed.content,
        ProcessedMessageContent::ExternalJoinProposalMessage(_)
    ));
    // A new-member sender may not send application content.
    let application = ProtocolMessage::PublicMessage(PublicMessage {
        content: AuthenticatedContent {
            group_id: GROUP_ID,
            epoch: CURRENT_EPOCH,
            sender: Sender::NewMemberProposal,
            authenticated_data: vec![],
            body: FramedContentBody::Application(vec![1]),
        },
        signature: 4400,
        membership_tag: None,
        credential: Some(joiner),
    });
    assert_eq!(
        group.process_message(&storage, application).unwrap_err(),
        ProcessMessageError::ValidationError(ValidationError::InvalidSenderContentType)
    );
}

#[test]
fn store_pending_proposal_deduplicates() {
    let mut group = test_group();
    let mut storage = test_storage();
    let proposal = QueuedProposal::from_parts(Proposal::Add(member(9)), Sender::Member(1));
    group.store_pending_proposal(&mut storage, proposal).unwrap();
    group.store_pending_proposal(&mut storage, proposal).unwrap();
    // The internal store deduplicates by reference; the persisted log appends.
    assert_eq!(group.proposal_store.proposals.len(), 1);
    assert_eq!(storage.proposals.len(), 2);
}

#[test]
fn commit_to_pending_proposals_stages_and_refuses_second() {
    let mut group = test_group();
    let mut storage = test_storage();
    let proposal = QueuedProposal::from_parts(Proposal::Add(member(9)), Sender::Member(1));
    group.store_pending_proposal(&mut storage, proposal).unwrap();

    let (commit_message, welcome, group_info) =
        group.commit_to_pending_proposals(&mut storage).unwrap();
    match commit_message {
        MlsMessageOut::PublicMessage(pm) => {
            assert_eq!(pm.content.group_id, GROUP_ID);
            assert_eq!(pm.content.epoch, CURRENT_EPOCH);
            assert_eq!(pm.content.sender, Sender::Member(0));
            match pm.content.body {
                FramedContentBody::Commit(cm) => {
                    assert_eq!(cm.proposal_refs, vec![proposal.proposal_reference]);
                    assert!(cm.path.is_some());
                }
                _ => panic!("expected a commit body"),
            }
        }
        _ => panic!("expected a public message"),
    }
    // The commit adds a member, so a welcome is produced; group info is not.
    assert!(matches!(welcome, Some(MlsMessageOut::Welcome(w)) if w.epoch == 4));
    assert!(group_info.is_none());
    assert!(matches!(group.group_state, MlsGroupState::PendingCommit(_)));
    assert_eq!(storage.group_state, GroupStateKind::PendingCommit);
    // The epoch only advances on merge.
    assert_eq!(group.epoch, CURRENT_EPOCH);

    // Exactly one pending commit: a second creation is refused.
    assert_eq!(
        group.commit_to_pending_proposals(&mut storage).unwrap_err(),
        CommitToPendingProposalsError::GroupStateError(MlsGroupStateError::PendingCommit)
    );
}

#[test]
fn merge_pending_commit_advances_epoch_and_adds_resumption_psk() {
    let mut group = test_group();
    let mut storage = test_storage();
    let proposal = QueuedProposal::from_parts(Proposal::Add(member(9)), Sender::Member(1));
    group.store_pending_proposal(&mut storage, proposal).unwrap();
    group.commit_to_pending_proposals(&mut storage).unwrap();
    let psk_entries_before = group.resumption_psk_store.entries.len();

    group.merge_pending_commit(&mut storage).unwrap();

    assert!(matches!(group.group_state, MlsGroupState::Operational));
    assert_eq!(group.epoch, 4);
    // The added member joined at the end of the tree.
    assert_eq!(group.leaves.len(), 4);
    assert_eq!(group.leaves[3], Leaf::Member(member(9)));
    // The resumption store gained exactly one entry, for the new epoch.
    assert_eq!(group.resumption_psk_store.entries.len(), psk_entries_before + 1);
    let newest = group.resumption_psk_store.entries.last().unwrap();
    assert_eq!(newest.epoch, 4);
    let expected_epoch_secret =
        CURRENT_SECRET ^ (CURRENT_SECRET ^ 0x3c6ef372fe94f82b) ^ EPOCH_SECRET_DOMAIN;
    assert_eq!(group.epoch_secret, expected_epoch_secret);
    assert_eq!(newest.secret, expected_epoch_secret ^ RESUMPTION_PSK_DOMAIN);
    assert_eq!(storage.resumption_psks, group.resumption_psk_store.entries);
    // The consumed proposals are cleared atomically with the merge.
    assert!(group.proposal_store.proposals.is_empty());
    assert!(storage.proposals.is_empty());
    // The old epoch's message secrets moved into the retained window.
    assert!(group
        .past_message_secrets
        .iter()
        .any(|s| s.epoch == CURRENT_EPOCH && s.secret == CURRENT_SECRET));
    assert_eq!(storage.group_state, GroupStateKind::Operational);
    // While operational with no pending commit, merging is a no-op.
    group.merge_pending_commit(&mut storage).unwrap();
    assert_eq!(group.epoch, 4);
}

#[test]
fn forward_secrecy_deletes_own_leaf_keypairs() {
    let mut group = test_group();
    let mut storage = test_storage();
    group.own_leaf_nodes = vec![LeafNode { encryption_key: 0x77 }];
    storage.leaf_keypairs = vec![EncryptionKeyPair { public_key: 0x77, private_key: 0x78 }];

    group.commit_to_pending_proposals(&mut storage).unwrap();
    group.merge_pending_commit(&mut storage).unwrap();

    assert!(group.own_leaf_nodes.is_empty());
    assert!(storage.leaf_keypairs.is_empty());
    assert!(storage.encryption_key_pair(0x77).is_none());
}

#[test]
fn peer_commit_removing_member_makes_group_inactive_and_sticky() {
    let mut group = test_group();
    let mut storage = test_storage();
    // Member 1 proposes removing us (leaf 0), then commits to it.
    let removal = QueuedProposal::from_parts(Proposal::Remove(0), Sender::Member(1));
    group.store_pending_proposal(&mut storage, removal).unwrap();
    let commit = member_public_message(
        1,
        CURRENT_EPOCH,
        CURRENT_SECRET,
        FramedContentBody::Commit(Commit {
            proposal_refs: vec![removal.proposal_reference],
            path: None,
        }),
    );
    let processed = group.process_message(&storage, commit).unwrap();
    let staged = match processed.content {
        ProcessedMessageContent::StagedCommitMessage(st) => st,
        _ => panic!("expected a staged commit"),
    };
    assert!(staged.self_removed);
    assert_eq!(staged.staged_epoch, 4);
    // Processing alone changed nothing; merging applies the eviction.
    assert!(matches!(group.group_state, MlsGroupState::Operational));
    group.merge_staged_commit(&mut storage, staged).unwrap();
    assert!(matches!(group.group_state, MlsGroupState::Inactive));
    assert_eq!(storage.group_state, GroupStateKind::Inactive);
    assert_eq!(group.leaves[0], Leaf::Blank);

    // Inactive is sticky: every further operation fails with eviction.
    let late = member_public_message(1, 4, 0, FramedContentBody::Application(vec![]));
    assert_eq!(
        group.process_message(&storage, late).unwrap_err(),
        ProcessMessageError::GroupStateError(MlsGroupStateError::UseAfterEviction)
    );
    assert_eq!(
        group.commit_to_pending_proposals(&mut storage).unwrap_err(),
        CommitToPendingProposalsError::GroupStateError(MlsGroupStateError::UseAfterEviction)
    );
    assert_eq!(
        group.merge_pending_commit(&mut storage).unwrap_err(),
        MergePendingCommitError::GroupStateError(MlsGroupStateError::UseAfterEviction)
    );
    let another = mls_processing::types::StagedCommit {
        staged_epoch: 5,
        new_leaves: vec![],
        new_epoch_secret: 0,
        new_resumption_psk: 0,
        self_removed: false,
    };
    assert_eq!(
        group.merge_staged_commit(&mut storage, another).unwrap_err(),
        MergeCommitError::GroupStateError(MlsGroupStateError::UseAfterEviction)
    );
    assert!(matches!(group.group_state, MlsGroupState::Inactive));
}

#[test]
fn staging_rejects_invalid_commits() {
    let mut group = test_group();
    let storage = test_storage();
    let commit_message = |commit: Commit| {
        member_public_message(1, CURRENT_EPOCH, CURRENT_SECRET, FramedContentBody::Commit(commit))
    };

    // A referenced proposal that is not in the store.
    assert_eq!(
        group
            .process_message(
                &storage,
                commit_message(Commit { proposal_refs: vec![123], path: None }),
            )
            .unwrap_err(),
        ProcessMessageError::InvalidCommit(StageCommitError::MissingProposal)
    );

    // A commit built for a retained past epoch.
    let stale = member_public_message(
        1,
        2,
        PAST_SECRET,
        FramedContentBody::Commit(Commit { proposal_refs: vec![], path: None }),
    );
    assert_eq!(
        group.process_message(&storage, stale).unwrap_err(),
        ProcessMessageError::InvalidCommit(StageCommitError::EpochMismatch)
    );

    // Two covered proposals removing the same leaf.
    let removal_a = QueuedProposal::from_parts(Proposal::Remove(2), Sender::Member(1));
    let removal_b = QueuedProposal::from_parts(Proposal::Remove(2), Sender::External(0));
    group.proposal_store.proposals = vec![removal_a, removal_b];
    assert_eq!(
        group
            .process_message(
                &storage,
                commit_message(Commit {
                    proposal_refs: vec![
                        removal_a.proposal_reference,
                        removal_b.proposal_reference,
                    ],
                    path: None,
                }),
            )
            .unwrap_err(),
        ProcessMessageError::InvalidCommit(StageCommitError::ConflictingProposals)
    );

    // A removal of a leaf outside the tree.
    let out_of_tree = QueuedProposal::from_parts(Proposal::Remove(5), Sender::Member(1));
    group.proposal_store.proposals = vec![out_of_tree];
    assert_eq!(
        group
            .process_message(
                &storage,
                commit_message(Commit {
                    proposal_refs: vec![out_of_tree.proposal_reference],
                    path: None,
                }),
            )
            .unwrap_err(),
        ProcessMessageError::InvalidCommit(StageCommitError::InvalidProposal)
    );

    // A proposal kind one member does not support.
    let update = QueuedProposal::from_parts(Proposal::Update(0x5555), Sender::Member(1));
    group.proposal_store.proposals = vec![update];
    match &mut group.leaves[2] {
        Leaf::Member(m) => m.capabilities = 0x3,
        Leaf::Blank => unreachable!(),
    }
    assert_eq!(
        group
            .process_message(
                &storage,
                commit_message(Commit {
                    proposal_refs: vec![update.proposal_reference],
                    path: None,
                }),
            )
            .unwrap_err(),
        ProcessMessageError::InvalidCommit(StageCommitError::UnsupportedProposalType)
    );
    match &mut group.leaves[2] {
        Leaf::Member(m) => m.capabilities = 0xf,
        Leaf::Blank => unreachable!(),
    }

    // A pre-shared key that does not resolve in the resumption store.
    let psk = QueuedProposal::from_parts(Proposal::PreSharedKey(42), Sender::Member(1));
    group.proposal_store.proposals = vec![psk];
    assert_eq!(
        group
            .process_message(
                &storage,
                commit_message(Commit { proposal_refs: vec![psk.proposal_reference], path: None }),
            )
            .unwrap_err(),
        ProcessMessageError::InvalidCommit(StageCommitError::PskError)
    );
    group.proposal_store.proposals = vec![];

    // The tree has three leaves, so a direct path has two nodes.
    assert_eq!(
        group
            .process_message(
                &storage,
                commit_message(Commit {
                    proposal_refs: vec![],
                    path: Some(UpdatePath {
                        leaf_encryption_key: 1,
                        recipient_encryption_key: 0x55,
                        path_secret: 0x99,
                        node_keys: vec![node_key(0x99, 0)],
                    }),
                }),
            )
            .unwrap_err(),
        ProcessMessageError::InvalidCommit(StageCommitError::PathLengthMismatch)
    );

    // No held decryption key pair matches the path's recipient key.
    assert_eq!(
        group
            .process_message(
                &storage,
                commit_message(Commit {
                    proposal_refs: vec![],
                    path: Some(UpdatePath {
                        leaf_encryption_key: 1,
                        recipient_encryption_key: 0x55,
                        path_secret: 0x99,
                        node_keys: vec![node_key(0x99, 0), node_key(0x99, 1)],
                    }),
                }),
            )
            .unwrap_err(),
        ProcessMessageError::InvalidCommit(StageCommitError::PathDecryptionFailure)
    );

    // Claimed node keys that the decrypted path secret does not recompute.
    let mut keyed_storage = test_storage();
    keyed_storage.epoch_keypairs =
        vec![EncryptionKeyPair { public_key: 0x55, private_key: 0x56 }];
    assert_eq!(
        group
            .process_message(
                &keyed_storage,
                commit_message(Commit {
                    proposal_refs: vec![],
                    path: Some(UpdatePath {
                        leaf_encryption_key: 1,
                        recipient_encryption_key: 0x55,
                        path_secret: 0x99,
                        node_keys: vec![0, 0],
                    }),
                }),
            )
            .unwrap_err(),
        ProcessMessageError::InvalidCommit(StageCommitError::PublicKeyMismatch)
    );

    // A new member committing its join must carry a path.
    let external_join_commit = ProtocolMessage::PublicMessage(PublicMessage {
        content: AuthenticatedContent {
            group_id: GROUP_ID,
            epoch: CURRENT_EPOCH,
            sender: Sender::NewMemberCommit,
            authenticated_data: vec![],
            body: FramedContentBody::Commit(Commit { proposal_refs: vec![], path: None }),
        },
        signature: 4400,
        membership_tag: None,
        credential: Some(Credential { identity: 44, signature_key: 4400 }),
    });
    assert_eq!(
        group.process_message(&storage, external_join_commit).unwrap_err(),
        ProcessMessageError::InvalidCommit(StageCommitError::RequiredPathMissing)
    );
    assert_eq!(group.epoch, CURRENT_EPOCH);
}

#[test]
fn valid_peer_commit_with_path_stages() {
    let mut group = test_group();
    let mut storage = test_storage();
    storage.epoch_keypairs = vec![EncryptionKeyPair { public_key: 0x55, private_key: 0x56 }];
    let path_secret = 0x99;
    let commit = member_public_message(
        1,
        CURRENT_EPOCH,
        CURRENT_SECRET,
        FramedContentBody::Commit(Commit {
            proposal_refs: vec![],
            path: Some(UpdatePath {
                leaf_encryption_key: 0xabc,
                recipient_encryption_key: 0x55,
                path_secret,
                node_keys: vec![node_key(path_secret, 0), node_key(path_secret, 1)],
            }),
        }),
    );
    let processed = group.process_message(&storage, commit).unwrap();
    let staged = match processed.content {
        ProcessedMessageContent::StagedCommitMessage(st) => st,
        _ => panic!("expected a staged commit"),
    };
    assert_eq!(staged.staged_epoch, 4);
    assert!(!staged.self_removed);
    // The committer's leaf carries its fresh encryption key.
    match staged.new_leaves[1] {
        Leaf::Member(m) => assert_eq!(m.encryption_key, 0xabc),
        Leaf::Blank => panic!("committer leaf must stay occupied"),
    }
    assert_eq!(staged.new_epoch_secret, CURRENT_SECRET ^ path_secret ^ EPOCH_SECRET_DOMAIN);
    group.merge_staged_commit(&mut storage, staged).unwrap();
    assert_eq!(group.epoch, 4);
    assert!(matches!(group.group_state, MlsGroupState::Operational));
}

#[test]
fn missing_decryption_key_fails_processing() {
    let mut group = test_group();
    let storage = test_storage();
    group.own_leaf_nodes = vec![LeafNode { encryption_key: 0x77 }];
    // The key-material read runs uniformly, so even an application message
    // surfaces the missing pair.
    let message = member_public_message(
        1,
        CURRENT_EPOCH,
        CURRENT_SECRET,
        FramedContentBody::Application(vec![]),
    );
    assert_eq!(
        group.process_message(&storage, message).unwrap_err(),
        ProcessMessageError::InvalidCommit(StageCommitError::MissingDecryptionKey)
    );
}

#[test]
fn merging_peer_commit_clears_own_pending_commit() {
    let mut group = test_group();
    let mut storage = test_storage();
    group.commit_to_pending_proposals(&mut storage).unwrap();
    assert!(matches!(group.group_state, MlsGroupState::PendingCommit(_)));
    // A peer's commit arrives and wins: merging it discards the own pending
    // commit along with the marker.
    storage.epoch_keypairs = vec![EncryptionKeyPair { public_key: 0x55, private_key: 0x56 }];
    let path_secret = 0x31;
    let peer_commit = member_public_message(
        1,
        CURRENT_EPOCH,
        CURRENT_SECRET,
        FramedContentBody::Commit(Commit {
            proposal_refs: vec![],
            path: Some(UpdatePath {
                leaf_encryption_key: 0xdef,
                recipient_encryption_key: 0x55,
                path_secret,
                node_keys: vec![node_key(path_secret, 0), node_key(path_secret, 1)],
            }),
        }),
    );
    let processed = group.process_message(&storage, peer_commit).unwrap();
    let staged = match processed.content {
        ProcessedMessageContent::StagedCommitMessage(st) => st,
        _ => panic!("expected a staged commit"),
    };
    group.merge_staged_commit(&mut storage, staged).unwrap();
    assert!(matches!(group.group_state, MlsGroupState::Operational));
    assert_eq!(group.epoch, 4);
    assert_eq!(storage.group_state, GroupStateKind::Operational);
}

#[test]
fn resumption_psk_store_is_bounded() {
    let mut store = ResumptionPskStore { max_entries: 2, entries: vec![] };
    store.add(1, 0x11);
    store.add(2, 0x12);
    store.add(3, 0x13);
    assert_eq!(
        store.entries,
        vec![PskEntry { epoch: 2, secret: 0x12 }, PskEntry { epoch: 3, secret: 0x13 }]
    );
}

#[test]
fn commit_covering_resolvable_psk_succeeds() {
    let mut group = test_group();
    let storage = test_storage();
    // Epoch 2's resumption key is in the store.
    let psk = QueuedProposal::from_parts(Proposal::PreSharedKey(2), Sender::Member(1));
    group.proposal_store.proposals = vec![psk];
    let commit = member_public_message(
        1,
        CURRENT_EPOCH,
        CURRENT_SECRET,
        FramedContentBody::Commit(Commit {
            proposal_refs: vec![psk.proposal_reference],
            path: None,
        }),
    );
    let processed = group.process_message(&storage, commit).unwrap();
    assert!(matches!(
        processed.content,
        ProcessedMessageContent::StagedCommitMessage(_)
    ));
}

#[test]
fn derivation_formulas() {
    // The content-derived reference mixes the proposal and sender codes.
    assert_eq!(
        proposal_reference(&Proposal::Remove(2), &Sender::Member(1)),
        (2u64 ^ (2u64 << 8)) ^ ((0x10u64 ^ 1u64) << 48)
    );
    // Direct-path length is the ceiling of the base-two logarithm.
    assert_eq!(mls_processing::types::direct_path_len(0), 0);
    assert_eq!(mls_processing::types::direct_path_len(1), 0);
    assert_eq!(mls_processing::types::direct_path_len(2), 1);
    assert_eq!(mls_processing::types::direct_path_len(3), 2);
    assert_eq!(mls_processing::types::direct_path_len(5), 3);
    assert_eq!(mls_processing::types::direct_path_len(8), 3);
    assert_eq!(
        mls_processing::types::next_epoch_secret(0xaa, 0x99),
        0xaa ^ 0x99 ^ EPOCH_SECRET_DOMAIN
    );
    assert_eq!(node_key(0x99, 1), 0x99 ^ 0x6a09e667f3bcc908 ^ 1);
}
