//! Core data model: members, senders, proposals, message framing, and the
//! modeled key schedule.
//!
//! Key material is represented by plain `u64` values.  The derivations of the
//! key schedule (epoch secrets, resumption pre-shared keys, direct-path node
//! keys, content-derived proposal references) are modeled by deterministic
//! mixing functions with distinct domain-separation constants, so that every
//! statement about which secret is used where is checked by the verifier.

use vstd::prelude::*;

verus! {

/// Domain separator for deriving the next epoch secret.
pub const EPOCH_SECRET_DOMAIN: u64 = 0x9e3779b97f4a7c15;
/// Domain separator for deriving an epoch's resumption pre-shared key.
pub const RESUMPTION_PSK_DOMAIN: u64 = 0x517cc1b727220a95;
/// Domain separator for deriving direct-path node public keys.
pub const PATH_NODE_DOMAIN: u64 = 0x6a09e667f3bcc908;
/// Domain separator for the committer's fresh leaf encryption key.
pub const LEAF_KEY_DOMAIN: u64 = 0xbb67ae8584caa73b;
/// Domain separator for the committer's fresh path secret.
pub const PATH_SECRET_DOMAIN: u64 = 0x3c6ef372fe94f82b;

/// The identity claim attached to a sender, bound to its signature key.
#[derive(Clone, Copy, PartialEq, Eq, Structural, Debug)]
pub struct Credential {
    pub identity: u64,
    pub signature_key: u64,
}

/// The public material of one group member, held at one ratchet-tree leaf.
#[derive(Clone, Copy, PartialEq, Eq, Structural, Debug)]
pub struct Member {
    pub credential: Credential,
    pub encryption_key: u64,
    /// Bitmask of the proposal kinds this member's implementation supports.
    pub capabilities: u64,
    /// Current generation of this member's sender ratchet (private framing).
    pub ratchet_generation: u32,
}

/// One leaf of the ratchet tree: blank, or occupied by a member.
#[derive(Clone, Copy, PartialEq, Eq, Structural, Debug)]
pub enum Leaf {
    Blank,
    Member(Member),
}

/// The category of a message's sender.
#[derive(Clone, Copy, PartialEq, Eq, Structural, Debug)]
pub enum Sender {
    /// A current member, identified by its leaf index.
    Member(usize),
    /// A configured external (non-member) sender, by its index in the group's
    /// external-sender list.
    External(usize),
    /// A non-member proposing its own addition.
    NewMemberProposal,
    /// A non-member joining through an external commit.
    NewMemberCommit,
}

/// A single requested group-state change.
#[derive(Clone, Copy, PartialEq, Eq, Structural, Debug)]
pub enum Proposal {
    /// Add the given member at a fresh leaf.
    Add(Member),
    /// Remove the member at the given leaf index.
    Remove(usize),
    /// Replace the sender's own leaf encryption key with the given key.
    Update(u64),
    /// Inject the resumption pre-shared key of the given epoch.
    PreSharedKey(u64),
}

/// A proposal together with its content-derived reference and its sender,
/// as held by the proposal store until a commit covers it.
#[derive(Clone, Copy, PartialEq, Eq, Structural, Debug)]
pub struct QueuedProposal {
    pub proposal: Proposal,
    pub proposal_reference: u64,
    pub sender: Sender,
}

/// An ephemeral asymmetric key pair bound to one leaf and one epoch.
#[derive(Clone, Copy, PartialEq, Eq, Structural, Debug)]
pub struct EncryptionKeyPair {
    pub public_key: u64,
    pub private_key: u64,
}

/// One of the member's own pending leaf updates, awaiting a covering commit.
#[derive(Clone, Copy, PartialEq, Eq, Structural, Debug)]
pub struct LeafNode {
    pub encryption_key: u64,
}

/// The message secrets retained for one epoch (the membership MAC key and
/// content protection key of that epoch, collapsed to one value).
#[derive(Clone, Copy, PartialEq, Eq, Structural, Debug)]
pub struct MessageSecrets {
    pub epoch: u64,
    pub secret: u64,
}

/// One entry of the resumption pre-shared-key store.
#[derive(Clone, Copy, PartialEq, Eq, Structural, Debug)]
pub struct PskEntry {
    pub epoch: u64,
    pub secret: u64,
}

/// A pre-shared-key identifier resolved to its secret.
#[derive(Clone, Copy, PartialEq, Eq, Structural, Debug)]
pub struct ResolvedPsk {
    pub psk_id: u64,
    pub secret: u64,
}

/// The framing of a protocol message on the wire.
#[derive(Clone, Copy, PartialEq, Eq, Structural, Debug)]
pub enum WireFormat {
    PublicMessage,
    PrivateMessage,
}

/// Which wire formats the group accepts for incoming handshake messages.
#[derive(Clone, Copy, PartialEq, Eq, Structural, Debug)]
pub enum IncomingWireFormatPolicy {
    AlwaysCiphertext,
    AlwaysPlaintext,
    Mixed,
}

/// Tolerance for reordered or delayed private messages within an epoch.
#[derive(Clone, Copy, PartialEq, Eq, Structural, Debug)]
pub struct SenderRatchetConfiguration {
    /// How far behind the sender's current ratchet generation a message may be.
    pub out_of_order_tolerance: u32,
    /// How far ahead of the sender's current ratchet generation a message may be.
    pub maximum_forward_distance: u32,
}

/// The group's processing configuration.
#[derive(Clone, Copy, PartialEq, Eq, Structural, Debug)]
pub struct GroupConfiguration {
    pub incoming_wire_format_policy: IncomingWireFormatPolicy,
    pub sender_ratchet_configuration: SenderRatchetConfiguration,
    /// How many past epochs' message secrets are retained for late messages.
    pub max_past_epochs: usize,
}

/// Message content, after framing validation and (for private framing)
/// decryption, together with its sender, epoch and authenticated data.
#[derive(Debug)]
pub struct AuthenticatedContent {
    pub group_id: u64,
    pub epoch: u64,
    pub sender: Sender,
    pub authenticated_data: Vec<u8>,
    pub body: FramedContentBody,
}

/// The body of a framed message.
#[derive(Debug)]
pub enum FramedContentBody {
    Application(Vec<u8>),
    Proposal(Proposal),
    Commit(Commit),
}

/// A commit: a batch of previously queued proposals, referenced by their
/// content-derived identifiers, plus an optional fresh leaf path.
#[derive(Debug)]
pub struct Commit {
    pub proposal_refs: Vec<u64>,
    pub path: Option<UpdatePath>,
}

/// The committer's fresh direct path: its new leaf key, the path secret
/// encrypted to a recipient decryption key, and the claimed node public keys.
#[derive(Debug)]
pub struct UpdatePath {
    pub leaf_encryption_key: u64,
    /// Public key of the decryption key pair the path secret is encrypted to.
    pub recipient_encryption_key: u64,
    /// The path secret itself; recoverable only by holding the matching pair.
    pub path_secret: u64,
    /// Public keys of the direct-path nodes, claimed by the committer.
    pub node_keys: Vec<u64>,
}

/// A publicly framed message: content in the clear, a signature, and (for
/// member senders) a membership MAC under the epoch's message secrets.
#[derive(Debug)]
pub struct PublicMessage {
    pub content: AuthenticatedContent,
    pub signature: u64,
    pub membership_tag: Option<u64>,
    /// Credential carried by the message; required for new-member senders,
    /// checked against the group's records for member and external senders.
    pub credential: Option<Credential>,
}

/// A privately framed message, shown here as its decryption result: the
/// sender's leaf, the ratchet generation it was encrypted under, and an AEAD
/// tag that must match the epoch's message secrets.
#[derive(Debug)]
pub struct PrivateMessage {
    pub group_id: u64,
    pub epoch: u64,
    pub sender_leaf: usize,
    pub generation: u32,
    pub aead_tag: u64,
    pub authenticated_data: Vec<u8>,
    pub body: FramedContentBody,
    pub signature: u64,
}

/// An incoming protocol message in either framing.
#[derive(Debug)]
pub enum ProtocolMessage {
    PublicMessage(PublicMessage),
    PrivateMessage(PrivateMessage),
}

/// An application payload extracted from a processed message.
#[derive(Debug)]
pub struct ApplicationMessage {
    pub bytes: Vec<u8>,
}

/// The outcome variants of processing one message.
#[derive(Debug)]
pub enum ProcessedMessageContent {
    ApplicationMessage(ApplicationMessage),
    ProposalMessage(QueuedProposal),
    ExternalJoinProposalMessage(QueuedProposal),
    StagedCommitMessage(StagedCommit),
}

/// Everything the caller needs for application-level authorization before
/// acting on a processed message.
#[derive(Debug)]
pub struct ProcessedMessage {
    pub group_id: u64,
    pub epoch: u64,
    pub sender: Sender,
    pub authenticated_data: Vec<u8>,
    pub content: ProcessedMessageContent,
    pub credential: Credential,
}

/// The computed-but-not-yet-applied result of validating a commit.
#[derive(Debug)]
pub struct StagedCommit {
    /// The epoch the group will be at once this commit is merged.
    pub staged_epoch: u64,
    /// The prospective next ratchet tree.
    pub new_leaves: Vec<Leaf>,
    /// The prospective next epoch's message secrets.
    pub new_epoch_secret: u64,
    /// The resumption pre-shared key derived for the next epoch.
    pub new_resumption_psk: u64,
    /// Whether merging this commit removes the processing member.
    pub self_removed: bool,
}

/// An outgoing protocol message.
#[derive(Debug)]
pub enum MlsMessageOut {
    PublicMessage(PublicMessage),
    Welcome(Welcome),
}

/// The welcome sent to members added by a commit.
#[derive(Clone, Copy, PartialEq, Eq, Structural, Debug)]
pub struct Welcome {
    pub group_id: u64,
    pub epoch: u64,
}

/// A published snapshot of the group's public state.
#[derive(Clone, Copy, PartialEq, Eq, Structural, Debug)]
pub struct GroupInfo {
    pub group_id: u64,
    pub epoch: u64,
}

/// The group state machine: operational, holding exactly one locally created
/// commit that awaits merge or discard, or terminally inactive.
#[derive(Debug)]
pub enum MlsGroupState {
    Operational,
    PendingCommit(StagedCommit),
    Inactive,
}

/// The variant of the group state, as recorded by the storage collaborator.
#[derive(Clone, Copy, PartialEq, Eq, Structural, Debug)]
pub enum GroupStateKind {
    Operational,
    PendingCommit,
    Inactive,
}

/// The variant of a group state value.
pub open spec fn spec_state_kind(s: MlsGroupState) -> GroupStateKind {
    match s {
        MlsGroupState::Operational => GroupStateKind::Operational,
        MlsGroupState::PendingCommit(_) => GroupStateKind::PendingCommit,
        MlsGroupState::Inactive => GroupStateKind::Inactive,
    }
}

/// Returns the variant of a group state value.
pub fn state_kind(s: &MlsGroupState) -> (r: GroupStateKind)
    ensures
        r == spec_state_kind(*s),
{
    match s {
        MlsGroupState::Operational => GroupStateKind::Operational,
        MlsGroupState::PendingCommit(_) => GroupStateKind::PendingCommit,
        MlsGroupState::Inactive => GroupStateKind::Inactive,
    }
}

/// The bit a member's capability mask must carry to support this proposal kind.
pub open spec fn spec_proposal_type_bit(p: Proposal) -> u64 {
    match p {
        Proposal::Add(_) => 1,
        Proposal::Remove(_) => 2,
        Proposal::Update(_) => 4,
        Proposal::PreSharedKey(_) => 8,
    }
}

/// Returns the capability bit of a proposal kind.
pub fn proposal_type_bit(p: &Proposal) -> (r: u64)
    ensures
        r == spec_proposal_type_bit(*p),
{
    match p {
        Proposal::Add(_) => 1,
        Proposal::Remove(_) => 2,
        Proposal::Update(_) => 4,
        Proposal::PreSharedKey(_) => 8,
    }
}

/// Whether a capability mask supports the given proposal-kind bit.
pub open spec fn spec_supports(capabilities: u64, bit: u64) -> bool {
    capabilities & bit == bit
}

/// Mixes a proposal's fields into one value, for content-derived references.
pub open spec fn spec_proposal_code(p: Proposal) -> u64 {
    match p {
        Proposal::Add(m) => 1u64 ^ (m.credential.identity << 8) ^ (m.credential.signature_key
            << 16) ^ (m.encryption_key << 24) ^ (m.capabilities << 32),
        Proposal::Remove(i) => 2u64 ^ ((i as u64) << 8),
        Proposal::Update(k) => 3u64 ^ (k << 8),
        Proposal::PreSharedKey(id) => 4u64 ^ (id << 8),
    }
}

/// Mixes a sender into one value, for content-derived references.
pub open spec fn spec_sender_code(s: Sender) -> u64 {
    match s {
        Sender::Member(i) => 0x10u64 ^ (i as u64),
        Sender::External(i) => 0x20u64 ^ (i as u64),
        Sender::NewMemberProposal => 0x30u64,
        Sender::NewMemberCommit => 0x40u64,
    }
}

/// The content-derived reference of a proposal: a stable identifier used for
/// deduplication and for inclusion in commits.
pub open spec fn spec_proposal_reference(p: Proposal, s: Sender) -> u64 {
    spec_proposal_code(p) ^ (spec_sender_code(s) << 48)
}

/// Computes the content-derived reference of a proposal.
pub fn proposal_reference(p: &Proposal, s: &Sender) -> (r: u64)
    ensures
        r == spec_proposal_reference(*p, *s),
{
    let code: u64 = match p {
        Proposal::Add(m) => 1u64 ^ (m.credential.identity << 8) ^ (m.credential.signature_key
            << 16) ^ (m.encryption_key << 24) ^ (m.capabilities << 32),
        Proposal::Remove(i) => 2u64 ^ ((*i as u64) << 8),
        Proposal::Update(k) => 3u64 ^ (*k << 8),
        Proposal::PreSharedKey(id) => 4u64 ^ (*id << 8),
    };
    let sender_code: u64 = match s {
        Sender::Member(i) => 0x10u64 ^ (*i as u64),
        Sender::External(i) => 0x20u64 ^ (*i as u64),
        Sender::NewMemberProposal => 0x30u64,
        Sender::NewMemberCommit => 0x40u64,
    };
    code ^ (sender_code << 48)
}

impl QueuedProposal {
    /// Builds a queued proposal from an authenticated proposal body and its
    /// sender, deriving the content-based reference.
    pub fn from_parts(proposal: Proposal, sender: Sender) -> (r: QueuedProposal)
        ensures
            r.proposal == proposal,
            r.sender == sender,
            r.proposal_reference == spec_proposal_reference(proposal, sender),
    {
        let reference: u64 = proposal_reference(&proposal, &sender);
        QueuedProposal { proposal, proposal_reference: reference, sender }
    }
}

/// The next epoch secret, derived from the previous epoch secret and the
/// commit secret contributed by the committer's path.
pub open spec fn spec_next_epoch_secret(prev: u64, commit_secret: u64) -> u64 {
    prev ^ commit_secret ^ EPOCH_SECRET_DOMAIN
}

/// Derives the next epoch secret.
pub fn next_epoch_secret(prev: u64, commit_secret: u64) -> (r: u64)
    ensures
        r == spec_next_epoch_secret(prev, commit_secret),
{
    prev ^ commit_secret ^ EPOCH_SECRET_DOMAIN
}

/// The resumption pre-shared key of an epoch, derived from its epoch secret.
pub open spec fn spec_resumption_psk(epoch_secret: u64) -> u64 {
    epoch_secret ^ RESUMPTION_PSK_DOMAIN
}

/// Derives the resumption pre-shared key of an epoch.
pub fn resumption_psk(epoch_secret: u64) -> (r: u64)
    ensures
        r == spec_resumption_psk(epoch_secret),
{
    epoch_secret ^ RESUMPTION_PSK_DOMAIN
}

/// The public key of the direct-path node at the given position, as recomputed
/// from a decrypted path secret.
pub open spec fn spec_node_key(path_secret: u64, i: u64) -> u64 {
    path_secret ^ PATH_NODE_DOMAIN ^ i
}

/// Recomputes a direct-path node public key from a path secret.
pub fn node_key(path_secret: u64, i: u64) -> (r: u64)
    ensures
        r == spec_node_key(path_secret, i),
{
    path_secret ^ PATH_NODE_DOMAIN ^ i
}

/// The fresh path secret a committer derives for its own commit.
pub open spec fn spec_own_path_secret(epoch_secret: u64) -> u64 {
    epoch_secret ^ PATH_SECRET_DOMAIN
}

/// Derives the fresh path secret for an own commit.
pub fn own_path_secret(epoch_secret: u64) -> (r: u64)
    ensures
        r == spec_own_path_secret(epoch_secret),
{
    epoch_secret ^ PATH_SECRET_DOMAIN
}

/// The fresh leaf encryption key a committer derives for its own commit.
pub open spec fn spec_own_leaf_key(path_secret: u64) -> u64 {
    path_secret ^ LEAF_KEY_DOMAIN
}

/// Derives the fresh leaf encryption key for an own commit.
pub fn own_leaf_key(path_secret: u64) -> (r: u64)
    ensures
        r == spec_own_leaf_key(path_secret),
{
    path_secret ^ LEAF_KEY_DOMAIN
}

/// The number of direct-path nodes for a tree over `n` leaves:
/// the ceiling of the base-two logarithm.
pub open spec fn spec_direct_path_len(n: nat) -> nat
    decreases n,
{
    if n <= 1 {
        0
    } else {
        1 + spec_direct_path_len(((n + 1) / 2) as nat)
    }
}

/// Computes the structurally correct direct-path length for a tree over `n`
/// leaves.
pub fn direct_path_len(n: usize) -> (r: usize)
    ensures
        r as nat == spec_direct_path_len(n as nat),
{
    let mut m: usize = n;
    let mut c: usize = 0;
    while m > 1
        invariant
            spec_direct_path_len(n as nat) == c as nat + spec_direct_path_len(m as nat),
            c as int + m as int <= n as int + 1,
        decreases m,
    {
        let next: usize = m / 2 + m % 2;
        assert(next as int == (m as int + 1) / 2);
        assert(spec_direct_path_len(m as nat) == 1 + spec_direct_path_len(next as nat));
        m = next;
        c = c + 1;
    }
    c
}

} // verus!
