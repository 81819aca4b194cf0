//! Decryption and framing validation: turns a raw protocol message into
//! authenticated content, enforcing framing, epoch-window, membership-tag,
//! sender-ratchet and signature rules.
//!
//! The specification functions here mirror the checks in pipeline order, so
//! the contract of each function says exactly which error the next rejected
//! message produces and why an accepted one is authentic.

use vstd::prelude::*;

use crate::errors::{MlsGroupStateError, ProcessMessageError, ValidationError};
use crate::group::MlsGroup;
use crate::types::{
    AuthenticatedContent, Credential, FramedContentBody, IncomingWireFormatPolicy, Leaf,
    ProtocolMessage, Sender, SenderRatchetConfiguration, WireFormat,
};

verus! {

/// Content decrypted from a protocol message, with its signature and the
/// credential the wire carried, awaiting signature verification.
#[derive(Debug)]
pub struct DecryptedMessage {
    pub content: AuthenticatedContent,
    pub signature: u64,
    pub credential: Option<Credential>,
}

/// The wire format a message arrived in.
pub open spec fn spec_wire_format(m: ProtocolMessage) -> WireFormat {
    match m {
        ProtocolMessage::PublicMessage(_) => WireFormat::PublicMessage,
        ProtocolMessage::PrivateMessage(_) => WireFormat::PrivateMessage,
    }
}

/// The group a message names.
pub open spec fn spec_msg_group_id(m: ProtocolMessage) -> u64 {
    match m {
        ProtocolMessage::PublicMessage(pm) => pm.content.group_id,
        ProtocolMessage::PrivateMessage(cm) => cm.group_id,
    }
}

/// The epoch a message was framed under.
pub open spec fn spec_msg_epoch(m: ProtocolMessage) -> u64 {
    match m {
        ProtocolMessage::PublicMessage(pm) => pm.content.epoch,
        ProtocolMessage::PrivateMessage(cm) => cm.epoch,
    }
}

/// The sender of a message (for private framing, the leaf recovered on
/// decryption).
pub open spec fn spec_msg_sender(m: ProtocolMessage) -> Sender {
    match m {
        ProtocolMessage::PublicMessage(pm) => pm.content.sender,
        ProtocolMessage::PrivateMessage(cm) => Sender::Member(cm.sender_leaf),
    }
}

/// The signature a message carries.
pub open spec fn spec_msg_signature(m: ProtocolMessage) -> u64 {
    match m {
        ProtocolMessage::PublicMessage(pm) => pm.signature,
        ProtocolMessage::PrivateMessage(cm) => cm.signature,
    }
}

/// The credential a message carries, if any; private framing resolves the
/// sender's credential from the tree instead.
pub open spec fn spec_msg_claimed_credential(m: ProtocolMessage) -> Option<Credential> {
    match m {
        ProtocolMessage::PublicMessage(pm) => pm.credential,
        ProtocolMessage::PrivateMessage(_) => None,
    }
}

/// Whether a message is a handshake message (a proposal or a commit).
pub open spec fn spec_is_handshake(m: ProtocolMessage) -> bool {
    match m {
        ProtocolMessage::PublicMessage(pm) => !(pm.content.body is Application),
        ProtocolMessage::PrivateMessage(cm) => !(cm.body is Application),
    }
}

/// Whether a message originates outside the current membership; such
/// messages are exempt from the incoming wire-format policy.
pub open spec fn spec_is_external(m: ProtocolMessage) -> bool {
    match m {
        ProtocolMessage::PublicMessage(pm) => match pm.content.sender {
            Sender::Member(_) => false,
            Sender::External(_) => true,
            Sender::NewMemberProposal => true,
            Sender::NewMemberCommit => true,
        },
        ProtocolMessage::PrivateMessage(_) => false,
    }
}

/// Whether a policy accepts a wire format for incoming handshake messages.
pub open spec fn spec_policy_compatible(p: IncomingWireFormatPolicy, wf: WireFormat) -> bool {
    match p {
        IncomingWireFormatPolicy::AlwaysCiphertext => wf is PrivateMessage,
        IncomingWireFormatPolicy::AlwaysPlaintext => wf is PublicMessage,
        IncomingWireFormatPolicy::Mixed => true,
    }
}

/// The content a message authenticates: for public framing the framed
/// content itself, for private framing the decryption result.
pub open spec fn spec_authenticated_content(m: ProtocolMessage) -> AuthenticatedContent {
    match m {
        ProtocolMessage::PublicMessage(pm) => pm.content,
        ProtocolMessage::PrivateMessage(cm) => AuthenticatedContent {
            group_id: cm.group_id,
            epoch: cm.epoch,
            sender: Sender::Member(cm.sender_leaf),
            authenticated_data: cm.authenticated_data,
            body: cm.body,
        },
    }
}

/// Whether the sender names a current member or configured external sender.
pub open spec fn spec_sender_known(g: MlsGroup, m: ProtocolMessage) -> bool {
    match spec_msg_sender(m) {
        Sender::Member(i) => i < g.leaves@.len() && g.leaves@[i as int] is Member,
        Sender::External(i) => i < g.external_senders@.len(),
        Sender::NewMemberProposal => true,
        Sender::NewMemberCommit => true,
    }
}

/// Framing validation: the message must name this group, must not come from
/// a future epoch, and must name a known sender.
pub open spec fn spec_framing_error(g: MlsGroup, m: ProtocolMessage) -> Option<ValidationError> {
    if spec_msg_group_id(m) != g.group_id {
        Some(ValidationError::WrongGroupId)
    } else if spec_msg_epoch(m) > g.epoch {
        Some(ValidationError::WrongEpoch)
    } else if !spec_sender_known(g, m) {
        Some(ValidationError::UnknownSender)
    } else {
        None
    }
}

/// Whether a ratchet generation lies within the tolerated reuse/out-of-order
/// window around the sender's current generation.
pub open spec fn spec_generation_in_window(
    generation: u32,
    current: u32,
    cfg: SenderRatchetConfiguration,
) -> bool {
    &&& generation as int + cfg.out_of_order_tolerance as int >= current as int
    &&& generation as int <= current as int + cfg.maximum_forward_distance as int
}

/// The ratchet generation of the member at a leaf (meaningful only for an
/// occupied leaf).
pub open spec fn spec_leaf_generation(g: MlsGroup, i: usize) -> u32 {
    match g.leaves@[i as int] {
        Leaf::Member(mem) => mem.ratchet_generation,
        Leaf::Blank => 0,
    }
}

/// Decryption-stage validation, after framing has passed: the epoch's
/// message secrets must still be retained; a publicly framed member message
/// must carry the epoch's membership tag; a privately framed message must
/// decrypt under the epoch's secrets within the sender-ratchet window.
pub open spec fn spec_decrypt_error(g: MlsGroup, m: ProtocolMessage) -> Option<ValidationError> {
    match m {
        ProtocolMessage::PublicMessage(pm) => match g.spec_secret_for_epoch(pm.content.epoch) {
            None => Some(ValidationError::NoPastEpochData),
            Some(secret) => if pm.content.sender is Member {
                match pm.membership_tag {
                    None => Some(ValidationError::MissingMembershipTag),
                    Some(tag) => if tag != secret {
                        Some(ValidationError::InvalidMembershipTag)
                    } else {
                        None
                    },
                }
            } else {
                None
            },
        },
        ProtocolMessage::PrivateMessage(cm) => match g.spec_secret_for_epoch(cm.epoch) {
            None => Some(ValidationError::NoPastEpochData),
            Some(secret) => if cm.aead_tag != secret {
                Some(ValidationError::UnableToDecrypt)
            } else if !spec_generation_in_window(
                cm.generation,
                spec_leaf_generation(g, cm.sender_leaf),
                g.configuration.sender_ratchet_configuration,
            ) {
                Some(ValidationError::GenerationOutOfBound)
            } else {
                None
            },
        },
    }
}

/// Whether a sender category may produce this content type: a new member may
/// only propose its own addition or commit its own join.
pub open spec fn spec_sender_content_ok(sender: Sender, body: FramedContentBody) -> bool {
    match sender {
        Sender::NewMemberProposal => body is Proposal,
        Sender::NewMemberCommit => body is Commit,
        Sender::Member(_) => true,
        Sender::External(_) => true,
    }
}

/// The credential processing resolves for the sender: a member's or external
/// sender's credential comes from the group's records, a new member's from
/// the message itself.
pub open spec fn spec_resolved_credential(g: MlsGroup, m: ProtocolMessage) -> Credential {
    match spec_msg_sender(m) {
        Sender::Member(i) => match g.leaves@[i as int] {
            Leaf::Member(mem) => mem.credential,
            Leaf::Blank => Credential { identity: 0, signature_key: 0 },
        },
        Sender::External(i) => g.external_senders@[i as int],
        Sender::NewMemberProposal => match spec_msg_claimed_credential(m) {
            Some(c) => c,
            None => Credential { identity: 0, signature_key: 0 },
        },
        Sender::NewMemberCommit => match spec_msg_claimed_credential(m) {
            Some(c) => c,
            None => Credential { identity: 0, signature_key: 0 },
        },
    }
}

/// Signature-stage validation, after framing has passed: the sender category
/// must fit the content type, a carried credential must match the group's
/// records, a new member must carry one, and the signature must verify
/// against the resolved credential's signature key.
pub open spec fn spec_verify_error(g: MlsGroup, m: ProtocolMessage) -> Option<ValidationError> {
    let sender = spec_msg_sender(m);
    if !spec_sender_content_ok(sender, spec_authenticated_content(m).body) {
        Some(ValidationError::InvalidSenderContentType)
    } else if (sender is Member || sender is External) && (match spec_msg_claimed_credential(m) {
        Some(c) => c != spec_resolved_credential(g, m),
        None => false,
    }) {
        Some(ValidationError::InvalidCredential)
    } else if (sender is NewMemberProposal || sender is NewMemberCommit)
        && spec_msg_claimed_credential(m) is None {
        Some(ValidationError::InvalidCredential)
    } else if spec_msg_signature(m) != spec_resolved_credential(g, m).signature_key {
        Some(ValidationError::InvalidSignature)
    } else {
        None
    }
}

/// Everything decryption and verification check, in pipeline order: the
/// member must still be active, handshake framing must fit the incoming
/// wire-format policy (external senders exempt), then framing, decryption
/// and signature validation.
pub open spec fn spec_decrypt_verify_error(g: MlsGroup, m: ProtocolMessage) -> Option<
    ProcessMessageError,
> {
    if !g.spec_is_active() {
        Some(ProcessMessageError::GroupStateError(MlsGroupStateError::UseAfterEviction))
    } else if !spec_is_external(m) && spec_is_handshake(m) && !spec_policy_compatible(
        g.configuration.incoming_wire_format_policy,
        spec_wire_format(m),
    ) {
        Some(ProcessMessageError::IncompatibleWireFormat)
    } else {
        match spec_framing_error(g, m) {
            Some(e) => Some(ProcessMessageError::ValidationError(e)),
            None => match spec_decrypt_error(g, m) {
                Some(e) => Some(ProcessMessageError::ValidationError(e)),
                None => match spec_verify_error(g, m) {
                    Some(e) => Some(ProcessMessageError::ValidationError(e)),
                    None => None,
                },
            },
        }
    }
}

impl IncomingWireFormatPolicy {
    /// Whether this policy accepts the given incoming wire format.
    pub fn is_compatible_with(&self, wire_format: WireFormat) -> (r: bool)
        ensures
            r == spec_policy_compatible(*self, wire_format),
    {
        match self {
            IncomingWireFormatPolicy::AlwaysCiphertext => matches!(
                wire_format,
                WireFormat::PrivateMessage
            ),
            IncomingWireFormatPolicy::AlwaysPlaintext => matches!(
                wire_format,
                WireFormat::PublicMessage
            ),
            IncomingWireFormatPolicy::Mixed => true,
        }
    }
}

impl ProtocolMessage {
    /// The wire format this message arrived in.
    pub fn wire_format(&self) -> (r: WireFormat)
        ensures
            r == spec_wire_format(*self),
    {
        match self {
            ProtocolMessage::PublicMessage(_) => WireFormat::PublicMessage,
            ProtocolMessage::PrivateMessage(_) => WireFormat::PrivateMessage,
        }
    }

    /// The group this message names.
    pub fn group_id(&self) -> (r: u64)
        ensures
            r == spec_msg_group_id(*self),
    {
        match self {
            ProtocolMessage::PublicMessage(pm) => pm.content.group_id,
            ProtocolMessage::PrivateMessage(cm) => cm.group_id,
        }
    }

    /// The epoch this message was framed under.
    pub fn epoch(&self) -> (r: u64)
        ensures
            r == spec_msg_epoch(*self),
    {
        match self {
            ProtocolMessage::PublicMessage(pm) => pm.content.epoch,
            ProtocolMessage::PrivateMessage(cm) => cm.epoch,
        }
    }

    /// Whether this is a handshake message (a proposal or a commit).
    pub fn is_handshake_message(&self) -> (r: bool)
        ensures
            r == spec_is_handshake(*self),
    {
        match self {
            ProtocolMessage::PublicMessage(pm) => !matches!(
                pm.content.body,
                FramedContentBody::Application(_)
            ),
            ProtocolMessage::PrivateMessage(cm) => !matches!(
                cm.body,
                FramedContentBody::Application(_)
            ),
        }
    }

    /// Whether this message originates outside the current membership.
    pub fn is_external(&self) -> (r: bool)
        ensures
            r == spec_is_external(*self),
    {
        match self {
            ProtocolMessage::PublicMessage(pm) => !matches!(pm.content.sender, Sender::Member(_)),
            ProtocolMessage::PrivateMessage(_) => false,
        }
    }
}

/// Whether a ratchet generation lies within the tolerated window.
pub fn generation_in_window(
    generation: u32,
    current: u32,
    cfg: &SenderRatchetConfiguration,
) -> (r: bool)
    ensures
        r == spec_generation_in_window(generation, current, *cfg),
{
    let not_too_old: bool = generation as u64 + cfg.out_of_order_tolerance as u64 >= current as u64;
    let not_too_new: bool = generation as u64 <= current as u64
        + cfg.maximum_forward_distance as u64;
    not_too_old && not_too_new
}

impl MlsGroup {
    /// Validates a message's framing: group, epoch bound, and known sender.
    pub fn validate_framing(&self, message: &ProtocolMessage) -> (r: Result<(), ValidationError>)
        ensures
            r == match spec_framing_error(*self, *message) {
                Some(e) => Result::<(), ValidationError>::Err(e),
                None => Result::<(), ValidationError>::Ok(()),
            },
    {
        if message.group_id() != self.group_id {
            return Err(ValidationError::WrongGroupId);
        }
        if message.epoch() > self.epoch {
            return Err(ValidationError::WrongEpoch);
        }
        let known: bool = match message {
            ProtocolMessage::PublicMessage(pm) => match pm.content.sender {
                Sender::Member(i) => i < self.leaves.len() && matches!(
                    self.leaves[i],
                    Leaf::Member(_)
                ),
                Sender::External(i) => i < self.external_senders.len(),
                Sender::NewMemberProposal => true,
                Sender::NewMemberCommit => true,
            },
            ProtocolMessage::PrivateMessage(cm) => cm.sender_leaf < self.leaves.len() && matches!(
                self.leaves[cm.sender_leaf],
                Leaf::Member(_)
            ),
        };
        if !known {
            return Err(ValidationError::UnknownSender);
        }
        Ok(())
    }

    /// Performs framing validation and, for private framing, decryption.
    /// Rejection leaves the group untouched; an epoch older than the
    /// retained window fails with the distinct no-past-epoch-data error.
    pub fn decrypt_message(
        &mut self,
        message: ProtocolMessage,
        sender_ratchet_configuration: &SenderRatchetConfiguration,
    ) -> (r: Result<DecryptedMessage, ValidationError>)
        requires
            old(self).configuration.sender_ratchet_configuration
                == *sender_ratchet_configuration,
        ensures
            *final(self) == *old(self),
            r == match spec_framing_error(*old(self), message) {
                Some(e) => Result::<DecryptedMessage, ValidationError>::Err(e),
                None => match spec_decrypt_error(*old(self), message) {
                    Some(e) => Result::<DecryptedMessage, ValidationError>::Err(e),
                    None => Result::<DecryptedMessage, ValidationError>::Ok(DecryptedMessage {
                        content: spec_authenticated_content(message),
                        signature: spec_msg_signature(message),
                        credential: spec_msg_claimed_credential(message),
                    }),
                },
            },
    {
        if let Err(e) = self.validate_framing(&message) {
            return Err(e);
        }
        match message {
            ProtocolMessage::PublicMessage(pm) => {
                let secret: u64 = match self.message_secrets_for_epoch(pm.content.epoch) {
                    Some(s) => s,
                    None => {
                        return Err(ValidationError::NoPastEpochData);
                    },
                };
                if matches!(pm.content.sender, Sender::Member(_)) {
                    match pm.membership_tag {
                        None => {
                            return Err(ValidationError::MissingMembershipTag);
                        },
                        Some(tag) => {
                            if tag != secret {
                                return Err(ValidationError::InvalidMembershipTag);
                            }
                        },
                    }
                }
                Ok(DecryptedMessage {
                    content: pm.content,
                    signature: pm.signature,
                    credential: pm.credential,
                })
            },
            ProtocolMessage::PrivateMessage(cm) => {
                let secret: u64 = match self.message_secrets_for_epoch(cm.epoch) {
                    Some(s) => s,
                    None => {
                        return Err(ValidationError::NoPastEpochData);
                    },
                };
                if cm.aead_tag != secret {
                    return Err(ValidationError::UnableToDecrypt);
                }
                let current: u32 = match self.leaves[cm.sender_leaf] {
                    Leaf::Member(mem) => mem.ratchet_generation,
                    Leaf::Blank => {
                        return Err(ValidationError::UnknownSender);
                    },
                };
                if !generation_in_window(cm.generation, current, sender_ratchet_configuration) {
                    return Err(ValidationError::GenerationOutOfBound);
                }
                Ok(DecryptedMessage {
                    content: AuthenticatedContent {
                        group_id: cm.group_id,
                        epoch: cm.epoch,
                        sender: Sender::Member(cm.sender_leaf),
                        authenticated_data: cm.authenticated_data,
                        body: cm.body,
                    },
                    signature: cm.signature,
                    credential: None,
                })
            },
        }
    }

    /// Verifies a decrypted message's sender/content compatibility, carried
    /// credential and signature, resolving the sender's credential.
    fn verify_content(&self, decrypted: DecryptedMessage, ghost_message: Ghost<ProtocolMessage>) -> (r:
        Result<(AuthenticatedContent, Credential), ValidationError>)
        requires
            spec_framing_error(*self, ghost_message@) is None,
            decrypted.content == spec_authenticated_content(ghost_message@),
            decrypted.signature == spec_msg_signature(ghost_message@),
            decrypted.credential == spec_msg_claimed_credential(ghost_message@),
        ensures
            r == match spec_verify_error(*self, ghost_message@) {
                Some(e) => Result::<(AuthenticatedContent, Credential), ValidationError>::Err(e),
                None => Result::<(AuthenticatedContent, Credential), ValidationError>::Ok(
                    (
                        spec_authenticated_content(ghost_message@),
                        spec_resolved_credential(*self, ghost_message@),
                    ),
                ),
            },
    {
        let sender: Sender = decrypted.content.sender;
        let kind_ok: bool = match sender {
            Sender::NewMemberProposal => matches!(
                decrypted.content.body,
                FramedContentBody::Proposal(_)
            ),
            Sender::NewMemberCommit => matches!(decrypted.content.body, FramedContentBody::Commit(_)),
            Sender::Member(_) => true,
            Sender::External(_) => true,
        };
        if !kind_ok {
            return Err(ValidationError::InvalidSenderContentType);
        }
        let resolved: Credential = match sender {
            Sender::Member(i) => {
                if i >= self.leaves.len() {
                    return Err(ValidationError::UnknownSender);
                }
                match self.leaves[i] {
                    Leaf::Member(mem) => mem.credential,
                    Leaf::Blank => {
                        return Err(ValidationError::UnknownSender);
                    },
                }
            },
            Sender::External(i) => {
                if i >= self.external_senders.len() {
                    return Err(ValidationError::UnknownSender);
                }
                self.external_senders[i]
            },
            Sender::NewMemberProposal => match decrypted.credential {
                Some(c) => c,
                None => {
                    return Err(ValidationError::InvalidCredential);
                },
            },
            Sender::NewMemberCommit => match decrypted.credential {
                Some(c) => c,
                None => {
                    return Err(ValidationError::InvalidCredential);
                },
            },
        };
        if matches!(sender, Sender::Member(_)) || matches!(sender, Sender::External(_)) {
            if let Some(claimed) = decrypted.credential {
                if claimed != resolved {
                    return Err(ValidationError::InvalidCredential);
                }
            }
        }
        if decrypted.signature != resolved.signature_key {
            return Err(ValidationError::InvalidSignature);
        }
        Ok((decrypted.content, resolved))
    }

    /// Decrypts a message and verifies its signature, returning the
    /// authenticated content and the sender's resolved credential.  A
    /// rejected message leaves the group byte-identical.
    pub fn decrypt_and_verify_message(&mut self, message: ProtocolMessage) -> (r: Result<
        (AuthenticatedContent, Credential),
        ProcessMessageError,
    >)
        ensures
            *final(self) == *old(self),
            r == match spec_decrypt_verify_error(*old(self), message) {
                Some(e) => Result::<(AuthenticatedContent, Credential), ProcessMessageError>::Err(
                    e,
                ),
                None => Result::<(AuthenticatedContent, Credential), ProcessMessageError>::Ok(
                    (
                        spec_authenticated_content(message),
                        spec_resolved_credential(*old(self), message),
                    ),
                ),
            },
    {
        if !self.is_active() {
            return Err(ProcessMessageError::GroupStateError(
                MlsGroupStateError::UseAfterEviction,
            ));
        }
        if !message.is_external() && message.is_handshake_message()
            && !self.configuration.incoming_wire_format_policy.is_compatible_with(
            message.wire_format(),
        ) {
            return Err(ProcessMessageError::IncompatibleWireFormat);
        }
        let ghost ghost_message: ProtocolMessage = message;
        let sender_ratchet_configuration: SenderRatchetConfiguration =
            self.configuration.sender_ratchet_configuration;
        let decrypted: DecryptedMessage = match self.decrypt_message(
            message,
            &sender_ratchet_configuration,
        ) {
            Ok(d) => d,
            Err(e) => {
                return Err(ProcessMessageError::ValidationError(e));
            },
        };
        match self.verify_content(decrypted, Ghost(ghost_message)) {
            Ok(pair) => Ok(pair),
            Err(e) => Err(ProcessMessageError::ValidationError(e)),
        }
    }
}

} // verus!
