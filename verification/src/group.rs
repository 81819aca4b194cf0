//! The group: its ratchet tree, state machine, retained message secrets,
//! proposal store and resumption pre-shared-key store.

use vstd::prelude::*;

use crate::errors::MlsGroupStateError;
use crate::types::{
    Credential, GroupConfiguration, Leaf, LeafNode, MessageSecrets, MlsGroupState, PskEntry,
    QueuedProposal,
};

verus! {

/// Finds the retained message secret of an epoch, front to back.
pub open spec fn spec_find_secret(s: Seq<MessageSecrets>, epoch: u64) -> Option<u64>
    decreases s.len(),
{
    if s.len() == 0 {
        None
    } else if s[0].epoch == epoch {
        Some(s[0].secret)
    } else {
        spec_find_secret(s.drop_first(), epoch)
    }
}

/// Finds the first queued proposal with the given reference, front to back.
pub open spec fn spec_find_proposal(s: Seq<QueuedProposal>, reference: u64) -> Option<
    QueuedProposal,
>
    decreases s.len(),
{
    if s.len() == 0 {
        None
    } else if s[0].proposal_reference == reference {
        Some(s[0])
    } else {
        spec_find_proposal(s.drop_first(), reference)
    }
}

/// Finds the resumption pre-shared key of an epoch, front to back.
pub open spec fn spec_find_psk(s: Seq<PskEntry>, epoch: u64) -> Option<u64>
    decreases s.len(),
{
    if s.len() == 0 {
        None
    } else if s[0].epoch == epoch {
        Some(s[0].secret)
    } else {
        spec_find_psk(s.drop_first(), epoch)
    }
}

/// Proposals pending inclusion in a future commit, deduplicated by their
/// content-derived reference.
#[derive(Debug)]
pub struct ProposalStore {
    pub proposals: Vec<QueuedProposal>,
}

impl ProposalStore {
    /// Whether a proposal with this reference is already stored.
    pub open spec fn spec_contains_reference(self, reference: u64) -> bool {
        spec_find_proposal(self.proposals@, reference) is Some
    }

    /// Adds a proposal unless one with the same reference is already stored.
    pub fn add(&mut self, proposal: QueuedProposal)
        ensures
            final(self).proposals@ == if old(self).spec_contains_reference(
                proposal.proposal_reference,
            ) {
                old(self).proposals@
            } else {
                old(self).proposals@.push(proposal)
            },
    {
        if self.find(proposal.proposal_reference).is_none() {
            self.proposals.push(proposal);
        }
    }

    /// Looks up a stored proposal by its reference.
    pub fn find(&self, reference: u64) -> (r: Option<QueuedProposal>)
        ensures
            r == spec_find_proposal(self.proposals@, reference),
    {
        let ghost all: Seq<QueuedProposal> = self.proposals@;
        let mut i: usize = 0;
        assert(all.skip(0) =~= all);
        while i < self.proposals.len()
            invariant
                i <= self.proposals.len(),
                all == self.proposals@,
                spec_find_proposal(all, reference) == spec_find_proposal(
                    all.skip(i as int),
                    reference,
                ),
            decreases self.proposals.len() - i,
        {
            let candidate: QueuedProposal = self.proposals[i];
            assert(all.skip(i as int)[0] == candidate);
            if candidate.proposal_reference == reference {
                return Some(candidate);
            }
            assert(all.skip(i as int).drop_first() =~= all.skip(i as int + 1));
            i = i + 1;
        }
        assert(all.skip(i as int) =~= Seq::<QueuedProposal>::empty());
        None
    }

    /// Discards every stored proposal.
    pub fn clear(&mut self)
        ensures
            final(self).proposals@ == Seq::<QueuedProposal>::empty(),
    {
        self.proposals.clear();
    }
}

/// The epoch-indexed store of resumption pre-shared keys, append-only per
/// epoch and bounded by a retention limit.
#[derive(Debug)]
pub struct ResumptionPskStore {
    /// How many entries are retained; the oldest entry leaves first.
    pub max_entries: usize,
    pub entries: Vec<PskEntry>,
}

/// What a bounded resumption store holds after appending one entry: the
/// entry joins at the back, and the oldest entry leaves once the retention
/// limit is reached.
pub open spec fn spec_psk_added(entries: Seq<PskEntry>, max_entries: usize, entry: PskEntry) -> Seq<
    PskEntry,
> {
    if entries.len() >= max_entries && entries.len() > 0 {
        entries.drop_first().push(entry)
    } else {
        entries.push(entry)
    }
}

impl ResumptionPskStore {
    /// Appends the resumption key of a new epoch, evicting the oldest entry
    /// once the retention limit is reached.
    pub fn add(&mut self, epoch: u64, secret: u64)
        ensures
            final(self).max_entries == old(self).max_entries,
            final(self).entries@ == spec_psk_added(
                old(self).entries@,
                old(self).max_entries,
                PskEntry { epoch, secret },
            ),
    {
        if self.entries.len() >= self.max_entries && self.entries.len() > 0 {
            self.entries.remove(0);
        }
        self.entries.push(PskEntry { epoch, secret });
    }

    /// Looks up the resumption key stored for an epoch.
    pub fn get(&self, epoch: u64) -> (r: Option<u64>)
        ensures
            r == spec_find_psk(self.entries@, epoch),
    {
        let ghost all: Seq<PskEntry> = self.entries@;
        let mut i: usize = 0;
        assert(all.skip(0) =~= all);
        while i < self.entries.len()
            invariant
                i <= self.entries.len(),
                all == self.entries@,
                spec_find_psk(all, epoch) == spec_find_psk(all.skip(i as int), epoch),
            decreases self.entries.len() - i,
        {
            let candidate: PskEntry = self.entries[i];
            assert(all.skip(i as int)[0] == candidate);
            if candidate.epoch == epoch {
                return Some(candidate.secret);
            }
            assert(all.skip(i as int).drop_first() =~= all.skip(i as int + 1));
            i = i + 1;
        }
        assert(all.skip(i as int) =~= Seq::<PskEntry>::empty());
        None
    }
}

/// One member's view of one messaging group: the live epoch state, the
/// group state machine, and the transient material processing needs.
#[derive(Debug)]
pub struct MlsGroup {
    pub group_id: u64,
    /// The current epoch.
    pub epoch: u64,
    /// The ratchet tree, one leaf per (possibly blank) position.
    pub leaves: Vec<Leaf>,
    /// The leaf index this member occupies.
    pub own_leaf_index: usize,
    /// Credentials of configured external (non-member) senders.
    pub external_senders: Vec<Credential>,
    /// The group state machine; `Inactive` is terminal.
    pub group_state: MlsGroupState,
    pub configuration: GroupConfiguration,
    /// The current epoch's message secrets.
    pub epoch_secret: u64,
    /// Message secrets retained for past epochs, oldest first, bounded by
    /// `configuration.max_past_epochs`.
    pub past_message_secrets: Vec<MessageSecrets>,
    /// Resumption pre-shared keys, one per merged epoch.
    pub resumption_psk_store: ResumptionPskStore,
    /// The member's own pending leaf updates, superseded at the next merge.
    pub own_leaf_nodes: Vec<LeafNode>,
    /// Proposals awaiting a covering commit.
    pub proposal_store: ProposalStore,
}

impl MlsGroup {
    /// Whether the member is still an active participant of the group.
    pub open spec fn spec_is_active(self) -> bool {
        !(self.group_state is Inactive)
    }

    /// The message secret in effect for an epoch, if it is the current epoch
    /// or still within the retained window.
    pub open spec fn spec_secret_for_epoch(self, epoch: u64) -> Option<u64> {
        if epoch == self.epoch {
            Some(self.epoch_secret)
        } else {
            spec_find_secret(self.past_message_secrets@, epoch)
        }
    }

    /// Whether the member is still an active participant of the group.
    pub fn is_active(&self) -> (r: bool)
        ensures
            r == self.spec_is_active(),
    {
        !matches!(self.group_state, MlsGroupState::Inactive)
    }

    /// Fails unless the group is operational: evicted members may do nothing,
    /// and a pending local commit must be merged or cleared first.
    pub fn is_operational(&self) -> (r: Result<(), MlsGroupStateError>)
        ensures
            r == match self.group_state {
                MlsGroupState::Operational => Result::<(), MlsGroupStateError>::Ok(()),
                MlsGroupState::PendingCommit(_) => Result::<(), MlsGroupStateError>::Err(
                    MlsGroupStateError::PendingCommit,
                ),
                MlsGroupState::Inactive => Result::<(), MlsGroupStateError>::Err(
                    MlsGroupStateError::UseAfterEviction,
                ),
            },
    {
        match &self.group_state {
            MlsGroupState::Operational => Ok(()),
            MlsGroupState::PendingCommit(_) => Err(MlsGroupStateError::PendingCommit),
            MlsGroupState::Inactive => Err(MlsGroupStateError::UseAfterEviction),
        }
    }

    /// Looks up the message secret retained for an epoch.  Epochs older than
    /// the retained window fail with the distinct no-past-epoch-data answer.
    pub fn message_secrets_for_epoch(&self, epoch: u64) -> (r: Option<u64>)
        ensures
            r == self.spec_secret_for_epoch(epoch),
    {
        if epoch == self.epoch {
            return Some(self.epoch_secret);
        }
        let ghost all: Seq<MessageSecrets> = self.past_message_secrets@;
        let mut i: usize = 0;
        assert(all.skip(0) =~= all);
        while i < self.past_message_secrets.len()
            invariant
                i <= self.past_message_secrets.len(),
                all == self.past_message_secrets@,
                epoch != self.epoch,
                spec_find_secret(all, epoch) == spec_find_secret(all.skip(i as int), epoch),
            decreases self.past_message_secrets.len() - i,
        {
            let candidate: MessageSecrets = self.past_message_secrets[i];
            assert(all.skip(i as int)[0] == candidate);
            if candidate.epoch == epoch {
                assert(spec_find_secret(all.skip(i as int), epoch) == Some(candidate.secret));
                return Some(candidate.secret);
            }
            assert(all.skip(i as int).drop_first() =~= all.skip(i as int + 1));
            i = i + 1;
        }
        assert(all.skip(i as int) =~= Seq::<MessageSecrets>::empty());
        None
    }
}

} // verus!
