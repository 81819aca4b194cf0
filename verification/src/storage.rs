//! The storage collaborator: a transactional key-value store for one group,
//! realized in memory so that every persistence step is verified.
//!
//! Each call is independently fallible in its signature, as the interface
//! demands; this in-memory realization itself never fails, and each contract
//! says exactly what the store holds afterwards.

use vstd::prelude::*;

use crate::types::{EncryptionKeyPair, GroupStateKind, MlsGroupState, PskEntry, QueuedProposal};
use crate::types::{spec_state_kind, state_kind};
use crate::errors::StorageError;

verus! {

/// Finds the first key pair whose public key matches, front to back.
pub open spec fn spec_find_keypair(s: Seq<EncryptionKeyPair>, public_key: u64) -> Option<
    EncryptionKeyPair,
>
    decreases s.len(),
{
    if s.len() == 0 {
        None
    } else if s[0].public_key == public_key {
        Some(s[0])
    } else {
        spec_find_keypair(s.drop_first(), public_key)
    }
}

/// Durable state of one group, keyed by purpose.
#[derive(Debug)]
pub struct Storage {
    /// The persisted image of the group state, abstracted to its variant.
    pub group_state: GroupStateKind,
    /// Proposals queued for a future commit.
    pub proposals: Vec<QueuedProposal>,
    /// The persisted resumption pre-shared-key store.
    pub resumption_psks: Vec<PskEntry>,
    /// Decryption key pairs of the previous epoch.
    pub epoch_keypairs: Vec<EncryptionKeyPair>,
    /// Decryption key pairs of the member's own pending leaf updates.
    pub leaf_keypairs: Vec<EncryptionKeyPair>,
}

impl Storage {
    /// Persists the group state record.
    pub fn write_group_state(&mut self, group_id: u64, state: &MlsGroupState) -> (r: Result<
        (),
        StorageError,
    >)
        ensures
            r is Ok,
            final(self).group_state == spec_state_kind(*state),
            final(self).proposals == old(self).proposals,
            final(self).resumption_psks == old(self).resumption_psks,
            final(self).epoch_keypairs == old(self).epoch_keypairs,
            final(self).leaf_keypairs == old(self).leaf_keypairs,
    {
        self.group_state = state_kind(state);
        Ok(())
    }

    /// Appends a queued proposal under its reference.
    pub fn queue_proposal(&mut self, group_id: u64, proposal_reference: u64, proposal: &QueuedProposal) -> (r:
        Result<(), StorageError>)
        ensures
            r is Ok,
            final(self).proposals@ == old(self).proposals@.push(*proposal),
            final(self).group_state == old(self).group_state,
            final(self).resumption_psks == old(self).resumption_psks,
            final(self).epoch_keypairs == old(self).epoch_keypairs,
            final(self).leaf_keypairs == old(self).leaf_keypairs,
    {
        self.proposals.push(*proposal);
        Ok(())
    }

    /// Deletes every queued proposal; they were consumed by a merged commit.
    pub fn clear_proposals(&mut self, group_id: u64) -> (r: Result<(), StorageError>)
        ensures
            r is Ok,
            final(self).proposals@ == Seq::<QueuedProposal>::empty(),
            final(self).group_state == old(self).group_state,
            final(self).resumption_psks == old(self).resumption_psks,
            final(self).epoch_keypairs == old(self).epoch_keypairs,
            final(self).leaf_keypairs == old(self).leaf_keypairs,
    {
        self.proposals.clear();
        Ok(())
    }

    /// Persists the resumption pre-shared-key store.
    pub fn write_resumption_psk_store(&mut self, group_id: u64, entries: &Vec<PskEntry>) -> (r:
        Result<(), StorageError>)
        ensures
            r is Ok,
            final(self).resumption_psks@ == entries@,
            final(self).group_state == old(self).group_state,
            final(self).proposals == old(self).proposals,
            final(self).epoch_keypairs == old(self).epoch_keypairs,
            final(self).leaf_keypairs == old(self).leaf_keypairs,
    {
        let mut copied: Vec<PskEntry> = Vec::new();
        let mut i: usize = 0;
        while i < entries.len()
            invariant
                i <= entries.len(),
                copied@ == entries@.subrange(0, i as int),
            decreases entries.len() - i,
        {
            copied.push(entries[i]);
            assert(copied@ =~= entries@.subrange(0, i as int + 1));
            i = i + 1;
        }
        assert(copied@ =~= entries@);
        self.resumption_psks = copied;
        Ok(())
    }

    /// Deletes all of the member's own pending leaf key pairs.
    pub fn delete_own_leaf_nodes(&mut self, group_id: u64) -> (r: Result<(), StorageError>)
        ensures
            r is Ok,
            final(self).leaf_keypairs@ == Seq::<EncryptionKeyPair>::empty(),
            final(self).group_state == old(self).group_state,
            final(self).proposals == old(self).proposals,
            final(self).resumption_psks == old(self).resumption_psks,
            final(self).epoch_keypairs == old(self).epoch_keypairs,
    {
        self.leaf_keypairs.clear();
        Ok(())
    }

    /// Reads the previous epoch's decryption key pairs.
    pub fn read_epoch_keypairs(&self) -> (r: Vec<EncryptionKeyPair>)
        ensures
            r@ == self.epoch_keypairs@,
    {
        let mut copied: Vec<EncryptionKeyPair> = Vec::new();
        let mut i: usize = 0;
        while i < self.epoch_keypairs.len()
            invariant
                i <= self.epoch_keypairs.len(),
                copied@ == self.epoch_keypairs@.subrange(0, i as int),
            decreases self.epoch_keypairs.len() - i,
        {
            copied.push(self.epoch_keypairs[i]);
            assert(copied@ =~= self.epoch_keypairs@.subrange(0, i as int + 1));
            i = i + 1;
        }
        assert(copied@ =~= self.epoch_keypairs@);
        copied
    }

    /// Looks up an own pending leaf key pair by its public key.
    pub fn encryption_key_pair(&self, public_key: u64) -> (r: Option<EncryptionKeyPair>)
        ensures
            r == spec_find_keypair(self.leaf_keypairs@, public_key),
    {
        let ghost all: Seq<EncryptionKeyPair> = self.leaf_keypairs@;
        let mut i: usize = 0;
        assert(all.skip(0) =~= all);
        while i < self.leaf_keypairs.len()
            invariant
                i <= self.leaf_keypairs.len(),
                all == self.leaf_keypairs@,
                spec_find_keypair(all, public_key) == spec_find_keypair(
                    all.skip(i as int),
                    public_key,
                ),
            decreases self.leaf_keypairs.len() - i,
        {
            let candidate: EncryptionKeyPair = self.leaf_keypairs[i];
            assert(all.skip(i as int)[0] == candidate);
            if candidate.public_key == public_key {
                return Some(candidate);
            }
            assert(all.skip(i as int).drop_first() =~= all.skip(i as int + 1));
            i = i + 1;
        }
        assert(all.skip(i as int) =~= Seq::<EncryptionKeyPair>::empty());
        None
    }
}

} // verus!
