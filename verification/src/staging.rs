//! The commit stager: computes the prospective next-epoch state from a
//! commit's content without mutating the live group.
//!
//! Checks, in order: the commit is for the current epoch, every referenced
//! proposal resolves, no two covered proposals target the same leaf, removed
//! leaves are occupied and the committer does not remove itself, every
//! covered proposal kind is supported by every current member, every
//! referenced pre-shared key resolves, and a carried path has the
//! structurally correct length, decrypts under a held key pair, and claims
//! node keys matching those recomputed from the decrypted path secret.
//! Failure at any check aborts staging with no group-state mutation.

use vstd::prelude::*;

use crate::errors::StageCommitError;
use crate::group::{MlsGroup, ProposalStore, spec_find_proposal};
use crate::storage::spec_find_keypair;
use crate::types::{
    AuthenticatedContent, Commit, Credential, EncryptionKeyPair, Leaf, Member, Proposal,
    QueuedProposal, ResolvedPsk, Sender, StagedCommit, UpdatePath, spec_direct_path_len,
    spec_next_epoch_secret, spec_node_key, spec_proposal_type_bit, spec_resumption_psk,
    spec_supports, direct_path_len, next_epoch_secret, node_key, proposal_type_bit,
    resumption_psk,
};

verus! {

/// Whether every commit-referenced proposal is present in the store.
pub open spec fn spec_all_refs_resolve(store: Seq<QueuedProposal>, refs: Seq<u64>) -> bool {
    forall|k: int| 0 <= k < refs.len() ==> spec_find_proposal(store, refs[k]) is Some
}

/// The proposals a commit covers, in reference order.
pub open spec fn spec_covered(store: Seq<QueuedProposal>, refs: Seq<u64>) -> Seq<QueuedProposal> {
    Seq::new(refs.len(), |k: int| spec_find_proposal(store, refs[k])->Some_0)
}

/// The leaf a proposal targets: the removed leaf for a removal, the sender's
/// own leaf for an update.
pub open spec fn spec_target_of(q: QueuedProposal) -> Option<int> {
    match q.proposal {
        Proposal::Remove(t) => Some(t as int),
        Proposal::Update(_) => match q.sender {
            Sender::Member(s) => Some(s as int),
            _ => None,
        },
        _ => None,
    }
}

/// Mutual compatibility: no two covered proposals target the same leaf.
pub open spec fn spec_no_conflicts(c: Seq<QueuedProposal>) -> bool {
    forall|a: int, b: int|
        0 <= a < b < c.len() ==> (spec_target_of(c[a]) is None || spec_target_of(c[a])
            != spec_target_of(c[b]))
}

/// Every removal targets an occupied leaf, and the committer (when it is a
/// member) does not remove itself.
pub open spec fn spec_remove_targets_ok(
    c: Seq<QueuedProposal>,
    leaves: Seq<Leaf>,
    committer: Option<usize>,
) -> bool {
    forall|k: int|
        0 <= k < c.len() ==> ((#[trigger] c[k]).proposal matches Proposal::Remove(t)
            ==> t < leaves.len() && leaves[t as int] is Member && (committer matches Some(ci)
            ==> t != ci))
}

/// Whether one member supports the kind of every covered proposal.
pub open spec fn spec_member_supports_all(c: Seq<QueuedProposal>, mem: Member) -> bool {
    forall|k: int|
        0 <= k < c.len() ==> spec_supports(mem.capabilities, spec_proposal_type_bit(c[k].proposal))
}

/// Whether every current member supports every covered proposal's kind.
pub open spec fn spec_supported_by_all(c: Seq<QueuedProposal>, leaves: Seq<Leaf>) -> bool {
    forall|j: int|
        0 <= j < leaves.len() ==> ((#[trigger] leaves[j]) matches Leaf::Member(mem)
            ==> spec_member_supports_all(c, mem))
}

/// Finds the secret a resolved pre-shared-key list holds for an identifier.
pub open spec fn spec_find_resolved(s: Seq<ResolvedPsk>, psk_id: u64) -> Option<u64>
    decreases s.len(),
{
    if s.len() == 0 {
        None
    } else if s[0].psk_id == psk_id {
        Some(s[0].secret)
    } else {
        spec_find_resolved(s.drop_first(), psk_id)
    }
}

/// Every covered pre-shared-key proposal resolves in the supplied list.
pub open spec fn spec_psks_resolved(c: Seq<QueuedProposal>, psks: Seq<ResolvedPsk>) -> bool {
    forall|k: int|
        0 <= k < c.len() ==> ((#[trigger] c[k]).proposal matches Proposal::PreSharedKey(id)
            ==> spec_find_resolved(psks, id) is Some)
}

/// The committer's own leaf, when the committer is a member.
pub open spec fn spec_committer(sender: Sender) -> Option<usize> {
    match sender {
        Sender::Member(i) => Some(i),
        _ => None,
    }
}

/// The commit secret a commit contributes: its path secret, or zero for a
/// path-less commit.
pub open spec fn spec_commit_secret(commit: Commit) -> u64 {
    match commit.path {
        Some(p) => p.path_secret,
        None => 0,
    }
}

/// Whether a covered proposal removes the given leaf.
pub open spec fn spec_is_remove_of(q: QueuedProposal, i: int) -> bool {
    q.proposal matches Proposal::Remove(t) && t as int == i
}

/// Whether a covered proposal is an update of the member at the given leaf.
pub open spec fn spec_is_update_for(q: QueuedProposal, i: int) -> bool {
    q.proposal is Update && (q.sender matches Sender::Member(s) && s as int == i)
}

/// The new key an update proposal carries.
pub open spec fn spec_update_key_of(q: QueuedProposal) -> u64 {
    match q.proposal {
        Proposal::Update(k) => k,
        _ => 0,
    }
}

/// What one existing leaf becomes under the covered proposals: blanked by a
/// removal, rekeyed by its member's update, otherwise unchanged.
pub open spec fn spec_new_leaf(leaves: Seq<Leaf>, c: Seq<QueuedProposal>, i: int) -> Leaf {
    if exists|k: int| 0 <= k < c.len() && spec_is_remove_of(c[k], i) {
        Leaf::Blank
    } else if exists|k: int| 0 <= k < c.len() && spec_is_update_for(c[k], i) {
        let k = choose|k: int| 0 <= k < c.len() && spec_is_update_for(c[k], i);
        match leaves[i] {
            Leaf::Member(mem) => Leaf::Member(
                Member { encryption_key: spec_update_key_of(c[k]), ..mem },
            ),
            Leaf::Blank => Leaf::Blank,
        }
    } else {
        leaves[i]
    }
}

/// The leaves appended for the covered additions, in proposal order.
pub open spec fn spec_adds(c: Seq<QueuedProposal>) -> Seq<Leaf>
    decreases c.len(),
{
    if c.len() == 0 {
        Seq::empty()
    } else {
        spec_adds(c.drop_last()) + (match c.last().proposal {
            Proposal::Add(m) => seq![Leaf::Member(m)],
            _ => Seq::<Leaf>::empty(),
        })
    }
}

/// The tree after applying the covered proposals: existing leaves
/// transformed in place, additions appended.
pub open spec fn spec_base_leaves(leaves: Seq<Leaf>, c: Seq<QueuedProposal>) -> Seq<Leaf> {
    Seq::new(leaves.len(), |i: int| spec_new_leaf(leaves, c, i)) + spec_adds(c)
}

/// The tree after also installing the committer's fresh leaf key: a member
/// committer is rekeyed in place, an externally joining committer is
/// appended.
pub open spec fn spec_staged_leaves(
    leaves: Seq<Leaf>,
    c: Seq<QueuedProposal>,
    sender: Sender,
    credential: Credential,
    commit: Commit,
) -> Seq<Leaf> {
    let base = spec_base_leaves(leaves, c);
    match sender {
        Sender::Member(ci) => match commit.path {
            Some(p) => if ci < base.len() {
                match base[ci as int] {
                    Leaf::Member(mem) => base.update(
                        ci as int,
                        Leaf::Member(Member { encryption_key: p.leaf_encryption_key, ..mem }),
                    ),
                    Leaf::Blank => base,
                }
            } else {
                base
            },
            None => base,
        },
        Sender::NewMemberCommit => match commit.path {
            Some(p) => base.push(
                Leaf::Member(
                    Member {
                        credential,
                        encryption_key: p.leaf_encryption_key,
                        capabilities: 0xffffffffffffffff,
                        ratchet_generation: 0,
                    },
                ),
            ),
            None => base,
        },
        _ => base,
    }
}

/// Whether the covered proposals remove the processing member itself.
pub open spec fn spec_self_removed(c: Seq<QueuedProposal>, own_leaf_index: usize) -> bool {
    exists|k: int| 0 <= k < c.len() && spec_is_remove_of(c[k], own_leaf_index as int)
}

/// The first failing commit check, in order, or `None` when the commit
/// stages successfully.
pub open spec fn spec_stage_commit_error(
    g: MlsGroup,
    epoch: u64,
    sender: Sender,
    commit: Commit,
    psks: Seq<ResolvedPsk>,
    old_epoch_keypairs: Seq<EncryptionKeyPair>,
    leaf_node_keypairs: Seq<EncryptionKeyPair>,
) -> Option<StageCommitError> {
    if epoch != g.epoch {
        Some(StageCommitError::EpochMismatch)
    } else if g.epoch == u64::MAX {
        Some(StageCommitError::LibraryError)
    } else if !spec_all_refs_resolve(g.proposal_store.proposals@, commit.proposal_refs@) {
        Some(StageCommitError::MissingProposal)
    } else {
        let c = spec_covered(g.proposal_store.proposals@, commit.proposal_refs@);
        if !spec_no_conflicts(c) {
            Some(StageCommitError::ConflictingProposals)
        } else if !spec_remove_targets_ok(c, g.leaves@, spec_committer(sender)) {
            Some(StageCommitError::InvalidProposal)
        } else if !spec_supported_by_all(c, g.leaves@) {
            Some(StageCommitError::UnsupportedProposalType)
        } else if !spec_psks_resolved(c, psks) {
            Some(StageCommitError::PskError)
        } else if sender is NewMemberCommit && commit.path is None {
            Some(StageCommitError::RequiredPathMissing)
        } else {
            match commit.path {
                None => None,
                Some(p) => if p.node_keys@.len() != spec_direct_path_len(g.leaves@.len()) {
                    Some(StageCommitError::PathLengthMismatch)
                } else if spec_find_keypair(leaf_node_keypairs, p.recipient_encryption_key)
                    is None && spec_find_keypair(old_epoch_keypairs, p.recipient_encryption_key)
                    is None {
                    Some(StageCommitError::PathDecryptionFailure)
                } else if !(forall|k: int|
                    0 <= k < p.node_keys@.len() ==> p.node_keys@[k] == spec_node_key(
                        p.path_secret,
                        k as u64,
                    )) {
                    Some(StageCommitError::PublicKeyMismatch)
                } else {
                    None
                },
            }
        }
    }
}

/// Collects the proposals a commit references, or fails if one is missing.
pub fn collect_covered(store: &ProposalStore, refs: &Vec<u64>) -> (r: Result<
    Vec<QueuedProposal>,
    StageCommitError,
>)
    ensures
        spec_all_refs_resolve(store.proposals@, refs@) ==> (r matches Ok(c) && c@ == spec_covered(
            store.proposals@,
            refs@,
        )),
        !spec_all_refs_resolve(store.proposals@, refs@) ==> r == Result::<
            Vec<QueuedProposal>,
            StageCommitError,
        >::Err(StageCommitError::MissingProposal),
{
    let mut covered: Vec<QueuedProposal> = Vec::new();
    let mut k: usize = 0;
    while k < refs.len()
        invariant
            k <= refs.len(),
            covered@.len() == k as int,
            forall|j: int|
                0 <= j < k ==> spec_find_proposal(store.proposals@, refs@[j]) is Some,
            forall|j: int|
                0 <= j < k ==> covered@[j] == spec_find_proposal(store.proposals@, refs@[j])->Some_0,
        decreases refs.len() - k,
    {
        match store.find(refs[k]) {
            Some(q) => {
                covered.push(q);
            },
            None => {
                return Err(StageCommitError::MissingProposal);
            },
        }
        k = k + 1;
    }
    assert(covered@ =~= spec_covered(store.proposals@, refs@));
    Ok(covered)
}

/// Checks that no two covered proposals target the same leaf.
pub fn check_no_conflicts(c: &Vec<QueuedProposal>) -> (r: bool)
    ensures
        r == spec_no_conflicts(c@),
{
    let mut a: usize = 0;
    while a < c.len()
        invariant
            a <= c.len(),
            forall|x: int, y: int|
                0 <= x < y < c@.len() && x < a ==> (spec_target_of(c@[x]) is None || spec_target_of(
                    c@[x],
                ) != spec_target_of(c@[y])),
        decreases c.len() - a,
    {
        let target_a: Option<usize> = match c[a].proposal {
            Proposal::Remove(t) => Some(t),
            Proposal::Update(_) => match c[a].sender {
                Sender::Member(s) => Some(s),
                _ => None,
            },
            _ => None,
        };
        if let Some(ta) = target_a {
            let mut b: usize = a + 1;
            while b < c.len()
                invariant
                    a < b <= c.len() || b == a + 1,
                    a < c.len(),
                    Some(ta as int) == spec_target_of(c@[a as int]),
                    forall|y: int|
                        a < y < b ==> spec_target_of(c@[a as int]) != spec_target_of(c@[y]),
                decreases c.len() - b,
            {
                let target_b: Option<usize> = match c[b].proposal {
                    Proposal::Remove(t) => Some(t),
                    Proposal::Update(_) => match c[b].sender {
                        Sender::Member(s) => Some(s),
                        _ => None,
                    },
                    _ => None,
                };
                if let Some(tb) = target_b {
                    if ta == tb {
                        return false;
                    }
                }
                b = b + 1;
            }
        }
        a = a + 1;
    }
    true
}

/// Checks removal targets: occupied leaves only, and never the committer.
pub fn check_remove_targets(
    c: &Vec<QueuedProposal>,
    leaves: &Vec<Leaf>,
    committer: Option<usize>,
) -> (r: bool)
    ensures
        r == spec_remove_targets_ok(c@, leaves@, committer),
{
    let mut k: usize = 0;
    while k < c.len()
        invariant
            k <= c.len(),
            forall|j: int|
                0 <= j < k ==> ((#[trigger] c@[j]).proposal matches Proposal::Remove(t)
                    ==> t < leaves@.len() && leaves@[t as int] is Member && (
                    committer matches Some(ci) ==> t != ci)),
        decreases c.len() - k,
    {
        if let Proposal::Remove(t) = c[k].proposal {
            if t >= leaves.len() {
                return false;
            }
            if matches!(leaves[t], Leaf::Blank) {
                return false;
            }
            if let Some(ci) = committer {
                if t == ci {
                    return false;
                }
            }
        }
        k = k + 1;
    }
    true
}

/// Checks that every current member supports every covered proposal's kind.
pub fn check_supported_by_all(c: &Vec<QueuedProposal>, leaves: &Vec<Leaf>) -> (r: bool)
    ensures
        r == spec_supported_by_all(c@, leaves@),
{
    let mut j: usize = 0;
    while j < leaves.len()
        invariant
            j <= leaves.len(),
            forall|x: int|
                0 <= x < j ==> ((#[trigger] leaves@[x]) matches Leaf::Member(mem)
                    ==> spec_member_supports_all(c@, mem)),
        decreases leaves.len() - j,
    {
        if let Leaf::Member(mem) = leaves[j] {
            let mut k: usize = 0;
            while k < c.len()
                invariant
                    k <= c.len(),
                    j < leaves.len(),
                    leaves@[j as int] == Leaf::Member(mem),
                    forall|y: int|
                        0 <= y < k ==> spec_supports(
                            mem.capabilities,
                            spec_proposal_type_bit(c@[y].proposal),
                        ),
                decreases c.len() - k,
            {
                let bit: u64 = proposal_type_bit(&c[k].proposal);
                if mem.capabilities & bit != bit {
                    proof {
                        assert(!spec_supports(
                            mem.capabilities,
                            spec_proposal_type_bit(c@[k as int].proposal),
                        ));
                        assert(!spec_member_supports_all(c@, mem));
                        assert((#[trigger] leaves@[j as int]) matches Leaf::Member(m2)
                            && !spec_member_supports_all(c@, m2));
                    }
                    return false;
                }
                k = k + 1;
            }
        }
        j = j + 1;
    }
    true
}

/// Looks up the secret a resolved pre-shared-key list holds for an
/// identifier.
pub fn find_resolved(psks: &Vec<ResolvedPsk>, psk_id: u64) -> (r: Option<u64>)
    ensures
        r == spec_find_resolved(psks@, psk_id),
{
    let ghost all: Seq<ResolvedPsk> = psks@;
    let mut i: usize = 0;
    assert(all.skip(0) =~= all);
    while i < psks.len()
        invariant
            i <= psks.len(),
            all == psks@,
            spec_find_resolved(all, psk_id) == spec_find_resolved(all.skip(i as int), psk_id),
        decreases psks.len() - i,
    {
        let candidate: ResolvedPsk = psks[i];
        assert(all.skip(i as int)[0] == candidate);
        if candidate.psk_id == psk_id {
            return Some(candidate.secret);
        }
        assert(all.skip(i as int).drop_first() =~= all.skip(i as int + 1));
        i = i + 1;
    }
    assert(all.skip(i as int) =~= Seq::<ResolvedPsk>::empty());
    None
}

/// Checks that every covered pre-shared-key proposal resolves.
pub fn check_psks_resolved(c: &Vec<QueuedProposal>, psks: &Vec<ResolvedPsk>) -> (r: bool)
    ensures
        r == spec_psks_resolved(c@, psks@),
{
    let mut k: usize = 0;
    while k < c.len()
        invariant
            k <= c.len(),
            forall|j: int|
                0 <= j < k ==> ((#[trigger] c@[j]).proposal matches Proposal::PreSharedKey(id)
                    ==> spec_find_resolved(psks@, id) is Some),
        decreases c.len() - k,
    {
        if let Proposal::PreSharedKey(id) = c[k].proposal {
            if find_resolved(psks, id).is_none() {
                return false;
            }
        }
        k = k + 1;
    }
    true
}

/// Searches a key-pair pool for the pair matching a public key.
pub fn pool_has_key(pool: &Vec<EncryptionKeyPair>, public_key: u64) -> (r: bool)
    ensures
        r == (spec_find_keypair(pool@, public_key) is Some),
{
    let ghost all: Seq<EncryptionKeyPair> = pool@;
    let mut i: usize = 0;
    assert(all.skip(0) =~= all);
    while i < pool.len()
        invariant
            i <= pool.len(),
            all == pool@,
            spec_find_keypair(all, public_key) == spec_find_keypair(all.skip(i as int), public_key),
        decreases pool.len() - i,
    {
        let candidate: EncryptionKeyPair = pool[i];
        assert(all.skip(i as int)[0] == candidate);
        if candidate.public_key == public_key {
            return true;
        }
        assert(all.skip(i as int).drop_first() =~= all.skip(i as int + 1));
        i = i + 1;
    }
    assert(all.skip(i as int) =~= Seq::<EncryptionKeyPair>::empty());
    false
}

/// Checks the claimed node keys against those recomputed from the decrypted
/// path secret.
pub fn check_node_keys(path: &UpdatePath) -> (r: bool)
    ensures
        r == (forall|k: int|
            0 <= k < path.node_keys@.len() ==> path.node_keys@[k] == spec_node_key(
                path.path_secret,
                k as u64,
            )),
{
    let mut k: usize = 0;
    while k < path.node_keys.len()
        invariant
            k <= path.node_keys.len(),
            forall|j: int|
                0 <= j < k ==> path.node_keys@[j] == spec_node_key(path.path_secret, j as u64),
        decreases path.node_keys.len() - k,
    {
        if path.node_keys[k] != node_key(path.path_secret, k as u64) {
            return false;
        }
        k = k + 1;
    }
    true
}

/// Whether any covered proposal removes the given leaf.
pub fn has_remove_of(c: &Vec<QueuedProposal>, i: usize) -> (r: bool)
    ensures
        r == exists|k: int| 0 <= k < c@.len() && spec_is_remove_of(c@[k], i as int),
{
    let mut k: usize = 0;
    while k < c.len()
        invariant
            k <= c.len(),
            forall|j: int| 0 <= j < k ==> !spec_is_remove_of(c@[j], i as int),
        decreases c.len() - k,
    {
        if let Proposal::Remove(t) = c[k].proposal {
            if t == i {
                assert(spec_is_remove_of(c@[k as int], i as int));
                return true;
            }
        }
        k = k + 1;
    }
    false
}

/// Finds the new key of the covered update for the given leaf, if any.
pub fn find_update_for(c: &Vec<QueuedProposal>, i: usize) -> (r: Option<u64>)
    ensures
        (r is Some) == exists|k: int| 0 <= k < c@.len() && spec_is_update_for(c@[k], i as int),
        r matches Some(key) ==> exists|k: int|
            0 <= k < c@.len() && spec_is_update_for(c@[k], i as int) && spec_update_key_of(c@[k])
                == key,
    {
    let mut k: usize = 0;
    while k < c.len()
        invariant
            k <= c.len(),
            forall|j: int| 0 <= j < k ==> !spec_is_update_for(c@[j], i as int),
        decreases c.len() - k,
    {
        if matches!(c[k].proposal, Proposal::Update(_)) {
            if let Sender::Member(s) = c[k].sender {
                if s == i {
                    assert(spec_is_update_for(c@[k as int], i as int));
                    if let Proposal::Update(key) = c[k].proposal {
                        return Some(key);
                    }
                }
            }
        }
        k = k + 1;
    }
    None
}

/// Applies the covered proposals to the tree: removals blank, updates rekey,
/// additions append.  Requires mutual compatibility so that each leaf is
/// targeted at most once.
pub fn apply_proposals(leaves: &Vec<Leaf>, c: &Vec<QueuedProposal>) -> (r: Vec<Leaf>)
    requires
        spec_no_conflicts(c@),
    ensures
        r@ == spec_base_leaves(leaves@, c@),
{
    let mut out: Vec<Leaf> = Vec::new();
    let mut i: usize = 0;
    while i < leaves.len()
        invariant
            i <= leaves.len(),
            spec_no_conflicts(c@),
            out@.len() == i as int,
            forall|j: int| 0 <= j < i ==> out@[j] == spec_new_leaf(leaves@, c@, j),
        decreases leaves.len() - i,
    {
        let next: Leaf = if has_remove_of(c, i) {
            Leaf::Blank
        } else {
            match find_update_for(c, i) {
                Some(key) => {
                    proof {
                        let k1 = choose|k: int|
                            0 <= k < c@.len() && spec_is_update_for(c@[k], i as int);
                        let k2 = choose|k: int|
                            0 <= k < c@.len() && spec_is_update_for(c@[k], i as int)
                                && spec_update_key_of(c@[k]) == key;
                        if k1 != k2 {
                            if k1 < k2 {
                                assert(spec_target_of(c@[k1]) == Some(i as int));
                                assert(spec_target_of(c@[k2]) == Some(i as int));
                            } else {
                                assert(spec_target_of(c@[k2]) == Some(i as int));
                                assert(spec_target_of(c@[k1]) == Some(i as int));
                            }
                        }
                        assert(spec_update_key_of(c@[k1]) == key);
                    }
                    match leaves[i] {
                        Leaf::Member(mem) => Leaf::Member(
                            Member { encryption_key: key, ..mem },
                        ),
                        Leaf::Blank => Leaf::Blank,
                    }
                },
                None => leaves[i],
            }
        };
        out.push(next);
        assert(out@[i as int] == spec_new_leaf(leaves@, c@, i as int));
        i = i + 1;
    }
    let ghost base: Seq<Leaf> = out@;
    assert(base =~= Seq::new(leaves@.len(), |j: int| spec_new_leaf(leaves@, c@, j)));
    let mut k: usize = 0;
    assert(c@.take(0) =~= Seq::<QueuedProposal>::empty());
    while k < c.len()
        invariant
            k <= c.len(),
            out@ == base + spec_adds(c@.take(k as int)),
            base == Seq::new(leaves@.len(), |j: int| spec_new_leaf(leaves@, c@, j)),
        decreases c.len() - k,
    {
        assert(c@.take(k as int + 1).drop_last() =~= c@.take(k as int));
        assert(c@.take(k as int + 1).last() == c@[k as int]);
        if let Proposal::Add(m) = c[k].proposal {
            out.push(Leaf::Member(m));
            assert(out@ =~= base + spec_adds(c@.take(k as int + 1)));
        } else {
            assert(out@ =~= base + spec_adds(c@.take(k as int + 1)));
        }
        k = k + 1;
    }
    assert(c@.take(c@.len() as int) =~= c@);
    assert(out@ =~= spec_base_leaves(leaves@, c@));
    out
}

impl MlsGroup {
    /// Computes the prospective next-epoch state from a commit's content,
    /// using the supplied decryption key pools and resolved pre-shared keys,
    /// without mutating the live group.  Success pins every field of the
    /// staged commit; failure names the first violated check.
    pub fn stage_commit(
        &self,
        content: &AuthenticatedContent,
        credential: Credential,
        old_epoch_keypairs: &Vec<EncryptionKeyPair>,
        leaf_node_keypairs: &Vec<EncryptionKeyPair>,
        psks: &Vec<ResolvedPsk>,
    ) -> (r: Result<StagedCommit, StageCommitError>)
        requires
            content.body is Commit,
        ensures
            ({
                let commit = content.body->Commit_0;
                let err = spec_stage_commit_error(
                    *self,
                    content.epoch,
                    content.sender,
                    commit,
                    psks@,
                    old_epoch_keypairs@,
                    leaf_node_keypairs@,
                );
                match r {
                    Err(e) => Some(e) == err,
                    Ok(st) => {
                        &&& err is None
                        &&& st.staged_epoch == self.epoch + 1
                        &&& st.new_leaves@ == spec_staged_leaves(
                            self.leaves@,
                            spec_covered(self.proposal_store.proposals@, commit.proposal_refs@),
                            content.sender,
                            credential,
                            commit,
                        )
                        &&& st.new_epoch_secret == spec_next_epoch_secret(
                            self.epoch_secret,
                            spec_commit_secret(commit),
                        )
                        &&& st.new_resumption_psk == spec_resumption_psk(st.new_epoch_secret)
                        &&& st.self_removed == spec_self_removed(
                            spec_covered(self.proposal_store.proposals@, commit.proposal_refs@),
                            self.own_leaf_index,
                        )
                    },
                }
            }),
    {
        let commit: &Commit = match &content.body {
            crate::types::FramedContentBody::Commit(commit) => commit,
            _ => {
                return Err(StageCommitError::LibraryError);
            },
        };
        if content.epoch != self.epoch {
            return Err(StageCommitError::EpochMismatch);
        }
        if self.epoch == u64::MAX {
            return Err(StageCommitError::LibraryError);
        }
        let covered: Vec<QueuedProposal> = match collect_covered(
            &self.proposal_store,
            &commit.proposal_refs,
        ) {
            Ok(c) => c,
            Err(e) => {
                return Err(e);
            },
        };
        if !check_no_conflicts(&covered) {
            return Err(StageCommitError::ConflictingProposals);
        }
        let committer: Option<usize> = match content.sender {
            Sender::Member(i) => Some(i),
            _ => None,
        };
        if !check_remove_targets(&covered, &self.leaves, committer) {
            return Err(StageCommitError::InvalidProposal);
        }
        if !check_supported_by_all(&covered, &self.leaves) {
            return Err(StageCommitError::UnsupportedProposalType);
        }
        if !check_psks_resolved(&covered, psks) {
            return Err(StageCommitError::PskError);
        }
        if matches!(content.sender, Sender::NewMemberCommit) && commit.path.is_none() {
            return Err(StageCommitError::RequiredPathMissing);
        }
        let commit_secret: u64 = match &commit.path {
            Some(path) => {
                if path.node_keys.len() != direct_path_len(self.leaves.len()) {
                    return Err(StageCommitError::PathLengthMismatch);
                }
                if !pool_has_key(leaf_node_keypairs, path.recipient_encryption_key)
                    && !pool_has_key(old_epoch_keypairs, path.recipient_encryption_key) {
                    return Err(StageCommitError::PathDecryptionFailure);
                }
                if !check_node_keys(path) {
                    return Err(StageCommitError::PublicKeyMismatch);
                }
                path.path_secret
            },
            None => 0,
        };
        let mut new_leaves: Vec<Leaf> = apply_proposals(&self.leaves, &covered);
        match content.sender {
            Sender::Member(ci) => {
                if let Some(path) = &commit.path {
                    if ci < new_leaves.len() {
                        match new_leaves[ci] {
                            Leaf::Member(mem) => {
                                new_leaves.set(
                                    ci,
                                    Leaf::Member(
                                        Member {
                                            encryption_key: path.leaf_encryption_key,
                                            ..mem
                                        },
                                    ),
                                );
                            },
                            Leaf::Blank => {},
                        }
                    }
                }
            },
            Sender::NewMemberCommit => {
                if let Some(path) = &commit.path {
                    new_leaves.push(
                        Leaf::Member(
                            Member {
                                credential,
                                encryption_key: path.leaf_encryption_key,
                                capabilities: 0xffffffffffffffff,
                                ratchet_generation: 0,
                            },
                        ),
                    );
                }
            },
            _ => {},
        }
        let self_removed: bool = has_remove_of(&covered, self.own_leaf_index);
        let new_epoch_secret: u64 = next_epoch_secret(self.epoch_secret, commit_secret);
        let new_resumption_psk: u64 = resumption_psk(new_epoch_secret);
        Ok(
            StagedCommit {
                staged_epoch: self.epoch + 1,
                new_leaves,
                new_epoch_secret,
                new_resumption_psk,
                self_removed,
            },
        )
    }
}

} // verus!
