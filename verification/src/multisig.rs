//! Multisig governance: the owner set with its approval threshold, and the
//! proposal records whose approval quorum gates privileged treasury actions.

use vstd::prelude::*;
use crate::errors::DaoError;
use crate::state::contains_id;

verus! {

/// Upper bound on the number of multisig owners.
pub const MAX_OWNERS: usize = 10;

/// The governed treasury's owner set and quorum rule.
pub struct MultisigConfig {
    /// Owner identities, pairwise distinct, between one and `MAX_OWNERS`.
    pub owners: Vec<u64>,
    /// Approvals required before a proposal executes; between one and the
    /// number of owners.
    pub threshold: u8,
    /// Version of the owner set. Bumped whenever the owners or the threshold
    /// change, which invalidates every proposal captured under an older
    /// version.
    pub owner_set_seqno: u64,
}

/// Where a proposal stands in its life.
#[derive(Clone, Copy, Debug, PartialEq, Eq, Structural)]
pub enum ProposalStatus {
    /// Collecting approvals.
    Pending,
    /// The quorum was reached and the encoded action was dispatched, once.
    Executed,
    /// Captured under an owner set that has since changed; dead.
    Expired,
}

/// A privileged action awaiting its quorum: who proposed it, what it says,
/// the owner-set version it was captured under, and which owners have
/// approved so far (each at most once).
pub struct Proposal {
    pub id: u64,
    pub proposer: u64,
    pub description: String,
    pub owner_set_seqno: u64,
    pub approvals: Vec<u64>,
    pub status: ProposalStatus,
}

/// No identity appears twice in `s`.
pub open spec fn all_distinct(s: Seq<u64>) -> bool {
    forall|i: int, j: int| 0 <= i < j < s.len() ==> s[i] != s[j]
}

impl MultisigConfig {
    /// The configuration invariant: a non-empty, bounded, duplicate-free
    /// owner set and a threshold it can meet.
    pub open spec fn wf(self) -> bool {
        &&& 1 <= self.threshold <= self.owners@.len() <= MAX_OWNERS as int
        &&& all_distinct(self.owners@)
    }

    pub open spec fn is_owner(self, who: u64) -> bool {
        self.owners@.contains(who)
    }
}

impl Proposal {
    /// The approval set is duplicate-free and drawn from the current owners.
    pub open spec fn approvals_wf(self, c: MultisigConfig) -> bool {
        &&& all_distinct(self.approvals@)
        &&& forall|i: int| 0 <= i < self.approvals@.len() ==> c.is_owner(#[trigger] self.approvals@[i])
    }
}

/// Whether `v` holds some identity twice.
fn has_duplicate(v: &Vec<u64>) -> (b: bool)
    ensures
        b == !all_distinct(v@),
{
    let mut i: usize = 1;
    while i < v.len()
        invariant
            1 <= i,
            forall|a: int, b: int| 0 <= a < b < i && b < v@.len() ==> v@[a] != v@[b],
        decreases v@.len() - i,
    {
        let mut j: usize = 0;
        while j < i
            invariant
                j <= i < v@.len(),
                forall|a: int| 0 <= a < j ==> v@[a] != v@[i as int],
            decreases i - j,
        {
            if v[j] == v[i] {
                return true;
            }
            j = j + 1;
        }
        i = i + 1;
    }
    false
}

/// Whether creating a multisig from `owners` and `threshold` is accepted:
/// the owner count must be in range, the owners distinct, and the threshold
/// between one and the owner count.
pub open spec fn create_multisig_check(owners: Seq<u64>, threshold: u8) -> Result<(), DaoError> {
    if owners.len() == 0 || owners.len() > MAX_OWNERS as int {
        Err(DaoError::InvalidOwnerCount)
    } else if !all_distinct(owners) {
        Err(DaoError::DuplicateOwner)
    } else if threshold == 0 || threshold > owners.len() {
        Err(DaoError::InvalidThreshold)
    } else {
        Ok(())
    }
}

/// Create a multisig configuration, validating the owner set and threshold.
/// The owner-set version starts at one.
pub fn create_multisig(owners: Vec<u64>, threshold: u8) -> (r: Result<MultisigConfig, DaoError>)
    ensures
        r matches Err(e) ==> Err::<(), DaoError>(e) == create_multisig_check(owners@, threshold),
        r matches Ok(c) ==> create_multisig_check(owners@, threshold) == Ok::<(), DaoError>(())
            && c.owners@ == owners@
            && c.threshold == threshold
            && c.owner_set_seqno == 1
            && c.wf(),
{
    if owners.len() == 0 || owners.len() > MAX_OWNERS {
        return Err(DaoError::InvalidOwnerCount);
    }
    if has_duplicate(&owners) {
        return Err(DaoError::DuplicateOwner);
    }
    if threshold == 0 || (threshold as usize) > owners.len() {
        return Err(DaoError::InvalidThreshold);
    }
    Ok(MultisigConfig { owners, threshold, owner_set_seqno: 1 })
}

/// Replace the owner set and threshold, validating them as at creation and
/// bumping the owner-set version, which expires every in-flight proposal
/// captured under the old version.
pub fn update_owners(config: &mut MultisigConfig, owners: Vec<u64>, threshold: u8) -> (r: Result<
    (),
    DaoError,
>)
    requires
        old(config).owner_set_seqno < u64::MAX,
    ensures
        r == create_multisig_check(owners@, threshold),
        r is Ok ==> final(config).owners@ == owners@
            && final(config).threshold == threshold
            && final(config).owner_set_seqno == old(config).owner_set_seqno + 1
            && final(config).wf(),
        r is Err ==> *final(config) == *old(config),
{
    if owners.len() == 0 || owners.len() > MAX_OWNERS {
        return Err(DaoError::InvalidOwnerCount);
    }
    if has_duplicate(&owners) {
        return Err(DaoError::DuplicateOwner);
    }
    if threshold == 0 || (threshold as usize) > owners.len() {
        return Err(DaoError::InvalidThreshold);
    }
    config.owners = owners;
    config.threshold = threshold;
    config.owner_set_seqno = config.owner_set_seqno + 1;
    Ok(())
}

/// Record a new proposal by `proposer`, capturing the current owner-set
/// version and an empty approval set. Only a current owner may propose.
pub fn propose_action(
    config: &MultisigConfig,
    proposer: u64,
    id: u64,
    description: String,
) -> (r: Result<Proposal, DaoError>)
    ensures
        r is Err ==> r == Err::<Proposal, DaoError>(DaoError::Unauthorized)
            && !config.is_owner(proposer),
        r matches Ok(p) ==> config.is_owner(proposer)
            && p.id == id
            && p.proposer == proposer
            && p.description == description
            && p.owner_set_seqno == config.owner_set_seqno
            && p.approvals@ == Seq::<u64>::empty()
            && p.status == ProposalStatus::Pending
            && p.approvals_wf(*config),
{
    if !contains_id(&config.owners, proposer) {
        return Err(DaoError::Unauthorized);
    }
    let approvals: Vec<u64> = Vec::new();
    Ok(Proposal {
        id,
        proposer,
        description,
        owner_set_seqno: config.owner_set_seqno,
        approvals,
        status: ProposalStatus::Pending,
    })
}

/// The exact outcome of an approval attempt. `Ok(b)` means the approval was
/// taken (or was a harmless replay) and `b` says whether the proposal
/// executes now; the errors are: a non-owner caller, an expired or stale
/// proposal (not approvable under the current owner set), and a repeated
/// approver.
pub open spec fn approve_check(c: MultisigConfig, p: Proposal, owner: u64) -> Result<
    bool,
    DaoError,
> {
    if !c.is_owner(owner) {
        Err(DaoError::Unauthorized)
    } else if p.status == ProposalStatus::Executed {
        Ok(false)
    } else if p.status == ProposalStatus::Expired {
        Err(DaoError::Unauthorized)
    } else if p.owner_set_seqno != c.owner_set_seqno {
        Err(DaoError::Unauthorized)
    } else if p.approvals@.contains(owner) {
        Err(DaoError::DuplicateOwner)
    } else {
        Ok(p.approvals@.len() + 1 >= c.threshold)
    }
}

/// Add `owner`'s approval to a pending proposal. The moment the approval
/// count reaches the threshold, the proposal transitions to `Executed` and
/// the result `Ok(true)` tells the caller to dispatch the encoded action,
/// exactly once; any later approval attempt is a no-op `Ok(false)`.
///
/// A caller who is not a current owner is refused. A proposal captured
/// under an older owner-set version can never execute: its approval is
/// refused here and `expire_stale_proposal` retires it. An owner who has
/// already approved is refused a second approval.
pub fn approve_action(config: &MultisigConfig, proposal: &mut Proposal, owner: u64) -> (r: Result<
    bool,
    DaoError,
>)
    ensures
        r == approve_check(*config, *old(proposal), owner),
        r is Err ==> *final(proposal) == *old(proposal),
        r == Ok::<bool, DaoError>(false) && old(proposal).status == ProposalStatus::Executed
            ==> *final(proposal) == *old(proposal),
        r is Ok && old(proposal).status == ProposalStatus::Pending ==> {
            &&& final(proposal).approvals@ == old(proposal).approvals@.push(owner)
            &&& final(proposal).status == (if old(proposal).approvals@.len() + 1
                >= config.threshold {
                ProposalStatus::Executed
            } else {
                ProposalStatus::Pending
            })
            &&& final(proposal).id == old(proposal).id
            &&& final(proposal).proposer == old(proposal).proposer
            &&& final(proposal).description == old(proposal).description
            &&& final(proposal).owner_set_seqno == old(proposal).owner_set_seqno
        },
        final(proposal).status == ProposalStatus::Executed <==> (
            old(proposal).status == ProposalStatus::Executed
            || (r == Ok::<bool, DaoError>(true))),
        old(proposal).approvals_wf(*config) ==> final(proposal).approvals_wf(*config),
{
    if !contains_id(&config.owners, owner) {
        return Err(DaoError::Unauthorized);
    }
    match proposal.status {
        ProposalStatus::Executed => {
            return Ok(false);
        },
        ProposalStatus::Expired => {
            return Err(DaoError::Unauthorized);
        },
        ProposalStatus::Pending => {},
    }
    if proposal.owner_set_seqno != config.owner_set_seqno {
        return Err(DaoError::Unauthorized);
    }
    if contains_id(&proposal.approvals, owner) {
        return Err(DaoError::DuplicateOwner);
    }
    proposal.approvals.push(owner);
    if proposal.approvals.len() >= config.threshold as usize {
        proposal.status = ProposalStatus::Executed;
        Ok(true)
    } else {
        Ok(false)
    }
}

/// Retire a proposal that was captured under an owner-set version older
/// than the current one: it becomes `Expired` and can never be approved or
/// executed. Has no effect on a proposal that is current or already
/// resolved.
pub fn expire_stale_proposal(config: &MultisigConfig, proposal: &mut Proposal)
    ensures
        final(proposal).status == (if old(proposal).status == ProposalStatus::Pending
            && old(proposal).owner_set_seqno != config.owner_set_seqno {
            ProposalStatus::Expired
        } else {
            old(proposal).status
        }),
        final(proposal).id == old(proposal).id,
        final(proposal).proposer == old(proposal).proposer,
        final(proposal).description == old(proposal).description,
        final(proposal).owner_set_seqno == old(proposal).owner_set_seqno,
        final(proposal).approvals@ == old(proposal).approvals@,
{
    let is_pending = match proposal.status {
        ProposalStatus::Pending => true,
        _ => false,
    };
    if is_pending && proposal.owner_set_seqno != config.owner_set_seqno {
        proposal.status = ProposalStatus::Expired;
    }
}

} // verus!
