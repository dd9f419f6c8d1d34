use party_round::errors::DaoError;
use party_round::multisig::{
    approve_action, create_multisig, expire_stale_proposal, propose_action, update_owners,
    ProposalStatus,
};

#[test]
fn create_multisig_with_duplicate_owner_fails() {
    let r = create_multisig(vec![1, 1], 1);
    assert!(matches!(r, Err(DaoError::DuplicateOwner)));
}

#[test]
fn create_multisig_with_empty_owner_set_fails() {
    assert!(matches!(create_multisig(vec![], 1), Err(DaoError::InvalidOwnerCount)));
}

#[test]
fn create_multisig_with_too_many_owners_fails() {
    let owners: Vec<u64> = (1..=11).collect();
    assert!(matches!(create_multisig(owners, 3), Err(DaoError::InvalidOwnerCount)));
}

#[test]
fn create_multisig_threshold_bounds() {
    assert!(matches!(create_multisig(vec![1, 2, 3], 0), Err(DaoError::InvalidThreshold)));
    assert!(matches!(create_multisig(vec![1, 2, 3], 4), Err(DaoError::InvalidThreshold)));
    let c = create_multisig(vec![1, 2, 3], 3).unwrap();
    assert_eq!(c.threshold, 3);
    assert_eq!(c.owner_set_seqno, 1);
}

#[test]
fn proposal_executes_at_threshold_not_before() {
    let config = create_multisig(vec![1, 2, 3], 2).unwrap();
    let mut p = propose_action(&config, 1, 42, String::from("invest the treasury")).unwrap();
    assert!(matches!(p.status, ProposalStatus::Pending));
    assert_eq!(p.owner_set_seqno, 1);
    assert!(p.approvals.is_empty());

    // first approval: below threshold, still pending
    assert_eq!(approve_action(&config, &mut p, 1), Ok(false));
    assert!(matches!(p.status, ProposalStatus::Pending));
    assert_eq!(p.approvals, vec![1]);

    // second approval reaches the threshold: executed now, exactly once
    assert_eq!(approve_action(&config, &mut p, 2), Ok(true));
    assert!(matches!(p.status, ProposalStatus::Executed));
    assert_eq!(p.approvals, vec![1, 2]);
}

#[test]
fn non_owner_cannot_propose_or_approve() {
    let config = create_multisig(vec![1, 2, 3], 2).unwrap();
    assert!(matches!(
        propose_action(&config, 9, 1, String::from("anything")),
        Err(DaoError::Unauthorized)
    ));
    let mut p = propose_action(&config, 1, 1, String::from("anything")).unwrap();
    assert_eq!(approve_action(&config, &mut p, 9), Err(DaoError::Unauthorized));
    assert!(p.approvals.is_empty());
}

#[test]
fn double_approval_by_same_owner_is_rejected() {
    let config = create_multisig(vec![1, 2, 3], 2).unwrap();
    let mut p = propose_action(&config, 1, 1, String::from("anything")).unwrap();
    assert_eq!(approve_action(&config, &mut p, 1), Ok(false));
    assert_eq!(approve_action(&config, &mut p, 1), Err(DaoError::DuplicateOwner));
    assert_eq!(p.approvals, vec![1]);
    assert!(matches!(p.status, ProposalStatus::Pending));
}

#[test]
fn approving_an_executed_proposal_has_no_further_effect() {
    let config = create_multisig(vec![1, 2], 1).unwrap();
    let mut p = propose_action(&config, 1, 1, String::from("anything")).unwrap();
    assert_eq!(approve_action(&config, &mut p, 1), Ok(true));
    assert!(matches!(p.status, ProposalStatus::Executed));
    // replay: accepted, but nothing executes again and nothing changes
    assert_eq!(approve_action(&config, &mut p, 2), Ok(false));
    assert!(matches!(p.status, ProposalStatus::Executed));
    assert_eq!(p.approvals, vec![1]);
}

#[test]
fn owner_set_change_bumps_seqno_and_expires_proposals() {
    let mut config = create_multisig(vec![1, 2, 3], 2).unwrap();
    let mut p = propose_action(&config, 1, 1, String::from("anything")).unwrap();
    assert_eq!(update_owners(&mut config, vec![1, 2, 4], 2), Ok(()));
    assert_eq!(config.owner_set_seqno, 2);
    // the stale proposal cannot be approved under the new owner set
    assert_eq!(approve_action(&config, &mut p, 1), Err(DaoError::Unauthorized));
    assert!(matches!(p.status, ProposalStatus::Pending));
    expire_stale_proposal(&config, &mut p);
    assert!(matches!(p.status, ProposalStatus::Expired));
    // once expired, approval stays refused
    assert_eq!(approve_action(&config, &mut p, 1), Err(DaoError::Unauthorized));
}

#[test]
fn update_owners_validates_like_creation() {
    let mut config = create_multisig(vec![1, 2, 3], 2).unwrap();
    assert!(matches!(update_owners(&mut config, vec![5, 5], 1), Err(DaoError::DuplicateOwner)));
    assert_eq!(config.owner_set_seqno, 1);
    assert_eq!(config.owners, vec![1, 2, 3]);
}

#[test]
fn expire_leaves_current_proposals_alone() {
    let config = create_multisig(vec![1, 2], 2).unwrap();
    let mut p = propose_action(&config, 1, 1, String::from("anything")).unwrap();
    expire_stale_proposal(&config, &mut p);
    assert!(matches!(p.status, ProposalStatus::Pending));
}
