use proposal_pipeline::population::{into_artifacts, populate, prepare_proposal_context,
    PopulationRun, ProposalContext};
use proposal_pipeline::records::{GrantInstruction, GrantType};
use proposal_pipeline::submitter::{outcome_confirmed, submit_with_events, AttemptEvent};
use solana_program::pubkey::Pubkey;
use spl_governance::state::enums::{GovernanceAccountType, VoteThreshold, VoteTipping};
use spl_governance::state::governance::{GovernanceConfig, GovernanceV2};
use spl_governance::state::proposal_transaction::get_proposal_transaction_address;
use spl_governance::tools::structs::Reserved119;

fn bytes_of(tag: u8) -> Vec<u8> {
    vec![tag; 32]
}

fn pk_of(bytes: &Vec<u8>) -> Pubkey {
    Pubkey::try_from(bytes.as_slice()).unwrap()
}

fn governance_account_bytes(realm: &Pubkey, active_proposal_count: u64) -> Vec<u8> {
    let config = GovernanceConfig {
        community_vote_threshold: VoteThreshold::YesVotePercentage(60),
        min_community_weight_to_create_proposal: 1,
        min_transaction_hold_up_time: 0,
        voting_base_time: 3600,
        community_vote_tipping: VoteTipping::Strict,
        council_vote_threshold: VoteThreshold::YesVotePercentage(60),
        council_veto_vote_threshold: VoteThreshold::Disabled,
        min_council_weight_to_create_proposal: 1,
        council_vote_tipping: VoteTipping::Strict,
        community_veto_vote_threshold: VoteThreshold::Disabled,
        voting_cool_off_time: 0,
        deposit_exempt_proposal_count: 10,
    };
    let governance = GovernanceV2 {
        account_type: GovernanceAccountType::GovernanceV2,
        realm: *realm,
        governed_account: Pubkey::new_from_array([12; 32]),
        reserved1: 0,
        config,
        reserved_v2: Reserved119::default(),
        required_signatories_count: 0,
        active_proposal_count,
    };
    borsh::BorshSerialize::try_to_vec(&governance).unwrap()
}

fn sample_context() -> ProposalContext {
    let realm = Pubkey::new_from_array([5; 32]);
    let account_bytes = governance_account_bytes(&realm, 9);
    prepare_proposal_context(&bytes_of(1), &bytes_of(2), &bytes_of(3), &bytes_of(4), &account_bytes)
        .unwrap()
}

fn item_with_payload(tag: u8, payload: Vec<u8>) -> GrantInstruction {
    GrantInstruction {
        wallet: format!("wallet-{}", tag),
        grant_type: GrantType::Daily,
        start: None,
        periods: 4,
        allow_clawback: true,
        amount: 100,
        instruction: payload,
    }
}

fn expected_slot_address(context: &ProposalContext, index: u16) -> String {
    get_proposal_transaction_address(
        &pk_of(&context.governance_program),
        &pk_of(&context.proposal_address),
        &0u8.to_le_bytes(),
        &index.to_le_bytes(),
    )
    .to_string()
}

#[test]
fn empty_batch_signs_off_without_recovery() {
    let context = sample_context();
    let governance_key = pk_of(&context.governance_key).to_string();
    let proposal_address = pk_of(&context.proposal_address).to_string();
    let run = populate(context, &Vec::new(), &Vec::new()).unwrap();
    assert_eq!(run.next_index, 0);
    assert!(run.inserted.is_empty());
    assert!(run.failed.is_empty());
    assert!(run.sign_off_due());
    let (artifact, recovery) = into_artifacts(run);
    assert_eq!(artifact.governance, governance_key);
    assert_eq!(artifact.proposal, proposal_address);
    assert!(artifact.transactions.is_empty());
    assert!(recovery.is_none());
}

#[test]
fn fully_confirmed_batch_gets_contiguous_indices() {
    let context = sample_context();
    let expected: Vec<String> =
        (0..3u16).map(|index| expected_slot_address(&context, index)).collect();
    let items = vec![
        item_with_payload(1, vec![1, 1]),
        item_with_payload(2, vec![2, 2]),
        item_with_payload(3, vec![3, 3]),
    ];
    let outcomes = vec![true, true, true];
    let run = populate(context, &items, &outcomes).unwrap();
    assert_eq!(run.next_index, 3);
    assert_eq!(run.inserted.len(), 3);
    for (position, slot) in run.inserted.iter().enumerate() {
        assert_eq!(slot.address, expected[position]);
        assert_eq!(slot.instruction, items[position].instruction);
    }
    assert!(run.failed.is_empty());
    assert!(run.sign_off_due());
    let (_, recovery) = into_artifacts(run);
    assert!(recovery.is_none());
}

#[test]
fn failed_item_skips_no_index_and_lands_in_recovery() {
    let context = sample_context();
    let slot_0 = expected_slot_address(&context, 0);
    let slot_1 = expected_slot_address(&context, 1);
    let governance_program = pk_of(&context.governance_program).to_string();
    let governance_key = pk_of(&context.governance_key).to_string();
    let proposal_address = pk_of(&context.proposal_address).to_string();
    let owner_record = pk_of(&context.owner_record).to_string();
    let authority = pk_of(&context.authority).to_string();

    let items = vec![
        item_with_payload(1, vec![10, 11]),
        item_with_payload(2, vec![20, 21]),
        item_with_payload(3, vec![30, 31]),
    ];
    let outcomes = vec![true, false, true];
    let run = populate(context, &items, &outcomes).unwrap();

    assert_eq!(run.next_index, 2);
    assert_eq!(run.inserted.len(), 2);
    assert_eq!(run.inserted[0].address, slot_0);
    assert_eq!(run.inserted[0].instruction, vec![10, 11]);
    assert_eq!(run.inserted[1].address, slot_1);
    assert_eq!(run.inserted[1].instruction, vec![30, 31]);

    assert_eq!(run.failed.len(), 1);
    let failure = &run.failed[0];
    assert_eq!(failure.governance_program, governance_program);
    assert_eq!(failure.governance_key, governance_key);
    assert_eq!(failure.proposal_address, proposal_address);
    assert_eq!(failure.proposal_owner_record, owner_record);
    assert_eq!(failure.governance_authority, authority);
    assert_eq!(failure.option_index, 0);
    assert_eq!(failure.instruction, vec![20, 21]);

    assert!(!run.sign_off_due());
    let (artifact, recovery) = into_artifacts(run);
    assert_eq!(artifact.transactions.len(), 2);
    assert_eq!(recovery.unwrap().len(), 1);
}

#[test]
fn submitter_outcomes_drive_the_population_fold() {
    let context = sample_context();
    let slot_0 = expected_slot_address(&context, 0);
    let items =
        vec![item_with_payload(1, vec![10, 10]), item_with_payload(2, vec![20, 20])];
    // Item 1 never confirms; item 2 confirms on its third attempt.
    let attempt_events = vec![
        vec![
            AttemptEvent::NotConfirmed,
            AttemptEvent::BlockRefUnavailable,
            AttemptEvent::NotConfirmed,
            AttemptEvent::NotConfirmed,
            AttemptEvent::NotConfirmed,
        ],
        vec![
            AttemptEvent::NotConfirmed,
            AttemptEvent::BlockRefUnavailable,
            AttemptEvent::Confirmed("sig".to_string()),
            AttemptEvent::NotConfirmed,
            AttemptEvent::NotConfirmed,
        ],
    ];
    let mut run = PopulationRun::new(context);
    for (item, events) in items.iter().zip(attempt_events.iter()) {
        let outcome = submit_with_events(events);
        assert!(run.record_outcome(item, outcome_confirmed(&outcome)));
    }
    assert_eq!(run.next_index, 1);
    assert_eq!(run.inserted.len(), 1);
    assert_eq!(run.inserted[0].address, slot_0);
    assert_eq!(run.inserted[0].instruction, vec![20, 20]);
    assert_eq!(run.failed.len(), 1);
    assert_eq!(run.failed[0].instruction, vec![10, 10]);
    assert!(!run.sign_off_due());
}

#[test]
fn recovery_set_replayed_without_failures_completes_the_batch() {
    let context = sample_context();
    let items = vec![
        item_with_payload(1, vec![10]),
        item_with_payload(2, vec![20]),
        item_with_payload(3, vec![30]),
        item_with_payload(4, vec![40]),
    ];
    let outcomes = vec![true, false, false, true];
    let run = populate(context, &items, &outcomes).unwrap();
    assert_eq!(run.inserted.len(), 2);
    assert_eq!(run.failed.len(), 2);

    let retry_items: Vec<GrantInstruction> = run
        .failed
        .iter()
        .map(|failure| item_with_payload(9, failure.instruction.clone()))
        .collect();
    let retry_outcomes = vec![true; retry_items.len()];
    let retry_context = sample_context();
    let retry_run = populate(retry_context, &retry_items, &retry_outcomes).unwrap();

    assert!(retry_run.failed.is_empty());
    assert!(retry_run.sign_off_due());
    assert_eq!(retry_run.inserted.len(), 2);
    assert_eq!(retry_run.inserted[0].instruction, vec![20]);
    assert_eq!(retry_run.inserted[1].instruction, vec![30]);
    assert_eq!(run.inserted.len() + retry_run.inserted.len(), items.len());
}
