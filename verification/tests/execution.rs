use proposal_pipeline::execution::{execute_outcomes, plan_execution};
use proposal_pipeline::instruction_data::LocalInstructionData;
use proposal_pipeline::records::{ProposalTransaction, TransactionsToExecute};
use solana_program::instruction::{AccountMeta, Instruction};
use solana_program::pubkey::Pubkey;

fn bytes_of(tag: u8) -> Vec<u8> {
    vec![tag; 32]
}

fn pk_of(bytes: &Vec<u8>) -> Pubkey {
    Pubkey::try_from(bytes.as_slice()).unwrap()
}

fn slot(tag: u8, payload: Vec<u8>) -> ProposalTransaction {
    ProposalTransaction {
        address: Pubkey::new_from_array([tag; 32]).to_string(),
        instruction: payload,
    }
}

fn batch_of(slots: Vec<ProposalTransaction>) -> TransactionsToExecute {
    TransactionsToExecute {
        governance: Pubkey::new_from_array([2; 32]).to_string(),
        proposal: Pubkey::new_from_array([6; 32]).to_string(),
        transactions: slots,
    }
}

fn inner_instruction_with_accounts(count: u8) -> Instruction {
    Instruction {
        program_id: Pubkey::new_from_array([9; 32]),
        accounts: (0..count)
            .map(|tag| AccountMeta::new(Pubkey::new_from_array([40 + tag; 32]), true))
            .collect(),
        data: vec![5, 6, 7],
    }
}

#[test]
fn fully_confirmed_execution_leaves_no_recovery() {
    let batch = batch_of(vec![slot(31, vec![1]), slot(32, vec![2])]);
    let recovery = execute_outcomes(batch, &vec![true, true]);
    assert!(recovery.is_none());
}

#[test]
fn failed_slots_are_collected_byte_identical_in_order() {
    let first = slot(31, vec![1, 1]);
    let second = slot(32, vec![2, 2]);
    let third = slot(33, vec![3, 3]);
    let batch = batch_of(vec![first.clone(), second.clone(), third.clone()]);
    let governance = batch.governance.clone();
    let proposal = batch.proposal.clone();
    let recovery = execute_outcomes(batch, &vec![false, true, false]).unwrap();
    assert_eq!(recovery.governance, governance);
    assert_eq!(recovery.proposal, proposal);
    assert_eq!(recovery.transactions, vec![first, third]);
}

#[test]
fn execution_recovery_replayed_without_failures_completes_the_batch() {
    let batch = batch_of(vec![slot(31, vec![1]), slot(32, vec![2]), slot(33, vec![3])]);
    let total = batch.transactions.len();
    let recovery = execute_outcomes(batch, &vec![false, true, false]).unwrap();
    let retried = recovery.transactions.len();
    assert_eq!(total - retried, 1);
    let second_recovery = execute_outcomes(recovery, &vec![true; retried]);
    assert!(second_recovery.is_none());
    assert_eq!((total - retried) + retried, total);
}

#[test]
fn execution_plan_matches_the_governance_builder_with_cleared_authorities() {
    let governance_program = bytes_of(1);
    let governance = bytes_of(2);
    let proposal = bytes_of(6);
    let inner = inner_instruction_with_accounts(9);
    let entry = slot(35, bincode::serialize(&inner).unwrap());
    let plan = plan_execution(&governance_program, &governance, &proposal, &entry).unwrap();

    let mut rewritten = inner.accounts.clone();
    rewritten[6].is_signer = false;
    rewritten[7].is_signer = false;
    let expected = spl_governance::instruction::execute_transaction(
        &pk_of(&governance_program),
        &pk_of(&governance),
        &pk_of(&proposal),
        &Pubkey::new_from_array([35; 32]),
        &inner.program_id,
        &rewritten,
    );
    assert_eq!(plan.program_id, expected.program_id.to_bytes().to_vec());
    assert_eq!(plan.data, expected.data);
    assert_eq!(plan.accounts.len(), expected.accounts.len());
    for (meta, expected_meta) in plan.accounts.iter().zip(expected.accounts.iter()) {
        assert_eq!(meta.pubkey, expected_meta.pubkey.to_bytes().to_vec());
        assert_eq!(meta.is_signer, expected_meta.is_signer);
        assert_eq!(meta.is_writable, expected_meta.is_writable);
    }
}

#[test]
fn execution_planning_is_idempotent_over_the_rewrite() {
    let governance_program = bytes_of(1);
    let governance = bytes_of(2);
    let proposal = bytes_of(6);
    let inner = inner_instruction_with_accounts(9);
    let entry = slot(35, bincode::serialize(&inner).unwrap());
    let plan: LocalInstructionData =
        plan_execution(&governance_program, &governance, &proposal, &entry).unwrap();

    let mut already_rewritten = inner;
    already_rewritten.accounts[6].is_signer = false;
    already_rewritten.accounts[7].is_signer = false;
    let rewritten_entry = slot(35, bincode::serialize(&already_rewritten).unwrap());
    let second_plan =
        plan_execution(&governance_program, &governance, &proposal, &rewritten_entry).unwrap();
    assert_eq!(second_plan, plan);
}

#[test]
fn execution_plan_rejects_short_account_lists_and_bad_input() {
    let governance_program = bytes_of(1);
    let governance = bytes_of(2);
    let proposal = bytes_of(6);

    let short = inner_instruction_with_accounts(7);
    let short_entry = slot(35, bincode::serialize(&short).unwrap());
    assert!(plan_execution(&governance_program, &governance, &proposal, &short_entry).is_none());

    let garbage_payload = slot(35, vec![250, 251]);
    assert!(plan_execution(&governance_program, &governance, &proposal, &garbage_payload).is_none());

    let bad_address = ProposalTransaction {
        address: "not-a-base58-address!".to_string(),
        instruction: bincode::serialize(&inner_instruction_with_accounts(9)).unwrap(),
    };
    assert!(plan_execution(&governance_program, &governance, &proposal, &bad_address).is_none());
}
