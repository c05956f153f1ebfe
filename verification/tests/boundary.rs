use proposal_pipeline::instruction_data::LocalInstructionData;
use proposal_pipeline::population::{
    plan_create_proposal, plan_insert, plan_sign_off, prepare_proposal_context, ProposalContext,
};
use proposal_pipeline::records::{GrantInstruction, GrantType};
use solana_program::instruction::{AccountMeta, Instruction};
use solana_program::pubkey::Pubkey;
use spl_governance::instruction::AddSignatoryAuthority;
use spl_governance::state::enums::{GovernanceAccountType, VoteThreshold, VoteTipping};
use spl_governance::state::governance::{GovernanceConfig, GovernanceV2};
use spl_governance::state::proposal::VoteType;
use spl_governance::state::proposal_transaction::InstructionData;
use spl_governance::tools::structs::Reserved119;

fn bytes_of(tag: u8) -> Vec<u8> {
    vec![tag; 32]
}

fn pk_of(bytes: &Vec<u8>) -> Pubkey {
    Pubkey::try_from(bytes.as_slice()).unwrap()
}

fn governance_account_bytes(realm: &Pubkey, active_proposal_count: u64) -> Vec<u8> {
    let config = GovernanceConfig {
        community_vote_threshold: VoteThreshold::YesVotePercentage(60),
        min_community_weight_to_create_proposal: 1,
        min_transaction_hold_up_time: 0,
        voting_base_time: 3600,
        community_vote_tipping: VoteTipping::Strict,
        council_vote_threshold: VoteThreshold::YesVotePercentage(60),
        council_veto_vote_threshold: VoteThreshold::Disabled,
        min_council_weight_to_create_proposal: 1,
        council_vote_tipping: VoteTipping::Strict,
        community_veto_vote_threshold: VoteThreshold::Disabled,
        voting_cool_off_time: 0,
        deposit_exempt_proposal_count: 10,
    };
    let governance = GovernanceV2 {
        account_type: GovernanceAccountType::GovernanceV2,
        realm: *realm,
        governed_account: Pubkey::new_from_array([11; 32]),
        reserved1: 0,
        config,
        reserved_v2: Reserved119::default(),
        required_signatories_count: 0,
        active_proposal_count,
    };
    borsh::BorshSerialize::try_to_vec(&governance).unwrap()
}

fn sample_context(active_proposal_count: u64) -> ProposalContext {
    let governance_program = bytes_of(1);
    let governance_key = bytes_of(2);
    let council_mint = bytes_of(3);
    let authority = bytes_of(4);
    let realm = Pubkey::new_from_array([5; 32]);
    let account_bytes = governance_account_bytes(&realm, active_proposal_count);
    prepare_proposal_context(
        &governance_program,
        &governance_key,
        &council_mint,
        &authority,
        &account_bytes,
    )
    .unwrap()
}

fn expected_proposal_seed(active_proposal_count: u64) -> Pubkey {
    let mut seed = [0u8; 32];
    seed[..8].copy_from_slice(&active_proposal_count.to_le_bytes());
    Pubkey::new_from_array(seed)
}

fn assert_matches_instruction(local: &LocalInstructionData, expected: &Instruction) {
    assert_eq!(local.program_id, expected.program_id.to_bytes().to_vec());
    assert_eq!(local.data, expected.data);
    assert_eq!(local.accounts.len(), expected.accounts.len());
    for (meta, expected_meta) in local.accounts.iter().zip(expected.accounts.iter()) {
        assert_eq!(meta.pubkey, expected_meta.pubkey.to_bytes().to_vec());
        assert_eq!(meta.is_signer, expected_meta.is_signer);
        assert_eq!(meta.is_writable, expected_meta.is_writable);
    }
}

#[test]
fn context_holds_the_snapshot_and_the_documented_addresses() {
    let context = sample_context(7);
    let realm = Pubkey::new_from_array([5; 32]);
    assert_eq!(context.realm, realm.to_bytes().to_vec());
    let seed = expected_proposal_seed(7);
    assert_eq!(context.proposal_seed, seed.to_bytes().to_vec());

    let program = pk_of(&context.governance_program);
    let expected_owner = spl_governance::state::token_owner_record::get_token_owner_record_address(
        &program,
        &realm,
        &pk_of(&context.council_mint),
        &pk_of(&context.authority),
    );
    assert_eq!(context.owner_record, expected_owner.to_bytes().to_vec());

    let expected_proposal = spl_governance::state::proposal::get_proposal_address(
        &program,
        &pk_of(&context.governance_key),
        &pk_of(&context.council_mint),
        &seed,
    );
    assert_eq!(context.proposal_address, expected_proposal.to_bytes().to_vec());
}

#[test]
fn undecodable_governance_account_is_rejected() {
    let context = prepare_proposal_context(
        &bytes_of(1),
        &bytes_of(2),
        &bytes_of(3),
        &bytes_of(4),
        &vec![255, 254, 253],
    );
    assert!(context.is_none());
}

#[test]
fn create_proposal_plan_matches_the_governance_builder() {
    let context = sample_context(3);
    let name = "Grants".to_string();
    let description = "ipfs://grants-batch".to_string();
    let (create, add) = plan_create_proposal(&context, &name, &description).unwrap();

    let program = pk_of(&context.governance_program);
    let authority = pk_of(&context.authority);
    let owner_record = pk_of(&context.owner_record);
    let expected_create = spl_governance::instruction::create_proposal(
        &program,
        &pk_of(&context.governance_key),
        &owner_record,
        &authority,
        &authority,
        None,
        &pk_of(&context.realm),
        name,
        description,
        &pk_of(&context.council_mint),
        VoteType::SingleChoice,
        vec!["Approve".to_string()],
        true,
        &expected_proposal_seed(3),
    );
    assert_matches_instruction(&create, &expected_create);

    let expected_add = spl_governance::instruction::add_signatory(
        &program,
        &pk_of(&context.governance_key),
        &pk_of(&context.proposal_address),
        &AddSignatoryAuthority::ProposalOwner {
            governance_authority: authority,
            token_owner_record: owner_record,
        },
        &authority,
        &authority,
    );
    assert_matches_instruction(&add, &expected_add);
}

#[test]
fn sign_off_plan_matches_the_governance_builder() {
    let context = sample_context(4);
    let plan = plan_sign_off(&context).unwrap();
    let expected = spl_governance::instruction::sign_off_proposal(
        &pk_of(&context.governance_program),
        &pk_of(&context.realm),
        &pk_of(&context.governance_key),
        &pk_of(&context.proposal_address),
        &pk_of(&context.authority),
        None,
    );
    assert_matches_instruction(&plan, &expected);
}

fn sample_inner_instruction() -> Instruction {
    Instruction {
        program_id: Pubkey::new_from_array([9; 32]),
        accounts: vec![
            AccountMeta::new(Pubkey::new_from_array([21; 32]), true),
            AccountMeta::new_readonly(Pubkey::new_from_array([22; 32]), false),
        ],
        data: vec![1, 2, 3, 4],
    }
}

#[test]
fn insert_plan_matches_the_governance_builder() {
    let context = sample_context(5);
    let inner = sample_inner_instruction();
    let item = GrantInstruction {
        wallet: "wallet".to_string(),
        grant_type: GrantType::Cliff,
        start: None,
        periods: 1,
        allow_clawback: false,
        amount: 42,
        instruction: bincode::serialize(&inner).unwrap(),
    };
    let plan = plan_insert(&context, 2, &item).unwrap();

    let authority = pk_of(&context.authority);
    let expected = spl_governance::instruction::insert_transaction(
        &pk_of(&context.governance_program),
        &pk_of(&context.governance_key),
        &pk_of(&context.proposal_address),
        &pk_of(&context.owner_record),
        &authority,
        &authority,
        0,
        2,
        0,
        vec![InstructionData::from(inner)],
    );
    assert_matches_instruction(&plan, &expected);
}

#[test]
fn insert_plan_rejects_an_undecodable_payload() {
    let context = sample_context(6);
    let item = GrantInstruction {
        wallet: "wallet".to_string(),
        grant_type: GrantType::NoLockup,
        start: None,
        periods: 0,
        allow_clawback: false,
        amount: 0,
        instruction: vec![255, 255],
    };
    assert!(plan_insert(&context, 0, &item).is_none());
}
