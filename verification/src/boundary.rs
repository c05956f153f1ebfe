//! The governance-program boundary.
//!
//! Everything the pipeline asks of the governance crate and of the payload
//! codec goes through this module: decoding the governance account,
//! decoding an opaque payload into its positional form, and building the
//! five instructions the two pipeline stages submit.  Each call is a pure
//! computation of its arguments; its result is named by an uninterpreted
//! function so that the pipelines' own contracts can be exact.

use vstd::prelude::*;
use crate::instruction_data::{
    AccountMetaData, AccountMetaModel, InstructionModel, LocalInstructionData, wf_instruction,
};
use crate::pda::{
    pda_of, proposal_deposit_seeds, proposal_seeds, proposal_transaction_seeds,
    realm_config_seeds, signatory_record_seeds,
};

verus! {

#[verifier::external_type_specification]
#[verifier::external_body]
pub struct ExPubkey(solana_program::pubkey::Pubkey);

#[verifier::external_type_specification]
#[verifier::external_body]
pub struct ExInstruction(solana_program::instruction::Instruction);

#[verifier::external_type_specification]
#[verifier::external_body]
pub struct ExAccountMeta(solana_program::instruction::AccountMeta);

/// Converts 32 address bytes into the SDK's key type.
#[verifier::external_body]
fn pubkey_of(bytes: &Vec<u8>) -> solana_program::pubkey::Pubkey
    requires
        bytes@.len() == 32,
{
    solana_program::pubkey::Pubkey::try_from(bytes.as_slice()).unwrap()
}

/// Converts a positional payload into the SDK's instruction type.
#[verifier::external_body]
fn instruction_of(instruction: &LocalInstructionData) -> solana_program::instruction::Instruction
    requires
        wf_instruction(instruction@),
{
    solana_program::instruction::Instruction {
        program_id: solana_program::pubkey::Pubkey::try_from(
            instruction.program_id.as_slice(),
        ).unwrap(),
        accounts: instruction.accounts.iter().map(
            |meta| solana_program::instruction::AccountMeta {
                pubkey: solana_program::pubkey::Pubkey::try_from(meta.pubkey.as_slice()).unwrap(),
                is_signer: meta.is_signer,
                is_writable: meta.is_writable,
            },
        ).collect(),
        data: instruction.data.clone(),
    }
}

/// Converts an account list into the SDK's account-meta type.
#[verifier::external_body]
fn account_metas_of(accounts: &Vec<AccountMetaData>) -> Vec<
    solana_program::instruction::AccountMeta,
>
    requires
        forall|i: int| 0 <= i < accounts@.len() ==> (#[trigger] accounts@[i]).pubkey@.len() == 32,
{
    accounts.iter().map(|meta| solana_program::instruction::AccountMeta {
        pubkey: solana_program::pubkey::Pubkey::try_from(meta.pubkey.as_slice()).unwrap(),
        is_signer: meta.is_signer,
        is_writable: meta.is_writable,
    }).collect()
}

/// Converts the SDK's instruction type back into the positional form.
#[verifier::external_body]
fn local_instruction_of(
    instruction: solana_program::instruction::Instruction,
) -> LocalInstructionData {
    LocalInstructionData {
        program_id: instruction.program_id.to_bytes().to_vec(),
        accounts: instruction.accounts.iter().map(|meta| AccountMetaData {
            pubkey: meta.pubkey.to_bytes().to_vec(),
            is_signer: meta.is_signer,
            is_writable: meta.is_writable,
        }).collect(),
        data: instruction.data,
    }
}

/// The positional payload a byte sequence decodes to, when it decodes at
/// all.
pub uninterp spec fn decoded_instruction(bytes: Seq<u8>) -> Option<InstructionModel>;

/// Relies on bincode's `deserialize` of the SDK's instruction type: the
/// result is a pure function of the bytes, and every address in a decoded
/// payload has the full 32 bytes of the SDK's key type.
#[verifier::external_body]
pub(crate) fn decode_instruction(bytes: &Vec<u8>) -> (decoded: Option<LocalInstructionData>)
    ensures
        decoded is Some <==> decoded_instruction(bytes@) is Some,
        decoded matches Some(instruction) ==> Some(instruction@) == decoded_instruction(bytes@)
            && wf_instruction(instruction@),
{
    match bincode::deserialize::<solana_program::instruction::Instruction>(bytes.as_slice()) {
        Ok(instruction) => Some(local_instruction_of(instruction)),
        Err(_) => None,
    }
}

/// The realm and active-proposal counter a governance account's bytes hold,
/// when they decode at all.
pub uninterp spec fn governance_snapshot_of(bytes: Seq<u8>) -> Option<(Seq<u8>, u64)>;

/// The once-per-run snapshot of the governance account: its realm and its
/// active-proposal counter.
pub struct GovernanceSnapshot {
    pub realm: Vec<u8>,
    pub active_proposal_count: u64,
}

/// Relies on the governance crate's borsh deserialization of its governance
/// account (`GovernanceV2::deserialize`): the result is a pure function of
/// the account bytes, and the realm field is a 32-byte address.
#[verifier::external_body]
pub(crate) fn decode_governance(bytes: &Vec<u8>) -> (snapshot: Option<GovernanceSnapshot>)
    ensures
        snapshot is Some <==> governance_snapshot_of(bytes@) is Some,
        snapshot matches Some(decoded) ==> Some((decoded.realm@, decoded.active_proposal_count))
            == governance_snapshot_of(bytes@) && decoded.realm@.len() == 32,
{
    let decoded = <spl_governance::state::governance::GovernanceV2 as borsh::BorshDeserialize>
        ::deserialize(&mut bytes.as_slice());
    match decoded {
        Ok(data) => Some(GovernanceSnapshot {
            realm: data.realm.to_bytes().to_vec(),
            active_proposal_count: data.active_proposal_count,
        }),
        Err(_) => None,
    }
}

/// The create-proposal instruction for these arguments (single-choice vote,
/// no voter-weight addin).
pub uninterp spec fn create_proposal_ix(
    program: Seq<u8>,
    governance: Seq<u8>,
    owner_record: Seq<u8>,
    authority: Seq<u8>,
    payer: Seq<u8>,
    realm: Seq<u8>,
    name: Seq<char>,
    description: Seq<char>,
    mint: Seq<u8>,
    options: Seq<Seq<char>>,
    use_deny_option: bool,
    proposal_seed: Seq<u8>,
) -> InstructionModel;

/// Relies on the governance crate's `create_proposal` builder, fixed to a
/// single-choice vote without a voter-weight addin, as this pipeline
/// creates proposals.  The builder derives the proposal, realm-config and
/// proposal-deposit addresses itself, so those derivations must exist.
#[verifier::external_body]
pub(crate) fn build_create_proposal(
    program: &Vec<u8>,
    governance: &Vec<u8>,
    owner_record: &Vec<u8>,
    authority: &Vec<u8>,
    payer: &Vec<u8>,
    realm: &Vec<u8>,
    name: &String,
    description: &String,
    mint: &Vec<u8>,
    options: &Vec<String>,
    use_deny_option: bool,
    proposal_seed: &Vec<u8>,
) -> (built: LocalInstructionData)
    requires
        program@.len() == 32,
        governance@.len() == 32,
        owner_record@.len() == 32,
        authority@.len() == 32,
        payer@.len() == 32,
        realm@.len() == 32,
        mint@.len() == 32,
        proposal_seed@.len() == 32,
        pda_of(proposal_seeds(governance@, mint@, proposal_seed@), program@) matches Some(proposal)
            && pda_of(proposal_deposit_seeds(proposal, payer@), program@) is Some,
        pda_of(realm_config_seeds(realm@), program@) is Some,
    ensures
        built@ == create_proposal_ix(
            program@,
            governance@,
            owner_record@,
            authority@,
            payer@,
            realm@,
            name@,
            description@,
            mint@,
            options@.map_values(|option: String| option@),
            use_deny_option,
            proposal_seed@,
        ),
{
    let ix = spl_governance::instruction::create_proposal(
        &pubkey_of(program), &pubkey_of(governance), &pubkey_of(owner_record),
        &pubkey_of(authority), &pubkey_of(payer), None, &pubkey_of(realm),
        name.clone(), description.clone(), &pubkey_of(mint),
        spl_governance::state::proposal::VoteType::SingleChoice, options.clone(),
        use_deny_option, &pubkey_of(proposal_seed),
    );
    local_instruction_of(ix)
}

/// The add-signatory instruction for these arguments, with the proposal
/// owner as the adding authority.
pub uninterp spec fn add_signatory_ix(
    program: Seq<u8>,
    governance: Seq<u8>,
    proposal: Seq<u8>,
    authority: Seq<u8>,
    owner_record: Seq<u8>,
    payer: Seq<u8>,
    signatory: Seq<u8>,
) -> InstructionModel;

/// Relies on the governance crate's `add_signatory` builder, with the
/// proposal owner as the adding authority.  The builder derives the
/// signatory-record address itself, so that derivation must exist.
#[verifier::external_body]
pub(crate) fn build_add_signatory(
    program: &Vec<u8>,
    governance: &Vec<u8>,
    proposal: &Vec<u8>,
    authority: &Vec<u8>,
    owner_record: &Vec<u8>,
    payer: &Vec<u8>,
    signatory: &Vec<u8>,
) -> (built: LocalInstructionData)
    requires
        program@.len() == 32,
        governance@.len() == 32,
        proposal@.len() == 32,
        authority@.len() == 32,
        owner_record@.len() == 32,
        payer@.len() == 32,
        signatory@.len() == 32,
        pda_of(signatory_record_seeds(proposal@, signatory@), program@) is Some,
    ensures
        built@ == add_signatory_ix(
            program@,
            governance@,
            proposal@,
            authority@,
            owner_record@,
            payer@,
            signatory@,
        ),
{
    let owner = spl_governance::instruction::AddSignatoryAuthority::ProposalOwner {
        governance_authority: pubkey_of(authority),
        token_owner_record: pubkey_of(owner_record),
    };
    let ix = spl_governance::instruction::add_signatory(
        &pubkey_of(program), &pubkey_of(governance), &pubkey_of(proposal),
        &owner, &pubkey_of(payer), &pubkey_of(signatory),
    );
    local_instruction_of(ix)
}

/// The sign-off instruction for these arguments, signed off by the
/// signatory itself.
pub uninterp spec fn sign_off_proposal_ix(
    program: Seq<u8>,
    realm: Seq<u8>,
    governance: Seq<u8>,
    proposal: Seq<u8>,
    signatory: Seq<u8>,
) -> InstructionModel;

/// Relies on the governance crate's `sign_off_proposal` builder, without an
/// owner record, so the builder derives the signatory-record address
/// itself; that derivation must exist.
#[verifier::external_body]
pub(crate) fn build_sign_off_proposal(
    program: &Vec<u8>,
    realm: &Vec<u8>,
    governance: &Vec<u8>,
    proposal: &Vec<u8>,
    signatory: &Vec<u8>,
) -> (built: LocalInstructionData)
    requires
        program@.len() == 32,
        realm@.len() == 32,
        governance@.len() == 32,
        proposal@.len() == 32,
        signatory@.len() == 32,
        pda_of(signatory_record_seeds(proposal@, signatory@), program@) is Some,
    ensures
        built@ == sign_off_proposal_ix(program@, realm@, governance@, proposal@, signatory@),
{
    let ix = spl_governance::instruction::sign_off_proposal(
        &pubkey_of(program), &pubkey_of(realm), &pubkey_of(governance),
        &pubkey_of(proposal), &pubkey_of(signatory), None,
    );
    local_instruction_of(ix)
}

/// The insert-transaction instruction that files `inner` at the given
/// option and transaction index.
pub uninterp spec fn insert_transaction_ix(
    program: Seq<u8>,
    governance: Seq<u8>,
    proposal: Seq<u8>,
    owner_record: Seq<u8>,
    authority: Seq<u8>,
    payer: Seq<u8>,
    option_index: u8,
    index: u16,
    hold_up_time: u32,
    inner: InstructionModel,
) -> InstructionModel;

/// Relies on the governance crate's `insert_transaction` builder, carrying
/// exactly one inner instruction.  The builder derives the slot address
/// itself, so that derivation must exist.
#[verifier::external_body]
pub(crate) fn build_insert_transaction(
    program: &Vec<u8>,
    governance: &Vec<u8>,
    proposal: &Vec<u8>,
    owner_record: &Vec<u8>,
    authority: &Vec<u8>,
    payer: &Vec<u8>,
    option_index: u8,
    index: u16,
    hold_up_time: u32,
    inner: &LocalInstructionData,
) -> (built: LocalInstructionData)
    requires
        program@.len() == 32,
        governance@.len() == 32,
        proposal@.len() == 32,
        owner_record@.len() == 32,
        authority@.len() == 32,
        payer@.len() == 32,
        wf_instruction(inner@),
        pda_of(proposal_transaction_seeds(proposal@, option_index, index), program@) is Some,
    ensures
        built@ == insert_transaction_ix(
            program@,
            governance@,
            proposal@,
            owner_record@,
            authority@,
            payer@,
            option_index,
            index,
            hold_up_time,
            inner@,
        ),
{
    let inner_data = spl_governance::state::proposal_transaction::InstructionData::from(
        instruction_of(inner),
    );
    let ix = spl_governance::instruction::insert_transaction(
        &pubkey_of(program), &pubkey_of(governance), &pubkey_of(proposal),
        &pubkey_of(owner_record), &pubkey_of(authority), &pubkey_of(payer),
        option_index, index, hold_up_time, vec![inner_data],
    );
    local_instruction_of(ix)
}

/// The execute-transaction instruction for a slot whose payload runs
/// `inner_program` over `inner_accounts`.
pub uninterp spec fn execute_transaction_ix(
    program: Seq<u8>,
    governance: Seq<u8>,
    proposal: Seq<u8>,
    slot_address: Seq<u8>,
    inner_program: Seq<u8>,
    inner_accounts: Seq<AccountMetaModel>,
) -> InstructionModel;

/// Relies on the governance crate's `execute_transaction` builder, which
/// derives no address of its own.
#[verifier::external_body]
pub(crate) fn build_execute_transaction(
    program: &Vec<u8>,
    governance: &Vec<u8>,
    proposal: &Vec<u8>,
    slot_address: &Vec<u8>,
    inner_program: &Vec<u8>,
    inner_accounts: &Vec<AccountMetaData>,
) -> (built: LocalInstructionData)
    requires
        program@.len() == 32,
        governance@.len() == 32,
        proposal@.len() == 32,
        slot_address@.len() == 32,
        inner_program@.len() == 32,
        forall|i: int| 0 <= i < inner_accounts@.len() ==> (#[trigger] inner_accounts@[i]).pubkey@
            .len() == 32,
    ensures
        built@ == execute_transaction_ix(
            program@,
            governance@,
            proposal@,
            slot_address@,
            inner_program@,
            inner_accounts@.map_values(|meta: AccountMetaData| meta@),
        ),
{
    let metas = account_metas_of(inner_accounts);
    let ix = spl_governance::instruction::execute_transaction(
        &pubkey_of(program), &pubkey_of(governance), &pubkey_of(proposal),
        &pubkey_of(slot_address), &pubkey_of(inner_program), metas.as_slice(),
    );
    local_instruction_of(ix)
}

} // verus!
