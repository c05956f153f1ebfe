//! The positional form of an instruction payload.
//!
//! The pipeline keeps instruction payloads opaque except for one rewrite:
//! at execution time the two authority entries of the account list (fixed
//! positions six and seven) must lose their signer flag, because the
//! governance program itself attests those authorities when the slot is
//! executed.  This module holds the decoded form of a payload, its
//! mathematical model, and that rewrite.

use vstd::prelude::*;

verus! {

/// One entry of an instruction's account list.
#[derive(Clone, Debug, PartialEq)]
pub struct AccountMetaData {
    /// The account's 32-byte address.
    pub pubkey: Vec<u8>,
    /// Whether the transaction must carry this account's signature.
    pub is_signer: bool,
    /// Whether the account may be written during execution.
    pub is_writable: bool,
}

/// The decoded form of an instruction payload: the program that executes
/// it, its ordered account list, and its opaque argument bytes.
#[derive(Clone, Debug, PartialEq)]
pub struct LocalInstructionData {
    pub program_id: Vec<u8>,
    pub accounts: Vec<AccountMetaData>,
    pub data: Vec<u8>,
}

/// Mathematical model of one account-list entry.
#[verifier::ext_equal]
pub ghost struct AccountMetaModel {
    pub pubkey: Seq<u8>,
    pub is_signer: bool,
    pub is_writable: bool,
}

/// Mathematical model of a decoded instruction payload.
#[verifier::ext_equal]
pub ghost struct InstructionModel {
    pub program_id: Seq<u8>,
    pub accounts: Seq<AccountMetaModel>,
    pub data: Seq<u8>,
}

impl View for AccountMetaData {
    type V = AccountMetaModel;

    open spec fn view(&self) -> AccountMetaModel {
        AccountMetaModel {
            pubkey: self.pubkey@,
            is_signer: self.is_signer,
            is_writable: self.is_writable,
        }
    }
}

impl View for LocalInstructionData {
    type V = InstructionModel;

    open spec fn view(&self) -> InstructionModel {
        InstructionModel {
            program_id: self.program_id@,
            accounts: self.accounts@.map_values(|meta: AccountMetaData| meta@),
            data: self.data@,
        }
    }
}

/// A payload is well formed when every address in it has the full 32 bytes.
pub open spec fn wf_instruction(model: InstructionModel) -> bool {
    &&& model.program_id.len() == 32
    &&& forall|i: int| 0 <= i < model.accounts.len() ==> (#[trigger] model.accounts[i]).pubkey.len()
        == 32
}

/// The account positions whose signer flag the execution stage clears: the
/// governance authority and the secondary authority of a grant payload.
pub const FIRST_AUTHORITY_POSITION: usize = 6;

pub const SECOND_AUTHORITY_POSITION: usize = 7;

/// An account-list entry with its signer flag cleared and everything else
/// unchanged.
pub open spec fn cleared_signer(meta: AccountMetaModel) -> AccountMetaModel {
    AccountMetaModel { is_signer: false, ..meta }
}

/// The execution-phase payload rewrite: both fixed authority positions lose
/// their signer flag; every other part of the payload stays as it was.
pub open spec fn execution_rewrite(model: InstructionModel) -> InstructionModel
    recommends
        model.accounts.len() > SECOND_AUTHORITY_POSITION,
{
    InstructionModel {
        accounts: model.accounts.update(
            FIRST_AUTHORITY_POSITION as int,
            cleared_signer(model.accounts[FIRST_AUTHORITY_POSITION as int]),
        ).update(
            SECOND_AUTHORITY_POSITION as int,
            cleared_signer(model.accounts[SECOND_AUTHORITY_POSITION as int]),
        ),
        ..model
    }
}

/// Clearing the two authority signer flags twice is the same as clearing
/// them once: the rewrite is idempotent.
pub proof fn lemma_execution_rewrite_idempotent(model: InstructionModel)
    requires
        model.accounts.len() > SECOND_AUTHORITY_POSITION,
    ensures
        execution_rewrite(execution_rewrite(model)) == execution_rewrite(model),
{
    assert(execution_rewrite(execution_rewrite(model)) =~~= execution_rewrite(model));
}

/// Clear the signer flag of both fixed authority positions, in place.
pub fn rewrite_authority_signers(instruction: &mut LocalInstructionData)
    requires
        old(instruction)@.accounts.len() > SECOND_AUTHORITY_POSITION,
    ensures
        final(instruction)@ == execution_rewrite(old(instruction)@),
{
    let first = AccountMetaData {
        pubkey: crate::records::clone_bytes(&instruction.accounts[FIRST_AUTHORITY_POSITION].pubkey),
        is_signer: false,
        is_writable: instruction.accounts[FIRST_AUTHORITY_POSITION].is_writable,
    };
    instruction.accounts.set(FIRST_AUTHORITY_POSITION, first);
    let second = AccountMetaData {
        pubkey: crate::records::clone_bytes(
            &instruction.accounts[SECOND_AUTHORITY_POSITION].pubkey,
        ),
        is_signer: false,
        is_writable: instruction.accounts[SECOND_AUTHORITY_POSITION].is_writable,
    };
    instruction.accounts.set(SECOND_AUTHORITY_POSITION, second);
    assert(instruction@ =~~= execution_rewrite(old(instruction)@));
}

} // verus!
