//! The data carried through the pipeline and the records it leaves behind.
//!
//! A batch arrives as grant descriptions together with prebuilt, opaque
//! instruction payloads.  A population run turns it into the list of
//! inserted proposal-transaction slots (the input of the execution stage)
//! and, when items failed, recovery records that carry everything needed to
//! retry exactly the unfinished work.  Addresses travel in these records in
//! their base58 string form; instruction payloads travel byte-for-byte.

use vstd::prelude::*;

verus! {

/// The lockup flavour of a grant.
#[derive(Clone, Copy, Debug, PartialEq, Eq)]
pub enum GrantType {
    NoLockup,
    Daily,
    Monthly,
    Cliff,
    Constant,
}

/// One grant as the caller describes it, before an instruction payload is
/// attached.
#[derive(Clone, Debug, PartialEq)]
pub struct Grant {
    pub wallet: String,
    pub grant_type: GrantType,
    pub start: Option<u64>,
    pub periods: u32,
    pub allow_clawback: bool,
    pub amount: u64,
}

/// One work item of a population batch: the grant description plus the
/// prebuilt instruction payload, kept opaque by the pipeline.
#[derive(Clone, Debug, PartialEq)]
pub struct GrantInstruction {
    pub wallet: String,
    pub grant_type: GrantType,
    pub start: Option<u64>,
    pub periods: u32,
    pub allow_clawback: bool,
    pub amount: u64,
    pub instruction: Vec<u8>,
}

/// A token-withdrawal work item: the destination wallet and the prebuilt
/// instruction payload.
#[derive(Clone, Debug, PartialEq)]
pub struct WithdrawInstruction {
    pub wallet: String,
    pub instruction: Vec<u8>,
}

/// A whole population batch: proposal name, description link and the work
/// items to insert.
#[derive(Clone, Debug, PartialEq)]
pub struct ProposalData {
    pub name: String,
    pub description: String,
    pub grants: Vec<GrantInstruction>,
}

/// A grant work item paired with the signature of the transaction that
/// carried it, for reporting.
#[derive(Clone, Debug, PartialEq)]
pub struct Transaction {
    pub wallet: String,
    pub grant_type: GrantType,
    pub start: Option<u64>,
    pub periods: u32,
    pub allow_clawback: bool,
    pub amount: u64,
    pub tx: String,
}

/// One successfully inserted proposal-transaction slot: the slot's derived
/// address and the original instruction payload, unchanged.
#[derive(Clone, Debug, PartialEq)]
pub struct ProposalTransaction {
    pub address: String,
    pub instruction: Vec<u8>,
}

/// The hand-off from a population run to the execution stage: which
/// governance and proposal the slots belong to, and the slots in insertion
/// order.
#[derive(Clone, Debug, PartialEq)]
pub struct TransactionsToExecute {
    pub governance: String,
    pub proposal: String,
    pub transactions: Vec<ProposalTransaction>,
}

/// The recovery record of one work item whose insertion failed: enough
/// context to retry the insertion later without re-deriving anything, and
/// the payload byte-for-byte.
#[derive(Clone, Debug, PartialEq)]
pub struct ErroneousProposalTransactions {
    pub governance_program: String,
    pub governance_key: String,
    pub proposal_address: String,
    pub proposal_owner_record: String,
    pub governance_authority: String,
    pub option_index: u8,
    pub instruction: Vec<u8>,
}

/// An exact copy of a byte payload.
pub fn clone_bytes(bytes: &Vec<u8>) -> (copy: Vec<u8>)
    ensures
        copy@ == bytes@,
{
    let mut copy: Vec<u8> = Vec::new();
    let mut i: usize = 0;
    while i < bytes.len()
        invariant
            i <= bytes@.len(),
            copy@ == bytes@.take(i as int),
        decreases bytes@.len() - i,
    {
        copy.push(bytes[i]);
        assert(copy@ =~= bytes@.take(i + 1));
        i = i + 1;
    }
    assert(copy@ =~= bytes@);
    copy
}

/// Attach a prebuilt instruction payload to a grant description, copying
/// every field of the description unchanged.
pub fn grant_record(grant: &Grant, instruction: Vec<u8>) -> (record: GrantInstruction)
    ensures
        record.wallet == grant.wallet,
        record.grant_type == grant.grant_type,
        record.start == grant.start,
        record.periods == grant.periods,
        record.allow_clawback == grant.allow_clawback,
        record.amount == grant.amount,
        record.instruction@ == instruction@,
{
    GrantInstruction {
        wallet: grant.wallet.clone(),
        grant_type: grant.grant_type,
        start: grant.start,
        periods: grant.periods,
        allow_clawback: grant.allow_clawback,
        amount: grant.amount,
        instruction,
    }
}

/// Attach a prebuilt withdrawal payload to its destination wallet.
pub fn withdraw_record(wallet: &String, instruction: Vec<u8>) -> (record: WithdrawInstruction)
    ensures
        record.wallet == wallet,
        record.instruction@ == instruction@,
{
    WithdrawInstruction { wallet: wallet.clone(), instruction }
}

} // verus!
