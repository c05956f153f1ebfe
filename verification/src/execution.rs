//! The proposal-execution stage.
//!
//! A previously persisted list of inserted slots is replayed: each slot's
//! payload is decoded, its two fixed authority positions lose their signer
//! flag (the governance program attests them at execution time), and an
//! execute-transaction instruction is built and submitted.  Slots are
//! independent, so a failure never blocks the remaining slots; the failed
//! slots are collected, byte-identical, into a recovery batch of the same
//! shape as the input.

use vstd::prelude::*;
use crate::batch::{
    lemma_failure_positions_ordered, lemma_successes_all, lemma_successes_bounds,
    successes_before,
};
use crate::boundary::{
    build_execute_transaction, decode_instruction, decoded_instruction, execute_transaction_ix,
};
use crate::instruction_data::{
    LocalInstructionData, SECOND_AUTHORITY_POSITION, execution_rewrite, rewrite_authority_signers,
};
use crate::pda::{address_from_base58, base58_decoded};
use crate::records::{ProposalTransaction, TransactionsToExecute};

verus! {

/// Plan the execute-transaction instruction of one slot: decode the
/// payload, clear the signer flag of the two fixed authority positions, and
/// build the instruction that references the slot's address.  `None` when
/// the slot address does not parse, the payload does not decode, or the
/// account list is too short to hold both authority positions.
pub fn plan_execution(
    governance_program: &Vec<u8>,
    governance: &Vec<u8>,
    proposal: &Vec<u8>,
    slot: &ProposalTransaction,
) -> (plan: Option<LocalInstructionData>)
    requires
        governance_program@.len() == 32,
        governance@.len() == 32,
        proposal@.len() == 32,
    ensures
        plan is Some <==> {
            &&& base58_decoded(slot.address@) is Some
            &&& decoded_instruction(slot.instruction@) matches Some(inner) && inner.accounts.len()
                > SECOND_AUTHORITY_POSITION
        },
        plan matches Some(built) ==> (base58_decoded(slot.address@) matches Some(address)
            && decoded_instruction(slot.instruction@) matches Some(inner) && built@
            == execute_transaction_ix(
            governance_program@,
            governance@,
            proposal@,
            address,
            inner.program_id,
            execution_rewrite(inner).accounts,
        )),
{
    let address = match address_from_base58(&slot.address) {
        Some(address) => address,
        None => {
            return None;
        },
    };
    let mut inner = match decode_instruction(&slot.instruction) {
        Some(inner) => inner,
        None => {
            return None;
        },
    };
    if inner.accounts.len() <= SECOND_AUTHORITY_POSITION {
        return None;
    }
    let ghost decoded = inner@;
    rewrite_authority_signers(&mut inner);
    proof {
        assert(inner@.accounts == execution_rewrite(decoded).accounts);
        assert forall|i: int|
            0 <= i < inner.accounts@.len() implies (#[trigger] inner.accounts@[i]).pubkey@.len()
            == 32 by {
            assert(inner@.accounts[i] == inner.accounts@[i]@);
            assert(decoded.accounts[i].pubkey.len() == 32);
            assert(inner@.accounts[i].pubkey == decoded.accounts[i].pubkey);
        }
        assert(inner.program_id@ == decoded.program_id);
    }
    Some(build_execute_transaction(
        governance_program,
        governance,
        proposal,
        &address,
        &inner.program_id,
        &inner.accounts,
    ))
}

/// The recovery batch of an execution run over the first `end` slots: one
/// entry per failed slot, the slot itself, in batch order.
pub open spec fn failed_slots_match(
    failed: Seq<ProposalTransaction>,
    slots: Seq<ProposalTransaction>,
    outcomes: Seq<bool>,
    end: int,
) -> bool {
    &&& failed.len() == end - successes_before(outcomes, end)
    &&& forall|i: int|
        #![trigger successes_before(outcomes, i)]
        0 <= i < end && !outcomes[i] ==> failed[i - successes_before(outcomes, i)] == slots[i]
}

/// Fold the per-slot submission outcomes of an execution run.  Exactly when
/// some slot failed, a recovery batch comes back: the same governance and
/// proposal, and exactly the failed slots in their original order,
/// byte-identical.
pub fn execute_outcomes(
    batch: TransactionsToExecute,
    outcomes: &Vec<bool>,
) -> (recovery: Option<TransactionsToExecute>)
    requires
        batch.transactions@.len() == outcomes@.len(),
    ensures
        recovery is Some <==> successes_before(outcomes@, outcomes@.len() as int)
            < outcomes@.len(),
        recovery matches Some(rest) ==> {
            &&& rest.governance == batch.governance
            &&& rest.proposal == batch.proposal
            &&& failed_slots_match(
                rest.transactions@,
                batch.transactions@,
                outcomes@,
                outcomes@.len() as int,
            )
        },
{
    let ghost original = batch.transactions@;
    let TransactionsToExecute { governance, proposal, transactions } = batch;
    let mut remaining = transactions;
    let mut failed_slots: Vec<ProposalTransaction> = Vec::new();
    let mut i: usize = 0;
    assert(remaining@ =~= original.skip(0));
    while i < outcomes.len()
        invariant
            outcomes@.len() == original.len(),
            i <= original.len(),
            remaining@ == original.skip(i as int),
            failed_slots@.len() == i - successes_before(outcomes@, i as int),
            forall|j: int|
                #![trigger successes_before(outcomes@, j)]
                0 <= j < i && !outcomes@[j] ==> failed_slots@[j - successes_before(outcomes@, j)]
                    == original[j],
        decreases original.len() - i,
    {
        proof {
            lemma_successes_bounds(outcomes@, i as int);
        }
        let ghost failed_before = failed_slots@;
        let slot = remaining.remove(0);
        assert(slot == original[i as int]);
        assert(remaining@ =~= original.skip(i as int + 1));
        if !outcomes[i] {
            failed_slots.push(slot);
        }
        proof {
            let end = i as int;
            assert(successes_before(outcomes@, end + 1) == successes_before(outcomes@, end) + if
                outcomes@[end] {
                1int
            } else {
                0int
            });
            if !outcomes@[end] {
                assert forall|j: int|
                    #![trigger successes_before(outcomes@, j)]
                    0 <= j < end + 1 && !outcomes@[j] implies failed_slots@[j - successes_before(
                    outcomes@,
                    j,
                )] == original[j] by {
                    if j < end {
                        lemma_failure_positions_ordered(outcomes@, j, end);
                        lemma_successes_bounds(outcomes@, j);
                        assert(failed_slots@[j - successes_before(outcomes@, j)] == failed_before[
                            j - successes_before(outcomes@, j)
                        ]);
                    } else {
                        assert(failed_slots@[end - successes_before(outcomes@, end)]
                            == failed_slots@.last());
                    }
                }
            }
        }
        i = i + 1;
    }
    if failed_slots.len() > 0 {
        Some(TransactionsToExecute { governance, proposal, transactions: failed_slots })
    } else {
        None
    }
}

/// LAW: feeding an execution recovery batch back through the execution
/// fold, with every retried slot now confirmed, yields an empty recovery
/// set, and the two runs together cover the original batch: the successes
/// of the first run plus the retried slots make up every slot.
pub proof fn lemma_execution_replay(
    slots: Seq<ProposalTransaction>,
    outcomes: Seq<bool>,
    failed: Seq<ProposalTransaction>,
    retry_outcomes: Seq<bool>,
    retry_failed: Seq<ProposalTransaction>,
)
    requires
        outcomes.len() == slots.len(),
        failed_slots_match(failed, slots, outcomes, slots.len() as int),
        retry_outcomes.len() == failed.len(),
        forall|k: int| 0 <= k < retry_outcomes.len() ==> retry_outcomes[k],
        failed_slots_match(retry_failed, failed, retry_outcomes, failed.len() as int),
    ensures
        retry_failed.len() == 0,
        successes_before(outcomes, slots.len() as int) + failed.len() == slots.len(),
{
    lemma_successes_all(retry_outcomes, failed.len() as int);
}

} // verus!
