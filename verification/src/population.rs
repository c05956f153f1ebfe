//! The proposal-population stage.
//!
//! One run snapshots the governance account once, derives the proposal and
//! owner-record addresses from that snapshot, creates the proposal, and
//! then inserts the batch's work items one by one through the bounded-retry
//! submitter.  The transaction index advances only after a confirmed
//! insertion, so the indices actually used stay contiguous; a failed item
//! is recorded for recovery and the next success reuses its index.  The
//! proposal is signed off exactly when nothing failed.

use vstd::prelude::*;
use crate::batch::{
    lemma_every_index_assigned, lemma_failure_positions_ordered, lemma_successes_all,
    lemma_successes_bounds, lemma_successes_range, successes_before,
};
use crate::boundary::{
    add_signatory_ix, build_add_signatory, build_create_proposal, build_insert_transaction,
    build_sign_off_proposal, create_proposal_ix, decode_governance, decode_instruction,
    decoded_instruction, governance_snapshot_of, insert_transaction_ix, sign_off_proposal_ix,
};
use crate::instruction_data::LocalInstructionData;
use crate::pda::{
    address_to_base58, base58_of, derive_address, pda_of, proposal_deposit_seeds,
    proposal_deposit_seed_bytes_of, proposal_seed_bytes, proposal_seeds,
    proposal_transaction_seed_bytes, proposal_transaction_seeds, realm_config_seeds,
    realm_config_seed_bytes_of, signatory_record_seeds, signatory_record_seed_bytes,
    token_owner_record_seeds, token_owner_record_seed_bytes, u64_le,
};
use crate::records::{ErroneousProposalTransactions, GrantInstruction, ProposalTransaction,
    TransactionsToExecute, clone_bytes};

verus! {

/// The option index under which every work item is filed: this pipeline
/// populates single-option proposals.
pub const PROPOSAL_OPTION: u8 = 0;

/// The immutable addressing context of one population run, all derived from
/// a single snapshot of the governance account.
pub struct ProposalContext {
    pub governance_program: Vec<u8>,
    pub governance_key: Vec<u8>,
    pub realm: Vec<u8>,
    pub council_mint: Vec<u8>,
    pub proposal_seed: Vec<u8>,
    pub proposal_address: Vec<u8>,
    pub owner_record: Vec<u8>,
    pub authority: Vec<u8>,
}

impl ProposalContext {
    /// Every address has its full 32 bytes, and the derived addresses are
    /// the ones the seed layouts give for this context.
    pub open spec fn wf(&self) -> bool {
        &&& self.governance_program@.len() == 32
        &&& self.governance_key@.len() == 32
        &&& self.realm@.len() == 32
        &&& self.council_mint@.len() == 32
        &&& self.proposal_seed@.len() == 32
        &&& self.proposal_address@.len() == 32
        &&& self.owner_record@.len() == 32
        &&& self.authority@.len() == 32
        &&& Some(self.owner_record@) == pda_of(
            token_owner_record_seeds(self.realm@, self.council_mint@, self.authority@),
            self.governance_program@,
        )
        &&& Some(self.proposal_address@) == pda_of(
            proposal_seeds(self.governance_key@, self.council_mint@, self.proposal_seed@),
            self.governance_program@,
        )
    }
}

/// The 32 proposal-seed bytes derived from the snapshot counter: the
/// counter's little-endian bytes, zero-padded.
pub open spec fn counter_seed(counter: u64) -> Seq<u8> {
    u64_le(counter) + Seq::new(24, |i: int| 0u8)
}

/// Build the proposal-seed bytes for a snapshot counter.
pub fn counter_seed_bytes(counter: u64) -> (bytes: Vec<u8>)
    ensures
        bytes@ == counter_seed(counter),
        bytes@.len() == 32,
{
    let mut bytes = crate::pda::u64_le_bytes(counter);
    let mut i: usize = 0;
    while i < 24
        invariant
            i <= 24,
            bytes@ == u64_le(counter) + Seq::new(i as nat, |j: int| 0u8),
        decreases 24 - i,
    {
        bytes.push(0u8);
        assert(bytes@ =~= u64_le(counter) + Seq::new((i + 1) as nat, |j: int| 0u8));
        i = i + 1;
    }
    assert(bytes@ =~= counter_seed(counter));
    bytes
}

/// The address of the proposal-transaction slot this context files at a
/// transaction index, when it derives.
pub open spec fn slot_address(context: ProposalContext, index: u16) -> Option<Seq<u8>> {
    pda_of(
        proposal_transaction_seeds(context.proposal_address@, PROPOSAL_OPTION, index),
        context.governance_program@,
    )
}

/// Snapshot the governance account and derive the addressing context of one
/// population run.  `None` when the account bytes do not decode or one of
/// the two context addresses does not derive.
pub fn prepare_proposal_context(
    governance_program: &Vec<u8>,
    governance_key: &Vec<u8>,
    council_mint: &Vec<u8>,
    authority: &Vec<u8>,
    governance_account_bytes: &Vec<u8>,
) -> (context: Option<ProposalContext>)
    requires
        governance_program@.len() == 32,
        governance_key@.len() == 32,
        council_mint@.len() == 32,
        authority@.len() == 32,
    ensures
        context is Some <==> (governance_snapshot_of(governance_account_bytes@) matches Some(
            snapshot,
        ) && pda_of(
            token_owner_record_seeds(snapshot.0, council_mint@, authority@),
            governance_program@,
        ) is Some && pda_of(
            proposal_seeds(governance_key@, council_mint@, counter_seed(snapshot.1)),
            governance_program@,
        ) is Some),
        context matches Some(ctx) ==> {
            &&& governance_snapshot_of(governance_account_bytes@) matches Some(snapshot) && {
                &&& ctx.realm@ == snapshot.0
                &&& ctx.proposal_seed@ == counter_seed(snapshot.1)
            }
            &&& ctx.governance_program@ == governance_program@
            &&& ctx.governance_key@ == governance_key@
            &&& ctx.council_mint@ == council_mint@
            &&& ctx.authority@ == authority@
            &&& ctx.wf()
        },
{
    let snapshot = match decode_governance(governance_account_bytes) {
        Some(snapshot) => snapshot,
        None => {
            return None;
        },
    };
    let proposal_seed = counter_seed_bytes(snapshot.active_proposal_count);
    let owner_seeds = token_owner_record_seed_bytes(&snapshot.realm, council_mint, authority);
    let owner_record = match derive_address(&owner_seeds, governance_program) {
        Some(address) => address,
        None => {
            return None;
        },
    };
    let proposal_pda_seeds = proposal_seed_bytes(governance_key, council_mint, &proposal_seed);
    let proposal_address = match derive_address(&proposal_pda_seeds, governance_program) {
        Some(address) => address,
        None => {
            return None;
        },
    };
    Some(ProposalContext {
        governance_program: clone_bytes(governance_program),
        governance_key: clone_bytes(governance_key),
        realm: snapshot.realm,
        council_mint: clone_bytes(council_mint),
        proposal_seed,
        proposal_address,
        owner_record,
        authority: clone_bytes(authority),
    })
}

/// Plan the run-opening transaction: the create-proposal instruction (one
/// "Approve" option, deny allowed) and the add-signatory instruction that
/// makes the authority the proposal's signatory.  `None` when one of the
/// addresses the governance builders derive internally does not derive.
pub fn plan_create_proposal(
    context: &ProposalContext,
    name: &String,
    description: &String,
) -> (plan: Option<(LocalInstructionData, LocalInstructionData)>)
    requires
        context.wf(),
    ensures
        plan is Some <==> {
            &&& pda_of(realm_config_seeds(context.realm@), context.governance_program@) is Some
            &&& pda_of(
                proposal_deposit_seeds(context.proposal_address@, context.authority@),
                context.governance_program@,
            ) is Some
            &&& pda_of(
                signatory_record_seeds(context.proposal_address@, context.authority@),
                context.governance_program@,
            ) is Some
        },
        plan matches Some(pair) ==> {
            &&& pair.0@ == create_proposal_ix(
                context.governance_program@,
                context.governance_key@,
                context.owner_record@,
                context.authority@,
                context.authority@,
                context.realm@,
                name@,
                description@,
                context.council_mint@,
                seq!["Approve"@],
                true,
                context.proposal_seed@,
            )
            &&& pair.1@ == add_signatory_ix(
                context.governance_program@,
                context.governance_key@,
                context.proposal_address@,
                context.authority@,
                context.owner_record@,
                context.authority@,
                context.authority@,
            )
        },
{
    let realm_config = derive_address(
        &realm_config_seed_bytes_of(&context.realm),
        &context.governance_program,
    );
    if realm_config.is_none() {
        return None;
    }
    let deposit = derive_address(
        &proposal_deposit_seed_bytes_of(&context.proposal_address, &context.authority),
        &context.governance_program,
    );
    if deposit.is_none() {
        return None;
    }
    let signatory_record = derive_address(
        &signatory_record_seed_bytes(&context.proposal_address, &context.authority),
        &context.governance_program,
    );
    if signatory_record.is_none() {
        return None;
    }
    let mut options: Vec<String> = Vec::new();
    options.push("Approve".to_owned());
    assert(options@.map_values(|option: String| option@) =~= seq!["Approve"@]);
    let create = build_create_proposal(
        &context.governance_program,
        &context.governance_key,
        &context.owner_record,
        &context.authority,
        &context.authority,
        &context.realm,
        name,
        description,
        &context.council_mint,
        &options,
        true,
        &context.proposal_seed,
    );
    let add = build_add_signatory(
        &context.governance_program,
        &context.governance_key,
        &context.proposal_address,
        &context.authority,
        &context.owner_record,
        &context.authority,
        &context.authority,
    );
    Some((create, add))
}

/// Plan the sign-off instruction that opens the fully populated proposal
/// for voting.  `None` when the signatory-record address the builder
/// derives internally does not derive.
pub fn plan_sign_off(context: &ProposalContext) -> (plan: Option<LocalInstructionData>)
    requires
        context.wf(),
    ensures
        plan is Some <==> pda_of(
            signatory_record_seeds(context.proposal_address@, context.authority@),
            context.governance_program@,
        ) is Some,
        plan matches Some(built) ==> built@ == sign_off_proposal_ix(
            context.governance_program@,
            context.realm@,
            context.governance_key@,
            context.proposal_address@,
            context.authority@,
        ),
{
    let signatory_record = derive_address(
        &signatory_record_seed_bytes(&context.proposal_address, &context.authority),
        &context.governance_program,
    );
    if signatory_record.is_none() {
        return None;
    }
    Some(build_sign_off_proposal(
        &context.governance_program,
        &context.realm,
        &context.governance_key,
        &context.proposal_address,
        &context.authority,
    ))
}

/// Plan the insert-transaction instruction that files a work item at the
/// given transaction index.  `None` when the item's payload does not decode
/// or the slot address does not derive.
pub fn plan_insert(
    context: &ProposalContext,
    index: u16,
    item: &GrantInstruction,
) -> (plan: Option<LocalInstructionData>)
    requires
        context.wf(),
    ensures
        plan is Some <==> (decoded_instruction(item.instruction@) is Some && slot_address(
            *context,
            index,
        ) is Some),
        plan matches Some(built) ==> (decoded_instruction(item.instruction@) matches Some(inner)
            && built@ == insert_transaction_ix(
            context.governance_program@,
            context.governance_key@,
            context.proposal_address@,
            context.owner_record@,
            context.authority@,
            context.authority@,
            PROPOSAL_OPTION,
            index,
            0u32,
            inner,
        )),
{
    let inner = match decode_instruction(&item.instruction) {
        Some(inner) => inner,
        None => {
            return None;
        },
    };
    let seeds = proposal_transaction_seed_bytes(&context.proposal_address, PROPOSAL_OPTION, index);
    let slot = derive_address(&seeds, &context.governance_program);
    if slot.is_none() {
        return None;
    }
    Some(build_insert_transaction(
        &context.governance_program,
        &context.governance_key,
        &context.proposal_address,
        &context.owner_record,
        &context.authority,
        &context.authority,
        PROPOSAL_OPTION,
        index,
        0u32,
        &inner,
    ))
}

/// `slot` records the insertion of `item` at transaction index `index` of
/// this context: it carries the slot's derived address in base58 and the
/// item's payload byte-for-byte.
pub open spec fn is_slot_for(
    slot: ProposalTransaction,
    context: ProposalContext,
    item: GrantInstruction,
    index: u16,
) -> bool {
    &&& slot_address(context, index) matches Some(address) && slot.address@ == base58_of(address)
    &&& slot.instruction@ == item.instruction@
}

/// `record` is the recovery record of `item` under this context: the full
/// addressing context in base58 and the item's payload byte-for-byte.
pub open spec fn is_failure_for(
    record: ErroneousProposalTransactions,
    context: ProposalContext,
    item: GrantInstruction,
) -> bool {
    &&& record.governance_program@ == base58_of(context.governance_program@)
    &&& record.governance_key@ == base58_of(context.governance_key@)
    &&& record.proposal_address@ == base58_of(context.proposal_address@)
    &&& record.proposal_owner_record@ == base58_of(context.owner_record@)
    &&& record.governance_authority@ == base58_of(context.authority@)
    &&& record.option_index == PROPOSAL_OPTION
    &&& record.instruction@ == item.instruction@
}

/// The slot list of a run over the first `end` items: one slot per
/// confirmed item, in batch order, each at the index given by the number of
/// confirmations before it.
pub open spec fn slots_match(
    slots: Seq<ProposalTransaction>,
    context: ProposalContext,
    items: Seq<GrantInstruction>,
    outcomes: Seq<bool>,
    end: int,
) -> bool {
    &&& slots.len() == successes_before(outcomes, end)
    &&& forall|i: int|
        #![trigger successes_before(outcomes, i)]
        0 <= i < end && outcomes[i] ==> is_slot_for(
            slots[successes_before(outcomes, i)],
            context,
            items[i],
            successes_before(outcomes, i) as u16,
        )
}

/// The recovery list of a run over the first `end` items: one record per
/// failed item, in batch order.
pub open spec fn failures_match(
    failed: Seq<ErroneousProposalTransactions>,
    context: ProposalContext,
    items: Seq<GrantInstruction>,
    outcomes: Seq<bool>,
    end: int,
) -> bool {
    &&& failed.len() == end - successes_before(outcomes, end)
    &&& forall|i: int|
        #![trigger successes_before(outcomes, i)]
        0 <= i < end && !outcomes[i] ==> is_failure_for(
            failed[i - successes_before(outcomes, i)],
            context,
            items[i],
        )
}

/// The running state of one population run: the context, the next
/// transaction index to assign, the slots inserted so far and the recovery
/// records collected so far.
pub struct PopulationRun {
    pub context: ProposalContext,
    pub next_index: u16,
    pub inserted: Vec<ProposalTransaction>,
    pub failed: Vec<ErroneousProposalTransactions>,
}

impl PopulationRun {
    /// A fresh run: index zero, nothing inserted, nothing failed.
    pub fn new(context: ProposalContext) -> (run: Self)
        ensures
            run.context == context,
            run.next_index == 0,
            run.inserted@.len() == 0,
            run.failed@.len() == 0,
    {
        PopulationRun { context, next_index: 0, inserted: Vec::new(), failed: Vec::new() }
    }

    /// Record a confirmed insertion: the slot record is appended and only
    /// then does the transaction index advance.
    pub fn record_confirmed(&mut self, item: &GrantInstruction, slot: Vec<u8>)
        requires
            old(self).next_index < 0xffff,
            slot@.len() == 32,
            Some(slot@) == slot_address(old(self).context, old(self).next_index),
        ensures
            final(self).context == old(self).context,
            final(self).failed == old(self).failed,
            final(self).next_index == old(self).next_index + 1,
            final(self).inserted@.len() == old(self).inserted@.len() + 1,
            forall|i: int| 0 <= i < old(self).inserted@.len() ==> final(self).inserted@[i] == old(
                self,
            ).inserted@[i],
            is_slot_for(
                final(self).inserted@.last(),
                old(self).context,
                *item,
                old(self).next_index,
            ),
    {
        let address = address_to_base58(&slot);
        self.inserted.push(ProposalTransaction {
            address,
            instruction: clone_bytes(&item.instruction),
        });
        self.next_index = self.next_index + 1;
    }

    /// Record a failed insertion: a recovery record is appended and the
    /// transaction index stays where it is, to be reused by the next
    /// success.
    pub fn record_failed(&mut self, item: &GrantInstruction)
        requires
            old(self).context.wf(),
        ensures
            final(self).context == old(self).context,
            final(self).inserted == old(self).inserted,
            final(self).next_index == old(self).next_index,
            final(self).failed@.len() == old(self).failed@.len() + 1,
            forall|i: int| 0 <= i < old(self).failed@.len() ==> final(self).failed@[i] == old(
                self,
            ).failed@[i],
            is_failure_for(final(self).failed@.last(), old(self).context, *item),
    {
        let record = ErroneousProposalTransactions {
            governance_program: address_to_base58(&self.context.governance_program),
            governance_key: address_to_base58(&self.context.governance_key),
            proposal_address: address_to_base58(&self.context.proposal_address),
            proposal_owner_record: address_to_base58(&self.context.owner_record),
            governance_authority: address_to_base58(&self.context.authority),
            option_index: PROPOSAL_OPTION,
            instruction: clone_bytes(&item.instruction),
        };
        self.failed.push(record);
    }

    /// Record the submission outcome of one item.  A failure is always
    /// recorded; a confirmation is recorded when the slot address derives,
    /// which the caller learns from the returned flag.  When the flag is
    /// false the run is unchanged.
    pub fn record_outcome(&mut self, item: &GrantInstruction, confirmed: bool) -> (accepted: bool)
        requires
            old(self).context.wf(),
            old(self).next_index < 0xffff,
        ensures
            final(self).context == old(self).context,
            !confirmed ==> {
                &&& accepted
                &&& final(self).inserted == old(self).inserted
                &&& final(self).next_index == old(self).next_index
                &&& final(self).failed@.len() == old(self).failed@.len() + 1
                &&& forall|i: int| 0 <= i < old(self).failed@.len() ==> final(self).failed@[i]
                    == old(self).failed@[i]
                &&& is_failure_for(final(self).failed@.last(), old(self).context, *item)
            },
            confirmed && accepted ==> {
                &&& slot_address(old(self).context, old(self).next_index) is Some
                &&& final(self).failed == old(self).failed
                &&& final(self).next_index == old(self).next_index + 1
                &&& final(self).inserted@.len() == old(self).inserted@.len() + 1
                &&& forall|i: int| 0 <= i < old(self).inserted@.len() ==> final(self).inserted@[i]
                    == old(self).inserted@[i]
                &&& is_slot_for(
                    final(self).inserted@.last(),
                    old(self).context,
                    *item,
                    old(self).next_index,
                )
            },
            confirmed && !accepted ==> *final(self) == *old(self) && slot_address(
                old(self).context,
                old(self).next_index,
            ) is None,
    {
        if !confirmed {
            self.record_failed(item);
            return true;
        }
        let seeds = proposal_transaction_seed_bytes(
            &self.context.proposal_address,
            PROPOSAL_OPTION,
            self.next_index,
        );
        match derive_address(&seeds, &self.context.governance_program) {
            Some(slot) => {
                self.record_confirmed(item, slot);
                true
            },
            None => false,
        }
    }

    /// Whether the proposal is to be signed off: exactly when no item of
    /// the run failed.
    pub fn sign_off_due(&self) -> (due: bool)
        ensures
            due == (self.failed@.len() == 0),
    {
        self.failed.len() == 0
    }
}

/// Run a whole population fold over the per-item submission outcomes.  The
/// run is `None` only when the slot address of some confirmed item did not
/// derive; otherwise the slots and recovery records are exactly the
/// success-gated fold of the outcomes.
pub fn populate(
    context: ProposalContext,
    items: &Vec<GrantInstruction>,
    outcomes: &Vec<bool>,
) -> (run: Option<PopulationRun>)
    requires
        context.wf(),
        items@.len() == outcomes@.len(),
        items@.len() < 0x10000,
    ensures
        run matches Some(done) ==> {
            &&& done.context == context
            &&& done.next_index as int == successes_before(outcomes@, outcomes@.len() as int)
            &&& slots_match(done.inserted@, context, items@, outcomes@, items@.len() as int)
            &&& failures_match(done.failed@, context, items@, outcomes@, items@.len() as int)
        },
        run is None ==> (exists|i: int|
            #![trigger outcomes@[i]]
            0 <= i < outcomes@.len() && outcomes@[i] && slot_address(
                context,
                successes_before(outcomes@, i) as u16,
            ) is None),
{
    let mut run = PopulationRun::new(context);
    let mut i: usize = 0;
    while i < items.len()
        invariant
            run.context == context,
            context.wf(),
            items@.len() == outcomes@.len(),
            items@.len() < 0x10000,
            i <= items@.len(),
            run.next_index as int == successes_before(outcomes@, i as int),
            slots_match(run.inserted@, context, items@, outcomes@, i as int),
            failures_match(run.failed@, context, items@, outcomes@, i as int),
        decreases items@.len() - i,
    {
        proof {
            lemma_successes_bounds(outcomes@, i as int);
        }
        let ghost before = run;
        let accepted = run.record_outcome(&items[i], outcomes[i]);
        if !accepted {
            proof {
                assert(outcomes@[i as int] && slot_address(
                    context,
                    successes_before(outcomes@, i as int) as u16,
                ) is None);
            }
            return None;
        }
        proof {
            let end = i as int;
            assert(successes_before(outcomes@, end + 1) == successes_before(outcomes@, end) + if
                outcomes@[end] {
                1int
            } else {
                0int
            });
            if outcomes@[end] {
                assert forall|j: int|
                    #![trigger successes_before(outcomes@, j)]
                    0 <= j < end + 1 && outcomes@[j] implies is_slot_for(
                    run.inserted@[successes_before(outcomes@, j)],
                    context,
                    items@[j],
                    successes_before(outcomes@, j) as u16,
                ) by {
                    if j < end {
                        assert(successes_before(outcomes@, j + 1) == successes_before(outcomes@, j)
                            + 1);
                        lemma_successes_range(outcomes@, j + 1, end);
                        lemma_successes_bounds(outcomes@, j);
                        assert(run.inserted@[successes_before(outcomes@, j)] == before.inserted@[
                            successes_before(outcomes@, j)
                        ]);
                    } else {
                        assert(run.inserted@[successes_before(outcomes@, end)]
                            == run.inserted@.last());
                    }
                }
            } else {
                assert forall|j: int|
                    #![trigger successes_before(outcomes@, j)]
                    0 <= j < end + 1 && !outcomes@[j] implies is_failure_for(
                    run.failed@[j - successes_before(outcomes@, j)],
                    context,
                    items@[j],
                ) by {
                    if j < end {
                        lemma_failure_positions_ordered(outcomes@, j, end);
                        lemma_successes_bounds(outcomes@, j);
                        lemma_successes_range(outcomes@, j, end);
                        assert(run.failed@[j - successes_before(outcomes@, j)] == before.failed@[
                            j - successes_before(outcomes@, j)
                        ]);
                    } else {
                        assert(run.failed@[end - successes_before(outcomes@, end)]
                            == run.failed@.last());
                    }
                }
            }
        }
        i = i + 1;
    }
    Some(run)
}

/// Turn a finished run into its two persisted artifacts: the execution
/// hand-off with every inserted slot, and, exactly when something failed,
/// the recovery set.
pub fn into_artifacts(run: PopulationRun) -> (artifacts: (
    TransactionsToExecute,
    Option<Vec<ErroneousProposalTransactions>>,
))
    requires
        run.context.wf(),
    ensures
        artifacts.0.governance@ == base58_of(run.context.governance_key@),
        artifacts.0.proposal@ == base58_of(run.context.proposal_address@),
        artifacts.0.transactions == run.inserted,
        artifacts.1 is Some <==> run.failed@.len() > 0,
        artifacts.1 matches Some(recovery) ==> recovery == run.failed,
{
    let governance = address_to_base58(&run.context.governance_key);
    let proposal = address_to_base58(&run.context.proposal_address);
    let recovery = if run.failed.len() > 0 {
        Some(run.failed)
    } else {
        None
    };
    (TransactionsToExecute { governance, proposal, transactions: run.inserted }, recovery)
}

/// LAW: in a batch with no submission failures the assigned transaction
/// indices are exactly `0 .. N-1`, gap-free and in batch order, and no
/// recovery record is produced.
pub proof fn lemma_population_all_confirmed(
    context: ProposalContext,
    items: Seq<GrantInstruction>,
    outcomes: Seq<bool>,
    slots: Seq<ProposalTransaction>,
    failed: Seq<ErroneousProposalTransactions>,
)
    requires
        items.len() == outcomes.len(),
        forall|i: int| 0 <= i < outcomes.len() ==> outcomes[i],
        slots_match(slots, context, items, outcomes, items.len() as int),
        failures_match(failed, context, items, outcomes, items.len() as int),
    ensures
        failed.len() == 0,
        slots.len() == items.len(),
        forall|i: int| 0 <= i < items.len() ==> is_slot_for(slots[i], context, items[i], i as u16),
{
    lemma_successes_all(outcomes, items.len() as int);
    assert forall|i: int| 0 <= i < items.len() implies is_slot_for(
        slots[i],
        context,
        items[i],
        i as u16,
    ) by {
        lemma_successes_all(outcomes, i);
        assert(successes_before(outcomes, i) == i);
    }
}

/// LAW: in a batch with failures the confirmed items get exactly the
/// indices `0 .. successes-1`, gap-free: every index below the success
/// count is the index of some confirmed item's slot.
pub proof fn lemma_success_indices_gap_free(
    context: ProposalContext,
    items: Seq<GrantInstruction>,
    outcomes: Seq<bool>,
    slots: Seq<ProposalTransaction>,
    k: int,
)
    requires
        items.len() == outcomes.len(),
        slots_match(slots, context, items, outcomes, items.len() as int),
        0 <= k < slots.len(),
    ensures
        exists|i: int|
            0 <= i < items.len() && outcomes[i] && successes_before(outcomes, i) == k
                && is_slot_for(slots[k], context, items[i], k as u16),
{
    lemma_every_index_assigned(outcomes, items.len() as int, k);
    let i = choose|i: int|
        0 <= i < items.len() as int && outcomes[i] && successes_before(outcomes, i) == k;
    assert(is_slot_for(slots[successes_before(outcomes, i)], context, items[i],
        successes_before(outcomes, i) as u16));
    assert(0 <= i < items.len() && outcomes[i] && successes_before(outcomes, i) == k
        && is_slot_for(slots[k], context, items[i], k as u16));
}

/// LAW: the recovery set holds exactly the failed items in their original
/// relative order: an earlier failure sits at a smaller recovery position.
pub proof fn lemma_recovery_keeps_order(
    context: ProposalContext,
    items: Seq<GrantInstruction>,
    outcomes: Seq<bool>,
    failed: Seq<ErroneousProposalTransactions>,
    early: int,
    late: int,
)
    requires
        items.len() == outcomes.len(),
        failures_match(failed, context, items, outcomes, items.len() as int),
        0 <= early < late < items.len(),
        !outcomes[early],
        !outcomes[late],
    ensures
        0 <= early - successes_before(outcomes, early),
        early - successes_before(outcomes, early) < late - successes_before(outcomes, late),
        late - successes_before(outcomes, late) < failed.len(),
        is_failure_for(failed[early - successes_before(outcomes, early)], context, items[early]),
        is_failure_for(failed[late - successes_before(outcomes, late)], context, items[late]),
{
    lemma_successes_bounds(outcomes, early);
    lemma_failure_positions_ordered(outcomes, early, late);
    assert(successes_before(outcomes, late + 1) == successes_before(outcomes, late));
    lemma_successes_range(outcomes, late + 1, items.len() as int);
}

/// LAW: sign-off is due exactly when the recovery set is empty, which holds
/// exactly when every item of the batch was confirmed.
pub proof fn lemma_sign_off_iff_all_confirmed(
    context: ProposalContext,
    items: Seq<GrantInstruction>,
    outcomes: Seq<bool>,
    failed: Seq<ErroneousProposalTransactions>,
)
    requires
        items.len() == outcomes.len(),
        failures_match(failed, context, items, outcomes, items.len() as int),
    ensures
        (failed.len() == 0) <==> (forall|i: int| 0 <= i < outcomes.len() ==> outcomes[i]),
{
    let end = items.len() as int;
    if failed.len() == 0 {
        assert forall|i: int| 0 <= i < outcomes.len() implies outcomes[i] by {
            if !outcomes[i] {
                lemma_successes_bounds(outcomes, i);
                assert(successes_before(outcomes, i + 1) == successes_before(outcomes, i));
                lemma_successes_range(outcomes, i + 1, end);
            }
        }
    }
    if forall|i: int| 0 <= i < outcomes.len() ==> outcomes[i] {
        lemma_successes_all(outcomes, end);
    }
}

/// LAW: feeding the recovery set back through the population fold, with
/// every retried item now confirmed, leaves an empty recovery set, inserts
/// every retried payload, and brings the total of confirmed items across
/// both runs to the original batch size.
pub proof fn lemma_population_replay(
    context: ProposalContext,
    retry_context: ProposalContext,
    items: Seq<GrantInstruction>,
    outcomes: Seq<bool>,
    slots: Seq<ProposalTransaction>,
    failed: Seq<ErroneousProposalTransactions>,
    retry_items: Seq<GrantInstruction>,
    retry_outcomes: Seq<bool>,
    retry_slots: Seq<ProposalTransaction>,
    retry_failed: Seq<ErroneousProposalTransactions>,
)
    requires
        items.len() == outcomes.len(),
        slots_match(slots, context, items, outcomes, items.len() as int),
        failures_match(failed, context, items, outcomes, items.len() as int),
        retry_items.len() == failed.len(),
        forall|k: int| 0 <= k < retry_items.len() ==> (#[trigger] retry_items[k]).instruction@
            == failed[k].instruction@,
        retry_outcomes.len() == retry_items.len(),
        forall|k: int| 0 <= k < retry_outcomes.len() ==> retry_outcomes[k],
        slots_match(retry_slots, retry_context, retry_items, retry_outcomes,
            retry_items.len() as int),
        failures_match(retry_failed, retry_context, retry_items, retry_outcomes,
            retry_items.len() as int),
    ensures
        retry_failed.len() == 0,
        slots.len() + retry_slots.len() == items.len(),
        forall|k: int|
            #![trigger retry_slots[k]]
            0 <= k < retry_slots.len() ==> is_slot_for(
                retry_slots[k],
                retry_context,
                retry_items[k],
                k as u16,
            ) && retry_slots[k].instruction@ == failed[k].instruction@,
{
    let retry_end = retry_items.len() as int;
    lemma_successes_all(retry_outcomes, retry_end);
    lemma_successes_bounds(outcomes, items.len() as int);
    assert forall|k: int|
        #![trigger retry_slots[k]]
        0 <= k < retry_slots.len() implies is_slot_for(
        retry_slots[k],
        retry_context,
        retry_items[k],
        k as u16,
    ) && retry_slots[k].instruction@ == failed[k].instruction@ by {
        lemma_successes_all(retry_outcomes, k);
        assert(successes_before(retry_outcomes, k) == k);
    }
}

} // verus!
