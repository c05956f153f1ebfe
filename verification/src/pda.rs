//! Program-derived addresses and address text.
//!
//! Every account the pipeline touches sits at a program-derived address:
//! the token-owner record, the proposal, each proposal-transaction slot,
//! the signatory record, and the bookkeeping accounts the governance
//! program derives internally.  This module holds the seed layouts exactly
//! as the governance program defines them, and the derivation itself behind
//! one trusted call.

use vstd::prelude::*;
use crate::records::clone_bytes;

verus! {

/// The two little-endian bytes of a 16-bit value.
pub open spec fn u16_le(value: u16) -> Seq<u8> {
    seq![(value & 0xff) as u8, ((value >> 8) & 0xff) as u8]
}

/// The eight little-endian bytes of a 64-bit value.
pub open spec fn u64_le(value: u64) -> Seq<u8> {
    seq![
        (value & 0xff) as u8,
        ((value >> 8) & 0xff) as u8,
        ((value >> 16) & 0xff) as u8,
        ((value >> 24) & 0xff) as u8,
        ((value >> 32) & 0xff) as u8,
        ((value >> 40) & 0xff) as u8,
        ((value >> 48) & 0xff) as u8,
        ((value >> 56) & 0xff) as u8,
    ]
}

pub fn u16_le_bytes(value: u16) -> (bytes: Vec<u8>)
    ensures
        bytes@ == u16_le(value),
{
    let mut bytes: Vec<u8> = Vec::new();
    bytes.push((value & 0xff) as u8);
    bytes.push(((value >> 8) & 0xff) as u8);
    assert(bytes@ =~= u16_le(value));
    bytes
}

pub fn u64_le_bytes(value: u64) -> (bytes: Vec<u8>)
    ensures
        bytes@ == u64_le(value),
{
    let mut bytes: Vec<u8> = Vec::new();
    bytes.push((value & 0xff) as u8);
    bytes.push(((value >> 8) & 0xff) as u8);
    bytes.push(((value >> 16) & 0xff) as u8);
    bytes.push(((value >> 24) & 0xff) as u8);
    bytes.push(((value >> 32) & 0xff) as u8);
    bytes.push(((value >> 40) & 0xff) as u8);
    bytes.push(((value >> 48) & 0xff) as u8);
    bytes.push(((value >> 56) & 0xff) as u8);
    assert(bytes@ =~= u64_le(value));
    bytes
}

/// The governance program's common authority seed: the bytes of
/// "governance".
pub open spec fn governance_seed() -> Seq<u8> {
    seq![103u8, 111u8, 118u8, 101u8, 114u8, 110u8, 97u8, 110u8, 99u8, 101u8]
}

pub fn governance_seed_bytes() -> (bytes: Vec<u8>)
    ensures
        bytes@ == governance_seed(),
{
    let mut bytes: Vec<u8> = Vec::new();
    bytes.push(103u8);
    bytes.push(111u8);
    bytes.push(118u8);
    bytes.push(101u8);
    bytes.push(114u8);
    bytes.push(110u8);
    bytes.push(97u8);
    bytes.push(110u8);
    bytes.push(99u8);
    bytes.push(101u8);
    assert(bytes@ =~= governance_seed());
    bytes
}

/// The realm-config account seed: the bytes of "realm-config".
pub open spec fn realm_config_seed() -> Seq<u8> {
    seq![114u8, 101u8, 97u8, 108u8, 109u8, 45u8, 99u8, 111u8, 110u8, 102u8, 105u8, 103u8]
}

pub fn realm_config_seed_bytes() -> (bytes: Vec<u8>)
    ensures
        bytes@ == realm_config_seed(),
{
    let mut bytes: Vec<u8> = Vec::new();
    bytes.push(114u8);
    bytes.push(101u8);
    bytes.push(97u8);
    bytes.push(108u8);
    bytes.push(109u8);
    bytes.push(45u8);
    bytes.push(99u8);
    bytes.push(111u8);
    bytes.push(110u8);
    bytes.push(102u8);
    bytes.push(105u8);
    bytes.push(103u8);
    assert(bytes@ =~= realm_config_seed());
    bytes
}

/// The proposal-deposit account seed: the bytes of "proposal-deposit".
pub open spec fn proposal_deposit_seed() -> Seq<u8> {
    seq![
        112u8, 114u8, 111u8, 112u8, 111u8, 115u8, 97u8, 108u8, 45u8, 100u8, 101u8, 112u8,
        111u8, 115u8, 105u8, 116u8,
    ]
}

pub fn proposal_deposit_seed_bytes() -> (bytes: Vec<u8>)
    ensures
        bytes@ == proposal_deposit_seed(),
{
    let mut bytes: Vec<u8> = Vec::new();
    bytes.push(112u8);
    bytes.push(114u8);
    bytes.push(111u8);
    bytes.push(112u8);
    bytes.push(111u8);
    bytes.push(115u8);
    bytes.push(97u8);
    bytes.push(108u8);
    bytes.push(45u8);
    bytes.push(100u8);
    bytes.push(101u8);
    bytes.push(112u8);
    bytes.push(111u8);
    bytes.push(115u8);
    bytes.push(105u8);
    bytes.push(116u8);
    assert(bytes@ =~= proposal_deposit_seed());
    bytes
}

/// The seed views of an executable seed list.
pub open spec fn seeds_view(seeds: Seq<Vec<u8>>) -> Seq<Seq<u8>> {
    seeds.map_values(|seed: Vec<u8>| seed@)
}

/// Seeds of a token-owner record: the authority seed, the realm, the
/// governing token mint and the token owner.
pub open spec fn token_owner_record_seeds(
    realm: Seq<u8>,
    mint: Seq<u8>,
    owner: Seq<u8>,
) -> Seq<Seq<u8>> {
    seq![governance_seed(), realm, mint, owner]
}

/// Seeds of a proposal account: the authority seed, the governance account,
/// the governing token mint and the proposal seed bytes.
pub open spec fn proposal_seeds(
    governance: Seq<u8>,
    mint: Seq<u8>,
    proposal_seed: Seq<u8>,
) -> Seq<Seq<u8>> {
    seq![governance_seed(), governance, mint, proposal_seed]
}

/// Seeds of a proposal-transaction slot: the authority seed, the proposal,
/// the option index byte and the two little-endian transaction-index bytes.
pub open spec fn proposal_transaction_seeds(
    proposal: Seq<u8>,
    option_index: u8,
    transaction_index: u16,
) -> Seq<Seq<u8>> {
    seq![governance_seed(), proposal, seq![option_index], u16_le(transaction_index)]
}

/// Seeds of a signatory record: the authority seed, the proposal and the
/// signatory.
pub open spec fn signatory_record_seeds(proposal: Seq<u8>, signatory: Seq<u8>) -> Seq<Seq<u8>> {
    seq![governance_seed(), proposal, signatory]
}

/// Seeds of the realm-config account.
pub open spec fn realm_config_seeds(realm: Seq<u8>) -> Seq<Seq<u8>> {
    seq![realm_config_seed(), realm]
}

/// Seeds of the proposal-deposit account the governance program derives
/// when a proposal is created.
pub open spec fn proposal_deposit_seeds(proposal: Seq<u8>, payer: Seq<u8>) -> Seq<Seq<u8>> {
    seq![proposal_deposit_seed(), proposal, payer]
}

/// The program-derived address for a seed list under a program, when one
/// exists.
pub uninterp spec fn pda_of(seeds: Seq<Seq<u8>>, program: Seq<u8>) -> Option<Seq<u8>>;

/// Relies on the ledger SDK's `Pubkey::try_find_program_address`: the
/// derived address is a pure function of the seeds and the program, 32
/// bytes long, and `None` exactly when no bump seed yields a valid address
/// or the seeds exceed the SDK's limits.
#[verifier::external_body]
pub(crate) fn derive_address(seeds: &Vec<Vec<u8>>, program: &Vec<u8>) -> (address: Option<
    Vec<u8>,
>)
    requires
        program@.len() == 32,
    ensures
        address is Some <==> pda_of(seeds_view(seeds@), program@) is Some,
        address matches Some(bytes) ==> Some(bytes@) == pda_of(seeds_view(seeds@), program@)
            && bytes@.len() == 32,
{
    let program_id = solana_program::pubkey::Pubkey::try_from(program.as_slice()).unwrap();
    let seed_slices: Vec<&[u8]> = seeds.iter().map(|seed| seed.as_slice()).collect();
    solana_program::pubkey::Pubkey::try_find_program_address(&seed_slices, &program_id)
        .map(|(address, _bump)| address.to_bytes().to_vec())
}

/// The base58 text of a 32-byte address.
pub uninterp spec fn base58_of(bytes: Seq<u8>) -> Seq<char>;

/// Relies on the ledger SDK's base58 rendering of a public key (its
/// `Display`): the text depends on the 32 address bytes alone.
#[verifier::external_body]
pub(crate) fn address_to_base58(bytes: &Vec<u8>) -> (text: String)
    requires
        bytes@.len() == 32,
    ensures
        text@ == base58_of(bytes@),
{
    solana_program::pubkey::Pubkey::try_from(bytes.as_slice()).unwrap().to_string()
}

/// The 32 address bytes a base58 text stands for, when it is well-formed.
pub uninterp spec fn base58_decoded(text: Seq<char>) -> Option<Seq<u8>>;

/// Relies on the ledger SDK's `Pubkey::from_str`: parsing depends on the
/// text alone and succeeds exactly on well-formed 32-byte base58 text.
#[verifier::external_body]
pub(crate) fn address_from_base58(text: &String) -> (bytes: Option<Vec<u8>>)
    ensures
        bytes is Some <==> base58_decoded(text@) is Some,
        bytes matches Some(decoded) ==> Some(decoded@) == base58_decoded(text@)
            && decoded@.len() == 32,
{
    match text.as_str().parse::<solana_program::pubkey::Pubkey>() {
        Ok(parsed) => Some(parsed.to_bytes().to_vec()),
        Err(_) => None,
    }
}

/// Build the executable seed list for a token-owner record.
pub(crate) fn token_owner_record_seed_bytes(
    realm: &Vec<u8>,
    mint: &Vec<u8>,
    owner: &Vec<u8>,
) -> (seeds: Vec<Vec<u8>>)
    ensures
        seeds_view(seeds@) == token_owner_record_seeds(realm@, mint@, owner@),
{
    let mut seeds: Vec<Vec<u8>> = Vec::new();
    seeds.push(governance_seed_bytes());
    seeds.push(clone_bytes(realm));
    seeds.push(clone_bytes(mint));
    seeds.push(clone_bytes(owner));
    assert(seeds_view(seeds@) =~= token_owner_record_seeds(realm@, mint@, owner@));
    seeds
}

/// Build the executable seed list for a proposal account.
pub(crate) fn proposal_seed_bytes(
    governance: &Vec<u8>,
    mint: &Vec<u8>,
    proposal_seed: &Vec<u8>,
) -> (seeds: Vec<Vec<u8>>)
    ensures
        seeds_view(seeds@) == proposal_seeds(governance@, mint@, proposal_seed@),
{
    let mut seeds: Vec<Vec<u8>> = Vec::new();
    seeds.push(governance_seed_bytes());
    seeds.push(clone_bytes(governance));
    seeds.push(clone_bytes(mint));
    seeds.push(clone_bytes(proposal_seed));
    assert(seeds_view(seeds@) =~= proposal_seeds(governance@, mint@, proposal_seed@));
    seeds
}

/// Build the executable seed list for a proposal-transaction slot.
pub(crate) fn proposal_transaction_seed_bytes(
    proposal: &Vec<u8>,
    option_index: u8,
    transaction_index: u16,
) -> (seeds: Vec<Vec<u8>>)
    ensures
        seeds_view(seeds@) == proposal_transaction_seeds(
            proposal@,
            option_index,
            transaction_index,
        ),
{
    let mut seeds: Vec<Vec<u8>> = Vec::new();
    seeds.push(governance_seed_bytes());
    seeds.push(clone_bytes(proposal));
    let mut option_bytes: Vec<u8> = Vec::new();
    option_bytes.push(option_index);
    assert(option_bytes@ =~= seq![option_index]);
    seeds.push(option_bytes);
    seeds.push(u16_le_bytes(transaction_index));
    assert(seeds_view(seeds@) =~= proposal_transaction_seeds(
        proposal@,
        option_index,
        transaction_index,
    ));
    seeds
}

/// Build the executable seed list for a signatory record.
pub(crate) fn signatory_record_seed_bytes(proposal: &Vec<u8>, signatory: &Vec<u8>) -> (seeds:
    Vec<Vec<u8>>)
    ensures
        seeds_view(seeds@) == signatory_record_seeds(proposal@, signatory@),
{
    let mut seeds: Vec<Vec<u8>> = Vec::new();
    seeds.push(governance_seed_bytes());
    seeds.push(clone_bytes(proposal));
    seeds.push(clone_bytes(signatory));
    assert(seeds_view(seeds@) =~= signatory_record_seeds(proposal@, signatory@));
    seeds
}

/// Build the executable seed list for the realm-config account.
pub(crate) fn realm_config_seed_bytes_of(realm: &Vec<u8>) -> (seeds: Vec<Vec<u8>>)
    ensures
        seeds_view(seeds@) == realm_config_seeds(realm@),
{
    let mut seeds: Vec<Vec<u8>> = Vec::new();
    seeds.push(realm_config_seed_bytes());
    seeds.push(clone_bytes(realm));
    assert(seeds_view(seeds@) =~= realm_config_seeds(realm@));
    seeds
}

/// Build the executable seed list for the proposal-deposit account.
pub(crate) fn proposal_deposit_seed_bytes_of(
    proposal: &Vec<u8>,
    payer: &Vec<u8>,
) -> (seeds: Vec<Vec<u8>>)
    ensures
        seeds_view(seeds@) == proposal_deposit_seeds(proposal@, payer@),
{
    let mut seeds: Vec<Vec<u8>> = Vec::new();
    seeds.push(proposal_deposit_seed_bytes());
    seeds.push(clone_bytes(proposal));
    seeds.push(clone_bytes(payer));
    assert(seeds_view(seeds@) =~= proposal_deposit_seeds(proposal@, payer@));
    seeds
}

} // verus!
