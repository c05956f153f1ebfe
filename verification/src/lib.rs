//! Batch submission pipeline for governance proposals.
//!
//! The library covers the logic of populating a governance proposal with a
//! batch of prebuilt transactions and later executing the inserted slots:
//! the bounded-retry submitter, the success-gated transaction-index
//! bookkeeping, the recovery records for failed items, and the instruction
//! building at the governance-program boundary.  Network transport, signing
//! and file handling live outside the library; callers hand in the outcome
//! of each submission attempt and take plans (prebuilt instructions) and
//! records back.

pub mod batch;
pub mod boundary;
pub mod execution;
pub mod instruction_data;
pub mod pda;
pub mod population;
pub mod records;
pub mod submitter;
