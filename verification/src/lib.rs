//! Verified core of a snapshot/churn stress harness for a copy-on-write
//! storage engine.
//!
//! The library holds the decision logic of the harness: dataset and snapshot
//! naming rules, the argument lists and outcome classification for every
//! storage-engine invocation, corpus and churn planning, and the snapshot
//! lifecycle (retention trimming and incremental-transfer gating).  The
//! unverified binary around it performs the actual subprocess calls, file
//! I/O and threading, handing plain values in and out.

use vstd::prelude::*;

pub mod churn;
pub mod corpus;
pub mod data;
pub mod lifecycle;
pub mod names;
pub mod parse;
pub mod render;
pub mod rng;
pub mod seed;
pub mod zfs;

pub use zfs::EngineErrorKind;
pub use zfs::EngineOutcome;
pub use zfs::ZfsError;
pub use zfs::classify_engine_error;
pub use zfs::contains_str;
pub use zfs::create_outcome;
pub use zfs::dataset_children_outcome;
pub use zfs::destroy_outcome;
pub use zfs::get_outcome;
pub use zfs::snapshot_exists_outcome;
pub use zfs::snapshot_list_outcome;
pub use zfs::strict_outcome;
pub use zfs::zfs_clone;
pub use zfs::zfs_create;
pub use zfs::zfs_dataset_children;
pub use zfs::zfs_destroy;
pub use zfs::zfs_destroy_snapshot;
pub use zfs::zfs_get;
pub use zfs::zfs_send_to_null;
pub use zfs::zfs_snapshot;
pub use zfs::zfs_snapshot_exists;
pub use zfs::zfs_snapshot_list;

pub use corpus::CHUNK_SIZE;
pub use corpus::CHUNKS_PER_MEGABYTE;
pub use corpus::FILE_MAX;
pub use corpus::FILE_MIN;
pub use corpus::FileSpec;
pub use corpus::SEED_FILE_COUNT;
pub use corpus::chunk_count;
pub use corpus::corpus_chunk;
pub use corpus::corpus_file_spec;
pub use corpus::corpus_plan;
pub use seed::Plant;
pub use seed::Seed;
pub use seed::SeedStep;
pub use seed::final_snapshot_name;
pub use seed::plant_dataset_name;
pub use seed::seed_dataset_name;
pub use seed::seed_setup_plan;

pub use lifecycle::CYCLE_SLEEP_MS;
pub use lifecycle::CYCLE_WORKERS;
pub use lifecycle::MAXSNAPS;
pub use lifecycle::cycle_snapshot_name;
pub use lifecycle::retention_step;
pub use lifecycle::retention_trim;
pub use lifecycle::transfer_pair;

pub use churn::ChurnError;
pub use churn::ChurnOp;
pub use churn::churn_iops;
pub use churn::churn_offset;
pub use churn::churn_op;
pub use churn::sweep_order;
pub use data::fill_block;

pub use names::validate_dataset_name;
pub use names::validate_snapshot_name;

verus! {

/// One kilobyte, the unit of a single churn operation.
pub const KILOBYTE: u64 = 1024;

/// One megabyte; file sizes in the seed corpus are drawn in megabytes.
pub const MEGABYTE: u64 = 1048576;

} // verus!
