//! The decisions of a proof-of-stake node with an address-mapping side chain,
//! each with its contract:
//!
//! - `import`: the block-import pipeline in front of the chain store;
//! - `queue`: the import queue with the blocks that wait for their parent;
//! - `consensus`: slot claims, authoring backoff and finality rounds;
//! - `mapping`: the address-mapping index;
//! - `cache`: the fee-history cache and the filter pool;
//! - `service`: the service plan and the supervision of its tasks;
//! - `storage`: the file registry;
//! - `weights`: the weight formulas of the tips pallet.

pub mod cache;
pub mod consensus;
pub mod import;
pub mod mapping;
pub mod queue;
pub mod service;
pub mod storage;
pub mod weights;
