//! Fee-market control core of a blockchain execution node.
//!
//! Computes, per L2 block, the gas price charged for execution (the "exec
//! price") and the component attributed to publishing data to an external
//! availability layer (the "DA price"). The stateful controller
//! [`algorithm::AlgorithmUpdaterV1`] folds one block observation at a time
//! into its prices and ledgers; [`metadata::UpdaterMetadata`] is its
//! versioned persisted snapshot, used for restart recovery; the driver
//! [`updater::FuelGasPriceUpdater`] holds the controller together with its
//! collaborators and makes the per-cycle decisions around it.

pub mod algorithm;
pub mod builder;
pub mod metadata;
pub mod updater;

pub use algorithm::AlgorithmUpdaterV1;
pub use algorithm::AlgorithmV1;
pub use algorithm::RecordedBlock;
