//! Versioned persisted snapshots of the controller state, used for
//! durability and for safe schema evolution across node upgrades.
//!
//! Schema evolution is additive-only: supporting new fields takes a new
//! tagged variant plus an explicit conversion from every older variant;
//! an existing variant's meaning is never changed in place.

use vstd::prelude::*;

use crate::algorithm::AlgorithmUpdaterV1;

verus! {

/// The execution-price slice of the controller state. Reconstructing a
/// controller from it zero-fills every DA field — a documented, intentional
/// migration policy of this variant.
#[derive(Clone, Debug, PartialEq, Eq)]
pub struct V1NoDAMetadata {
    /// The gas price to cover the execution of the next block.
    pub new_exec_price: u64,
    /// The lowest the algorithm allows the exec gas price to go.
    pub min_exec_gas_price: u64,
    /// The percentage the exec gas price changes in a single block, either
    /// up or down, depending on the fullness of the last L2 block.
    pub exec_gas_price_change_percent: u64,
    /// The height of the next expected L2 block.
    pub l2_block_height: u32,
    /// The percentage of gas usage above which the exec gas price increases
    /// and below which it decreases.
    pub l2_block_fullness_threshold_percent: u64,
}

/// A tagged union of versioned controller snapshots, keyed externally by
/// `l2_block_height`.
#[derive(Clone, Debug, PartialEq, Eq)]
pub enum UpdaterMetadata {
    V1NoDA(V1NoDAMetadata),
}

/// The snapshot that captures `updater`: its execution-price fields, exactly.
pub open spec fn metadata_of(updater: AlgorithmUpdaterV1) -> UpdaterMetadata {
    UpdaterMetadata::V1NoDA(
        V1NoDAMetadata {
            new_exec_price: updater.new_exec_price,
            min_exec_gas_price: updater.min_exec_gas_price,
            exec_gas_price_change_percent: updater.exec_gas_price_change_percent,
            l2_block_height: updater.l2_block_height,
            l2_block_fullness_threshold_percent: updater.l2_block_fullness_threshold_percent,
        },
    )
}

/// Holds when `updater` is the controller reconstructed from `metadata`:
/// the execution-price fields are taken over exactly and every DA-related
/// field is zero-filled.
pub open spec fn rebuilt_from(updater: AlgorithmUpdaterV1, metadata: UpdaterMetadata) -> bool {
    match metadata {
        UpdaterMetadata::V1NoDA(v1) => {
            &&& updater.new_exec_price == v1.new_exec_price
            &&& updater.min_exec_gas_price == v1.min_exec_gas_price
            &&& updater.exec_gas_price_change_percent == v1.exec_gas_price_change_percent
            &&& updater.l2_block_height == v1.l2_block_height
            &&& updater.l2_block_fullness_threshold_percent
                == v1.l2_block_fullness_threshold_percent
            &&& updater.last_da_price == 0
            &&& updater.min_da_gas_price == 0
            &&& updater.max_da_gas_price_change_percent == 0
            &&& updater.total_da_rewards == 0
            &&& updater.da_recorded_block_height == 0
            &&& updater.latest_known_total_da_cost == 0
            &&& updater.projected_total_da_cost == 0
            &&& updater.da_p_component == 0
            &&& updater.da_d_component == 0
            &&& updater.profit_avg == 0
            &&& updater.avg_window == 0
            &&& updater.last_profit == 0
            &&& updater.latest_da_cost_per_byte == 0
            &&& updater.unrecorded_blocks@.len() == 0
        },
    }
}

impl UpdaterMetadata {
    /// The height this snapshot belongs to, whatever its variant.
    pub open spec fn spec_l2_block_height(self) -> u32 {
        match self {
            UpdaterMetadata::V1NoDA(v1) => v1.l2_block_height,
        }
    }

    /// Variant-agnostic accessor for the storage key, decoupling
    /// persistence addressing from the controller's internal layout.
    pub fn l2_block_height(&self) -> (r: u32)
        ensures
            r == self.spec_l2_block_height(),
    {
        match self {
            UpdaterMetadata::V1NoDA(v1) => v1.l2_block_height,
        }
    }

    /// Captures the controller's execution-price fields as a `V1NoDA`
    /// snapshot.
    pub fn from_updater(updater: &AlgorithmUpdaterV1) -> (r: UpdaterMetadata)
        ensures
            r == metadata_of(*updater),
    {
        UpdaterMetadata::V1NoDA(
            V1NoDAMetadata {
                new_exec_price: updater.new_exec_price,
                min_exec_gas_price: updater.min_exec_gas_price,
                exec_gas_price_change_percent: updater.exec_gas_price_change_percent,
                l2_block_height: updater.l2_block_height,
                l2_block_fullness_threshold_percent: updater
                    .l2_block_fullness_threshold_percent,
            },
        )
    }
}

impl AlgorithmUpdaterV1 {
    /// Reconstructs a controller from a persisted snapshot.
    ///
    /// The `V1NoDA` variant carries only execution-price fields, so every
    /// DA field of the result is zero-filled by design, and the conversion
    /// always succeeds; the `Result` shape is the migration path kept open
    /// for future variants.
    pub fn try_from_metadata(
        metadata: UpdaterMetadata,
    ) -> (r: Result<AlgorithmUpdaterV1, crate::updater::Error>)
        ensures
            r matches Ok(updater) && rebuilt_from(updater, metadata),
    {
        match metadata {
            UpdaterMetadata::V1NoDA(v1) => {
                let updater = AlgorithmUpdaterV1 {
                    new_exec_price: v1.new_exec_price,
                    min_exec_gas_price: v1.min_exec_gas_price,
                    exec_gas_price_change_percent: v1.exec_gas_price_change_percent,
                    l2_block_height: v1.l2_block_height,
                    l2_block_fullness_threshold_percent: v1.l2_block_fullness_threshold_percent,
                    last_da_price: 0,
                    min_da_gas_price: 0,
                    max_da_gas_price_change_percent: 0,
                    total_da_rewards: 0,
                    da_recorded_block_height: 0,
                    latest_known_total_da_cost: 0,
                    projected_total_da_cost: 0,
                    da_p_component: 0,
                    da_d_component: 0,
                    profit_avg: 0,
                    avg_window: 0,
                    last_profit: 0,
                    latest_da_cost_per_byte: 0,
                    unrecorded_blocks: Vec::new(),
                };
                Ok(updater)
            },
        }
    }
}

/// Law (round trip): snapshotting a controller and reconstructing from that
/// snapshot preserves all execution-price fields exactly and resets every
/// DA-related field to zero.
pub proof fn lemma_metadata_round_trip(updater: AlgorithmUpdaterV1, rebuilt: AlgorithmUpdaterV1)
    requires
        rebuilt_from(rebuilt, metadata_of(updater)),
    ensures
        rebuilt.new_exec_price == updater.new_exec_price,
        rebuilt.min_exec_gas_price == updater.min_exec_gas_price,
        rebuilt.exec_gas_price_change_percent == updater.exec_gas_price_change_percent,
        rebuilt.l2_block_height == updater.l2_block_height,
        rebuilt.l2_block_fullness_threshold_percent
            == updater.l2_block_fullness_threshold_percent,
        rebuilt.last_da_price == 0,
        rebuilt.min_da_gas_price == 0,
        rebuilt.max_da_gas_price_change_percent == 0,
        rebuilt.total_da_rewards == 0,
        rebuilt.da_recorded_block_height == 0,
        rebuilt.latest_known_total_da_cost == 0,
        rebuilt.projected_total_da_cost == 0,
        rebuilt.da_p_component == 0,
        rebuilt.da_d_component == 0,
        rebuilt.profit_avg == 0,
        rebuilt.avg_window == 0,
        rebuilt.last_profit == 0,
        rebuilt.latest_da_cost_per_byte == 0,
        rebuilt.unrecorded_blocks@.len() == 0,
{
}

} // verus!
