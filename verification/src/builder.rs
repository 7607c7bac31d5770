//! A small builder for controller states, used to set up fixtures: every
//! field not set explicitly starts at zero, except the fullness threshold,
//! which starts at half capacity.

use vstd::prelude::*;

use crate::algorithm::AlgorithmUpdaterV1;

verus! {

/// Builds an [`AlgorithmUpdaterV1`] from chosen starting values.
#[derive(Clone, Copy, Debug, PartialEq, Eq)]
pub struct UpdaterBuilder {
    pub starting_exec_gas_price: u64,
    pub min_exec_gas_price: u64,
    pub exec_gas_price_change_percent: u64,
    pub l2_block_height: u32,
    pub l2_block_capacity_threshold: u64,
    pub starting_da_gas_price: u64,
    pub total_rewards: u64,
    pub da_cost_per_byte: u64,
    pub projected_total_cost: u64,
}

impl UpdaterBuilder {
    /// All-zero starting point, with the fullness threshold at 50 percent.
    pub fn new() -> (r: Self)
        ensures
            r == (UpdaterBuilder {
                starting_exec_gas_price: 0u64,
                min_exec_gas_price: 0u64,
                exec_gas_price_change_percent: 0u64,
                l2_block_height: 0u32,
                l2_block_capacity_threshold: 50u64,
                starting_da_gas_price: 0u64,
                total_rewards: 0u64,
                da_cost_per_byte: 0u64,
                projected_total_cost: 0u64,
            }),
    {
        Self {
            starting_exec_gas_price: 0,
            min_exec_gas_price: 0,
            exec_gas_price_change_percent: 0,
            l2_block_height: 0,
            l2_block_capacity_threshold: 50,
            starting_da_gas_price: 0,
            total_rewards: 0,
            da_cost_per_byte: 0,
            projected_total_cost: 0,
        }
    }

    pub fn with_starting_exec_gas_price(self, price: u64) -> (r: Self)
        ensures
            r == (UpdaterBuilder { starting_exec_gas_price: price, ..self }),
    {
        Self { starting_exec_gas_price: price, ..self }
    }

    pub fn with_exec_gas_price_increase_amount(self, percent: u64) -> (r: Self)
        ensures
            r == (UpdaterBuilder { exec_gas_price_change_percent: percent, ..self }),
    {
        Self { exec_gas_price_change_percent: percent, ..self }
    }

    pub fn with_l2_block_height(self, height: u32) -> (r: Self)
        ensures
            r == (UpdaterBuilder { l2_block_height: height, ..self }),
    {
        Self { l2_block_height: height, ..self }
    }

    pub fn with_l2_block_capacity_threshold(self, threshold: u64) -> (r: Self)
        ensures
            r == (UpdaterBuilder { l2_block_capacity_threshold: threshold, ..self }),
    {
        Self { l2_block_capacity_threshold: threshold, ..self }
    }

    pub fn with_starting_da_gas_price(self, price: u64) -> (r: Self)
        ensures
            r == (UpdaterBuilder { starting_da_gas_price: price, ..self }),
    {
        Self { starting_da_gas_price: price, ..self }
    }

    pub fn with_total_rewards(self, rewards: u64) -> (r: Self)
        ensures
            r == (UpdaterBuilder { total_rewards: rewards, ..self }),
    {
        Self { total_rewards: rewards, ..self }
    }

    pub fn with_da_cost_per_byte(self, cost_per_byte: u64) -> (r: Self)
        ensures
            r == (UpdaterBuilder { da_cost_per_byte: cost_per_byte, ..self }),
    {
        Self { da_cost_per_byte: cost_per_byte, ..self }
    }

    pub fn with_projected_total_cost(self, projected_cost: u64) -> (r: Self)
        ensures
            r == (UpdaterBuilder { projected_total_cost: projected_cost, ..self }),
    {
        Self { projected_total_cost: projected_cost, ..self }
    }

    /// The controller that starts from the chosen values; every field the
    /// builder does not carry starts at zero or empty.
    pub fn build(self) -> (r: AlgorithmUpdaterV1)
        ensures
            r.new_exec_price == self.starting_exec_gas_price,
            r.min_exec_gas_price == self.min_exec_gas_price,
            r.exec_gas_price_change_percent == self.exec_gas_price_change_percent,
            r.l2_block_height == self.l2_block_height,
            r.l2_block_fullness_threshold_percent == self.l2_block_capacity_threshold,
            r.last_da_price == self.starting_da_gas_price,
            r.min_da_gas_price == 0,
            r.max_da_gas_price_change_percent == 0,
            r.total_da_rewards == self.total_rewards,
            r.da_recorded_block_height == 0,
            r.latest_known_total_da_cost == 0,
            r.projected_total_da_cost == self.projected_total_cost,
            r.da_p_component == 0,
            r.da_d_component == 0,
            r.profit_avg == 0,
            r.avg_window == 0,
            r.last_profit == 0,
            r.latest_da_cost_per_byte == self.da_cost_per_byte,
            r.unrecorded_blocks@.len() == 0,
    {
        AlgorithmUpdaterV1 {
            new_exec_price: self.starting_exec_gas_price,
            min_exec_gas_price: self.min_exec_gas_price,
            exec_gas_price_change_percent: self.exec_gas_price_change_percent,
            l2_block_height: self.l2_block_height,
            l2_block_fullness_threshold_percent: self.l2_block_capacity_threshold,
            last_da_price: self.starting_da_gas_price,
            min_da_gas_price: 0,
            max_da_gas_price_change_percent: 0,
            total_da_rewards: self.total_rewards,
            da_recorded_block_height: 0,
            latest_known_total_da_cost: 0,
            projected_total_da_cost: self.projected_total_cost,
            da_p_component: 0,
            da_d_component: 0,
            profit_avg: 0,
            avg_window: 0,
            last_profit: 0,
            latest_da_cost_per_byte: self.da_cost_per_byte,
            unrecorded_blocks: Vec::new(),
        }
    }
}

} // verus!
