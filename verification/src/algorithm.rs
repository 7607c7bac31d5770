//! The gas price control algorithm: a pure, synchronous state machine that
//! folds one L2 block observation at a time into the execution and
//! data-availability (DA) price components.

use vstd::prelude::*;

verus! {

/// An L2 block whose DA cost confirmation has not arrived yet.
#[derive(Clone, Copy, Debug, PartialEq, Eq)]
pub struct RecordedBlock {
    pub height: u32,
    pub block_bytes: u64,
    pub block_cost: u64,
}

/// Rejections raised by the control algorithm itself.
#[derive(Clone, Copy, Debug, PartialEq, Eq)]
pub enum Error {
    /// The submitted block does not follow the last accepted one.
    SkippedL2Block { expected: u32, got: u32 },
}

/// Immutable pricing snapshot handed to downstream quoting code.
#[derive(Clone, Copy, Debug, PartialEq, Eq)]
pub struct AlgorithmV1 {
    /// The gas price to cover the execution of the next block.
    pub new_exec_price: u64,
    /// The gas price component covering DA publishing, as last derived.
    pub last_da_price: u64,
}

/// The stateful gas price controller.
///
/// All monetary and size quantities are non-negative integers except
/// `last_profit`, which is signed. Cumulative counters use saturating
/// arithmetic: an accumulation that would exceed the integer range pins the
/// counter at the range's end instead of wrapping.
#[derive(Clone, Debug, PartialEq)]
pub struct AlgorithmUpdaterV1 {
    /// The gas price to cover the execution of the next block.
    pub new_exec_price: u64,
    /// The lowest the algorithm allows the exec gas price to go.
    pub min_exec_gas_price: u64,
    /// The percentage the exec gas price changes in a single block, either
    /// up or down, depending on the fullness of the last L2 block.
    pub exec_gas_price_change_percent: u64,
    /// The height of the next expected L2 block.
    pub l2_block_height: u32,
    /// The percentage of gas usage above which the exec gas price increases
    /// and below which it decreases.
    pub l2_block_fullness_threshold_percent: u64,
    /// The DA gas price as derived from the last accepted block.
    pub last_da_price: u64,
    /// The lowest the algorithm allows the DA gas price to go.
    pub min_da_gas_price: u64,
    /// The most the DA gas price may change in a single block, as a percent.
    pub max_da_gas_price_change_percent: u64,
    /// Cumulative DA price revenue collected across all processed blocks.
    pub total_da_rewards: u64,
    /// The height of the last L2 block whose DA cost was confirmed.
    pub da_recorded_block_height: u32,
    /// Cumulative DA cost across the confirmed blocks.
    pub latest_known_total_da_cost: u64,
    /// Cumulative estimated cost of DA publishing across all processed blocks.
    pub projected_total_da_cost: u64,
    /// Proportional gain applied to the profit signal.
    pub da_p_component: i64,
    /// Derivative gain applied to the profit signal.
    pub da_d_component: i64,
    /// Smoothed profit used for profit-based adjustment.
    pub profit_avg: i64,
    /// Window length of the profit smoothing.
    pub avg_window: u32,
    /// Profit as of before the last accepted block was folded in: a
    /// deliberate one-period lag used as the controller's feedback signal.
    pub last_profit: i64,
    /// The latest known cost per byte of publishing a block to the DA layer.
    pub latest_da_cost_per_byte: u64,
    /// Blocks whose DA cost confirmation is still outstanding.
    pub unrecorded_blocks: Vec<RecordedBlock>,
}

/// Saturates a mathematical integer into the `u64` range.
pub open spec fn sat_u64(x: int) -> u64 {
    if x > u64::MAX {
        u64::MAX
    } else if x < 0 {
        0u64
    } else {
        x as u64
    }
}

/// Clamps a mathematical integer into the `i64` range.
pub open spec fn clamp_i64(x: int) -> i64 {
    if x > i64::MAX {
        i64::MAX
    } else if x < i64::MIN {
        i64::MIN
    } else {
        x as i64
    }
}

/// Fullness of a block, as an integer percentage of its gas capacity.
pub open spec fn fullness_percent(used: u64, capacity: u64) -> int
    recommends
        capacity > 0,
{
    (used * 100) / (capacity as int)
}

/// The amount by which the exec price steps in one block: the configured
/// percentage of the current price.
pub open spec fn exec_price_change_amount(price: u64, percent: u64) -> int {
    (price * percent) / 100
}

/// The exec price after one block: a threshold (bang-bang) controller. A
/// block fuller than the threshold raises the price by one step, an emptier
/// one lowers it by the same step but never below `min_price`, and a block
/// exactly at the threshold leaves it unchanged.
pub open spec fn next_exec_price(
    price: u64,
    min_price: u64,
    percent: u64,
    threshold: u64,
    used: u64,
    capacity: u64,
) -> u64
    recommends
        capacity > 0,
{
    let fullness = fullness_percent(used, capacity);
    let change = exec_price_change_amount(price, percent);
    if fullness > threshold {
        sat_u64(price + change)
    } else if fullness < threshold {
        let lowered = sat_u64(price - change);
        if lowered < min_price {
            min_price
        } else {
            lowered
        }
    } else {
        price
    }
}

/// The full success transition of one accepted block: `post` is `pre` with
/// the exec price stepped per the fullness threshold, the DA price derived
/// from the observed total price, both cumulative ledgers grown by this
/// block's contribution, the lagged profit snapshot taken from the
/// pre-update ledgers, and the height advanced by exactly one. Every other
/// field is unchanged.
pub open spec fn accepted_transition(
    pre: AlgorithmUpdaterV1,
    post: AlgorithmUpdaterV1,
    height: u32,
    fullness: (u64, u64),
    block_bytes: u64,
    gas_price: u64,
) -> bool {
    &&& height == pre.l2_block_height + 1
    &&& post.l2_block_height == height
    &&& post.new_exec_price == next_exec_price(
        pre.new_exec_price,
        pre.min_exec_gas_price,
        pre.exec_gas_price_change_percent,
        pre.l2_block_fullness_threshold_percent,
        fullness.0,
        fullness.1,
    )
    &&& post.last_da_price == sat_u64(gas_price - post.new_exec_price)
    &&& post.total_da_rewards == sat_u64(pre.total_da_rewards + post.last_da_price * fullness.0)
    &&& post.projected_total_da_cost == sat_u64(
        pre.projected_total_da_cost + block_bytes * pre.latest_da_cost_per_byte,
    )
    &&& post.last_profit == clamp_i64(pre.total_da_rewards - pre.projected_total_da_cost)
    &&& post.min_exec_gas_price == pre.min_exec_gas_price
    &&& post.exec_gas_price_change_percent == pre.exec_gas_price_change_percent
    &&& post.l2_block_fullness_threshold_percent == pre.l2_block_fullness_threshold_percent
    &&& post.min_da_gas_price == pre.min_da_gas_price
    &&& post.max_da_gas_price_change_percent == pre.max_da_gas_price_change_percent
    &&& post.da_recorded_block_height == pre.da_recorded_block_height
    &&& post.latest_known_total_da_cost == pre.latest_known_total_da_cost
    &&& post.da_p_component == pre.da_p_component
    &&& post.da_d_component == pre.da_d_component
    &&& post.profit_avg == pre.profit_avg
    &&& post.avg_window == pre.avg_window
    &&& post.latest_da_cost_per_byte == pre.latest_da_cost_per_byte
    &&& post.unrecorded_blocks@ == pre.unrecorded_blocks@
}

impl AlgorithmUpdaterV1 {
    /// Returns the current pricing snapshot; mutates nothing.
    pub fn algorithm(&self) -> (r: AlgorithmV1)
        ensures
            r.new_exec_price == self.new_exec_price,
            r.last_da_price == self.last_da_price,
    {
        AlgorithmV1 { new_exec_price: self.new_exec_price, last_da_price: self.last_da_price }
    }

    /// Steps the exec price once per the fullness threshold rule.
    fn update_exec_gas_price(&mut self, used: u64, capacity: u64)
        requires
            capacity > 0,
        ensures
            final(self).new_exec_price == next_exec_price(
                old(self).new_exec_price,
                old(self).min_exec_gas_price,
                old(self).exec_gas_price_change_percent,
                old(self).l2_block_fullness_threshold_percent,
                used,
                capacity,
            ),
            *final(self) == (AlgorithmUpdaterV1 {
                new_exec_price: final(self).new_exec_price,
                ..*old(self)
            }),
    {
        let price: u64 = self.new_exec_price;
        let percent: u64 = self.exec_gas_price_change_percent;
        let fullness: u128 = (used as u128) * 100 / (capacity as u128);
        let threshold: u128 = self.l2_block_fullness_threshold_percent as u128;
        proof {
            assert((price as int) * (percent as int) <= (u64::MAX as int) * (u64::MAX as int))
                by (nonlinear_arith)
                requires
                    price <= u64::MAX,
                    percent <= u64::MAX,
            ;
        }
        let change: u128 = (price as u128) * (percent as u128) / 100;
        if fullness > threshold {
            let raised: u128 = (price as u128) + change;
            self.new_exec_price = if raised > u64::MAX as u128 {
                u64::MAX
            } else {
                raised as u64
            };
        } else if fullness < threshold {
            let lowered: u64 = if change >= price as u128 {
                0u64
            } else {
                price - (change as u64)
            };
            self.new_exec_price = if lowered < self.min_exec_gas_price {
                self.min_exec_gas_price
            } else {
                lowered
            };
        }
    }

    /// Folds one L2 block observation into the controller.
    ///
    /// A block whose height is not exactly one past the last accepted one is
    /// rejected with [`Error::SkippedL2Block`] and the state is left
    /// entirely unchanged. An accepted block drives the full
    /// [`accepted_transition`]: exec price step, DA price derivation, ledger
    /// accumulation, lagged profit snapshot, and height advance by one.
    pub fn update_l2_block_data(
        &mut self,
        height: u32,
        fullness: (u64, u64),
        block_bytes: u64,
        gas_price: u64,
    ) -> (r: Result<(), Error>)
        requires
            old(self).l2_block_height < u32::MAX,
            height == old(self).l2_block_height + 1 ==> fullness.1 > 0,
        ensures
            height == old(self).l2_block_height + 1 ==> r == Ok::<(), Error>(())
                && accepted_transition(*old(self), *final(self), height, fullness, block_bytes, gas_price),
            height != old(self).l2_block_height + 1 ==> r == Err::<(), Error>(
                (Error::SkippedL2Block {
                    expected: (old(self).l2_block_height + 1) as u32,
                    got: height,
                }),
            ) && *final(self) == *old(self),
    {
        let expected: u32 = self.l2_block_height + 1;
        if height != expected {
            return Err(Error::SkippedL2Block { expected, got: height });
        }

        // Lagged profit: report the ledger state from before this block.
        let rewards_before: u64 = self.total_da_rewards;
        let cost_before: u64 = self.projected_total_da_cost;
        let profit: i128 = (rewards_before as i128) - (cost_before as i128);
        self.last_profit = if profit > i64::MAX as i128 {
            i64::MAX
        } else if profit < i64::MIN as i128 {
            i64::MIN
        } else {
            profit as i64
        };

        self.update_exec_gas_price(fullness.0, fullness.1);

        // The DA component implied by the externally observed total price.
        let da_price: u64 = gas_price.saturating_sub(self.new_exec_price);
        self.last_da_price = da_price;

        proof {
            assert((da_price as int) * (fullness.0 as int) <= (u64::MAX as int) * (u64::MAX as int))
                by (nonlinear_arith)
                requires
                    da_price <= u64::MAX,
                    fullness.0 <= u64::MAX,
            ;
            assert((block_bytes as int) * (self.latest_da_cost_per_byte as int)
                <= (u64::MAX as int) * (u64::MAX as int))
                by (nonlinear_arith)
                requires
                    block_bytes <= u64::MAX,
                    self.latest_da_cost_per_byte <= u64::MAX,
            ;
        }
        let reward: u128 = (da_price as u128) * (fullness.0 as u128);
        let new_rewards: u128 = (rewards_before as u128) + reward;
        self.total_da_rewards = if new_rewards > u64::MAX as u128 {
            u64::MAX
        } else {
            new_rewards as u64
        };

        let block_cost: u128 = (block_bytes as u128) * (self.latest_da_cost_per_byte as u128);
        let new_cost: u128 = (cost_before as u128) + block_cost;
        self.projected_total_da_cost = if new_cost > u64::MAX as u128 {
            u64::MAX
        } else {
            new_cost as u64
        };

        self.l2_block_height = height;
        Ok(())
    }
}

/// Law: an accepted update advances the height by exactly one; no other
/// delta is possible. (A block with any other height is rejected with
/// `SkippedL2Block` and leaves the state unchanged, per the contract of
/// [`AlgorithmUpdaterV1::update_l2_block_data`].)
pub proof fn lemma_height_advances_by_one(
    pre: AlgorithmUpdaterV1,
    post: AlgorithmUpdaterV1,
    height: u32,
    fullness: (u64, u64),
    block_bytes: u64,
    gas_price: u64,
)
    requires
        accepted_transition(pre, post, height, fullness, block_bytes, gas_price),
    ensures
        post.l2_block_height == pre.l2_block_height + 1,
{
}

/// Law: the exec price answers block fullness as a threshold controller.
/// Fullness exactly at the threshold leaves the price unchanged; fullness
/// below it lowers the price by one step, floored at `min_price`; fullness
/// above it raises the price by the same step.
pub proof fn lemma_exec_price_threshold_response(
    price: u64,
    min_price: u64,
    percent: u64,
    threshold: u64,
    used: u64,
    capacity: u64,
)
    requires
        capacity > 0,
    ensures
        fullness_percent(used, capacity) == threshold ==> next_exec_price(
            price,
            min_price,
            percent,
            threshold,
            used,
            capacity,
        ) == price,
        fullness_percent(used, capacity) < threshold ==> next_exec_price(
            price,
            min_price,
            percent,
            threshold,
            used,
            capacity,
        ) == ({
            let lowered = sat_u64(price - exec_price_change_amount(price, percent));
            if lowered < min_price {
                min_price
            } else {
                lowered
            }
        }),
        fullness_percent(used, capacity) > threshold ==> next_exec_price(
            price,
            min_price,
            percent,
            threshold,
            used,
            capacity,
        ) == sat_u64(price + exec_price_change_amount(price, percent)),
{
}

/// Law: the DA price reported by an accepted update is the observed total
/// gas price minus the exec price in effect after that same update's
/// threshold step (exactly so whenever the observed price covers the exec
/// component; zero otherwise).
pub proof fn lemma_da_price_from_observed_price(
    pre: AlgorithmUpdaterV1,
    post: AlgorithmUpdaterV1,
    height: u32,
    fullness: (u64, u64),
    block_bytes: u64,
    gas_price: u64,
)
    requires
        accepted_transition(pre, post, height, fullness, block_bytes, gas_price),
    ensures
        post.last_da_price == sat_u64(gas_price - post.new_exec_price),
        gas_price >= post.new_exec_price ==> post.last_da_price == gas_price
            - post.new_exec_price,
{
}

/// Law: the profit reported by an accepted update is the ledger balance
/// from before that block was folded in — a one-block lag — and not the
/// post-update balance.
pub proof fn lemma_profit_lags_one_block(
    pre: AlgorithmUpdaterV1,
    post: AlgorithmUpdaterV1,
    height: u32,
    fullness: (u64, u64),
    block_bytes: u64,
    gas_price: u64,
)
    requires
        accepted_transition(pre, post, height, fullness, block_bytes, gas_price),
    ensures
        post.last_profit == clamp_i64(pre.total_da_rewards - pre.projected_total_da_cost),
        i64::MIN <= pre.total_da_rewards - pre.projected_total_da_cost <= i64::MAX
            ==> post.last_profit == pre.total_da_rewards - pre.projected_total_da_cost,
{
}

/// Law: replay is safe. After an accepted update, submitting the very same
/// block again fails the sequencing check (its height now equals the
/// current height, not current + 1), so by the contract of
/// [`AlgorithmUpdaterV1::update_l2_block_data`] the repeat is rejected and
/// neither ledger is double-counted.
pub proof fn lemma_replay_is_rejected(
    pre: AlgorithmUpdaterV1,
    post: AlgorithmUpdaterV1,
    height: u32,
    fullness: (u64, u64),
    block_bytes: u64,
    gas_price: u64,
)
    requires
        accepted_transition(pre, post, height, fullness, block_bytes, gas_price),
    ensures
        post.l2_block_height == height,
        height != post.l2_block_height + 1,
{
}

} // verus!
