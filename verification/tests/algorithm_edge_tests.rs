use gas_price_service::algorithm::AlgorithmUpdaterV1;
use gas_price_service::algorithm::Error;
use gas_price_service::builder::UpdaterBuilder;

fn zero_updater() -> AlgorithmUpdaterV1 {
    AlgorithmUpdaterV1 {
        new_exec_price: 0,
        min_exec_gas_price: 0,
        exec_gas_price_change_percent: 0,
        l2_block_height: 0,
        l2_block_fullness_threshold_percent: 50,
        last_da_price: 0,
        min_da_gas_price: 0,
        max_da_gas_price_change_percent: 0,
        total_da_rewards: 0,
        da_recorded_block_height: 0,
        latest_known_total_da_cost: 0,
        projected_total_da_cost: 0,
        da_p_component: 0,
        da_d_component: 0,
        profit_avg: 0,
        avg_window: 0,
        last_profit: 0,
        latest_da_cost_per_byte: 0,
        unrecorded_blocks: vec![],
    }
}

#[test]
fn below_threshold_decrease_is_floored_at_min_exec_gas_price() {
    let mut updater = zero_updater();
    updater.new_exec_price = 100;
    updater.exec_gas_price_change_percent = 10;
    updater.min_exec_gas_price = 95;

    updater.update_l2_block_data(1, (40, 100), 1000, 200).unwrap();

    // 100 - 10 = 90 would fall under the floor of 95.
    assert_eq!(updater.new_exec_price, 95);
}

#[test]
fn change_step_is_a_percentage_of_the_current_price() {
    let mut updater = zero_updater();
    updater.new_exec_price = 200;
    updater.exec_gas_price_change_percent = 10;

    updater.update_l2_block_data(1, (60, 100), 1000, 500).unwrap();

    // Ten percent of 200 is 20.
    assert_eq!(updater.new_exec_price, 220);
}

#[test]
fn da_price_is_zero_when_observed_price_is_below_exec_price() {
    let mut updater = zero_updater();
    updater.new_exec_price = 100;

    updater.update_l2_block_data(1, (50, 100), 1000, 40).unwrap();

    assert_eq!(updater.last_da_price, 0);
    assert_eq!(updater.total_da_rewards, 0);
}

#[test]
fn exec_price_increase_saturates_at_the_integer_range() {
    let mut updater = zero_updater();
    updater.new_exec_price = u64::MAX;
    updater.exec_gas_price_change_percent = 10;

    updater.update_l2_block_data(1, (60, 100), 1000, 0).unwrap();

    assert_eq!(updater.new_exec_price, u64::MAX);
}

#[test]
fn reward_ledger_saturates_instead_of_wrapping() {
    let mut updater = zero_updater();
    updater.new_exec_price = 100;
    updater.total_da_rewards = u64::MAX;

    updater.update_l2_block_data(1, (50, 100), 1000, 200).unwrap();

    assert_eq!(updater.total_da_rewards, u64::MAX);
}

#[test]
fn cost_ledger_saturates_instead_of_wrapping() {
    let mut updater = zero_updater();
    updater.projected_total_da_cost = u64::MAX;
    updater.latest_da_cost_per_byte = 20;

    updater.update_l2_block_data(1, (50, 100), 1000, 0).unwrap();

    assert_eq!(updater.projected_total_da_cost, u64::MAX);
}

#[test]
fn profit_is_clamped_at_the_signed_range() {
    let mut updater = zero_updater();
    updater.total_da_rewards = u64::MAX;
    updater.projected_total_da_cost = 0;

    updater.update_l2_block_data(1, (50, 100), 1000, 0).unwrap();

    assert_eq!(updater.last_profit, i64::MAX);
}

#[test]
fn algorithm_returns_the_current_prices() {
    let mut updater = zero_updater();
    updater.new_exec_price = 7;
    updater.last_da_price = 9;

    let snapshot = updater.algorithm();

    assert_eq!(snapshot.new_exec_price, 7);
    assert_eq!(snapshot.last_da_price, 9);
}

#[test]
fn replaying_the_same_block_does_not_double_count() {
    let mut updater = UpdaterBuilder::new()
        .with_starting_exec_gas_price(100)
        .with_da_cost_per_byte(20)
        .build();

    updater.update_l2_block_data(1, (50, 100), 1000, 200).unwrap();

    let rewards_after_first = updater.total_da_rewards;
    let cost_after_first = updater.projected_total_da_cost;
    assert_eq!(rewards_after_first, 5000);
    assert_eq!(cost_after_first, 20000);

    // A crash between update and persist makes the node ask for the same
    // block again after restart; sequencing must reject the replay.
    let replay_error = updater
        .update_l2_block_data(1, (50, 100), 1000, 200)
        .unwrap_err();

    assert_eq!(replay_error, Error::SkippedL2Block { expected: 2, got: 1 });
    assert_eq!(updater.total_da_rewards, rewards_after_first);
    assert_eq!(updater.projected_total_da_cost, cost_after_first);
    assert_eq!(updater.l2_block_height, 1);
}
