use gas_price_service::algorithm::AlgorithmUpdaterV1;
use gas_price_service::algorithm::RecordedBlock;
use gas_price_service::metadata::UpdaterMetadata;
use gas_price_service::metadata::V1NoDAMetadata;

fn full_updater() -> AlgorithmUpdaterV1 {
    AlgorithmUpdaterV1 {
        new_exec_price: 101,
        min_exec_gas_price: 12,
        exec_gas_price_change_percent: 10,
        l2_block_height: 88,
        l2_block_fullness_threshold_percent: 50,
        last_da_price: 33,
        min_da_gas_price: 2,
        max_da_gas_price_change_percent: 5,
        total_da_rewards: 4000,
        da_recorded_block_height: 70,
        latest_known_total_da_cost: 900,
        projected_total_da_cost: 1100,
        da_p_component: 3,
        da_d_component: 4,
        profit_avg: 55,
        avg_window: 10,
        last_profit: -7,
        latest_da_cost_per_byte: 21,
        unrecorded_blocks: vec![RecordedBlock { height: 71, block_bytes: 500, block_cost: 123 }],
    }
}

#[test]
fn from_updater_captures_the_execution_price_fields() {
    let updater = full_updater();

    let metadata = UpdaterMetadata::from_updater(&updater);

    let UpdaterMetadata::V1NoDA(v1) = metadata;
    assert_eq!(v1.new_exec_price, 101);
    assert_eq!(v1.min_exec_gas_price, 12);
    assert_eq!(v1.exec_gas_price_change_percent, 10);
    assert_eq!(v1.l2_block_height, 88);
    assert_eq!(v1.l2_block_fullness_threshold_percent, 50);
}

#[test]
fn l2_block_height_reads_the_variant_height() {
    let metadata = UpdaterMetadata::V1NoDA(V1NoDAMetadata {
        new_exec_price: 1,
        min_exec_gas_price: 2,
        exec_gas_price_change_percent: 3,
        l2_block_height: 42,
        l2_block_fullness_threshold_percent: 4,
    });

    assert_eq!(metadata.l2_block_height(), 42);
}

#[test]
fn round_trip_preserves_exec_fields_and_resets_da_fields() {
    let updater = full_updater();

    let metadata = UpdaterMetadata::from_updater(&updater);
    let rebuilt = AlgorithmUpdaterV1::try_from_metadata(metadata).unwrap();

    // Preservation of every execution-price field.
    assert_eq!(rebuilt.new_exec_price, updater.new_exec_price);
    assert_eq!(rebuilt.min_exec_gas_price, updater.min_exec_gas_price);
    assert_eq!(
        rebuilt.exec_gas_price_change_percent,
        updater.exec_gas_price_change_percent
    );
    assert_eq!(rebuilt.l2_block_height, updater.l2_block_height);
    assert_eq!(
        rebuilt.l2_block_fullness_threshold_percent,
        updater.l2_block_fullness_threshold_percent
    );

    // Reset of every DA-related field.
    assert_eq!(rebuilt.last_da_price, 0);
    assert_eq!(rebuilt.min_da_gas_price, 0);
    assert_eq!(rebuilt.max_da_gas_price_change_percent, 0);
    assert_eq!(rebuilt.total_da_rewards, 0);
    assert_eq!(rebuilt.da_recorded_block_height, 0);
    assert_eq!(rebuilt.latest_known_total_da_cost, 0);
    assert_eq!(rebuilt.projected_total_da_cost, 0);
    assert_eq!(rebuilt.da_p_component, 0);
    assert_eq!(rebuilt.da_d_component, 0);
    assert_eq!(rebuilt.profit_avg, 0);
    assert_eq!(rebuilt.avg_window, 0);
    assert_eq!(rebuilt.last_profit, 0);
    assert_eq!(rebuilt.latest_da_cost_per_byte, 0);
    assert!(rebuilt.unrecorded_blocks.is_empty());
}
