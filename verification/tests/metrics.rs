use hibana_pico::kernel::metrics::{
    NoP2Metrics, PICO2W_SWARM_BASE_SAMPLE_VALUE, PICO2W_SWARM_DEFAULT_AGGREGATE, PICO2W_SWARM_DEFAULT_NODES,
    SwarmMetrics, pico2w_swarm_expected_aggregate, pico2w_swarm_sample_value,
};
use hibana_pico::machine::rp2350::cyw43439::QEMU_CYW43439_MAX_ROLES;

#[test]
fn sample_values_count_up_from_the_first_sensor() {
    assert_eq!(pico2w_swarm_sample_value(0), PICO2W_SWARM_BASE_SAMPLE_VALUE);
    assert_eq!(pico2w_swarm_sample_value(2), PICO2W_SWARM_BASE_SAMPLE_VALUE);
    assert_eq!(pico2w_swarm_sample_value(5), PICO2W_SWARM_BASE_SAMPLE_VALUE + 3);
}

#[test]
fn the_default_aggregate_sums_the_default_sensors() {
    assert_eq!(pico2w_swarm_expected_aggregate(PICO2W_SWARM_DEFAULT_NODES), PICO2W_SWARM_DEFAULT_AGGREGATE);
    assert_eq!(pico2w_swarm_expected_aggregate(1), 0);
    assert_eq!(pico2w_swarm_expected_aggregate(2), PICO2W_SWARM_BASE_SAMPLE_VALUE);
    assert_eq!(PICO2W_SWARM_DEFAULT_NODES as usize, QEMU_CYW43439_MAX_ROLES);
}

#[test]
fn metrics_report_the_swarm_and_preview1_capacities() {
    let swarm = SwarmMetrics::collect();
    assert_eq!(swarm.qemu_cyw_max_roles, 6);
    assert_eq!(swarm.qemu_swarm_default_sensor_nodes, 5);
    assert_eq!(swarm.qemu_swarm_default_aggregate, 212_035);
    assert!(swarm.wifi_frame_size > 0);
    let p1 = NoP2Metrics::collect();
    assert_eq!(p1.component_model_loader_bytes, 0);
    assert_eq!(p1.wasip1_full_subset_import_count, 46);
}
