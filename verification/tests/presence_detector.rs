use rssi_presence::ble::device_table::DeviceTable;
use rssi_presence::ble::presence_detector::{Phase, PresenceDetector, ProcessorMsg, Reaction};
use rssi_presence::dto::detection::{AlgoConfig, DetectionConfig, DetectionEvent, DeviceState};
use std::time::Duration;
use rssi_presence::errors::AppError;

fn sample(device: &str, rssi: i16) -> ProcessorMsg {
    ProcessorMsg::Sample { device_id: device.to_string(), rssi }
}

fn small_config() -> AlgoConfig {
    AlgoConfig {
        window_size: 3,
        threshold: -70,
        stability_window: 2,
        timeout_secs: 15,
        batch_size: 50,
        debounce_ms: 10,
    }
}

#[test]
fn default_config_is_valid() {
    let config = AlgoConfig::default();
    assert_eq!(config.window_size, 10);
    assert_eq!(config.threshold, -70);
    assert_eq!(config.stability_window, 5);
    assert_eq!(config.timeout_secs, 15);
    assert_eq!(config.batch_size, 50);
    assert_eq!(config.debounce_ms, 10);
    assert!(config.validate().is_ok());
}

#[test]
fn config_without_window_is_invalid() {
    let config = AlgoConfig { window_size: 0, stability_window: 0, ..AlgoConfig::default() };
    assert!(matches!(config.validate(), Err(AppError::ConfigError)));
    assert!(matches!(PresenceDetector::new(config, 0), Err(AppError::ConfigError)));
}

#[test]
fn config_with_stability_window_beyond_window_is_invalid() {
    let config = AlgoConfig { window_size: 4, stability_window: 5, ..AlgoConfig::default() };
    assert!(matches!(config.validate(), Err(AppError::ConfigError)));
    assert!(matches!(PresenceDetector::new(config, 0), Err(AppError::ConfigError)));
}

#[test]
fn config_with_stability_window_equal_to_window_is_valid() {
    let config = AlgoConfig { window_size: 5, stability_window: 5, ..AlgoConfig::default() };
    assert!(config.validate().is_ok());
    assert!(PresenceDetector::new(config, 0).is_ok());
}

#[test]
fn new_orchestrator_is_running() {
    let orchestrator = PresenceDetector::new(AlgoConfig::default(), 0).unwrap();
    assert_eq!(orchestrator.phase(), Phase::Running);
}

#[test]
fn reading_inside_the_debounce_interval_is_dropped() {
    let mut orchestrator = PresenceDetector::new(small_config(), 100).unwrap();
    assert!(matches!(orchestrator.handle(sample("a", -60), 105), Reaction::Ignored));
    assert!(matches!(orchestrator.handle(sample("a", -60), 109), Reaction::Ignored));
    assert!(matches!(
        orchestrator.handle(sample("a", -60), 110),
        Reaction::Sampled { window: None, event: None }
    ));
}

#[test]
fn two_close_readings_give_one_accepted_sample() {
    let mut orchestrator = PresenceDetector::new(small_config(), 0).unwrap();
    let first = orchestrator.handle(sample("a", -60), 50);
    let second = orchestrator.handle(sample("a", -61), 55);
    assert!(matches!(first, Reaction::Sampled { .. }));
    assert!(matches!(second, Reaction::Ignored));
    match orchestrator.handle(ProcessorMsg::GetStatus, 56) {
        Reaction::Status(listing) => {
            assert_eq!(listing.len(), 1);
            assert_eq!(listing[0].0, "a");
            assert_eq!(listing[0].1.last_value, -60);
            assert_eq!(listing[0].1.last_seen, 50);
        }
        other => panic!("expected a status listing, got {:?}", other),
    }
}

#[test]
fn two_close_readings_before_the_interval_is_over_are_both_dropped() {
    let mut orchestrator = PresenceDetector::new(small_config(), 0).unwrap();
    assert!(matches!(orchestrator.handle(sample("a", -60), 3), Reaction::Ignored));
    assert!(matches!(orchestrator.handle(sample("a", -60), 5), Reaction::Ignored));
}

#[test]
fn clock_that_reads_earlier_accepts_nothing() {
    let mut orchestrator = PresenceDetector::new(small_config(), 100).unwrap();
    assert!(matches!(orchestrator.handle(sample("a", -60), 20), Reaction::Ignored));
}

#[test]
fn zero_debounce_accepts_every_reading() {
    let config = AlgoConfig { debounce_ms: 0, ..small_config() };
    let mut orchestrator = PresenceDetector::new(config, 7).unwrap();
    assert!(matches!(orchestrator.handle(sample("a", -60), 7), Reaction::Sampled { .. }));
    assert!(matches!(orchestrator.handle(sample("a", -60), 7), Reaction::Sampled { .. }));
    assert!(matches!(orchestrator.handle(sample("a", -60), 3), Reaction::Sampled { .. }));
}

#[test]
fn full_window_is_handed_out_and_classified() {
    let mut orchestrator = PresenceDetector::new(small_config(), 0).unwrap();
    assert!(matches!(
        orchestrator.handle(sample("a", -60), 10),
        Reaction::Sampled { window: None, event: None }
    ));
    assert!(matches!(
        orchestrator.handle(sample("a", -64), 20),
        Reaction::Sampled { window: None, event: None }
    ));
    match orchestrator.handle(sample("a", -62), 30) {
        Reaction::Sampled { window, event } => {
            assert_eq!(window, Some(vec![-60, -64, -62]));
            match event {
                Some(DetectionEvent::DevicePresent { avg_value, stability }) => {
                    assert_eq!(avg_value, -62);
                    assert_eq!(stability.squared_deviation, 8);
                    assert_eq!(stability.samples, 3);
                }
                other => panic!("expected a present device, got {:?}", other),
            }
        }
        other => panic!("expected an accepted reading, got {:?}", other),
    }
    match orchestrator.handle(sample("a", -90), 40) {
        Reaction::Sampled { window, event } => {
            assert_eq!(window, Some(vec![-64, -62, -90]));
            assert!(matches!(event, Some(DetectionEvent::DeviceLost)));
        }
        other => panic!("expected an accepted reading, got {:?}", other),
    }
}

#[test]
fn status_lists_the_last_accepted_reading_of_each_device() {
    let mut orchestrator = PresenceDetector::new(small_config(), 0).unwrap();
    match orchestrator.handle(ProcessorMsg::GetStatus, 1) {
        Reaction::Status(listing) => assert!(listing.is_empty()),
        other => panic!("expected a status listing, got {:?}", other),
    }
    orchestrator.handle(sample("a", -60), 10);
    orchestrator.handle(sample("b", -70), 20);
    orchestrator.handle(sample("a", -65), 25);
    orchestrator.handle(sample("a", -66), 30);
    match orchestrator.handle(ProcessorMsg::GetStatus, 31) {
        Reaction::Status(mut listing) => {
            listing.sort_by(|l, r| l.0.cmp(&r.0));
            assert_eq!(listing.len(), 2);
            assert_eq!(listing[0].0, "a");
            assert_eq!(listing[0].1.last_value, -66);
            assert_eq!(listing[0].1.last_seen, 30);
            assert_eq!(listing[1].0, "b");
            assert_eq!(listing[1].1.last_value, -70);
            assert_eq!(listing[1].1.last_seen, 20);
        }
        other => panic!("expected a status listing, got {:?}", other),
    }
}

#[test]
fn nothing_is_processed_after_shutdown() {
    let mut orchestrator = PresenceDetector::new(small_config(), 0).unwrap();
    orchestrator.handle(sample("a", -60), 10);
    orchestrator.handle(sample("a", -61), 20);
    assert!(matches!(orchestrator.handle(ProcessorMsg::Shutdown, 21), Reaction::Stop));
    assert_eq!(orchestrator.phase(), Phase::ShuttingDown);
    assert!(matches!(orchestrator.handle(sample("a", -62), 100), Reaction::Ignored));
    assert!(matches!(orchestrator.handle(sample("a", -63), 200), Reaction::Ignored));
    assert!(matches!(orchestrator.handle(ProcessorMsg::GetStatus, 300), Reaction::Ignored));
    orchestrator.finish();
    assert_eq!(orchestrator.phase(), Phase::Stopped);
    assert!(matches!(orchestrator.handle(sample("a", -62), 400), Reaction::Ignored));
}

#[test]
fn shutdown_is_idempotent() {
    let mut orchestrator = PresenceDetector::new(small_config(), 0).unwrap();
    orchestrator.shutdown();
    assert_eq!(orchestrator.phase(), Phase::ShuttingDown);
    orchestrator.shutdown();
    assert_eq!(orchestrator.phase(), Phase::ShuttingDown);
    assert!(matches!(orchestrator.handle(ProcessorMsg::Shutdown, 5), Reaction::Stop));
    assert_eq!(orchestrator.phase(), Phase::ShuttingDown);
}

#[test]
fn finish_leaves_a_running_orchestrator_running() {
    let mut orchestrator = PresenceDetector::new(small_config(), 0).unwrap();
    orchestrator.finish();
    assert_eq!(orchestrator.phase(), Phase::Running);
}

#[test]
fn update_of_the_target_becomes_a_reading() {
    let msg = PresenceDetector::handle_device_update(
        Some(-57),
        Some("hello world".to_string()),
        "5eb63bbbe01eeed0",
    );
    match msg {
        Some(ProcessorMsg::Sample { device_id, rssi }) => {
            assert_eq!(device_id, "hello world");
            assert_eq!(rssi, -57);
        }
        other => panic!("expected a reading, got {:?}", other),
    }
}

#[test]
fn update_of_another_device_is_dropped() {
    assert!(PresenceDetector::handle_device_update(
        Some(-57),
        Some("hello world".to_string()),
        "hello world",
    )
    .is_none());
    assert!(PresenceDetector::handle_device_update(
        Some(-57),
        Some("someone else".to_string()),
        "5eb63bbbe01eeed0",
    )
    .is_none());
}

#[test]
fn update_without_name_or_signal_is_dropped() {
    let target = "5eb63bbbe01eeed0";
    let name = Some("hello world".to_string());
    assert!(PresenceDetector::handle_device_update(None, name, target).is_none());
    assert!(PresenceDetector::handle_device_update(Some(-57), None, target).is_none());
    assert!(PresenceDetector::handle_device_update(None, None, target).is_none());
}

#[test]
fn device_table_keeps_the_latest_state() {
    let mut table: DeviceTable<i16> = DeviceTable::new();
    assert!(table.get("a").is_none());
    table.record("a".to_string(), DeviceState { last_value: -50, last_seen: 1 });
    table.record("b".to_string(), DeviceState { last_value: -60, last_seen: 2 });
    table.record("a".to_string(), DeviceState { last_value: -55, last_seen: 3 });
    let a = table.get("a").unwrap();
    assert_eq!(a.last_value, -55);
    assert_eq!(a.last_seen, 3);
    let b = table.get("b").unwrap();
    assert_eq!(b.last_value, -60);
    assert_eq!(b.last_seen, 2);
    assert!(table.get("c").is_none());
    assert_eq!(table.snapshot().len(), 2);
}

#[test]
fn detection_config_is_cloned_field_by_field() {
    let config = DetectionConfig {
        window_size: 10,
        threshold: -70i16,
        timeout: Duration::from_secs(15),
    };
    let copy = config.clone();
    assert_eq!(copy.window_size, 10);
    assert_eq!(copy.threshold, -70);
    assert_eq!(copy.timeout, Duration::from_secs(15));
}

#[test]
fn device_state_is_copied() {
    let state = DeviceState { last_value: -61i16, last_seen: 42 };
    let copy = state;
    let clone = state.clone();
    assert_eq!(copy.last_value, -61);
    assert_eq!(clone.last_seen, 42);
}

#[test]
fn window_holds_only_accepted_readings_in_arrival_order() {
    let mut orchestrator = PresenceDetector::new(small_config(), 0).unwrap();
    let arrivals: [(i16, u64); 9] = [
        (-50, 10),
        (-51, 12),
        (-52, 20),
        (-53, 29),
        (-54, 30),
        (-55, 35),
        (-56, 40),
        (-57, 41),
        (-58, 50),
    ];
    let mut accepted: Vec<i16> = Vec::new();
    let mut last_window: Option<Vec<i16>> = None;
    for (rssi, at) in arrivals.iter() {
        match orchestrator.handle(sample("a", *rssi), *at) {
            Reaction::Sampled { window, .. } => {
                accepted.push(*rssi);
                if window.is_some() {
                    last_window = window;
                }
            }
            Reaction::Ignored => {}
            other => panic!("unexpected reaction {:?}", other),
        }
    }
    assert_eq!(accepted, vec![-50, -52, -54, -56, -58]);
    assert_eq!(last_window, Some(vec![-54, -56, -58]));
}
