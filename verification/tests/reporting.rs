use presence_node::config::Config;
use presence_node::report::Reporter;
use presence_node::sensors::PresenceData;

fn test_config() -> Config {
    Config::new(
        "broker.local".to_owned(),
        1883,
        "user".to_owned(),
        "pass".to_owned(),
        "net".to_owned(),
        "netpass".to_owned(),
        [0x10, 0x20, 0x30, 0xa1, 0xb2, 0xc3],
    )
}

#[test]
fn client_id_is_derived_from_mac_tail() {
    let config = test_config();
    assert_eq!(config.client_id, "a1b2c3");
    assert_eq!(config.program_name, "presence_detection");
}

#[test]
fn topics_are_namespaced_by_program_and_device() {
    let config = test_config();
    assert_eq!(config.state_topic(), "presence_detection/a1b2c3/state");
    assert_eq!(config.command_topic(), "presence_detection/a1b2c3/cmd");
}

#[test]
fn distinct_readings_publish_in_order() {
    let mut reporter = Reporter::new(test_config());
    let readings = vec![
        PresenceData { occupied: true, distance: 120 },
        PresenceData { occupied: true, distance: 120 },
        PresenceData { occupied: false, distance: 0 },
        PresenceData { occupied: false, distance: 0 },
        PresenceData { occupied: true, distance: 50 },
    ];
    let mut published: Vec<String> = Vec::new();
    for reading in &readings {
        if let Some(msg) = reporter.report(reading) {
            assert_eq!(msg.topic, "presence_detection/a1b2c3/state");
            published.push(msg.payload);
            reporter.mark_reported(reading);
        }
    }
    assert_eq!(
        published,
        vec![
            "{\"occupied\": true, \"distance\": 120}".to_owned(),
            "{\"occupied\": false, \"distance\": 0}".to_owned(),
            "{\"occupied\": true, \"distance\": 50}".to_owned(),
        ]
    );
}

#[test]
fn identical_readings_after_success_publish_nothing() {
    let mut reporter = Reporter::new(test_config());
    let reading = PresenceData { occupied: true, distance: 120 };
    let first = reporter.report(&reading);
    assert!(first.is_some());
    reporter.mark_reported(&reading);
    for _ in 0..5 {
        assert!(reporter.report(&reading).is_none());
    }
}

#[test]
fn failed_publish_leaves_cache_untouched() {
    let mut reporter = Reporter::new(test_config());
    let reading = PresenceData { occupied: true, distance: 120 };
    // The publish of the first attempt fails: mark_reported is not called.
    let first = reporter.report(&reading);
    assert!(first.is_some());
    assert_eq!(reporter.last_report, None);
    // The identical reading must be attempted again, not deduplicated.
    let second = reporter.report(&reading);
    assert!(second.is_some());
    assert_eq!(second.unwrap().payload, "{\"occupied\": true, \"distance\": 120}");
    // Only a successful publish moves the cache.
    reporter.mark_reported(&reading);
    assert_eq!(reporter.last_report, Some(reading));
    assert!(reporter.report(&reading).is_none());
}

#[test]
fn payload_renders_extreme_distances() {
    let mut reporter = Reporter::new(test_config());
    let zero = PresenceData { occupied: false, distance: 0 };
    let max = PresenceData { occupied: true, distance: 65535 };
    let m0 = reporter.report(&zero).unwrap();
    assert_eq!(m0.payload, "{\"occupied\": false, \"distance\": 0}");
    reporter.mark_reported(&zero);
    let m1 = reporter.report(&max).unwrap();
    assert_eq!(m1.payload, "{\"occupied\": true, \"distance\": 65535}");
}

#[test]
fn same_fields_count_as_duplicate_only_when_both_match() {
    let mut reporter = Reporter::new(test_config());
    let a = PresenceData { occupied: true, distance: 120 };
    reporter.mark_reported(&a);
    // Same occupancy, different distance: still a change.
    assert!(reporter.report(&PresenceData { occupied: true, distance: 121 }).is_some());
    // Same distance, different occupancy: still a change.
    assert!(reporter.report(&PresenceData { occupied: false, distance: 120 }).is_some());
}
