use presence_node::config::Config;
use presence_node::report::Reporter;

fn test_reporter() -> Reporter {
    Reporter::new(Config::new(
        "broker.local".to_owned(),
        1883,
        "user".to_owned(),
        "pass".to_owned(),
        "net".to_owned(),
        "netpass".to_owned(),
        [0x00, 0x00, 0x00, 0xa1, 0xb2, 0xc3],
    ))
}

#[test]
fn four_descriptors_on_the_exact_topics() {
    let msgs = test_reporter().register();
    assert_eq!(msgs.len(), 4);
    assert_eq!(msgs[0].topic, "homeassistant/binary_sensor/a1b2c3_occupancy/config");
    assert_eq!(msgs[1].topic, "homeassistant/sensor/a1b2c3_distance/config");
    assert_eq!(msgs[2].topic, "homeassistant/button/a1b2c3_calibrate/config");
    assert_eq!(msgs[3].topic, "homeassistant/button/a1b2c3_restart/config");
}

#[test]
fn occupancy_descriptor_references_the_state_topic() {
    let msgs = test_reporter().register();
    let body = &msgs[0].payload;
    assert!(body.contains("\"state_topic\": \"presence_detection/a1b2c3/state\""));
    assert!(body.contains("\"unique_id\": \"a1b2c3_occupancy\""));
    assert!(body.contains("\"device_class\": \"motion\""));
    assert!(body.contains("\"value_template\": \"{{ 'ON' if value_json.occupied else 'OFF' }}\""));
}

#[test]
fn distance_descriptor_measures_centimetres() {
    let msgs = test_reporter().register();
    let body = &msgs[1].payload;
    assert!(body.contains("\"state_topic\": \"presence_detection/a1b2c3/state\""));
    assert!(body.contains("\"unit_of_measurement\": \"cm\""));
    assert!(body.contains("\"state_class\": \"measurement\""));
    assert!(body.contains("\"unique_id\": \"a1b2c3_distance\""));
}

#[test]
fn command_descriptors_press_the_command_topic() {
    let msgs = test_reporter().register();
    let calibrate = &msgs[2].payload;
    assert!(calibrate.contains("\"command_topic\": \"presence_detection/a1b2c3/cmd\""));
    assert!(calibrate.contains("\"payload_press\": \"calibrate\""));
    let restart = &msgs[3].payload;
    assert!(restart.contains("\"command_topic\": \"presence_detection/a1b2c3/cmd\""));
    assert!(restart.contains("\"payload_press\": \"restart\""));
    assert!(restart.contains("\"device_class\": \"restart\""));
}

#[test]
fn all_descriptors_share_the_device_block() {
    let msgs = test_reporter().register();
    for msg in &msgs {
        assert!(msg.payload.contains(
            "\"device\": {\"name\": \"presence detection a1b2c3\", \
             \"identifiers\": [\"presence_detection_a1b2c3\"], \
             \"manufacturer\": \"mvdschee\", \"model\": \"LD2410S\"}"
        ));
    }
}
