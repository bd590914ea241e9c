use presence_node::config::Config;
use presence_node::connectivity::ConnectivityMonitor;
use presence_node::events::MqttEvent;
use presence_node::orchestrator::EventAction;
use presence_node::orchestrator::Orchestrator;
use presence_node::report::Reporter;
use presence_node::sensors::interpret_reading;
use presence_node::sensors::PresenceData;
use presence_node::sensors::RadarPacket;
use presence_node::sensors::TargetState;

fn test_config() -> Config {
    Config::new(
        "broker.local".to_owned(),
        1883,
        "user".to_owned(),
        "pass".to_owned(),
        "net".to_owned(),
        "netpass".to_owned(),
        [0x00, 0x00, 0x00, 0xa1, 0xb2, 0xc3],
    )
}

fn with_reporter() -> Orchestrator {
    Orchestrator::new(ConnectivityMonitor::new(600, true, 0), Some(Reporter::new(test_config())))
}

fn without_reporter() -> Orchestrator {
    Orchestrator::new(ConnectivityMonitor::new(600, false, 0), None)
}

#[test]
fn connected_event_resubscribes_only_while_reporting() {
    assert_eq!(
        with_reporter().handle_event(&MqttEvent::Connected),
        EventAction::SubscribeCommands
    );
    assert_eq!(without_reporter().handle_event(&MqttEvent::Connected), EventAction::Ignore);
}

#[test]
fn disconnected_event_is_only_noted() {
    assert_eq!(with_reporter().handle_event(&MqttEvent::Disconnected), EventAction::Ignore);
}

#[test]
fn commands_dispatch_by_exact_text() {
    let orchestrator = with_reporter();
    assert_eq!(
        orchestrator.handle_event(&MqttEvent::Command("calibrate".to_owned())),
        EventAction::StartCalibration
    );
    assert_eq!(
        orchestrator.handle_event(&MqttEvent::Command("restart".to_owned())),
        EventAction::Restart
    );
    assert_eq!(
        orchestrator.handle_event(&MqttEvent::Command("unknown".to_owned())),
        EventAction::Ignore
    );
    // Commands work whether or not reporting is up.
    assert_eq!(
        without_reporter().handle_event(&MqttEvent::Command("restart".to_owned())),
        EventAction::Restart
    );
}

#[test]
fn readings_flow_through_the_dedup_gate() {
    let mut orchestrator = with_reporter();
    let reading = PresenceData { occupied: true, distance: 80 };
    let msg = orchestrator.handle_reading(&reading).expect("first reading publishes");
    assert_eq!(msg.topic, "presence_detection/a1b2c3/state");
    assert_eq!(msg.payload, "{\"occupied\": true, \"distance\": 80}");
    orchestrator.reading_published(&reading);
    assert!(orchestrator.handle_reading(&reading).is_none());
}

#[test]
fn without_a_reporter_readings_go_nowhere() {
    let orchestrator = without_reporter();
    assert!(orchestrator.handle_reading(&PresenceData { occupied: true, distance: 80 }).is_none());
}

#[test]
fn connectivity_flows_through_the_monitor() {
    let mut orchestrator = with_reporter();
    assert!(!orchestrator.check_connectivity(false, 100));
    assert!(!orchestrator.check_connectivity(false, 700));
    assert!(orchestrator.check_connectivity(false, 701));
    orchestrator.reconnect_outcome(false, 701);
    assert!(!orchestrator.check_connectivity(false, 10_000));
}

#[test]
fn radar_frames_read_as_presence() {
    let standard = RadarPacket::Standard { target_state: TargetState::Occupied, distance_cm: 120 };
    assert_eq!(
        interpret_reading(&Some(standard)),
        PresenceData { occupied: true, distance: 120 }
    );
    let minimal = RadarPacket::Minimal { target_state: TargetState::Clear, distance_cm: 77 };
    assert_eq!(
        interpret_reading(&Some(minimal)),
        PresenceData { occupied: false, distance: 77 }
    );
    assert_eq!(
        interpret_reading(&Some(RadarPacket::Other)),
        PresenceData { occupied: false, distance: 0 }
    );
    assert_eq!(interpret_reading(&None), PresenceData { occupied: false, distance: 0 });
}
