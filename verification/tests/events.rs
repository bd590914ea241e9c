use presence_node::events::classify_event;
use presence_node::events::EventQueue;
use presence_node::events::MqttEvent;
use presence_node::events::TransportEvent;

#[test]
fn events_drain_in_the_order_enqueued() {
    let mut queue = EventQueue::new();
    queue.push(MqttEvent::Connected);
    queue.push(MqttEvent::Command("calibrate".to_owned()));
    queue.push(MqttEvent::Disconnected);
    assert_eq!(queue.len(), 3);
    assert_eq!(queue.try_next(), Some(MqttEvent::Connected));
    assert_eq!(queue.try_next(), Some(MqttEvent::Command("calibrate".to_owned())));
    assert_eq!(queue.try_next(), Some(MqttEvent::Disconnected));
    assert_eq!(queue.try_next(), None);
}

#[test]
fn an_empty_queue_yields_nothing() {
    let mut queue = EventQueue::new();
    assert_eq!(queue.try_next(), None);
    assert_eq!(queue.len(), 0);
}

#[test]
fn connection_transitions_pass_through() {
    let cmd_topic = "presence_detection/a1b2c3/cmd".to_owned();
    assert_eq!(
        classify_event(TransportEvent::Connected, &cmd_topic),
        Some(MqttEvent::Connected)
    );
    assert_eq!(
        classify_event(TransportEvent::Disconnected, &cmd_topic),
        Some(MqttEvent::Disconnected)
    );
}

#[test]
fn a_message_on_the_command_topic_becomes_a_command() {
    let cmd_topic = "presence_detection/a1b2c3/cmd".to_owned();
    let event = TransportEvent::Received {
        topic: Some("presence_detection/a1b2c3/cmd".to_owned()),
        payload: Some("restart".to_owned()),
    };
    assert_eq!(
        classify_event(event, &cmd_topic),
        Some(MqttEvent::Command("restart".to_owned()))
    );
}

#[test]
fn other_topics_and_unreadable_payloads_are_dropped() {
    let cmd_topic = "presence_detection/a1b2c3/cmd".to_owned();
    let other_topic = TransportEvent::Received {
        topic: Some("presence_detection/a1b2c3/state".to_owned()),
        payload: Some("restart".to_owned()),
    };
    assert_eq!(classify_event(other_topic, &cmd_topic), None);
    let no_topic = TransportEvent::Received {
        topic: None,
        payload: Some("restart".to_owned()),
    };
    assert_eq!(classify_event(no_topic, &cmd_topic), None);
    let unreadable = TransportEvent::Received {
        topic: Some("presence_detection/a1b2c3/cmd".to_owned()),
        payload: None,
    };
    assert_eq!(classify_event(unreadable, &cmd_topic), None);
}

#[test]
fn transport_diagnostics_are_dropped() {
    let cmd_topic = "presence_detection/a1b2c3/cmd".to_owned();
    assert_eq!(classify_event(TransportEvent::Error, &cmd_topic), None);
    assert_eq!(classify_event(TransportEvent::Other, &cmd_topic), None);
}
