use quiz_terminal::event::DeviceEvent;

#[test]
fn sleep_topics_map_to_sleep() {
    assert_eq!(
        DeviceEvent::from_mqtt_payload("sleep", b"ignored"),
        Some(DeviceEvent::Sleep)
    );
    assert_eq!(
        DeviceEvent::from_mqtt_payload("off", b""),
        Some(DeviceEvent::Sleep)
    );
}

#[test]
fn question_topic_carries_its_payload() {
    let event = DeviceEvent::from_mqtt_payload("question", b"Q1|What is 2+2?|3|4|5|6");
    assert_eq!(
        event,
        Some(DeviceEvent::Question {
            data: String::from("Q1|What is 2+2?|3|4|5|6")
        })
    );
}

#[test]
fn winner_topic_carries_the_identifier() {
    let event = DeviceEvent::from_mqtt_payload("winner", b"AA:BB:CC:DD:EE:FF");
    assert_eq!(
        event,
        Some(DeviceEvent::Winner {
            data: String::from("AA:BB:CC:DD:EE:FF")
        })
    );
}

#[test]
fn unknown_topics_are_dropped() {
    assert_eq!(DeviceEvent::from_mqtt_payload("message", b"hello"), None);
    assert_eq!(DeviceEvent::from_mqtt_payload("", b"x"), None);
    assert_eq!(DeviceEvent::from_mqtt_payload("questions", b"x"), None);
}
