use iot_device::connector::ConnectionState;
use iot_device::connector::LoopAction;
use iot_device::connector::NetConnector;
use iot_device::connector::NetConnectorSettings;
use iot_device::connector::TransportEvent;
use iot_device::connector::INBOUND_CAPACITY;
use iot_device::connector::RETRY_BACKOFF_MS;

#[test]
fn settings_keep_their_fields() {
    let settings = NetConnectorSettings::new(
        "air".to_string(),
        "broker.local".to_string(),
        1883,
        "user".to_string(),
        "pass".to_string(),
    );
    assert_eq!(settings.id_device, "air");
    assert_eq!(settings.host, "broker.local");
    assert_eq!(settings.port, 1883);
    assert_eq!(settings.username, "user");
    assert_eq!(settings.password, "pass");
}

#[test]
fn fresh_session_registers_subscriptions_once() {
    let mut connector: NetConnector<u32> = NetConnector::new(INBOUND_CAPACITY);
    connector.begin_polling();
    let action = connector.on_event(TransportEvent::ConnectionAck {
        success: true,
        session_present: false,
    });
    // Exactly one registration request, covering both fixed topics.
    assert_eq!(action, LoopAction::RegisterSubscriptions);
    let topics = iot_device::telemetry::subscription_topics("air");
    assert_eq!(topics.len(), 2);
    assert_eq!(topics[0], "iot/air/receive");
    assert_eq!(topics[1], "iot/global");
}

#[test]
fn resumed_session_skips_subscriptions() {
    let mut connector: NetConnector<u32> = NetConnector::new(INBOUND_CAPACITY);
    connector.begin_polling();
    let action = connector.on_event(TransportEvent::ConnectionAck {
        success: true,
        session_present: true,
    });
    assert_eq!(action, LoopAction::Idle);
}

#[test]
fn poll_error_backs_off_and_reconnects() {
    let mut connector: NetConnector<u32> = NetConnector::new(INBOUND_CAPACITY);
    connector.begin_polling();
    let action = connector.on_event(TransportEvent::PollFailed);
    assert_eq!(action, LoopAction::Backoff { delay_ms: RETRY_BACKOFF_MS });
    assert_eq!(RETRY_BACKOFF_MS, 5000);
}

#[test]
fn decode_failure_never_reaches_the_queue() {
    let mut connector: NetConnector<u32> = NetConnector::new(INBOUND_CAPACITY);
    connector.begin_polling();
    let action = connector.on_event(TransportEvent::InboundPublish { decoded: None });
    assert_eq!(action, LoopAction::Idle);
    assert_eq!(connector.inbound_len(), 0);
    assert_eq!(connector.recv(), None);
}

#[test]
fn decoded_messages_are_delivered_in_order() {
    let mut connector: NetConnector<u32> = NetConnector::new(INBOUND_CAPACITY);
    connector.begin_polling();
    for message in [10, 20, 30] {
        let action = connector.on_event(TransportEvent::InboundPublish {
            decoded: Some(message),
        });
        assert_eq!(action, LoopAction::Idle);
    }
    // A decode failure in between leaves the order alone.
    connector.on_event(TransportEvent::InboundPublish { decoded: None });
    assert_eq!(connector.recv(), Some(10));
    assert_eq!(connector.recv(), Some(20));
    assert_eq!(connector.recv(), Some(30));
    assert_eq!(connector.recv(), None);
}

#[test]
fn sixth_message_on_a_full_queue_is_dropped() {
    let mut connector: NetConnector<u32> = NetConnector::new(INBOUND_CAPACITY);
    connector.begin_polling();
    for message in 1..=5 {
        assert_eq!(
            connector.on_event(TransportEvent::InboundPublish { decoded: Some(message) }),
            LoopAction::Idle
        );
    }
    assert_eq!(connector.inbound_len(), 5);
    // Queue full, nobody draining: the sixth offer fails and is dropped.
    let action = connector.on_event(TransportEvent::InboundPublish { decoded: Some(6) });
    assert_eq!(action, LoopAction::WarnInboundDropped);
    assert_eq!(connector.inbound_len(), 5);
    // The receive loop keeps polling afterwards.
    let action = connector.on_event(TransportEvent::Other);
    assert_eq!(action, LoopAction::Idle);
    for message in 1..=5 {
        assert_eq!(connector.recv(), Some(message));
    }
    assert_eq!(connector.recv(), None);
}

#[test]
fn connection_state_is_comparable() {
    assert_eq!(
        ConnectionState::Connected { fresh_session: true },
        ConnectionState::Connected { fresh_session: true }
    );
    assert_ne!(ConnectionState::Disconnected, ConnectionState::Connecting);
}
