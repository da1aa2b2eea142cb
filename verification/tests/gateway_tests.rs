use emb_public::common::error::EmbError;
use emb_public::common::events::{EventKind, PrinterEvent};
use emb_public::common::messages::WebSocketMessage;
use emb_public::gateway::channel_manager::{ChannelManager, ChannelManagerConfig};
use emb_public::gateway::communication::{
    ChannelConfig, ChannelStatus, ChannelType, CommunicationChannel, CommunicationGateway, Direction,
};
use emb_public::gateway::mqtt::{MqttClient, MqttConfig, MqttTopicType};
use emb_public::gateway::unix_socket::{
    UnixSocketClientType, UnixSocketConfig, UnixSocketConnection, UnixSocketServer,
};
use emb_public::gateway::websocket::{WebSocketConfig, WebSocketServer};
use emb_public::message_queue::queue::MessageQueue;
use emb_public::message_queue::types::{Message, MessageType};

#[test]
fn test_channel_manager_config_default() {
    let config = ChannelManagerConfig::default();
    assert!(config.enable_websocket);
    assert!(config.enable_unix_socket);
    assert!(!config.enable_mqtt);
    assert_eq!(config.status_broadcast_interval, 1);
}

#[test]
fn test_mqtt_config_default() {
    let config = MqttConfig::default();
    assert_eq!(config.broker_address, "mqtt.example.com");
    assert_eq!(config.port, 1883);
    assert_eq!(config.client_id, "flowpulse_client");
    assert_eq!(config.topic_prefix, "flowpulse");
}

#[test]
fn test_build_topic() {
    let config = MqttConfig::default();
    let client = MqttClient::new(config);

    let topic = client.build_topic(MqttTopicType::Status);
    assert_eq!(topic, "flowpulse/status");

    let topic = client.build_topic(MqttTopicType::Command);
    assert_eq!(topic, "flowpulse/command");
}

#[test]
fn mqtt_status_publisher_requests_are_accepted() {
    let client = MqttClient::new(MqttConfig::default());
    assert!(client.start_status_publisher(5).is_ok());
    assert!(client.stop_status_publisher().is_ok());
    assert!(!client.get_status().connected);
}

#[test]
fn test_unixsocket_config_default() {
    let config = UnixSocketConfig::default();
    assert_eq!(config.socket_path, "/tmp/flowpulse.sock");
    assert_eq!(config.max_connections, 5);
    assert_eq!(config.buffer_size, 4096);
}

#[test]
fn test_websocket_config_default() {
    let config = WebSocketConfig::default();
    assert_eq!(config.bind_address, "127.0.0.1");
    assert_eq!(config.port, 8080);
    assert_eq!(config.max_connections, 10);
}

#[test]
fn gateway_registers_replaces_and_removes_channels() {
    let mut gw = CommunicationGateway::new();
    gw.add_channel("serial".to_string(), ChannelConfig::default());
    gw.add_channel(
        "mqtt".to_string(),
        ChannelConfig {
            channel_type: ChannelType::MQTT,
            address: "broker".to_string(),
            direction: Direction::Upstream,
            timeout_ms: 10,
        },
    );
    assert_eq!(gw.list_channels(), vec!["serial".to_string(), "mqtt".to_string()]);
    let ch = gw.get_channel("serial").unwrap();
    assert_eq!(ch.config.address, "/dev/ttyUSB0");
    assert_eq!(ch.status, ChannelStatus::Disconnected);
    assert_eq!(ch.stats.bytes_sent, 0);

    gw.add_channel(
        "serial".to_string(),
        ChannelConfig { timeout_ms: 1, ..ChannelConfig::default() },
    );
    assert_eq!(gw.list_channels().len(), 2);
    assert_eq!(gw.get_channel("serial").unwrap().config.timeout_ms, 1);

    gw.remove_channel("serial");
    assert!(gw.get_channel("serial").is_none());
    assert_eq!(gw.list_channels(), vec!["mqtt".to_string()]);
    gw.remove_channel("absent");
    assert_eq!(gw.list_channels().len(), 1);
    let fresh = CommunicationChannel::new(ChannelConfig::default());
    assert_eq!(fresh.config.channel_type, ChannelType::Serial);
}

#[test]
fn mqtt_subscriptions_and_publishing() {
    let mut client = MqttClient::new(MqttConfig::default());
    assert_eq!(client.get_status().broker_address, "mqtt.example.com:1883");
    let payload = serde_json::Value::Null;
    assert!(matches!(client.publish(MqttTopicType::Status, payload.clone()), Err(EmbError::Gateway(_))));
    client.connect().unwrap();
    client.publish(MqttTopicType::Status, payload).unwrap();
    assert_eq!(client.get_status().messages_published, 1);
    client.subscribe(MqttTopicType::Command).unwrap();
    client.subscribe(MqttTopicType::Command).unwrap();
    client.subscribe(MqttTopicType::Custom("x".to_string())).unwrap();
    assert_eq!(client.get_subscribed_topics(), vec!["flowpulse/command", "flowpulse/x"]);
    client.unsubscribe(MqttTopicType::Command).unwrap();
    assert_eq!(client.get_subscribed_topics(), vec!["flowpulse/x"]);
    client.disconnect().unwrap();
    assert!(client.get_subscribed_topics().is_empty());
    assert!(!client.get_status().connected);
}

#[test]
fn mqtt_messages_become_queue_messages() {
    let mut client = MqttClient::new(MqttConfig::default());
    let mut queue = MessageQueue::default();
    client.handle_message(&mut queue, "flowpulse/command", br#"{"command":"pause"}"#).unwrap();
    client.handle_message(&mut queue, "flowpulse/status", b"{}").unwrap();
    client.handle_message(&mut queue, "other/topic", b"1").unwrap();
    assert!(matches!(client.handle_message(&mut queue, "t", b"not json"), Err(EmbError::Gateway(_))));
    assert_eq!(client.get_status().messages_received, 3);
    assert_eq!(queue.dequeue().unwrap().message_type, MessageType::PrintPause);
    assert_eq!(queue.dequeue().unwrap().message_type, MessageType::StateQuery);
    assert_eq!(queue.dequeue().unwrap().message_type, MessageType::Custom("other/topic".to_string()));
}

#[test]
fn unix_socket_commands_and_connections() {
    let mut server = UnixSocketServer::new(UnixSocketConfig { max_connections: 1, ..UnixSocketConfig::default() });
    let mut queue = MessageQueue::default();
    server
        .handle_message(&mut queue, br#"{"command":"temp_get","params":{"heater":"bed"}}"#, UnixSocketClientType::HMI)
        .unwrap();
    server.handle_message(&mut queue, br#"{"command":"dance"}"#, UnixSocketClientType::CLI).unwrap();
    let first = queue.dequeue().unwrap();
    assert_eq!(first.message_type, MessageType::TemperatureGet);
    assert_eq!(first.source, "unix_socket_hmi");
    assert_eq!(first.payload["heater"], "bed");
    let second = queue.dequeue().unwrap();
    assert_eq!(second.message_type, MessageType::Custom("dance".to_string()));
    assert_eq!(second.payload, serde_json::Value::Object(serde_json::Map::new()));

    let conn = UnixSocketConnection { id: 7, client_type: UnixSocketClientType::CLI, connected_at_ms: 0, authenticated: false };
    server.add_connection(conn).unwrap();
    assert!(matches!(server.add_connection(conn), Err(EmbError::Gateway(_))));
    server.broadcast();
    assert_eq!(server.get_status().messages_sent, 1);
    server.remove_connection(7).unwrap();
    assert_eq!(server.get_status().active_connections, 0);
}

#[test]
fn websocket_messages_become_queue_messages() {
    let server = WebSocketServer::new(WebSocketConfig::default());
    let m = server.convert_websocket_message(WebSocketMessage::PrintEvent {
        event: "resume".to_string(),
        message: "go".to_string(),
    });
    assert_eq!(m.message_type, MessageType::PrintResume);
    assert_eq!(m.payload["message"], "go");
    assert_eq!(m.source, "websocket");
    let a = server.convert_websocket_message(WebSocketMessage::Alert {
        severity: "high".to_string(),
        message: "hot".to_string(),
    });
    assert_eq!(a.message_type, MessageType::PrintError);
    assert_eq!(a.payload["severity"], "high");
    let other = server.convert_websocket_message(WebSocketMessage::LimitSwitch { x: true, y: false, z: false });
    assert_eq!(other.message_type, MessageType::Custom("unknown".to_string()));
}

#[test]
fn channel_manager_routes_by_destination() {
    let mut manager = ChannelManager::new(ChannelManagerConfig::default());
    assert!(manager.get_mqtt_client().is_none());
    manager.start_all().unwrap();
    assert!(manager.get_status().websocket_running);
    assert!(manager.get_status().unix_socket_running);
    let msg = Message::new(MessageType::SystemEvent, "t".to_string(), serde_json::Value::Null)
        .with_destination("websocket".to_string());
    manager.route_message(msg).unwrap();
    assert_eq!(manager.get_websocket_server().unwrap().get_status().messages_sent, 1);
    let msg = Message::new(MessageType::SystemEvent, "t".to_string(), serde_json::Value::Null);
    manager.route_message(msg).unwrap();
    assert_eq!(manager.get_websocket_server().unwrap().get_status().messages_sent, 2);
    assert_eq!(manager.get_status().total_messages_routed, 2);
    let event = PrinterEvent::new(EventKind::PrintStarted, "job".to_string(), "go".to_string());
    manager.handle_event(&event).unwrap();
    assert_eq!(manager.get_websocket_server().unwrap().get_status().messages_sent, 3);
    manager.stop_all().unwrap();
    assert!(!manager.get_status().websocket_running);
}

#[test]
fn channel_manager_passes_on_mqtt_refusals() {
    let config = ChannelManagerConfig { enable_mqtt: true, ..ChannelManagerConfig::default() };
    let mut manager = ChannelManager::new(config);
    let msg = Message::new(MessageType::SystemEvent, "t".to_string(), serde_json::Value::Null)
        .with_destination("mqtt".to_string());
    assert!(matches!(manager.route_message(msg), Err(EmbError::Gateway(_))));
    assert_eq!(manager.get_status().total_messages_routed, 0);
    manager.start_all().unwrap();
    let msg = Message::new(MessageType::SystemEvent, "t".to_string(), serde_json::Value::Null)
        .with_destination("mqtt".to_string());
    manager.route_message(msg).unwrap();
    assert_eq!(manager.get_mqtt_client().unwrap().get_status().messages_published, 1);
}

#[test]
fn events_become_system_event_messages() {
    let mut event = emb_public::common::events::PrinterEvent::new(
        emb_public::common::events::EventKind::PrintStarted,
        "printer".to_string(),
        "started".to_string(),
    );
    event.timestamp_ms = 0;
    let m = emb_public::gateway::channel_manager::event_message(&event);
    assert_eq!(m.source, "event_system");
    assert_eq!(m.payload["kind"], "PrintStarted");
    assert_eq!(m.payload["source"], "printer");
    assert_eq!(m.payload["severity"], "Info");
    assert_eq!(m.payload["timestamp"], "1970-01-01T00:00:00+00:00");
}

#[test]
fn gateway_lists_names_added_and_not_removed() {
    let mut g = CommunicationGateway::new();
    g.add_channel("serial".to_string(), ChannelConfig::default());
    g.add_channel("dds".to_string(), ChannelConfig::default());
    g.add_channel("serial".to_string(), ChannelConfig::default());
    g.add_channel("unix".to_string(), ChannelConfig::default());
    g.remove_channel("dds");
    g.remove_channel("missing");
    g.add_channel("dds".to_string(), ChannelConfig::default());
    let mut names = g.list_channels();
    names.sort();
    assert_eq!(names, vec!["dds".to_string(), "serial".to_string(), "unix".to_string()]);
}
