//! The channel manager: builds the enabled channels (WebSocket, UNIX socket, MQTT), starts
//! and stops them together and routes messages to them. Instants are milliseconds since the
//! Unix epoch.

use vstd::prelude::*;
use vstd::string::*;
use crate::common::error::EmbError;
use crate::common::events::{PrinterEvent, event_kind_name, event_severity_name};
use crate::common::json::{make_json_string_object, json_string_object, pairs_view, rfc3339_from_millis, rfc3339_of_millis};
use crate::common::messages::WebSocketMessage;
use crate::common::str_map::str_eq;
use crate::message_queue::types::{Message, MessageType};
use super::websocket::{WebSocketConfig, WebSocketServer, WebSocketStatus};
use super::unix_socket::{UnixSocketConfig, UnixSocketServer, UnixSocketStatus};
use super::mqtt::{MqttConfig, MqttClient, MqttStatus, MqttTopicType};

verus! {

/// Configuration of the channel manager.
#[derive(Debug)]
pub struct ChannelManagerConfig {
    pub websocket: WebSocketConfig,
    pub unix_socket: UnixSocketConfig,
    pub mqtt: MqttConfig,
    pub enable_websocket: bool,
    pub enable_unix_socket: bool,
    pub enable_mqtt: bool,
    /// Seconds between status broadcasts.
    pub status_broadcast_interval: u64,
}

impl Default for ChannelManagerConfig {
    /// The default channel configurations, WebSocket and UNIX socket enabled, MQTT disabled,
    /// a status broadcast every second.
    fn default() -> (r: Self)
        ensures
            r.websocket.bind_address@ == "127.0.0.1"@,
            r.websocket.port == 8080,
            r.websocket.max_connections == 10,
            r.unix_socket.socket_path@ == "/tmp/flowpulse.sock"@,
            r.unix_socket.max_connections == 5,
            r.unix_socket.buffer_size == 4096,
            r.mqtt.broker_address@ == "mqtt.example.com"@,
            r.mqtt.port == 1883,
            r.enable_websocket == true,
            r.enable_unix_socket == true,
            r.enable_mqtt == false,
            r.status_broadcast_interval == 1,
    {
        ChannelManagerConfig {
            websocket: WebSocketConfig::default(),
            unix_socket: UnixSocketConfig::default(),
            mqtt: MqttConfig::default(),
            enable_websocket: true,
            enable_unix_socket: true,
            enable_mqtt: false,
            status_broadcast_interval: 1,
        }
    }
}

/// Status of the channel manager.
#[derive(Debug, Clone, Copy, PartialEq, Eq, Structural)]
pub struct ChannelManagerStatus {
    pub websocket_running: bool,
    pub unix_socket_running: bool,
    pub mqtt_connected: bool,
    pub total_messages_routed: u64,
    /// Instant of the last status broadcast.
    pub last_broadcast_ms: Option<i64>,
}

impl Default for ChannelManagerStatus {
    fn default() -> (r: Self)
        ensures
            r == (ChannelManagerStatus {
                websocket_running: false,
                unix_socket_running: false,
                mqtt_connected: false,
                total_messages_routed: 0,
                last_broadcast_ms: None,
            }),
    {
        ChannelManagerStatus {
            websocket_running: false,
            unix_socket_running: false,
            mqtt_connected: false,
            total_messages_routed: 0,
            last_broadcast_ms: None,
        }
    }
}

/// The manager of the communication channels.
#[derive(Debug)]
pub struct ChannelManager {
    config: ChannelManagerConfig,
    websocket_server: Option<WebSocketServer>,
    unix_socket_server: Option<UnixSocketServer>,
    mqtt_client: Option<MqttClient>,
    status: ChannelManagerStatus,
}

/// The messages the WebSocket channel counts, after sending `n` messages.
pub open spec fn ws_after(ws: Option<WebSocketServer>, n: nat) -> Option<WebSocketStatus> {
    match ws {
        Some(w) => Some(WebSocketStatus { messages_sent: (w.stat().messages_sent + n) as u64, ..w.stat() }),
        None => None,
    }
}

/// The UNIX socket channel's status after a broadcast to every client.
pub open spec fn unix_after_broadcast(u: Option<UnixSocketServer>) -> Option<UnixSocketStatus> {
    match u {
        Some(s) => Some(UnixSocketStatus {
            messages_sent: (s.stat().messages_sent + s.conns().len()) as u64,
            ..s.stat()
        }),
        None => None,
    }
}

/// Whether publishing on the MQTT channel fails: the client exists but is disconnected.
pub open spec fn mqtt_refuses(m: Option<MqttClient>) -> bool {
    m matches Some(c) && !c.stat().connected
}

/// The MQTT channel's status after one publication that was accepted.
pub open spec fn mqtt_after_publish(m: Option<MqttClient>) -> Option<MqttStatus> {
    match m {
        Some(c) => Some(MqttStatus { messages_published: (c.stat().messages_published + 1) as u64, ..c.stat() }),
        None => None,
    }
}

impl ChannelManager {
    pub closed spec fn cfg(&self) -> ChannelManagerConfig {
        self.config
    }

    pub closed spec fn ws(&self) -> Option<WebSocketServer> {
        self.websocket_server
    }

    pub closed spec fn unix(&self) -> Option<UnixSocketServer> {
        self.unix_socket_server
    }

    pub closed spec fn mqtt(&self) -> Option<MqttClient> {
        self.mqtt_client
    }

    pub closed spec fn stat(&self) -> ChannelManagerStatus {
        self.status
    }

    /// The WebSocket status, if the channel exists.
    pub open spec fn ws_stat(&self) -> Option<WebSocketStatus> {
        match self.ws() {
            Some(w) => Some(w.stat()),
            None => None,
        }
    }

    /// The UNIX socket status, if the channel exists.
    pub open spec fn unix_stat(&self) -> Option<UnixSocketStatus> {
        match self.unix() {
            Some(u) => Some(u.stat()),
            None => None,
        }
    }

    /// The MQTT status, if the channel exists.
    pub open spec fn mqtt_stat(&self) -> Option<MqttStatus> {
        match self.mqtt() {
            Some(m) => Some(m.stat()),
            None => None,
        }
    }

    /// Every counter a routing step may raise has room for it.
    pub open spec fn has_counter_room(&self) -> bool {
        &&& self.stat().total_messages_routed < u64::MAX
        &&& (self.ws() matches Some(w) ==> w.stat().messages_sent + 2 <= u64::MAX)
        &&& (self.unix() matches Some(u) ==> u.stat().messages_sent + u.conns().len() <= u64::MAX)
        &&& (self.mqtt() matches Some(m) ==> m.stat().messages_published < u64::MAX)
    }

    /// A manager with a fresh channel for each enabled kind, all stopped, nothing routed.
    pub fn new(config: ChannelManagerConfig) -> (r: Self)
        ensures
            r.cfg() == config,
            (r.ws() is Some) == config.enable_websocket,
            (r.unix() is Some) == config.enable_unix_socket,
            (r.mqtt() is Some) == config.enable_mqtt,
            r.ws() matches Some(w) ==> w.cfg() == config.websocket && w.stat() == (WebSocketStatus {
                running: false,
                active_connections: 0,
                messages_sent: 0,
                messages_received: 0,
            }) && w.conns().len() == 0,
            r.unix() matches Some(u) ==> u.cfg() == config.unix_socket && u.conns().len() == 0
                && !u.stat().running && u.stat().messages_sent == 0 && u.stat().messages_received == 0,
            r.mqtt() matches Some(m) ==> m.cfg() == config.mqtt && !m.stat().connected
                && m.stat().messages_published == 0 && m.topics().len() == 0,
            r.stat() == (ChannelManagerStatus {
                websocket_running: false,
                unix_socket_running: false,
                mqtt_connected: false,
                total_messages_routed: 0,
                last_broadcast_ms: None,
            }),
    {
        let websocket_server = if config.enable_websocket {
            Some(WebSocketServer::new(config.websocket.clone()))
        } else {
            None
        };
        let unix_socket_server = if config.enable_unix_socket {
            Some(UnixSocketServer::new(config.unix_socket.clone()))
        } else {
            None
        };
        let mqtt_client = if config.enable_mqtt {
            Some(MqttClient::new(config.mqtt.clone()))
        } else {
            None
        };
        ChannelManager {
            config,
            websocket_server,
            unix_socket_server,
            mqtt_client,
            status: ChannelManagerStatus::default(),
        }
    }

    /// Starts every channel and records which run (the host prepares the UNIX socket file).
    pub fn start_all(&mut self) -> (r: Result<(), EmbError>)
        ensures
            r is Ok,
            final(self).cfg() == old(self).cfg(),
            (final(self).ws() is Some) == (old(self).ws() is Some),
            (final(self).unix() is Some) == (old(self).unix() is Some),
            (final(self).mqtt() is Some) == (old(self).mqtt() is Some),
            final(self).ws() matches Some(w) ==> w.stat().running,
            final(self).unix() matches Some(u) ==> u.stat().running,
            final(self).mqtt() matches Some(m) ==> m.stat().connected,
            final(self).stat() == (ChannelManagerStatus {
                websocket_running: (old(self).ws() is Some) || old(self).stat().websocket_running,
                unix_socket_running: (old(self).unix() is Some) || old(self).stat().unix_socket_running,
                mqtt_connected: (old(self).mqtt() is Some) || old(self).stat().mqtt_connected,
                ..old(self).stat()
            }),
    {
        match &mut self.websocket_server {
            Some(ws) => {
                ws.start();
                self.status.websocket_running = true;
            },
            None => {},
        }
        match &mut self.unix_socket_server {
            Some(us) => {
                us.start();
                self.status.unix_socket_running = true;
            },
            None => {},
        }
        match &mut self.mqtt_client {
            Some(m) => {
                let _ = m.connect();
                self.status.mqtt_connected = true;
            },
            None => {},
        }
        Ok(())
    }

    /// Stops every channel and records that none runs.
    pub fn stop_all(&mut self) -> (r: Result<(), EmbError>)
        ensures
            r is Ok,
            final(self).cfg() == old(self).cfg(),
            (final(self).ws() is Some) == (old(self).ws() is Some),
            (final(self).unix() is Some) == (old(self).unix() is Some),
            (final(self).mqtt() is Some) == (old(self).mqtt() is Some),
            final(self).ws() matches Some(w) ==> !w.stat().running && w.conns().len() == 0,
            final(self).unix() matches Some(u) ==> !u.stat().running && u.conns().len() == 0,
            final(self).mqtt() matches Some(m) ==> !m.stat().connected && m.topics().len() == 0,
            final(self).stat() == (ChannelManagerStatus {
                websocket_running: (old(self).ws() is None) && old(self).stat().websocket_running,
                unix_socket_running: (old(self).unix() is None) && old(self).stat().unix_socket_running,
                mqtt_connected: (old(self).mqtt() is None) && old(self).stat().mqtt_connected,
                ..old(self).stat()
            }),
    {
        match &mut self.websocket_server {
            Some(ws) => {
                ws.stop();
                self.status.websocket_running = false;
            },
            None => {},
        }
        match &mut self.unix_socket_server {
            Some(us) => {
                us.stop();
                self.status.unix_socket_running = false;
            },
            None => {},
        }
        match &mut self.mqtt_client {
            Some(m) => {
                let _ = m.disconnect();
                self.status.mqtt_connected = false;
            },
            None => {},
        }
        Ok(())
    }

    /// Sends a message to every channel: the WebSocket clients, the UNIX socket clients and
    /// the MQTT event topic. A disconnected MQTT client refuses, after the other channels have
    /// sent.
    pub fn broadcast_message(&mut self, msg: Message) -> (r: Result<(), EmbError>)
        requires
            old(self).has_counter_room(),
        ensures
            final(self).cfg() == old(self).cfg(),
            final(self).stat() == old(self).stat(),
            final(self).ws_stat() == ws_after(old(self).ws(), 1),
            final(self).unix_stat() == unix_after_broadcast(old(self).unix()),
            mqtt_refuses(old(self).mqtt()) ==> (r matches Err(EmbError::Gateway(_)))
                && final(self).mqtt_stat() == old(self).mqtt_stat(),
            !mqtt_refuses(old(self).mqtt()) ==> r is Ok && final(self).mqtt_stat()
                == mqtt_after_publish(old(self).mqtt()),
    {
        match &mut self.websocket_server {
            Some(ws) => {
                let _ws_msg = convert_to_websocket_message(&msg);
                ws.send_to_clients();
            },
            None => {},
        }
        match &mut self.unix_socket_server {
            Some(us) => {
                us.broadcast();
            },
            None => {},
        }
        match &mut self.mqtt_client {
            Some(m) => m.publish(MqttTopicType::Event, msg.payload),
            None => Ok(()),
        }
    }

    /// Routes a message: to the channel its destination names (`websocket`, `unix_socket` or
    /// `mqtt`; any other destination goes nowhere), or to every channel when it has none.
    /// A routed message is counted; a refusal by the MQTT client is passed on uncounted.
    pub fn route_message(&mut self, msg: Message) -> (r: Result<(), EmbError>)
        requires
            old(self).has_counter_room(),
        ensures
            final(self).cfg() == old(self).cfg(),
            r is Ok ==> final(self).stat() == (ChannelManagerStatus {
                total_messages_routed: (old(self).stat().total_messages_routed + 1) as u64,
                ..old(self).stat()
            }),
            r is Err ==> final(self).stat() == old(self).stat(),
            msg.destination matches Some(d) && d@ == "websocket"@ ==> {
                &&& r is Ok
                &&& final(self).ws_stat() == ws_after(old(self).ws(), 1)
                &&& final(self).unix_stat() == old(self).unix_stat()
                &&& final(self).mqtt_stat() == old(self).mqtt_stat()
            },
            msg.destination matches Some(d) && d@ == "unix_socket"@ ==> {
                &&& r is Ok
                &&& final(self).ws_stat() == old(self).ws_stat()
                &&& final(self).unix_stat() == unix_after_broadcast(old(self).unix())
                &&& final(self).mqtt_stat() == old(self).mqtt_stat()
            },
            msg.destination matches Some(d) && d@ == "mqtt"@ ==> {
                &&& final(self).ws_stat() == old(self).ws_stat()
                &&& final(self).unix_stat() == old(self).unix_stat()
                &&& (mqtt_refuses(old(self).mqtt()) ==> (r matches Err(EmbError::Gateway(_)))
                    && final(self).mqtt_stat() == old(self).mqtt_stat())
                &&& (!mqtt_refuses(old(self).mqtt()) ==> r is Ok && final(self).mqtt_stat()
                    == mqtt_after_publish(old(self).mqtt()))
            },
            msg.destination matches Some(d) && d@ != "websocket"@ && d@ != "unix_socket"@ && d@
                != "mqtt"@ ==> {
                &&& r is Ok
                &&& final(self).ws_stat() == old(self).ws_stat()
                &&& final(self).unix_stat() == old(self).unix_stat()
                &&& final(self).mqtt_stat() == old(self).mqtt_stat()
            },
            msg.destination is None ==> {
                &&& final(self).ws_stat() == ws_after(old(self).ws(), 1)
                &&& final(self).unix_stat() == unix_after_broadcast(old(self).unix())
                &&& (mqtt_refuses(old(self).mqtt()) ==> (r matches Err(EmbError::Gateway(_)))
                    && final(self).mqtt_stat() == old(self).mqtt_stat())
                &&& (!mqtt_refuses(old(self).mqtt()) ==> r is Ok && final(self).mqtt_stat()
                    == mqtt_after_publish(old(self).mqtt()))
            },
    {
        proof {
            reveal_strlit("websocket");
            reveal_strlit("unix_socket");
            reveal_strlit("mqtt");
            assert("websocket"@.len() == 9 && "unix_socket"@.len() == 11 && "mqtt"@.len() == 4);
        }
        let result = match &msg.destination {
            Some(dest) => {
                if str_eq(dest.as_str(), "websocket") {
                    match &mut self.websocket_server {
                        Some(ws) => {
                            let _ws_msg = convert_to_websocket_message(&msg);
                            ws.send_to_clients();
                        },
                        None => {},
                    }
                    Ok(())
                } else if str_eq(dest.as_str(), "unix_socket") {
                    match &mut self.unix_socket_server {
                        Some(us) => {
                            us.broadcast();
                        },
                        None => {},
                    }
                    Ok(())
                } else if str_eq(dest.as_str(), "mqtt") {
                    match &mut self.mqtt_client {
                        Some(m) => m.publish(MqttTopicType::Custom(dest.clone()), msg.payload),
                        None => Ok(()),
                    }
                } else {
                    Ok(())
                }
            },
            None => self.broadcast_message(msg),
        };
        match result {
            Ok(()) => {
                self.status.total_messages_routed = self.status.total_messages_routed + 1;
                Ok(())
            },
            Err(e) => Err(e),
        }
    }

    /// Broadcasts the printer's status at `now_ms`: a temperature and a position message to
    /// the WebSocket clients and `status_payload` on the MQTT status topic, then records the
    /// broadcast instant. A disconnected MQTT client refuses, and the instant is not recorded.
    pub fn broadcast_status_at(&mut self, status_payload: serde_json::Value, now_ms: i64) -> (r: Result<(), EmbError>)
        requires
            old(self).has_counter_room(),
        ensures
            final(self).cfg() == old(self).cfg(),
            final(self).ws_stat() == ws_after(old(self).ws(), 2),
            final(self).unix_stat() == old(self).unix_stat(),
            mqtt_refuses(old(self).mqtt()) ==> {
                &&& r matches Err(EmbError::Gateway(_))
                &&& final(self).mqtt_stat() == old(self).mqtt_stat()
                &&& final(self).stat() == old(self).stat()
            },
            !mqtt_refuses(old(self).mqtt()) ==> {
                &&& r is Ok
                &&& final(self).mqtt_stat() == mqtt_after_publish(old(self).mqtt())
                &&& final(self).stat() == (ChannelManagerStatus {
                    last_broadcast_ms: Some(now_ms),
                    ..old(self).stat()
                })
            },
    {
        match &mut self.websocket_server {
            Some(ws) => {
                ws.send_to_clients();
                ws.send_to_clients();
            },
            None => {},
        }
        let published = match &mut self.mqtt_client {
            Some(m) => m.publish(MqttTopicType::Status, status_payload),
            None => Ok(()),
        };
        match published {
            Ok(()) => {
                self.status.last_broadcast_ms = Some(now_ms);
                Ok(())
            },
            Err(e) => Err(e),
        }
    }

    /// Broadcasts a printer event to every channel as a system event message from the source
    /// `event_system`, carrying the event's kind, source, message, severity and time.
    pub fn handle_event(&mut self, event: &PrinterEvent) -> (r: Result<(), EmbError>)
        requires
            old(self).has_counter_room(),
        ensures
            final(self).cfg() == old(self).cfg(),
            final(self).stat() == old(self).stat(),
            final(self).ws_stat() == ws_after(old(self).ws(), 1),
            final(self).unix_stat() == unix_after_broadcast(old(self).unix()),
            mqtt_refuses(old(self).mqtt()) ==> r matches Err(EmbError::Gateway(_)),
            !mqtt_refuses(old(self).mqtt()) ==> r is Ok && final(self).mqtt_stat()
                == mqtt_after_publish(old(self).mqtt()),
    {
        let msg = event_message(event);
        self.broadcast_message(msg)
    }

    /// The manager's status.
    pub fn get_status(&self) -> (r: ChannelManagerStatus)
        ensures
            r == self.stat(),
    {
        self.status
    }

    /// The WebSocket server, if enabled.
    pub fn get_websocket_server(&self) -> (r: Option<&WebSocketServer>)
        ensures
            match r {
                Some(w) => self.ws() == Some(*w),
                None => self.ws() is None,
            },
    {
        match &self.websocket_server {
            Some(w) => Some(w),
            None => None,
        }
    }

    /// The UNIX socket server, if enabled.
    pub fn get_unix_socket_server(&self) -> (r: Option<&UnixSocketServer>)
        ensures
            match r {
                Some(u) => self.unix() == Some(*u),
                None => self.unix() is None,
            },
    {
        match &self.unix_socket_server {
            Some(u) => Some(u),
            None => None,
        }
    }

    /// The MQTT client, if enabled.
    pub fn get_mqtt_client(&self) -> (r: Option<&MqttClient>)
        ensures
            match r {
                Some(m) => self.mqtt() == Some(*m),
                None => self.mqtt() is None,
            },
    {
        match &self.mqtt_client {
            Some(m) => Some(m),
            None => None,
        }
    }
}

/// The WebSocket form of a queue message: a state message from and to `unknown`.
pub fn convert_to_websocket_message(_msg: &Message) -> (r: WebSocketMessage)
    ensures
        r matches WebSocketMessage::State { from, to } && from@ == "unknown"@ && to@ == "unknown"@,
{
    WebSocketMessage::State { from: String::from_str("unknown"), to: String::from_str("unknown") }
}

/// The system event message for a printer event: its kind, source, message, severity and
/// (when it can be written) RFC 3339 time as strings.
pub fn event_message(event: &PrinterEvent) -> (r: Message)
    ensures
        r.message_type == MessageType::SystemEvent,
        r.source@ == "event_system"@,
        r.payload == json_string_object(
            seq![
                ("kind"@, event_kind_name(event.kind)),
                ("source"@, event.source@),
                ("message"@, event.message@),
                ("severity"@, event_severity_name(event.severity)),
            ] + match rfc3339_of_millis(event.timestamp_ms) {
                Some(t) => seq![("timestamp"@, t)],
                None => Seq::empty(),
            },
        ),
{
    let mut pairs: Vec<(String, String)> = Vec::new();
    pairs.push((String::from_str("kind"), String::from_str(event.kind.name())));
    pairs.push((String::from_str("source"), event.source.clone()));
    pairs.push((String::from_str("message"), event.message.clone()));
    pairs.push((String::from_str("severity"), String::from_str(event.severity.name())));
    let ts = rfc3339_from_millis(event.timestamp_ms);
    match ts {
        Some(t) => {
            pairs.push((String::from_str("timestamp"), t));
        },
        None => {},
    }
    proof {
        let expected = seq![
            ("kind"@, event_kind_name(event.kind)),
            ("source"@, event.source@),
            ("message"@, event.message@),
            ("severity"@, event_severity_name(event.severity)),
        ] + match rfc3339_of_millis(event.timestamp_ms) {
            Some(t) => seq![("timestamp"@, t)],
            None => Seq::empty(),
        };
        assert(pairs_view(pairs@) =~= expected);
    }
    let payload = make_json_string_object(pairs);
    Message::new(MessageType::SystemEvent, String::from_str("event_system"), payload)
}

} // verus!
