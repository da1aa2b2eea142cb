//! The MQTT client for remote monitoring: its configuration, status, subscriptions, topic
//! names and the conversion of incoming messages into queue messages. Instants are
//! milliseconds since the Unix epoch.

use vstd::prelude::*;
use vstd::string::*;
use crate::common::error::EmbError;
use crate::common::foreign::unix_now_millis;
use crate::common::json::{json_get_str, json_str_at, parse_json_bytes, json_parse};
use crate::common::pin_parser::push_decimal;
use crate::common::str_map::str_eq;
use crate::common::text::{append_str, decimal, push_char, str_contains, seq_contains};
use crate::message_queue::types::{Message, MessageType, MessagePriority, MessageStatus, priority_ordinal};
use crate::message_queue::queue::MessageQueue;

verus! {

/// Configuration of the MQTT client.
#[derive(Debug)]
pub struct MqttConfig {
    pub broker_address: String,
    pub port: u16,
    pub client_id: String,
    pub username: Option<String>,
    pub password: Option<String>,
    pub topic_prefix: String,
    pub enable_tls: bool,
    /// Keep-alive interval in seconds.
    pub keep_alive: u16,
    pub clean_session: bool,
    pub qos: u8,
}

fn clone_opt_string(s: &Option<String>) -> (r: Option<String>)
    ensures
        r == *s,
{
    match s {
        Some(v) => Some(v.clone()),
        None => None,
    }
}

impl Clone for MqttConfig {
    fn clone(&self) -> (r: Self)
        ensures
            r == *self,
    {
        MqttConfig {
            broker_address: self.broker_address.clone(),
            port: self.port,
            client_id: self.client_id.clone(),
            username: clone_opt_string(&self.username),
            password: clone_opt_string(&self.password),
            topic_prefix: self.topic_prefix.clone(),
            enable_tls: self.enable_tls,
            keep_alive: self.keep_alive,
            clean_session: self.clean_session,
            qos: self.qos,
        }
    }
}

impl Default for MqttConfig {
    fn default() -> (r: Self)
        ensures
            r.broker_address@ == "mqtt.example.com"@,
            r.port == 1883,
            r.client_id@ == "flowpulse_client"@,
            r.username is None,
            r.password is None,
            r.topic_prefix@ == "flowpulse"@,
            r.enable_tls == false,
            r.keep_alive == 60,
            r.clean_session == true,
            r.qos == 1,
    {
        MqttConfig {
            broker_address: String::from_str("mqtt.example.com"),
            port: 1883,
            client_id: String::from_str("flowpulse_client"),
            username: None,
            password: None,
            topic_prefix: String::from_str("flowpulse"),
            enable_tls: false,
            keep_alive: 60,
            clean_session: true,
            qos: 1,
        }
    }
}

/// Status of the MQTT client.
#[derive(Debug)]
pub struct MqttStatus {
    pub connected: bool,
    /// `address:port` of the broker.
    pub broker_address: String,
    pub messages_published: u64,
    pub messages_received: u64,
    /// Instant of the last connection.
    pub last_connected_ms: Option<i64>,
    pub last_error: Option<String>,
}

impl Clone for MqttStatus {
    fn clone(&self) -> (r: Self)
        ensures
            r == *self,
    {
        MqttStatus {
            connected: self.connected,
            broker_address: self.broker_address.clone(),
            messages_published: self.messages_published,
            messages_received: self.messages_received,
            last_connected_ms: self.last_connected_ms,
            last_error: clone_opt_string(&self.last_error),
        }
    }
}

impl Default for MqttStatus {
    fn default() -> (r: Self)
        ensures
            r.connected == false,
            r.broker_address@ == Seq::<char>::empty(),
            r.messages_published == 0,
            r.messages_received == 0,
            r.last_connected_ms is None,
            r.last_error is None,
    {
        MqttStatus {
            connected: false,
            broker_address: String::new(),
            messages_published: 0,
            messages_received: 0,
            last_connected_ms: None,
            last_error: None,
        }
    }
}

/// MQTT topic kinds.
#[derive(Debug)]
pub enum MqttTopicType {
    Status,
    Command,
    Temperature,
    Position,
    Event,
    Custom(String),
}

/// The last segment of a topic of the given kind.
pub open spec fn topic_suffix(t: MqttTopicType) -> Seq<char> {
    match t {
        MqttTopicType::Status => "status"@,
        MqttTopicType::Command => "command"@,
        MqttTopicType::Temperature => "temperature"@,
        MqttTopicType::Position => "position"@,
        MqttTopicType::Event => "event"@,
        MqttTopicType::Custom(s) => s@,
    }
}

/// The full topic: the prefix, a slash and the suffix.
pub open spec fn topic_name(prefix: Seq<char>, t: MqttTopicType) -> Seq<char> {
    prefix + "/"@ + topic_suffix(t)
}

/// The message type of a remote command, when it is one of the known commands.
pub open spec fn mqtt_command_type(command: Seq<char>) -> Option<MessageType> {
    if command == "start"@ {
        Some(MessageType::PrintStart)
    } else if command == "pause"@ {
        Some(MessageType::PrintPause)
    } else if command == "resume"@ {
        Some(MessageType::PrintResume)
    } else if command == "stop"@ {
        Some(MessageType::PrintStop)
    } else if command == "home"@ {
        Some(MessageType::HomeCommand)
    } else if command == "move"@ {
        Some(MessageType::MoveCommand)
    } else if command == "temp"@ {
        Some(MessageType::TemperatureSet)
    } else {
        None
    }
}

/// Whether `t` is the message type of a message on `topic` with body `data`: on a command
/// topic the body's `command` decides (a custom type named by an unknown or missing
/// command); on a status topic it is a state query; otherwise a custom type named by the
/// topic.
pub open spec fn is_mqtt_message_type(topic: Seq<char>, data: serde_json::Value, t: MessageType) -> bool {
    if seq_contains(topic, "command"@) {
        let command = match json_str_at(data, "command"@) {
            Some(c) => c,
            None => Seq::empty(),
        };
        match mqtt_command_type(command) {
            Some(k) => t == k,
            None => t matches MessageType::Custom(s) && s@ == command,
        }
    } else if seq_contains(topic, "status"@) {
        t == MessageType::StateQuery
    } else {
        t matches MessageType::Custom(s) && s@ == topic
    }
}

/// The MQTT client's state: configuration, status and subscriptions.
#[derive(Debug)]
pub struct MqttClient {
    config: MqttConfig,
    status: MqttStatus,
    subscribed_topics: Vec<String>,
}

impl MqttClient {
    pub closed spec fn cfg(&self) -> MqttConfig {
        self.config
    }

    pub closed spec fn stat(&self) -> MqttStatus {
        self.status
    }

    /// Starts periodic status publishing every `interval_secs` seconds: no schedule is kept,
    /// the request is accepted and nothing changes.
    pub fn start_status_publisher(&self, interval_secs: u64) -> (r: Result<(), EmbError>)
        ensures
            r is Ok,
    {
        Ok(())
    }

    /// Stops periodic status publishing: accepted, and nothing changes.
    pub fn stop_status_publisher(&self) -> (r: Result<(), EmbError>)
        ensures
            r is Ok,
    {
        Ok(())
    }

    /// The subscribed topics, in subscription order.
    pub closed spec fn topics(&self) -> Seq<Seq<char>> {
        self.subscribed_topics@.map_values(|s: String| s@)
    }

    /// A disconnected client reporting `address:port` of its broker, without subscriptions.
    pub fn new(config: MqttConfig) -> (r: Self)
        ensures
            r.cfg() == config,
            r.stat().connected == false,
            r.stat().broker_address@ == config.broker_address@ + ":"@ + decimal(config.port as nat),
            r.stat().messages_published == 0,
            r.stat().messages_received == 0,
            r.stat().last_connected_ms is None,
            r.stat().last_error is None,
            r.topics().len() == 0,
    {
        let mut broker_address = config.broker_address.clone();
        push_char(&mut broker_address, ':');
        push_decimal(&mut broker_address, config.port as u64);
        proof {
            assert(":"@ =~= seq![':']) by {
                reveal_strlit(":");
            }
        }
        let r = MqttClient {
            config,
            status: MqttStatus {
                connected: false,
                broker_address,
                messages_published: 0,
                messages_received: 0,
                last_connected_ms: None,
                last_error: None,
            },
            subscribed_topics: Vec::new(),
        };
        proof {
            assert(r.topics() =~= Seq::<Seq<char>>::empty());
        }
        r
    }

    /// Marks the client connected at `now_ms`.
    pub fn connect_at(&mut self, now_ms: i64) -> (r: Result<(), EmbError>)
        ensures
            r is Ok,
            final(self).stat() == (MqttStatus {
                connected: true,
                last_connected_ms: Some(now_ms),
                ..old(self).stat()
            }),
            final(self).cfg() == old(self).cfg(),
            final(self).topics() == old(self).topics(),
    {
        self.status.connected = true;
        self.status.last_connected_ms = Some(now_ms);
        Ok(())
    }

    /// Marks the client connected now.
    pub fn connect(&mut self) -> (r: Result<(), EmbError>)
        ensures
            r is Ok,
            final(self).stat().connected,
            final(self).stat().last_connected_ms is Some,
            final(self).stat() == (MqttStatus {
                connected: true,
                last_connected_ms: final(self).stat().last_connected_ms,
                ..old(self).stat()
            }),
            final(self).cfg() == old(self).cfg(),
            final(self).topics() == old(self).topics(),
    {
        let now = unix_now_millis();
        self.connect_at(now)
    }

    /// Marks the client disconnected and forgets every subscription.
    pub fn disconnect(&mut self) -> (r: Result<(), EmbError>)
        ensures
            r is Ok,
            final(self).stat() == (MqttStatus { connected: false, ..old(self).stat() }),
            final(self).cfg() == old(self).cfg(),
            final(self).topics().len() == 0,
    {
        self.status.connected = false;
        self.subscribed_topics.clear();
        proof {
            assert(self.topics() =~= Seq::<Seq<char>>::empty());
        }
        Ok(())
    }

    /// The full topic of a kind: the configured prefix, a slash and the kind's suffix.
    pub fn build_topic(&self, topic_type: MqttTopicType) -> (r: String)
        ensures
            r@ == topic_name(self.cfg().topic_prefix@, topic_type),
    {
        let suffix = match topic_type {
            MqttTopicType::Status => String::from_str("status"),
            MqttTopicType::Command => String::from_str("command"),
            MqttTopicType::Temperature => String::from_str("temperature"),
            MqttTopicType::Position => String::from_str("position"),
            MqttTopicType::Event => String::from_str("event"),
            MqttTopicType::Custom(s) => s,
        };
        let mut topic = self.config.topic_prefix.clone();
        push_char(&mut topic, '/');
        append_str(&mut topic, suffix.as_str());
        proof {
            assert("/"@ =~= seq!['/']) by {
                reveal_strlit("/");
            }
        }
        topic
    }

    /// Whether `topic` is subscribed.
    fn is_subscribed(&self, topic: &str) -> (r: bool)
        ensures
            r == self.topics().contains(topic@),
    {
        let mut i: usize = 0;
        while i < self.subscribed_topics.len()
            invariant
                i <= self.subscribed_topics@.len(),
                forall|j: int| 0 <= j < i ==> #[trigger] self.subscribed_topics@[j]@ != topic@,
            decreases self.subscribed_topics@.len() - i,
        {
            if str_eq(self.subscribed_topics[i].as_str(), topic) {
                proof {
                    assert(self.topics()[i as int] == topic@);
                }
                return true;
            }
            i = i + 1;
        }
        proof {
            if self.topics().contains(topic@) {
                let k = choose|k: int| 0 <= k < self.topics().len() && self.topics()[k] == topic@;
                assert(self.subscribed_topics@[k]@ == topic@);
            }
        }
        false
    }

    /// Subscribes to the topic of a kind, once.
    pub fn subscribe(&mut self, topic_type: MqttTopicType) -> (r: Result<(), EmbError>)
        ensures
            r is Ok,
            final(self).stat() == old(self).stat(),
            final(self).cfg() == old(self).cfg(),
            final(self).topics() == if old(self).topics().contains(
                topic_name(old(self).cfg().topic_prefix@, topic_type),
            ) {
                old(self).topics()
            } else {
                old(self).topics().push(topic_name(old(self).cfg().topic_prefix@, topic_type))
            },
    {
        let topic = self.build_topic(topic_type);
        if !self.is_subscribed(topic.as_str()) {
            self.subscribed_topics.push(topic);
            proof {
                assert(self.topics() =~= old(self).topics().push(topic@));
            }
        }
        Ok(())
    }

    /// Drops every subscription to the topic of a kind.
    pub fn unsubscribe(&mut self, topic_type: MqttTopicType) -> (r: Result<(), EmbError>)
        ensures
            r is Ok,
            final(self).stat() == old(self).stat(),
            final(self).cfg() == old(self).cfg(),
            final(self).topics() == old(self).topics().filter(
                |t: Seq<char>| t != topic_name(old(self).cfg().topic_prefix@, topic_type),
            ),
    {
        let topic = self.build_topic(topic_type);
        let ghost name = topic@;
        let ghost f = |t: Seq<char>| t != name;
        let mut kept: Vec<String> = Vec::new();
        let mut i: usize = 0;
        while i < self.subscribed_topics.len()
            invariant
                i <= self.subscribed_topics@.len(),
                self.subscribed_topics@ == old(self).subscribed_topics@,
                self.status == old(self).status,
                self.config == old(self).config,
                name == topic@,
                f == (|t: Seq<char>| t != name),
                kept@.map_values(|s: String| s@) == self.topics().subrange(0, i as int).filter(f),
            decreases self.subscribed_topics@.len() - i,
        {
            proof {
                let all = self.topics();
                assert(all.subrange(0, i + 1).drop_last() =~= all.subrange(0, i as int));
                reveal(Seq::filter);
                assert(all.subrange(0, i + 1).filter(f) == if f(all[i as int]) {
                    all.subrange(0, i as int).filter(f).push(all[i as int])
                } else {
                    all.subrange(0, i as int).filter(f)
                });
                assert(all[i as int] == self.subscribed_topics@[i as int]@);
            }
            if !str_eq(self.subscribed_topics[i].as_str(), topic.as_str()) {
                let ghost before = kept@;
                kept.push(self.subscribed_topics[i].clone());
                proof {
                    assert(kept@.map_values(|s: String| s@) =~= before.map_values(|s: String| s@).push(
                        self.subscribed_topics@[i as int]@,
                    ));
                }
            }
            i = i + 1;
        }
        proof {
            assert(self.topics().subrange(0, self.topics().len() as int) =~= self.topics());
        }
        self.subscribed_topics = kept;
        Ok(())
    }

    /// Counts a message published on the topic of a kind; a disconnected client refuses.
    pub fn publish(&mut self, topic_type: MqttTopicType, payload: serde_json::Value) -> (r: Result<(), EmbError>)
        requires
            old(self).stat().messages_published < u64::MAX,
        ensures
            final(self).cfg() == old(self).cfg(),
            final(self).topics() == old(self).topics(),
            !old(self).stat().connected ==> {
                &&& r matches Err(EmbError::Gateway(e)) && e@ == "MQTT client not connected"@
                &&& final(self).stat() == old(self).stat()
            },
            old(self).stat().connected ==> {
                &&& r is Ok
                &&& final(self).stat() == (MqttStatus {
                    messages_published: (old(self).stat().messages_published + 1) as u64,
                    ..old(self).stat()
                })
            },
    {
        if !self.status.connected {
            return Err(EmbError::Gateway(String::from_str("MQTT client not connected")));
        }
        let _topic = self.build_topic(topic_type);
        self.status.messages_published = self.status.messages_published + 1;
        Ok(())
    }

    /// Turns a message received on `topic` into a queue message from the source `mqtt`,
    /// carrying the body as its payload.
    pub fn convert_mqtt_message(&self, topic: &str, msg_data: serde_json::Value) -> (r: Message)
        ensures
            is_mqtt_message_type(topic@, msg_data, r.message_type),
            r.source@ == "mqtt"@,
            r.payload == msg_data,
            r.priority == MessagePriority::Normal,
            r.status == MessageStatus::Pending,
            r.timeout_ms is None,
    {
        let msg_type = if str_contains(topic, "command") {
            let command = match json_get_str(&msg_data, "command") {
                Some(c) => c,
                None => String::new(),
            };
            let c = command.as_str();
            if str_eq(c, "start") {
                MessageType::PrintStart
            } else if str_eq(c, "pause") {
                MessageType::PrintPause
            } else if str_eq(c, "resume") {
                MessageType::PrintResume
            } else if str_eq(c, "stop") {
                MessageType::PrintStop
            } else if str_eq(c, "home") {
                MessageType::HomeCommand
            } else if str_eq(c, "move") {
                MessageType::MoveCommand
            } else if str_eq(c, "temp") {
                MessageType::TemperatureSet
            } else {
                MessageType::Custom(command.clone())
            }
        } else if str_contains(topic, "status") {
            MessageType::StateQuery
        } else {
            MessageType::Custom(String::from_str(topic))
        };
        Message::new(msg_type, String::from_str("mqtt"), msg_data)
    }

    /// Handles a message received on `topic`: parses the body as JSON, queues it and counts
    /// it. An unparsable body is refused with the parser's message.
    pub fn handle_message(&mut self, queue: &mut MessageQueue, topic: &str, payload: &[u8]) -> (r: Result<(), EmbError>)
        requires
            old(queue).wf(),
            old(queue).has_key_room(),
            old(self).stat().messages_received < u64::MAX,
        ensures
            final(queue).wf(),
            final(self).cfg() == old(self).cfg(),
            final(self).topics() == old(self).topics(),
            json_parse(payload@) is Err ==> {
                &&& r matches Err(EmbError::Gateway(e))
                &&& e@ == "Failed to parse MQTT message: "@ + json_parse(payload@)->Err_0
                &&& *final(queue) == *old(queue)
                &&& final(self).stat() == old(self).stat()
            },
            json_parse(payload@) is Ok && old(queue).pending() >= old(queue).cfg().max_queue_size ==> {
                &&& r matches Err(EmbError::MessageQueue(_))
                &&& final(self).stat() == old(self).stat()
            },
            json_parse(payload@) is Ok && old(queue).pending() < old(queue).cfg().max_queue_size ==> {
                &&& r is Ok
                &&& final(queue).pending() == old(queue).pending() + 1
                &&& final(self).stat() == (MqttStatus {
                    messages_received: (old(self).stat().messages_received + 1) as u64,
                    ..old(self).stat()
                })
            },
    {
        let msg_data = match parse_json_bytes(payload) {
            Ok(v) => v,
            Err(e) => {
                let mut text = String::from_str("Failed to parse MQTT message: ");
                append_str(&mut text, e.as_str());
                return Err(EmbError::Gateway(text));
            },
        };
        let queue_msg = self.convert_mqtt_message(topic, msg_data);
        let ghost q0 = *queue;
        match queue.enqueue(queue_msg) {
            Ok(()) => {},
            Err(e) => {
                return Err(e);
            },
        }
        proof {
            let p = priority_ordinal(MessagePriority::Normal) as int;
            assert(queue.level(0) == q0.level(0));
            assert(queue.level(2) == q0.level(2));
            assert(queue.level(3) == q0.level(3));
            assert(queue.level(p).len() == q0.level(p).len() + 1);
        }
        self.status.messages_received = self.status.messages_received + 1;
        Ok(())
    }

    /// The client's status.
    pub fn get_status(&self) -> (r: MqttStatus)
        ensures
            r == self.stat(),
    {
        self.status.clone()
    }

    /// The subscribed topics, in subscription order.
    pub fn get_subscribed_topics(&self) -> (r: Vec<String>)
        ensures
            r@.map_values(|s: String| s@) == self.topics(),
    {
        let r = self.subscribed_topics.clone();
        proof {
            assert(r@.map_values(|s: String| s@) =~= self.topics());
        }
        r
    }
}

} // verus!
