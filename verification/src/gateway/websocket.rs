//! The WebSocket server for the web interface: its configuration, connections, counters and
//! the conversion of client messages into queue messages. Instants are milliseconds since
//! the Unix epoch.

use vstd::prelude::*;
use vstd::string::*;
use crate::common::error::EmbError;
use crate::common::json::{make_json_string_object, json_string_object, pairs_view};
use crate::common::messages::WebSocketMessage;
use crate::common::str_map::str_eq;
use crate::message_queue::types::{Message, MessageType, MessagePriority, MessageStatus, priority_ordinal};
use crate::message_queue::queue::MessageQueue;

verus! {

/// Configuration of the WebSocket server.
#[derive(Debug)]
pub struct WebSocketConfig {
    pub bind_address: String,
    pub port: u16,
    pub max_connections: usize,
    pub enable_auth: bool,
    pub auth_token: Option<String>,
}

impl Clone for WebSocketConfig {
    fn clone(&self) -> (r: Self)
        ensures
            r == *self,
    {
        WebSocketConfig {
            bind_address: self.bind_address.clone(),
            port: self.port,
            max_connections: self.max_connections,
            enable_auth: self.enable_auth,
            auth_token: match &self.auth_token {
                Some(t) => Some(t.clone()),
                None => None,
            },
        }
    }
}

impl Default for WebSocketConfig {
    fn default() -> (r: Self)
        ensures
            r.bind_address@ == "127.0.0.1"@,
            r.port == 8080,
            r.max_connections == 10,
            r.enable_auth == false,
            r.auth_token is None,
    {
        WebSocketConfig {
            bind_address: String::from_str("127.0.0.1"),
            port: 8080,
            max_connections: 10,
            enable_auth: false,
            auth_token: None,
        }
    }
}

/// A client connection.
#[derive(Debug)]
pub struct WebSocketConnection {
    pub id: usize,
    pub client_addr: String,
    /// Connection instant.
    pub connected_at_ms: i64,
    pub authenticated: bool,
}

impl Clone for WebSocketConnection {
    fn clone(&self) -> (r: Self)
        ensures
            r == *self,
    {
        WebSocketConnection {
            id: self.id,
            client_addr: self.client_addr.clone(),
            connected_at_ms: self.connected_at_ms,
            authenticated: self.authenticated,
        }
    }
}

/// Status of the WebSocket server.
#[derive(Debug, Clone, Copy, PartialEq, Eq, Structural)]
pub struct WebSocketStatus {
    pub running: bool,
    pub active_connections: usize,
    pub messages_sent: u64,
    pub messages_received: u64,
}

impl Default for WebSocketStatus {
    fn default() -> (r: Self)
        ensures
            r == (WebSocketStatus {
                running: false,
                active_connections: 0,
                messages_sent: 0,
                messages_received: 0,
            }),
    {
        WebSocketStatus { running: false, active_connections: 0, messages_sent: 0, messages_received: 0 }
    }
}

/// The message type of a print event named by a client, when it is a known one.
pub open spec fn web_event_type(event: Seq<char>) -> Option<MessageType> {
    if event == "start"@ {
        Some(MessageType::PrintStart)
    } else if event == "pause"@ {
        Some(MessageType::PrintPause)
    } else if event == "resume"@ {
        Some(MessageType::PrintResume)
    } else if event == "stop"@ {
        Some(MessageType::PrintStop)
    } else {
        None
    }
}

/// What a client message becomes in the queue: its type and its payload's string pairs.
pub open spec fn web_conversion(msg: WebSocketMessage, t: MessageType, payload: Seq<(Seq<char>, Seq<char>)>) -> bool {
    match msg {
        WebSocketMessage::PrintEvent { event, message } => {
            &&& match web_event_type(event@) {
                Some(k) => t == k,
                None => t matches MessageType::Custom(s) && s@ == event@,
            }
            &&& payload == seq![("message"@, message@)]
        },
        WebSocketMessage::State { from, to } => {
            &&& t == MessageType::StateQuery
            &&& payload == seq![("from"@, from@), ("to"@, to@)]
        },
        WebSocketMessage::Alert { severity, message } => {
            &&& t == MessageType::PrintError
            &&& payload == seq![("severity"@, severity@), ("message"@, message@)]
        },
        _ => {
            &&& t matches MessageType::Custom(s) && s@ == "unknown"@
            &&& payload == Seq::<(Seq<char>, Seq<char>)>::empty()
        },
    }
}

/// The WebSocket server's state: configuration, connections and counters.
#[derive(Debug)]
pub struct WebSocketServer {
    config: WebSocketConfig,
    connections: Vec<WebSocketConnection>,
    status: WebSocketStatus,
}

impl WebSocketServer {
    pub closed spec fn cfg(&self) -> WebSocketConfig {
        self.config
    }

    pub closed spec fn conns(&self) -> Seq<WebSocketConnection> {
        self.connections@
    }

    pub closed spec fn stat(&self) -> WebSocketStatus {
        self.status
    }

    /// A stopped server without connections or traffic.
    pub fn new(config: WebSocketConfig) -> (r: Self)
        ensures
            r.cfg() == config,
            r.conns().len() == 0,
            r.stat() == (WebSocketStatus {
                running: false,
                active_connections: 0,
                messages_sent: 0,
                messages_received: 0,
            }),
    {
        WebSocketServer { config, connections: Vec::new(), status: WebSocketStatus::default() }
    }

    /// Marks the server running.
    pub fn start(&mut self)
        ensures
            final(self).stat() == (WebSocketStatus { running: true, ..old(self).stat() }),
            final(self).conns() == old(self).conns(),
            final(self).cfg() == old(self).cfg(),
    {
        self.status.running = true;
    }

    /// Marks the server stopped and drops every connection.
    pub fn stop(&mut self)
        ensures
            final(self).stat() == (WebSocketStatus { running: false, ..old(self).stat() }),
            final(self).conns().len() == 0,
            final(self).cfg() == old(self).cfg(),
    {
        self.status.running = false;
        self.connections.clear();
    }

    /// Turns a client message into a queue message from the source `websocket`.
    pub fn convert_websocket_message(&self, msg: WebSocketMessage) -> (r: Message)
        ensures
            exists|pairs: Seq<(Seq<char>, Seq<char>)>|
                web_conversion(msg, r.message_type, pairs) && r.payload == json_string_object(pairs),
            r.source@ == "websocket"@,
            r.priority == MessagePriority::Normal,
            r.status == MessageStatus::Pending,
            r.timeout_ms is None,
    {
        let ghost m = msg;
        let mut pairs: Vec<(String, String)> = Vec::new();
        let msg_type = match msg {
            WebSocketMessage::PrintEvent { event, message } => {
                let t = if str_eq(event.as_str(), "start") {
                    MessageType::PrintStart
                } else if str_eq(event.as_str(), "pause") {
                    MessageType::PrintPause
                } else if str_eq(event.as_str(), "resume") {
                    MessageType::PrintResume
                } else if str_eq(event.as_str(), "stop") {
                    MessageType::PrintStop
                } else {
                    MessageType::Custom(event.clone())
                };
                pairs.push((String::from_str("message"), message));
                t
            },
            WebSocketMessage::State { from, to } => {
                pairs.push((String::from_str("from"), from));
                pairs.push((String::from_str("to"), to));
                MessageType::StateQuery
            },
            WebSocketMessage::Alert { severity, message } => {
                pairs.push((String::from_str("severity"), severity));
                pairs.push((String::from_str("message"), message));
                MessageType::PrintError
            },
            _ => MessageType::Custom(String::from_str("unknown")),
        };
        let ghost pv = pairs_view(pairs@);
        proof {
            assert(web_conversion(m, msg_type, pv)) by {
                match m {
                    WebSocketMessage::PrintEvent { event, message } => {
                        assert(pv =~= seq![("message"@, message@)]);
                    },
                    WebSocketMessage::State { from, to } => {
                        assert(pv =~= seq![("from"@, from@), ("to"@, to@)]);
                    },
                    WebSocketMessage::Alert { severity, message } => {
                        assert(pv =~= seq![("severity"@, severity@), ("message"@, message@)]);
                    },
                    _ => {
                        assert(pv =~= Seq::<(Seq<char>, Seq<char>)>::empty());
                    },
                }
            }
        }
        let payload = make_json_string_object(pairs);
        Message::new(msg_type, String::from_str("websocket"), payload)
    }

    /// Handles a client message: turns it into a queue message, queues it and counts it.
    pub fn handle_message(&mut self, queue: &mut MessageQueue, msg: WebSocketMessage) -> (r: Result<(), EmbError>)
        requires
            old(queue).wf(),
            old(queue).has_key_room(),
            old(self).stat().messages_received < u64::MAX,
        ensures
            final(queue).wf(),
            final(self).cfg() == old(self).cfg(),
            final(self).conns() == old(self).conns(),
            old(queue).pending() >= old(queue).cfg().max_queue_size ==> {
                &&& r matches Err(EmbError::MessageQueue(_))
                &&& final(self).stat() == old(self).stat()
            },
            old(queue).pending() < old(queue).cfg().max_queue_size ==> {
                &&& r is Ok
                &&& final(queue).pending() == old(queue).pending() + 1
                &&& final(self).stat() == (WebSocketStatus {
                    messages_received: (old(self).stat().messages_received + 1) as u64,
                    ..old(self).stat()
                })
            },
    {
        let queue_msg = self.convert_websocket_message(msg);
        let ghost q0 = *queue;
        match queue.enqueue(queue_msg) {
            Ok(()) => {},
            Err(e) => {
                return Err(e);
            },
        }
        proof {
            let p = priority_ordinal(MessagePriority::Normal) as int;
            assert(queue.level(0) == q0.level(0));
            assert(queue.level(2) == q0.level(2));
            assert(queue.level(3) == q0.level(3));
            assert(queue.level(p).len() == q0.level(p).len() + 1);
        }
        self.status.messages_received = self.status.messages_received + 1;
        Ok(())
    }

    /// Counts a message sent to the clients.
    pub fn send_to_clients(&mut self)
        requires
            old(self).stat().messages_sent < u64::MAX,
        ensures
            final(self).stat() == (WebSocketStatus {
                messages_sent: (old(self).stat().messages_sent + 1) as u64,
                ..old(self).stat()
            }),
            final(self).conns() == old(self).conns(),
            final(self).cfg() == old(self).cfg(),
    {
        self.status.messages_sent = self.status.messages_sent + 1;
    }

    /// The server's status.
    pub fn get_status(&self) -> (r: WebSocketStatus)
        ensures
            r == self.stat(),
    {
        self.status
    }

    /// The active connections, oldest first.
    pub fn get_connections(&self) -> (r: Vec<WebSocketConnection>)
        ensures
            r@ == self.conns(),
    {
        let mut out: Vec<WebSocketConnection> = Vec::new();
        let mut i: usize = 0;
        while i < self.connections.len()
            invariant
                i <= self.connections@.len(),
                out@ == self.connections@.subrange(0, i as int),
            decreases self.connections@.len() - i,
        {
            out.push(self.connections[i].clone());
            i = i + 1;
            proof {
                assert(out@ =~= self.connections@.subrange(0, i as int));
            }
        }
        proof {
            assert(out@ =~= self.connections@);
        }
        out
    }

    /// Accepts a connection unless the server already holds its maximum.
    pub fn add_connection(&mut self, conn: WebSocketConnection) -> (r: Result<(), EmbError>)
        ensures
            final(self).cfg() == old(self).cfg(),
            old(self).conns().len() >= old(self).cfg().max_connections ==> {
                &&& r matches Err(EmbError::Gateway(e)) && e@ == "Maximum connections reached"@
                &&& final(self).conns() == old(self).conns()
                &&& final(self).stat() == old(self).stat()
            },
            old(self).conns().len() < old(self).cfg().max_connections ==> {
                &&& r is Ok
                &&& final(self).conns() == old(self).conns().push(conn)
                &&& final(self).stat() == (WebSocketStatus {
                    active_connections: final(self).conns().len() as usize,
                    ..old(self).stat()
                })
            },
    {
        if self.connections.len() >= self.config.max_connections {
            return Err(EmbError::Gateway(String::from_str("Maximum connections reached")));
        }
        self.connections.push(conn);
        self.status.active_connections = self.connections.len();
        Ok(())
    }

    /// Drops every connection with the given identifier.
    pub fn remove_connection(&mut self, conn_id: usize) -> (r: Result<(), EmbError>)
        ensures
            r is Ok,
            final(self).cfg() == old(self).cfg(),
            final(self).conns() == old(self).conns().filter(|c: WebSocketConnection| c.id != conn_id),
            final(self).stat() == (WebSocketStatus {
                active_connections: final(self).conns().len() as usize,
                ..old(self).stat()
            }),
    {
        let mut out: Vec<WebSocketConnection> = Vec::new();
        let mut i: usize = 0;
        while i < self.connections.len()
            invariant
                i <= self.connections@.len(),
                self.connections@ == old(self).connections@,
                self.status == old(self).status,
                self.config == old(self).config,
                out@ == self.connections@.subrange(0, i as int).filter(
                    |c: WebSocketConnection| c.id != conn_id,
                ),
            decreases self.connections@.len() - i,
        {
            proof {
                let f = |c: WebSocketConnection| c.id != conn_id;
                assert(self.connections@.subrange(0, i + 1).drop_last() =~= self.connections@.subrange(0, i as int));
                reveal(Seq::filter);
                assert(self.connections@.subrange(0, i + 1).filter(f) == if f(self.connections@[i as int]) {
                    self.connections@.subrange(0, i as int).filter(f).push(self.connections@[i as int])
                } else {
                    self.connections@.subrange(0, i as int).filter(f)
                });
            }
            if self.connections[i].id != conn_id {
                out.push(self.connections[i].clone());
            }
            i = i + 1;
        }
        proof {
            assert(self.connections@.subrange(0, self.connections@.len() as int) =~= self.connections@);
        }
        self.connections = out;
        self.status.active_connections = self.connections.len();
        Ok(())
    }
}

} // verus!
