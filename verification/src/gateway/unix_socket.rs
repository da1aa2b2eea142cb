//! The UNIX socket server for the command line and the HMI: its configuration, connections,
//! counters and the conversion of client commands into queue messages. Instants are
//! milliseconds since the Unix epoch.

use vstd::prelude::*;
use vstd::string::*;
use crate::common::error::EmbError;
use crate::common::json::{json_get_str, json_get, json_str_at, json_at, make_json_string_object, json_string_object, parse_json_bytes, json_parse};
use crate::common::str_map::str_eq;
use crate::common::text::append_str;
use crate::message_queue::types::{Message, MessageType, MessagePriority, MessageStatus};
use crate::message_queue::queue::{MessageQueue, with_default_timeout};
use crate::message_queue::types::priority_ordinal;

verus! {

/// Configuration of the UNIX socket server.
#[derive(Debug)]
pub struct UnixSocketConfig {
    pub socket_path: String,
    pub max_connections: usize,
    /// Read buffer size.
    pub buffer_size: usize,
    /// Shared memory fallback for the HMI.
    pub enable_hmi_mode: bool,
}

impl Clone for UnixSocketConfig {
    fn clone(&self) -> (r: Self)
        ensures
            r == *self,
    {
        UnixSocketConfig {
            socket_path: self.socket_path.clone(),
            max_connections: self.max_connections,
            buffer_size: self.buffer_size,
            enable_hmi_mode: self.enable_hmi_mode,
        }
    }
}

impl Default for UnixSocketConfig {
    fn default() -> (r: Self)
        ensures
            r.socket_path@ == "/tmp/flowpulse.sock"@,
            r.max_connections == 5,
            r.buffer_size == 4096,
            r.enable_hmi_mode == false,
    {
        UnixSocketConfig {
            socket_path: String::from_str("/tmp/flowpulse.sock"),
            max_connections: 5,
            buffer_size: 4096,
            enable_hmi_mode: false,
        }
    }
}

/// Kind of a UNIX socket client.
#[derive(Debug, Clone, Copy, PartialEq, Eq, Structural)]
pub enum UnixSocketClientType {
    CLI,
    HMI,
    Unknown,
}

/// A client connection.
#[derive(Debug, Clone, Copy, PartialEq, Eq, Structural)]
pub struct UnixSocketConnection {
    pub id: usize,
    pub client_type: UnixSocketClientType,
    /// Connection instant.
    pub connected_at_ms: i64,
    pub authenticated: bool,
}

/// Status of the UNIX socket server.
#[derive(Debug)]
pub struct UnixSocketStatus {
    pub running: bool,
    pub active_connections: usize,
    pub messages_sent: u64,
    pub messages_received: u64,
    pub socket_path: String,
}

impl Clone for UnixSocketStatus {
    fn clone(&self) -> (r: Self)
        ensures
            r == *self,
    {
        UnixSocketStatus {
            running: self.running,
            active_connections: self.active_connections,
            messages_sent: self.messages_sent,
            messages_received: self.messages_received,
            socket_path: self.socket_path.clone(),
        }
    }
}

impl Default for UnixSocketStatus {
    fn default() -> (r: Self)
        ensures
            r.running == false,
            r.active_connections == 0,
            r.messages_sent == 0,
            r.messages_received == 0,
            r.socket_path@ == "/tmp/flowpulse.sock"@,
    {
        UnixSocketStatus {
            running: false,
            active_connections: 0,
            messages_sent: 0,
            messages_received: 0,
            socket_path: String::from_str("/tmp/flowpulse.sock"),
        }
    }
}

/// The message type a client command stands for, when it is one of the known commands.
pub open spec fn unix_command_type(command: Seq<char>) -> Option<MessageType> {
    if command == "start"@ {
        Some(MessageType::PrintStart)
    } else if command == "pause"@ {
        Some(MessageType::PrintPause)
    } else if command == "resume"@ {
        Some(MessageType::PrintResume)
    } else if command == "stop"@ {
        Some(MessageType::PrintStop)
    } else if command == "home"@ {
        Some(MessageType::HomeCommand)
    } else if command == "move"@ {
        Some(MessageType::MoveCommand)
    } else if command == "temp"@ {
        Some(MessageType::TemperatureSet)
    } else if command == "status"@ {
        Some(MessageType::StateQuery)
    } else if command == "temp_get"@ {
        Some(MessageType::TemperatureGet)
    } else if command == "hw_status"@ {
        Some(MessageType::HardwareStatus)
    } else {
        None
    }
}

/// The source name recorded for a client type.
pub open spec fn unix_source_name(t: UnixSocketClientType) -> Seq<char> {
    match t {
        UnixSocketClientType::CLI => "unix_socket_cli"@,
        UnixSocketClientType::HMI => "unix_socket_hmi"@,
        UnixSocketClientType::Unknown => "unix_socket"@,
    }
}

/// Whether `t` is the message type of `command`: the known type, or a custom type named by
/// the command itself.
pub open spec fn is_unix_command_type(command: Seq<char>, t: MessageType) -> bool {
    match unix_command_type(command) {
        Some(k) => t == k,
        None => t matches MessageType::Custom(s) && s@ == command,
    }
}

/// The message type of a client command.
fn unix_message_type(command: &str) -> (r: MessageType)
    ensures
        is_unix_command_type(command@, r),
{
    if str_eq(command, "start") {
        MessageType::PrintStart
    } else if str_eq(command, "pause") {
        MessageType::PrintPause
    } else if str_eq(command, "resume") {
        MessageType::PrintResume
    } else if str_eq(command, "stop") {
        MessageType::PrintStop
    } else if str_eq(command, "home") {
        MessageType::HomeCommand
    } else if str_eq(command, "move") {
        MessageType::MoveCommand
    } else if str_eq(command, "temp") {
        MessageType::TemperatureSet
    } else if str_eq(command, "status") {
        MessageType::StateQuery
    } else if str_eq(command, "temp_get") {
        MessageType::TemperatureGet
    } else if str_eq(command, "hw_status") {
        MessageType::HardwareStatus
    } else {
        MessageType::Custom(String::from_str(command))
    }
}

/// The UNIX socket server's state: configuration, connections and counters.
#[derive(Debug)]
pub struct UnixSocketServer {
    config: UnixSocketConfig,
    connections: Vec<UnixSocketConnection>,
    status: UnixSocketStatus,
}

impl UnixSocketServer {
    pub closed spec fn cfg(&self) -> UnixSocketConfig {
        self.config
    }

    pub closed spec fn conns(&self) -> Seq<UnixSocketConnection> {
        self.connections@
    }

    pub closed spec fn stat(&self) -> UnixSocketStatus {
        self.status
    }

    /// A stopped server without connections, reporting the configured socket path.
    pub fn new(config: UnixSocketConfig) -> (r: Self)
        ensures
            r.cfg() == config,
            r.conns().len() == 0,
            r.stat().running == false,
            r.stat().active_connections == 0,
            r.stat().messages_sent == 0,
            r.stat().messages_received == 0,
            r.stat().socket_path == config.socket_path,
    {
        let socket_path = config.socket_path.clone();
        UnixSocketServer {
            config,
            connections: Vec::new(),
            status: UnixSocketStatus {
                running: false,
                active_connections: 0,
                messages_sent: 0,
                messages_received: 0,
                socket_path,
            },
        }
    }

    /// Marks the server running (the host removes a stale socket file first).
    pub fn start(&mut self)
        ensures
            final(self).stat() == (UnixSocketStatus { running: true, ..old(self).stat() }),
            final(self).conns() == old(self).conns(),
            final(self).cfg() == old(self).cfg(),
    {
        self.status.running = true;
    }

    /// Marks the server stopped and drops every connection (the host removes the socket
    /// file).
    pub fn stop(&mut self)
        ensures
            final(self).stat() == (UnixSocketStatus { running: false, ..old(self).stat() }),
            final(self).conns().len() == 0,
            final(self).cfg() == old(self).cfg(),
    {
        self.status.running = false;
        self.connections.clear();
    }

    /// Handles the raw bytes of a client message: parses them as JSON, turns them into a
    /// queue message, queues it and counts it. Unparsable bytes are refused with the parser's
    /// message.
    pub fn handle_message(&mut self, queue: &mut MessageQueue, raw_data: &[u8], client_type: UnixSocketClientType) -> (r: Result<(), EmbError>)
        requires
            old(queue).wf(),
            old(queue).has_key_room(),
            old(self).stat().messages_received < u64::MAX,
        ensures
            final(queue).wf(),
            final(self).cfg() == old(self).cfg(),
            final(self).conns() == old(self).conns(),
            json_parse(raw_data@) is Err ==> {
                &&& r matches Err(EmbError::Gateway(e))
                &&& e@ == "Failed to parse UnixSocket message: "@ + json_parse(raw_data@)->Err_0
                &&& *final(queue) == *old(queue)
                &&& final(self).stat() == old(self).stat()
            },
            json_parse(raw_data@) is Ok && old(queue).pending() >= old(queue).cfg().max_queue_size ==> {
                &&& r matches Err(EmbError::MessageQueue(_))
                &&& final(self).stat() == old(self).stat()
            },
            json_parse(raw_data@) is Ok && old(queue).pending() < old(queue).cfg().max_queue_size ==> {
                &&& r is Ok
                &&& final(queue).pending() == old(queue).pending() + 1
                &&& final(self).stat() == (UnixSocketStatus {
                    messages_received: (old(self).stat().messages_received + 1) as u64,
                    ..old(self).stat()
                })
            },
    {
        let msg_data = match parse_json_bytes(raw_data) {
            Ok(v) => v,
            Err(e) => {
                let mut text = String::from_str("Failed to parse UnixSocket message: ");
                append_str(&mut text, e.as_str());
                return Err(EmbError::Gateway(text));
            },
        };
        let queue_msg = self.convert_unixsocket_message(msg_data, client_type);
        let ghost q0 = *queue;
        match queue.enqueue(queue_msg) {
            Ok(()) => {},
            Err(e) => {
                return Err(e);
            },
        }
        proof {
            assert(queue.pending() == q0.pending() + 1) by {
                let p = priority_ordinal(MessagePriority::Normal) as int;
                assert(queue.level(p).len() == q0.level(p).len() + 1);
                assert(forall|q: int| q != p ==> #[trigger] queue.level(q) == q0.level(q));
                assert(queue.level(0) == q0.level(0));
                assert(queue.level(2) == q0.level(2));
                assert(queue.level(3) == q0.level(3));
            }
        }
        self.status.messages_received = self.status.messages_received + 1;
        Ok(())
    }

    /// Counts a message sent to a client.
    pub fn send_to_client(&mut self, _conn_id: usize)
        requires
            old(self).stat().messages_sent < u64::MAX,
        ensures
            final(self).stat() == (UnixSocketStatus {
                messages_sent: (old(self).stat().messages_sent + 1) as u64,
                ..old(self).stat()
            }),
            final(self).conns() == old(self).conns(),
            final(self).cfg() == old(self).cfg(),
    {
        self.status.messages_sent = self.status.messages_sent + 1;
    }

    /// Sends a message to every connected client.
    pub fn broadcast(&mut self)
        requires
            old(self).stat().messages_sent + old(self).conns().len() <= u64::MAX,
        ensures
            final(self).stat() == (UnixSocketStatus {
                messages_sent: (old(self).stat().messages_sent + old(self).conns().len()) as u64,
                ..old(self).stat()
            }),
            final(self).conns() == old(self).conns(),
            final(self).cfg() == old(self).cfg(),
    {
        let mut i: usize = 0;
        while i < self.connections.len()
            invariant
                i <= self.connections@.len(),
                self.connections@ == old(self).connections@,
                self.config == old(self).config,
                self.status == (UnixSocketStatus {
                    messages_sent: (old(self).status.messages_sent + i) as u64,
                    ..old(self).status
                }),
                old(self).status.messages_sent + old(self).connections@.len() <= u64::MAX,
            decreases self.connections@.len() - i,
        {
            let id = self.connections[i].id;
            self.send_to_client(id);
            i = i + 1;
        }
    }

    /// Turns a client message into a queue message: its `command` names the type (a custom
    /// type for an unknown or missing command, named by it or empty), its `params` become the
    /// payload (an empty object when missing), and the client type names the source.
    pub fn convert_unixsocket_message(&self, msg_data: serde_json::Value, client_type: UnixSocketClientType) -> (r: Message)
        ensures
            is_unix_command_type(
                match json_str_at(msg_data, "command"@) {
                    Some(c) => c,
                    None => Seq::empty(),
                },
                r.message_type,
            ),
            r.source@ == unix_source_name(client_type),
            r.payload == match json_at(msg_data, "params"@) {
                Some(p) => p,
                None => json_string_object(Seq::empty()),
            },
            r.priority == MessagePriority::Normal,
            r.status == MessageStatus::Pending,
            r.timeout_ms is None,
            r.destination is None,
    {
        let command = match json_get_str(&msg_data, "command") {
            Some(c) => c,
            None => String::new(),
        };
        let params = match json_get(&msg_data, "params") {
            Some(p) => p,
            None => {
                let empty: Vec<(String, String)> = Vec::new();
                proof {
                    assert(crate::common::json::pairs_view(empty@) =~= Seq::empty());
                }
                make_json_string_object(empty)
            },
        };
        let source = match client_type {
            UnixSocketClientType::CLI => "unix_socket_cli",
            UnixSocketClientType::HMI => "unix_socket_hmi",
            UnixSocketClientType::Unknown => "unix_socket",
        };
        let msg_type = unix_message_type(command.as_str());
        Message::new(msg_type, String::from_str(source), params)
    }

    /// The server's status.
    pub fn get_status(&self) -> (r: UnixSocketStatus)
        ensures
            r == self.stat(),
    {
        self.status.clone()
    }

    /// The active connections, oldest first.
    pub fn get_connections(&self) -> (r: Vec<UnixSocketConnection>)
        ensures
            r@ == self.conns(),
    {
        self.connections.clone()
    }

    /// Accepts a connection unless the server already holds its maximum.
    pub fn add_connection(&mut self, conn: UnixSocketConnection) -> (r: Result<(), EmbError>)
        ensures
            final(self).cfg() == old(self).cfg(),
            old(self).conns().len() >= old(self).cfg().max_connections ==> {
                &&& r matches Err(EmbError::Gateway(e)) && e@ == "Maximum connections reached"@
                &&& final(self).conns() == old(self).conns()
                &&& final(self).stat() == old(self).stat()
            },
            old(self).conns().len() < old(self).cfg().max_connections ==> {
                &&& r is Ok
                &&& final(self).conns() == old(self).conns().push(conn)
                &&& final(self).stat() == (UnixSocketStatus {
                    active_connections: final(self).conns().len() as usize,
                    ..old(self).stat()
                })
            },
    {
        if self.connections.len() >= self.config.max_connections {
            return Err(EmbError::Gateway(String::from_str("Maximum connections reached")));
        }
        self.connections.push(conn);
        self.status.active_connections = self.connections.len();
        Ok(())
    }

    /// Drops every connection with the given identifier.
    pub fn remove_connection(&mut self, conn_id: usize) -> (r: Result<(), EmbError>)
        ensures
            r is Ok,
            final(self).cfg() == old(self).cfg(),
            final(self).conns() == old(self).conns().filter(|c: UnixSocketConnection| c.id != conn_id),
            final(self).stat() == (UnixSocketStatus {
                active_connections: final(self).conns().len() as usize,
                ..old(self).stat()
            }),
    {
        let kept = retain_other_ids(&self.connections, conn_id);
        self.connections = kept;
        self.status.active_connections = self.connections.len();
        Ok(())
    }
}

/// The connections whose identifier differs from `conn_id`, in order.
fn retain_other_ids(v: &Vec<UnixSocketConnection>, conn_id: usize) -> (r: Vec<UnixSocketConnection>)
    ensures
        r@ == v@.filter(|c: UnixSocketConnection| c.id != conn_id),
{
    let mut out: Vec<UnixSocketConnection> = Vec::new();
    let mut i: usize = 0;
    while i < v.len()
        invariant
            i <= v@.len(),
            out@ == v@.subrange(0, i as int).filter(|c: UnixSocketConnection| c.id != conn_id),
        decreases v@.len() - i,
    {
        let c = v[i];
        proof {
            let f = |c: UnixSocketConnection| c.id != conn_id;
            assert(v@.subrange(0, i + 1).drop_last() =~= v@.subrange(0, i as int));
            reveal(Seq::filter);
            assert(v@.subrange(0, i + 1).filter(f) == if f(v@[i as int]) {
                v@.subrange(0, i as int).filter(f).push(v@[i as int])
            } else {
                v@.subrange(0, i as int).filter(f)
            });
        }
        if c.id != conn_id {
            out.push(c);
        }
        i = i + 1;
    }
    proof {
        assert(v@.subrange(0, v@.len() as int) =~= v@);
    }
    out
}

} // verus!
