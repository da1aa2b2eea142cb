//! Communication channels and the gateway that keeps them by name.

use vstd::prelude::*;
use vstd::string::*;
use crate::common::str_map::str_eq;

verus! {

/// Kind of a communication channel.
#[derive(Debug, PartialEq, Eq, Hash)]
pub enum ChannelType {
    UnixSocket,
    Serial,
    DDS,
    MQTT,
    Custom(String),
}

impl Clone for ChannelType {
    fn clone(&self) -> (r: Self)
        ensures
            r == *self,
    {
        match self {
            ChannelType::UnixSocket => ChannelType::UnixSocket,
            ChannelType::Serial => ChannelType::Serial,
            ChannelType::DDS => ChannelType::DDS,
            ChannelType::MQTT => ChannelType::MQTT,
            ChannelType::Custom(s) => ChannelType::Custom(s.clone()),
        }
    }
}

/// Connection status of a channel.
#[derive(Debug, PartialEq)]
pub enum ChannelStatus {
    Disconnected,
    Connecting,
    Connected,
    Error(String),
    Reconnecting,
}

impl Clone for ChannelStatus {
    fn clone(&self) -> (r: Self)
        ensures
            r == *self,
    {
        match self {
            ChannelStatus::Disconnected => ChannelStatus::Disconnected,
            ChannelStatus::Connecting => ChannelStatus::Connecting,
            ChannelStatus::Connected => ChannelStatus::Connected,
            ChannelStatus::Error(s) => ChannelStatus::Error(s.clone()),
            ChannelStatus::Reconnecting => ChannelStatus::Reconnecting,
        }
    }
}

/// Direction of the data on a channel.
#[derive(Debug, Clone, Copy, PartialEq, Eq, Structural)]
pub enum Direction {
    Upstream,
    Downstream,
    Bidirectional,
}

/// Configuration of a channel.
#[derive(Debug)]
pub struct ChannelConfig {
    pub channel_type: ChannelType,
    pub address: String,
    pub direction: Direction,
    pub timeout_ms: u64,
}

impl Clone for ChannelConfig {
    fn clone(&self) -> (r: Self)
        ensures
            r == *self,
    {
        ChannelConfig {
            channel_type: self.channel_type.clone(),
            address: self.address.clone(),
            direction: self.direction,
            timeout_ms: self.timeout_ms,
        }
    }
}

impl Default for ChannelConfig {
    /// A bidirectional serial channel on `/dev/ttyUSB0` with a five second timeout.
    fn default() -> (r: Self)
        ensures
            r.channel_type == ChannelType::Serial,
            r.address@ == "/dev/ttyUSB0"@,
            r.direction == Direction::Bidirectional,
            r.timeout_ms == 5000,
    {
        ChannelConfig {
            channel_type: ChannelType::Serial,
            address: String::from_str("/dev/ttyUSB0"),
            direction: Direction::Bidirectional,
            timeout_ms: 5000,
        }
    }
}

/// Traffic counters of a channel.
#[derive(Debug)]
pub struct ChannelStats {
    pub bytes_sent: u64,
    pub bytes_received: u64,
    pub frames_sent: u64,
    pub frames_received: u64,
    pub errors: u64,
    pub last_error: Option<String>,
}

impl Clone for ChannelStats {
    fn clone(&self) -> (r: Self)
        ensures
            r == *self,
    {
        ChannelStats {
            bytes_sent: self.bytes_sent,
            bytes_received: self.bytes_received,
            frames_sent: self.frames_sent,
            frames_received: self.frames_received,
            errors: self.errors,
            last_error: match &self.last_error {
                Some(e) => Some(e.clone()),
                None => None,
            },
        }
    }
}

impl Default for ChannelStats {
    /// All counters zero, no error.
    fn default() -> (r: Self)
        ensures
            r.bytes_sent == 0,
            r.bytes_received == 0,
            r.frames_sent == 0,
            r.frames_received == 0,
            r.errors == 0,
            r.last_error is None,
    {
        ChannelStats {
            bytes_sent: 0,
            bytes_received: 0,
            frames_sent: 0,
            frames_received: 0,
            errors: 0,
            last_error: None,
        }
    }
}

/// A channel: its configuration, status and counters.
#[derive(Debug)]
pub struct CommunicationChannel {
    pub config: ChannelConfig,
    pub status: ChannelStatus,
    pub stats: ChannelStats,
}

impl Clone for CommunicationChannel {
    fn clone(&self) -> (r: Self)
        ensures
            r == *self,
    {
        CommunicationChannel {
            config: self.config.clone(),
            status: self.status.clone(),
            stats: self.stats.clone(),
        }
    }
}

/// A fresh channel: disconnected, with zeroed counters.
pub open spec fn fresh_channel(config: ChannelConfig) -> CommunicationChannel {
    CommunicationChannel {
        config,
        status: ChannelStatus::Disconnected,
        stats: ChannelStats {
            bytes_sent: 0,
            bytes_received: 0,
            frames_sent: 0,
            frames_received: 0,
            errors: 0,
            last_error: None,
        },
    }
}

impl CommunicationChannel {
    /// A disconnected channel with zeroed counters.
    pub fn new(config: ChannelConfig) -> (r: Self)
        ensures
            r == fresh_channel(config),
    {
        CommunicationChannel {
            config,
            status: ChannelStatus::Disconnected,
            stats: ChannelStats::default(),
        }
    }
}

/// Serial channel counters; the throughput is held as the bits of an `f64`.
#[derive(Debug)]
pub struct SerialChannelStats {
    pub base: ChannelStats,
    pub frames_sent: u64,
    pub frames_received: u64,
    pub frames_valid: u64,
    pub frames_invalid: u64,
    pub crc_errors: u64,
    pub bytes_per_second_bits: u64,
    pub connected_since: Option<u64>,
}

impl Default for SerialChannelStats {
    /// All counters zero, a throughput of zero, never connected.
    fn default() -> (r: Self)
        ensures
            r.base.bytes_sent == 0 && r.base.bytes_received == 0 && r.base.frames_sent == 0
                && r.base.frames_received == 0 && r.base.errors == 0 && r.base.last_error is None,
            r.frames_sent == 0,
            r.frames_received == 0,
            r.frames_valid == 0,
            r.frames_invalid == 0,
            r.crc_errors == 0,
            r.bytes_per_second_bits == 0,
            r.connected_since is None,
    {
        SerialChannelStats {
            base: ChannelStats::default(),
            frames_sent: 0,
            frames_received: 0,
            frames_valid: 0,
            frames_invalid: 0,
            crc_errors: 0,
            bytes_per_second_bits: 0,
            connected_since: None,
        }
    }
}

/// The names of an association list of channels, in order.
pub open spec fn channel_names(s: Seq<(String, CommunicationChannel)>) -> Seq<Seq<char>> {
    s.map_values(|e: (String, CommunicationChannel)| e.0@)
}

/// The channel registered under `name`, if any.
pub open spec fn channel_lookup(s: Seq<(String, CommunicationChannel)>, name: Seq<char>) -> Option<
    CommunicationChannel,
> {
    if exists|i: int| 0 <= i < s.len() && #[trigger] s[i].0@ == name {
        Some(s[choose|i: int| 0 <= i < s.len() && #[trigger] s[i].0@ == name].1)
    } else {
        None
    }
}

/// The names other than `x`, in order.
pub open spec fn names_without(s: Seq<Seq<char>>, x: Seq<char>) -> Seq<Seq<char>> {
    s.filter(|n: Seq<char>| n != x)
}

/// A gateway keeping communication channels by name.
#[derive(Debug)]
pub struct CommunicationGateway {
    channels: Vec<(String, CommunicationChannel)>,
}

impl CommunicationGateway {
    /// The registered channels with their names, in registration order.
    pub closed spec fn entries(&self) -> Seq<(String, CommunicationChannel)> {
        self.channels@
    }

    /// The channel registered under `name`, if any.
    pub open spec fn lookup(&self, name: Seq<char>) -> Option<CommunicationChannel> {
        channel_lookup(self.entries(), name)
    }

    /// No name is registered twice.
    pub open spec fn wf(&self) -> bool {
        channel_names(self.entries()).no_duplicates()
    }

    /// A gateway without channels.
    pub fn new() -> (r: Self)
        ensures
            r.wf(),
            r.entries().len() == 0,
    {
        CommunicationGateway { channels: Vec::new() }
    }

    /// The position of the channel named `name`, if registered.
    fn position(&self, name: &str) -> (r: Option<usize>)
        requires
            self.wf(),
        ensures
            match r {
                Some(i) => i < self.entries().len() && self.entries()[i as int].0@ == name@
                    && self.lookup(name@) == Some(self.entries()[i as int].1),
                None => self.lookup(name@) is None && !channel_names(self.entries()).contains(name@),
            },
    {
        let mut i: usize = 0;
        while i < self.channels.len()
            invariant
                i <= self.channels@.len(),
                self.wf(),
                forall|j: int| 0 <= j < i ==> #[trigger] self.channels@[j].0@ != name@,
            decreases self.channels@.len() - i,
        {
            if str_eq(self.channels[i].0.as_str(), name) {
                proof {
                    let s = self.channels@;
                    assert(s[i as int].0@ == name@);
                    let c = choose|j: int| 0 <= j < s.len() && #[trigger] s[j].0@ == name@;
                    assert(s[c].0@ == name@);
                    if c != i as int {
                        assert(channel_names(s)[c] == s[c].0@);
                        assert(channel_names(s)[i as int] == s[i as int].0@);
                    }
                }
                return Some(i);
            }
            i = i + 1;
        }
        proof {
            if channel_names(self.entries()).contains(name@) {
                let k = choose|j: int| 0 <= j < channel_names(self.entries()).len() && channel_names(self.entries())[j] == name@;
                assert(self.channels@[k].0@ == name@);
            }
        }
        None
    }

    /// Registers a fresh channel under `name`, replacing any channel of that name in place.
    pub fn add_channel(&mut self, name: String, config: ChannelConfig)
        requires
            old(self).wf(),
        ensures
            final(self).wf(),
            final(self).lookup(name@) == Some(fresh_channel(config)),
            forall|n: Seq<char>| n != name@ ==> #[trigger] final(self).lookup(n) == old(self).lookup(n),
            channel_names(old(self).entries()).contains(name@) ==> channel_names(final(self).entries())
                == channel_names(old(self).entries()),
            !channel_names(old(self).entries()).contains(name@) ==> channel_names(final(self).entries())
                == channel_names(old(self).entries()).push(name@),
    {
        let channel = CommunicationChannel::new(config);
        let ghost old_s = self.channels@;
        match self.position(name.as_str()) {
            Some(i) => {
                self.channels.set(i, (name, channel));
                proof {
                    let s = self.channels@;
                    assert(channel_names(s) =~= channel_names(old_s));
                    assert(s[i as int].0@ == name@);
                    let c = choose|j: int| 0 <= j < s.len() && #[trigger] s[j].0@ == name@;
                    if c != i as int {
                        assert(channel_names(s)[c] == channel_names(s)[i as int]);
                    }
                    assert forall|n: Seq<char>| n != name@ implies #[trigger] channel_lookup(s, n)
                        == channel_lookup(old_s, n) by {
                        assert forall|j: int| 0 <= j < s.len() && s[j].0@ == n implies old_s[j] == s[j] by {}
                        if exists|j: int| 0 <= j < s.len() && #[trigger] s[j].0@ == n {
                            let a = choose|j: int| 0 <= j < s.len() && #[trigger] s[j].0@ == n;
                            assert(old_s[a].0@ == n);
                            let b = choose|j: int| 0 <= j < old_s.len() && #[trigger] old_s[j].0@ == n;
                            if a != b {
                                assert(channel_names(old_s)[a] == channel_names(old_s)[b]);
                            }
                        } else {
                            if exists|j: int| 0 <= j < old_s.len() && #[trigger] old_s[j].0@ == n {
                                let b = choose|j: int| 0 <= j < old_s.len() && #[trigger] old_s[j].0@ == n;
                                assert(s[b].0@ == n);
                            }
                        }
                    }
                }
            },
            None => {
                self.channels.push((name, channel));
                proof {
                    let s = self.channels@;
                    assert(channel_names(s) =~= channel_names(old_s).push(name@));
                    let last = old_s.len() as int;
                    assert(s[last].0@ == name@);
                    let c = choose|j: int| 0 <= j < s.len() && #[trigger] s[j].0@ == name@;
                    if c != last {
                        assert(channel_names(old_s)[c] == name@);
                    }
                    assert forall|n: Seq<char>| n != name@ implies #[trigger] channel_lookup(s, n)
                        == channel_lookup(old_s, n) by {
                        if exists|j: int| 0 <= j < s.len() && #[trigger] s[j].0@ == n {
                            let a = choose|j: int| 0 <= j < s.len() && #[trigger] s[j].0@ == n;
                            assert(a != last);
                            assert(old_s[a].0@ == n);
                            let b = choose|j: int| 0 <= j < old_s.len() && #[trigger] old_s[j].0@ == n;
                            assert(s[b] == old_s[b]);
                            if a != b {
                                assert(channel_names(old_s)[a] == channel_names(old_s)[b]);
                            }
                        } else {
                            if exists|j: int| 0 <= j < old_s.len() && #[trigger] old_s[j].0@ == n {
                                let b = choose|j: int| 0 <= j < old_s.len() && #[trigger] old_s[j].0@ == n;
                                assert(s[b] == old_s[b]);
                            }
                        }
                    }
                }
            },
        }
    }

    /// A copy of the channel registered under `name`.
    pub fn get_channel(&self, name: &str) -> (r: Option<CommunicationChannel>)
        requires
            self.wf(),
        ensures
            r == self.lookup(name@),
    {
        match self.position(name) {
            Some(i) => Some(self.channels[i].1.clone()),
            None => None,
        }
    }

    /// The names of the registered channels, in registration order.
    pub fn list_channels(&self) -> (r: Vec<String>)
        ensures
            r@.map_values(|s: String| s@) == channel_names(self.entries()),
    {
        let mut out: Vec<String> = Vec::new();
        let mut i: usize = 0;
        while i < self.channels.len()
            invariant
                i <= self.channels@.len(),
                out@.len() == i,
                forall|j: int| 0 <= j < i ==> #[trigger] out@[j]@ == self.channels@[j].0@,
            decreases self.channels@.len() - i,
        {
            out.push(self.channels[i].0.clone());
            i = i + 1;
        }
        proof {
            assert(out@.map_values(|s: String| s@) =~= channel_names(self.entries()));
        }
        out
    }

    /// Removes the channel registered under `name`, if any.
    pub fn remove_channel(&mut self, name: &str)
        requires
            old(self).wf(),
        ensures
            final(self).wf(),
            final(self).lookup(name@) is None,
            forall|n: Seq<char>| n != name@ ==> #[trigger] final(self).lookup(n) == old(self).lookup(n),
            channel_names(final(self).entries()) == names_without(
                channel_names(old(self).entries()),
                name@,
            ),
    {
        let ghost old_s = self.channels@;
        match self.position(name) {
            Some(i) => {
                self.channels.remove(i);
                proof {
                    let s = self.channels@;
                    let names = channel_names(old_s);
                    assert(channel_names(s) =~= names.remove(i as int));
                    assert forall|a: int, b: int| 0 <= a < b < channel_names(s).len() implies channel_names(s)[a] != channel_names(s)[b] by {
                        let a2 = if a < i { a } else { a + 1 };
                        let b2 = if b < i { b } else { b + 1 };
                        assert(channel_names(s)[a] == names[a2]);
                        assert(channel_names(s)[b] == names[b2]);
                    }
                    assert(names_without(names, name@) =~= names.remove(i as int)) by {
                        lemma_filter_remove_unique(names, i as int, name@);
                    }
                    assert(!(exists|j: int| 0 <= j < s.len() && #[trigger] s[j].0@ == name@)) by {
                        if exists|j: int| 0 <= j < s.len() && #[trigger] s[j].0@ == name@ {
                            let j = choose|j: int| 0 <= j < s.len() && #[trigger] s[j].0@ == name@;
                            let j2 = if j < i { j } else { j + 1 };
                            assert(channel_names(s)[j] == names[j2]);
                            assert(names[j2] == names[i as int]);
                        }
                    }
                    assert forall|n: Seq<char>| n != name@ implies #[trigger] channel_lookup(s, n)
                        == channel_lookup(old_s, n) by {
                        if exists|j: int| 0 <= j < s.len() && #[trigger] s[j].0@ == n {
                            let a = choose|j: int| 0 <= j < s.len() && #[trigger] s[j].0@ == n;
                            let a2 = if a < i { a } else { a + 1 };
                            assert(s[a] == old_s[a2]);
                            let b = choose|j: int| 0 <= j < old_s.len() && #[trigger] old_s[j].0@ == n;
                            if a2 != b {
                                assert(names[a2] == names[b]);
                            }
                        } else {
                            if exists|j: int| 0 <= j < old_s.len() && #[trigger] old_s[j].0@ == n {
                                let b = choose|j: int| 0 <= j < old_s.len() && #[trigger] old_s[j].0@ == n;
                                assert(b != i);
                                let b2 = if b < i { b } else { b - 1 };
                                assert(s[b2] == old_s[b]);
                            }
                        }
                    }
                }
            },
            None => {
                proof {
                    let names = channel_names(old_s);
                    assert(names_without(names, name@) =~= names) by {
                        lemma_filter_keeps_all(names, name@);
                    }
                }
            },
        }
    }
}

impl Default for CommunicationGateway {
    fn default() -> (r: Self)
        ensures
            r.wf(),
            r.entries().len() == 0,
    {
        CommunicationGateway::new()
    }
}

/// Filtering out a value that occurs once, at `i`, removes position `i`.
proof fn lemma_filter_remove_unique(s: Seq<Seq<char>>, i: int, x: Seq<char>)
    requires
        s.no_duplicates(),
        0 <= i < s.len(),
        s[i] == x,
    ensures
        names_without(s, x) == s.remove(i),
    decreases s.len(),
{
    if i == s.len() - 1 {
        assert(s.drop_last() =~= s.remove(i));
        assert(!s.drop_last().contains(x)) by {
            if s.drop_last().contains(x) {
                let k = choose|k: int| 0 <= k < s.drop_last().len() && s.drop_last()[k] == x;
                assert(s[k] == s[i]);
            }
        }
        lemma_filter_keeps_all(s.drop_last(), x);
        reveal(Seq::filter);
        assert(names_without(s, x) == names_without(s.drop_last(), x));
    } else {
        let t = s.drop_last();
        assert forall|a: int, b: int| 0 <= a < b < t.len() implies t[a] != t[b] by {
            assert(s[a] != s[b]);
        }
        lemma_filter_remove_unique(t, i, x);
        reveal(Seq::filter);
        assert(s.last() != x) by {
            assert(s[s.len() - 1] != s[i]);
        }
        assert(names_without(s, x) =~= names_without(t, x).push(s.last()));
        assert(s.remove(i) =~= t.remove(i).push(s.last()));
    }
}

/// Filtering out a value that does not occur changes nothing.
proof fn lemma_filter_keeps_all(s: Seq<Seq<char>>, x: Seq<char>)
    requires
        !s.contains(x),
    ensures
        names_without(s, x) == s,
    decreases s.len(),
{
    reveal(Seq::filter);
    if s.len() > 0 {
        let t = s.drop_last();
        assert(!t.contains(x)) by {
            if t.contains(x) {
                let k = choose|k: int| 0 <= k < t.len() && t[k] == x;
                assert(s[k] == x);
            }
        }
        lemma_filter_keeps_all(t, x);
        assert(s.last() != x) by {
            assert(s[s.len() - 1] == s.last());
        }
        assert(s =~= t.push(s.last()));
    }
}


/// The names registered after a list of channel calls: each `(true, n)` is an
/// `add_channel` of `n`, each `(false, n)` a `remove_channel` of `n`, and a later call wins.
pub open spec fn live_channel_names(ops: Seq<(bool, Seq<char>)>) -> Set<Seq<char>>
    decreases ops.len(),
{
    if ops.len() == 0 {
        Set::empty()
    } else {
        let prev = live_channel_names(ops.drop_last());
        let op = ops.last();
        if op.0 {
            prev.insert(op.1)
        } else {
            prev.remove(op.1)
        }
    }
}

/// The names a gateway lists after one call, given those it listed before: `add_channel`
/// keeps a registered name in its place and appends a new one; `remove_channel` drops it.
pub open spec fn names_after(a: Seq<Seq<char>>, op: (bool, Seq<char>)) -> Seq<Seq<char>> {
    if op.0 {
        if a.contains(op.1) {
            a
        } else {
            a.push(op.1)
        }
    } else {
        names_without(a, op.1)
    }
}

/// Whatever history of channel calls a gateway went through, `list_channels` names each
/// channel once, and the set of names it lists is exactly the names passed to `add_channel`
/// and not removed by a later `remove_channel`: for a gateway made by `new` (`gs[0]`) and
/// changed by the calls `ops` (`gs[i + 1]` being the gateway after call `ops[i]` on `gs[i]`,
/// as the two functions' contracts describe the step), the names of the last gateway.
pub proof fn lemma_channel_names_follow_calls(gs: Seq<CommunicationGateway>, ops: Seq<(bool, Seq<char>)>)
    requires
        gs.len() == ops.len() + 1,
        forall|i: int| 0 <= i < gs.len() ==> (#[trigger] gs[i]).wf(),
        gs[0].entries().len() == 0,
        forall|i: int| 0 <= i < ops.len() ==> channel_names(gs[i + 1].entries()) == names_after(
            channel_names(gs[i].entries()),
            #[trigger] ops[i],
        ),
    ensures
        channel_names(gs.last().entries()).no_duplicates(),
        channel_names(gs.last().entries()).to_set() == live_channel_names(ops),
        forall|n: Seq<char>| channel_names(gs.last().entries()).contains(n) <==> #[trigger] live_channel_names(ops).contains(n),
    decreases ops.len(),
{
    lemma_channel_names_membership(gs, ops);
    assert(channel_names(gs.last().entries()).to_set() =~= live_channel_names(ops));
}

/// The membership half of `lemma_channel_names_follow_calls`, by induction on the calls.
proof fn lemma_channel_names_membership(gs: Seq<CommunicationGateway>, ops: Seq<(bool, Seq<char>)>)
    requires
        gs.len() == ops.len() + 1,
        forall|i: int| 0 <= i < gs.len() ==> (#[trigger] gs[i]).wf(),
        gs[0].entries().len() == 0,
        forall|i: int| 0 <= i < ops.len() ==> channel_names(gs[i + 1].entries()) == names_after(
            channel_names(gs[i].entries()),
            #[trigger] ops[i],
        ),
    ensures
        channel_names(gs.last().entries()).no_duplicates(),
        forall|n: Seq<char>| channel_names(gs.last().entries()).contains(n) <==> #[trigger] live_channel_names(ops).contains(n),
    decreases ops.len(),
{
    let last = gs.last();
    assert(last.wf());
    if ops.len() == 0 {
        assert(channel_names(last.entries()) =~= Seq::<Seq<char>>::empty());
    } else {
        let k = ops.len() - 1;
        let gs0 = gs.drop_last();
        let ops0 = ops.drop_last();
        assert forall|i: int| 0 <= i < gs0.len() implies (#[trigger] gs0[i]).wf() by {
            assert(gs0[i] == gs[i]);
        }
        assert forall|i: int| 0 <= i < ops0.len() implies channel_names(gs0[i + 1].entries()) == names_after(
            channel_names(gs0[i].entries()),
            #[trigger] ops0[i],
        ) by {
            assert(ops0[i] == ops[i]);
            assert(gs0[i + 1] == gs[i + 1]);
            assert(gs0[i] == gs[i]);
        }
        lemma_channel_names_membership(gs0, ops0);
        let a = channel_names(gs[k].entries());
        let b = channel_names(last.entries());
        let op = ops[k];
        assert(gs0.last() == gs[k]);
        assert(b == names_after(a, op));
        assert forall|n: Seq<char>| b.contains(n) <==> #[trigger] live_channel_names(ops).contains(n) by {
            assert(live_channel_names(ops0).contains(n) <==> a.contains(n));
            if op.0 {
                if !a.contains(op.1) {
                    if a.push(op.1).contains(n) && n != op.1 {
                        let j = choose|j: int| 0 <= j < a.push(op.1).len() && a.push(op.1)[j] == n;
                        assert(a[j] == n);
                    }
                    if a.contains(n) {
                        let j = choose|j: int| 0 <= j < a.len() && a[j] == n;
                        assert(a.push(op.1)[j] == n);
                    }
                    assert(a.push(op.1)[a.len() as int] == op.1);
                }
            } else {
                let p = |x: Seq<char>| x != op.1;
                if b.contains(n) {
                    a.lemma_filter_contains_rev(p, n);
                }
                if a.contains(n) && n != op.1 {
                    let j = choose|j: int| 0 <= j < a.len() && a[j] == n;
                    a.lemma_filter_contains(p, j);
                }
            }
        }
    }
}

} // verus!
