//! Publish/subscribe bookkeeping for the printer's components: topics, quality of service,
//! messages with time-to-live and metadata, content filters, publishers, subscriptions and
//! domains. Instants are milliseconds since the Unix epoch.

use vstd::prelude::*;
use vstd::string::*;
use crate::common::error::EmbError;
use crate::common::foreign::{new_uuid, now_millis, duration_from_millis, millis_duration};
use crate::common::str_map::{StrMap, str_eq, assoc_insert};
use crate::common::text::{str_contains, seq_contains};

verus! {

/// Quality of service of a topic or subscription.
#[derive(Debug, Clone, Copy, PartialEq, Eq, Structural)]
pub enum QosPolicy {
    /// Best effort delivery.
    BestEffort,
    /// Reliable delivery.
    Reliable,
    /// Volatile data (not persisted).
    Volatile,
    /// Persistent data (durable).
    Persistent,
}

impl Default for QosPolicy {
    fn default() -> (r: Self)
        ensures
            r == QosPolicy::BestEffort,
    {
        QosPolicy::BestEffort
    }
}

/// Configuration of a topic.
#[derive(Debug)]
pub struct TopicConfig {
    pub name: String,
    pub data_type: String,
    pub qos: QosPolicy,
    /// Key used to partition the topic.
    pub partition_key: Option<String>,
    /// Time to live of the topic's data.
    pub ttl_ms: Option<u64>,
}

impl TopicConfig {
    /// A topic with the default quality of service, no partition and no time to live.
    pub fn new(name: &str, data_type: &str) -> (r: Self)
        ensures
            r.name@ == name@,
            r.data_type@ == data_type@,
            r.qos == QosPolicy::BestEffort,
            r.partition_key is None,
            r.ttl_ms is None,
    {
        TopicConfig {
            name: String::from_str(name),
            data_type: String::from_str(data_type),
            qos: QosPolicy::default(),
            partition_key: None,
            ttl_ms: None,
        }
    }

    /// The same topic with another quality of service.
    pub fn with_qos(self, qos: QosPolicy) -> (r: Self)
        ensures
            r.qos == qos,
            r.name == self.name,
            r.data_type == self.data_type,
            r.partition_key == self.partition_key,
            r.ttl_ms == self.ttl_ms,
    {
        let mut c = self;
        c.qos = qos;
        c
    }

    /// The same topic partitioned by `key`.
    pub fn with_partition(self, key: &str) -> (r: Self)
        ensures
            r.partition_key matches Some(k) && k@ == key@,
            r.name == self.name,
            r.data_type == self.data_type,
            r.qos == self.qos,
            r.ttl_ms == self.ttl_ms,
    {
        let mut c = self;
        c.partition_key = Some(String::from_str(key));
        c
    }

    /// The same topic with a time to live.
    pub fn with_ttl(self, ttl_ms: u64) -> (r: Self)
        ensures
            r.ttl_ms == Some(ttl_ms),
            r.name == self.name,
            r.data_type == self.data_type,
            r.qos == self.qos,
            r.partition_key == self.partition_key,
    {
        let mut c = self;
        c.ttl_ms = Some(ttl_ms);
        c
    }
}

/// A message on a topic, with its metadata.
#[derive(Debug)]
pub struct DdsMessage {
    pub message_id: uuid::Uuid,
    pub publisher_id: uuid::Uuid,
    pub topic: String,
    /// The serialized payload.
    pub data: Vec<u8>,
    /// Creation instant.
    pub timestamp_ms: u64,
    pub sequence_number: u64,
    pub priority: u8,
    /// Time to live.
    pub ttl_ms: Option<u64>,
    pub metadata: StrMap,
}

/// Whether a message created at `timestamp_ms` with time to live `ttl_ms` has expired at
/// `now_ms`.
pub open spec fn expired_at(timestamp_ms: u64, ttl_ms: Option<u64>, now_ms: u64) -> bool {
    match ttl_ms {
        Some(ttl) => now_ms > timestamp_ms + ttl,
        None => false,
    }
}

/// The age of a message at `now_ms`, zero for a message from the future.
pub open spec fn age_at(timestamp_ms: u64, now_ms: u64) -> u64 {
    if now_ms >= timestamp_ms {
        (now_ms - timestamp_ms) as u64
    } else {
        0
    }
}

impl DdsMessage {
    /// A message stamped with a new identifier and the current time, sequence number and
    /// priority zero, no time to live and no metadata.
    pub fn new(publisher_id: uuid::Uuid, topic: &str, data: Vec<u8>) -> (r: Self)
        ensures
            r.publisher_id == publisher_id,
            r.topic@ == topic@,
            r.data == data,
            r.sequence_number == 0,
            r.priority == 0,
            r.ttl_ms is None,
            r.metadata@.len() == 0,
    {
        DdsMessage {
            message_id: new_uuid(),
            publisher_id,
            topic: String::from_str(topic),
            data,
            timestamp_ms: now_millis(),
            sequence_number: 0,
            priority: 0,
            ttl_ms: None,
            metadata: StrMap::new(),
        }
    }

    /// The same message with another sequence number.
    pub fn with_sequence(self, seq: u64) -> (r: Self)
        ensures
            r.sequence_number == seq,
            r.message_id == self.message_id,
            r.publisher_id == self.publisher_id,
            r.topic == self.topic,
            r.data == self.data,
            r.timestamp_ms == self.timestamp_ms,
            r.priority == self.priority,
            r.ttl_ms == self.ttl_ms,
            r.metadata@ == self.metadata@,
    {
        let mut m = self;
        m.sequence_number = seq;
        m
    }

    /// The same message with another priority.
    pub fn with_priority(self, priority: u8) -> (r: Self)
        ensures
            r.priority == priority,
            r.message_id == self.message_id,
            r.publisher_id == self.publisher_id,
            r.topic == self.topic,
            r.data == self.data,
            r.timestamp_ms == self.timestamp_ms,
            r.sequence_number == self.sequence_number,
            r.ttl_ms == self.ttl_ms,
            r.metadata@ == self.metadata@,
    {
        let mut m = self;
        m.priority = priority;
        m
    }

    /// The same message with a time to live.
    pub fn with_ttl(self, ttl_ms: u64) -> (r: Self)
        ensures
            r.ttl_ms == Some(ttl_ms),
            r.message_id == self.message_id,
            r.publisher_id == self.publisher_id,
            r.topic == self.topic,
            r.data == self.data,
            r.timestamp_ms == self.timestamp_ms,
            r.sequence_number == self.sequence_number,
            r.priority == self.priority,
            r.metadata@ == self.metadata@,
    {
        let mut m = self;
        m.ttl_ms = Some(ttl_ms);
        m
    }

    /// The same message with `key` set to `value` in its metadata.
    pub fn with_metadata(self, key: &str, value: &str) -> (r: Self)
        ensures
            r.metadata@ == assoc_insert(self.metadata@, key@, value@),
            r.message_id == self.message_id,
            r.publisher_id == self.publisher_id,
            r.topic == self.topic,
            r.data == self.data,
            r.timestamp_ms == self.timestamp_ms,
            r.sequence_number == self.sequence_number,
            r.priority == self.priority,
            r.ttl_ms == self.ttl_ms,
    {
        let mut m = self;
        m.metadata.insert(String::from_str(key), String::from_str(value));
        m
    }

    /// Whether the message has expired at `now_ms`: it has a time to live and more than that
    /// has passed since it was created.
    pub fn is_expired_at(&self, now_ms: u64) -> (r: bool)
        requires
            self.ttl_ms matches Some(ttl) ==> self.timestamp_ms + ttl <= u64::MAX,
        ensures
            r == expired_at(self.timestamp_ms, self.ttl_ms, now_ms),
    {
        match self.ttl_ms {
            Some(ttl) => now_ms > self.timestamp_ms + ttl,
            None => false,
        }
    }

    /// Whether the message has expired now; a message without a time to live never does.
    pub fn is_expired(&self) -> (r: bool)
        requires
            self.ttl_ms matches Some(ttl) ==> self.timestamp_ms + ttl <= u64::MAX,
        ensures
            r ==> self.ttl_ms is Some,
            exists|now: u64| r == expired_at(self.timestamp_ms, self.ttl_ms, now),
    {
        let now = now_millis();
        self.is_expired_at(now)
    }

    /// The age of the message at `now_ms` in milliseconds.
    pub fn age_ms_at(&self, now_ms: u64) -> (r: u64)
        ensures
            r == age_at(self.timestamp_ms, now_ms),
    {
        now_ms.saturating_sub(self.timestamp_ms)
    }

    /// The age of the message now.
    pub fn age(&self) -> (r: std::time::Duration)
        ensures
            exists|now: u64| r == millis_duration(age_at(self.timestamp_ms, now)),
    {
        let now = now_millis();
        duration_from_millis(self.age_ms_at(now))
    }
}

/// A content filter for a subscription.
#[derive(Debug)]
pub struct SubscriptionFilter {
    /// The filter expression.
    pub expression: String,
    /// Its parameters.
    pub parameters: StrMap,
}

impl SubscriptionFilter {
    /// A filter with the given expression and no parameters.
    pub fn new(expression: &str) -> (r: Self)
        ensures
            r.expression@ == expression@,
            r.parameters@.len() == 0,
    {
        SubscriptionFilter { expression: String::from_str(expression), parameters: StrMap::new() }
    }

    /// The same filter with parameter `key` set to `value`.
    pub fn with_parameter(self, key: &str, value: &str) -> (r: Self)
        ensures
            r.expression == self.expression,
            r.parameters@ == assoc_insert(self.parameters@, key@, value@),
    {
        let mut f = self;
        f.parameters.insert(String::from_str(key), String::from_str(value));
        f
    }
}

impl Clone for SubscriptionFilter {
    fn clone(&self) -> (r: Self)
        ensures
            r.expression == self.expression,
            r.parameters@ == self.parameters@,
    {
        SubscriptionFilter { expression: self.expression.clone(), parameters: self.parameters.clone() }
    }
}

/// Whether a message of the given priority may be delivered to a subscription with the given
/// quality of service: urgent messages (8 and above) always, reliable subscriptions only from
/// priority 5, every other subscription always.
pub open spec fn qos_compatible(priority: u8, qos: QosPolicy) -> bool {
    priority >= 8 || qos != QosPolicy::Reliable || priority >= 5
}

/// The content filter's verdict on a message of the given priority and age: an empty
/// expression passes everything, one mentioning `priority > 5` passes priorities above five,
/// else one mentioning `age < 1000` passes messages younger than a second, and anything else
/// passes.
pub open spec fn filter_passes(expression: Seq<char>, priority: u8, age_ms: u64) -> bool {
    if expression.len() == 0 {
        true
    } else if seq_contains(expression, "priority > 5"@) {
        priority > 5
    } else if seq_contains(expression, "age < 1000"@) {
        age_ms < 1000
    } else {
        true
    }
}

/// Quality-of-service compatibility of a message priority with a subscription.
pub fn is_qos_compatible(message_priority: u8, subscription_qos: QosPolicy) -> (r: bool)
    ensures
        r == qos_compatible(message_priority, subscription_qos),
{
    if message_priority >= 8 {
        true
    } else {
        match subscription_qos {
            QosPolicy::BestEffort => true,
            QosPolicy::Reliable => message_priority >= 5,
            _ => true,
        }
    }
}

/// Applies a content filter expression to a message at instant `now_ms`.
pub fn apply_filter_at(message: &DdsMessage, expression: &str, now_ms: u64) -> (r: bool)
    ensures
        r == filter_passes(expression@, message.priority, age_at(message.timestamp_ms, now_ms)),
{
    if expression.unicode_len() == 0 {
        return true;
    }
    if str_contains(expression, "priority > 5") {
        proof {
            reveal_strlit("priority > 5");
        }
        return message.priority > 5;
    }
    proof {
        reveal_strlit("priority > 5");
    }
    if str_contains(expression, "age < 1000") {
        proof {
            reveal_strlit("age < 1000");
        }
        return message.age_ms_at(now_ms) < 1000;
    }
    proof {
        reveal_strlit("age < 1000");
    }
    true
}

/// A subscription to a topic, with its delivery counters.
#[derive(Debug)]
pub struct Subscription {
    pub subscription_id: uuid::Uuid,
    pub topic: String,
    pub subscriber_id: uuid::Uuid,
    pub filter: Option<SubscriptionFilter>,
    pub qos: QosPolicy,
    /// Creation instant.
    pub created_at_ms: u64,
    /// Messages delivered so far.
    pub messages_received: u64,
    /// Instant of the last delivery.
    pub last_message_ms: Option<u64>,
}

/// Statistics of a subscription.
#[derive(Debug)]
pub struct SubscriptionStats {
    pub subscription_id: uuid::Uuid,
    pub topic: String,
    pub subscriber_id: uuid::Uuid,
    pub messages_received: u64,
    pub last_message_ms: Option<u64>,
    pub age_ms: u64,
}

impl Subscription {
    /// A fresh subscription with a new identifier, created now, with nothing delivered.
    pub fn new(topic: &str, subscriber_id: uuid::Uuid, filter: Option<SubscriptionFilter>, qos: QosPolicy) -> (r: Self)
        ensures
            r.topic@ == topic@,
            r.subscriber_id == subscriber_id,
            r.filter == filter,
            r.qos == qos,
            r.messages_received == 0,
            r.last_message_ms is None,
    {
        Subscription {
            subscription_id: new_uuid(),
            topic: String::from_str(topic),
            subscriber_id,
            filter,
            qos,
            created_at_ms: now_millis(),
            messages_received: 0,
            last_message_ms: None,
        }
    }

    /// Statistics at instant `now_ms`, which is not before the subscription's creation.
    pub fn get_stats_at(&self, now_ms: u64) -> (r: SubscriptionStats)
        requires
            now_ms >= self.created_at_ms,
        ensures
            r.subscription_id == self.subscription_id,
            r.topic == self.topic,
            r.subscriber_id == self.subscriber_id,
            r.messages_received == self.messages_received,
            r.last_message_ms == self.last_message_ms,
            r.age_ms == now_ms - self.created_at_ms,
    {
        SubscriptionStats {
            subscription_id: self.subscription_id,
            topic: self.topic.clone(),
            subscriber_id: self.subscriber_id,
            messages_received: self.messages_received,
            last_message_ms: self.last_message_ms,
            age_ms: now_ms - self.created_at_ms,
        }
    }

    /// Statistics now; the age is measured on the clock, zero if the clock reads earlier than
    /// the creation instant.
    pub fn get_stats(&self) -> (r: SubscriptionStats)
        ensures
            r.subscription_id == self.subscription_id,
            r.topic == self.topic,
            r.subscriber_id == self.subscriber_id,
            r.messages_received == self.messages_received,
            r.last_message_ms == self.last_message_ms,
    {
        let now = now_millis();
        let now = if now < self.created_at_ms {
            self.created_at_ms
        } else {
            now
        };
        self.get_stats_at(now)
    }

    /// Records a delivery at `now_ms`.
    pub fn record_delivery(&mut self, now_ms: u64)
        requires
            old(self).messages_received < u64::MAX,
        ensures
            final(self).messages_received == old(self).messages_received + 1,
            final(self).last_message_ms == Some(now_ms),
            final(self).topic == old(self).topic,
            final(self).filter == old(self).filter,
            final(self).qos == old(self).qos,
            final(self).subscription_id == old(self).subscription_id,
            final(self).subscriber_id == old(self).subscriber_id,
            final(self).created_at_ms == old(self).created_at_ms,
    {
        self.messages_received = self.messages_received + 1;
        self.last_message_ms = Some(now_ms);
    }
}

/// A publisher on a topic, with its sequence and sent counters.
#[derive(Debug)]
pub struct Publisher {
    pub publisher_id: uuid::Uuid,
    pub topic: String,
    pub qos: QosPolicy,
    /// The sequence number of the last message published.
    pub sequence_counter: u64,
    /// Messages published so far.
    pub messages_sent: u64,
    /// Creation instant.
    pub created_at_ms: u64,
}

/// Statistics of a publisher.
#[derive(Debug)]
pub struct PublisherStats {
    pub publisher_id: uuid::Uuid,
    pub topic: String,
    pub qos: QosPolicy,
    pub messages_sent: u64,
    pub age_ms: u64,
}

impl Clone for Publisher {
    fn clone(&self) -> (r: Self)
        ensures
            r == *self,
    {
        Publisher {
            publisher_id: self.publisher_id,
            topic: self.topic.clone(),
            qos: self.qos,
            sequence_counter: self.sequence_counter,
            messages_sent: self.messages_sent,
            created_at_ms: self.created_at_ms,
        }
    }
}

impl Publisher {
    /// A fresh publisher with a new identifier, created now, that has sent nothing.
    pub fn new(topic: &str, qos: QosPolicy) -> (r: Self)
        ensures
            r.topic@ == topic@,
            r.qos == qos,
            r.sequence_counter == 0,
            r.messages_sent == 0,
    {
        Publisher {
            publisher_id: new_uuid(),
            topic: String::from_str(topic),
            qos,
            sequence_counter: 0,
            messages_sent: 0,
            created_at_ms: now_millis(),
        }
    }

    /// Publishes an already serialized payload: the message carries this publisher's
    /// identifier and topic, the given priority and the next sequence number.
    pub fn publish(&mut self, serialized: Vec<u8>, priority: u8) -> (r: DdsMessage)
        requires
            old(self).sequence_counter < u64::MAX,
            old(self).messages_sent < u64::MAX,
        ensures
            final(self).sequence_counter == old(self).sequence_counter + 1,
            final(self).messages_sent == old(self).messages_sent + 1,
            final(self).publisher_id == old(self).publisher_id,
            final(self).topic == old(self).topic,
            final(self).qos == old(self).qos,
            final(self).created_at_ms == old(self).created_at_ms,
            r.publisher_id == old(self).publisher_id,
            r.topic@ == old(self).topic@,
            r.data == serialized,
            r.priority == priority,
            r.sequence_number == final(self).sequence_counter,
            r.ttl_ms is None,
            r.metadata@.len() == 0,
    {
        let seq = self.sequence_counter + 1;
        self.sequence_counter = seq;
        let message = DdsMessage::new(self.publisher_id, self.topic.as_str(), serialized)
            .with_priority(priority)
            .with_sequence(seq);
        self.messages_sent = self.messages_sent + 1;
        message
    }

    /// Statistics now; the age is measured on the clock, zero if the clock reads earlier than
    /// the creation instant.
    pub fn get_stats(&self) -> (r: PublisherStats)
        ensures
            r.publisher_id == self.publisher_id,
            r.topic == self.topic,
            r.qos == self.qos,
            r.messages_sent == self.messages_sent,
    {
        let now = now_millis();
        let now = if now < self.created_at_ms {
            self.created_at_ms
        } else {
            now
        };
        self.get_stats_at(now)
    }

    /// Statistics at instant `now_ms`, which is not before the publisher's creation.
    pub fn get_stats_at(&self, now_ms: u64) -> (r: PublisherStats)
        requires
            now_ms >= self.created_at_ms,
        ensures
            r.publisher_id == self.publisher_id,
            r.topic == self.topic,
            r.qos == self.qos,
            r.messages_sent == self.messages_sent,
            r.age_ms == now_ms - self.created_at_ms,
    {
        PublisherStats {
            publisher_id: self.publisher_id,
            topic: self.topic.clone(),
            qos: self.qos,
            messages_sent: self.messages_sent,
            age_ms: now_ms - self.created_at_ms,
        }
    }
}

/// Whether a subscription takes a message routed at `now_ms`: same topic, the filter (where
/// there is one) passes it, and the priority suits the subscription's quality of service.
pub open spec fn takes(s: Subscription, m: DdsMessage, now_ms: u64) -> bool {
    &&& s.topic@ == m.topic@
    &&& match s.filter {
        Some(f) => filter_passes(f.expression@, m.priority, age_at(m.timestamp_ms, now_ms)),
        None => true,
    }
    &&& qos_compatible(m.priority, s.qos)
}

/// `b` is subscription `a` after routing `m` at `now_ms`: one more delivery stamped `now_ms`
/// where it takes the message, else unchanged.
pub open spec fn routed(a: Subscription, b: Subscription, m: DdsMessage, now_ms: u64) -> bool {
    &&& b.subscription_id == a.subscription_id
    &&& b.topic == a.topic
    &&& b.subscriber_id == a.subscriber_id
    &&& b.filter == a.filter
    &&& b.qos == a.qos
    &&& b.created_at_ms == a.created_at_ms
    &&& if takes(a, m, now_ms) {
        b.messages_received == a.messages_received + 1 && b.last_message_ms == Some(now_ms)
    } else {
        b.messages_received == a.messages_received && b.last_message_ms == a.last_message_ms
    }
}

/// The number of publishers among `ps[..n]` on topic `t`.
pub open spec fn publishers_on(ps: Seq<Publisher>, t: Seq<char>, n: int) -> nat
    decreases n,
{
    if n <= 0 {
        0
    } else {
        publishers_on(ps, t, n - 1) + if ps[n - 1].topic@ == t {
            1nat
        } else {
            0nat
        }
    }
}

/// `b` is subscription `a` after a publication on `topic` at `priority` by `count` publishers:
/// the same subscription, at most `count` more deliveries; exactly `count` more where it has
/// no filter and takes the priority, none where it has no filter and refuses it, none where
/// it is on another topic.
pub open spec fn delivered(a: Subscription, b: Subscription, topic: Seq<char>, priority: u8, count: nat) -> bool {
    &&& b.subscription_id == a.subscription_id
    &&& b.topic == a.topic
    &&& b.subscriber_id == a.subscriber_id
    &&& b.filter == a.filter
    &&& b.qos == a.qos
    &&& b.created_at_ms == a.created_at_ms
    &&& a.messages_received <= b.messages_received <= a.messages_received + count
    &&& a.topic@ != topic ==> b == a
    &&& a.topic@ == topic && a.filter is None ==> b.messages_received == a.messages_received + if qos_compatible(
        priority,
        a.qos,
    ) {
        count
    } else {
        0
    }
}

/// The number of distinct topics among `ts[..n]`: those that occur there for the first time.
pub open spec fn distinct_count(ts: Seq<Seq<char>>, n: int) -> nat
    decreases n,
{
    if n <= 0 {
        0
    } else if exists|j: int| 0 <= j < n - 1 && #[trigger] ts[j] == ts[n - 1] {
        distinct_count(ts, n - 1)
    } else {
        distinct_count(ts, n - 1) + 1
    }
}

/// The topics of a list of publishers.
pub open spec fn publisher_topics(ps: Seq<Publisher>) -> Seq<Seq<char>> {
    ps.map_values(|p: Publisher| p.topic@)
}

/// A domain: its publishers and subscriptions, in the order they were created.
pub struct DdsDomain {
    domain_id: u32,
    participant_id: uuid::Uuid,
    publishers: Vec<Publisher>,
    subscriptions: Vec<Subscription>,
    messages_published: u64,
    created_at_ms: u64,
}

impl DdsDomain {
    pub closed spec fn id_of(&self) -> u32 {
        self.domain_id
    }

    pub closed spec fn pubs(&self) -> Seq<Publisher> {
        self.publishers@
    }

    pub closed spec fn subs(&self) -> Seq<Subscription> {
        self.subscriptions@
    }

    pub closed spec fn published(&self) -> u64 {
        self.messages_published
    }

    /// An empty domain with a fresh participant identifier.
    pub fn new(domain_id: u32) -> (r: Self)
        ensures
            r.id_of() == domain_id,
            r.pubs().len() == 0,
            r.subs().len() == 0,
            r.published() == 0,
    {
        DdsDomain {
            domain_id,
            participant_id: new_uuid(),
            publishers: Vec::new(),
            subscriptions: Vec::new(),
            messages_published: 0,
            created_at_ms: now_millis(),
        }
    }

    /// Creates a publisher on the topic; the domain keeps it and a copy is returned.
    pub fn create_publisher(&mut self, topic_config: &TopicConfig) -> (r: Publisher)
        ensures
            final(self).pubs() == old(self).pubs().push(r),
            final(self).subs() == old(self).subs(),
            final(self).id_of() == old(self).id_of(),
            final(self).published() == old(self).published(),
            r.topic@ == topic_config.name@,
            r.qos == topic_config.qos,
            r.sequence_counter == 0,
            r.messages_sent == 0,
    {
        let publisher = Publisher::new(topic_config.name.as_str(), topic_config.qos);
        let copy = publisher.clone();
        self.publishers.push(publisher);
        copy
    }

    /// Creates a subscription on the topic; the domain keeps it and its identifier is
    /// returned.
    pub fn create_subscription(&mut self, topic_config: &TopicConfig, subscriber_id: uuid::Uuid, filter: Option<SubscriptionFilter>) -> (r: uuid::Uuid)
        ensures
            final(self).subs().len() == old(self).subs().len() + 1,
            final(self).subs().drop_last() == old(self).subs(),
            ({
                let s = final(self).subs().last();
                &&& s.subscription_id == r
                &&& s.topic@ == topic_config.name@
                &&& s.subscriber_id == subscriber_id
                &&& s.filter == filter
                &&& s.qos == topic_config.qos
                &&& s.messages_received == 0
                &&& s.last_message_ms is None
            }),
            final(self).pubs() == old(self).pubs(),
            final(self).id_of() == old(self).id_of(),
            final(self).published() == old(self).published(),
    {
        let subscription = Subscription::new(topic_config.name.as_str(), subscriber_id, filter, topic_config.qos);
        let id = subscription.subscription_id;
        self.subscriptions.push(subscription);
        proof {
            assert(self.subscriptions@.drop_last() =~= old(self).subscriptions@);
        }
        id
    }

    /// Routes a message at `now_ms` to the subscriptions that take it.
    pub fn route_message_at(&mut self, message: &DdsMessage, now_ms: u64)
        requires
            forall|i: int| 0 <= i < old(self).subs().len() ==> (#[trigger] old(self).subs()[i]).messages_received < u64::MAX,
        ensures
            final(self).subs().len() == old(self).subs().len(),
            forall|i: int| 0 <= i < final(self).subs().len() ==> routed(old(self).subs()[i], #[trigger] final(self).subs()[i], *message, now_ms),
            final(self).pubs() == old(self).pubs(),
            final(self).id_of() == old(self).id_of(),
            final(self).published() == old(self).published(),
    {
        let ghost before = self.subscriptions@;
        assert(before =~= old(self).subs());
        let mut i: usize = 0;
        while i < self.subscriptions.len()
            invariant
                self.subscriptions@.len() == before.len(),
                i <= before.len(),
                forall|k: int| 0 <= k < i ==> routed(before[k], #[trigger] self.subscriptions@[k], *message, now_ms),
                forall|k: int| i <= k < before.len() ==> #[trigger] self.subscriptions@[k] == before[k],
                forall|k: int| 0 <= k < before.len() ==> (#[trigger] before[k]).messages_received < u64::MAX,
                self.publishers == old(self).publishers,
                self.domain_id == old(self).domain_id,
                self.messages_published == old(self).messages_published,
            decreases before.len() - i,
        {
            let same_topic = str_eq(self.subscriptions[i].topic.as_str(), message.topic.as_str());
            let passes = match &self.subscriptions[i].filter {
                Some(f) => apply_filter_at(message, f.expression.as_str(), now_ms),
                None => true,
            };
            let compatible = is_qos_compatible(message.priority, self.subscriptions[i].qos);
            if same_topic && passes && compatible {
                let mut sub = self.subscriptions.remove(i);
                sub.record_delivery(now_ms);
                self.subscriptions.insert(i, sub);
            }
            proof {
                assert(routed(before[i as int], self.subscriptions@[i as int], *message, now_ms));
            }
            i = i + 1;
        }
    }

    /// Publishes an already serialized payload on `topic` through every publisher of the
    /// topic, each message routed at `now_ms`; refused where the topic has no publisher.
    pub fn publish_at(&mut self, topic: &str, serialized: &Vec<u8>, priority: u8, now_ms: u64) -> (r: Result<(), EmbError>)
        requires
            forall|i: int| 0 <= i < old(self).pubs().len() ==> (#[trigger] old(self).pubs()[i]).sequence_counter < u64::MAX
                && old(self).pubs()[i].messages_sent < u64::MAX,
            forall|i: int| 0 <= i < old(self).subs().len() ==> (#[trigger] old(self).subs()[i]).messages_received
                + old(self).pubs().len() < u64::MAX,
            old(self).published() < u64::MAX,
        ensures
            (exists|i: int| 0 <= i < old(self).pubs().len() && (#[trigger] old(self).pubs()[i]).topic@ == topic@) <==> r is Ok,
            r matches Err(e) ==> (e matches EmbError::Communication(m) && m@ == "No publishers for topic: "@ + topic@
                && *final(self) == *old(self)),
            r is Ok ==> final(self).published() == old(self).published() + 1,
            final(self).pubs().len() == old(self).pubs().len(),
            forall|i: int| 0 <= i < final(self).pubs().len() ==> {
                let a = #[trigger] old(self).pubs()[i];
                let b = final(self).pubs()[i];
                &&& b.topic == a.topic && b.publisher_id == a.publisher_id && b.qos == a.qos
                &&& a.topic@ == topic@ ==> b.sequence_counter == a.sequence_counter + 1 && b.messages_sent == a.messages_sent + 1
                &&& a.topic@ != topic@ ==> b == a
            },
            final(self).subs().len() == old(self).subs().len(),
            forall|i: int| 0 <= i < final(self).subs().len() ==> delivered(
                #[trigger] old(self).subs()[i],
                final(self).subs()[i],
                topic@,
                priority,
                if r is Ok { publishers_on(old(self).pubs(), topic@, old(self).pubs().len() as int) } else { 0 },
            ),
            final(self).id_of() == old(self).id_of(),
    {
        let mut found = false;
        let mut j: usize = 0;
        while j < self.publishers.len()
            invariant
                j <= self.publishers@.len(),
                found <==> exists|k: int| 0 <= k < j && (#[trigger] self.publishers@[k]).topic@ == topic@,
            decreases self.publishers@.len() - j,
        {
            if str_eq(self.publishers[j].topic.as_str(), topic) {
                found = true;
            }
            j = j + 1;
        }
        if !found {
            let mut m = String::from_str("No publishers for topic: ");
            crate::common::text::append_str(&mut m, topic);
            return Err(EmbError::Communication(m));
        }
        let ghost pubs0 = self.publishers@;
        let ghost subs0 = self.subscriptions@;
        let n = self.publishers.len();
        proof {
            assert(subs0 =~= old(self).subs());
            assert(pubs0 =~= old(self).pubs());
            assert forall|k: int| 0 <= k < subs0.len() implies (#[trigger] subs0[k]).messages_received + n < u64::MAX by {
                assert(old(self).subs()[k] == subs0[k]);
            }
        }
        let mut i: usize = 0;
        while i < n
            invariant
                n == pubs0.len(),
                self.publishers@.len() == n,
                i <= n,
                forall|k: int| 0 <= k < i ==> {
                    let a = #[trigger] pubs0[k];
                    let b = self.publishers@[k];
                    &&& b.topic == a.topic && b.publisher_id == a.publisher_id && b.qos == a.qos
                    &&& a.topic@ == topic@ ==> b.sequence_counter == a.sequence_counter + 1 && b.messages_sent == a.messages_sent + 1
                    &&& a.topic@ != topic@ ==> b == a
                },
                forall|k: int| i <= k < n ==> #[trigger] self.publishers@[k] == pubs0[k],
                forall|k: int| 0 <= k < n ==> (#[trigger] pubs0[k]).sequence_counter < u64::MAX && pubs0[k].messages_sent < u64::MAX,
                self.subscriptions@.len() == subs0.len(),
                publishers_on(pubs0, topic@, i as int) <= i,
                forall|k: int| 0 <= k < subs0.len() ==> (#[trigger] subs0[k]).messages_received + n < u64::MAX,
                forall|k: int| 0 <= k < subs0.len() ==> delivered(
                    #[trigger] subs0[k],
                    self.subscriptions@[k],
                    topic@,
                    priority,
                    publishers_on(pubs0, topic@, i as int),
                ),
                self.domain_id == old(self).domain_id,
                self.messages_published == old(self).messages_published,
            decreases n - i,
        {
            let ghost before_count = publishers_on(pubs0, topic@, i as int);
            if str_eq(self.publishers[i].topic.as_str(), topic) {
                let mut p = self.publishers.remove(i);
                let message = p.publish(serialized.clone(), priority);
                self.publishers.insert(i, p);
                let ghost mid = self.subscriptions@;
                proof {
                    assert forall|k: int| 0 <= k < mid.len() implies (#[trigger] mid[k]).messages_received < u64::MAX by {
                        assert(delivered(subs0[k], mid[k], topic@, priority, before_count));
                    }
                }
                self.route_message_at(&message, now_ms);
                proof {
                    assert(publishers_on(pubs0, topic@, i + 1) == before_count + 1);
                    assert forall|k: int| 0 <= k < subs0.len() implies delivered(
                        #[trigger] subs0[k],
                        self.subscriptions@[k],
                        topic@,
                        priority,
                        before_count + 1,
                    ) by {
                        assert(delivered(subs0[k], mid[k], topic@, priority, before_count));
                        assert(routed(mid[k], self.subscriptions@[k], message, now_ms));
                    }
                }
            } else {
                proof {
                    assert(publishers_on(pubs0, topic@, i + 1) == before_count);
                }
            }
            i = i + 1;
        }
        self.messages_published = self.messages_published + 1;
        Ok(())
    }

    /// Statistics at `now_ms`: publishers, subscriptions, distinct topics with a publisher,
    /// messages published, and the time since the domain was created (zero where `now_ms` is
    /// earlier).
    pub fn get_stats_at(&self, now_ms: u64) -> (r: DomainStats)
        ensures
            r.domain_id == self.id_of(),
            r.total_publishers == self.pubs().len(),
            r.total_subscriptions == self.subs().len(),
            r.total_topics == distinct_count(publisher_topics(self.pubs()), self.pubs().len() as int),
            r.messages_published == self.published(),
    {
        let ghost ts = publisher_topics(self.publishers@);
        let mut count: usize = 0;
        let mut i: usize = 0;
        while i < self.publishers.len()
            invariant
                i <= self.publishers@.len(),
                ts == publisher_topics(self.publishers@),
                count == distinct_count(ts, i as int),
                count <= i,
            decreases self.publishers@.len() - i,
        {
            let mut seen = false;
            let mut j: usize = 0;
            while j < i
                invariant
                    j <= i < self.publishers@.len(),
                    ts == publisher_topics(self.publishers@),
                    seen <==> exists|k: int| 0 <= k < j && #[trigger] ts[k] == ts[i as int],
                decreases i - j,
            {
                proof {
                    assert(ts[j as int] == self.publishers@[j as int].topic@);
                    assert(ts[i as int] == self.publishers@[i as int].topic@);
                }
                if str_eq(self.publishers[j].topic.as_str(), self.publishers[i].topic.as_str()) {
                    seen = true;
                }
                j = j + 1;
            }
            if !seen {
                count = count + 1;
            }
            i = i + 1;
        }
        DomainStats {
            domain_id: self.domain_id,
            participant_id: self.participant_id,
            total_publishers: self.publishers.len(),
            total_subscriptions: self.subscriptions.len(),
            total_topics: count,
            messages_published: self.messages_published,
            uptime_ms: if now_ms >= self.created_at_ms { now_ms - self.created_at_ms } else { 0 },
        }
    }

    pub fn domain_id(&self) -> (r: u32)
        ensures
            r == self.id_of(),
    {
        self.domain_id
    }

    pub fn publishers(&self) -> (r: &Vec<Publisher>)
        ensures
            r@ == self.pubs(),
    {
        &self.publishers
    }

    pub fn subscriptions(&self) -> (r: &Vec<Subscription>)
        ensures
            r@ == self.subs(),
    {
        &self.subscriptions
    }
}

/// Statistics of a domain.
#[derive(Debug)]
pub struct DomainStats {
    pub domain_id: u32,
    pub participant_id: uuid::Uuid,
    pub total_publishers: usize,
    pub total_subscriptions: usize,
    pub total_topics: usize,
    pub messages_published: u64,
    pub uptime_ms: u64,
}

/// Statistics over all domains of a manager.
#[derive(Debug, Clone, Copy)]
pub struct ManagerStats {
    pub total_domains: usize,
    pub total_publishers: usize,
    pub total_subscriptions: usize,
    pub total_topics: usize,
    pub messages_published: u64,
}

} // verus!
