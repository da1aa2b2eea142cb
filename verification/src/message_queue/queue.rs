//! The priority message queue: one FIFO segment queue per priority level, served from the
//! highest level down. The segment queues hold keys; the messages themselves are kept in a
//! store ordered by key.

use vstd::prelude::*;
use vstd::string::*;
use crossbeam::queue::SegQueue;
use crate::common::error::EmbError;
use crate::common::foreign::new_uuid;
use crate::message_queue::types::timed_out_at;
use super::types::{
    Message, MessagePriority, MessageStatus, MessageQueueConfig, QueueStats, priority_ordinal,
    retryable,
};

verus! {

#[verifier::external_type_specification]
#[verifier::external_body]
#[verifier::reject_recursive_types(T)]
pub struct ExSegQueue<T>(crossbeam::queue::SegQueue<T>);

/// What a segment queue holds, from its head (oldest) to its tail.
pub uninterp spec fn seg_queue_items(q: SegQueue<u64>) -> Seq<u64>;

/// `SegQueue::new`: an empty queue.
#[verifier::external_body]
fn seg_queue_new() -> (r: SegQueue<u64>)
    ensures
        seg_queue_items(r) == Seq::<u64>::empty(),
{
    SegQueue::new()
}

/// `SegQueue::push`: appends at the tail.
#[verifier::external_body]
fn seg_queue_push(q: &mut SegQueue<u64>, v: u64)
    ensures
        seg_queue_items(*final(q)) == seg_queue_items(*old(q)).push(v),
{
    q.push(v)
}

/// `SegQueue::pop`: removes the head, or returns `None` on an empty queue.
#[verifier::external_body]
fn seg_queue_pop(q: &mut SegQueue<u64>) -> (r: Option<u64>)
    ensures
        seg_queue_items(*old(q)).len() == 0 ==> r is None && seg_queue_items(*final(q))
            == seg_queue_items(*old(q)),
        seg_queue_items(*old(q)).len() > 0 ==> r == Some(seg_queue_items(*old(q))[0])
            && seg_queue_items(*final(q)) == seg_queue_items(*old(q)).drop_first(),
{
    q.pop()
}

/// `SegQueue::len`: the number of elements.
#[verifier::external_body]
fn seg_queue_len(q: &SegQueue<u64>) -> (r: usize)
    ensures
        r == seg_queue_items(*q).len(),
{
    q.len()
}

/// Whether key `k` occurs in the store.
pub open spec fn store_has(s: Seq<(u64, Message)>, k: u64) -> bool {
    exists|j: int| 0 <= j < s.len() && #[trigger] s[j].0 == k
}

/// The message stored under key `k`.
pub open spec fn store_lookup(s: Seq<(u64, Message)>, k: u64) -> Message {
    s[choose|j: int| 0 <= j < s.len() && #[trigger] s[j].0 == k].1
}

/// The store's keys increase strictly.
pub open spec fn store_sorted(s: Seq<(u64, Message)>) -> bool {
    forall|i: int, j: int| 0 <= i < j < s.len() ==> #[trigger] s[i].0 < #[trigger] s[j].0
}

/// The highest priority level holding a message, given the four levels' lengths (lowest
/// level first); level 0 when all are empty.
pub open spec fn top_level(l0: nat, l1: nat, l2: nat, l3: nat) -> int {
    if l3 > 0 {
        3
    } else if l2 > 0 {
        2
    } else if l1 > 0 {
        1
    } else {
        0
    }
}

/// A message as it is queued: with the queue's default timeout when it carries none.
pub open spec fn with_default_timeout(m: Message, default_timeout_ms: u64) -> Message {
    if m.timeout_ms is None {
        Message { timeout_ms: Some(default_timeout_ms), ..m }
    } else {
        m
    }
}

/// One step of a processing batch.
#[derive(Debug)]
pub enum BatchStep {
    /// Nothing is pending.
    Empty,
    /// The message ran past its timeout; it is marked and counted.
    TimedOut(Message),
    /// The message is to be handled; it is marked as processing.
    Ready(Message),
}

/// A priority message queue.
pub struct MessageQueue {
    low: SegQueue<u64>,
    normal: SegQueue<u64>,
    high: SegQueue<u64>,
    critical: SegQueue<u64>,
    store: Vec<(u64, Message)>,
    next_key: u64,
    config: MessageQueueConfig,
    stats: QueueStats,
    id: uuid::Uuid,
}

impl MessageQueue {
    /// The keys queued at level `p` (0 lowest to 3 highest), oldest first; no other level
    /// holds any.
    pub closed spec fn level_keys(&self, p: int) -> Seq<u64> {
        if p == 0 {
            seg_queue_items(self.low)
        } else if p == 1 {
            seg_queue_items(self.normal)
        } else if p == 2 {
            seg_queue_items(self.high)
        } else if p == 3 {
            seg_queue_items(self.critical)
        } else {
            Seq::empty()
        }
    }

    /// The messages queued at priority level `p` (0 lowest to 3 highest), oldest first.
    pub closed spec fn level(&self, p: int) -> Seq<Message> {
        self.level_keys(p).map_values(|k: u64| store_lookup(self.store@, k))
    }

    /// The number of queued messages.
    pub open spec fn pending(&self) -> nat {
        self.level(0).len() + self.level(1).len() + self.level(2).len() + self.level(3).len()
    }

    /// The highest level holding a message.
    pub open spec fn top(&self) -> int {
        top_level(self.level(0).len(), self.level(1).len(), self.level(2).len(), self.level(3).len())
    }

    pub closed spec fn cfg(&self) -> MessageQueueConfig {
        self.config
    }

    pub closed spec fn counters(&self) -> QueueStats {
        self.stats
    }

    pub closed spec fn ident(&self) -> uuid::Uuid {
        self.id
    }

    /// Whether a fresh key can still be drawn.
    pub closed spec fn has_key_room(&self) -> bool {
        self.next_key < u64::MAX
    }

    /// The store holds exactly the queued messages, once each, under distinct keys below the
    /// next key, and every message sits at the level of its priority.
    pub closed spec fn wf(&self) -> bool {
        &&& store_sorted(self.store@)
        &&& forall|j: int| 0 <= j < self.store@.len() ==> #[trigger] self.store@[j].0 < self.next_key
        &&& forall|p: int, i: int|
            0 <= p < 4 && 0 <= i < self.level_keys(p).len() ==> store_has(
                self.store@,
                #[trigger] self.level_keys(p)[i],
            )
        &&& forall|p: int, i: int, q: int, j: int|
            0 <= p < 4 && 0 <= q < 4 && 0 <= i < self.level_keys(p).len() && 0 <= j
                < self.level_keys(q).len() && (p != q || i != j) ==> #[trigger] self.level_keys(
                p,
            )[i] != #[trigger] self.level_keys(q)[j]
        &&& forall|p: int, i: int|
            0 <= p < 4 && 0 <= i < self.level_keys(p).len() ==> priority_ordinal(
                store_lookup(self.store@, #[trigger] self.level_keys(p)[i]).priority,
            ) == p
        &&& self.store@.len() == self.level_keys(0).len() + self.level_keys(1).len()
            + self.level_keys(2).len() + self.level_keys(3).len()
    }

    /// An empty queue with the given configuration and zeroed statistics.
    pub fn new(config: MessageQueueConfig) -> (r: Self)
        ensures
            r.wf(),
            r.has_key_room(),
            r.cfg() == config,
            forall|p: int| 0 <= p < 4 ==> #[trigger] r.level(p).len() == 0,
            r.counters() == (QueueStats {
                total_processed: 0,
                pending_count: 0,
                processing_count: 0,
                completed_count: 0,
                failed_count: 0,
                timeout_count: 0,
                total_processing_time_ms: 0,
            }),
    {
        let r = MessageQueue {
            low: seg_queue_new(),
            normal: seg_queue_new(),
            high: seg_queue_new(),
            critical: seg_queue_new(),
            store: Vec::new(),
            next_key: 0,
            config,
            stats: QueueStats {
                total_processed: 0,
                pending_count: 0,
                processing_count: 0,
                completed_count: 0,
                failed_count: 0,
                timeout_count: 0,
                total_processing_time_ms: 0,
            },
            id: new_uuid(),
        };
        proof {
            assert forall|p: int| 0 <= p < 4 implies #[trigger] r.level(p).len() == 0 by {
                assert(r.level_keys(p).len() == 0);
            }
        }
        r
    }

    /// The number of queued messages, summed over the levels.
    pub fn get_pending_count(&self) -> (r: usize)
        requires
            self.wf(),
        ensures
            r == self.pending(),
    {
        proof {
            self.lemma_level_lens();
        }
        let _n = self.store.len();
        let a = seg_queue_len(&self.low);
        let b = seg_queue_len(&self.normal);
        let c = seg_queue_len(&self.high);
        let d = seg_queue_len(&self.critical);
        a + b + c + d
    }

    /// Each level has as many messages as keys, and together as many as the store.
    proof fn lemma_level_lens(&self)
        requires
            self.wf(),
        ensures
            forall|p: int| #[trigger] self.level(p).len() == self.level_keys(p).len(),
            self.pending() == self.store@.len(),
    {
    }

    /// Queues a message at the level of its priority, giving it the default timeout when it
    /// has none; a full queue refuses it.
    pub fn enqueue(&mut self, message: Message) -> (r: Result<(), EmbError>)
        requires
            old(self).wf(),
            old(self).has_key_room(),
        ensures
            final(self).wf(),
            final(self).cfg() == old(self).cfg(),
            final(self).counters() == old(self).counters(),
            final(self).ident() == old(self).ident(),
            old(self).pending() <= old(self).cfg().max_queue_size
                ==> final(self).pending() <= final(self).cfg().max_queue_size,
            old(self).pending() >= old(self).cfg().max_queue_size ==> {
                &&& r matches Err(EmbError::MessageQueue(e)) && e@ == "Queue is full"@
                &&& forall|p: int| #[trigger] final(self).level(p) == old(self).level(p)
                &&& final(self).has_key_room()
            },
            old(self).pending() < old(self).cfg().max_queue_size ==> {
                let p = priority_ordinal(message.priority) as int;
                &&& r is Ok
                &&& final(self).level(p) == old(self).level(p).push(
                    with_default_timeout(message, old(self).cfg().default_timeout_ms),
                )
                &&& forall|q: int| q != p ==> #[trigger] final(self).level(q) == old(self).level(q)
            },
    {
        let pending_count = self.get_pending_count();
        if pending_count >= self.config.max_queue_size {
            return Err(EmbError::MessageQueue(String::from_str("Queue is full")));
        }
        let mut message = message;
        if message.timeout_ms.is_none() {
            message.timeout_ms = Some(self.config.default_timeout_ms);
        }
        let key = self.next_key;
        let priority_index = message.priority.ordinal();
        let ghost old_self = *self;
        let ghost m = message;
        self.store.push((key, message));
        self.next_key = key + 1;
        if priority_index == 0 {
            seg_queue_push(&mut self.low, key);
        } else if priority_index == 1 {
            seg_queue_push(&mut self.normal, key);
        } else if priority_index == 2 {
            seg_queue_push(&mut self.high, key);
        } else {
            seg_queue_push(&mut self.critical, key);
        }
        proof {
            assert forall|q: int| q != priority_index as int implies #[trigger] self.level_keys(q)
                == old_self.level_keys(q) by {}
            lemma_enqueued(old_self, *self, key, m, priority_index as int);
        }
        Ok(())
    }

    /// The store position of a key the store holds.
    fn store_index(&self, k: u64) -> (r: usize)
        requires
            store_has(self.store@, k),
        ensures
            r < self.store@.len(),
            self.store@[r as int].0 == k,
    {
        let mut i: usize = 0;
        while i < self.store.len()
            invariant
                i <= self.store@.len(),
                store_has(self.store@, k),
                forall|j: int| 0 <= j < i ==> #[trigger] self.store@[j].0 != k,
            decreases self.store@.len() - i,
        {
            if self.store[i].0 == k {
                return i;
            }
            i = i + 1;
        }
        proof {
            let c = choose|j: int| 0 <= j < self.store@.len() && #[trigger] self.store@[j].0 == k;
            assert(self.store@[c].0 == k);
        }
        i
    }

    /// Takes the oldest message of the highest non-empty priority level.
    pub fn dequeue(&mut self) -> (r: Option<Message>)
        requires
            old(self).wf(),
        ensures
            final(self).wf(),
            final(self).cfg() == old(self).cfg(),
            final(self).counters() == old(self).counters(),
            final(self).ident() == old(self).ident(),
            final(self).has_key_room() == old(self).has_key_room(),
            old(self).pending() == 0 ==> r is None && forall|p: int| #[trigger] final(self).level(p)
                == old(self).level(p),
            old(self).pending() > 0 ==> {
                let t = old(self).top();
                &&& r == Some(old(self).level(t)[0])
                &&& final(self).level(t) == old(self).level(t).drop_first()
                &&& forall|q: int| q != t ==> #[trigger] final(self).level(q) == old(self).level(q)
            },
    {
        proof {
            self.lemma_level_lens();
        }
        let ghost a = *self;
        let level: u8;
        let key: u64;
        match seg_queue_pop(&mut self.critical) {
            Some(k) => {
                level = 3;
                key = k;
            },
            None => match seg_queue_pop(&mut self.high) {
                Some(k) => {
                    level = 2;
                    key = k;
                },
                None => match seg_queue_pop(&mut self.normal) {
                    Some(k) => {
                        level = 1;
                        key = k;
                    },
                    None => match seg_queue_pop(&mut self.low) {
                        Some(k) => {
                            level = 0;
                            key = k;
                        },
                        None => {
                            proof {
                                assert forall|p: int| #[trigger] self.level(p) == a.level(p) by {
                                    assert(self.level_keys(p) == a.level_keys(p));
                                }
                            }
                            return None;
                        },
                    },
                },
            },
        }
        proof {
            assert(level as int == a.top());
            assert forall|q: int| q != level as int implies #[trigger] self.level_keys(q)
                == a.level_keys(q) by {}
            assert(store_has(a.store@, key));
        }
        let j = self.store_index(key);
        let (_k, message) = self.store.remove(j);
        proof {
            lemma_dequeued(a, *self, level as int, key, j as int);
        }
        Some(message)
    }

    /// The queue's counters, with the number of messages now pending.
    pub fn get_stats(&self) -> (r: QueueStats)
        requires
            self.wf(),
        ensures
            r == (QueueStats { pending_count: self.pending() as usize, ..self.counters() }),
    {
        let pending_count = self.get_pending_count();
        QueueStats { pending_count, ..self.stats }
    }

    /// Counts a message that timed out before it was handled.
    pub fn record_timeout(&mut self)
        requires
            old(self).wf(),
            old(self).counters().timeout_count < u64::MAX,
        ensures
            final(self).wf(),
            final(self).counters() == (QueueStats {
                timeout_count: (old(self).counters().timeout_count + 1) as u64,
                ..old(self).counters()
            }),
            forall|p: int| #[trigger] final(self).level(p) == old(self).level(p),
            final(self).cfg() == old(self).cfg(),
            final(self).ident() == old(self).ident(),
            final(self).has_key_room() == old(self).has_key_room(),
    {
        self.stats.timeout_count = self.stats.timeout_count + 1;
    }

    /// Counts a handled message: one more processed, one more completed or failed, and its
    /// processing time, when it has one, added to the total.
    pub fn update_stats(&mut self, message: &Message, succeeded: bool)
        requires
            old(self).wf(),
            old(self).counters().total_processed < u64::MAX,
            succeeded ==> old(self).counters().completed_count < u64::MAX,
            !succeeded ==> old(self).counters().failed_count < u64::MAX,
            message.started_at_ms matches Some(s) && message.completed_at_ms matches Some(c)
                ==> i128::MIN <= old(self).counters().total_processing_time_ms + (c - s) <= i128::MAX,
        ensures
            final(self).wf(),
            final(self).counters() == (QueueStats {
                total_processed: (old(self).counters().total_processed + 1) as u64,
                completed_count: if succeeded {
                    (old(self).counters().completed_count + 1) as u64
                } else {
                    old(self).counters().completed_count
                },
                failed_count: if succeeded {
                    old(self).counters().failed_count
                } else {
                    (old(self).counters().failed_count + 1) as u64
                },
                total_processing_time_ms: match (message.started_at_ms, message.completed_at_ms) {
                    (Some(s), Some(c)) => (old(self).counters().total_processing_time_ms + (c
                        - s)) as i128,
                    _ => old(self).counters().total_processing_time_ms,
                },
                ..old(self).counters()
            }),
            forall|p: int| #[trigger] final(self).level(p) == old(self).level(p),
            final(self).cfg() == old(self).cfg(),
            final(self).ident() == old(self).ident(),
            final(self).has_key_room() == old(self).has_key_room(),
    {
        self.stats.total_processed = self.stats.total_processed + 1;
        if succeeded {
            self.stats.completed_count = self.stats.completed_count + 1;
        } else {
            self.stats.failed_count = self.stats.failed_count + 1;
        }
        match message.processing_duration_ms() {
            Some(d) => {
                self.stats.total_processing_time_ms = self.stats.total_processing_time_ms + d;
            },
            None => {},
        }
    }

    /// Settles a handled message at `now_ms`: marks it completed or failed, and queues a
    /// retry of a failed message that has retries left (one more retry counted, pending
    /// again). The retry is refused like any message when the queue is full.
    pub fn settle_at(&mut self, message: &mut Message, succeeded: bool, now_ms: i64) -> (r: Result<
        (),
        EmbError,
    >)
        requires
            old(self).wf(),
            old(self).has_key_room(),
            old(message).retry_count < u32::MAX,
        ensures
            final(self).wf(),
            final(self).cfg() == old(self).cfg(),
            final(self).counters() == old(self).counters(),
            final(self).ident() == old(self).ident(),
            *final(message) == (Message {
                status: if succeeded {
                    MessageStatus::Completed
                } else {
                    MessageStatus::Failed
                },
                completed_at_ms: Some(now_ms),
                ..*old(message)
            }),
            succeeded || !retryable(*final(message)) ==> r is Ok && (forall|p: int|
                #[trigger] final(self).level(p) == old(self).level(p)),
            !succeeded && retryable(*final(message)) && old(self).pending() < old(self).cfg().max_queue_size ==> {
                let retry = Message {
                    status: MessageStatus::Pending,
                    retry_count: (final(message).retry_count + 1) as u32,
                    ..*final(message)
                };
                let p = priority_ordinal(retry.priority) as int;
                &&& r is Ok
                &&& final(self).level(p) == old(self).level(p).push(
                    with_default_timeout(retry, old(self).cfg().default_timeout_ms),
                )
                &&& forall|q: int| q != p ==> #[trigger] final(self).level(q) == old(self).level(q)
            },
            !succeeded && retryable(*final(message)) && old(self).pending() >= old(self).cfg().max_queue_size
                ==> (r matches Err(EmbError::MessageQueue(e)) && e@ == "Queue is full"@),
    {
        if succeeded {
            message.mark_completed_at(now_ms);
            Ok(())
        } else {
            message.mark_failed_at(now_ms);
            if message.can_retry() {
                let mut retry_message = message.clone();
                retry_message.increment_retry();
                retry_message.status = MessageStatus::Pending;
                self.enqueue(retry_message)
            } else {
                Ok(())
            }
        }
    }

    /// The next step of a processing batch at `now_ms`: takes the next message (as `dequeue`);
    /// one that has run past its timeout is marked timed out and counted; any other is marked
    /// as processing from `now_ms` and handed out to be handled.
    pub fn take_next_at(&mut self, now_ms: i64) -> (r: BatchStep)
        requires
            old(self).wf(),
            old(self).counters().timeout_count < u64::MAX,
        ensures
            final(self).wf(),
            final(self).cfg() == old(self).cfg(),
            final(self).ident() == old(self).ident(),
            final(self).has_key_room() == old(self).has_key_room(),
            old(self).pending() == 0 ==> r is Empty && final(self).counters() == old(self).counters()
                && forall|p: int| #[trigger] final(self).level(p) == old(self).level(p),
            old(self).pending() > 0 ==> {
                let t = old(self).top();
                let m = old(self).level(t)[0];
                &&& final(self).level(t) == old(self).level(t).drop_first()
                &&& forall|q: int| q != t ==> #[trigger] final(self).level(q) == old(self).level(q)
                &&& timed_out_at(m.timeout_ms, m.started_at_ms, now_ms) ==> {
                    &&& r == BatchStep::TimedOut(Message {
                        status: MessageStatus::Timeout,
                        completed_at_ms: Some(now_ms),
                        ..m
                    })
                    &&& final(self).counters() == (QueueStats {
                        timeout_count: (old(self).counters().timeout_count + 1) as u64,
                        ..old(self).counters()
                    })
                }
                &&& !timed_out_at(m.timeout_ms, m.started_at_ms, now_ms) ==> {
                    &&& r == BatchStep::Ready(Message {
                        status: MessageStatus::Processing,
                        started_at_ms: Some(now_ms),
                        ..m
                    })
                    &&& final(self).counters() == old(self).counters()
                }
            },
    {
        match self.dequeue() {
            None => BatchStep::Empty,
            Some(mut message) => {
                if message.is_timed_out_at(now_ms) {
                    message.mark_timeout_at(now_ms);
                    self.record_timeout();
                    BatchStep::TimedOut(message)
                } else {
                    message.mark_processing_at(now_ms);
                    BatchStep::Ready(message)
                }
            },
        }
    }

    /// Whether a fresh key can still be drawn (what `enqueue` needs).
    pub fn key_room(&self) -> (r: bool)
        ensures
            r == self.has_key_room(),
    {
        self.next_key < u64::MAX
    }

    /// The queue's identifier.
    pub fn id(&self) -> (r: uuid::Uuid)
        ensures
            r == self.ident(),
    {
        self.id
    }

    /// The queue's configuration.
    pub fn config(&self) -> (r: &MessageQueueConfig)
        ensures
            *r == self.cfg(),
    {
        &self.config
    }
}

impl Default for MessageQueue {
    fn default() -> (r: Self)
        ensures
            r.wf(),
            r.has_key_room(),
            r.cfg().max_queue_size == 10000,
            r.cfg().default_timeout_ms == 5000,
            forall|p: int| 0 <= p < 4 ==> #[trigger] r.level(p).len() == 0,
    {
        MessageQueue::new(MessageQueueConfig::default())
    }
}

/// In a store with increasing keys, a key sits at one position only.
proof fn lemma_store_key_unique(s: Seq<(u64, Message)>, i: int, j: int)
    requires
        store_sorted(s),
        0 <= i < s.len(),
        0 <= j < s.len(),
        s[i].0 == s[j].0,
    ensures
        i == j,
{
    if i < j {
        assert(s[i].0 < s[j].0);
    } else if j < i {
        assert(s[j].0 < s[i].0);
    }
}

/// Appending an entry under a key above all others keeps the store sorted, finds the new
/// message under the new key, and changes no other lookup.
proof fn lemma_store_push(s: Seq<(u64, Message)>, nk: u64, m: Message)
    requires
        store_sorted(s),
        forall|j: int| 0 <= j < s.len() ==> #[trigger] s[j].0 < nk,
    ensures
        store_sorted(s.push((nk, m))),
        store_has(s.push((nk, m)), nk),
        store_lookup(s.push((nk, m)), nk) == m,
        forall|k: u64| #[trigger] store_has(s, k) ==> store_has(s.push((nk, m)), k)
            && store_lookup(s.push((nk, m)), k) == store_lookup(s, k) && k != nk,
{
    let t = s.push((nk, m));
    assert forall|i: int, j: int| 0 <= i < j < t.len() implies #[trigger] t[i].0 < #[trigger] t[j].0 by {
        if j < s.len() {
            assert(t[i] == s[i] && t[j] == s[j]);
        } else {
            assert(t[i] == s[i]);
        }
    }
    assert(t[s.len() as int].0 == nk);
    let c = choose|j: int| 0 <= j < t.len() && #[trigger] t[j].0 == nk;
    lemma_store_key_unique(t, c, s.len() as int);
    assert forall|k: u64| #[trigger] store_has(s, k) implies store_has(t, k) && store_lookup(t, k)
        == store_lookup(s, k) && k != nk by {
        let a = choose|j: int| 0 <= j < s.len() && #[trigger] s[j].0 == k;
        assert(t[a] == s[a]);
        let b = choose|j: int| 0 <= j < t.len() && #[trigger] t[j].0 == k;
        lemma_store_key_unique(t, a, b);
    }
}

/// Removing the entry at `j` keeps the store sorted and changes the lookup of no other key.
proof fn lemma_store_remove(s: Seq<(u64, Message)>, j: int)
    requires
        store_sorted(s),
        0 <= j < s.len(),
    ensures
        store_sorted(s.remove(j)),
        forall|k: u64| #[trigger] store_has(s, k) && k != s[j].0 ==> store_has(s.remove(j), k)
            && store_lookup(s.remove(j), k) == store_lookup(s, k),
        forall|k: u64| #[trigger] store_has(s.remove(j), k) ==> store_has(s, k) && k != s[j].0,
{
    let t = s.remove(j);
    assert forall|a: int, b: int| 0 <= a < b < t.len() implies #[trigger] t[a].0 < #[trigger] t[b].0 by {
        let a2 = if a < j { a } else { a + 1 };
        let b2 = if b < j { b } else { b + 1 };
        assert(t[a] == s[a2] && t[b] == s[b2]);
    }
    assert forall|k: u64| #[trigger] store_has(s, k) && k != s[j].0 implies store_has(t, k)
        && store_lookup(t, k) == store_lookup(s, k) by {
        let a = choose|i: int| 0 <= i < s.len() && #[trigger] s[i].0 == k;
        let a2 = if a < j { a } else { a - 1 };
        assert(a != j);
        assert(t[a2] == s[a]);
        let b = choose|i: int| 0 <= i < t.len() && #[trigger] t[i].0 == k;
        lemma_store_key_unique(t, a2, b);
    }
    assert forall|k: u64| #[trigger] store_has(t, k) implies store_has(s, k) && k != s[j].0 by {
        let b = choose|i: int| 0 <= i < t.len() && #[trigger] t[i].0 == k;
        let b2 = if b < j { b } else { b + 1 };
        assert(t[b] == s[b2]);
        assert(b2 != j);
        if k == s[j].0 {
            lemma_store_key_unique(s, b2, j);
        }
    }
}

/// After pushing `(key, m)` onto the store and `key` onto level `pi`, the queue is still
/// well formed and its levels are the old ones with `m` appended at `pi`.
proof fn lemma_enqueued(a: MessageQueue, b: MessageQueue, key: u64, m: Message, pi: int)
    requires
        a.wf(),
        key == a.next_key,
        b.next_key == key + 1,
        b.store@ == a.store@.push((key, m)),
        0 <= pi < 4,
        priority_ordinal(m.priority) == pi,
        b.level_keys(pi) == a.level_keys(pi).push(key),
        forall|q: int| q != pi ==> #[trigger] b.level_keys(q) == a.level_keys(q),
    ensures
        b.wf(),
        b.level(pi) == a.level(pi).push(m),
        forall|q: int| q != pi ==> #[trigger] b.level(q) == a.level(q),
{
    let s = a.store@;
    let t = b.store@;
    lemma_store_push(s, key, m);
    // Every key queued before is in the old store, hence below the new key.
    assert forall|p: int, i: int| 0 <= p < 4 && 0 <= i < a.level_keys(p).len() implies #[trigger] a.level_keys(p)[i] < key
        && store_has(t, a.level_keys(p)[i]) && store_lookup(t, a.level_keys(p)[i]) == store_lookup(s, a.level_keys(p)[i]) by {
        let k = a.level_keys(p)[i];
        assert(store_has(s, k));
        let c = choose|j: int| 0 <= j < s.len() && #[trigger] s[j].0 == k;
        assert(s[c].0 < a.next_key);
    }
    assert forall|p: int, i: int| 0 <= p < 4 && 0 <= i < b.level_keys(p).len() implies store_has(t, #[trigger] b.level_keys(p)[i])
        && priority_ordinal(store_lookup(t, b.level_keys(p)[i]).priority) == p by {
        if p == pi && i == a.level_keys(p).len() {
            assert(b.level_keys(p)[i] == key);
        } else {
            assert(b.level_keys(p)[i] == a.level_keys(p)[i]);
        }
    }
    assert forall|p: int, i: int, q: int, j: int|
        0 <= p < 4 && 0 <= q < 4 && 0 <= i < b.level_keys(p).len() && 0 <= j < b.level_keys(q).len()
            && (p != q || i != j) implies #[trigger] b.level_keys(p)[i] != #[trigger] b.level_keys(q)[j] by {
        let new_i = p == pi && i == a.level_keys(p).len();
        let new_j = q == pi && j == a.level_keys(q).len();
        if !new_i {
            assert(b.level_keys(p)[i] == a.level_keys(p)[i]);
        }
        if !new_j {
            assert(b.level_keys(q)[j] == a.level_keys(q)[j]);
        }
    }
    assert forall|j: int| 0 <= j < t.len() implies #[trigger] t[j].0 < b.next_key by {
        if j < s.len() {
            assert(t[j] == s[j]);
        }
    }
    assert(b.level(pi) =~= a.level(pi).push(m)) by {
        assert forall|i: int| 0 <= i < b.level(pi).len() implies b.level(pi)[i] == a.level(pi).push(m)[i] by {
            if i < a.level_keys(pi).len() {
                assert(b.level_keys(pi)[i] == a.level_keys(pi)[i]);
            }
        }
    }
    assert forall|q: int| q != pi implies #[trigger] b.level(q) == a.level(q) by {
        if 0 <= q < 4 {
            assert(b.level(q) =~= a.level(q)) by {
                assert forall|i: int| 0 <= i < b.level(q).len() implies b.level(q)[i] == a.level(q)[i] by {
                    assert(b.level_keys(q)[i] == a.level_keys(q)[i]);
                }
            }
        } else {
            assert(b.level(q) =~= a.level(q));
        }
    }
}

/// After popping key `k` from the front of level `t` and removing its entry at store
/// position `j`, the queue is still well formed, the removed message was the level's oldest,
/// and only that level lost its front.
proof fn lemma_dequeued(a: MessageQueue, b: MessageQueue, t: int, k: u64, j: int)
    requires
        a.wf(),
        0 <= t < 4,
        a.level_keys(t).len() > 0,
        k == a.level_keys(t)[0],
        b.level_keys(t) == a.level_keys(t).drop_first(),
        forall|q: int| q != t ==> #[trigger] b.level_keys(q) == a.level_keys(q),
        0 <= j < a.store@.len(),
        a.store@[j].0 == k,
        b.store@ == a.store@.remove(j),
        b.next_key == a.next_key,
    ensures
        b.wf(),
        a.store@[j].1 == a.level(t)[0],
        b.level(t) == a.level(t).drop_first(),
        forall|q: int| q != t ==> #[trigger] b.level(q) == a.level(q),
{
    let s = a.store@;
    lemma_store_remove(s, j);
    let c = choose|i: int| 0 <= i < s.len() && #[trigger] s[i].0 == k;
    lemma_store_key_unique(s, c, j);
    assert(a.level(t)[0] == store_lookup(s, k));
    // Every key still queued differs from the removed one.
    assert forall|p: int, i: int| 0 <= p < 4 && 0 <= i < b.level_keys(p).len() implies #[trigger] b.level_keys(p)[i] != k
        && store_has(b.store@, b.level_keys(p)[i]) && store_lookup(b.store@, b.level_keys(p)[i]) == store_lookup(s, b.level_keys(p)[i]) by {
        if p == t {
            assert(b.level_keys(p)[i] == a.level_keys(p)[i + 1]);
            assert(a.level_keys(p)[i + 1] != a.level_keys(t)[0]);
        } else {
            assert(b.level_keys(p)[i] == a.level_keys(p)[i]);
            assert(a.level_keys(p)[i] != a.level_keys(t)[0]);
        }
    }
    assert forall|p: int, i: int| 0 <= p < 4 && 0 <= i < b.level_keys(p).len() implies priority_ordinal(
        store_lookup(b.store@, #[trigger] b.level_keys(p)[i]).priority) == p by {
        if p == t {
            assert(b.level_keys(p)[i] == a.level_keys(p)[i + 1]);
        } else {
            assert(b.level_keys(p)[i] == a.level_keys(p)[i]);
        }
    }
    assert forall|p: int, i: int, q: int, l: int|
        0 <= p < 4 && 0 <= q < 4 && 0 <= i < b.level_keys(p).len() && 0 <= l < b.level_keys(q).len()
            && (p != q || i != l) implies #[trigger] b.level_keys(p)[i] != #[trigger] b.level_keys(q)[l] by {
        let i2 = if p == t { i + 1 } else { i };
        let l2 = if q == t { l + 1 } else { l };
        assert(b.level_keys(p)[i] == a.level_keys(p)[i2]);
        assert(b.level_keys(q)[l] == a.level_keys(q)[l2]);
    }
    assert forall|i: int| 0 <= i < b.store@.len() implies #[trigger] b.store@[i].0 < b.next_key by {
        let i2 = if i < j { i } else { i + 1 };
        assert(b.store@[i] == s[i2]);
    }
    assert(b.level(t) =~= a.level(t).drop_first()) by {
        assert forall|i: int| 0 <= i < b.level(t).len() implies b.level(t)[i] == a.level(t).drop_first()[i] by {
            assert(b.level_keys(t)[i] == a.level_keys(t)[i + 1]);
        }
    }
    assert forall|q: int| q != t implies #[trigger] b.level(q) == a.level(q) by {
        assert(b.level(q) =~= a.level(q)) by {
            assert forall|i: int| 0 <= i < b.level(q).len() implies b.level(q)[i] == a.level(q)[i] by {
                assert(b.level_keys(q)[i] == a.level_keys(q)[i]);
            }
        }
    }
}

/// The message a dequeue takes has a priority at least as high as every message pending.
pub proof fn lemma_dequeue_takes_highest_priority(q: MessageQueue)
    requires
        q.wf(),
        q.pending() > 0,
    ensures
        q.level(q.top()).len() > 0,
        forall|p: int, i: int|
            0 <= p < 4 && 0 <= i < q.level(p).len() ==> priority_ordinal(
                (#[trigger] q.level(p)[i]).priority,
            ) <= priority_ordinal(q.level(q.top())[0].priority),
{
    assert forall|p: int, i: int| 0 <= p < 4 && 0 <= i < q.level(p).len() implies #[trigger] q.level(
        p,
    )[i] == store_lookup(q.store@, q.level_keys(p)[i]) && priority_ordinal(q.level(p)[i].priority)
        == p by {}
    let t = q.top();
    assert(priority_ordinal(q.level(t)[0].priority) == t);
    assert forall|p: int, i: int| 0 <= p < 4 && 0 <= i < q.level(p).len() implies priority_ordinal(
        (#[trigger] q.level(p)[i]).priority,
    ) <= priority_ordinal(q.level(q.top())[0].priority) by {
        assert(priority_ordinal(q.level(p)[i].priority) == p);
    }
}

/// A message queued into an empty queue is the next one taken, with the queue's default
/// timeout when it carried none.
pub proof fn lemma_enqueue_then_dequeue(q0: MessageQueue, q1: MessageQueue, m: Message)
    requires
        q0.wf(),
        q0.pending() == 0,
        q1.level(priority_ordinal(m.priority) as int) == q0.level(
            priority_ordinal(m.priority) as int,
        ).push(with_default_timeout(m, q0.cfg().default_timeout_ms)),
        forall|p: int| p != priority_ordinal(m.priority) ==> #[trigger] q1.level(p) == q0.level(p),
    ensures
        q1.pending() == 1,
        q1.level(q1.top())[0] == with_default_timeout(m, q0.cfg().default_timeout_ms),
{
    q0.lemma_level_lens();
    let pm = priority_ordinal(m.priority) as int;
    assert(q1.level(0).len() + q1.level(1).len() + q1.level(2).len() + q1.level(3).len() == 1) by {
        assert(q0.level(0).len() == 0 && q0.level(1).len() == 0 && q0.level(2).len() == 0
            && q0.level(3).len() == 0);
    }
    assert(q1.top() == pm) by {
        assert(q0.level(0).len() == 0 && q0.level(1).len() == 0 && q0.level(2).len() == 0
            && q0.level(3).len() == 0);
    }
}

} // verus!
