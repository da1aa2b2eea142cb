use emb_public::common::error::EmbError;
use emb_public::message_queue::queue::{BatchStep, MessageQueue};
use emb_public::message_queue::types::{
    Message, MessagePriority, MessageQueueConfig, MessageStatus, MessageType,
};

fn payload() -> serde_json::Value {
    serde_json::Value::String("test".to_string())
}

fn msg(source: &str, priority: MessagePriority) -> Message {
    Message::new(MessageType::SystemCommand, source.to_string(), payload()).with_priority(priority)
}

#[test]
fn test_message_creation() {
    let message = Message::new(MessageType::SystemCommand, "test".to_string(), payload())
        .with_priority(MessagePriority::High);

    assert_eq!(message.message_type, MessageType::SystemCommand);
    assert_eq!(message.priority, MessagePriority::High);
    assert_eq!(message.status, MessageStatus::Pending);
}

#[test]
fn test_message_queue() {
    let mut queue = MessageQueue::default();
    let message = Message::new(MessageType::SystemCommand, "test".to_string(), payload());
    queue.enqueue(message).unwrap();
    let stats = queue.get_stats();
    assert_eq!(stats.pending_count, 1);
}

#[test]
fn highest_priority_first_and_fifo_within_a_priority() {
    let mut queue = MessageQueue::default();
    queue.enqueue(msg("low", MessagePriority::Low)).unwrap();
    queue.enqueue(msg("normal-1", MessagePriority::Normal)).unwrap();
    queue.enqueue(msg("critical", MessagePriority::Critical)).unwrap();
    queue.enqueue(msg("normal-2", MessagePriority::Normal)).unwrap();
    queue.enqueue(msg("high", MessagePriority::High)).unwrap();
    assert_eq!(queue.get_pending_count(), 5);

    let order: Vec<String> = std::iter::from_fn(|| queue.dequeue()).map(|m| m.source).collect();
    assert_eq!(order, vec!["critical", "high", "normal-1", "normal-2", "low"]);
    assert_eq!(queue.get_pending_count(), 0);
    assert!(queue.dequeue().is_none());
}

#[test]
fn full_queue_refuses_messages() {
    let config = MessageQueueConfig { max_queue_size: 2, ..MessageQueueConfig::default() };
    let mut queue = MessageQueue::new(config);
    queue.enqueue(msg("a", MessagePriority::Low)).unwrap();
    queue.enqueue(msg("b", MessagePriority::Low)).unwrap();
    match queue.enqueue(msg("c", MessagePriority::Critical)) {
        Err(EmbError::MessageQueue(e)) => assert_eq!(e, "Queue is full"),
        other => panic!("unexpected: {:?}", other),
    }
    assert_eq!(queue.get_pending_count(), 2);
    assert_eq!(queue.dequeue().unwrap().source, "a");
}

#[test]
fn enqueue_applies_the_default_timeout() {
    let mut queue = MessageQueue::default();
    queue.enqueue(msg("no timeout", MessagePriority::Normal)).unwrap();
    queue.enqueue(msg("own timeout", MessagePriority::Normal).with_timeout(7)).unwrap();
    assert_eq!(queue.dequeue().unwrap().timeout_ms, Some(5000));
    assert_eq!(queue.dequeue().unwrap().timeout_ms, Some(7));
}

#[test]
fn failed_messages_are_retried_until_the_limit() {
    let mut queue = MessageQueue::default();
    let mut m = msg("job", MessagePriority::High).with_max_retries(1);
    m.mark_processing_at(100);
    queue.settle_at(&mut m, false, 150).unwrap();
    assert_eq!(m.status, MessageStatus::Failed);
    assert_eq!(m.completed_at_ms, Some(150));
    let mut retry = queue.dequeue().unwrap();
    assert_eq!(retry.retry_count, 1);
    assert_eq!(retry.status, MessageStatus::Pending);
    queue.settle_at(&mut retry, false, 200).unwrap();
    assert!(queue.dequeue().is_none());

    let mut ok = msg("ok", MessagePriority::Low);
    queue.settle_at(&mut ok, true, 300).unwrap();
    assert_eq!(ok.status, MessageStatus::Completed);
    assert!(queue.dequeue().is_none());
}

#[test]
fn statistics_count_outcomes() {
    let mut queue = MessageQueue::default();
    let mut m = msg("a", MessagePriority::Normal);
    assert_eq!(m.processing_duration(), None);
    m.mark_processing_at(1000);
    assert_eq!(m.processing_duration(), None);
    m.mark_completed_at(1250);
    assert_eq!(m.processing_duration(), Some(250));
    queue.update_stats(&m, true);
    let f = msg("b", MessagePriority::Normal);
    queue.update_stats(&f, false);
    queue.record_timeout();
    let stats = queue.get_stats();
    assert_eq!(stats.total_processed, 2);
    assert_eq!(stats.completed_count, 1);
    assert_eq!(stats.failed_count, 1);
    assert_eq!(stats.timeout_count, 1);
    assert_eq!(stats.total_processing_time_ms, 250);
}

#[test]
fn message_timeouts_and_retries() {
    let mut m = msg("t", MessagePriority::Normal).with_timeout(100);
    assert!(!m.is_timed_out_at(1_000_000));
    m.mark_processing_at(1000);
    assert!(!m.is_timed_out_at(1100));
    assert!(m.is_timed_out_at(1101));
    assert!(!m.can_retry());
    m.mark_timeout_at(1200);
    assert!(m.can_retry());
    assert_eq!(m.processing_duration_ms(), Some(200));
    assert_eq!(MessagePriority::Critical.ordinal(), 3);
    assert_eq!(MessagePriority::default(), MessagePriority::Normal);
}

#[test]
fn processing_step_marks_and_counts() {
    let mut queue = MessageQueue::default();
    assert!(matches!(queue.take_next_at(0), BatchStep::Empty));
    let mut late = msg("late", MessagePriority::High).with_timeout(10);
    late.mark_processing_at(100);
    queue.enqueue(late).unwrap();
    queue.enqueue(msg("fresh", MessagePriority::Normal)).unwrap();
    match queue.take_next_at(200) {
        BatchStep::TimedOut(m) => {
            assert_eq!(m.source, "late");
            assert_eq!(m.status, MessageStatus::Timeout);
        }
        other => panic!("unexpected {:?}", other),
    }
    assert_eq!(queue.get_stats().timeout_count, 1);
    match queue.take_next_at(300) {
        BatchStep::Ready(m) => {
            assert_eq!(m.source, "fresh");
            assert_eq!(m.status, MessageStatus::Processing);
            assert_eq!(m.started_at_ms, Some(300));
        }
        other => panic!("unexpected {:?}", other),
    }
    assert_eq!(queue.get_pending_count(), 0);
}

#[test]
fn retries_are_prepared_until_they_run_out() {
    let mut m = msg("retry", MessagePriority::Normal).with_max_retries(1);
    m.mark_failed_at(10);
    assert!(m.prepare_retry_at(20));
    assert_eq!(m.retry_count, 1);
    assert_eq!(m.status, MessageStatus::Pending);
    assert_eq!(m.completed_at_ms, None);
    m.mark_failed_at(30);
    assert!(!m.prepare_retry_at(40));
    assert_eq!(m.status, MessageStatus::Failed);
    assert_eq!(m.completed_at_ms, Some(40));
}
