use emb_public::common::error::EmbError;
use emb_public::dds::manager::{
    apply_filter_at, is_qos_compatible, DdsDomain, DdsMessage, Publisher, QosPolicy, Subscription,
    SubscriptionFilter, TopicConfig,
};

#[test]
fn test_qos_policy_default() {
    let qos = QosPolicy::default();
    assert_eq!(qos, QosPolicy::BestEffort);
}

#[test]
fn test_topic_config_builder() {
    let config = TopicConfig::new("test_topic", "TestType")
        .with_qos(QosPolicy::Reliable)
        .with_partition("partition1")
        .with_ttl(5000);

    assert_eq!(config.name, "test_topic");
    assert_eq!(config.data_type, "TestType");
    assert_eq!(config.qos, QosPolicy::Reliable);
    assert_eq!(config.partition_key, Some("partition1".to_string()));
    assert_eq!(config.ttl_ms, Some(5000));
}

#[test]
fn test_dds_message_creation() {
    let publisher_id = uuid::Uuid::new_v4();
    let message = DdsMessage::new(publisher_id, "test_topic", vec![1, 2, 3])
        .with_priority(5)
        .with_sequence(10)
        .with_ttl(1000)
        .with_metadata("key", "value");

    assert_eq!(message.publisher_id, publisher_id);
    assert_eq!(message.topic, "test_topic");
    assert_eq!(message.priority, 5);
    assert_eq!(message.sequence_number, 10);
    assert_eq!(message.ttl_ms, Some(1000));
    assert_eq!(message.metadata.get("key"), Some(&"value".to_string()));
}

#[test]
fn test_subscription_creation() {
    let subscriber_id = uuid::Uuid::new_v4();
    let filter = SubscriptionFilter::new("priority > 5").with_parameter("param", "value");

    let subscription = Subscription::new("test_topic", subscriber_id, Some(filter), QosPolicy::Reliable);

    assert_eq!(subscription.topic, "test_topic");
    assert_eq!(subscription.subscriber_id, subscriber_id);
    assert_eq!(subscription.qos, QosPolicy::Reliable);
    assert!(subscription.filter.is_some());
}

#[test]
fn test_publisher_creation() {
    let publisher = Publisher::new("test_topic", QosPolicy::Reliable);

    assert_eq!(publisher.topic, "test_topic");
    assert_eq!(publisher.qos, QosPolicy::Reliable);
    assert_eq!(publisher.get_stats().messages_sent, 0);
}

#[test]
fn message_expiry_follows_the_time_to_live() {
    let message = DdsMessage::new(uuid::Uuid::new_v4(), "test", vec![]).with_ttl(10);
    let t = message.timestamp_ms;
    assert!(!message.is_expired_at(t));
    assert!(!message.is_expired_at(t + 10));
    assert!(message.is_expired_at(t + 11));
    let forever = DdsMessage::new(uuid::Uuid::new_v4(), "test", vec![]);
    assert!(!forever.is_expired_at(u64::MAX));
    assert_eq!(forever.age_ms_at(forever.timestamp_ms + 15), 15);
    assert_eq!(forever.age_ms_at(0), 0);
}

#[test]
fn metadata_insert_replaces_the_earlier_value() {
    let message = DdsMessage::new(uuid::Uuid::new_v4(), "t", vec![])
        .with_metadata("a", "1")
        .with_metadata("b", "2")
        .with_metadata("a", "3");
    assert_eq!(message.metadata.len(), 2);
    assert_eq!(message.metadata.get("a"), Some(&"3".to_string()));
    assert_eq!(message.metadata.get("b"), Some(&"2".to_string()));
    assert_eq!(message.metadata.get("c"), None);
}

#[test]
fn qos_compatibility_rules() {
    assert!(is_qos_compatible(9, QosPolicy::Reliable));
    assert!(is_qos_compatible(5, QosPolicy::Reliable));
    assert!(!is_qos_compatible(4, QosPolicy::Reliable));
    assert!(is_qos_compatible(0, QosPolicy::BestEffort));
    assert!(is_qos_compatible(0, QosPolicy::Persistent));
}

#[test]
fn content_filters() {
    let m = DdsMessage::new(uuid::Uuid::new_v4(), "t", vec![]).with_priority(6);
    let low = DdsMessage::new(uuid::Uuid::new_v4(), "t", vec![]).with_priority(5);
    let now = m.timestamp_ms;
    assert!(apply_filter_at(&m, "", now));
    assert!(apply_filter_at(&m, "where priority > 5", now));
    assert!(!apply_filter_at(&low, "priority > 5", now));
    assert!(apply_filter_at(&m, "age < 1000", now + 999));
    assert!(!apply_filter_at(&m, "age < 1000", now + 1000));
    assert!(apply_filter_at(&low, "anything else", now));
}

#[test]
fn publishing_numbers_messages_in_sequence() {
    let mut p = Publisher::new("topic", QosPolicy::BestEffort);
    let a = p.publish(vec![1], 3);
    let b = p.publish(vec![2], 9);
    assert_eq!(a.sequence_number, 1);
    assert_eq!(b.sequence_number, 2);
    assert_eq!(b.priority, 9);
    assert_eq!(b.data, vec![2]);
    assert_eq!(b.topic, "topic");
    assert_eq!(p.messages_sent, 2);
}

#[test]
fn domain_routes_to_matching_subscriptions() {
    let mut domain = DdsDomain::new(0);
    let status = TopicConfig::new("status", "Status").with_qos(QosPolicy::Reliable);
    let other = TopicConfig::new("other", "Other");
    domain.create_publisher(&status);
    domain.create_publisher(&status);
    domain.create_publisher(&other);
    let reliable = domain.create_subscription(&status, uuid::Uuid::new_v4(), None);
    let filtered = domain.create_subscription(&status, uuid::Uuid::new_v4(), Some(SubscriptionFilter::new("priority > 5")));
    let elsewhere = domain.create_subscription(&other, uuid::Uuid::new_v4(), None);

    // Priority 6: reliable subscriptions take it, the filter passes it.
    domain.publish_at("status", &vec![1, 2, 3], 6, 1_000).unwrap();
    let subs = domain.subscriptions();
    let find = |id: uuid::Uuid| subs.iter().find(|s| s.subscription_id == id).unwrap();
    assert_eq!(find(reliable).messages_received, 2);
    assert_eq!(find(filtered).messages_received, 2);
    assert_eq!(find(elsewhere).messages_received, 0);
    assert_eq!(find(reliable).last_message_ms, Some(1_000));

    // Priority 4 is too low for a reliable subscription.
    domain.publish_at("status", &vec![9], 4, 2_000).unwrap();
    let subs = domain.subscriptions();
    let find = |id: uuid::Uuid| subs.iter().find(|s| s.subscription_id == id).unwrap();
    assert_eq!(find(reliable).messages_received, 2);

    let stats = domain.get_stats_at(0);
    assert_eq!(stats.total_publishers, 3);
    assert_eq!(stats.total_subscriptions, 3);
    assert_eq!(stats.total_topics, 2);
    assert_eq!(stats.messages_published, 2);
    assert_eq!(domain.publishers()[0].messages_sent, 2);
    assert_eq!(domain.publishers()[2].messages_sent, 0);
}

#[test]
fn publishing_without_a_publisher_is_refused() {
    let mut domain = DdsDomain::new(3);
    match domain.publish_at("nowhere", &vec![], 5, 0) {
        Err(EmbError::Communication(m)) => assert_eq!(m, "No publishers for topic: nowhere"),
        other => panic!("unexpected {:?}", other),
    }
    assert_eq!(domain.get_stats_at(0).messages_published, 0);
}

#[test]
fn test_message_expiration() {
    let message = DdsMessage::new(uuid::Uuid::new_v4(), "test", vec![]).with_ttl(10);
    let created = message.timestamp_ms;
    assert!(!message.is_expired_at(created));
    assert!(message.is_expired_at(created + 15));
}

#[test]
fn test_dds_domain_creation() {
    let mut domain = DdsDomain::new(1);
    assert_eq!(domain.domain_id(), 1);
    let topic_config = TopicConfig::new("test", "TestType");
    let publisher = domain.create_publisher(&topic_config);
    assert_eq!(publisher.topic, "test");
}

#[test]
fn test_message_routing() {
    let mut domain = DdsDomain::new(0);
    let topic_config = TopicConfig::new("test", "TestType");
    let _publisher = domain.create_publisher(&topic_config);
    let test_data = "test_message";
    let serialized = serde_json::to_vec(&test_data).unwrap();
    domain.publish_at("test", &serialized, 5, 0).unwrap();
    let stats = domain.get_stats_at(0);
    assert_eq!(stats.messages_published, 1);
}
