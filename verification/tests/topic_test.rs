use ydb::topic::{
    initial_read_request, initial_write_request, AlterConsumer, Consumer, ConsumerStats, Duration,
    PartitioningSettings, RawAlterConsumer, RawAlterPartitioningSettings, RawConsumer,
    RawInitRequest, RawPartitioningSettings, RawSupportedCodecs, StreamReadClientMessage,
    StreamWriteClientMessage, Timestamp, TopicReadSettings, WriteInitRequest,
    AlterPartitioningSettings,
};

fn wire_consumer() -> Consumer {
    Consumer {
        name: "c1".to_string(),
        important: true,
        read_from: Some(Timestamp { seconds: 10, nanos: 5 }),
        supported_codecs: None,
        attributes: vec![("k".to_string(), "v".to_string())],
        consumer_stats: Some(ConsumerStats {
            min_partitions_last_read_time: Some(Timestamp { seconds: 1, nanos: 0 }),
            max_read_time_lag: Some(Duration { seconds: 2, nanos: 0 }),
            max_write_time_lag: Some(Duration { seconds: 3, nanos: 0 }),
            max_committed_time_lag: Some(Duration { seconds: 4, nanos: 0 }),
            bytes_read: None,
        }),
    }
}

#[test]
fn test_consumer_to_raw_defaults_codecs_and_drops_committed_lag() {
    let raw = RawConsumer::from(wire_consumer());
    assert_eq!(raw.name, "c1");
    assert!(raw.important);
    assert_eq!(raw.supported_codecs, RawSupportedCodecs::new());
    let stats = raw.consumer_stats.unwrap();
    assert_eq!(stats.max_read_time_lag, Some(Duration { seconds: 2, nanos: 0 }));
    // The committed-time lag is not taken over from the wire.
    assert_eq!(stats.max_committed_time_lag, None);
}

#[test]
fn test_raw_consumer_to_wire_sends_no_stats() {
    let raw = RawConsumer::from(wire_consumer());
    let back = Consumer::from(raw);
    assert_eq!(back.name, "c1");
    assert!(back.supported_codecs.is_some());
    assert!(back.consumer_stats.is_none());
}

#[test]
fn test_alter_consumer_maps_field_for_field() {
    let raw = RawAlterConsumer {
        name: "c2".to_string(),
        set_important: Some(false),
        set_read_from: None,
        set_supported_codecs: Some(RawSupportedCodecs { codecs: vec![1] }),
        alter_attributes: vec![],
    };
    let wire = AlterConsumer::from(raw);
    assert_eq!(wire.name, "c2");
    assert_eq!(wire.set_important, Some(false));
    assert_eq!(wire.set_supported_codecs, Some(RawSupportedCodecs { codecs: vec![1] }));
}

#[test]
fn test_partitioning_settings_limit_comes_from_max_active() {
    let raw = RawPartitioningSettings::from(PartitioningSettings {
        min_active_partitions: 2,
        max_active_partitions: 8,
    });
    assert_eq!(raw.min_active_partitions, 2);
    assert_eq!(raw.partition_count_limit, 8);

    let alter = RawAlterPartitioningSettings::from(AlterPartitioningSettings {
        set_min_active_partitions: 1,
        set_max_active_partitions: 4,
    });
    assert_eq!(alter.set_min_active_partitions, 1);
    assert_eq!(alter.set_partition_count_limit, 4);
}

#[test]
fn test_streams_open_with_their_init_request() {
    let init = RawInitRequest {
        consumer: "c".to_string(),
        topics_read_settings: vec![TopicReadSettings { path: "/t".to_string() }],
    };
    let first = initial_read_request(init);
    match first.client_message {
        Some(StreamReadClientMessage::InitRequest(i)) => assert_eq!(i.consumer, "c"),
        None => panic!("the read stream must open with its init request"),
    }

    let init = WriteInitRequest { path: "/t".to_string(), producer_id: "p".to_string() };
    let first = initial_write_request(init);
    match first.client_message {
        Some(StreamWriteClientMessage::InitRequest(i)) => assert_eq!(i.producer_id, "p"),
        None => panic!("the write stream must open with its init request"),
    }
}
