//! Topic-service value conversions between wire shapes and the client's
//! own, and the initial client messages of the bidirectional read and
//! write streams.

use vstd::prelude::*;

verus! {

/// A point in time on the wire: seconds and nanoseconds since the epoch.
#[derive(Clone, Copy, Debug, PartialEq, Eq, Structural)]
pub struct Timestamp {
    pub seconds: i64,
    pub nanos: u32,
}

/// A span of time on the wire: seconds and nanoseconds.
#[derive(Clone, Copy, Debug, PartialEq, Eq, Structural)]
pub struct Duration {
    pub seconds: i64,
    pub nanos: u32,
}

/// Read and write rates over the trailing minute, hour and day.
#[derive(Clone, Copy, Debug, PartialEq, Eq, Structural)]
pub struct RawMultipleWindowsStat {
    pub per_minute: i64,
    pub per_hour: i64,
    pub per_day: i64,
}

/// The codecs a consumer supports, as wire numbers.
#[derive(Clone, Debug, PartialEq)]
pub struct RawSupportedCodecs {
    pub codecs: Vec<i32>,
}

impl RawSupportedCodecs {
    /// No codecs: the default when the wire carries none.
    pub fn new() -> (r: Self)
        ensures
            r.codecs@ == Seq::<i32>::empty(),
    {
        Self { codecs: Vec::new() }
    }
}

/// A consumer as the topic service describes one on the wire.
#[derive(Clone, Debug, PartialEq)]
pub struct Consumer {
    pub name: String,
    pub important: bool,
    pub read_from: Option<Timestamp>,
    pub supported_codecs: Option<RawSupportedCodecs>,
    pub attributes: Vec<(String, String)>,
    pub consumer_stats: Option<ConsumerStats>,
}

/// Consumer statistics as the wire carries them.
#[derive(Clone, Debug, PartialEq)]
pub struct ConsumerStats {
    pub min_partitions_last_read_time: Option<Timestamp>,
    pub max_read_time_lag: Option<Duration>,
    pub max_write_time_lag: Option<Duration>,
    pub max_committed_time_lag: Option<Duration>,
    pub bytes_read: Option<RawMultipleWindowsStat>,
}

/// A consumer in the client's own shape.
#[derive(Clone, Debug, PartialEq)]
pub struct RawConsumer {
    pub name: String,
    pub important: bool,
    pub read_from: Option<Timestamp>,
    pub supported_codecs: RawSupportedCodecs,
    pub attributes: Vec<(String, String)>,
    pub consumer_stats: Option<RawConsumerStats>,
}

/// Consumer statistics in the client's own shape. The committed-time
/// lag is not taken over from the wire.
#[derive(Clone, Debug, PartialEq)]
pub struct RawConsumerStats {
    pub min_partitions_last_read_time: Option<Timestamp>,
    pub max_read_time_lag: Option<Duration>,
    pub max_write_time_lag: Option<Duration>,
    pub max_committed_time_lag: Option<Duration>,
    pub bytes_read: Option<RawMultipleWindowsStat>,
}

impl RawConsumer {
    /// A wire consumer in the client's shape: absent codecs become the
    /// empty set, and of the statistics everything but the
    /// committed-time lag is taken over.
    pub fn from(value: Consumer) -> (r: RawConsumer)
        ensures
            r.name == value.name,
            r.important == value.important,
            r.read_from == value.read_from,
            value.supported_codecs matches Some(c) ==> r.supported_codecs == c,
            value.supported_codecs is None ==> r.supported_codecs.codecs@ == Seq::<i32>::empty(),
            r.attributes == value.attributes,
            match value.consumer_stats {
                Some(stats) => r.consumer_stats == Some(
                    RawConsumerStats {
                        min_partitions_last_read_time: stats.min_partitions_last_read_time,
                        max_read_time_lag: stats.max_read_time_lag,
                        max_write_time_lag: stats.max_write_time_lag,
                        max_committed_time_lag: None,
                        bytes_read: stats.bytes_read,
                    },
                ),
                None => r.consumer_stats is None,
            },
    {
        RawConsumer {
            name: value.name,
            important: value.important,
            read_from: value.read_from,
            supported_codecs: match value.supported_codecs {
                Some(c) => c,
                None => RawSupportedCodecs::new(),
            },
            attributes: value.attributes,
            consumer_stats: match value.consumer_stats {
                Some(stats) => Some(
                    RawConsumerStats {
                        min_partitions_last_read_time: stats.min_partitions_last_read_time,
                        max_read_time_lag: stats.max_read_time_lag,
                        max_write_time_lag: stats.max_write_time_lag,
                        max_committed_time_lag: None,
                        bytes_read: stats.bytes_read,
                    },
                ),
                None => None,
            },
        }
    }
}

impl Consumer {
    /// A client-shape consumer back on the wire; statistics are not
    /// sent.
    pub fn from(value: RawConsumer) -> (r: Consumer)
        ensures
            r.name == value.name,
            r.important == value.important,
            r.read_from == value.read_from,
            r.supported_codecs == Some(value.supported_codecs),
            r.attributes == value.attributes,
            r.consumer_stats is None,
    {
        Consumer {
            name: value.name,
            important: value.important,
            read_from: value.read_from,
            supported_codecs: Some(value.supported_codecs),
            attributes: value.attributes,
            consumer_stats: None,
        }
    }
}

/// A consumer alteration in the client's shape.
#[derive(Clone, Debug, PartialEq)]
pub struct RawAlterConsumer {
    pub name: String,
    pub set_important: Option<bool>,
    pub set_read_from: Option<Timestamp>,
    pub set_supported_codecs: Option<RawSupportedCodecs>,
    pub alter_attributes: Vec<(String, String)>,
}

/// A consumer alteration as the wire carries it.
#[derive(Clone, Debug, PartialEq)]
pub struct AlterConsumer {
    pub name: String,
    pub set_important: Option<bool>,
    pub set_read_from: Option<Timestamp>,
    pub set_supported_codecs: Option<RawSupportedCodecs>,
    pub alter_attributes: Vec<(String, String)>,
}

impl AlterConsumer {
    /// A client-shape alteration on the wire, field for field.
    pub fn from(value: RawAlterConsumer) -> (r: AlterConsumer)
        ensures
            r.name == value.name,
            r.set_important == value.set_important,
            r.set_read_from == value.set_read_from,
            r.set_supported_codecs == value.set_supported_codecs,
            r.alter_attributes == value.alter_attributes,
    {
        AlterConsumer {
            name: value.name,
            set_important: value.set_important,
            set_read_from: value.set_read_from,
            set_supported_codecs: value.set_supported_codecs,
            alter_attributes: value.alter_attributes,
        }
    }
}

/// Partitioning settings as the wire carries them.
#[derive(Clone, Copy, Debug, PartialEq, Eq, Structural)]
pub struct PartitioningSettings {
    pub min_active_partitions: i64,
    pub max_active_partitions: i64,
}

/// Partitioning settings in the client's shape: the wire's maximum
/// active partitions stands for the partition count limit.
#[derive(Clone, Copy, Debug, PartialEq, Eq, Structural)]
pub struct RawPartitioningSettings {
    pub min_active_partitions: i64,
    pub partition_count_limit: i64,
}

impl RawPartitioningSettings {
    pub fn from(value: PartitioningSettings) -> (r: RawPartitioningSettings)
        ensures
            r.min_active_partitions == value.min_active_partitions,
            r.partition_count_limit == value.max_active_partitions,
    {
        RawPartitioningSettings {
            min_active_partitions: value.min_active_partitions,
            partition_count_limit: value.max_active_partitions,
        }
    }
}

/// A partitioning alteration as the wire carries it.
#[derive(Clone, Copy, Debug, PartialEq, Eq, Structural)]
pub struct AlterPartitioningSettings {
    pub set_min_active_partitions: i64,
    pub set_max_active_partitions: i64,
}

/// A partitioning alteration in the client's shape.
#[derive(Clone, Copy, Debug, PartialEq, Eq, Structural)]
pub struct RawAlterPartitioningSettings {
    pub set_min_active_partitions: i64,
    pub set_partition_count_limit: i64,
}

impl RawAlterPartitioningSettings {
    pub fn from(value: AlterPartitioningSettings) -> (r: RawAlterPartitioningSettings)
        ensures
            r.set_min_active_partitions == value.set_min_active_partitions,
            r.set_partition_count_limit == value.set_max_active_partitions,
    {
        RawAlterPartitioningSettings {
            set_min_active_partitions: value.set_min_active_partitions,
            set_partition_count_limit: value.set_max_active_partitions,
        }
    }
}

/// The topic-service client: the transport channel its calls go out on.
/// The unary calls themselves go through generated protocol bindings
/// consumed as a fixed interface.
pub struct RawTopicClient {
    service: tonic::transport::Channel,
}

impl RawTopicClient {
    pub closed spec fn spec_service(&self) -> tonic::transport::Channel {
        self.service
    }

    pub fn new(service: tonic::transport::Channel) -> (r: Self)
        ensures
            r.spec_service() == service,
    {
        Self { service }
    }

    /// A handle to the client's transport channel.
    pub fn get_grpc_service(&self) -> (r: tonic::transport::Channel)
        ensures
            r == self.spec_service(),
    {
        crate::connection_pool::channel_clone(&self.service)
    }
}

/// What one topic of a read stream is read with.
#[derive(Clone, Debug, PartialEq)]
pub struct TopicReadSettings {
    pub path: String,
}

/// The first request of a read stream: the consumer and its topics.
#[derive(Clone, Debug, PartialEq)]
pub struct RawInitRequest {
    pub consumer: String,
    pub topics_read_settings: Vec<TopicReadSettings>,
}

/// The client messages of the topic read stream.
#[derive(Clone, Debug, PartialEq)]
pub enum StreamReadClientMessage {
    InitRequest(RawInitRequest),
}

/// One client-to-server frame of the topic read stream.
#[derive(Clone, Debug, PartialEq)]
pub struct StreamReadFromClient {
    pub client_message: Option<StreamReadClientMessage>,
}

/// The frame a read stream must open with: the init request, before any
/// other message is sent.
pub fn initial_read_request(init: RawInitRequest) -> (r: StreamReadFromClient)
    ensures
        r.client_message == Some(StreamReadClientMessage::InitRequest(init)),
{
    StreamReadFromClient { client_message: Some(StreamReadClientMessage::InitRequest(init)) }
}

/// The first request of a write stream: the topic path and producer.
#[derive(Clone, Debug, PartialEq)]
pub struct WriteInitRequest {
    pub path: String,
    pub producer_id: String,
}

/// The client messages of the topic write stream.
#[derive(Clone, Debug, PartialEq)]
pub enum StreamWriteClientMessage {
    InitRequest(WriteInitRequest),
}

/// One client-to-server frame of the topic write stream.
#[derive(Clone, Debug, PartialEq)]
pub struct StreamWriteFromClient {
    pub client_message: Option<StreamWriteClientMessage>,
}

/// The frame a write stream must open with: the init request, before
/// any other message is sent.
pub fn initial_write_request(init: WriteInitRequest) -> (r: StreamWriteFromClient)
    ensures
        r.client_message == Some(StreamWriteClientMessage::InitRequest(init)),
{
    StreamWriteFromClient { client_message: Some(StreamWriteClientMessage::InitRequest(init)) }
}

} // verus!
