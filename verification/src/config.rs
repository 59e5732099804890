//! Read-only configuration shared by every worker loop.
use vstd::prelude::*;

verus! {

/// The configuration surface the core consumes: object-store region,
/// endpoint, credentials and bucket; input/output channel topics, broker
/// address and consumer group; log verbosity; and the worker parallelism.
pub struct ConverterConfig {
    pub s3_region_name: String,
    pub s3_endpoint: String,
    pub s3_access: String,
    pub s3_secret: String,
    pub s3_bucket_name: String,
    pub kafka_input_topic: String,
    pub kafka_output_topic: String,
    pub kafka_brokers: String,
    pub kafka_consumer_group: String,
    pub log_level: String,
    pub parallel_operations: usize,
}

} // verus!
