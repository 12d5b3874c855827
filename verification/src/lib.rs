//! A multiplexing relay for a sharded push-event gateway.
//!
//! One upstream session per shard is tracked through its readiness
//! lifecycle; dispatch frames are fanned out to subscribers, a synthetic
//! "session established" snapshot is fabricated for late joiners, and
//! connection statistics are sampled on a debounced clock.

pub mod bus;
pub mod cache;
pub mod envelope;
pub mod json;
pub mod session;
pub mod telemetry;

pub use bus::Bus;
pub use bus::BusPoll;
pub use bus::Subscriber;
pub use cache::CacheStats;
pub use cache::Guilds;
pub use cache::Payload;
pub use envelope::Envelope;
pub use json::JsonField;
pub use json::JsonValue;
pub use session::BroadcastMessage;
pub use session::FrameOutcome;
pub use session::LoopAction;
pub use session::ShardSession;
pub use session::StreamItem;
pub use telemetry::ConnectionStatus;
pub use telemetry::ShardStatistics;
