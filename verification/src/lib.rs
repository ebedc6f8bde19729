//! An embedded telemetry and feedback core for interactive applications:
//! event ingestion, session lifecycle, and the batch/flush pipeline, with
//! verified contracts on every step.
//!
//! Producers hand raw records to a bounded queue that never blocks them;
//! once per tick, while exactly one session is Active, validated records
//! migrate into the batch buffer and the flush scheduler decides whether a
//! batch — or a heartbeat, when nothing is buffered — goes out. Delivery
//! is fire-and-forget through a transport the embedder supplies: the
//! pipeline computes each request as a plain [`pipeline::Delivery`] value
//! and performs no I/O of its own, so telemetry can never stall the host's
//! main loop.

pub mod api_types;
pub mod config;
pub mod events;
pub mod feedback;
pub mod identity;
pub mod pipeline;
pub mod prelude;
pub mod queue;
pub mod session;
pub mod sysinfo;
pub mod text;
