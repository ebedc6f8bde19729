//! The handful of items most embedders need.

pub use crate::api_types::{ApiResponse, ErrorBody, StartSessionResponse};
pub use crate::config::{IndigaugeConfig, IndigaugeLogLevel, IndigaugeMode};
pub use crate::events::{EventLevel, QueuedEvent};
pub use crate::feedback::{FeedbackCategory, FeedbackError, FeedbackPanelProps};
pub use crate::pipeline::{Delivery, IndigaugePipeline, OutboundRequest};
pub use crate::queue::EnqueueOutcome;
pub use crate::session::{IndigaugeInitDoneEvent, SessionStartReply, StartSessionEvent};
pub use crate::sysinfo::HostInfo;
