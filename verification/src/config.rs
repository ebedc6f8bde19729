//! Process-wide configuration and small bookkeeping resources.
//!
//! A `IndigaugeConfig` is created once at startup and never mutated. The
//! caller resolves the ingest base URL (it may come from an environment
//! override) and hands it in as a plain string.

use vstd::prelude::*;

verus! {

/// Default batch size: a flush drains at most this many events.
pub const DEFAULT_BATCH_SIZE: usize = 64;

/// Default flush interval in milliseconds.
pub const DEFAULT_FLUSH_INTERVAL_MS: u64 = 10_000;

/// Default bound on the ingestion queue.
pub const DEFAULT_MAX_QUEUE: usize = 10_000;

/// Default request timeout in milliseconds.
pub const DEFAULT_REQUEST_TIMEOUT_MS: u64 = 10_000;

/// Read-only pipeline configuration, created once at startup.
pub struct IndigaugeConfig {
    pub api_base: String,
    pub game_name: String,
    pub public_key: String,
    pub game_version: String,
    pub batch_size: usize,
    pub flush_interval_ms: u64,
    pub max_queue: usize,
    pub request_timeout_ms: u64,
}

impl IndigaugeConfig {
    /// A flush must be able to make progress: at least one event per batch.
    pub open spec fn wf(&self) -> bool {
        self.batch_size >= 1
    }

    /// Configuration with the default knobs. `api_base` is resolved by the
    /// caller (environment override or the service's canonical URL).
    pub fn new(
        game_name: String,
        public_key: String,
        game_version: String,
        api_base: String,
    ) -> (c: IndigaugeConfig)
        ensures
            c.api_base == api_base,
            c.game_name == game_name,
            c.public_key == public_key,
            c.game_version == game_version,
            c.batch_size == DEFAULT_BATCH_SIZE,
            c.flush_interval_ms == DEFAULT_FLUSH_INTERVAL_MS,
            c.max_queue == DEFAULT_MAX_QUEUE,
            c.request_timeout_ms == DEFAULT_REQUEST_TIMEOUT_MS,
            c.wf(),
    {
        IndigaugeConfig {
            api_base,
            game_name,
            public_key,
            game_version,
            batch_size: DEFAULT_BATCH_SIZE,
            flush_interval_ms: DEFAULT_FLUSH_INTERVAL_MS,
            max_queue: DEFAULT_MAX_QUEUE,
            request_timeout_ms: DEFAULT_REQUEST_TIMEOUT_MS,
        }
    }
}

/// Whether delivery performs real network I/O (`Live`), only records what
/// would have been sent (`Dev`), or nothing at all (`Disabled`).
#[derive(Clone, Copy, PartialEq, Eq, Structural, Debug)]
pub enum IndigaugeMode {
    Live,
    Dev,
    Disabled,
}

/// How loud the embedding host wants the pipeline's own logging.
#[derive(Clone, Copy, PartialEq, Eq, Structural, Debug)]
pub enum IndigaugeLogLevel {
    Debug,
    Info,
    Warn,
    Error,
    Silent,
}

impl IndigaugeLogLevel {
    /// Levels in increasing order of silence.
    pub open spec fn spec_rank(self) -> u8 {
        match self {
            IndigaugeLogLevel::Debug => 0,
            IndigaugeLogLevel::Info => 1,
            IndigaugeLogLevel::Warn => 2,
            IndigaugeLogLevel::Error => 3,
            IndigaugeLogLevel::Silent => 4,
        }
    }

    pub fn rank(&self) -> (r: u8)
        ensures
            r == self.spec_rank(),
    {
        match self {
            IndigaugeLogLevel::Debug => 0,
            IndigaugeLogLevel::Info => 1,
            IndigaugeLogLevel::Warn => 2,
            IndigaugeLogLevel::Error => 3,
            IndigaugeLogLevel::Silent => 4,
        }
    }

    /// True when a message at level `other` should be shown under `self`.
    pub fn allows(&self, other: &IndigaugeLogLevel) -> (r: bool)
        ensures
            r == (self.spec_rank() <= other.spec_rank()),
    {
        self.rank() <= other.rank()
    }
}

/// When the pipeline last handed a request to the transport, in the caller's
/// monotonic milliseconds. The flush interval is measured from here.
pub struct LastSentRequestInstant {
    pub at_ms: u64,
}

impl LastSentRequestInstant {
    /// The zero instant; a freshly initialized pipeline overwrites it with
    /// the clock reading at startup.
    pub fn new() -> (r: LastSentRequestInstant)
        ensures
            r.at_ms == 0,
    {
        LastSentRequestInstant { at_ms: 0 }
    }

    pub fn at(now_ms: u64) -> (r: LastSentRequestInstant)
        ensures
            r.at_ms == now_ms,
    {
        LastSentRequestInstant { at_ms: now_ms }
    }
}

/// The ephemeral session credential, received on session start and used as
/// the authentication header for all session-scoped requests.
pub struct SessionApiKey {
    key: String,
}

impl SessionApiKey {
    pub closed spec fn view(&self) -> Seq<char> {
        self.key@
    }

    pub fn new(key: String) -> (r: SessionApiKey)
        ensures
            r@ == key@,
    {
        SessionApiKey { key }
    }

    pub fn key(&self) -> (r: &str)
        ensures
            r@ == self@,
    {
        self.key.as_str()
    }

    /// An owned copy of the credential, for building a request header.
    pub fn key_string(&self) -> (r: String)
        ensures
            r@ == self@,
    {
        self.key.clone()
    }
}

} // verus!
