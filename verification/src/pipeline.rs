//! The pipeline context: one explicitly owned object tying the ingestion
//! queue, the session manager, the batch buffer and the flush scheduler
//! together. It is constructed once at startup and driven by the host's
//! tick loop; it never blocks, and it never performs I/O itself — every
//! network send is handed back to the caller as a `Delivery` value.

use vstd::prelude::*;

use crate::api_types::{FeedbackPayload, StartSessionPayload};
use crate::config::{IndigaugeConfig, IndigaugeMode, LastSentRequestInstant};
use crate::events::{
    accepted_payloads, accepted_payloads_from, BatchEventPayload, EventPayload, QueuedEvent,
};
use crate::feedback::{FeedbackCategory, FeedbackError, FeedbackPanelProps};
use crate::queue::{EnqueueOutcome, IngestQueue};
use crate::session::{IndigaugeInitDoneEvent, SessionManager, SessionState, StartSessionEvent};
use crate::sysinfo::HostInfo;

verus! {

/// One request body the pipeline wants delivered.
pub enum OutboundRequest {
    StartSession(StartSessionPayload),
    EventBatch(BatchEventPayload),
    Heartbeat,
    /// Carries the reason the session ended.
    EndSession(String),
    Feedback(FeedbackPayload),
    /// A binary image posted as a follow-up to an accepted submission.
    FeedbackScreenshot { feedback_id: String, image: Vec<u8> },
}

/// A fully addressed request handed to the transport layer: fire and
/// forget. `live` is false in Dev mode — the transport then only records
/// what would have been sent.
pub struct Delivery {
    pub url: String,
    pub auth_key: String,
    pub timeout_ms: u64,
    pub request: OutboundRequest,
    pub live: bool,
}

/// The service URL for one resource: `{api_base}/v1/{path}`.
pub fn endpoint_url(api_base: &str, path: &str) -> (r: String)
    ensures
        r@ == api_base@ + "/v1/"@ + path@,
{
    let mut s = String::from_str(api_base);
    s.append("/v1/");
    s.append(path);
    proof {
        assert(s@ =~= api_base@ + "/v1/"@ + path@);
    }
    s
}

/// All mutable pipeline state, owned by the host's tick loop.
pub struct IndigaugePipeline {
    pub config: IndigaugeConfig,
    pub mode: IndigaugeMode,
    pub queue: IngestQueue,
    pub session: SessionManager,
    /// The batch buffer: validated events awaiting delivery, oldest first.
    pub buffer: Vec<EventPayload>,
    pub last_sent: LastSentRequestInstant,
    /// The pending "feedback requested" state; submission resolves it.
    pub prompt: Option<FeedbackPanelProps>,
}

impl IndigaugePipeline {
    pub open spec fn wf(&self) -> bool {
        &&& self.config.wf()
        &&& self.queue.wf()
        &&& self.session.wf()
    }

    pub open spec fn is_active(&self) -> bool {
        self.session.state() == SessionState::Active
    }

    /// Not disabled: ingestion and delivery only happen while this holds.
    pub open spec fn is_enabled(&self) -> bool {
        self.mode != IndigaugeMode::Disabled
    }

    /// The elapsed time stamped onto drained events that carried none.
    pub open spec fn default_elapsed(&self, now_ms: u64) -> u128 {
        match self.session.start_ms() {
            Some(s) => if now_ms >= s {
                (now_ms - s) as u128
            } else {
                0
            },
            None => 0,
        }
    }

    /// The batch buffer after one drain of the queue.
    pub open spec fn after_drain(&self, now_ms: u64) -> Seq<EventPayload> {
        self.buffer@ + accepted_payloads(self.queue@, self.default_elapsed(now_ms))
    }

    pub open spec fn ms_since_last_send(&self, now_ms: u64) -> u64 {
        if now_ms >= self.last_sent.at_ms {
            (now_ms - self.last_sent.at_ms) as u64
        } else {
            0
        }
    }

    /// A flush is due when the buffer holds a full batch or the flush
    /// interval has passed since the last request went out.
    pub open spec fn flush_due(&self, buffered: int, now_ms: u64) -> bool {
        buffered >= self.config.batch_size || self.ms_since_last_send(now_ms)
            >= self.config.flush_interval_ms
    }

    /// How many events one flush drains: the whole buffer, capped at the
    /// batch size.
    pub open spec fn batch_count(&self, buffered: int) -> int {
        if buffered <= self.config.batch_size {
            buffered
        } else {
            self.config.batch_size as int
        }
    }

    /// Builds the pipeline. An empty public key is a configuration error
    /// that disables the whole pipeline for the process — no crash, and
    /// every later call becomes a no-op.
    pub fn init(config: IndigaugeConfig, mode: IndigaugeMode, now_ms: u64) -> (p:
        IndigaugePipeline)
        requires
            config.wf(),
        ensures
            p.wf(),
            p.config == config,
            config.public_key@.len() == 0 ==> p.mode == IndigaugeMode::Disabled,
            config.public_key@.len() > 0 ==> p.mode == mode,
            p.queue@ == Seq::<QueuedEvent>::empty(),
            p.queue.spec_capacity() == config.max_queue,
            p.session.state() == SessionState::Uninitialized,
            p.session.start_ms() is None,
            p.session.credential() is None,
            p.buffer@ == Seq::<EventPayload>::empty(),
            p.last_sent.at_ms == now_ms,
            p.prompt is None,
    {
        let effective_mode = if config.public_key.as_str().is_empty() {
            IndigaugeMode::Disabled
        } else {
            mode
        };
        let capacity = config.max_queue;
        IndigaugePipeline {
            config,
            mode: effective_mode,
            queue: IngestQueue::new(capacity),
            session: SessionManager::new(),
            buffer: Vec::new(),
            last_sent: LastSentRequestInstant::at(now_ms),
            prompt: None,
        }
    }

    /// Non-blocking intake from any producer. The batch buffer is never
    /// touched here: records wait in the bounded queue until a tick drains
    /// them, and only while a session is Active.
    pub fn enqueue(&mut self, record: QueuedEvent) -> (r: EnqueueOutcome)
        requires
            old(self).wf(),
        ensures
            final(self).wf(),
            final(self).buffer == old(self).buffer,
            final(self).session == old(self).session,
            final(self).config == old(self).config,
            final(self).mode == old(self).mode,
            final(self).last_sent == old(self).last_sent,
            final(self).prompt == old(self).prompt,
            final(self).queue.spec_capacity() == old(self).queue.spec_capacity(),
            !old(self).is_enabled() ==> {
                &&& r == EnqueueOutcome::Disabled
                &&& final(self).queue@ == old(self).queue@
            },
            old(self).is_enabled() && !record.accepted() ==> {
                &&& r == EnqueueOutcome::RejectedInvalidType
                &&& final(self).queue@ == old(self).queue@
            },
            old(self).is_enabled() && record.accepted() && old(self).queue@.len() >= old(
                self,
            ).queue.spec_capacity() ==> {
                &&& r == EnqueueOutcome::DroppedFull
                &&& final(self).queue@ == old(self).queue@
            },
            old(self).is_enabled() && record.accepted() && old(self).queue@.len() < old(
                self,
            ).queue.spec_capacity() ==> {
                &&& r == EnqueueOutcome::Queued
                &&& final(self).queue@ == old(self).queue@.push(record)
            },
    {
        if matches!(self.mode, IndigaugeMode::Disabled) {
            return EnqueueOutcome::Disabled;
        }
        self.queue.enqueue(record)
    }

    /// Once per tick while a session is Active: validates and migrates
    /// everything queued into the batch buffer, in arrival order, stamping
    /// the session clock onto records without an elapsed time. With no
    /// Active session the queue and the buffer are both left alone.
    #[verifier::loop_isolation(false)]
    pub fn drain_queue(&mut self, now_ms: u64)
        requires
            old(self).wf(),
        ensures
            final(self).wf(),
            final(self).session == old(self).session,
            final(self).config == old(self).config,
            final(self).mode == old(self).mode,
            final(self).last_sent == old(self).last_sent,
            final(self).prompt == old(self).prompt,
            final(self).queue.spec_capacity() == old(self).queue.spec_capacity(),
            !(old(self).is_active() && old(self).is_enabled()) ==> {
                &&& final(self).queue == old(self).queue
                &&& final(self).buffer == old(self).buffer
            },
            old(self).is_active() && old(self).is_enabled() ==> {
                &&& final(self).queue@ == Seq::<QueuedEvent>::empty()
                &&& final(self).buffer@ == old(self).after_drain(now_ms)
            },
    {
        if matches!(self.mode, IndigaugeMode::Disabled) || !self.session.is_active() {
            return ;
        }
        let default_ms: u128 = match self.session.elapsed_ms(now_ms) {
            Some(ms) => ms as u128,
            None => 0,
        };
        let mut taken = self.queue.take_all();
        let ghost records = taken@;
        let ghost pre_buffer = self.buffer@;
        let mut i: usize = 0;
        while taken.len() > 0
            invariant
                0 <= i,
                i + taken@.len() == records.len(),
                taken@ =~= records.subrange(i as int, records.len() as int),
                pre_buffer + accepted_payloads_from(records, 0, default_ms) == self.buffer@
                    + accepted_payloads_from(records, i as int, default_ms),
                self.session == old(self).session,
                self.config == old(self).config,
                self.mode == old(self).mode,
                self.last_sent == old(self).last_sent,
                self.prompt == old(self).prompt,
                self.queue@ == Seq::<QueuedEvent>::empty(),
                self.queue.spec_capacity() == old(self).queue.spec_capacity(),
                self.queue.wf(),
            decreases taken@.len(),
        {
            let ghost pre = self.buffer@;
            let record = taken.remove(0);
            proof {
                assert(record == records[i as int]);
            }
            if crate::events::validate_event_type(record.event_type.as_str()) {
                let payload = record.into_payload(default_ms);
                self.buffer.push(payload);
                proof {
                    assert(accepted_payloads_from(records, i as int, default_ms) == seq![
                        records[i as int].as_payload(default_ms)] + accepted_payloads_from(
                        records,
                        i as int + 1,
                        default_ms,
                    ));
                    assert(pre + (seq![records[i as int].as_payload(default_ms)]
                        + accepted_payloads_from(records, i as int + 1, default_ms)) =~= pre.push(
                        records[i as int].as_payload(default_ms),
                    ) + accepted_payloads_from(records, i as int + 1, default_ms));
                }
            } else {
                proof {
                    assert(accepted_payloads_from(records, i as int, default_ms)
                        == accepted_payloads_from(records, i as int + 1, default_ms));
                }
            }
            i = i + 1;
        }
        proof {
            assert(accepted_payloads_from(records, i as int, default_ms) =~= Seq::<
                EventPayload,
            >::empty());
            assert(self.buffer@ + Seq::<EventPayload>::empty() =~= self.buffer@);
            assert(self.buffer@ == pre_buffer + accepted_payloads(records, default_ms));
        }
    }

    /// `d` is addressed to the given resource, authenticated with the
    /// session credential, with this pipeline's timeout and mode.
    pub open spec fn delivery_addressed(&self, d: Delivery, path: Seq<char>) -> bool {
        &&& d.url@ == self.config.api_base@ + "/v1/"@ + path
        &&& d.auth_key@ == self.session.credential()->0@
        &&& d.timeout_ms == self.config.request_timeout_ms
        &&& d.live == (self.mode == IndigaugeMode::Live)
    }

    /// Decides the flush triggers: a full batch buffered, or the flush
    /// interval elapsed since the last request went out.
    pub fn should_flush(&self, now_ms: u64) -> (b: bool)
        ensures
            b == self.flush_due(self.buffer@.len() as int, now_ms),
    {
        if self.buffer.len() >= self.config.batch_size {
            return true;
        }
        let since = if now_ms >= self.last_sent.at_ms {
            now_ms - self.last_sent.at_ms
        } else {
            0
        };
        since >= self.config.flush_interval_ms
    }

    /// Takes the oldest `min(len, batch_size)` events out of the buffer,
    /// leaving the remainder for the next trigger.
    fn drain_batch_prefix(&mut self) -> (batch: Vec<EventPayload>)
        requires
            old(self).wf(),
        ensures
            final(self).wf(),
            final(self).session == old(self).session,
            final(self).config == old(self).config,
            final(self).mode == old(self).mode,
            final(self).queue == old(self).queue,
            final(self).last_sent == old(self).last_sent,
            final(self).prompt == old(self).prompt,
            batch@ == old(self).buffer@.take(
                old(self).batch_count(old(self).buffer@.len() as int),
            ),
            final(self).buffer@ == old(self).buffer@.skip(
                old(self).batch_count(old(self).buffer@.len() as int),
            ),
    {
        let len = self.buffer.len();
        let k = if len < self.config.batch_size {
            len
        } else {
            self.config.batch_size
        };
        let mut tail = self.buffer.split_off(k);
        core::mem::swap(&mut self.buffer, &mut tail);
        proof {
            let ghost kk = old(self).batch_count(old(self).buffer@.len() as int);
            assert(k == kk);
            assert(tail@ =~= old(self).buffer@.take(kk));
            assert(self.buffer@ =~= old(self).buffer@.skip(kk));
        }
        tail
    }

    /// The flush algorithm, run when a trigger fires while a session is
    /// Active: drains the oldest batch in FIFO order and hands it back as
    /// one request, or — with nothing buffered — a heartbeat that keeps
    /// the session alive server-side. Returns how many events went out.
    /// Delivery is fire-and-forget: a transport failure later does not
    /// requeue anything.
    pub fn flush_events(&mut self, now_ms: u64) -> (r: (Option<Delivery>, usize))
        requires
            old(self).wf(),
        ensures
            final(self).wf(),
            final(self).session == old(self).session,
            final(self).config == old(self).config,
            final(self).mode == old(self).mode,
            final(self).queue == old(self).queue,
            final(self).prompt == old(self).prompt,
            !(old(self).is_active() && old(self).is_enabled()) ==> {
                &&& *final(self) == *old(self)
                &&& r.0 is None
                &&& r.1 == 0
            },
            old(self).is_active() && old(self).is_enabled() ==> ({
                let len = old(self).buffer@.len() as int;
                let k = old(self).batch_count(len);
                &&& final(self).last_sent.at_ms == now_ms
                &&& len == 0 ==> {
                    &&& final(self).buffer@ == old(self).buffer@
                    &&& r.1 == 0
                    &&& r.0 matches Some(d) && d.request is Heartbeat && old(
                        self,
                    ).delivery_addressed(d, "sessions/heartbeat"@)
                }
                &&& len > 0 ==> {
                    &&& final(self).buffer@ == old(self).buffer@.skip(k)
                    &&& r.1 == k
                    &&& r.0 matches Some(d) && (d.request matches OutboundRequest::EventBatch(b)
                        && b.events@ == old(self).buffer@.take(k)) && old(
                        self,
                    ).delivery_addressed(d, "events/batch"@)
                }
            }),
    {
        if matches!(self.mode, IndigaugeMode::Disabled) || !self.session.is_active() {
            return (None, 0);
        }
        let auth = match self.session.session_key() {
            Some(k) => k.key_string(),
            None => vstd::pervasive::unreached(),
        };
        let live = matches!(self.mode, IndigaugeMode::Live);
        let timeout_ms = self.config.request_timeout_ms;
        self.last_sent = LastSentRequestInstant::at(now_ms);
        if self.buffer.len() == 0 {
            let d = Delivery {
                url: endpoint_url(self.config.api_base.as_str(), "sessions/heartbeat"),
                auth_key: auth,
                timeout_ms,
                request: OutboundRequest::Heartbeat,
                live,
            };
            (Some(d), 0)
        } else {
            let batch = self.drain_batch_prefix();
            let count = batch.len();
            let d = Delivery {
                url: endpoint_url(self.config.api_base.as_str(), "events/batch"),
                auth_key: auth,
                timeout_ms,
                request: OutboundRequest::EventBatch(BatchEventPayload { events: batch }),
                live,
            };
            (Some(d), count)
        }
    }

    /// One application tick: drain the queue into the buffer (only while a
    /// session is Active), then flush if a trigger fires. The caller
    /// performs the returned delivery, if any, without the pipeline ever
    /// waiting on it.
    pub fn tick(&mut self, now_ms: u64) -> (d: Option<Delivery>)
        requires
            old(self).wf(),
        ensures
            final(self).wf(),
            final(self).session == old(self).session,
            final(self).config == old(self).config,
            final(self).mode == old(self).mode,
            final(self).prompt == old(self).prompt,
            final(self).queue.spec_capacity() == old(self).queue.spec_capacity(),
            !(old(self).is_active() && old(self).is_enabled()) ==> {
                &&& *final(self) == *old(self)
                &&& d is None
            },
            old(self).is_active() && old(self).is_enabled() ==> ({
                let buf2 = old(self).after_drain(now_ms);
                let k = old(self).batch_count(buf2.len() as int);
                &&& final(self).queue@ == Seq::<QueuedEvent>::empty()
                &&& !old(self).flush_due(buf2.len() as int, now_ms) ==> {
                    &&& d is None
                    &&& final(self).buffer@ == buf2
                    &&& final(self).last_sent == old(self).last_sent
                }
                &&& old(self).flush_due(buf2.len() as int, now_ms) ==> {
                    &&& final(self).last_sent.at_ms == now_ms
                    &&& buf2.len() == 0 ==> {
                        &&& final(self).buffer@ == buf2
                        &&& d matches Some(del) && del.request is Heartbeat && old(
                            self,
                        ).delivery_addressed(del, "sessions/heartbeat"@)
                    }
                    &&& buf2.len() > 0 ==> {
                        &&& final(self).buffer@ == buf2.skip(k)
                        &&& d matches Some(del) && (del.request
                            matches OutboundRequest::EventBatch(b) && b.events@ == buf2.take(k))
                            && old(self).delivery_addressed(del, "events/batch"@)
                    }
                }
            }),
    {
        if matches!(self.mode, IndigaugeMode::Disabled) || !self.session.is_active() {
            return None;
        }
        self.drain_queue(now_ms);
        if self.should_flush(now_ms) {
            let (d, _count) = self.flush_events(now_ms);
            d
        } else {
            None
        }
    }

    /// A start-session trigger. Disabled pipelines refuse outright; a
    /// duplicate trigger is refused with `Skipped`; otherwise the manager
    /// moves to Starting and the `sessions/start` request — authenticated
    /// with the public API key and carrying only bucketed machine
    /// descriptors — is handed back for delivery.
    pub fn start_session(
        &mut self,
        event: &StartSessionEvent,
        player_id: String,
        host: &HostInfo,
    ) -> (r: (Option<Delivery>, Option<IndigaugeInitDoneEvent>))
        requires
            old(self).wf(),
        ensures
            final(self).wf(),
            final(self).config == old(self).config,
            final(self).mode == old(self).mode,
            final(self).queue == old(self).queue,
            final(self).buffer == old(self).buffer,
            final(self).last_sent == old(self).last_sent,
            final(self).prompt == old(self).prompt,
            final(self).session.start_ms() == old(self).session.start_ms(),
            final(self).session.credential() == old(self).session.credential(),
            !old(self).is_enabled() ==> {
                &&& final(self).session == old(self).session
                &&& r.0 is None
                &&& r.1 matches Some(n) && n matches IndigaugeInitDoneEvent::UnexpectedFailure(m)
                    && m@ == "Telemetry pipeline is disabled"@
            },
            old(self).is_enabled() && old(self).session.may_start() ==> {
                &&& final(self).session.state() == SessionState::Starting
                &&& r.1 is None
                &&& r.0 matches Some(d) && {
                    &&& d.request matches OutboundRequest::StartSession(p)
                        && crate::sysinfo::start_payload_matches(
                        p,
                        old(self).config,
                        *event,
                        player_id@,
                        *host,
                    )
                    &&& d.url@ == old(self).config.api_base@ + "/v1/"@ + "sessions/start"@
                    &&& d.auth_key@ == old(self).config.public_key@
                    &&& d.timeout_ms == old(self).config.request_timeout_ms
                    &&& d.live == (old(self).mode == IndigaugeMode::Live)
                }
            },
            old(self).is_enabled() && !old(self).session.may_start() ==> {
                &&& final(self).session == old(self).session
                &&& r.0 is None
                &&& r.1 matches Some(n) && n matches IndigaugeInitDoneEvent::Skipped(m) && m@
                    == "Session already started"@
            },
    {
        if matches!(self.mode, IndigaugeMode::Disabled) {
            return (
                None,
                Some(
                    IndigaugeInitDoneEvent::UnexpectedFailure(
                        String::from_str("Telemetry pipeline is disabled"),
                    ),
                ),
            );
        }
        match self.session.request_start() {
            Some(n) => (None, Some(n)),
            None => {
                let payload = crate::sysinfo::build_start_payload(
                    &self.config,
                    event,
                    player_id,
                    host,
                );
                let d = Delivery {
                    url: endpoint_url(self.config.api_base.as_str(), "sessions/start"),
                    auth_key: self.config.public_key.clone(),
                    timeout_ms: self.config.request_timeout_ms,
                    request: OutboundRequest::StartSession(payload),
                    live: matches!(self.mode, IndigaugeMode::Live),
                };
                (Some(d), None)
            },
        }
    }

    /// Asks the form layer to show the feedback prompt.
    pub fn request_feedback(&mut self, props: FeedbackPanelProps)
        requires
            old(self).wf(),
        ensures
            final(self).wf(),
            final(self).prompt == Some(props),
            final(self).config == old(self).config,
            final(self).mode == old(self).mode,
            final(self).queue == old(self).queue,
            final(self).session == old(self).session,
            final(self).buffer == old(self).buffer,
            final(self).last_sent == old(self).last_sent,
    {
        self.prompt = Some(props);
    }

    /// Turns a user-authored message into a delivery request. The message
    /// is normalized, then rejected — locally, without touching the
    /// network — exactly when fewer than two characters remain. An
    /// accepted submission resolves the pending feedback prompt whatever
    /// later becomes of the delivery.
    pub fn submit_feedback(
        &mut self,
        message: &str,
        category: FeedbackCategory,
        question: Option<String>,
        now_ms: u64,
    ) -> (r: Result<Delivery, FeedbackError>)
        requires
            old(self).wf(),
        ensures
            final(self).wf(),
            final(self).config == old(self).config,
            final(self).mode == old(self).mode,
            final(self).queue == old(self).queue,
            final(self).session == old(self).session,
            final(self).buffer == old(self).buffer,
            !(old(self).is_active() && old(self).is_enabled()) ==> {
                &&& *final(self) == *old(self)
                &&& r == Result::<Delivery, FeedbackError>::Err(FeedbackError::NoActiveSession)
            },
            old(self).is_active() && old(self).is_enabled() ==> ({
                let normalized = crate::feedback::normalized_message(message@);
                &&& normalized.len() < 2 ==> {
                    &&& *final(self) == *old(self)
                    &&& r == Result::<Delivery, FeedbackError>::Err(FeedbackError::TooShort)
                }
                &&& normalized.len() >= 2 ==> {
                    &&& final(self).prompt is None
                    &&& final(self).last_sent.at_ms == now_ms
                    &&& r matches Ok(d) && (d.request matches OutboundRequest::Feedback(p) && {
                        &&& p.message@ == normalized
                        &&& p.category@ == crate::feedback::label_lower_of(category)
                        &&& p.elapsed_ms == old(self).default_elapsed(now_ms)
                        &&& p.question == question
                    }) && old(self).delivery_addressed(d, "feedback"@)
                }
            }),
    {
        if matches!(self.mode, IndigaugeMode::Disabled) || !self.session.is_active() {
            return Err(FeedbackError::NoActiveSession);
        }
        let elapsed: u128 = match self.session.elapsed_ms(now_ms) {
            Some(ms) => ms as u128,
            None => 0,
        };
        match crate::feedback::build_feedback_payload(message, category, question, elapsed) {
            Err(e) => Err(e),
            Ok(payload) => {
                let auth = match self.session.session_key() {
                    Some(k) => k.key_string(),
                    None => vstd::pervasive::unreached(),
                };
                self.prompt = None;
                self.last_sent = LastSentRequestInstant::at(now_ms);
                Ok(
                    Delivery {
                        url: endpoint_url(self.config.api_base.as_str(), "feedback"),
                        auth_key: auth,
                        timeout_ms: self.config.request_timeout_ms,
                        request: OutboundRequest::Feedback(payload),
                        live: matches!(self.mode, IndigaugeMode::Live),
                    },
                )
            },
        }
    }

    /// The optional follow-up to an accepted submission: uploads a captured
    /// screenshot for the feedback entry the service named. Capture itself
    /// is the embedder's work; only the upload call exists here.
    pub fn send_feedback_screenshot(&mut self, feedback_id: String, image: Vec<u8>, now_ms: u64)
        -> (r: Option<Delivery>)
        requires
            old(self).wf(),
        ensures
            final(self).wf(),
            final(self).config == old(self).config,
            final(self).mode == old(self).mode,
            final(self).queue == old(self).queue,
            final(self).session == old(self).session,
            final(self).buffer == old(self).buffer,
            final(self).prompt == old(self).prompt,
            !(old(self).is_active() && old(self).is_enabled()) ==> {
                &&& *final(self) == *old(self)
                &&& r is None
            },
            old(self).is_active() && old(self).is_enabled() ==> {
                &&& final(self).last_sent.at_ms == now_ms
                &&& r matches Some(d) && {
                    &&& d.request matches OutboundRequest::FeedbackScreenshot {
                        feedback_id: fid,
                        image: img,
                    } && fid@ == feedback_id@ && img@ == image@
                    &&& d.url@ == old(self).config.api_base@ + "/v1/"@ + "feedback/"@
                        + feedback_id@ + "/screenshot"@
                    &&& d.auth_key@ == old(self).session.credential()->0@
                    &&& d.timeout_ms == old(self).config.request_timeout_ms
                    &&& d.live == (old(self).mode == IndigaugeMode::Live)
                }
            },
    {
        if matches!(self.mode, IndigaugeMode::Disabled) || !self.session.is_active() {
            return None;
        }
        let auth = match self.session.session_key() {
            Some(k) => k.key_string(),
            None => vstd::pervasive::unreached(),
        };
        let mut path = String::from_str("feedback/");
        path.append(feedback_id.as_str());
        path.append("/screenshot");
        let url = endpoint_url(self.config.api_base.as_str(), path.as_str());
        proof {
            assert(url@ =~= self.config.api_base@ + "/v1/"@ + "feedback/"@ + feedback_id@
                + "/screenshot"@);
        }
        self.last_sent = LastSentRequestInstant::at(now_ms);
        Some(
            Delivery {
                url,
                auth_key: auth,
                timeout_ms: self.config.request_timeout_ms,
                request: OutboundRequest::FeedbackScreenshot { feedback_id, image },
                live: matches!(self.mode, IndigaugeMode::Live),
            },
        )
    }

    /// Application exit with a session Active: one `sessions/end` request,
    /// then one best-effort final flush covering the oldest batch of the
    /// buffer, in that order, neither waited on. The credential is
    /// discarded regardless of delivery outcome.
    pub fn on_exit(&mut self, now_ms: u64) -> (ds: Vec<Delivery>)
        requires
            old(self).wf(),
        ensures
            final(self).wf(),
            final(self).config == old(self).config,
            final(self).mode == old(self).mode,
            final(self).queue == old(self).queue,
            final(self).prompt == old(self).prompt,
            !(old(self).is_active() && old(self).is_enabled()) ==> {
                &&& *final(self) == *old(self)
                &&& ds@.len() == 0
            },
            old(self).is_active() && old(self).is_enabled() ==> ({
                let len = old(self).buffer@.len() as int;
                let k = old(self).batch_count(len);
                &&& final(self).session.state() == SessionState::Ended
                &&& final(self).session.credential() is None
                &&& final(self).session.start_ms() == old(self).session.start_ms()
                &&& final(self).buffer@ == old(self).buffer@.skip(k)
                &&& final(self).last_sent.at_ms == now_ms
                &&& ds@.len() == (if len == 0 {
                    1int
                } else {
                    2int
                })
                &&& (ds@[0].request matches OutboundRequest::EndSession(reason) && reason@
                    == "ended"@) && old(self).delivery_addressed(ds@[0], "sessions/end"@)
                &&& len > 0 ==> (ds@[1].request matches OutboundRequest::EventBatch(b)
                    && b.events@ == old(self).buffer@.take(k)) && old(self).delivery_addressed(
                    ds@[1],
                    "events/batch"@,
                )
            }),
    {
        if matches!(self.mode, IndigaugeMode::Disabled) || !self.session.is_active() {
            return Vec::new();
        }
        let auth = match self.session.session_key() {
            Some(k) => k.key_string(),
            None => vstd::pervasive::unreached(),
        };
        let live = matches!(self.mode, IndigaugeMode::Live);
        let timeout_ms = self.config.request_timeout_ms;
        self.session.begin_end();
        let mut ds: Vec<Delivery> = Vec::new();
        ds.push(
            Delivery {
                url: endpoint_url(self.config.api_base.as_str(), "sessions/end"),
                auth_key: auth.clone(),
                timeout_ms,
                request: OutboundRequest::EndSession(String::from_str("ended")),
                live,
            },
        );
        if self.buffer.len() > 0 {
            let batch = self.drain_batch_prefix();
            ds.push(
                Delivery {
                    url: endpoint_url(self.config.api_base.as_str(), "events/batch"),
                    auth_key: auth,
                    timeout_ms,
                    request: OutboundRequest::EventBatch(BatchEventPayload { events: batch }),
                    live,
                },
            );
        }
        self.session.finish_end();
        self.last_sent = LastSentRequestInstant::at(now_ms);
        ds
    }
}

} // verus!
