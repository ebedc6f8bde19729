//! Event records and the event-type validator.
//!
//! An event type names a namespace and an event, joined by a single dot:
//! `"ui.click"`, `"gameplay.start"`. Both sides are one or more ASCII
//! letters; nothing else is accepted.

use vstd::prelude::*;

verus! {

/// Metadata rides along as a `serde_json::Value`. The pipeline never looks
/// inside it; it is carried from the producer to the batch payload untouched.
#[verifier::external_type_specification]
#[verifier::external_body]
pub struct ExJsonValue(serde_json::Value);

/// Severity attached to an event by its producer.
#[derive(Clone, Copy, PartialEq, Eq, Structural, Debug)]
pub enum EventLevel {
    Trace,
    Debug,
    Info,
    Warn,
    Error,
}

impl EventLevel {
    /// The wire name of the level, as the ingest service spells it.
    pub fn label(&self) -> (r: &'static str)
        ensures
            *self == EventLevel::Trace ==> r@ == "trace"@,
            *self == EventLevel::Debug ==> r@ == "debug"@,
            *self == EventLevel::Info ==> r@ == "info"@,
            *self == EventLevel::Warn ==> r@ == "warn"@,
            *self == EventLevel::Error ==> r@ == "error"@,
    {
        match self {
            EventLevel::Trace => "trace",
            EventLevel::Debug => "debug",
            EventLevel::Info => "info",
            EventLevel::Warn => "warn",
            EventLevel::Error => "error",
        }
    }
}

/// Where in the host's source an event was raised.
pub struct EventPayloadCtx {
    pub file: String,
    pub line: u32,
    pub module: Option<String>,
}

/// A raw record as a producer hands it to the ingestion queue. Immutable once
/// constructed; it is validated and moved into a batch payload on flush.
pub struct QueuedEvent {
    pub level: EventLevel,
    pub event_type: String,
    pub metadata: Option<serde_json::Value>,
    /// Caller-supplied elapsed time; `None` defaults to the session clock
    /// when the record is moved into the buffer.
    pub elapsed_ms: Option<u128>,
    pub idempotency_key: Option<String>,
    pub context: Option<EventPayloadCtx>,
}

/// One event as it is shipped inside a batch.
pub struct EventPayload {
    /// Always of the shape `"namespace.event"`.
    pub event_type: String,
    pub metadata: Option<serde_json::Value>,
    pub level: EventLevel,
    /// Time since session start, or the producer's own figure.
    pub elapsed_ms: u128,
    pub idempotency_key: Option<String>,
    pub context: Option<EventPayloadCtx>,
}

/// The body of an `events/batch` request.
pub struct BatchEventPayload {
    pub events: Vec<EventPayload>,
}

impl QueuedEvent {
    /// A record as the ingestion macros shape it at the call site: origin
    /// information becomes the context, and the elapsed time is left for
    /// the session clock to fill in.
    pub fn from_origin(
        level: EventLevel,
        event_type: String,
        metadata: Option<serde_json::Value>,
        file: String,
        line: u32,
        module: Option<String>,
    ) -> (r: QueuedEvent)
        ensures
            r.level == level,
            r.event_type == event_type,
            r.metadata == metadata,
            r.elapsed_ms is None,
            r.idempotency_key is None,
            r.context matches Some(c) && c.file == file && c.line == line && c.module == module,
    {
        QueuedEvent {
            level,
            event_type,
            metadata,
            elapsed_ms: None,
            idempotency_key: None,
            context: Some(EventPayloadCtx { file, line, module }),
        }
    }

    /// The payload this record becomes once accepted into a batch:
    /// `default_elapsed_ms` (the session clock) fills in a missing figure.
    pub open spec fn as_payload(self, default_elapsed_ms: u128) -> EventPayload {
        EventPayload {
            event_type: self.event_type,
            metadata: self.metadata,
            level: self.level,
            elapsed_ms: match self.elapsed_ms {
                Some(ms) => ms,
                None => default_elapsed_ms,
            },
            idempotency_key: self.idempotency_key,
            context: self.context,
        }
    }

    /// The record passes format validation.
    pub open spec fn accepted(self) -> bool {
        valid_event_type(self.event_type@)
    }

    /// Moves the record into its batch-payload form.
    pub fn into_payload(self, default_elapsed_ms: u128) -> (r: EventPayload)
        ensures
            r == self.as_payload(default_elapsed_ms),
    {
        let elapsed_ms = match self.elapsed_ms {
            Some(ms) => ms,
            None => default_elapsed_ms,
        };
        EventPayload {
            event_type: self.event_type,
            metadata: self.metadata,
            level: self.level,
            elapsed_ms,
            idempotency_key: self.idempotency_key,
            context: self.context,
        }
    }
}

/// A letter as the event-type grammar understands it: ASCII only.
pub open spec fn is_ascii_letter(c: char) -> bool {
    ('a' <= c && c <= 'z') || ('A' <= c && c <= 'Z')
}

/// The dot at index `i` splits `s` into `"<letters>.<letters>"`.
pub open spec fn dot_splits_event_type(s: Seq<char>, i: int) -> bool {
    &&& 1 <= i <= s.len() - 2
    &&& s[i] == '.'
    &&& forall|j: int| 0 <= j < s.len() && j != i ==> is_ascii_letter(#[trigger] s[j])
}

/// An event type is `"<letters>.<letters>"`: exactly one dot, at least one
/// letter on each side, nothing but letters elsewhere.
pub open spec fn valid_event_type(s: Seq<char>) -> bool {
    exists|i: int| dot_splits_event_type(s, i)
}

/// Law: a valid event type has exactly one dot — any two dot positions in
/// it coincide — and every other character is an ASCII letter.
pub proof fn lemma_valid_event_type_single_dot(s: Seq<char>, i: int, j: int)
    requires
        valid_event_type(s),
        0 <= i < s.len(),
        0 <= j < s.len(),
        s[i] == '.',
        s[j] == '.',
    ensures
        i == j,
        forall|t: int| 0 <= t < s.len() && t != i ==> is_ascii_letter(#[trigger] s[t]),
{
    let k = choose|k: int| dot_splits_event_type(s, k);
    assert(dot_splits_event_type(s, k));
    if i != k {
        assert(is_ascii_letter(s[i]));
        assert(false);
    }
    if j != k {
        assert(is_ascii_letter(s[j]));
        assert(false);
    }
}

fn is_letter_char(c: char) -> (b: bool)
    ensures
        b == is_ascii_letter(c),
{
    let u = c as u32;
    (97 <= u && u <= 122) || (65 <= u && u <= 90)
}

/// Decides `valid_event_type`, the shape `"<letters>.<letters>"`.
pub fn validate_event_type(s: &str) -> (b: bool)
    ensures
        b == valid_event_type(s@),
{
    let n = s.unicode_len();
    let mut i: usize = 0;
    while i < n && is_letter_char(s.get_char(i))
        invariant
            0 <= i <= n,
            n == s@.len(),
            forall|j: int| 0 <= j < i ==> is_ascii_letter(#[trigger] s@[j]),
        decreases n - i,
    {
        i = i + 1;
    }
    // `i` is the first index that does not hold a letter, or `n`.
    if i == n {
        // All letters: no dot anywhere.
        assert(forall|k: int| !dot_splits_event_type(s@, k)) by {
            assert forall|k: int| !dot_splits_event_type(s@, k) by {
                if 1 <= k <= s@.len() - 2 {
                    assert(is_ascii_letter(s@[k]));
                }
            }
        }
        return false;
    }
    if i == 0 {
        // The first character is not a letter; every split needs a letter there.
        assert(forall|k: int| !dot_splits_event_type(s@, k)) by {
            assert forall|k: int| !dot_splits_event_type(s@, k) by {
                if 1 <= k <= s@.len() - 2 {
                    assert(!is_ascii_letter(s@[0]));
                }
            }
        }
        return false;
    }
    let c = s.get_char(i);
    if c != '.' {
        // A non-letter that is not the dot: no split can absorb it.
        assert(forall|k: int| !dot_splits_event_type(s@, k)) by {
            assert forall|k: int| !dot_splits_event_type(s@, k) by {
                if 1 <= k <= s@.len() - 2 {
                    if k != i {
                        assert(!is_ascii_letter(s@[i as int]));
                    }
                }
            }
        }
        return false;
    }
    if n - i < 2 {
        // The dot is the last character: nothing follows it.
        assert(forall|k: int| !dot_splits_event_type(s@, k)) by {
            assert forall|k: int| !dot_splits_event_type(s@, k) by {
                if 1 <= k <= s@.len() - 2 {
                    if k != i {
                        assert(!is_ascii_letter(s@[i as int]));
                    }
                }
            }
        }
        return false;
    }
    let d = i;
    let mut j: usize = d + 1;
    while j < n
        invariant
            d + 1 <= j <= n,
            n == s@.len(),
            1 <= d <= n - 2,
            s@[d as int] == '.',
            !is_ascii_letter('.'),
            forall|k: int| 0 <= k < d ==> is_ascii_letter(#[trigger] s@[k]),
            forall|k: int| d < k < j ==> is_ascii_letter(#[trigger] s@[k]),
        decreases n - j,
    {
        if !is_letter_char(s.get_char(j)) {
            // A second dot or other stray character after the split.
            assert(forall|k: int| !dot_splits_event_type(s@, k)) by {
                assert forall|k: int| !dot_splits_event_type(s@, k) by {
                    if 1 <= k <= s@.len() - 2 {
                        if k != j {
                            assert(!is_ascii_letter(s@[j as int]));
                        } else {
                            assert(!is_ascii_letter(s@[d as int]));
                        }
                    }
                }
            }
            return false;
        }
        j = j + 1;
    }
    assert(dot_splits_event_type(s@, d as int));
    true
}

/// The payloads that survive validating and migrating `records[i..]`:
/// accepted records in order, rejects discarded, missing elapsed times
/// filled in from `default_elapsed_ms`.
pub open spec fn accepted_payloads_from(
    records: Seq<QueuedEvent>,
    i: int,
    default_elapsed_ms: u128,
) -> Seq<EventPayload>
    decreases records.len() - i,
{
    if i < 0 || i >= records.len() {
        Seq::empty()
    } else {
        let rest = accepted_payloads_from(records, i + 1, default_elapsed_ms);
        if records[i].accepted() {
            seq![records[i].as_payload(default_elapsed_ms)] + rest
        } else {
            rest
        }
    }
}

pub open spec fn accepted_payloads(records: Seq<QueuedEvent>, default_elapsed_ms: u128) -> Seq<
    EventPayload,
> {
    accepted_payloads_from(records, 0, default_elapsed_ms)
}

} // verus!
