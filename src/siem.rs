//! Telemetry events: parsing, cleaning and batching with a checksum.

use vstd::prelude::*;
use vstd::utf8::encode_utf8;

use crate::clock::unix_time_ms;
use crate::digest::{append_bytes, append_le_u64, hex_of, le_bytes, sha256_hex, sha256_of};
use crate::normalise::{chars_equal, chars_views, drop_controls, lemma_split_nonempty, lower_of, lowercase, split_chars, split_on, trim_chars, trimmed, without_controls};
use crate::security::{byte_len, is_bounded, validate_bounded_string, ValidationLimits, MAX_COMMAND_ID_LEN, MAX_PAYLOAD_LEN};
use crate::text::{chars_of, decimal, decimal_string, string_from_chars};

verus! {

/// One key/value attribute of a telemetry event.
#[derive(Debug, Clone)]
pub struct TelemetryField {
    pub key: String,
    pub value: String,
}

#[derive(Debug, Clone, Copy, PartialEq, Eq, Structural)]
pub enum TelemetrySeverity {
    Informational,
    Low,
    Medium,
    High,
    Critical,
}

/// Normalised telemetry event prepared for SIEM delivery.
#[derive(Debug, Clone)]
pub struct TelemetryEvent {
    pub event_id: String,
    pub stream: String,
    pub category: String,
    pub severity: TelemetrySeverity,
    pub timestamp_unix_ms: u64,
    pub message: String,
    pub fields: Vec<TelemetryField>,
}

/// Prepared SIEM batch with integrity metadata.
#[derive(Debug, Clone)]
pub struct TelemetryBatch {
    pub batch_id: String,
    pub stream: String,
    pub event_count: usize,
    pub dropped_count: usize,
    pub total_payload_bytes: u64,
    pub checksum_sha256: String,
    pub created_at_unix_ms: u64,
}

/// Bounds on what one batch may carry.
#[derive(Debug, Clone)]
pub struct TelemetryConfig {
    pub stream: String,
    pub max_events: usize,
    pub max_event_bytes: u64,
    pub max_batch_bytes: u64,
    pub max_field_count: usize,
    pub max_field_key_len: usize,
    pub max_field_value_len: usize,
}

impl TelemetryConfig {
    /// The bounds used when none are configured.
    pub fn default_config() -> (r: Self)
        ensures
            r.stream@ == "sensor"@,
            r.max_events == 512,
            r.max_event_bytes == 16384,
            r.max_batch_bytes == 524288,
            r.max_field_count == 32,
            r.max_field_key_len == MAX_COMMAND_ID_LEN,
            r.max_field_value_len == MAX_PAYLOAD_LEN,
    {
        let limits = ValidationLimits::default_limits();
        TelemetryConfig {
            stream: String::from_str("sensor"),
            max_events: 512,
            max_event_bytes: 16384,
            max_batch_bytes: 524288,
            max_field_count: 32,
            max_field_key_len: limits.max_command_id_len,
            max_field_value_len: limits.max_payload_len,
        }
    }
}

/// Longest accepted event identifier or category, in bytes.
pub const MAX_EVENT_ID_LEN: usize = 128;

/// Longest accepted event stream name, in bytes.
pub const MAX_EVENT_STREAM_LEN: usize = 64;

/// The first `n` items of `s`.
pub open spec fn first_n<T>(s: Seq<T>, n: nat) -> Seq<T> {
    if s.len() <= n {
        s
    } else {
        s.subrange(0, n as int)
    }
}

/// Text cleaned for delivery: control characters dropped, cut to `max_len`
/// characters, then trimmed.
pub open spec fn sanitised_text(s: Seq<char>, max_len: nat) -> Seq<char> {
    trimmed(first_n(without_controls(s), max_len))
}

/// An event as text: what delivery and the checksum read.
pub struct EventText {
    pub event_id: Seq<char>,
    pub stream: Seq<char>,
    pub category: Seq<char>,
    pub severity: TelemetrySeverity,
    pub timestamp_unix_ms: u64,
    pub message: Seq<char>,
    pub fields: Seq<(Seq<char>, Seq<char>)>,
}

pub open spec fn field_texts(fields: Seq<TelemetryField>) -> Seq<(Seq<char>, Seq<char>)> {
    fields.map_values(|f: TelemetryField| (f.key@, f.value@))
}

impl TelemetryEvent {
    pub open spec fn text(&self) -> EventText {
        EventText {
            event_id: self.event_id@,
            stream: self.stream@,
            category: self.category@,
            severity: self.severity,
            timestamp_unix_ms: self.timestamp_unix_ms,
            message: self.message@,
            fields: field_texts(self.fields@),
        }
    }
}

/// The fields kept, in order: a key within bounds and a value that is not
/// empty once cleaned.
pub open spec fn kept_fields(fields: Seq<TelemetryField>, config: &TelemetryConfig) -> Seq<(Seq<char>, Seq<char>)>
    decreases fields.len(),
{
    if fields.len() == 0 {
        Seq::empty()
    } else {
        let prev = kept_fields(fields.drop_last(), config);
        let f = fields.last();
        let value = sanitised_text(f.value@, config.max_field_value_len as nat);
        if is_bounded(f.key@, config.max_field_key_len as nat) && value.len() > 0 {
            prev.push((f.key@, value))
        } else {
            prev
        }
    }
}

/// The event as delivered, or `None` when its identifiers are out of bounds.
pub open spec fn sanitised_event(event: &TelemetryEvent, config: &TelemetryConfig) -> Option<EventText> {
    if is_bounded(event.event_id@, MAX_EVENT_ID_LEN as nat) && is_bounded(
        event.stream@,
        MAX_EVENT_STREAM_LEN as nat,
    ) && is_bounded(event.category@, MAX_EVENT_ID_LEN as nat) {
        Some(
            EventText {
                event_id: event.event_id@,
                stream: event.stream@,
                category: event.category@,
                severity: event.severity,
                timestamp_unix_ms: event.timestamp_unix_ms,
                message: sanitised_text(event.message@, config.max_field_value_len as nat),
                fields: kept_fields(first_n(event.fields@, config.max_field_count as nat), config),
            },
        )
    } else {
        None
    }
}

pub open spec fn fields_size(fields: Seq<(Seq<char>, Seq<char>)>) -> nat
    decreases fields.len(),
{
    if fields.len() == 0 {
        0
    } else {
        fields_size(fields.drop_last()) + byte_len(fields.last().0) + byte_len(fields.last().1)
    }
}

/// The bytes an event puts into a batch.
pub open spec fn event_size(t: EventText) -> nat {
    byte_len(t.event_id) + byte_len(t.stream) + byte_len(t.category) + byte_len(t.message)
        + fields_size(t.fields)
}

/// `n`, held at `u64::MAX`.
pub open spec fn clamp_u64(n: int) -> u64 {
    if n > u64::MAX {
        u64::MAX
    } else {
        n as u64
    }
}

/// What a batch holds after the first `n` events were tried.
pub struct BatchTally {
    pub accepted: Seq<EventText>,
    pub dropped: nat,
    pub total: int,
}

/// Each event is cleaned, then kept when it fits the per-event bound and the
/// batch bound; every other event is counted as dropped.
pub open spec fn tally(events: Seq<TelemetryEvent>, config: &TelemetryConfig, n: nat) -> BatchTally
    decreases n,
{
    if n == 0 {
        BatchTally { accepted: Seq::empty(), dropped: 0, total: 0 }
    } else {
        let prev = tally(events, config, (n - 1) as nat);
        match sanitised_event(&events[n - 1], config) {
            None => BatchTally { dropped: prev.dropped + 1, ..prev },
            Some(t) => {
                let size = clamp_u64(event_size(t) as int);
                if size > config.max_event_bytes || clamp_u64(prev.total + size) > config.max_batch_bytes {
                    BatchTally { dropped: prev.dropped + 1, ..prev }
                } else {
                    BatchTally {
                        accepted: prev.accepted.push(t),
                        dropped: prev.dropped,
                        total: clamp_u64(prev.total + size) as int,
                    }
                }
            },
        }
    }
}

pub open spec fn fields_message(fields: Seq<(Seq<char>, Seq<char>)>) -> Seq<u8>
    decreases fields.len(),
{
    if fields.len() == 0 {
        Seq::empty()
    } else {
        fields_message(fields.drop_last()) + encode_utf8(fields.last().0) + encode_utf8(fields.last().1)
    }
}

/// The bytes of one event that the batch checksum covers.
pub open spec fn event_message(t: EventText) -> Seq<u8> {
    encode_utf8(t.event_id) + encode_utf8(t.stream) + encode_utf8(t.category) + le_bytes(t.timestamp_unix_ms)
        + encode_utf8(t.message) + fields_message(t.fields)
}

/// The bytes the batch checksum covers, event after event.
pub open spec fn batch_message(events: Seq<EventText>) -> Seq<u8>
    decreases events.len(),
{
    if events.len() == 0 {
        Seq::empty()
    } else {
        batch_message(events.drop_last()) + event_message(events.last())
    }
}

/// The events of `events` that a batch tries: at most `max_events`.
pub open spec fn tried_count(events: Seq<TelemetryEvent>, config: &TelemetryConfig) -> nat {
    if events.len() <= config.max_events {
        events.len()
    } else {
        config.max_events as nat
    }
}

/// Text cleaned for delivery.
pub fn sanitise_text(value: &str, max_len: usize) -> (r: String)
    ensures
        r@ == sanitised_text(value@, max_len as nat),
{
    let chars = chars_of(value);
    let kept = drop_controls(&chars);
    let mut taken: Vec<char> = Vec::new();
    let mut i: usize = 0;
    while i < kept.len() && i < max_len
        invariant
            i <= kept@.len(),
            i <= max_len,
            taken@ == kept@.subrange(0, i as int),
        decreases kept.len() - i,
    {
        taken.push(kept[i]);
        i = i + 1;
        assert(taken@ =~= kept@.subrange(0, i as int));
    }
    assert(taken@ =~= first_n(kept@, max_len as nat));
    let cleaned = trim_chars(&taken);
    string_from_chars(&cleaned)
}

fn sanitise_fields(fields: &Vec<TelemetryField>, config: &TelemetryConfig) -> (r: Vec<TelemetryField>)
    ensures
        field_texts(r@) == kept_fields(first_n(fields@, config.max_field_count as nat), config),
{
    let mut out: Vec<TelemetryField> = Vec::new();
    let mut i: usize = 0;
    while i < fields.len() && i < config.max_field_count
        invariant
            i <= fields@.len(),
            i <= config.max_field_count,
            field_texts(out@) == kept_fields(fields@.subrange(0, i as int), config),
        decreases fields.len() - i,
    {
        let field = &fields[i];
        let ghost sub = fields@.subrange(0, i + 1);
        assert(sub.drop_last() =~= fields@.subrange(0, i as int));
        assert(sub.last() == *field);
        let key_ok = validate_bounded_string(field.key.as_str(), config.max_field_key_len);
        let value = sanitise_text(field.value.as_str(), config.max_field_value_len);
        if key_ok && value.as_str().unicode_len() > 0 {
            let ghost before = out@;
            out.push(TelemetryField { key: field.key.clone(), value });
            assert(field_texts(out@) =~= field_texts(before).push((field.key@, value@)));
        }
        i = i + 1;
    }
    assert(fields@.subrange(0, i as int) =~= first_n(fields@, config.max_field_count as nat));
    out
}

/// The event as delivered, or `None` when its identifiers are out of bounds.
pub fn sanitise_event(event: &TelemetryEvent, config: &TelemetryConfig) -> (r: Option<TelemetryEvent>)
    ensures
        r is Some == sanitised_event(event, config) is Some,
        r matches Some(e) ==> Some(e.text()) == sanitised_event(event, config),
{
    if !validate_bounded_string(event.event_id.as_str(), MAX_EVENT_ID_LEN) {
        return None;
    }
    if !validate_bounded_string(event.stream.as_str(), MAX_EVENT_STREAM_LEN) {
        return None;
    }
    if !validate_bounded_string(event.category.as_str(), MAX_EVENT_ID_LEN) {
        return None;
    }
    let message = sanitise_text(event.message.as_str(), config.max_field_value_len);
    let fields = sanitise_fields(&event.fields, config);
    let r = TelemetryEvent {
        event_id: event.event_id.clone(),
        stream: event.stream.clone(),
        category: event.category.clone(),
        severity: event.severity,
        timestamp_unix_ms: event.timestamp_unix_ms,
        message,
        fields,
    };
    Some(r)
}

proof fn lemma_saturating_step(acc: int, n: int)
    requires
        acc >= 0,
        n >= 0,
    ensures
        clamp_u64(clamp_u64(acc) + n) == clamp_u64(acc + n),
{
}

/// The bytes an event puts into a batch, held at `u64::MAX`.
pub fn estimate_event_bytes(event: &TelemetryEvent) -> (r: u64)
    ensures
        r == clamp_u64(event_size(event.text()) as int),
{
    let mut total: u64 = event.event_id.as_str().as_bytes().len() as u64;
    total = total.saturating_add(event.stream.as_str().as_bytes().len() as u64);
    total = total.saturating_add(event.category.as_str().as_bytes().len() as u64);
    total = total.saturating_add(event.message.as_str().as_bytes().len() as u64);
    let ghost head: int = (byte_len(event.event_id@) + byte_len(event.stream@) + byte_len(event.category@)
        + byte_len(event.message@)) as int;
    assert(total == clamp_u64(head));
    let fields = &event.fields;
    let mut i: usize = 0;
    assert(field_texts(fields@.subrange(0, 0)) =~= Seq::<(Seq<char>, Seq<char>)>::empty());
    assert(fields_size(field_texts(fields@.subrange(0, 0))) == 0);
    while i < fields.len()
        invariant
            i <= fields@.len(),
            fields == &event.fields,
            head >= 0,
            total == clamp_u64(head + fields_size(field_texts(fields@.subrange(0, i as int)))),
        decreases fields.len() - i,
    {
        let ghost prev = field_texts(fields@.subrange(0, i as int));
        let ghost next = field_texts(fields@.subrange(0, i + 1));
        assert(next.drop_last() =~= prev);
        let key_len = fields[i].key.as_str().as_bytes().len() as u64;
        let value_len = fields[i].value.as_str().as_bytes().len() as u64;
        proof {
            lemma_saturating_step(head + fields_size(prev), key_len as int);
            lemma_saturating_step(head + fields_size(prev) + key_len, value_len as int);
        }
        total = total.saturating_add(key_len).saturating_add(value_len);
        i = i + 1;
    }
    assert(fields@.subrange(0, fields@.len() as int) =~= fields@);
    total
}

fn append_text(out: &mut Vec<u8>, s: &String)
    ensures
        final(out)@ == old(out)@ + encode_utf8(s@),
{
    append_bytes(out, s.as_str().as_bytes());
}

fn event_bytes(out: &mut Vec<u8>, event: &TelemetryEvent)
    ensures
        final(out)@ == old(out)@ + event_message(event.text()),
{
    let ghost start = out@;
    append_text(out, &event.event_id);
    append_text(out, &event.stream);
    append_text(out, &event.category);
    append_le_u64(out, event.timestamp_unix_ms);
    append_text(out, &event.message);
    let ghost head = out@;
    let fields = &event.fields;
    let mut i: usize = 0;
    while i < fields.len()
        invariant
            i <= fields@.len(),
            fields == &event.fields,
            out@ == head + fields_message(field_texts(fields@.subrange(0, i as int))),
        decreases fields.len() - i,
    {
        let ghost next = field_texts(fields@.subrange(0, i + 1));
        assert(next.drop_last() =~= field_texts(fields@.subrange(0, i as int)));
        append_text(out, &fields[i].key);
        append_text(out, &fields[i].value);
        i = i + 1;
        assert(out@ =~= head + fields_message(field_texts(fields@.subrange(0, i as int))));
    }
    assert(fields@.subrange(0, fields@.len() as int) =~= fields@);
    assert(out@ =~= start + event_message(event.text()));
}

pub open spec fn texts_of(events: Seq<TelemetryEvent>) -> Seq<EventText> {
    events.map_values(|e: TelemetryEvent| e.text())
}

fn batch_bytes(events: &Vec<TelemetryEvent>) -> (r: Vec<u8>)
    ensures
        r@ == batch_message(texts_of(events@)),
{
    let mut out: Vec<u8> = Vec::new();
    let mut i: usize = 0;
    while i < events.len()
        invariant
            i <= events@.len(),
            out@ == batch_message(texts_of(events@.subrange(0, i as int))),
        decreases events.len() - i,
    {
        let ghost next = texts_of(events@.subrange(0, i + 1));
        assert(next.drop_last() =~= texts_of(events@.subrange(0, i as int)));
        event_bytes(&mut out, &events[i]);
        i = i + 1;
    }
    assert(events@.subrange(0, events@.len() as int) =~= events@);
    out
}

/// The batch that `events` make under `config`, created at `now_unix_ms`.
pub fn prepare_batch_at(events: &[TelemetryEvent], config: &TelemetryConfig, now_unix_ms: u64) -> (r: TelemetryBatch)
    ensures
        ({
            let t = tally(events@, config, tried_count(events@, config));
            &&& r.event_count == t.accepted.len()
            &&& r.dropped_count == t.dropped
            &&& r.total_payload_bytes == t.total
            &&& r.checksum_sha256@ == hex_of(sha256_of(batch_message(t.accepted)))
        }),
        r.stream == config.stream,
        r.created_at_unix_ms == now_unix_ms,
        r.batch_id@ == "siem-"@ + config.stream@ + "-"@ + decimal(now_unix_ms as nat),
{
    let mut accepted: Vec<TelemetryEvent> = Vec::new();
    let mut dropped_count: usize = 0;
    let mut total_payload_bytes: u64 = 0;
    let mut i: usize = 0;
    while i < events.len() && i < config.max_events
        invariant
            i <= events@.len(),
            i <= config.max_events,
            ({
                let t = tally(events@, config, i as nat);
                &&& texts_of(accepted@) == t.accepted
                &&& dropped_count == t.dropped
                &&& total_payload_bytes == t.total
            }),
            total_payload_bytes <= config.max_batch_bytes,
            dropped_count <= i,
        decreases events.len() - i,
    {
        let ghost prev_texts = texts_of(accepted@);
        match sanitise_event(&events[i], config) {
            Some(sanitised) => {
                let size = estimate_event_bytes(&sanitised);
                if size > config.max_event_bytes {
                    dropped_count = dropped_count + 1;
                } else if total_payload_bytes.saturating_add(size) > config.max_batch_bytes {
                    dropped_count = dropped_count + 1;
                } else {
                    total_payload_bytes = total_payload_bytes.saturating_add(size);
                    accepted.push(sanitised);
                    assert(texts_of(accepted@) =~= prev_texts.push(sanitised.text()));
                }
            },
            None => {
                dropped_count = dropped_count + 1;
            },
        }
        i = i + 1;
    }
    assert(i as nat == tried_count(events@, config));
    let message = batch_bytes(&accepted);
    let checksum_sha256 = sha256_hex(message.as_slice());
    let mut batch_id = String::from_str("siem-");
    batch_id.append(config.stream.as_str());
    batch_id.append("-");
    let stamp = decimal_string(now_unix_ms);
    batch_id.append(stamp.as_str());
    TelemetryBatch {
        batch_id,
        stream: config.stream.clone(),
        event_count: accepted.len(),
        dropped_count,
        total_payload_bytes,
        checksum_sha256,
        created_at_unix_ms: now_unix_ms,
    }
}

/// The batch that `events` make under `config`, stamped with the current
/// wall-clock time.
pub fn prepare_telemetry_batch_from_events(events: &[TelemetryEvent], config: &TelemetryConfig) -> (r: TelemetryBatch)
    ensures
        ({
            let t = tally(events@, config, tried_count(events@, config));
            &&& r.event_count == t.accepted.len()
            &&& r.dropped_count == t.dropped
            &&& r.total_payload_bytes == t.total
            &&& r.checksum_sha256@ == hex_of(sha256_of(batch_message(t.accepted)))
        }),
        r.stream == config.stream,
        r.batch_id@ == "siem-"@ + config.stream@ + "-"@ + decimal(r.created_at_unix_ms as nat),
{
    let now = unix_time_ms();
    prepare_batch_at(events, config, now)
}

/// The position of the first `c` in `s`.
pub open spec fn first_index(s: Seq<char>, c: char) -> Option<nat>
    decreases s.len(),
{
    if s.len() == 0 {
        None
    } else if s[0] == c {
        Some(0)
    } else {
        match first_index(s.drop_first(), c) {
            Some(i) => Some(i + 1),
            None => None,
        }
    }
}

proof fn lemma_first_index(s: Seq<char>, c: char, i: int)
    requires
        0 <= i <= s.len(),
        forall|j: int| 0 <= j < i ==> s[j] != c,
        i < s.len() ==> s[i] == c,
    ensures
        first_index(s, c) == if i < s.len() {
            Some(i as nat)
        } else {
            None
        },
    decreases i,
{
    if i > 0 {
        assert forall|j: int| 0 <= j < i - 1 implies s.drop_first()[j] != c by {
            assert(s.drop_first()[j] == s[j + 1]);
        }
        lemma_first_index(s.drop_first(), c, i - 1);
    }
}

/// One `key=value` entry: split at the first `=`, both sides trimmed and
/// non-empty.
pub open spec fn parsed_field(entry: Seq<char>) -> Option<(Seq<char>, Seq<char>)> {
    match first_index(entry, '=') {
        None => None,
        Some(i) => {
            let key = trimmed(entry.subrange(0, i as int));
            let value = trimmed(entry.subrange((i + 1) as int, entry.len() as int));
            if key.len() > 0 && value.len() > 0 {
                Some((key, value))
            } else {
                None
            }
        },
    }
}

pub open spec fn parsed_entries(entries: Seq<Seq<char>>) -> Seq<(Seq<char>, Seq<char>)>
    decreases entries.len(),
{
    if entries.len() == 0 {
        Seq::empty()
    } else {
        let prev = parsed_entries(entries.drop_last());
        match parsed_field(entries.last()) {
            Some(f) => prev.push(f),
            None => prev,
        }
    }
}

/// The well-formed `key=value` entries of a `;`-separated list.
pub open spec fn parsed_fields(value: Seq<char>) -> Seq<(Seq<char>, Seq<char>)> {
    parsed_entries(split_on(value, ';'))
}

/// A severity word, read without regard to case; anything unknown is
/// informational.
pub open spec fn severity_of(raw: Seq<char>) -> TelemetrySeverity {
    let word = lower_of(raw);
    if word == "critical"@ {
        TelemetrySeverity::Critical
    } else if word == "high"@ {
        TelemetrySeverity::High
    } else if word == "medium"@ {
        TelemetrySeverity::Medium
    } else if word == "low"@ {
        TelemetrySeverity::Low
    } else {
        TelemetrySeverity::Informational
    }
}

/// A line `category|severity|message|fields` read into an event, or `None`
/// for a blank line. Missing parts default to an informational severity, an
/// empty message and no fields; parts after the fourth are ignored.
pub open spec fn parsed_line(line: Seq<char>, index: nat, stream: Seq<char>, now: u64) -> Option<EventText> {
    let t = trimmed(line);
    if t.len() == 0 {
        None
    } else {
        let parts = split_on(t, '|');
        Some(
            EventText {
                event_id: "evt-"@ + decimal(now as nat) + "-"@ + decimal(index),
                stream: stream,
                category: trimmed(parts[0]),
                severity: severity_of(
                    if parts.len() > 1 {
                        trimmed(parts[1])
                    } else {
                        "informational"@
                    },
                ),
                timestamp_unix_ms: now,
                message: if parts.len() > 2 {
                    trimmed(parts[2])
                } else {
                    Seq::empty()
                },
                fields: parsed_fields(
                    if parts.len() > 3 {
                        parts[3]
                    } else {
                        Seq::empty()
                    },
                ),
            },
        )
    }
}

/// The events of the lines of `raw`, numbered by line.
pub open spec fn ingested(lines: Seq<Seq<char>>, stream: Seq<char>, now: u64) -> Seq<EventText>
    decreases lines.len(),
{
    if lines.len() == 0 {
        Seq::empty()
    } else {
        let prev = ingested(lines.drop_last(), stream, now);
        match parsed_line(lines.last(), (lines.len() - 1) as nat, stream, now) {
            Some(e) => prev.push(e),
            None => prev,
        }
    }
}

fn parse_field(entry: &Vec<char>) -> (r: Option<TelemetryField>)
    ensures
        r is Some == parsed_field(entry@) is Some,
        r matches Some(f) ==> parsed_field(entry@) == Some((f.key@, f.value@)),
{
    let mut i: usize = 0;
    while i < entry.len() && entry[i] != '='
        invariant
            i <= entry@.len(),
            forall|j: int| 0 <= j < i ==> entry@[j] != '=',
        decreases entry.len() - i,
    {
        i = i + 1;
    }
    proof {
        lemma_first_index(entry@, '=', i as int);
    }
    if i == entry.len() {
        return None;
    }
    let mut key_chars: Vec<char> = Vec::new();
    let mut k: usize = 0;
    while k < i
        invariant
            k <= i < entry@.len(),
            key_chars@ == entry@.subrange(0, k as int),
        decreases i - k,
    {
        key_chars.push(entry[k]);
        k = k + 1;
        assert(key_chars@ =~= entry@.subrange(0, k as int));
    }
    let mut value_chars: Vec<char> = Vec::new();
    let mut m: usize = i + 1;
    while m < entry.len()
        invariant
            i < m <= entry@.len(),
            value_chars@ == entry@.subrange(i + 1, m as int),
        decreases entry.len() - m,
    {
        value_chars.push(entry[m]);
        m = m + 1;
        assert(value_chars@ =~= entry@.subrange(i + 1, m as int));
    }
    let key = trim_chars(&key_chars);
    let value = trim_chars(&value_chars);
    if key.len() == 0 || value.len() == 0 {
        return None;
    }
    Some(TelemetryField { key: string_from_chars(&key), value: string_from_chars(&value) })
}

fn parse_field_list(raw: &Vec<char>) -> (r: Vec<TelemetryField>)
    ensures
        field_texts(r@) == parsed_fields(raw@),
{
    let entries = split_chars(raw, ';');
    let ghost views = chars_views(entries@);
    let mut out: Vec<TelemetryField> = Vec::new();
    let mut i: usize = 0;
    while i < entries.len()
        invariant
            i <= entries@.len(),
            views == chars_views(entries@),
            views == split_on(raw@, ';'),
            field_texts(out@) == parsed_entries(views.subrange(0, i as int)),
        decreases entries.len() - i,
    {
        let ghost sub = views.subrange(0, i + 1);
        assert(sub.drop_last() =~= views.subrange(0, i as int));
        assert(sub.last() == entries@[i as int]@);
        let ghost before = out@;
        match parse_field(&entries[i]) {
            Some(field) => {
                out.push(field);
                assert(field_texts(out@) =~= field_texts(before).push((field.key@, field.value@)));
            },
            None => {},
        }
        i = i + 1;
    }
    assert(views.subrange(0, entries@.len() as int) =~= views);
    out
}

/// The well-formed `key=value` entries of a `;`-separated list.
pub fn parse_fields(value: &str) -> (r: Vec<TelemetryField>)
    ensures
        field_texts(r@) == parsed_fields(value@),
{
    let chars = chars_of(value);
    parse_field_list(&chars)
}

fn severity_of_chars(raw: &Vec<char>) -> (r: TelemetrySeverity)
    ensures
        r == severity_of(raw@),
{
    let word = lowercase(raw);
    if chars_equal(&word, &chars_of("critical")) {
        TelemetrySeverity::Critical
    } else if chars_equal(&word, &chars_of("high")) {
        TelemetrySeverity::High
    } else if chars_equal(&word, &chars_of("medium")) {
        TelemetrySeverity::Medium
    } else if chars_equal(&word, &chars_of("low")) {
        TelemetrySeverity::Low
    } else {
        TelemetrySeverity::Informational
    }
}

/// A severity word, read without regard to case.
pub fn parse_severity(value: &str) -> (r: TelemetrySeverity)
    ensures
        r == severity_of(value@),
{
    severity_of_chars(&chars_of(value))
}

fn parse_line_chars(line: &Vec<char>, index: usize, stream: &str, now: u64) -> (r: Option<TelemetryEvent>)
    ensures
        r is Some == parsed_line(line@, index as nat, stream@, now) is Some,
        r matches Some(e) ==> parsed_line(line@, index as nat, stream@, now) == Some(e.text()),
{
    let t = trim_chars(line);
    if t.len() == 0 {
        return None;
    }
    let parts = split_chars(&t, '|');
    let ghost views = chars_views(parts@);
    proof {
        lemma_split_nonempty(t@, '|');
        assert(views[0] == parts@[0]@);
    }
    let category = trim_chars(&parts[0]);
    let severity = if parts.len() > 1 {
        assert(views[1] == parts@[1]@);
        severity_of_chars(&trim_chars(&parts[1]))
    } else {
        severity_of_chars(&chars_of("informational"))
    };
    let message = if parts.len() > 2 {
        assert(views[2] == parts@[2]@);
        trim_chars(&parts[2])
    } else {
        Vec::new()
    };
    let fields = if parts.len() > 3 {
        assert(views[3] == parts@[3]@);
        parse_field_list(&parts[3])
    } else {
        parse_field_list(&Vec::new())
    };
    let mut event_id = String::from_str("evt-");
    let stamp = decimal_string(now);
    event_id.append(stamp.as_str());
    event_id.append("-");
    let number = decimal_string(index as u64);
    event_id.append(number.as_str());
    let event = TelemetryEvent {
        event_id,
        stream: String::from_str(stream),
        category: string_from_chars(&category),
        severity,
        timestamp_unix_ms: now,
        message: string_from_chars(&message),
        fields,
    };
    assert(event.text().message == (if parts@.len() > 2 { trimmed(views[2]) } else { Seq::<char>::empty() }));
    Some(event)
}

/// A line `category|severity|message|fields` read into an event numbered
/// `index`, or `None` for a blank line.
pub fn parse_event_line(line: &str, index: usize, stream: &str, now: u64) -> (r: Option<TelemetryEvent>)
    ensures
        r is Some == parsed_line(line@, index as nat, stream@, now) is Some,
        r matches Some(e) ==> parsed_line(line@, index as nat, stream@, now) == Some(e.text()),
{
    parse_line_chars(&chars_of(line), index, stream, now)
}

/// The events of the lines of `raw`, one line per `\n`, numbered from zero;
/// blank lines give none. A carriage return before a line end is trimmed with
/// the other white space.
pub fn ingest_events(raw: &str, stream: &str, now: u64) -> (r: Vec<TelemetryEvent>)
    ensures
        texts_of(r@) == ingested(split_on(raw@, '\n'), stream@, now),
{
    let lines = split_chars(&chars_of(raw), '\n');
    let ghost views = chars_views(lines@);
    let mut events: Vec<TelemetryEvent> = Vec::new();
    let mut i: usize = 0;
    while i < lines.len()
        invariant
            i <= lines@.len(),
            views == chars_views(lines@),
            views == split_on(raw@, '\n'),
            texts_of(events@) == ingested(views.subrange(0, i as int), stream@, now),
        decreases lines.len() - i,
    {
        let ghost sub = views.subrange(0, i + 1);
        assert(sub.drop_last() =~= views.subrange(0, i as int));
        assert(sub.last() == lines@[i as int]@);
        let ghost before = events@;
        match parse_line_chars(&lines[i], i, stream, now) {
            Some(event) => {
                events.push(event);
                assert(texts_of(events@) =~= texts_of(before).push(event.text()));
            },
            None => {},
        }
        i = i + 1;
    }
    assert(views.subrange(0, lines@.len() as int) =~= views);
    events
}

} // verus!
