//! A bounded history of the errors that were shown to the user.

use crate::commands::{Content, EventEmitter, FieldContent, FieldValue, Payload};
use crate::perf;
use crate::text;
use std::collections::VecDeque;
use vstd::prelude::*;

verus! {

/// One recorded error.
#[derive(Debug, PartialEq, Eq)]
pub struct ErrorRecord {
    /// When it was recorded.
    pub timestamp: String,
    /// Event name (e.g. "speech-error").
    pub event: String,
    /// The message it carried, cut to the limit.
    pub message: String,
}

impl Clone for ErrorRecord {
    fn clone(&self) -> (r: Self)
        ensures
            r == *self,
    {
        ErrorRecord {
            timestamp: self.timestamp.clone(),
            event: self.event.clone(),
            message: self.message.clone(),
        }
    }
}

/// The text of the first field of this name; none where there is no such field or it is a number.
pub open spec fn field_text(fields: Seq<(Seq<char>, FieldContent)>, name: Seq<char>) -> Option<
    Seq<char>,
>
    decreases fields.len(),
{
    if fields.len() == 0 {
        None
    } else if fields[0].0 == name {
        match fields[0].1 {
            FieldContent::Text(t) => Some(t),
            FieldContent::Number(_) => None,
        }
    } else {
        field_text(fields.skip(1), name)
    }
}

/// The message that a payload carries: the payload itself where it is a text, or its `message`
/// field.
pub open spec fn message_in(payload: Content) -> Seq<char> {
    match payload {
        Content::Text(t) => t,
        Content::Fields(f) => match field_text(f, "message"@) {
            Some(t) => t,
            None => seq![],
        },
        _ => seq![],
    }
}

/// The message that a payload carries, cut to the limit.
pub fn extract_message(payload: &Payload) -> (s: String)
    ensures
        s@ == text::shortened(message_in(payload@), ErrorHistory::MAX_MESSAGE_CHARS as nat),
{
    match payload {
        Payload::Text(t) => text::take_chars(t.as_str(), ErrorHistory::MAX_MESSAGE_CHARS),
        Payload::Fields(fields) => {
            let ghost all = payload@->Fields_0;
            let mut i: usize = 0;
            assert(all.skip(0) =~= all);
            while i < fields.len()
                invariant
                    i <= fields@.len(),
                    payload@ == Content::Fields(all),
                    all.len() == fields@.len(),
                    forall|k: int|
                        0 <= k < fields@.len() ==> all[k] == ((#[trigger] fields@[k]).name@, fields@[k].value@),
                    field_text(all, "message"@) == field_text(all.skip(i as int), "message"@),
                decreases fields@.len() - i,
            {
                if text::same_text(fields[i].name.as_str(), "message") {
                    assert(all.skip(i as int)[0] == all[i as int]);
                    return match &fields[i].value {
                        FieldValue::Text(t) => text::take_chars(
                            t.as_str(),
                            ErrorHistory::MAX_MESSAGE_CHARS,
                        ),
                        FieldValue::Number(_) => String::new(),
                    };
                }
                assert(all.skip(i as int)[0] == all[i as int]);
                assert(all.skip(i as int).skip(1) =~= all.skip(i + 1));
                i = i + 1;
            }
            let s = String::new();
            assert(s@ =~= seq![]);
            s
        },
        _ => {
            let s = String::new();
            assert(s@ =~= seq![]);
            s
        },
    }
}

/// The record of an event.
pub open spec fn records(r: ErrorRecord, timestamp: Seq<char>, event: Seq<char>, payload: Content) -> bool {
    &&& r.timestamp@ == timestamp
    &&& r.event@ == event
    &&& r.message@ == text::shortened(
        message_in(payload),
        ErrorHistory::MAX_MESSAGE_CHARS as nat,
    )
}

/// Bounded history of the latest errors.
pub struct ErrorHistory {
    buffer: VecDeque<ErrorRecord>,
}

impl ErrorHistory {
    /// Maximum number of records retained.
    pub const CAPACITY: usize = 20;

    /// Maximum length of a message in characters.
    pub const MAX_MESSAGE_CHARS: usize = 500;

    /// The records, oldest first.
    pub closed spec fn entries(self) -> Seq<ErrorRecord> {
        self.buffer@
    }

    /// The history keeps within its capacity.
    pub open spec fn wf(self) -> bool {
        self.entries().len() <= Self::CAPACITY
    }

    pub fn new() -> (h: Self)
        ensures
            h.wf(),
            h.entries() == Seq::<ErrorRecord>::empty(),
    {
        ErrorHistory { buffer: VecDeque::new() }
    }

    /// Append a record; the oldest ones give way.
    pub fn record(&mut self, timestamp: &str, event: &str, payload: &Payload)
        requires
            old(self).wf(),
        ensures
            final(self).wf(),
            final(self).entries().len() > 0,
            records(final(self).entries().last(), timestamp@, event@, payload@),
            final(self).entries() == perf::last_of(
                old(self).entries().push(final(self).entries().last()),
                Self::CAPACITY as nat,
            ),
    {
        let r = ErrorRecord {
            timestamp: timestamp.to_owned(),
            event: event.to_owned(),
            message: extract_message(payload),
        };
        if self.buffer.len() >= Self::CAPACITY {
            self.buffer.pop_front();
        }
        let ghost kept = r;
        self.buffer.push_back(r);
        assert(self.entries().last() == kept);
        assert(self.entries() =~= perf::last_of(
            old(self).entries().push(kept),
            Self::CAPACITY as nat,
        ));
    }

    /// Return the last `n` records (most recent last), by default three.
    pub fn recent(&self, n: Option<usize>) -> (v: Vec<ErrorRecord>)
        ensures
            v@ == perf::last_of(
                self.entries(),
                match n {
                    Some(k) => k as nat,
                    None => 3,
                },
            ),
    {
        let n: usize = n.unwrap_or(3);
        let len: usize = self.buffer.len();
        let from: usize = if len <= n {
            0
        } else {
            len - n
        };
        let mut v: Vec<ErrorRecord> = Vec::new();
        let mut i: usize = from;
        while i < len
            invariant
                from <= i <= len,
                len == self.buffer@.len(),
                v@ == self.buffer@.subrange(from as int, i as int),
            decreases len - i,
        {
            v.push(self.buffer[i].clone());
            i = i + 1;
        }
        assert(v@ =~= perf::last_of(self.entries(), n as nat));
        v
    }
}

impl Default for ErrorHistory {
    fn default() -> (h: Self)
        ensures
            h.wf(),
            h.entries() == Seq::<ErrorRecord>::empty(),
    {
        Self::new()
    }
}

/// The events that are kept in the history.
pub open spec fn is_error_event(name: Seq<char>) -> bool {
    ||| name == "speech-error"@
    ||| name == "llm-error"@
    ||| name == "injection-error"@
    ||| name == "record-only-error"@
    ||| name == "transcription-error"@
    ||| name == "hotkey-error"@
}

/// Whether an event is kept in the history.
pub fn is_recorded_event(name: &str) -> (r: bool)
    ensures
        r == is_error_event(name@),
{
    text::same_text(name, "speech-error") || text::same_text(name, "llm-error") || text::same_text(
        name,
        "injection-error",
    ) || text::same_text(name, "record-only-error") || text::same_text(name, "transcription-error")
        || text::same_text(name, "hotkey-error")
}

/// Emitter that keeps error events in a history and passes every event on.
pub struct RecordingEmitter<E: EventEmitter> {
    pub inner: E,
    pub history: ErrorHistory,
}

impl<E: EventEmitter> RecordingEmitter<E> {
    pub fn new(inner: E, history: ErrorHistory) -> (r: Self)
        ensures
            r == (RecordingEmitter { inner, history }),
    {
        RecordingEmitter { inner, history }
    }

    /// Emit an event at a time: it is recorded if it is an error, and passed on in any case.
    pub fn emit_at(&mut self, timestamp: &str, event: &str, payload: Payload)
        requires
            old(self).history.wf(),
        ensures
            final(self).history.wf(),
            final(self).inner.emitted() == old(self).inner.emitted().push((event@, payload@)),
            is_error_event(event@) ==> {
                let kept = final(self).history.entries();
                &&& kept.len() > 0
                &&& records(kept.last(), timestamp@, event@, payload@)
                &&& kept == perf::last_of(
                    old(self).history.entries().push(kept.last()),
                    ErrorHistory::CAPACITY as nat,
                )
            },
            !is_error_event(event@) ==> final(self).history == old(self).history,
    {
        if is_recorded_event(event) {
            self.history.record(timestamp, event, &payload);
        }
        self.inner.emit(event, payload);
    }
}

/// Recording one error more keeps the latest ones: of a history that was full the oldest is gone,
/// everything else stays in order.
pub proof fn the_latest_errors_are_kept(entries: Seq<ErrorRecord>, r: ErrorRecord)
    requires
        entries.len() <= ErrorHistory::CAPACITY,
    ensures
        perf::last_of(entries.push(r), ErrorHistory::CAPACITY as nat) == (if entries.len()
            == ErrorHistory::CAPACITY {
            entries.skip(1).push(r)
        } else {
            entries.push(r)
        }),
{
    assert(perf::last_of(entries.push(r), ErrorHistory::CAPACITY as nat) =~= (if entries.len()
        == ErrorHistory::CAPACITY {
        entries.skip(1).push(r)
    } else {
        entries.push(r)
    }));
}

/// The message of an error is its text, or the text of its field of that name, cut to five hundred
/// characters; an event without one has none.
pub proof fn the_message_is_found(payload: Payload, s: String, i: int)
    requires
        call_ensures(extract_message, (&payload,), s),
    ensures
        s@.len() <= 500,
        payload matches Payload::Text(t) ==> s@ == (if t@.len() <= 500 {
            t@
        } else {
            t@.take(500)
        }),
        payload is Null || payload is Metrics ==> s@.len() == 0,
        payload matches Payload::Fields(f) ==> 0 <= i < f@.len() && f@[i].name@ == "message"@ && (
        forall|k: int| 0 <= k < i ==> (#[trigger] f@[k]).name@ != "message"@) ==> s@ == (
        match f@[i].value {
            FieldValue::Text(t) => if t@.len() <= 500 {
                t@
            } else {
                t@.take(500)
            },
            FieldValue::Number(_) => seq![],
        }),
        payload matches Payload::Fields(f) ==> (forall|k: int|
            0 <= k < f@.len() ==> (#[trigger] f@[k]).name@ != "message"@) ==> s@.len() == 0,
{
    if let Payload::Fields(f) = payload {
        let all = payload@->Fields_0;
        assert forall|k: int| 0 <= k < f@.len() implies #[trigger] all[k] == (
            f@[k].name@,
            f@[k].value@,
        ) by {}
        if 0 <= i < f@.len() && f@[i].name@ == "message"@ && (forall|k: int|
            0 <= k < i ==> (#[trigger] f@[k]).name@ != "message"@) {
            assert forall|k: int| 0 <= k < i implies (#[trigger] all[k]).0 != "message"@ by {
                assert(f@[k].name@ != "message"@);
            }
            earlier_fields_do_not_matter(all, "message"@, i);
            assert(all.skip(i)[0] == all[i]);
            if f@[i].value is Number {
                assert(s@ =~= seq![]);
            }
        }
        if forall|k: int| 0 <= k < f@.len() ==> (#[trigger] f@[k]).name@ != "message"@ {
            assert forall|k: int| 0 <= k < all.len() implies (#[trigger] all[k]).0 != "message"@ by {
                assert(f@[k].name@ != "message"@);
            }
            earlier_fields_do_not_matter(all, "message"@, all.len() as int);
        }
    }
}

proof fn earlier_fields_do_not_matter(
    fields: Seq<(Seq<char>, FieldContent)>,
    name: Seq<char>,
    i: int,
)
    requires
        0 <= i <= fields.len(),
        forall|k: int| 0 <= k < i ==> (#[trigger] fields[k]).0 != name,
    ensures
        field_text(fields, name) == field_text(fields.skip(i), name),
    decreases i,
{
    if i == 0 {
        assert(fields.skip(0) =~= fields);
    } else {
        assert(fields[0].0 != name);
        let rest = fields.skip(1);
        assert forall|k: int| 0 <= k < i - 1 implies (#[trigger] rest[k]).0 != name by {
            assert(fields[k + 1].0 != name);
        }
        earlier_fields_do_not_matter(rest, name, i - 1);
        assert(rest.skip(i - 1) =~= fields.skip(i));
    }
}

/// Six kinds of events are errors, and no other.
pub proof fn six_kinds_of_events_are_errors(name: &str, r: bool)
    requires
        call_ensures(is_recorded_event, (name,), r),
    ensures
        r == is_error_event(name@),
        r <==> seq![
            "speech-error"@,
            "llm-error"@,
            "injection-error"@,
            "record-only-error"@,
            "transcription-error"@,
            "hotkey-error"@,
        ].contains(name@),
{
    let all = seq![
        "speech-error"@,
        "llm-error"@,
        "injection-error"@,
        "record-only-error"@,
        "transcription-error"@,
        "hotkey-error"@,
    ];
    assert(all[0] == "speech-error"@ && all[1] == "llm-error"@ && all[2] == "injection-error"@);
    assert(all[3] == "record-only-error"@ && all[4] == "transcription-error"@ && all[5]
        == "hotkey-error"@);
}

/// The latest errors are shown in the order in which they came, three unless asked otherwise; of all
/// of them the last twenty are kept.
pub proof fn the_latest_errors_are_shown(
    h: &mut ErrorHistory,
    timestamp: &str,
    event: &str,
    payload: Payload,
    done: (),
    n: Option<usize>,
    v: Vec<ErrorRecord>,
    message: String,
    j: int,
)
    requires
        old(h).wf(),
        call_ensures(ErrorHistory::record, (h, timestamp, event, &payload), done),
        call_ensures(ErrorHistory::recent, (&*final(h), n), v),
        call_ensures(extract_message, (&payload,), message),
    ensures
        ({
            let before = old(h).entries();
            let kept = if before.len() < 20 {
                (before.len() + 1) as int
            } else {
                20
            };
            let asked = if n is Some {
                n->0 as int
            } else {
                3
            };
            &&& final(h).entries().len() == kept
            &&& v@.len() == (if asked < kept {
                asked
            } else {
                kept
            })
            &&& v@.len() > 0 ==> v@.last().timestamp@ == timestamp@ && v@.last().event@ == event@
                && v@.last().message@ == message@
            &&& 0 < j < v@.len() ==> v@[v@.len() - 1 - j] == before[before.len() - j]
        }),
{
}

/// An emitter passes every event on as it is, and keeps errors.
pub proof fn events_are_passed_on<E: EventEmitter>(
    r: &mut RecordingEmitter<E>,
    timestamp: &str,
    event: &str,
    payload: Payload,
    done: (),
    error: bool,
)
    requires
        old(r).history.wf(),
        call_ensures(RecordingEmitter::<E>::emit_at, (r, timestamp, event, payload), done),
        call_ensures(is_recorded_event, (event,), error),
    ensures
        final(r).inner.emitted() == old(r).inner.emitted().push((event@, payload@)),
        !error ==> final(r).history == old(r).history,
        error ==> final(r).history.entries().len() > 0
            && final(r).history.entries().last().timestamp@ == timestamp@
            && final(r).history.entries().last().event@ == event@,
{
}

} // verus!
