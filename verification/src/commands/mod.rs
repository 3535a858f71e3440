//! Commands and the pipeline behind them.
//!
//! What has to happen outside (windows, clipboard, events, files) is described by lists of
//! actions; the host performs them in order and reports back what came of them.

pub mod actions;
pub mod data_management;
pub mod delivery_controller;
pub mod download;
pub mod error_history;
pub mod pipeline_state;
pub mod record_only_session;
pub mod recording_session;
pub mod review;
pub mod review_provider;
pub mod settings;
pub mod text_injector;
pub mod transcribe;
pub mod window_controller;

use vstd::prelude::*;

verus! {

/// The value of a field of an event payload.
#[derive(Debug)]
pub enum FieldValue {
    Text(String),
    Number(u64),
}

/// A field of an event payload.
#[derive(Debug)]
pub struct Field {
    pub name: String,
    pub value: FieldValue,
}

/// What an event carries.
#[derive(Debug)]
pub enum Payload {
    Null,
    Text(String),
    Fields(Vec<Field>),
    Metrics(crate::perf::PerfMetrics),
}

/// What the value of a field says.
pub enum FieldContent {
    Text(Seq<char>),
    Number(u64),
}

/// What a payload says.
pub enum Content {
    Null,
    Text(Seq<char>),
    Fields(Seq<(Seq<char>, FieldContent)>),
    Metrics(crate::perf::PerfMetrics),
}

impl View for FieldValue {
    type V = FieldContent;

    open spec fn view(&self) -> FieldContent {
        match self {
            FieldValue::Text(s) => FieldContent::Text(s@),
            FieldValue::Number(n) => FieldContent::Number(*n),
        }
    }
}

impl View for Payload {
    type V = Content;

    open spec fn view(&self) -> Content {
        match self {
            Payload::Null => Content::Null,
            Payload::Text(s) => Content::Text(s@),
            Payload::Fields(f) => Content::Fields(f@.map_values(|x: Field| (x.name@, x.value@))),
            Payload::Metrics(m) => Content::Metrics(*m),
        }
    }
}

/// A payload with one text field.
pub fn text_field(name: &str, value: &str) -> (p: Payload)
    ensures
        p@ == Content::Fields(seq![(name@, FieldContent::Text(value@))]),
{
    let f = Field { name: name.to_owned(), value: FieldValue::Text(value.to_owned()) };
    let fields = vec![f];
    let p = Payload::Fields(fields);
    assert(fields@.map_values(|x: Field| (x.name@, x.value@)) =~= seq![
        (name@, FieldContent::Text(value@)),
    ]);
    p
}

/// Receiver of events for the frontend.
pub trait EventEmitter {
    /// The events emitted so far, each a name with what it carries.
    spec fn emitted(&self) -> Seq<(Seq<char>, Content)>;

    fn emit(&mut self, event: &str, payload: Payload)
        ensures
            final(self).emitted() == old(self).emitted().push((event@, payload@)),
    ;
}

/// Event emitter that keeps the events.
pub struct MockEmitter {
    events: Vec<(String, Payload)>,
}

/// What a list of events says.
pub open spec fn events_of(v: Seq<(String, Payload)>) -> Seq<(Seq<char>, Content)> {
    v.map_values(|e: (String, Payload)| (e.0@, e.1@))
}

impl MockEmitter {
    /// Create an emitter with an empty event log.
    pub fn new() -> (m: Self)
        ensures
            m.emitted() == Seq::<(Seq<char>, Content)>::empty(),
    {
        let m = MockEmitter { events: Vec::new() };
        assert(m.emitted() =~= Seq::<(Seq<char>, Content)>::empty());
        m
    }

    /// Take out all recorded events.
    pub fn take_events(&mut self) -> (v: Vec<(String, Payload)>)
        ensures
            events_of(v@) == old(self).emitted(),
            final(self).emitted() == Seq::<(Seq<char>, Content)>::empty(),
    {
        let mut v: Vec<(String, Payload)> = Vec::new();
        std::mem::swap(&mut v, &mut self.events);
        assert(self.emitted() =~= Seq::<(Seq<char>, Content)>::empty());
        v
    }
}

impl EventEmitter for MockEmitter {
    closed spec fn emitted(&self) -> Seq<(Seq<char>, Content)> {
        events_of(self.events@)
    }

    fn emit(&mut self, event: &str, payload: Payload) {
        self.events.push((event.to_owned(), payload));
        assert(self.emitted() =~= old(self).emitted().push((event@, payload@)));
    }
}

impl Default for MockEmitter {
    fn default() -> (m: Self)
        ensures
            m.emitted() == Seq::<(Seq<char>, Content)>::empty(),
    {
        Self::new()
    }
}

} // verus!
