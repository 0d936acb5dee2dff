//! Supervisor events as Server-Sent Events for the browser UI, and the
//! replay buffer for events emitted before the first browser connected.
//!
//! During the elevation flow the elevated process can start the VPN and ask
//! for an SMS code before the browser has reconnected; the first subscriber
//! therefore receives the events emitted before it, up to a fixed number.
//! Later subscribers only see what happens after they subscribed.

use vstd::prelude::*;

use crate::backend::proxy::manager::{self, ProxyEvent};

verus! {

/// Number of pre-subscriber events kept for replay.
pub const PENDING_CAPACITY: usize = 256;

/// A JSON value of an event payload.
#[derive(Debug, Clone, PartialEq, Eq)]
pub enum JsonValue {
    Null,
    Bool(bool),
    UInt(u64),
    Int(i64),
    Str(String),
}

pub enum JsonValueView {
    Null,
    Bool(bool),
    UInt(u64),
    Int(i64),
    Str(Seq<char>),
}

impl View for JsonValue {
    type V = JsonValueView;

    open spec fn view(&self) -> JsonValueView {
        match self {
            JsonValue::Null => JsonValueView::Null,
            JsonValue::Bool(b) => JsonValueView::Bool(*b),
            JsonValue::UInt(n) => JsonValueView::UInt(*n),
            JsonValue::Int(n) => JsonValueView::Int(*n),
            JsonValue::Str(s) => JsonValueView::Str(s@),
        }
    }
}

/// Object fields as `(key, value)` views.
pub open spec fn fields_view(f: Seq<(&'static str, JsonValue)>) -> Seq<(Seq<char>, JsonValueView)> {
    f.map_values(|p: (&'static str, JsonValue)| (p.0@, p.1@))
}

/// The compact JSON text `serde_json` renders for an object built by
/// inserting these fields one after the other. Without the crate's
/// `preserve_order` feature its map is a `BTreeMap`, so the keys come out
/// sorted, not in insertion order; a later field with the same key
/// replaces an earlier one.
pub uninterp spec fn json_object_text(fields: Seq<(Seq<char>, JsonValueView)>) -> Seq<char>;

/// `serde_json::Value::Object` of the fields, rendered with `to_string`.
#[verifier::external_body]
fn json_object(fields: Vec<(&'static str, JsonValue)>) -> (r: String)
    ensures
        r@ == json_object_text(fields_view(fields@)),
{
    let mut map = serde_json::Map::new();
    for (key, value) in fields {
        let v = match value {
            JsonValue::Null => serde_json::Value::Null,
            JsonValue::Bool(b) => serde_json::Value::Bool(b),
            JsonValue::UInt(n) => serde_json::Value::from(n),
            JsonValue::Int(n) => serde_json::Value::from(n),
            JsonValue::Str(s) => serde_json::Value::String(s),
        };
        map.insert(key.to_owned(), v);
    }
    serde_json::Value::Object(map).to_string()
}

/// One event for the browser: its SSE type and JSON payload.
#[derive(Debug, Clone)]
pub struct SseEvent {
    /// `log`, `state`, `need_input`, `need_captcha` or `error`.
    pub event_type: &'static str,
    pub data: String,
}

impl View for SseEvent {
    type V = (Seq<char>, Seq<char>);

    open spec fn view(&self) -> (Seq<char>, Seq<char>) {
        (self.event_type@, self.data@)
    }
}

/// A string or `null`.
pub open spec fn opt_json(o: Option<String>) -> JsonValueView {
    match o {
        Some(s) => JsonValueView::Str(s@),
        None => JsonValueView::Null,
    }
}

/// The SSE type of an event.
pub open spec fn sse_type(e: ProxyEvent) -> Seq<char> {
    match e {
        ProxyEvent::Log(_) => "log"@,
        ProxyEvent::State { .. } => "state"@,
        ProxyEvent::NeedInput { .. } => "need_input"@,
        ProxyEvent::NeedCaptcha { .. } => "need_captcha"@,
        ProxyEvent::Error(_) => "error"@,
    }
}

/// The payload fields of an event, in order.
pub open spec fn sse_fields(e: ProxyEvent) -> Seq<(Seq<char>, JsonValueView)> {
    match e {
        ProxyEvent::Log(line) => seq![("line"@, JsonValueView::Str(line@))],
        ProxyEvent::State { state, message, awaiting, running, retry_attempt, retry_delay_ms } => seq![
            ("state"@, JsonValueView::Str(manager::proxy_state_name(state))),
            ("message"@, opt_json(message)),
            ("awaiting"@, opt_json(awaiting)),
            ("running"@, JsonValueView::Bool(running)),
            ("retry_attempt"@, JsonValueView::UInt(retry_attempt as u64)),
            ("retry_delay_ms"@, JsonValueView::UInt(retry_delay_ms)),
        ],
        ProxyEvent::NeedInput { kind, prompt } => seq![
            ("kind"@, JsonValueView::Str(manager::input_kind_name(kind))),
            ("prompt"@, JsonValueView::Str(prompt@)),
        ],
        ProxyEvent::NeedCaptcha { base64, updated_at_ms } => seq![
            ("base64"@, JsonValueView::Str(base64@)),
            ("updated_at_ms"@, JsonValueView::Int(updated_at_ms)),
        ],
        ProxyEvent::Error(msg) => seq![("message"@, JsonValueView::Str(msg@))],
    }
}

fn opt_json_value(o: &Option<String>) -> (r: JsonValue)
    ensures
        r@ == opt_json(*o),
{
    match o {
        Some(s) => JsonValue::Str(s.clone()),
        None => JsonValue::Null,
    }
}

impl SseEvent {
    /// The SSE form of a supervisor event.
    pub fn from_proxy_event(event: &ProxyEvent) -> (r: SseEvent)
        ensures
            r.event_type@ == sse_type(*event),
            r.data@ == json_object_text(sse_fields(*event)),
    {
        let mut fields: Vec<(&'static str, JsonValue)> = Vec::new();
        let event_type: &'static str = match event {
            ProxyEvent::Log(line) => {
                fields.push(("line", JsonValue::Str(line.clone())));
                "log"
            },
            ProxyEvent::State { state, message, awaiting, running, retry_attempt, retry_delay_ms } => {
                fields.push(("state", JsonValue::Str(state.as_str().to_owned())));
                fields.push(("message", opt_json_value(message)));
                fields.push(("awaiting", opt_json_value(awaiting)));
                fields.push(("running", JsonValue::Bool(*running)));
                fields.push(("retry_attempt", JsonValue::UInt(*retry_attempt as u64)));
                fields.push(("retry_delay_ms", JsonValue::UInt(*retry_delay_ms)));
                "state"
            },
            ProxyEvent::NeedInput { kind, prompt } => {
                fields.push(("kind", JsonValue::Str(kind.as_str().to_owned())));
                fields.push(("prompt", JsonValue::Str(prompt.clone())));
                "need_input"
            },
            ProxyEvent::NeedCaptcha { base64, updated_at_ms } => {
                fields.push(("base64", JsonValue::Str(base64.clone())));
                fields.push(("updated_at_ms", JsonValue::Int(*updated_at_ms)));
                "need_captcha"
            },
            ProxyEvent::Error(msg) => {
                fields.push(("message", JsonValue::Str(msg.clone())));
                "error"
            },
        };
        assert(fields_view(fields@) =~= sse_fields(*event));
        SseEvent { event_type, data: json_object(fields) }
    }
}

/// Events as `(type, payload)` pairs.
pub open spec fn events_view(v: Seq<SseEvent>) -> Seq<(Seq<char>, Seq<char>)> {
    v.map_values(|e: SseEvent| e@)
}

/// The latest `PENDING_CAPACITY` entries of `s`.
pub open spec fn replay_window<T>(s: Seq<T>) -> Seq<T> {
    if s.len() > PENDING_CAPACITY {
        s.skip(s.len() - PENDING_CAPACITY)
    } else {
        s
    }
}

/// Events kept for the first subscriber.
pub struct PendingEvents {
    /// No subscriber has connected yet.
    pub first_subscriber: bool,
    /// Events emitted while no subscriber had connected, oldest first.
    pub events: Vec<SseEvent>,
}

impl PendingEvents {
    /// Nobody subscribed, nothing kept.
    pub fn new() -> (r: Self)
        ensures
            r.first_subscriber,
            r.events@.len() == 0,
    {
        PendingEvents { first_subscriber: true, events: Vec::new() }
    }

    /// The buffer is within its capacity.
    pub open spec fn wf(&self) -> bool {
        self.events@.len() <= PENDING_CAPACITY
    }

    /// An event was emitted: before the first subscriber it is kept, the
    /// oldest kept one making room when the buffer is full; afterwards
    /// nothing is kept.
    pub fn record(&mut self, sse: SseEvent)
        requires
            old(self).wf(),
        ensures
            final(self).wf(),
            final(self).first_subscriber == old(self).first_subscriber,
            old(self).first_subscriber ==> events_view(final(self).events@) == replay_window(
                events_view(old(self).events@).push(sse@),
            ),
            !old(self).first_subscriber ==> events_view(final(self).events@) == events_view(
                old(self).events@,
            ),
    {
        if self.first_subscriber {
            let ghost before = self.events@;
            if self.events.len() >= PENDING_CAPACITY {
                self.events.remove(0);
            }
            let ghost mid = self.events@;
            self.events.push(sse);
            proof {
                let bv = events_view(before).push(sse@);
                if before.len() >= PENDING_CAPACITY {
                    assert(mid =~= before.skip(1));
                    assert(events_view(self.events@) =~= bv.skip(bv.len() - PENDING_CAPACITY));
                } else {
                    assert(events_view(self.events@) =~= bv);
                }
            }
        }
    }

    /// A subscriber connected: the first one receives everything kept, in
    /// order, and from then on nothing is kept; later ones receive nothing.
    pub fn take_for_subscriber(&mut self) -> (r: Vec<SseEvent>)
        requires
            old(self).wf(),
        ensures
            final(self).wf(),
            !final(self).first_subscriber,
            final(self).events@.len() == 0,
            old(self).first_subscriber ==> events_view(r@) == events_view(old(self).events@),
            !old(self).first_subscriber ==> r@.len() == 0,
    {
        if self.first_subscriber {
            self.first_subscriber = false;
            let mut drained: Vec<SseEvent> = Vec::new();
            std::mem::swap(&mut drained, &mut self.events);
            drained
        } else {
            self.events = Vec::new();
            Vec::new()
        }
    }
}

/// Keeping events one at a time holds exactly the latest
/// `PENDING_CAPACITY` of them: if the buffer holds the window of the events
/// `s` emitted so far, recording `e` makes it hold the window of `s`
/// followed by `e` (so the first subscriber receives the latest
/// `PENDING_CAPACITY` events emitted before it, in order).
pub proof fn lemma_replay_keeps_latest<T>(s: Seq<T>, e: T)
    ensures
        replay_window(replay_window(s).push(e)) == replay_window(s.push(e)),
{
    let w = replay_window(s);
    let t = s.push(e);
    if s.len() >= PENDING_CAPACITY {
        assert(w.push(e).skip(1) =~= t.skip(t.len() - PENDING_CAPACITY));
    } else {
        assert(w.push(e) =~= t);
    }
}

} // verus!
