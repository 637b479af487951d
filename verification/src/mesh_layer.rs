//! The trace event that a tracing layer makes of a message and its fields.

use crate::text::same_text;
use vstd::prelude::*;
use vstd::utf8::encode_utf8;

verus! {

/// The severity of an event as the instrumented code states it.
#[derive(Clone, Copy, Debug, PartialEq, Eq, Structural)]
pub enum SubscriberLevel {
    Trace,
    Debug,
    Info,
    Warn,
    Error,
}

/// The severity of an event on its way to the host.
#[derive(Clone, Copy, Debug, PartialEq, Eq, Structural)]
pub enum Level {
    Trace,
    Debug,
    Info,
    Warn,
    Error,
}

/// What a trace request reports.
#[derive(Clone, Copy, Debug, PartialEq, Eq, Structural)]
pub enum Type {
    Event,
    SpanEnter,
    SpanExit,
}

/// The level to forward an event of this level with.
pub open spec fn mesh_level(level: SubscriberLevel) -> Level {
    match level {
        SubscriberLevel::Trace => Level::Trace,
        SubscriberLevel::Debug => Level::Debug,
        SubscriberLevel::Info => Level::Info,
        SubscriberLevel::Warn => Level::Warn,
        SubscriberLevel::Error => Level::Error,
    }
}

/// Computes [`mesh_level`].
pub fn to_mesh_level(level: SubscriberLevel) -> (forwarded: Level)
    ensures
        forwarded == mesh_level(level),
{
    match level {
        SubscriberLevel::Trace => Level::Trace,
        SubscriberLevel::Debug => Level::Debug,
        SubscriberLevel::Info => Level::Info,
        SubscriberLevel::Warn => Level::Warn,
        SubscriberLevel::Error => Level::Error,
    }
}

/// A field of an event: its name and its value as text.
pub type Entry = (Seq<char>, Seq<char>);

/// Whether an entry is part of the message, and not a field beside it.
pub open spec fn is_message(entry: Entry) -> bool {
    entry.0 == "message"@
}

/// How a field is written.
pub open spec fn field_text(entry: Entry) -> Seq<char> {
    entry.0 + "="@ + entry.1
}

/// Collects the message and the fields of an event.
#[derive(Debug)]
pub struct MessageVisitor {
    pub message: String,
    pub fields: String,
}

/// The message after another entry.
pub open spec fn message_with(message: Seq<char>, entry: Entry) -> Seq<char> {
    if is_message(entry) {
        message + entry.1
    } else {
        message
    }
}

/// The fields after another entry.
pub open spec fn fields_with(fields: Seq<char>, entry: Entry) -> Seq<char> {
    if is_message(entry) {
        fields
    } else if fields.len() == 0 {
        field_text(entry)
    } else {
        fields + " "@ + field_text(entry)
    }
}

impl MessageVisitor {
    /// A visitor that has seen nothing.
    pub fn new() -> (visitor: Self)
        ensures
            visitor.message@ == Seq::<char>::empty(),
            visitor.fields@ == Seq::<char>::empty(),
    {
        MessageVisitor { message: String::new(), fields: String::new() }
    }

    /// Records an entry: a `message` extends the message, anything else
    /// becomes a field.
    pub fn record_str(&mut self, name: &str, value: &str)
        ensures
            final(self).message@ == message_with(old(self).message@, (name@, value@)),
            final(self).fields@ == fields_with(old(self).fields@, (name@, value@)),
    {
        if same_text(name, "message") {
            self.message.append(value);
        } else {
            if !self.fields.as_str().is_empty() {
                self.fields.append(" ");
            }
            self.fields.append(name);
            self.fields.append("=");
            self.fields.append(value);
            assert(old(self).fields@.len() == 0 ==> self.fields@ =~= field_text((name@, value@)));
            assert(old(self).fields@.len() != 0 ==> self.fields@ =~= old(self).fields@ + " "@
                + field_text((name@, value@)));
        }
    }
}

/// A trace request.
#[derive(Debug)]
pub struct TraceRequest {
    pub log_type: Type,
    pub timestamp: u64,
    pub level: Level,
    pub name: Option<Vec<u8>>,
    pub target: Option<Vec<u8>>,
    pub fields: Option<Vec<u8>>,
    pub activity_id: Option<[u8; 16]>,
    pub related_activity_id: Option<[u8; 16]>,
    pub correlation_id: Option<[u8; 16]>,
    pub message: Vec<u8>,
}

/// The number of nanoseconds since the epoch that `clock` stands for, as far
/// as it fits, where `clock` is the time since the epoch in seconds and
/// nanoseconds, or `None` before the epoch.
pub open spec fn timestamp_of(clock: Option<(u64, u32)>) -> nat {
    match clock {
        Some(since) => (since.0 as nat * 1_000_000_000 + since.1 as nat) % 0x1_0000_0000_0000_0000,
        None => 0,
    }
}

/// Computes [`timestamp_of`].
pub fn event_timestamp(clock: Option<(u64, u32)>) -> (timestamp: u64)
    ensures
        timestamp == timestamp_of(clock),
{
    match clock {
        Some(since) => {
            let seconds: u128 = since.0 as u128;
            let nanos: u128 = seconds * 1_000_000_000 + since.1 as u128;
            (nanos % 0x1_0000_0000_0000_0000) as u64
        },
        None => 0,
    }
}

/// The request that forwards an event: the message, the fields if there are
/// any, and where it came from.
pub fn on_event(
    visitor: MessageVisitor,
    level: SubscriberLevel,
    target: &str,
    clock: Option<(u64, u32)>,
) -> (request: TraceRequest)
    ensures
        request.log_type == Type::Event,
        request.timestamp == timestamp_of(clock),
        request.level == mesh_level(level),
        request.name is None,
        request.target is Some,
        request.target->0@ == encode_utf8(target@),
        visitor.fields@.len() == 0 ==> request.fields is None,
        visitor.fields@.len() > 0 ==> request.fields is Some && request.fields->0@ == encode_utf8(
            visitor.fields@,
        ),
        request.activity_id is None,
        request.related_activity_id is None,
        request.correlation_id is None,
        request.message@ == encode_utf8(visitor.message@),
{
    let fields = if visitor.fields.as_str().is_empty() {
        None
    } else {
        Some(visitor.fields.as_str().as_bytes_vec())
    };
    TraceRequest {
        log_type: Type::Event,
        timestamp: event_timestamp(clock),
        level: to_mesh_level(level),
        name: None,
        target: Some(target.as_bytes_vec()),
        fields,
        activity_id: None,
        related_activity_id: None,
        correlation_id: None,
        message: visitor.message.as_str().as_bytes_vec(),
    }
}

/// The message after entries were recorded in order.
pub open spec fn message_of(entries: Seq<Entry>) -> Seq<char>
    decreases entries.len(),
{
    if entries.len() == 0 {
        Seq::empty()
    } else {
        message_with(message_of(entries.drop_last()), entries.last())
    }
}

/// The fields after entries were recorded in order.
pub open spec fn fields_of(entries: Seq<Entry>) -> Seq<char>
    decreases entries.len(),
{
    if entries.len() == 0 {
        Seq::empty()
    } else {
        fields_with(fields_of(entries.drop_last()), entries.last())
    }
}

/// Texts joined by single spaces.
pub open spec fn spaced(texts: Seq<Seq<char>>) -> Seq<char>
    decreases texts.len(),
{
    if texts.len() == 0 {
        Seq::empty()
    } else if texts.len() == 1 {
        texts[0]
    } else {
        spaced(texts.drop_last()) + " "@ + texts.last()
    }
}

/// The fields among entries, as they are written.
pub open spec fn field_texts(entries: Seq<Entry>) -> Seq<Seq<char>> {
    entries.filter(|entry: Entry| !is_message(entry)).map_values(
        |entry: Entry| field_text(entry),
    )
}

/// The fields of an event are its entries other than the message, each as
/// `name=value`, in order and with a single space between two; they are empty
/// only if there are none.
pub proof fn law_fields_are_spaced_entries(entries: Seq<Entry>)
    ensures
        fields_of(entries) == spaced(field_texts(entries)),
        fields_of(entries).len() == 0 <==> field_texts(entries).len() == 0,
    decreases entries.len(),
{
    reveal(Seq::filter);
    reveal_strlit("=");
    let wanted = |entry: Entry| !is_message(entry);
    if entries.len() == 0 {
        assert(field_texts(entries) =~= Seq::empty());
    } else {
        let front = entries.drop_last();
        let last = entries.last();
        law_fields_are_spaced_entries(front);
        if is_message(last) {
            assert(field_texts(entries) =~= field_texts(front));
        } else {
            assert(entries.filter(wanted) =~= front.filter(wanted).push(last));
            assert(field_texts(entries) =~= field_texts(front).push(field_text(last)));
            let texts = field_texts(entries);
            assert(texts.drop_last() =~= field_texts(front));
            assert(texts.last() == field_text(last));
            assert(field_text(last).len() > 0);
        }
    }
}

/// The message of an event is its `message` entries, one after the other.
pub proof fn law_message_is_joined_entries(before: Seq<Entry>, entry: Entry)
    ensures
        message_of(before.push(entry)) == (if is_message(entry) {
            message_of(before) + entry.1
        } else {
            message_of(before)
        }),
        message_of(Seq::empty()) == Seq::<char>::empty(),
{
    assert(before.push(entry).drop_last() =~= before);
}

} // verus!
