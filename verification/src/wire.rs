//! The wire text of an event: a JSON object framed around the texts of its leaves.

use vstd::prelude::*;
use vstd::string::*;
use crate::model::{
    AppendableResource, Event, EventVerb, Location, MalformedEventError, ResourceId,
    UpdatableResource, WsBody,
};

verus! {

/// Why a value has no wire text.
#[derive(Debug, Clone, Copy, PartialEq, Eq, Structural)]
pub enum SerializationError {
    /// The verb of an event and the presence of an id disagree.
    Malformed(MalformedEventError),
    /// A leaf value cannot be represented as JSON.
    Unrepresentable,
}

/// A value that can give its own JSON text.
pub trait WireText {
    /// The JSON text of the value, or the reason why it has none.
    fn to_wire_text(&self) -> Result<String, SerializationError>;
}

/// The error type of `serde_json`: nothing is known of a value of it.
#[verifier::external_type_specification]
#[verifier::external_body]
pub struct ExJsonError(serde_json::Error);

/// The character of the decimal digit `d`.
pub open spec fn digit_char(d: nat) -> char
    recommends
        d < 10,
{
    ('0' as u8 + d) as char
}

/// The digits of `n` in base ten, most significant first, without a leading zero.
pub open spec fn decimal_text(n: nat) -> Seq<char>
    decreases n,
{
    if n < 10 {
        seq![digit_char(n)]
    } else {
        decimal_text(n / 10).push(digit_char(n % 10))
    }
}

/// The JSON text of the number `n`: its decimal digits.
pub open spec fn json_number_text(n: u32) -> Seq<char> {
    decimal_text(n as nat)
}

/// Calls `serde_json::to_string` on a `u32`. The call fails only where the
/// value's own serializer fails or a map has a key that is no string, neither
/// of which a `u32` can do; so it succeeds, and its result is the number in
/// decimal digits, as JSON writes an unsigned integer.
#[verifier::external_body]
fn number_to_json(n: u32) -> (r: Result<String, serde_json::Error>)
    ensures
        r is Ok,
        r matches Ok(s) ==> s@ == json_number_text(n),
{
    serde_json::to_string(&n)
}

/// The text of the absent value.
pub open spec fn null_text() -> Seq<char> {
    "null"@
}

/// The text of a transaction tag: `null` where there is none, else its decimal digits.
pub open spec fn txn_text(txn_id: Option<u32>) -> Seq<char> {
    match txn_id {
        None => null_text(),
        Some(n) => json_number_text(n),
    }
}

/// The text of a location, given the texts of its three fields.
pub open spec fn location_text(id: Seq<char>, txn_id: Seq<char>, collection: Seq<char>) -> Seq<
    char,
> {
    "{\"id\":"@ + id + ",\"txn_id\":"@ + txn_id + ",\"collection\":"@ + collection + "}"@
}

/// The text of a resource, given the texts of its location and of its payload.
pub open spec fn resource_text(location: Seq<char>, data: Seq<char>) -> Seq<char> {
    "{\"location\":"@ + location + ",\"data\":"@ + data + "}"@
}

/// The text of a verb, given the name of its kind and the text of what it carries.
pub open spec fn verb_text(kind: Seq<char>, payload: Seq<char>) -> Seq<char> {
    "{\"type\":\""@ + kind + "\",\"payload\":"@ + payload + "}"@
}

/// The text of an event, given the text of its verb.
pub open spec fn event_text(verb: Seq<char>) -> Seq<char> {
    "{\"verb\":"@ + verb + "}"@
}

/// The text of a transport frame, given the text of what it frames.
pub open spec fn body_text(data: Seq<char>) -> Seq<char> {
    "{\"data\":"@ + data + "}"@
}

/// Frames the texts of an id, a transaction tag and a collection as a location.
pub fn frame_location(id: &str, txn_id: &str, collection: &str) -> (s: String)
    ensures
        s@ == location_text(id@, txn_id@, collection@),
{
    let mut s = String::from_str("{\"id\":");
    s.append(id);
    s.append(",\"txn_id\":");
    s.append(txn_id);
    s.append(",\"collection\":");
    s.append(collection);
    s.append("}");
    s
}

/// Frames the texts of a location and of a payload as a resource.
pub fn frame_resource(location: &str, data: &str) -> (s: String)
    ensures
        s@ == resource_text(location@, data@),
{
    let mut s = String::from_str("{\"location\":");
    s.append(location);
    s.append(",\"data\":");
    s.append(data);
    s.append("}");
    s
}

/// Frames the name of a kind and the text of what the verb carries as a verb.
pub fn frame_verb(kind: &str, payload: &str) -> (s: String)
    ensures
        s@ == verb_text(kind@, payload@),
{
    let mut s = String::from_str("{\"type\":\"");
    s.append(kind);
    s.append("\",\"payload\":");
    s.append(payload);
    s.append("}");
    s
}

/// Frames the text of a verb as an event.
pub fn frame_event(verb: &str) -> (s: String)
    ensures
        s@ == event_text(verb@),
{
    let mut s = String::from_str("{\"verb\":");
    s.append(verb);
    s.append("}");
    s
}

/// Frames a text for the transport.
pub fn frame_body(data: &str) -> (s: String)
    ensures
        s@ == body_text(data@),
{
    let mut s = String::from_str("{\"data\":");
    s.append(data);
    s.append("}");
    s
}

/// `text` is a wire text that `value` may give.
pub open spec fn gives<T: WireText>(value: &T, text: Seq<char>) -> bool {
    exists|s: String| #[trigger]
        call_ensures(T::to_wire_text, (value,), Ok::<String, SerializationError>(s)) && s@ == text
}

/// `value` may refuse to give a text, with the error `e`.
pub open spec fn refuses<T: WireText>(value: &T, e: SerializationError) -> bool {
    call_ensures(T::to_wire_text, (value,), Err::<String, SerializationError>(e))
}

/// One of the three fields of `location` may refuse to give a text, with the error `e`.
pub open spec fn location_refuses<ID: WireText, C: WireText>(
    location: &Location<ID, C>,
    e: SerializationError,
) -> bool {
    refuses(&location.id, e) || refuses(&location.txn_id, e) || refuses(&location.collection, e)
}

/// The location or the payload of a resource may refuse to give a text, with the error `e`.
pub open spec fn resource_refuses<ID: WireText, T: WireText, C: WireText>(
    location: &Location<ID, C>,
    data: &T,
    e: SerializationError,
) -> bool {
    location_refuses(location, e) || refuses(data, e)
}

/// `verb` is not well formed and `e` says how, or what it carries may refuse
/// to give a text, with the error `e`. The id of a delete never refuses.
pub open spec fn verb_refuses<ID: WireText, T: WireText, C: WireText>(
    verb: &EventVerb<ID, T, C>,
    e: SerializationError,
) -> bool {
    match verb.fault() {
        Some(fault) => e == SerializationError::Malformed(fault),
        None => match *verb {
            EventVerb::Insert(r) => resource_refuses(&r.location, &r.data, e),
            EventVerb::Update(r) => resource_refuses(&r.location, &r.data, e),
            EventVerb::Upsert(r) => resource_refuses(&r.location, &r.data, e),
            EventVerb::Delete(_) => false,
        },
    }
}

/// `text` frames texts that the three fields of `location` may give.
pub open spec fn location_gives<ID: WireText, C: WireText>(
    location: &Location<ID, C>,
    text: Seq<char>,
) -> bool {
    exists|id: Seq<char>, txn_id: Seq<char>, collection: Seq<char>|
        text == #[trigger] location_text(id, txn_id, collection) && gives(&location.id, id)
            && gives(&location.txn_id, txn_id) && gives(&location.collection, collection)
}

/// `text` frames texts that the location and the payload of a resource may give.
pub open spec fn resource_gives<ID: WireText, T: WireText, C: WireText>(
    location: &Location<ID, C>,
    data: &T,
    text: Seq<char>,
) -> bool {
    exists|l: Seq<char>, d: Seq<char>|
        text == #[trigger] resource_text(l, d) && location_gives(location, l) && gives(data, d)
}

/// `text` is a text of what `verb` carries.
pub open spec fn payload_gives<ID: WireText, T: WireText, C: WireText>(
    verb: &EventVerb<ID, T, C>,
    text: Seq<char>,
) -> bool {
    match *verb {
        EventVerb::Insert(r) => resource_gives(&r.location, &r.data, text),
        EventVerb::Update(r) => resource_gives(&r.location, &r.data, text),
        EventVerb::Upsert(r) => resource_gives(&r.location, &r.data, text),
        EventVerb::Delete(id) => text == json_number_text(id.0),
    }
}

/// `text` is the object of exactly two fields, the name of the kind of `verb`
/// under `type` and a text of what `verb` carries under `payload`, and `verb`
/// is well formed.
pub open spec fn verb_gives<ID: WireText, T: WireText, C: WireText>(
    verb: &EventVerb<ID, T, C>,
    text: Seq<char>,
) -> bool {
    verb.well_formed() && exists|payload: Seq<char>|
        text == #[trigger] verb_text(verb.kind_name(), payload) && payload_gives(verb, payload)
}

impl WireText for u32 {
    /// The JSON text of the number: its decimal digits.
    fn to_wire_text(&self) -> (r: Result<String, SerializationError>)
        ensures
            r matches Ok(s) && s@ == json_number_text(*self),
    {
        match number_to_json(*self) {
            Ok(s) => Ok(s),
            Err(_) => Err(SerializationError::Unrepresentable),
        }
    }
}

impl WireText for () {
    /// The unit value is absent: its text is `null`.
    fn to_wire_text(&self) -> (r: Result<String, SerializationError>)
        ensures
            r matches Ok(s) && s@ == null_text(),
    {
        Ok(String::from_str("null"))
    }
}

impl<T: WireText> WireText for Option<T> {
    /// `null` where the value is absent, else what the value gives.
    fn to_wire_text(&self) -> (r: Result<String, SerializationError>)
        ensures
            self is None ==> (r matches Ok(s) && s@ == null_text()),
            self matches Some(x) ==> call_ensures(T::to_wire_text, (&x,), r),
    {
        match self {
            None => Ok(String::from_str("null")),
            Some(x) => x.to_wire_text(),
        }
    }
}

impl WireText for ResourceId {
    /// The bare number.
    fn to_wire_text(&self) -> (r: Result<String, SerializationError>)
        ensures
            r matches Ok(s) && s@ == json_number_text(self.0),
    {
        self.0.to_wire_text()
    }
}

impl<ID: WireText, C: WireText> WireText for Location<ID, C> {
    /// The object of the three fields `id`, `txn_id` and `collection`, in that
    /// order; the error of the first field that has no text.
    fn to_wire_text(&self) -> (r: Result<String, SerializationError>)
        ensures
            r matches Ok(s) ==> location_gives(self, s@),
            r matches Err(e) ==> location_refuses(self, e),
    {
        let id = match self.id.to_wire_text() {
            Ok(t) => t,
            Err(e) => { return Err(e); },
        };
        let txn_id = match self.txn_id.to_wire_text() {
            Ok(t) => t,
            Err(e) => { return Err(e); },
        };
        let collection = match self.collection.to_wire_text() {
            Ok(t) => t,
            Err(e) => { return Err(e); },
        };
        let s = frame_location(id.as_str(), txn_id.as_str(), collection.as_str());
        proof {
            assert(gives(&self.id, id@));
            assert(gives(&self.txn_id, txn_id@));
            assert(gives(&self.collection, collection@));
        }
        Ok(s)
    }
}

impl<ID: WireText, T: WireText, C: WireText> WireText for AppendableResource<ID, T, C> {
    /// The object of the two fields `location` and `data`, in that order; the
    /// error of the first of them that has no text.
    fn to_wire_text(&self) -> (r: Result<String, SerializationError>)
        ensures
            r matches Ok(s) ==> resource_gives(&self.location, &self.data, s@),
            r matches Err(e) ==> resource_refuses(&self.location, &self.data, e),
    {
        let location = match self.location.to_wire_text() {
            Ok(t) => t,
            Err(e) => { return Err(e); },
        };
        let data = match self.data.to_wire_text() {
            Ok(t) => t,
            Err(e) => { return Err(e); },
        };
        let s = frame_resource(location.as_str(), data.as_str());
        proof {
            assert(gives(&self.data, data@));
        }
        Ok(s)
    }
}

impl<ID: WireText, T: WireText, C: WireText> WireText for UpdatableResource<ID, T, C> {
    /// The object of the two fields `location` and `data`, in that order; the
    /// error of the first of them that has no text.
    fn to_wire_text(&self) -> (r: Result<String, SerializationError>)
        ensures
            r matches Ok(s) ==> resource_gives(&self.location, &self.data, s@),
            r matches Err(e) ==> resource_refuses(&self.location, &self.data, e),
    {
        let location = match self.location.to_wire_text() {
            Ok(t) => t,
            Err(e) => { return Err(e); },
        };
        let data = match self.data.to_wire_text() {
            Ok(t) => t,
            Err(e) => { return Err(e); },
        };
        let s = frame_resource(location.as_str(), data.as_str());
        proof {
            assert(gives(&self.data, data@));
        }
        Ok(s)
    }
}

impl<ID: WireText, T: WireText, C: WireText> WireText for EventVerb<ID, T, C> {
    /// The object of the two fields `type` and `payload`, in that order. A verb
    /// that is not well formed has no text, and the error says how it is not.
    fn to_wire_text(&self) -> (r: Result<String, SerializationError>)
        ensures
            r matches Ok(s) ==> verb_gives(self, s@),
            r matches Err(e) ==> verb_refuses(self, e),
    {
        if let Err(fault) = self.validate() {
            return Err(SerializationError::Malformed(fault));
        }
        let carried = match self {
            EventVerb::Insert(resource) => resource.to_wire_text(),
            EventVerb::Update(resource) => resource.to_wire_text(),
            EventVerb::Upsert(resource) => resource.to_wire_text(),
            EventVerb::Delete(id) => id.to_wire_text(),
        };
        let payload = match carried {
            Ok(t) => t,
            Err(e) => { return Err(e); },
        };
        let s = frame_verb(self.name(), payload.as_str());
        proof {
            assert(payload_gives(self, payload@));
        }
        Ok(s)
    }
}

impl<ID: WireText, T: WireText, C: WireText> WireText for Event<ID, T, C> {
    /// The object of the one field `verb`. An event whose verb is not well
    /// formed has no text, and the error says how it is not.
    fn to_wire_text(&self) -> (r: Result<String, SerializationError>)
        ensures
            r matches Ok(s) ==> exists|verb: Seq<char>|
                s@ == #[trigger] event_text(verb) && verb_gives(&self.verb, verb),
            r matches Err(e) ==> verb_refuses(&self.verb, e),
    {
        match self.verb.to_wire_text() {
            Ok(verb) => {
                let s = frame_event(verb.as_str());
                Ok(s)
            },
            Err(e) => Err(e),
        }
    }
}

impl<T: WireText> WsBody<T> {
    /// The wire text of the frame: the object of the one field `data`, which
    /// holds a text that the framed value gave. Where the framed value has no
    /// text, its error is returned as it is.
    pub fn json(&self) -> (r: Result<String, SerializationError>)
        ensures
            r matches Ok(s) ==> exists|data: Seq<char>|
                s@ == #[trigger] body_text(data) && gives(&self.data, data),
            r matches Err(e) ==> refuses(&self.data, e),
    {
        match self.data.to_wire_text() {
            Ok(data) => {
                let s = frame_body(data.as_str());
                proof {
                    assert(gives(&self.data, data@));
                }
                Ok(s)
            },
            Err(e) => Err(e),
        }
    }
}

/// An event whose verb is not well formed gives no text: whatever its frame
/// returns is the error that says how the verb is not well formed.
pub proof fn malformed_event_refused<ID: WireText, T: WireText, C: WireText>(
    body: &WsBody<Event<ID, T, C>>,
    r: Result<String, SerializationError>,
)
    requires
        !body.data.verb.well_formed(),
        call_ensures(WsBody::<Event<ID, T, C>>::json, (body,), r),
    ensures
        body.data.verb.fault() matches Some(fault) && r == Err::<String, SerializationError>(
            SerializationError::Malformed(fault),
        ),
{
    if let Ok(s) = r {
        let data = choose|data: Seq<char>|
            s@ == #[trigger] body_text(data) && gives(&body.data, data);
        event_text_shape(&body.data, data);
    }
}

/// A text that an absent value gives is `null`; a text that a present value
/// gives is one that the value inside gives.
pub proof fn option_text<T: WireText>(value: &Option<T>, text: Seq<char>)
    requires
        gives(value, text),
    ensures
        *value is None ==> text == null_text(),
        *value matches Some(x) ==> gives(&x, text),
{
}

/// A text that an event gives holds, under `verb`, the object of exactly two
/// fields: under `type` the snake-case name of the kind of its verb, under
/// `payload` a text of what that verb carries. Only a well-formed event gives
/// a text.
pub proof fn event_text_shape<ID: WireText, T: WireText, C: WireText>(
    event: &Event<ID, T, C>,
    text: Seq<char>,
)
    requires
        gives(event, text),
    ensures
        event.verb.well_formed(),
        exists|payload: Seq<char>|
            text == event_text(#[trigger] verb_text(event.verb.kind_name(), payload))
                && payload_gives(&event.verb, payload),
{
}

/// A delete event always has a text: its frame gives the object that holds,
/// under `data` and `verb`, the kind `delete` and the decimal digits of the id.
pub proof fn delete_event_text<ID: WireText, T: WireText, C: WireText>(
    body: &WsBody<Event<ID, T, C>>,
    r: Result<String, SerializationError>,
)
    requires
        body.data.verb is Delete,
        call_ensures(WsBody::<Event<ID, T, C>>::json, (body,), r),
    ensures
        r matches Ok(s) && s@ == body_text(
            event_text(verb_text("delete"@, decimal_text(body.data.verb->Delete_0.0 as nat))),
        ),
{
    if let Ok(s) = r {
        let data = choose|data: Seq<char>|
            s@ == #[trigger] body_text(data) && gives(&body.data, data);
        event_text_shape(&body.data, data);
    }
}

/// A text that a resource gives frames a text of its location and a text of
/// its payload, and that of the location frames `null` for an absent id or a
/// text of the present one, `null` for an absent transaction or its decimal
/// digits, and a text of the collection.
pub proof fn resource_text_shape<ID: WireText, T: WireText, C: WireText>(
    location: &Location<ID, C>,
    data: &T,
    text: Seq<char>,
)
    requires
        resource_gives(location, data, text),
    ensures
        exists|id: Seq<char>, collection: Seq<char>, payload: Seq<char>|
            text == #[trigger] resource_text(
                location_text(id, txn_text(location.txn_id), collection),
                payload,
            ) && gives(&location.id, id) && (location.id is None ==> id == null_text()) && gives(
                &location.collection,
                collection,
            ) && gives(data, payload),
{
    let (l, payload) = choose|l: Seq<char>, d: Seq<char>|
        text == #[trigger] resource_text(l, d) && location_gives(location, l) && gives(data, d);
    let (id, txn_id, collection) = choose|id: Seq<char>, txn_id: Seq<char>, collection: Seq<char>|
        l == #[trigger] location_text(id, txn_id, collection) && gives(&location.id, id) && gives(
            &location.txn_id,
            txn_id,
        ) && gives(&location.collection, collection);
    option_text(&location.id, id);
    option_text(&location.txn_id, txn_id);
    assert(txn_id == txn_text(location.txn_id));
    assert(text == resource_text(
        location_text(id, txn_text(location.txn_id), collection),
        payload,
    ));
}

/// The kind of a verb can be read back from the wire: two events that may
/// give one and the same text have verbs of one kind.
pub proof fn kind_read_back<ID: WireText, T: WireText, C: WireText>(
    first: &Event<ID, T, C>,
    second: &Event<ID, T, C>,
    text: Seq<char>,
)
    requires
        gives(first, text),
        gives(second, text),
    ensures
        first.verb.same_kind(&second.verb),
        first.verb.kind_name() == second.verb.kind_name(),
{
    event_text_shape(first, text);
    event_text_shape(second, text);
    let p = choose|p: Seq<char>|
        text == event_text(#[trigger] verb_text(first.verb.kind_name(), p));
    let q = choose|q: Seq<char>|
        text == event_text(#[trigger] verb_text(second.verb.kind_name(), q));
    reveal_strlit("insert");
    reveal_strlit("update");
    reveal_strlit("upsert");
    reveal_strlit("delete");
    kind_position(first.verb.kind_name(), p);
    kind_position(second.verb.kind_name(), q);
}

/// The id of a removed resource can be read back from the wire: two delete
/// events that may give one and the same text name the same id.
pub proof fn deleted_id_read_back<ID: WireText, T: WireText, C: WireText>(
    first: &Event<ID, T, C>,
    second: &Event<ID, T, C>,
    text: Seq<char>,
)
    requires
        gives(first, text),
        gives(second, text),
        first.verb is Delete,
    ensures
        second.verb is Delete,
        first.verb->Delete_0.0 == second.verb->Delete_0.0,
{
    kind_read_back(first, second, text);
    event_text_shape(first, text);
    event_text_shape(second, text);
    let a = first.verb->Delete_0.0;
    let b = second.verb->Delete_0.0;
    let kind = first.verb.kind_name();
    reveal_strlit("delete");
    payload_cancels(kind, json_number_text(a), json_number_text(b));
    decimal_text_injective(a as nat, b as nat);
}

/// Two events of one kind with one text carry one payload text.
proof fn payload_cancels(kind: Seq<char>, p: Seq<char>, q: Seq<char>)
    requires
        event_text(verb_text(kind, p)) == event_text(verb_text(kind, q)),
    ensures
        p == q,
{
    reveal_strlit("{\"verb\":");
    reveal_strlit("{\"type\":\"");
    reveal_strlit("\",\"payload\":");
    reveal_strlit("}");
    let s = event_text(verb_text(kind, p));
    let t = event_text(verb_text(kind, q));
    let start = 29 + kind.len();
    assert(s.len() == start + p.len() + 2);
    assert(t.len() == start + q.len() + 2);
    assert forall|i: int| 0 <= i < p.len() implies p[i] == q[i] by {
        assert(s[start + i] == p[i]);
        assert(t[start + i] == q[i]);
    }
    assert(p =~= q);
}

/// A number has at least one decimal digit.
proof fn decimal_text_nonempty(n: nat)
    ensures
        decimal_text(n).len() >= 1,
    decreases n,
{
    if n >= 10 {
        decimal_text_nonempty(n / 10);
    }
}

/// Two digits with the same character are one digit.
proof fn digit_char_injective(c: nat, d: nat)
    requires
        c < 10,
        d < 10,
        digit_char(c) == digit_char(d),
    ensures
        c == d,
{
    assert(digit_char(c) as int == 48 + c);
    assert(digit_char(d) as int == 48 + d);
}

/// Two numbers with the same decimal digits are one number.
proof fn decimal_text_injective(a: nat, b: nat)
    requires
        decimal_text(a) == decimal_text(b),
    ensures
        a == b,
    decreases a,
{
    if a < 10 && b < 10 {
        assert(decimal_text(a)[0] == digit_char(a));
        assert(decimal_text(b)[0] == digit_char(b));
        digit_char_injective(a, b);
    } else if a < 10 {
        decimal_text_nonempty(b / 10);
        assert(decimal_text(a).len() == 1);
        assert(decimal_text(b).len() == decimal_text(b / 10).len() + 1);
    } else if b < 10 {
        decimal_text_nonempty(a / 10);
        assert(decimal_text(b).len() == 1);
        assert(decimal_text(a).len() == decimal_text(a / 10).len() + 1);
    } else {
        let x = decimal_text(a / 10);
        let y = decimal_text(b / 10);
        assert(decimal_text(a) == x.push(digit_char(a % 10)));
        assert(decimal_text(b) == y.push(digit_char(b % 10)));
        assert(x.push(digit_char(a % 10)).last() == digit_char(a % 10));
        assert(y.push(digit_char(b % 10)).last() == digit_char(b % 10));
        assert(x.push(digit_char(a % 10)).drop_last() =~= x);
        assert(y.push(digit_char(b % 10)).drop_last() =~= y);
        assert(x == y);
        digit_char_injective(a % 10, b % 10);
        decimal_text_injective(a / 10, b / 10);
        assert(a == 10 * (a / 10) + a % 10);
        assert(b == 10 * (b / 10) + b % 10);
    }
}

/// In the text of an event, the name of the kind starts at the eighteenth
/// character: the first and third characters of a name of six characters
/// stand at the places 17 and 19.
proof fn kind_position(kind: Seq<char>, payload: Seq<char>)
    requires
        kind.len() == 6,
    ensures
        event_text(verb_text(kind, payload))[17] == kind[0],
        event_text(verb_text(kind, payload))[19] == kind[2],
{
    reveal_strlit("{\"verb\":");
    reveal_strlit("{\"type\":\"");
    reveal_strlit("\",\"payload\":");
    reveal_strlit("}");
}

} // verus!
