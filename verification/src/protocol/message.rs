//! Phoenix channel messages: the five-element wire frame, message references,
//! and the channels that send them.
use crate::json::{as_str, clone_value, get, Json, JsonValue};
use crate::protocol::events::{event_from_name, ProtocolEvent};
use crate::text::{decimal, digit_char, owned, str_eq, u64_decimal};
use vstd::prelude::*;

verus! {

/// Topic of the device channel.
pub const DEVICE_TOPIC: &'static str = "device";

/// Topic of the console channel.
pub const CONSOLE_TOPIC: &'static str = "console";

/// Topic of the extensions channel.
pub const EXTENSIONS_TOPIC: &'static str = "extensions";

/// Topic that carries heartbeats.
pub const PHOENIX_TOPIC: &'static str = "phoenix";

/// Mathematical form of a message.
pub struct Frame {
    pub join_ref: Option<Seq<char>>,
    pub msg_ref: Option<Seq<char>>,
    pub topic: Seq<char>,
    pub event: Seq<char>,
    pub payload: Json,
}

/// The text of an optional string.
pub open spec fn opt_view(o: Option<String>) -> Option<Seq<char>> {
    match o {
        Some(s) => Some(s@),
        None => None,
    }
}

/// A JSON string, or `null` when absent.
pub open spec fn nullable(o: Option<Seq<char>>) -> Json {
    match o {
        Some(s) => Json::Str(s),
        None => Json::Null,
    }
}

/// The wire form `[join_ref, ref, topic, event, payload]` of a message.
pub open spec fn frame_json(f: Frame) -> Json {
    Json::Array(
        seq![nullable(f.join_ref), nullable(f.msg_ref), Json::Str(f.topic), Json::Str(f.event), f.payload],
    )
}

/// Reading a wire frame: an array of five elements whose topic and event are
/// strings. A reference that is not a string reads as absent.
pub open spec fn parse_frame(j: Json) -> Option<Frame> {
    match j {
        Json::Array(items) => if items.len() == 5 && items[2] is Str && items[3] is Str {
            Some(
                Frame {
                    join_ref: as_str(items[0]),
                    msg_ref: as_str(items[1]),
                    topic: items[2]->Str_0,
                    event: items[3]->Str_0,
                    payload: items[4],
                },
            )
        } else {
            None
        },
        _ => None,
    }
}

/// Reading a frame gives back the message that was written.
pub proof fn lemma_frame_round_trip(f: Frame)
    ensures
        parse_frame(frame_json(f)) == Some(f),
{
    let items = seq![nullable(f.join_ref), nullable(f.msg_ref), Json::Str(f.topic), Json::Str(f.event), f.payload];
    assert(as_str(items[0]) == f.join_ref);
    assert(as_str(items[1]) == f.msg_ref);
}

/// The `status` of a reply payload.
pub open spec fn reply_status_of(payload: Json) -> Option<Seq<char>> {
    match get(payload, "status"@) {
        Some(s) => as_str(s),
        None => None,
    }
}

/// The reason given by a rejected join: `response.reason`, or `unknown`.
pub open spec fn rejection_reason_of(payload: Json) -> Seq<char> {
    match get(payload, "response"@) {
        Some(response) => match get(response, "reason"@) {
            Some(reason) => match as_str(reason) {
                Some(s) => s,
                None => "unknown"@,
            },
            None => "unknown"@,
        },
        None => "unknown"@,
    }
}

/// A Phoenix channel message.
#[derive(Debug)]
pub struct Message {
    pub join_ref: Option<String>,
    pub msg_ref: Option<String>,
    pub topic: String,
    pub event: String,
    pub payload: JsonValue,
}

fn copy_opt(o: &Option<String>) -> (r: Option<String>)
    ensures
        opt_view(r) == opt_view(*o),
{
    match o {
        Some(s) => Some(s.clone()),
        None => None,
    }
}

fn nullable_value(o: &Option<String>) -> (r: JsonValue)
    ensures
        r.model() == nullable(opt_view(*o)),
{
    match o {
        Some(s) => JsonValue::Str(s.clone()),
        None => JsonValue::Null,
    }
}

fn str_of(v: &JsonValue) -> (r: Option<String>)
    ensures
        opt_view(r) == as_str(v.model()),
{
    match v {
        JsonValue::Str(s) => Some(s.clone()),
        _ => None,
    }
}

impl Message {
    /// Mathematical form of the message.
    pub open spec fn model(&self) -> Frame {
        Frame {
            join_ref: opt_view(self.join_ref),
            msg_ref: opt_view(self.msg_ref),
            topic: self.topic@,
            event: self.event@,
            payload: self.payload.model(),
        }
    }

    /// The wire frame of the message.
    pub fn to_frame(&self) -> (r: JsonValue)
        ensures
            r.model() == frame_json(self.model()),
    {
        let a = nullable_value(&self.join_ref);
        let b = nullable_value(&self.msg_ref);
        let c = JsonValue::Str(self.topic.clone());
        let d = JsonValue::Str(self.event.clone());
        let e = clone_value(&self.payload);
        let mut items: Vec<JsonValue> = Vec::new();
        items.push(a);
        items.push(b);
        items.push(c);
        items.push(d);
        items.push(e);
        let ghost iv = items@;
        let r = JsonValue::Array(items);
        proof {
            let fs = frame_json(self.model())->Array_0;
            assert(r.model()->Array_0.len() == 5);
            assert(iv[0].model() == fs[0]);
            assert(iv[1].model() == fs[1]);
            assert(iv[2].model() == fs[2]);
            assert(iv[3].model() == fs[3]);
            assert(iv[4].model() == fs[4]);
            assert(r.model()->Array_0 =~= fs);
        }
        r
    }

    /// The message carried by a wire frame; `None` when the frame is not an
    /// array of five elements with a string topic and a string event.
    pub fn from_frame(v: &JsonValue) -> (r: Option<Message>)
        ensures
            match r {
                Some(m) => parse_frame(v.model()) == Some(m.model()),
                None => parse_frame(v.model()) is None,
            },
    {
        match v {
            JsonValue::Array(items) => {
                if items.len() != 5 {
                    return None;
                }
                proof {
                    assert(v.model()->Array_0[2] == items@[2].model());
                    assert(v.model()->Array_0[3] == items@[3].model());
                }
                let topic = match &items[2] {
                    JsonValue::Str(s) => s.clone(),
                    _ => {
                        return None;
                    },
                };
                let event = match &items[3] {
                    JsonValue::Str(s) => s.clone(),
                    _ => {
                        return None;
                    },
                };
                let m = Message {
                    join_ref: str_of(&items[0]),
                    msg_ref: str_of(&items[1]),
                    topic,
                    event,
                    payload: clone_value(&items[4]),
                };
                proof {
                    assert(v.model()->Array_0[0] == items@[0].model());
                    assert(v.model()->Array_0[1] == items@[1].model());
                    assert(v.model()->Array_0[4] == items@[4].model());
                }
                Some(m)
            },
            _ => None,
        }
    }

    /// Whether the message is a reply (`phx_reply`).
    pub fn is_reply(&self) -> (r: bool)
        ensures
            r == (self.event@ == "phx_reply"@),
    {
        str_eq(self.event.as_str(), "phx_reply")
    }

    /// The `status` of a reply.
    pub fn reply_status(&self) -> (r: Option<String>)
        ensures
            opt_view(r) == reply_status_of(self.payload.model()),
    {
        match self.payload.get("status") {
            Some(s) => str_of(s),
            None => None,
        }
    }

    /// Whether the reply reports success.
    pub fn reply_ok(&self) -> (r: bool)
        ensures
            r == (reply_status_of(self.payload.model()) == Some("ok"@)),
    {
        match self.reply_status() {
            Some(s) => str_eq(s.as_str(), "ok"),
            None => false,
        }
    }

    /// Whether the message is the reply to the request sent with `request_ref`.
    pub fn answers(&self, request_ref: &str) -> (r: bool)
        ensures
            r == (self.event@ == "phx_reply"@ && opt_view(self.msg_ref) == Some(request_ref@)),
    {
        if !self.is_reply() {
            return false;
        }
        match &self.msg_ref {
            Some(m) => str_eq(m.as_str(), request_ref),
            None => false,
        }
    }

    /// Why a join was rejected: `response.reason`, or `unknown`.
    pub fn rejection_reason(&self) -> (r: String)
        ensures
            r@ == rejection_reason_of(self.payload.model()),
    {
        match self.payload.get("response") {
            Some(response) => match response.get("reason") {
                Some(reason) => match reason.as_str() {
                    Some(s) => s.clone(),
                    None => owned("unknown"),
                },
                None => owned("unknown"),
            },
            None => owned("unknown"),
        }
    }

    /// The device event the message names.
    pub fn protocol_event(&self) -> (r: Result<ProtocolEvent, ()>)
        ensures
            r == event_from_name(self.event@),
    {
        ProtocolEvent::parse(self.event.as_str())
    }
}

/// Hands out message references: "1", "2", ... in increasing order.
pub struct RefCounter {
    next: u64,
}

impl View for RefCounter {
    type V = nat;

    closed spec fn view(&self) -> nat {
        self.next as nat
    }
}

/// Different numbers have different decimal forms, so references handed out
/// at different times differ.
pub proof fn lemma_decimal_injective(a: nat, b: nat)
    requires
        a != b,
    ensures
        decimal(a) != decimal(b),
    decreases a + b,
{
    if a < 10 && b < 10 {
        assert(decimal(a)[0] == digit_char(a));
        assert(decimal(b)[0] == digit_char(b));
        assert(digit_char(a) as u32 == 48 + a);
    } else if a < 10 {
        lemma_decimal_len(b / 10);
        assert(decimal(b).len() >= 2);
    } else if b < 10 {
        lemma_decimal_len(a / 10);
        assert(decimal(a).len() >= 2);
    } else if a % 10 != b % 10 {
        let da = decimal(a);
        let db = decimal(b);
        assert(da.last() == digit_char(a % 10));
        assert(db.last() == digit_char(b % 10));
        assert(digit_char(a % 10) as u32 == 48 + a % 10);
        assert(digit_char(b % 10) as u32 == 48 + b % 10);
    } else {
        assert(a / 10 != b / 10);
        lemma_decimal_injective(a / 10, b / 10);
        let da = decimal(a);
        let db = decimal(b);
        if da == db {
            assert(da.drop_last() == decimal(a / 10));
            assert(db.drop_last() == decimal(b / 10));
        }
    }
}

/// A decimal form has at least one digit.
pub proof fn lemma_decimal_len(n: nat)
    ensures
        decimal(n).len() >= 1,
    decreases n,
{
    if n >= 10 {
        lemma_decimal_len(n / 10);
    }
}

impl RefCounter {
    /// A counter whose first reference is "1".
    pub fn new() -> (r: RefCounter)
        ensures
            r@ == 1,
    {
        RefCounter { next: 1 }
    }

    /// Whether another reference can be handed out.
    pub fn can_issue(&self) -> (r: bool)
        ensures
            r == (self@ < u64::MAX),
    {
        self.next < u64::MAX
    }

    /// The next reference, in decimal.
    pub fn issue(&mut self) -> (r: String)
        requires
            old(self)@ < u64::MAX,
        ensures
            r@ == decimal(old(self)@),
            final(self)@ == old(self)@ + 1,
    {
        let r = u64_decimal(self.next);
        self.next = self.next + 1;
        r
    }
}

/// A joined (or joining) channel: its topic and the reference of its join.
#[derive(Debug, Clone)]
pub struct Channel {
    pub topic: String,
    pub join_ref: String,
}

/// The message of a client push on a channel.
pub open spec fn push_frame(topic: Seq<char>, join_ref: Seq<char>, msg_ref: Seq<char>, event: Seq<char>, payload: Json) -> Frame {
    Frame { join_ref: Some(join_ref), msg_ref: Some(msg_ref), topic, event, payload }
}

impl Channel {
    /// Joins `topic`: the join message carries a fresh reference as both its
    /// join reference and its message reference.
    pub fn join(topic: &str, payload: JsonValue, refs: &mut RefCounter) -> (r: (Channel, Message))
        requires
            old(refs)@ < u64::MAX,
        ensures
            r.0.topic@ == topic@,
            r.0.join_ref@ == decimal(old(refs)@),
            r.1.model() == push_frame(topic@, decimal(old(refs)@), decimal(old(refs)@), "phx_join"@, payload.model()),
            final(refs)@ == old(refs)@ + 1,
    {
        let join_ref = refs.issue();
        let channel = Channel { topic: owned(topic), join_ref: join_ref.clone() };
        let msg = Message {
            join_ref: Some(join_ref.clone()),
            msg_ref: Some(join_ref),
            topic: owned(topic),
            event: owned("phx_join"),
            payload,
        };
        (channel, msg)
    }

    /// A push of `event` with `payload` on this channel, under a fresh reference.
    pub fn push(&self, event: &str, payload: JsonValue, refs: &mut RefCounter) -> (r: Message)
        requires
            old(refs)@ < u64::MAX,
        ensures
            r.model() == push_frame(self.topic@, self.join_ref@, decimal(old(refs)@), event@, payload.model()),
            final(refs)@ == old(refs)@ + 1,
    {
        let msg_ref = refs.issue();
        Message {
            join_ref: Some(self.join_ref.clone()),
            msg_ref: Some(msg_ref),
            topic: self.topic.clone(),
            event: owned(event),
            payload,
        }
    }
}

/// A heartbeat: `[null, ref, "phoenix", "heartbeat", {}]`.
pub fn heartbeat(refs: &mut RefCounter) -> (r: Message)
    requires
        old(refs)@ < u64::MAX,
    ensures
        r.model() == (Frame {
            join_ref: None,
            msg_ref: Some(decimal(old(refs)@)),
            topic: PHOENIX_TOPIC@,
            event: "heartbeat"@,
            payload: Json::Object(Seq::empty()),
        }),
        final(refs)@ == old(refs)@ + 1,
{
    let msg_ref = refs.issue();
    Message {
        join_ref: None,
        msg_ref: Some(msg_ref),
        topic: owned(PHOENIX_TOPIC),
        event: owned("heartbeat"),
        payload: JsonValue::empty_object(),
    }
}

} // verus!
