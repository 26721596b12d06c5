//! The extensions channel: which extensions the device offers, which ones the
//! server asks for, and the health extension's attach/detach/report cycle.
use crate::json::{entries_model, get, insert, insert_entry, Json, JsonValue};
use crate::protocol::message::{opt_view, reply_status_of, Channel, Message, RefCounter, push_frame};
use crate::text::{owned, str_eq};
use vstd::prelude::*;

verus! {

/// Name of the health extension.
pub const HEALTH_EXTENSION_NAME: &'static str = "health";

/// Version of the health extension that the device offers.
pub const HEALTH_EXTENSION_VERSION: &'static str = "0.0.1";

/// The result of one health check.
#[derive(Debug, Clone)]
pub struct HealthCheck {
    pub pass: bool,
    pub note: String,
}

impl Default for HealthCheck {
    fn default() -> (r: HealthCheck)
        ensures
            !r.pass,
            r.note@ == Seq::<char>::empty(),
    {
        HealthCheck { pass: false, note: String::new() }
    }
}

/// Reports the health of the machine the daemon runs on. Its metrics are
/// measured by the daemon itself.
#[derive(Debug, Clone, Copy)]
pub struct SystemHealthReporter;

/// The join payload offering the extensions: `{"health": "0.0.1"}`.
pub open spec fn available_extensions_json() -> Json {
    Json::Object(seq![(HEALTH_EXTENSION_NAME@, Json::Str(HEALTH_EXTENSION_VERSION@))])
}

/// The join payload offering the extensions.
pub fn available_extensions_payload() -> (r: JsonValue)
    ensures
        r.model() == available_extensions_json(),
{
    let mut entries: Vec<(String, JsonValue)> = Vec::new();
    entries.push((owned(HEALTH_EXTENSION_NAME), JsonValue::text(HEALTH_EXTENSION_VERSION)));
    assert(entries_model(entries@) =~= seq![(HEALTH_EXTENSION_NAME@, Json::Str(HEALTH_EXTENSION_VERSION@))]);
    JsonValue::object(entries)
}

/// Whether an object has an entry for `key`.
pub open spec fn has_key(es: Seq<(Seq<char>, Json)>, key: Seq<char>) -> bool {
    exists|i: int| 0 <= i < es.len() && (#[trigger] es[i]).0 == key
}

/// Whether one element of a requested list names `extension`: a string equal
/// to it, or an object with an entry for it.
pub open spec fn item_names(item: Json, extension: Seq<char>) -> bool {
    match item {
        Json::Str(name) => name == extension,
        Json::Object(es) => has_key(es, extension),
        _ => false,
    }
}

/// The part of a payload that lists the requested extensions: its
/// `extensions` entry, or the whole payload.
pub open spec fn requested_part(payload: Json) -> Json {
    match get(payload, "extensions"@) {
        Some(v) => v,
        None => payload,
    }
}

/// Whether a payload asks for `extension`: the string `all` or the name
/// itself, a list with an element naming it, or an object with an entry for it.
#[verifier::opaque]
pub open spec fn requests(payload: Json, extension: Seq<char>) -> bool {
    match requested_part(payload) {
        Json::Str(v) => v == "all"@ || v == extension,
        Json::Array(items) => exists|i: int| 0 <= i < items.len() && item_names(#[trigger] items[i], extension),
        Json::Object(es) => has_key(es, extension),
        _ => false,
    }
}

fn object_has_key(entries: &Vec<(String, JsonValue)>, key: &str) -> (r: bool)
    ensures
        r == has_key(entries_model(entries@), key@),
{
    let mut i: usize = 0;
    while i < entries.len()
        invariant
            i <= entries.len(),
            forall|j: int| 0 <= j < i ==> entries@[j].0@ != key@,
        decreases entries.len() - i,
    {
        if str_eq(entries[i].0.as_str(), key) {
            assert(entries_model(entries@)[i as int].0 == key@);
            return true;
        }
        i = i + 1;
    }
    proof {
        if has_key(entries_model(entries@), key@) {
            let k = choose|k: int| 0 <= k < entries_model(entries@).len() && (#[trigger] entries_model(entries@)[k]).0 == key@;
            assert(entries@[k].0@ == key@);
        }
    }
    false
}

fn names(item: &JsonValue, extension: &str) -> (r: bool)
    ensures
        r == item_names(item.model(), extension@),
{
    match item {
        JsonValue::Str(name) => str_eq(name.as_str(), extension),
        JsonValue::Object(entries) => {
            assert(item.model()->Object_0 =~= entries_model(entries@));
            object_has_key(entries, extension)
        },
        _ => false,
    }
}

/// Whether `payload` asks for `extension`.
pub fn extension_requested(payload: &JsonValue, extension: &str) -> (r: bool)
    ensures
        r == requests(payload.model(), extension@),
{
    reveal(requests);
    let requested = match payload.get("extensions") {
        Some(v) => v,
        None => payload,
    };
    assert(requested.model() == requested_part(payload.model()));
    match requested {
        JsonValue::Str(value) => {
            let r = str_eq(value.as_str(), "all") || str_eq(value.as_str(), extension);
            assert(r == requests(payload.model(), extension@));
            r
        },
        JsonValue::Array(values) => {
            let ghost items = requested.model()->Array_0;
            let mut i: usize = 0;
            while i < values.len()
                invariant
                    i <= values.len(),
                    requested_part(payload.model()) == Json::Array(items),
                    items.len() == values.len(),
                    forall|j: int| 0 <= j < values.len() ==> items[j] == (#[trigger] values@[j]).model(),
                    forall|j: int| 0 <= j < i ==> !item_names(#[trigger] items[j], extension@),
                decreases values.len() - i,
            {
                if names(&values[i], extension) {
                    assert(item_names(items[i as int], extension@));
                    let ghost rp = requested_part(payload.model());
                    assert(rp->Array_0 == items);
                    assert(exists|j: int| 0 <= j < rp->Array_0.len() && item_names(#[trigger] rp->Array_0[j], extension@));
                    reveal(requests);
                    assert(requests(payload.model(), extension@));
                    return true;
                }
                i = i + 1;
            }
            assert(!(exists|j: int| 0 <= j < items.len() && item_names(#[trigger] items[j], extension@)));
            assert(!requests(payload.model(), extension@));
            false
        },
        JsonValue::Object(entries) => {
            assert(requested.model()->Object_0 =~= entries_model(entries@));
            let r = object_has_key(entries, extension);
            assert(r == requests(payload.model(), extension@));
            r
        },
        _ => {
            assert(!requests(payload.model(), extension@));
            false
        },
    }
}

/// What the extensions side of the client does, in order.
#[derive(Debug, Clone, Copy, PartialEq, Eq, Structural)]
pub enum ExtensionsAction {
    /// Tell the caller that the extensions channel was joined.
    AnnounceJoined,
    /// Send `health:attached`.
    SendHealthAttached,
    /// Send `health:detached`.
    SendHealthDetached,
    /// Gather a health report and send it as `health:report`.
    ReportHealth,
}

/// The state of the extensions channel.
#[derive(Debug, Clone)]
pub struct ExtensionsState {
    /// The channel, once its join was sent.
    pub channel: Option<Channel>,
    /// Whether the health extension is attached.
    pub health_attached: bool,
}

/// Attaching health: announced and followed by a report the first time only.
pub open spec fn attach_steps(attached: bool) -> Seq<ExtensionsAction> {
    if attached {
        Seq::empty()
    } else {
        seq![ExtensionsAction::SendHealthAttached, ExtensionsAction::ReportHealth]
    }
}

/// The part of a join reply that lists the selected extensions: its
/// `response`, or the whole payload.
pub open spec fn reply_selection(payload: Json) -> Json {
    match get(payload, "response"@) {
        Some(r) => r,
        None => payload,
    }
}

/// Whether `m` is the successful reply to the join of `channel`.
pub open spec fn joins(channel: Option<Channel>, m: crate::protocol::message::Frame) -> bool {
    match channel {
        Some(c) => m.msg_ref == Some(c.join_ref@) && reply_status_of(m.payload) == Some("ok"@),
        None => false,
    }
}

/// The actions for a message on the extensions channel, and whether health is
/// attached afterwards.
pub open spec fn extensions_step(s: ExtensionsState, m: crate::protocol::message::Frame) -> (Seq<ExtensionsAction>, bool) {
    if m.event == "phx_reply"@ {
        if joins(s.channel, m) {
            if requests(reply_selection(m.payload), HEALTH_EXTENSION_NAME@) {
                (seq![ExtensionsAction::AnnounceJoined] + attach_steps(s.health_attached), true)
            } else {
                (seq![ExtensionsAction::AnnounceJoined], s.health_attached)
            }
        } else {
            (Seq::empty(), s.health_attached)
        }
    } else if s.channel is None {
        (Seq::empty(), s.health_attached)
    } else if m.event == "attach"@ {
        if requests(m.payload, HEALTH_EXTENSION_NAME@) {
            (attach_steps(s.health_attached), true)
        } else {
            (Seq::empty(), s.health_attached)
        }
    } else if m.event == "detach"@ {
        if requests(m.payload, HEALTH_EXTENSION_NAME@) && s.health_attached {
            (seq![ExtensionsAction::SendHealthDetached], false)
        } else {
            (Seq::empty(), s.health_attached)
        }
    } else if m.event == "health:check"@ {
        if s.health_attached {
            (seq![ExtensionsAction::ReportHealth], true)
        } else {
            (Seq::empty(), false)
        }
    } else {
        (Seq::empty(), s.health_attached)
    }
}

impl ExtensionsState {
    /// No channel joined, health detached.
    pub fn new() -> (r: ExtensionsState)
        ensures
            r.channel is None,
            !r.health_attached,
    {
        ExtensionsState { channel: None, health_attached: false }
    }

    /// Joins the `extensions` topic, offering the available extensions.
    pub fn join(&mut self, refs: &mut RefCounter) -> (r: Message)
        requires
            old(refs)@ < u64::MAX,
        ensures
            r.model() == push_frame(
                crate::protocol::message::EXTENSIONS_TOPIC@,
                crate::text::decimal(old(refs)@),
                crate::text::decimal(old(refs)@),
                "phx_join"@,
                available_extensions_json(),
            ),
            final(self).channel matches Some(c) && c.join_ref@ == crate::text::decimal(old(refs)@)
                && c.topic@ == crate::protocol::message::EXTENSIONS_TOPIC@,
            final(self).health_attached == old(self).health_attached,
            final(refs)@ == old(refs)@ + 1,
    {
        let (channel, msg) = Channel::join(
            crate::protocol::message::EXTENSIONS_TOPIC,
            available_extensions_payload(),
            refs,
        );
        self.channel = Some(channel);
        msg
    }

    fn attach(&mut self, out: &mut Vec<ExtensionsAction>)
        ensures
            final(out)@ == old(out)@ + attach_steps(old(self).health_attached),
            final(self).health_attached,
            final(self).channel == old(self).channel,
    {
        if !self.health_attached {
            out.push(ExtensionsAction::SendHealthAttached);
            out.push(ExtensionsAction::ReportHealth);
            self.health_attached = true;
        }
        assert(out@ =~= old(out)@ + attach_steps(old(self).health_attached));
    }

    /// Handles a message on the extensions channel.
    pub fn handle_message(&mut self, msg: &Message) -> (r: Vec<ExtensionsAction>)
        ensures
            (r@, final(self).health_attached) == extensions_step(*old(self), msg.model()),
            final(self).channel == old(self).channel,
    {
        let mut out: Vec<ExtensionsAction> = Vec::new();
        if msg.is_reply() {
            let joined = match &self.channel {
                Some(c) => match &msg.msg_ref {
                    Some(m) => str_eq(m.as_str(), c.join_ref.as_str()) && msg.reply_ok(),
                    None => false,
                },
                None => false,
            };
            if joined {
                out.push(ExtensionsAction::AnnounceJoined);
                let selection = match msg.payload.get("response") {
                    Some(r) => r,
                    None => &msg.payload,
                };
                if extension_requested(selection, HEALTH_EXTENSION_NAME) {
                    self.attach(&mut out);
                }
            }
            assert(out@ =~= extensions_step(*old(self), msg.model()).0);
            return out;
        }
        if self.channel.is_none() {
            return out;
        }
        let event = msg.event.as_str();
        if str_eq(event, "attach") {
            if extension_requested(&msg.payload, HEALTH_EXTENSION_NAME) {
                self.attach(&mut out);
            }
        } else if str_eq(event, "detach") {
            if extension_requested(&msg.payload, HEALTH_EXTENSION_NAME) && self.health_attached {
                out.push(ExtensionsAction::SendHealthDetached);
                self.health_attached = false;
            }
        } else if str_eq(event, "health:check") {
            if self.health_attached {
                out.push(ExtensionsAction::ReportHealth);
            }
        }
        assert(out@ =~= extensions_step(*old(self), msg.model()).0);
        out
    }
}

/// A health report with the active alarms merged into its `alarms` object
/// (an alarm replaces an entry of the same name).
pub open spec fn merge_alarms(es: Seq<(Seq<char>, Json)>, alarms: Seq<(Seq<char>, Seq<char>)>) -> Seq<(Seq<char>, Json)>
    decreases alarms.len(),
{
    if alarms.len() == 0 {
        es
    } else {
        merge_alarms(insert_entry(es, alarms[0].0, Json::Str(alarms[0].1)), alarms.drop_first())
    }
}

/// The `alarms` object of a report, or no entries when it has none.
pub open spec fn alarm_entries(es: Seq<(Seq<char>, Json)>) -> Seq<(Seq<char>, Json)> {
    match crate::json::lookup(es, "alarms"@) {
        Some(Json::Object(a)) => a,
        _ => Seq::empty(),
    }
}

/// A report with the active alarms merged into its `alarms` object; a report
/// that is not an object is left as it is.
pub open spec fn report_with_alarms(report: Json, alarms: Seq<(Seq<char>, Seq<char>)>) -> Json {
    match report {
        Json::Object(es) => Json::Object(
            insert_entry(es, "alarms"@, Json::Object(merge_alarms(alarm_entries(es), alarms))),
        ),
        _ => report,
    }
}

/// The texts of alarm pairs.
pub open spec fn alarm_texts(v: Seq<(String, String)>) -> Seq<(Seq<char>, Seq<char>)> {
    Seq::new(v.len(), |i: int| (v[i].0@, v[i].1@))
}

fn merge_into(entries: &mut Vec<(String, JsonValue)>, alarms: &Vec<(String, String)>)
    ensures
        entries_model(final(entries)@) == merge_alarms(entries_model(old(entries)@), alarm_texts(alarms@)),
{
    let ghost goal = merge_alarms(entries_model(entries@), alarm_texts(alarms@));
    assert(alarm_texts(alarms@).skip(0) =~= alarm_texts(alarms@));
    let mut i: usize = 0;
    while i < alarms.len()
        invariant
            i <= alarms.len(),
            merge_alarms(entries_model(entries@), alarm_texts(alarms@).skip(i as int)) == goal,
        decreases alarms.len() - i,
    {
        let ghost rest = alarm_texts(alarms@).skip(i as int);
        assert(rest[0] == (alarms@[i as int].0@, alarms@[i as int].1@));
        assert(rest.drop_first() =~= alarm_texts(alarms@).skip(i + 1));
        insert(entries, alarms[i].0.as_str(), JsonValue::Str(alarms[i].1.clone()));
        i = i + 1;
    }
    assert(alarm_texts(alarms@).skip(i as int) =~= Seq::empty());
}

fn alarms_of(entries: &Vec<(String, JsonValue)>) -> (r: Vec<(String, JsonValue)>)
    ensures
        entries_model(r@) == alarm_entries(entries_model(entries@)),
{
    match crate::json::find_key(entries, "alarms") {
        Some(k) => {
            assert(entries_model(entries@)[k as int].1 == entries@[k as int].1.model());
            match &entries[k].1 {
                JsonValue::Object(a) => {
                    assert(entries@[k as int].1.model()->Object_0 =~= entries_model(a@));
                    crate::config::clone_entries(a)
                },
                _ => {
                    let r: Vec<(String, JsonValue)> = Vec::new();
                    assert(entries_model(r@) =~= Seq::empty());
                    r
                },
            }
        },
        None => {
            let r: Vec<(String, JsonValue)> = Vec::new();
            assert(entries_model(r@) =~= Seq::empty());
            r
        },
    }
}

/// Merges the active alarms into a health report.
pub fn with_alarms(report: JsonValue, alarms: &Vec<(String, String)>) -> (r: JsonValue)
    ensures
        r.model() == report_with_alarms(report.model(), alarm_texts(alarms@)),
{
    let ghost rm = report.model();
    match report {
        JsonValue::Object(entries) => {
            let mut entries = entries;
            assert(rm->Object_0 =~= entries_model(entries@));
            let mut current = alarms_of(&entries);
            merge_into(&mut current, alarms);
            insert(&mut entries, "alarms", JsonValue::object(current));
            JsonValue::object(entries)
        },
        other => other,
    }
}

/// The `health:report` push: `{"value": report}` with the active alarms merged in.
pub fn health_report(channel: &Channel, report: JsonValue, alarms: &Vec<(String, String)>, refs: &mut RefCounter) -> (r: Message)
    requires
        old(refs)@ < u64::MAX,
    ensures
        r.model() == push_frame(
            channel.topic@,
            channel.join_ref@,
            crate::text::decimal(old(refs)@),
            "health:report"@,
            Json::Object(seq![("value"@, report_with_alarms(report.model(), alarm_texts(alarms@)))]),
        ),
        final(refs)@ == old(refs)@ + 1,
{
    let value = with_alarms(report, alarms);
    channel.push("health:report", crate::protocol::status::object1("value", value), refs)
}

/// The `health:attached` push.
pub fn health_attached(channel: &Channel, refs: &mut RefCounter) -> (r: Message)
    requires
        old(refs)@ < u64::MAX,
    ensures
        r.model() == push_frame(channel.topic@, channel.join_ref@, crate::text::decimal(old(refs)@), "health:attached"@, Json::Object(Seq::empty())),
        final(refs)@ == old(refs)@ + 1,
{
    channel.push("health:attached", JsonValue::empty_object(), refs)
}

/// The `health:detached` push.
pub fn health_detached(channel: &Channel, refs: &mut RefCounter) -> (r: Message)
    requires
        old(refs)@ < u64::MAX,
    ensures
        r.model() == push_frame(channel.topic@, channel.join_ref@, crate::text::decimal(old(refs)@), "health:detached"@, Json::Object(Seq::empty())),
        final(refs)@ == old(refs)@ + 1,
{
    channel.push("health:detached", JsonValue::empty_object(), refs)
}

/// Alarm identifiers that occur once each.
pub open spec fn distinct_ids(alarms: Seq<(Seq<char>, Seq<char>)>) -> bool {
    forall|i: int, j: int| 0 <= i < j < alarms.len() ==> alarms[i].0 != alarms[j].0
}

/// Merging alarms: each merged alarm reads back with its description, and an
/// identifier that is not merged keeps what the report had.
pub proof fn lemma_merge_lookup(es: Seq<(Seq<char>, Json)>, alarms: Seq<(Seq<char>, Seq<char>)>)
    requires
        distinct_ids(alarms),
    ensures
        forall|i: int| 0 <= i < alarms.len() ==> crate::json::lookup(merge_alarms(es, alarms), #[trigger] alarms[i].0)
            == Some(Json::Str(alarms[i].1)),
        forall|q: Seq<char>| (forall|i: int| 0 <= i < alarms.len() ==> alarms[i].0 != q) ==> crate::json::lookup(
            #[trigger] merge_alarms(es, alarms),
            q,
        ) == crate::json::lookup(es, q),
    decreases alarms.len(),
{
    if alarms.len() > 0 {
        let first = alarms[0];
        let rest = alarms.drop_first();
        let es1 = insert_entry(es, first.0, Json::Str(first.1));
        assert(distinct_ids(rest)) by {
            assert forall|i: int, j: int| 0 <= i < j < rest.len() implies rest[i].0 != rest[j].0 by {
                assert(rest[i] == alarms[i + 1]);
                assert(rest[j] == alarms[j + 1]);
            }
        }
        lemma_merge_lookup(es1, rest);
        assert(merge_alarms(es, alarms) == merge_alarms(es1, rest));
        assert forall|i: int| 0 <= i < alarms.len() implies crate::json::lookup(
            merge_alarms(es, alarms),
            #[trigger] alarms[i].0,
        ) == Some(Json::Str(alarms[i].1)) by {
            if i == 0 {
                assert forall|k: int| 0 <= k < rest.len() implies rest[k].0 != first.0 by {
                    assert(rest[k] == alarms[k + 1]);
                }
                crate::json::lemma_lookup_insert(es, first.0, Json::Str(first.1), first.0);
            } else {
                assert(rest[i - 1] == alarms[i]);
            }
        }
        assert forall|q: Seq<char>| (forall|i: int| 0 <= i < alarms.len() ==> alarms[i].0 != q) implies crate::json::lookup(
            #[trigger] merge_alarms(es, alarms),
            q,
        ) == crate::json::lookup(es, q) by {
            assert forall|k: int| 0 <= k < rest.len() implies rest[k].0 != q by {
                assert(rest[k] == alarms[k + 1]);
            }
            assert(alarms[0].0 != q);
            crate::json::lemma_lookup_insert(es, first.0, Json::Str(first.1), q);
        }
    }
}

/// Every active alarm is in the health report that is sent, with its
/// description; the other entries of the report's alarms stay.
pub proof fn lemma_report_lists_alarms(es: Seq<(Seq<char>, Json)>, alarms: Seq<(Seq<char>, Seq<char>)>)
    requires
        distinct_ids(alarms),
    ensures
        forall|i: int| 0 <= i < alarms.len() ==> get(
            get(report_with_alarms(Json::Object(es), alarms), "alarms"@)->Some_0,
            #[trigger] alarms[i].0,
        ) == Some(Json::Str(alarms[i].1)),
        get(report_with_alarms(Json::Object(es), alarms), "alarms"@) is Some,
{
    let merged = merge_alarms(alarm_entries(es), alarms);
    crate::json::lemma_lookup_insert(es, "alarms"@, Json::Object(merged), "alarms"@);
    lemma_merge_lookup(alarm_entries(es), alarms);
    assert(get(report_with_alarms(Json::Object(es), alarms), "alarms"@) == Some(Json::Object(merged)));
}

/// Alarm pairs in increasing identifier order have distinct identifiers.
pub proof fn lemma_sorted_ids_distinct(alarms: Seq<(Seq<char>, Seq<char>)>)
    requires
        crate::alarms::sorted_keys(alarms),
    ensures
        distinct_ids(alarms),
{
    assert forall|i: int, j: int| 0 <= i < j < alarms.len() implies alarms[i].0 != alarms[j].0 by {
        crate::alarms::lemma_text_lt_irreflexive(alarms[i].0);
    }
}

/// A payload whose `extensions` list names `health` asks for health.
pub proof fn lemma_health_list_requests_health(payload: Json, items: Seq<Json>, i: int)
    requires
        get(payload, "extensions"@) == Some(Json::Array(items)),
        0 <= i < items.len(),
        items[i] == Json::Str(HEALTH_EXTENSION_NAME@),
    ensures
        requests(payload, HEALTH_EXTENSION_NAME@),
{
    reveal(requests);
    assert(requested_part(payload) == Json::Array(items));
    assert(item_names(items[i], HEALTH_EXTENSION_NAME@));
    let rp = requested_part(payload);
    assert(rp->Array_0 == items);
    assert(exists|j: int| 0 <= j < rp->Array_0.len() && item_names(#[trigger] rp->Array_0[j], HEALTH_EXTENSION_NAME@));
    assert(requests(payload, HEALTH_EXTENSION_NAME@));
}

/// On a joined extensions channel, an `attach` that asks for health while it
/// is detached attaches it: the server is told that health is attached, a
/// report follows, and a later `health:check` is answered with a report.
pub proof fn lemma_attach_attaches_health(
    s: ExtensionsState,
    m: crate::protocol::message::Frame,
    check: crate::protocol::message::Frame,
)
    requires
        s.channel is Some,
        !s.health_attached,
        m.event == "attach"@,
        requests(m.payload, HEALTH_EXTENSION_NAME@),
        check.event == "health:check"@,
    ensures
        extensions_step(s, m).0 == seq![ExtensionsAction::SendHealthAttached, ExtensionsAction::ReportHealth],
        extensions_step(s, m).1,
        extensions_step(ExtensionsState { health_attached: extensions_step(s, m).1, ..s }, check).0 == seq![
            ExtensionsAction::ReportHealth,
        ],
{
    reveal_strlit("attach");
    reveal_strlit("phx_reply");
    reveal_strlit("detach");
    reveal_strlit("health:check");
    assert("attach"@.len() == 6 && "phx_reply"@.len() == 9 && "health:check"@.len() == 12);
    assert("detach"@[0] != "health:check"@[0]);
    assert(m.event != "phx_reply"@);
    assert(check.event != "phx_reply"@);
    assert(check.event != "attach"@);
    assert(check.event != "detach"@);
}

/// Health is reported only while the health extension is attached, and it
/// is attached at most once before being detached: `health:attached` is sent
/// only when health was detached, `health:detached` only when it was attached.
pub proof fn lemma_reports_only_when_attached(s: ExtensionsState, m: crate::protocol::message::Frame)
    ensures
        forall|k: int| 0 <= k < extensions_step(s, m).0.len() ==> {
            &&& (#[trigger] extensions_step(s, m).0[k] == ExtensionsAction::ReportHealth ==> extensions_step(s, m).1)
            &&& (extensions_step(s, m).0[k] == ExtensionsAction::SendHealthAttached ==> !s.health_attached
                && extensions_step(s, m).1)
            &&& (extensions_step(s, m).0[k] == ExtensionsAction::SendHealthDetached ==> s.health_attached
                && !extensions_step(s, m).1)
        },
{
    let r = extensions_step(s, m);
    if m.event == "phx_reply"@ {
        if joins(s.channel, m) && requests(reply_selection(m.payload), HEALTH_EXTENSION_NAME@) {
            assert(r.0 == seq![ExtensionsAction::AnnounceJoined] + attach_steps(s.health_attached));
            if !s.health_attached {
                assert(r.0 =~= seq![
                    ExtensionsAction::AnnounceJoined,
                    ExtensionsAction::SendHealthAttached,
                    ExtensionsAction::ReportHealth,
                ]);
            } else {
                assert(r.0 =~= seq![ExtensionsAction::AnnounceJoined]);
            }
        }
    }
}

} // verus!
