//! Update status and progress payloads.
use crate::json::{entries_model, jstr, juint, Json, JsonValue};
use crate::text::owned;
use vstd::prelude::*;

verus! {

/// The stage that a progress report refers to.
#[derive(Debug, Clone, Copy, PartialEq, Eq, Structural)]
pub enum ProgressStage {
    Downloading,
    Updating,
}

/// Wire name of a progress stage.
pub open spec fn stage_name(s: ProgressStage) -> Seq<char> {
    match s {
        ProgressStage::Downloading => "downloading"@,
        ProgressStage::Updating => "updating"@,
    }
}

impl ProgressStage {
    /// The stage's wire name.
    pub fn as_str(self) -> (r: &'static str)
        ensures
            r@ == stage_name(self),
    {
        match self {
            ProgressStage::Downloading => "downloading",
            ProgressStage::Updating => "updating",
        }
    }
}

/// The status values reported on `status_update`.
#[derive(Debug, Clone, PartialEq, Eq)]
pub enum UpdateStatus {
    Received,
    Started { downloader_network_interface: Option<String> },
    Completed,
    Ignored { reason: String },
    Rescheduled { delay_for: u64, reason: Option<String> },
    Failed { reason: String },
}

/// The payload of a status report.
pub open spec fn status_json(s: UpdateStatus) -> Json {
    match s {
        UpdateStatus::Received => Json::Object(seq![("status"@, jstr("received"@))]),
        UpdateStatus::Started { downloader_network_interface: Some(i) } => Json::Object(
            seq![("status"@, jstr("started"@)), ("downloader_network_interface"@, jstr(i@))],
        ),
        UpdateStatus::Started { downloader_network_interface: None } => Json::Object(
            seq![("status"@, jstr("started"@))],
        ),
        UpdateStatus::Completed => Json::Object(seq![("status"@, jstr("completed"@))]),
        UpdateStatus::Ignored { reason } => Json::Object(
            seq![("status"@, jstr("ignored"@)), ("reason"@, jstr(reason@))],
        ),
        UpdateStatus::Rescheduled { delay_for, reason: Some(r) } => Json::Object(
            seq![("status"@, jstr("rescheduled"@)), ("delay_for"@, juint(delay_for)), ("reason"@, jstr(r@))],
        ),
        UpdateStatus::Rescheduled { delay_for, reason: None } => Json::Object(
            seq![("status"@, jstr("rescheduled"@)), ("delay_for"@, juint(delay_for))],
        ),
        UpdateStatus::Failed { reason } => Json::Object(
            seq![("status"@, jstr("failed"@)), ("reason"@, jstr(reason@))],
        ),
    }
}

/// An object entry `key => value`.
pub fn entry(key: &str, value: JsonValue) -> (r: (String, JsonValue))
    ensures
        r.0@ == key@,
        r.1 == value,
{
    (owned(key), value)
}

/// An object with one entry.
pub fn object1(k: &str, v: JsonValue) -> (r: JsonValue)
    ensures
        r.model() == Json::Object(seq![(k@, v.model())]),
{
    let ghost vm = v.model();
    let e = vec![entry(k, v)];
    assert(entries_model(e@) =~= seq![(k@, vm)]);
    JsonValue::object(e)
}

impl UpdateStatus {
    /// The `status_update` payload.
    pub fn payload(&self) -> (r: JsonValue)
        ensures
            r.model() == status_json(*self),
    {
        match self {
            UpdateStatus::Received => object1("status", JsonValue::text("received")),
            UpdateStatus::Started { downloader_network_interface: Some(interface) } => {
                let v = vec![
                    entry("status", JsonValue::text("started")),
                    entry("downloader_network_interface", JsonValue::text(interface.as_str())),
                ];
                assert(entries_model(v@) =~= seq![("status"@, jstr("started"@)), ("downloader_network_interface"@, jstr(interface@))]);
                JsonValue::object(v)
            },
            UpdateStatus::Started { downloader_network_interface: None } => object1(
                "status",
                JsonValue::text("started"),
            ),
            UpdateStatus::Completed => object1("status", JsonValue::text("completed")),
            UpdateStatus::Ignored { reason } => {
                let v = vec![
                    entry("status", JsonValue::text("ignored")),
                    entry("reason", JsonValue::text(reason.as_str())),
                ];
                assert(entries_model(v@) =~= seq![("status"@, jstr("ignored"@)), ("reason"@, jstr(reason@))]);
                JsonValue::object(v)
            },
            UpdateStatus::Rescheduled { delay_for, reason: Some(reason) } => {
                let v = vec![
                    entry("status", JsonValue::text("rescheduled")),
                    entry("delay_for", JsonValue::uint(*delay_for)),
                    entry("reason", JsonValue::text(reason.as_str())),
                ];
                assert(entries_model(v@) =~= seq![("status"@, jstr("rescheduled"@)), ("delay_for"@, juint(*delay_for)), ("reason"@, jstr(reason@))]);
                JsonValue::object(v)
            },
            UpdateStatus::Rescheduled { delay_for, reason: None } => {
                let v = vec![
                    entry("status", JsonValue::text("rescheduled")),
                    entry("delay_for", JsonValue::uint(*delay_for)),
                ];
                assert(entries_model(v@) =~= seq![("status"@, jstr("rescheduled"@)), ("delay_for"@, juint(*delay_for))]);
                JsonValue::object(v)
            },
            UpdateStatus::Failed { reason } => {
                let v = vec![
                    entry("status", JsonValue::text("failed")),
                    entry("reason", JsonValue::text(reason.as_str())),
                ];
                assert(entries_model(v@) =~= seq![("status"@, jstr("failed"@)), ("reason"@, jstr(reason@))]);
                JsonValue::object(v)
            },
        }
    }
}

/// The `fwup_progress` payload.
pub open spec fn progress_json(stage: ProgressStage, value: u8) -> Json {
    Json::Object(
        seq![("stage"@, jstr(stage_name(stage))), ("value"@, juint(if value <= 100 { value as u64 } else { 100 }))],
    )
}

/// The `fwup_progress` payload; the value is clamped to 100.
pub fn progress_payload(stage: ProgressStage, value: u8) -> (r: JsonValue)
    ensures
        r.model() == progress_json(stage, value),
{
    let clamped: u8 = if value <= 100 { value } else { 100 };
    let v = vec![
        entry("stage", JsonValue::text(stage.as_str())),
        entry("value", JsonValue::uint(clamped as u64)),
    ];
    assert(entries_model(v@) =~= seq![("stage"@, jstr(stage_name(stage))), ("value"@, juint(if value <= 100 { value as u64 } else { 100 }))]);
    JsonValue::object(v)
}

} // verus!
