//! What a deployment reports to the server while it runs, and when.
use crate::deployment::{status_reason_text, DeploymentError};
use crate::json::{jstr, Json, JsonValue};
use crate::protocol::events::ProtocolEvent;
use crate::protocol::status::{
    progress_json, progress_payload, status_json, ProgressStage, UpdateStatus,
};
use crate::alarms::{AlarmStore, UPDATE_IN_PROGRESS_ALARM};
use crate::protocol::message::{push_frame, Channel, Message, RefCounter};
use crate::reboot::{reboot_allowed, RebootController, RebootReason};
use vstd::prelude::*;

verus! {

/// A message for the device channel: an event and its payload.
pub struct Outbound {
    pub event: ProtocolEvent,
    pub payload: JsonValue,
}

/// The mathematical form of a message.
pub open spec fn outbound_model(o: Outbound) -> (ProtocolEvent, Json) {
    (o.event, o.payload.model())
}

/// The mathematical form of a list of messages.
pub open spec fn outbound_seq(v: Seq<Outbound>) -> Seq<(ProtocolEvent, Json)> {
    v.map_values(|o: Outbound| outbound_model(o))
}

/// A download progress value is reported when it is at least five points
/// above the last reported value, and 100 always is.
pub open spec fn should_report(last: u8, pct: u8) -> bool {
    pct as int > last as int + 4 || pct == 100
}

/// Decides which download progress values are reported.
pub struct ProgressThrottle {
    pub last_reported: u8,
}

/// The values reported for a run of progress observations, starting from
/// `last` as the last reported value.
pub open spec fn reported(last: u8, pcts: Seq<u8>) -> Seq<u8>
    decreases pcts.len(),
{
    if pcts.len() == 0 {
        Seq::empty()
    } else if should_report(last, pcts[0]) {
        seq![pcts[0]] + reported(pcts[0], pcts.drop_first())
    } else {
        reported(last, pcts.drop_first())
    }
}

impl ProgressThrottle {
    /// Nothing reported yet.
    pub fn new() -> (r: ProgressThrottle)
        ensures
            r.last_reported == 0,
    {
        ProgressThrottle { last_reported: 0 }
    }

    /// Observes a progress value; returns the `fwup_progress` payload to send
    /// when the value is to be reported.
    pub fn observe(&mut self, pct: u8) -> (r: Option<JsonValue>)
        ensures
            r is Some <==> should_report(old(self).last_reported, pct),
            r matches Some(p) ==> p.model() == progress_json(ProgressStage::Downloading, pct),
            final(self).last_reported == (if should_report(old(self).last_reported, pct) {
                pct
            } else {
                old(self).last_reported
            }),
    {
        if (pct as u16) > (self.last_reported as u16) + 4 || pct == 100 {
            self.last_reported = pct;
            Some(progress_payload(ProgressStage::Downloading, pct))
        } else {
            None
        }
    }
}

/// Between two consecutive reports, the later one is 100 or at least five
/// points higher; a report is never made for a value that does not exceed
/// the previous report by five, unless it is 100.
pub proof fn lemma_reports_spaced(last: u8, pcts: Seq<u8>)
    ensures
        forall|i: int| 0 <= i < reported(last, pcts).len() ==> (#[trigger] reported(last, pcts)[i]
            == 100 || reported(last, pcts)[i] as int >= (if i == 0 {
            last as int
        } else {
            reported(last, pcts)[i - 1] as int
        }) + 5),
    decreases pcts.len(),
{
    if pcts.len() > 0 {
        let rest = pcts.drop_first();
        if should_report(last, pcts[0]) {
            lemma_reports_spaced(pcts[0], rest);
            let r = reported(last, pcts);
            let q = reported(pcts[0], rest);
            assert(r == seq![pcts[0]] + q);
            assert forall|i: int| 0 <= i < r.len() implies (#[trigger] r[i] == 100 || r[i] as int >= (
            if i == 0 {
                last as int
            } else {
                r[i - 1] as int
            }) + 5) by {
                if i > 0 {
                    assert(r[i] == q[i - 1]);
                    assert(q[i - 1] == 100 || q[i - 1] as int >= (if i - 1 == 0 {
                        pcts[0] as int
                    } else {
                        q[i - 2] as int
                    }) + 5);
                    if i > 1 {
                        assert(r[i - 1] == q[i - 2]);
                    } else {
                        assert(r[0] == pcts[0]);
                    }
                } else {
                    assert(r[0] == pcts[0]);
                }
            }
        } else {
            lemma_reports_spaced(last, rest);
            assert(reported(last, pcts) == reported(last, rest));
        }
    }
}

/// Every observation of 100 is reported.
pub proof fn lemma_full_progress_reported(last: u8, pcts: Seq<u8>, i: int)
    requires
        0 <= i < pcts.len(),
        pcts[i] == 100,
    ensures
        reported(last, pcts).contains(100),
    decreases pcts.len(),
{
    let rest = pcts.drop_first();
    if i == 0 {
        assert(reported(last, pcts)[0] == 100);
    } else {
        assert(rest[i - 1] == 100);
        if should_report(last, pcts[0]) {
            lemma_full_progress_reported(pcts[0], rest, i - 1);
            let k = choose|k: int| 0 <= k < reported(pcts[0], rest).len() && reported(pcts[0], rest)[k] == 100;
            assert(reported(last, pcts)[k + 1] == 100);
        } else {
            lemma_full_progress_reported(last, rest, i - 1);
        }
    }
}

/// The messages that close a deployment: on success the final `updating`
/// progress, `completed`, and `rebooting` when a reboot after applying
/// firmware is enabled; on failure a `failed` status with the reason.
pub open spec fn closing_messages(outcome: Result<(), DeploymentError>, reboot: bool) -> Seq<
    (ProtocolEvent, Json),
> {
    match outcome {
        Ok(()) => {
            let done = seq![
                (ProtocolEvent::FwupProgress, progress_json(ProgressStage::Updating, 100)),
                (ProtocolEvent::StatusUpdate, Json::Object(seq![("status"@, jstr("completed"@))])),
            ];
            if reboot {
                done.push((ProtocolEvent::Rebooting, Json::Object(Seq::empty())))
            } else {
                done
            }
        },
        Err(e) => seq![
            (
                ProtocolEvent::StatusUpdate,
                Json::Object(seq![("status"@, jstr("failed"@)), ("reason"@, jstr(status_reason_text(e)))]),
            ),
        ],
    }
}

/// A deployment closes with `rebooting` exactly when the firmware was applied
/// and a reboot after applying it is enabled; that message is then the last.
pub proof fn lemma_rebooting_closes_applied_firmware(outcome: Result<(), DeploymentError>, reboot: bool)
    ensures
        closing_messages(outcome, reboot).len() > 0,
        (closing_messages(outcome, reboot).last().0 == ProtocolEvent::Rebooting) <==> (outcome is Ok
            && reboot),
        forall|i: int|
            0 <= i < closing_messages(outcome, reboot).len() - 1 ==> closing_messages(
                outcome,
                reboot,
            )[i].0 != ProtocolEvent::Rebooting,
{
}

/// The messages that open a deployment: `received`, then `started`.
pub open spec fn opening_messages() -> Seq<(ProtocolEvent, Json)> {
    seq![
        (ProtocolEvent::StatusUpdate, Json::Object(seq![("status"@, jstr("received"@))])),
        (ProtocolEvent::StatusUpdate, Json::Object(seq![("status"@, jstr("started"@))])),
    ]
}

/// The messages that open a deployment.
pub fn opening_reports() -> (r: Vec<Outbound>)
    ensures
        outbound_seq(r@) == opening_messages(),
{
    let received = UpdateStatus::Received;
    let started = UpdateStatus::Started { downloader_network_interface: None };
    let mut r: Vec<Outbound> = Vec::new();
    r.push(Outbound { event: ProtocolEvent::StatusUpdate, payload: received.payload() });
    r.push(Outbound { event: ProtocolEvent::StatusUpdate, payload: started.payload() });
    assert(outbound_seq(r@) =~= opening_messages());
    r
}

/// The messages that close a deployment.
pub fn closing_reports(outcome: &Result<(), DeploymentError>, reboot: bool) -> (r: Vec<Outbound>)
    ensures
        outbound_seq(r@) == closing_messages(*outcome, reboot),
{
    let mut r: Vec<Outbound> = Vec::new();
    match outcome {
        Ok(()) => {
            r.push(
                Outbound {
                    event: ProtocolEvent::FwupProgress,
                    payload: progress_payload(ProgressStage::Updating, 100),
                },
            );
            r.push(
                Outbound {
                    event: ProtocolEvent::StatusUpdate,
                    payload: UpdateStatus::Completed.payload(),
                },
            );
            if reboot {
                r.push(Outbound { event: ProtocolEvent::Rebooting, payload: JsonValue::empty_object() });
            }
        },
        Err(e) => {
            let reason = e.status_reason();
            let status = UpdateStatus::Failed { reason };
            r.push(Outbound { event: ProtocolEvent::StatusUpdate, payload: status.payload() });
        },
    }
    assert(outbound_seq(r@) =~= closing_messages(*outcome, reboot));
    r
}

impl Outbound {
    /// The message that pushes this report on `channel`.
    pub fn into_message(self, channel: &Channel, refs: &mut RefCounter) -> (r: Message)
        requires
            old(refs)@ < u64::MAX,
        ensures
            r.model() == push_frame(
                channel.topic@,
                channel.join_ref@,
                crate::text::decimal(old(refs)@),
                crate::protocol::events::event_name(self.event),
                self.payload.model(),
            ),
            final(refs)@ == old(refs)@ + 1,
    {
        channel.push(self.event.as_str(), self.payload, refs)
    }
}

/// The description of the update-in-progress alarm.
pub const UPDATE_IN_PROGRESS_DESCRIPTION: &'static str = "firmware update is in progress";

/// Marks a deployment as running: the update-in-progress alarm is set.
pub fn begin_deployment(alarms: &mut AlarmStore)
    requires
        old(alarms).wf(),
    ensures
        final(alarms).wf(),
        final(alarms).view() == old(alarms).view().insert(
            UPDATE_IN_PROGRESS_ALARM@,
            UPDATE_IN_PROGRESS_DESCRIPTION@,
        ),
{
    alarms.set(UPDATE_IN_PROGRESS_ALARM, UPDATE_IN_PROGRESS_DESCRIPTION);
}

/// Abandons a running deployment whose reports could not be sent or whose
/// task failed: the update-in-progress alarm is cleared.
pub fn abandon_deployment(alarms: &mut AlarmStore)
    requires
        old(alarms).wf(),
    ensures
        final(alarms).wf(),
        final(alarms).view() == old(alarms).view().remove(UPDATE_IN_PROGRESS_ALARM@),
{
    alarms.clear(UPDATE_IN_PROGRESS_ALARM);
}

/// How a deployment ends: the messages that close it and the reboot that
/// follows, if any.
pub struct Closing {
    pub reports: Vec<Outbound>,
    pub reboot: Option<RebootReason>,
}

/// Ends a deployment: the update-in-progress alarm is cleared, the closing
/// messages are chosen, and after applied firmware the device reboots when
/// the reboot policy allows it.
pub fn finish_deployment(alarms: &mut AlarmStore, outcome: &Result<(), DeploymentError>, reboot: &RebootController) -> (r: Closing)
    requires
        old(alarms).wf(),
    ensures
        final(alarms).wf(),
        final(alarms).view() == old(alarms).view().remove(UPDATE_IN_PROGRESS_ALARM@),
        outbound_seq(r.reports@) == closing_messages(
            *outcome,
            reboot.has_rebooter && reboot_allowed(*reboot, RebootReason::FirmwareApplied),
        ),
        r.reboot == (if outcome is Ok && reboot.has_rebooter && reboot_allowed(*reboot, RebootReason::FirmwareApplied) {
            Some(RebootReason::FirmwareApplied)
        } else {
            None
        }),
{
    alarms.clear(UPDATE_IN_PROGRESS_ALARM);
    let enabled = reboot.is_enabled_for(RebootReason::FirmwareApplied);
    let reports = closing_reports(outcome, enabled);
    let reboot = if outcome.is_ok() && enabled {
        Some(RebootReason::FirmwareApplied)
    } else {
        None
    };
    Closing { reports, reboot }
}

} // verus!
