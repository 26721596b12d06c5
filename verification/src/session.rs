//! The decisions of a connection: where an incoming message goes, what a
//! device event triggers, what a join reply means, how disconnects are
//! recorded, and how the runner counts reconnect attempts.
use crate::alarms::{AlarmStore, DISCONNECTED_ALARM};
use crate::client::{terminal, ClientError, ClientEvent};
use crate::config::Config;
use crate::identify::IdentifyController;
use crate::protocol::events::{event_from_name, event_name, ProtocolEvent};
use crate::protocol::message::{
    opt_view, rejection_reason_of, reply_status_of, Message, CONSOLE_TOPIC, EXTENSIONS_TOPIC,
};
use crate::reboot::{reboot_allowed, RebootController, RebootReason};
use crate::text::{owned, str_eq};
use vstd::prelude::*;

verus! {

/// The handler that an incoming message goes to.
#[derive(Debug, Clone, Copy, PartialEq, Eq, Structural)]
pub enum Route {
    Extensions,
    Console,
    Device,
}

/// Messages on the extensions and console topics go to their handlers;
/// every other message is a device message.
pub open spec fn route_of(topic: Seq<char>) -> Route {
    if topic == EXTENSIONS_TOPIC@ {
        Route::Extensions
    } else if topic == CONSOLE_TOPIC@ {
        Route::Console
    } else {
        Route::Device
    }
}

/// The handler for a message on `topic`.
pub fn route(topic: &str) -> (r: Route)
    ensures
        r == route_of(topic@),
{
    if str_eq(topic, EXTENSIONS_TOPIC) {
        Route::Extensions
    } else if str_eq(topic, CONSOLE_TOPIC) {
        Route::Console
    } else {
        Route::Device
    }
}

/// What a device event sets off, in order.
#[derive(Debug, Clone, Copy, PartialEq, Eq, Structural)]
pub enum DeviceAction {
    /// Join the extensions channel, offering the available extensions.
    JoinExtensions,
    /// Parse the deployment and run it in the background.
    StartDeployment,
    /// Tell the caller that a reboot was requested.
    AnnounceRebootRequested,
    /// Send `rebooting`.
    SendRebooting,
    /// Run the rebooter.
    Reboot(RebootReason),
    /// Tell the caller that identification was requested.
    AnnounceIdentifyRequested,
    /// Run the identify action.
    Identify,
    /// Hand a `scripts/run` request to the script handler.
    RunScript,
    /// The server closed the channel: tell the caller, and end the
    /// connection with `ChannelClosed`.
    Close,
}

/// The actions for a device event.
pub open spec fn device_plan(event: Seq<char>, reboot: RebootController, identify: IdentifyController) -> Seq<DeviceAction> {
    match event_from_name(event) {
        Ok(ProtocolEvent::ExtensionsGet) => seq![DeviceAction::JoinExtensions],
        Ok(ProtocolEvent::Update) => seq![DeviceAction::StartDeployment],
        Ok(ProtocolEvent::Reboot) => if reboot.has_rebooter && reboot_allowed(reboot, RebootReason::ServerRequested) {
            seq![
                DeviceAction::AnnounceRebootRequested,
                DeviceAction::SendRebooting,
                DeviceAction::Reboot(RebootReason::ServerRequested),
            ]
        } else {
            seq![DeviceAction::AnnounceRebootRequested]
        },
        Ok(ProtocolEvent::Identify) => if identify.has_action {
            seq![DeviceAction::AnnounceIdentifyRequested, DeviceAction::Identify]
        } else {
            seq![DeviceAction::AnnounceIdentifyRequested]
        },
        Ok(ProtocolEvent::ScriptsRun) => seq![DeviceAction::RunScript],
        Ok(ProtocolEvent::PhxClose) => seq![DeviceAction::Close],
        _ => Seq::empty(),
    }
}

/// Decides what a message on the device channel sets off.
pub fn device_actions(msg: &Message, reboot: &RebootController, identify: &IdentifyController) -> (r: Vec<DeviceAction>)
    ensures
        r@ == device_plan(msg.event@, *reboot, *identify),
{
    let mut out: Vec<DeviceAction> = Vec::new();
    match msg.protocol_event() {
        Ok(ProtocolEvent::ExtensionsGet) => {
            out.push(DeviceAction::JoinExtensions);
        },
        Ok(ProtocolEvent::Update) => {
            out.push(DeviceAction::StartDeployment);
        },
        Ok(ProtocolEvent::Reboot) => {
            out.push(DeviceAction::AnnounceRebootRequested);
            if reboot.is_enabled_for(RebootReason::ServerRequested) {
                out.push(DeviceAction::SendRebooting);
                out.push(DeviceAction::Reboot(RebootReason::ServerRequested));
            }
        },
        Ok(ProtocolEvent::Identify) => {
            out.push(DeviceAction::AnnounceIdentifyRequested);
            if identify.is_enabled() {
                out.push(DeviceAction::Identify);
            }
        },
        Ok(ProtocolEvent::ScriptsRun) => {
            out.push(DeviceAction::RunScript);
        },
        Ok(ProtocolEvent::PhxClose) => {
            out.push(DeviceAction::Close);
        },
        _ => {},
    }
    assert(out@ =~= device_plan(msg.event@, *reboot, *identify));
    out
}

/// A device event never reboots without first sending `rebooting`: every
/// `Reboot` action comes right after a `SendRebooting`.
pub proof fn lemma_rebooting_sent_before_reboot(
    event: Seq<char>,
    reboot: RebootController,
    identify: IdentifyController,
    i: int,
)
    requires
        0 <= i < device_plan(event, reboot, identify).len(),
        device_plan(event, reboot, identify)[i] is Reboot,
    ensures
        i >= 1,
        device_plan(event, reboot, identify)[i - 1] == DeviceAction::SendRebooting,
{
}

/// An `identify` event only announces the request and runs the identify
/// action; unlike a reboot it sends nothing back to the server.
pub proof fn lemma_identify_sends_nothing(reboot: RebootController, identify: IdentifyController, i: int)
    requires
        0 <= i < device_plan(event_name(ProtocolEvent::Identify), reboot, identify).len(),
    ensures
        device_plan(event_name(ProtocolEvent::Identify), reboot, identify)[i]
            == DeviceAction::AnnounceIdentifyRequested || device_plan(
            event_name(ProtocolEvent::Identify),
            reboot,
            identify,
        )[i] == DeviceAction::Identify,
{
    crate::protocol::events::lemma_event_name_round_trip(ProtocolEvent::Identify);
}

/// Seconds to wait for the reply to the device channel join.
pub const JOIN_TIMEOUT_SECS: u64 = 30;

/// The reason given to the caller when the server closes the channel.
pub const CHANNEL_CLOSED_REASON: &'static str = "channel closed by server";

/// The reason recorded when the socket closes.
pub const CONNECTION_CLOSED_REASON: &'static str = "connection closed";

/// A join reply accepts the join when its status is `ok`; otherwise the join
/// is rejected with the reason that the reply gives.
pub fn join_reply_result(reply: &Message) -> (r: Result<(), ClientError>)
    ensures
        r is Ok <==> reply_status_of(reply.payload.model()) == Some("ok"@),
        r matches Err(e) ==> (e matches ClientError::JoinRejected(reason) && reason@ == rejection_reason_of(
            reply.payload.model(),
        )),
{
    if reply.reply_ok() {
        Ok(())
    } else {
        Err(ClientError::JoinRejected(reply.rejection_reason()))
    }
}

/// Records a lost or failed connection: the disconnected alarm carries the
/// reason, and the caller is told.
pub fn record_disconnect(alarms: &mut AlarmStore, reason: &str) -> (r: ClientEvent)
    requires
        old(alarms).wf(),
    ensures
        final(alarms).wf(),
        final(alarms).view() == old(alarms).view().insert(DISCONNECTED_ALARM@, reason@),
        r matches ClientEvent::Disconnected(m) && m@ == reason@,
{
    alarms.set(DISCONNECTED_ALARM, reason);
    ClientEvent::Disconnected(owned(reason))
}

/// Records a failed connection attempt or join: only the alarm is set.
pub fn record_connect_failure(alarms: &mut AlarmStore, error: &ClientError)
    requires
        old(alarms).wf(),
    ensures
        final(alarms).wf(),
        final(alarms).view() == old(alarms).view().insert(
            DISCONNECTED_ALARM@,
            crate::client::client_error_text(*error),
        ),
{
    let reason = error.message();
    alarms.set(DISCONNECTED_ALARM, reason.as_str());
}

/// Ends a connection after the socket closed or a background task failed.
/// A task error takes precedence: the disconnected alarm and the caller get
/// its text, and the connection ends with it. Otherwise the socket simply
/// closed: the reason is `connection closed` and the connection ends well.
pub fn end_connection(alarms: &mut AlarmStore, task_error: Option<ClientError>) -> (r: (
    ClientEvent,
    Result<(), ClientError>,
))
    requires
        old(alarms).wf(),
    ensures
        final(alarms).wf(),
        match task_error {
            Some(e) => {
                &&& final(alarms).view() == old(alarms).view().insert(
                    DISCONNECTED_ALARM@,
                    crate::client::client_error_text(e),
                )
                &&& r.0 matches ClientEvent::Disconnected(m) && m@ == crate::client::client_error_text(e)
                &&& r.1 == Err::<(), ClientError>(e)
            },
            None => {
                &&& final(alarms).view() == old(alarms).view().insert(
                    DISCONNECTED_ALARM@,
                    CONNECTION_CLOSED_REASON@,
                )
                &&& r.0 matches ClientEvent::Disconnected(m) && m@ == CONNECTION_CLOSED_REASON@
                &&& r.1 is Ok
            },
        },
{
    match task_error {
        Some(e) => {
            let reason = e.message();
            let event = record_disconnect(alarms, reason.as_str());
            (event, Err(e))
        },
        None => {
            let event = record_disconnect(alarms, CONNECTION_CLOSED_REASON);
            (event, Ok(()))
        },
    }
}

/// The error with which a deployment ends when its task could not be
/// joined: a connection error naming what went wrong.
pub fn deployment_task_error(detail: &str) -> (r: ClientError)
    ensures
        r matches ClientError::Connection(m) && m@ == "deployment task failed: "@ + detail@,
{
    ClientError::Connection(crate::text::concat("deployment task failed: ", detail))
}

/// Records a joined device channel: the disconnected alarm is cleared.
pub fn record_joined(alarms: &mut AlarmStore)
    requires
        old(alarms).wf(),
    ensures
        final(alarms).wf(),
        final(alarms).view() == old(alarms).view().remove(DISCONNECTED_ALARM@),
{
    alarms.clear(DISCONNECTED_ALARM);
}

/// Seconds between heartbeats: the configured interval, at least one.
pub fn heartbeat_period_secs(config: &Config) -> (r: u64)
    ensures
        r == (match config.heartbeat_interval_secs {
            Some(n) => if n < 1 { 1 } else { n },
            None => 30,
        }),
{
    let n = config.heartbeat_interval_secs();
    if n < 1 {
        1
    } else {
        n
    }
}

/// Seconds of console inactivity before the session is stopped: the
/// console section's timeout, five minutes without one.
pub fn console_timeout_secs(config: &Config) -> (r: u64)
    ensures
        r == (match config.console {
            Some(c) => match c.timeout_secs {
                Some(t) => t,
                None => 300,
            },
            None => 300,
        }),
{
    match &config.console {
        Some(c) => c.timeout_secs(),
        None => 300,
    }
}

/// The highest reconnect attempt counted; the backoff does not grow further.
pub const MAX_BACKOFF_ATTEMPT: u32 = 6;

/// What the runner does after a connection ended.
#[derive(Debug)]
pub enum RunnerStep {
    /// Stop with this error.
    Stop(ClientError),
    /// Wait with the backoff of `delay_attempt`, then reconnect; the attempt
    /// after that is `next_attempt`.
    Retry { delay_attempt: u32, next_attempt: u32 },
}

/// The attempt after `attempt`: one more, at most the maximum.
pub open spec fn following_attempt(attempt: u32) -> u32 {
    if attempt >= MAX_BACKOFF_ATTEMPT {
        MAX_BACKOFF_ATTEMPT
    } else {
        (attempt + 1) as u32
    }
}

/// After a connection ends: a terminal error stops the runner; otherwise it
/// reconnects after a backoff, counted from zero again after a clean end.
pub fn after_connection(attempt: u32, outcome: Result<(), ClientError>) -> (r: RunnerStep)
    ensures
        match outcome {
            Ok(()) => r == (RunnerStep::Retry { delay_attempt: 0, next_attempt: 1 }),
            Err(e) => if terminal(e) {
                r == RunnerStep::Stop(e)
            } else {
                r == (RunnerStep::Retry { delay_attempt: attempt, next_attempt: following_attempt(attempt) })
            },
        },
{
    match outcome {
        Ok(()) => RunnerStep::Retry { delay_attempt: 0, next_attempt: 1 },
        Err(e) => {
            if e.is_terminal() {
                RunnerStep::Stop(e)
            } else {
                let next = if attempt >= MAX_BACKOFF_ATTEMPT {
                    MAX_BACKOFF_ATTEMPT
                } else {
                    attempt + 1
                };
                RunnerStep::Retry { delay_attempt: attempt, next_attempt: next }
            }
        },
    }
}

/// The reconnect attempt never exceeds the maximum, whatever the outcomes.
pub proof fn lemma_attempt_bounded(attempt: u32)
    ensures
        following_attempt(attempt) <= MAX_BACKOFF_ATTEMPT,
        attempt < MAX_BACKOFF_ATTEMPT ==> following_attempt(attempt) == attempt + 1,
{
}

} // verus!
