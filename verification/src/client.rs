//! The client: its errors and events, the device metadata that it announces,
//! and the decisions of a connection and of the reconnecting runner.
use crate::alarms::{AlarmStore, DISCONNECTED_ALARM, FIRMWARE_REVERTED_ALARM};
use crate::config::{config_error_text, Config, ConfigError};
use crate::console::{console_error_text, ConsoleError};
use crate::deployment::types::Deployment;
use crate::deployment::{deployment_error_text, DeploymentError};
use crate::device::{
    device_info_error_text, join_entries, missing_field, same_info, DeviceInfo, DeviceInfoError,
};
use crate::identify::{identify_error_text, IdentifyController, IdentifyError};
use crate::json::{Json, JsonValue};
use crate::protocol::events::{event_from_name, ProtocolEvent};
use crate::protocol::message::{
    opt_view, rejection_reason_of, reply_status_of, Message, CONSOLE_TOPIC, EXTENSIONS_TOPIC,
};
use crate::reboot::{reboot_allowed, reboot_error_text, RebootController, RebootError, RebootReason};
use crate::scripts::ScriptController;
use crate::text::{concat, owned, str_eq};
use vstd::prelude::*;

verus! {

/// Why the websocket transport failed.
#[derive(Debug)]
pub enum TransportError {
    Connection(String),
    Auth(String),
    Closed,
    Write(String),
}

/// The `Display` text of a transport error.
pub open spec fn transport_error_text(e: TransportError) -> Seq<char> {
    match e {
        TransportError::Connection(m) => "connection failed: "@ + m@,
        TransportError::Auth(m) => "auth error: "@ + m@,
        TransportError::Closed => "transport channel closed"@,
        TransportError::Write(m) => "websocket write failed: "@ + m@,
    }
}

impl TransportError {
    /// The error's message (its `Display` text).
    pub fn message(&self) -> (r: String)
        ensures
            r@ == transport_error_text(*self),
    {
        match self {
            TransportError::Connection(m) => concat("connection failed: ", m.as_str()),
            TransportError::Auth(m) => concat("auth error: ", m.as_str()),
            TransportError::Closed => owned("transport channel closed"),
            TransportError::Write(m) => concat("websocket write failed: ", m.as_str()),
        }
    }
}

/// Why the client stopped.
#[derive(Debug)]
pub enum ClientError {
    Connection(String),
    WebSocket(String),
    JoinRejected(String),
    Config(ConfigError),
    DeviceInfo(DeviceInfoError),
    DeviceInfoProvider(String),
    Transport(TransportError),
    Deployment(DeploymentError),
    Console(ConsoleError),
    Reboot(RebootError),
    Identify(IdentifyError),
    ChannelClosed,
}

/// Whether an error ends the runner instead of a reconnect: a configuration
/// or device metadata problem.
pub open spec fn terminal(e: ClientError) -> bool {
    e is Config || e is DeviceInfo || e is DeviceInfoProvider
}

/// The `Display` text of a client error.
pub open spec fn client_error_text(e: ClientError) -> Seq<char> {
    match e {
        ClientError::Connection(m) => "connection failed: "@ + m@,
        ClientError::WebSocket(m) => "websocket error: "@ + m@,
        ClientError::JoinRejected(m) => "join rejected: "@ + m@,
        ClientError::Config(c) => "config error: "@ + config_error_text(c),
        ClientError::DeviceInfo(d) => "device info error: "@ + device_info_error_text(d),
        ClientError::DeviceInfoProvider(m) => "device info provider error: "@ + m@,
        ClientError::Transport(t) => "transport error: "@ + transport_error_text(t),
        ClientError::Deployment(d) => "deployment error: "@ + deployment_error_text(d),
        ClientError::Console(c) => "console error: "@ + console_error_text(c),
        ClientError::Reboot(r) => "reboot error: "@ + reboot_error_text(r),
        ClientError::Identify(i) => "identify error: "@ + identify_error_text(i),
        ClientError::ChannelClosed => "channel closed"@,
    }
}

impl ClientError {
    /// Whether the error ends the runner instead of a reconnect.
    pub fn is_terminal(&self) -> (r: bool)
        ensures
            r == terminal(*self),
    {
        match self {
            ClientError::Config(_) | ClientError::DeviceInfo(_) | ClientError::DeviceInfoProvider(_) => true,
            _ => false,
        }
    }

    /// The error's message (its `Display` text).
    pub fn message(&self) -> (r: String)
        ensures
            r@ == client_error_text(*self),
    {
        match self {
            ClientError::Connection(m) => concat("connection failed: ", m.as_str()),
            ClientError::WebSocket(m) => concat("websocket error: ", m.as_str()),
            ClientError::JoinRejected(m) => concat("join rejected: ", m.as_str()),
            ClientError::Config(c) => concat("config error: ", c.message().as_str()),
            ClientError::DeviceInfo(d) => concat("device info error: ", d.message().as_str()),
            ClientError::DeviceInfoProvider(m) => concat("device info provider error: ", m.as_str()),
            ClientError::Transport(t) => concat("transport error: ", t.message().as_str()),
            ClientError::Deployment(d) => concat("deployment error: ", d.message().as_str()),
            ClientError::Console(c) => concat("console error: ", c.message().as_str()),
            ClientError::Reboot(r) => concat("reboot error: ", r.message().as_str()),
            ClientError::Identify(i) => concat("identify error: ", i.message().as_str()),
            ClientError::ChannelClosed => owned("channel closed"),
        }
    }
}

/// Events that the client emits to its caller.
#[derive(Debug)]
pub enum ClientEvent {
    Connected,
    Joined,
    ExtensionsJoined,
    ConsoleJoined,
    ConsoleStarted,
    ConsoleStopped,
    HealthReported,
    DeploymentAvailable(Box<Deployment>),
    /// The path of the downloaded firmware file.
    FirmwareDownloaded(String),
    FirmwareApplied,
    RebootRequested,
    IdentifyRequested,
    ScriptRequested(String),
    ScriptCompleted(String),
    ScriptFailed { script_ref: String, reason: String },
    Disconnected(String),
}

/// The console protocol version announced when a console is enabled and no
/// version was given.
pub const DEFAULT_CONSOLE_VERSION: &'static str = "2.0.0";

/// The console version announced for `info`.
pub open spec fn announced_console_version(info: DeviceInfo, console_enabled: bool) -> Option<Seq<char>> {
    if console_enabled && info.console_version is None {
        Some(DEFAULT_CONSOLE_VERSION@)
    } else {
        opt_view(info.console_version)
    }
}

/// Announces the default console version when a console is enabled and the
/// device info names none.
pub fn with_console_version(info: DeviceInfo, console_enabled: bool) -> (r: DeviceInfo)
    ensures
        opt_view(r.console_version) == announced_console_version(info, console_enabled),
        same_info(r, DeviceInfo { console_version: r.console_version, ..info }),
{
    let mut info = info;
    if console_enabled && info.console_version.is_none() {
        info.console_version = Some(owned(DEFAULT_CONSOLE_VERSION));
    }
    info
}

/// The firmware-reverted alarm follows the runtime state: set with a fixed
/// description when an auto-revert was detected, cleared otherwise.
pub open spec fn alarms_after_sync(before: Map<Seq<char>, Seq<char>>, info: DeviceInfo) -> Map<Seq<char>, Seq<char>> {
    if info.runtime_state.firmware_auto_revert_detected == Some(true) {
        before.insert(FIRMWARE_REVERTED_ALARM@, "firmware auto revert was detected"@)
    } else {
        before.remove(FIRMWARE_REVERTED_ALARM@)
    }
}

/// Brings the firmware-reverted alarm in line with the runtime state.
pub fn sync_runtime_alarms(alarms: &mut AlarmStore, info: &DeviceInfo)
    requires
        old(alarms).wf(),
    ensures
        final(alarms).wf(),
        final(alarms).view() == alarms_after_sync(old(alarms).view(), *info),
{
    match info.runtime_state.firmware_auto_revert_detected {
        Some(true) => alarms.set(FIRMWARE_REVERTED_ALARM, "firmware auto revert was detected"),
        _ => alarms.clear(FIRMWARE_REVERTED_ALARM),
    }
}

/// The device info that a provider call yields: the provider's own error
/// becomes `DeviceInfoProvider`, and the info must pass validation.
pub open spec fn provided_ok(provided: Result<DeviceInfo, String>) -> bool {
    provided matches Ok(info) && missing_field(info) is None
}

/// Checks what a device-info provider returned.
pub fn load_provided(provided: Result<DeviceInfo, String>) -> (r: Result<DeviceInfo, ClientError>)
    ensures
        r is Ok <==> provided_ok(provided),
        r matches Ok(i) ==> provided matches Ok(p) && i == p,
        provided matches Err(m) ==> r matches Err(ClientError::DeviceInfoProvider(n)) && n@ == m@,
        provided matches Ok(p) ==> (missing_field(p) matches Some(f) ==> r matches Err(
            ClientError::DeviceInfo(DeviceInfoError::Missing(g)),
        ) && g@ == f),
{
    match provided {
        Err(message) => Err(ClientError::DeviceInfoProvider(message)),
        Ok(info) => match info.validate() {
            Ok(()) => Ok(info),
            Err(e) => Err(ClientError::DeviceInfo(e)),
        },
    }
}

/// The device-facing state of the client: its configuration, the device
/// info that it announces, the controllers of the optional features and the
/// alarm store.
pub struct LinkClient {
    config: Config,
    device_info: DeviceInfo,
    console_enabled: bool,
    has_provider: bool,
    reboot: RebootController,
    identify: IdentifyController,
    scripts: ScriptController,
    alarms: AlarmStore,
}

impl LinkClient {
    /// The device info that the client announces.
    pub closed spec fn info(&self) -> DeviceInfo {
        self.device_info
    }

    /// Whether a console backend is installed.
    pub closed spec fn console_on(&self) -> bool {
        self.console_enabled
    }

    /// Whether device info comes from a provider, asked again on each use.
    pub closed spec fn uses_provider(&self) -> bool {
        self.has_provider
    }

    /// The active alarms.
    pub closed spec fn alarm_map(&self) -> Map<Seq<char>, Seq<char>> {
        self.alarms.view()
    }

    /// The reboot policy.
    pub closed spec fn reboot_policy(&self) -> RebootController {
        self.reboot
    }

    /// The identify policy.
    pub closed spec fn identify_policy(&self) -> IdentifyController {
        self.identify
    }

    /// Whether a script runner is installed.
    pub closed spec fn scripts_on(&self) -> bool {
        self.scripts.has_runner
    }

    /// The configuration.
    pub closed spec fn configuration(&self) -> Config {
        self.config
    }

    /// The client's internal consistency: the alarm store is well formed and
    /// the announced info is valid.
    pub closed spec fn wf(&self) -> bool {
        &&& self.alarms.wf()
        &&& missing_field(self.device_info) is None
    }

    /// A client for the device described by the configuration.
    pub fn new(config: Config) -> (r: Result<LinkClient, ClientError>)
        ensures
            crate::config::present_command(config.serial_number) is None ==> (r matches Err(
                ClientError::Config(ConfigError::Missing(f)),
            ) && f@ == "serial_number"@),
            crate::config::present_command(config.serial_number) is Some && config.firmware is None
                ==> (r matches Err(ClientError::Config(ConfigError::Missing(f))) && f@ == "firmware"@),
            r is Ok <==> (crate::config::present_command(config.serial_number) is Some
                && (config.firmware matches Some(fw) && firmware_complete(fw))),
            r matches Ok(c) ==> c.wf() && c.configuration() == config && crate::config::present_command(
                config.serial_number,
            ) == Some(c.info().serial_number@) && !c.uses_provider(),
    {
        match config.device_info() {
            Ok(info) => {
                proof {
                    let raw = config.serial_number->Some_0@;
                    crate::text::lemma_trim_idempotent(raw);
                }
                LinkClient::with_device_info(config, info)
            },
            Err(e) => Err(ClientError::Config(e)),
        }
    }

    /// A client announcing `info`.
    pub fn with_device_info(config: Config, info: DeviceInfo) -> (r: Result<LinkClient, ClientError>)
        ensures
            r is Ok <==> missing_field(info) is None,
            r matches Err(e) ==> (e matches ClientError::DeviceInfo(DeviceInfoError::Missing(f))
                && missing_field(info) == Some(f@)),
            r matches Ok(c) ==> {
                &&& c.wf()
                &&& c.configuration() == config
                &&& c.console_on() == (config.console matches Some(k) && k.enabled == Some(true))
                &&& !c.uses_provider()
                &&& opt_view(c.info().console_version) == announced_console_version(info, c.console_on())
                &&& same_info(c.info(), DeviceInfo { console_version: c.info().console_version, ..info })
                &&& c.alarm_map() == alarms_after_sync(Map::empty(), info)
                &&& c.scripts_on() == (config.scripts matches Some(s) && s.enabled == Some(true)
                    && crate::config::present_command(s.command) is Some)
            },
    {
        let (reboot, _) = RebootController::from_config(config.reboot.as_ref());
        let (identify, _) = IdentifyController::from_config(config.identify.as_ref());
        let (scripts, _) = ScriptController::from_config(config.scripts.as_ref());
        let console_enabled = config.console_enabled();
        let info = with_console_version(info, console_enabled);
        match info.validate() {
            Err(e) => {
                return Err(ClientError::DeviceInfo(e));
            },
            Ok(()) => {},
        }
        let mut alarms = AlarmStore::new();
        sync_runtime_alarms(&mut alarms, &info);
        Ok(LinkClient {
            config,
            device_info: info,
            console_enabled,
            has_provider: false,
            reboot,
            identify,
            scripts,
            alarms,
        })
    }

    /// A client whose device info comes from a provider; `provided` is what
    /// the provider returned.
    pub fn from_provider(config: Config, provided: Result<DeviceInfo, String>) -> (r: Result<LinkClient, ClientError>)
        ensures
            r is Ok <==> provided_ok(provided),
            provided matches Err(m) ==> r matches Err(ClientError::DeviceInfoProvider(n)) && n@ == m@,
            r matches Ok(c) ==> (provided matches Ok(p) && c.wf() && c.uses_provider()
                && c.configuration() == config && adopted(c.info(), p, c.console_on())
                && c.alarm_map() == alarms_after_sync(Map::empty(), p)),
    {
        let info = match load_provided(provided) {
            Ok(info) => info,
            Err(e) => {
                return Err(e);
            },
        };
        match LinkClient::with_device_info(config, info) {
            Ok(mut client) => {
                client.has_provider = true;
                Ok(client)
            },
            Err(e) => Err(e),
        }
    }

    /// Announces `info` from now on, in place of any provider.
    pub fn set_device_info(&mut self, info: DeviceInfo) -> (r: Result<(), ClientError>)
        requires
            old(self).wf(),
        ensures
            final(self).wf(),
            r is Ok <==> missing_field(info) is None,
            r matches Err(e) ==> (e matches ClientError::DeviceInfo(DeviceInfoError::Missing(f))
                && missing_field(info) == Some(f@)) && *final(self) == *old(self),
            r is Ok ==> {
                &&& adopted(final(self).info(), info, old(self).console_on())
                &&& !final(self).uses_provider()
                &&& final(self).alarm_map() == alarms_after_sync(old(self).alarm_map(), info)
            },
            unchanged_settings(*old(self), *final(self)),
    {
        let info = with_console_version(info, self.console_enabled);
        match info.validate() {
            Err(e) => {
                return Err(ClientError::DeviceInfo(e));
            },
            Ok(()) => {},
        }
        sync_runtime_alarms(&mut self.alarms, &info);
        self.device_info = info;
        self.has_provider = false;
        Ok(())
    }

    /// Takes device info from a provider from now on; `provided` is what the
    /// provider returned now.
    pub fn set_device_info_provider(&mut self, provided: Result<DeviceInfo, String>) -> (r: Result<(), ClientError>)
        requires
            old(self).wf(),
        ensures
            final(self).wf(),
            r is Ok <==> provided_ok(provided),
            provided matches Err(m) ==> r matches Err(ClientError::DeviceInfoProvider(n)) && n@ == m@,
            r is Err ==> *final(self) == *old(self),
            r is Ok ==> (provided matches Ok(p) && adopted(final(self).info(), p, old(self).console_on())
                && final(self).uses_provider() && final(self).alarm_map() == alarms_after_sync(
                old(self).alarm_map(),
                p,
            )),
            unchanged_settings(*old(self), *final(self)),
    {
        let info = match load_provided(provided) {
            Ok(info) => info,
            Err(e) => {
                return Err(e);
            },
        };
        let info = with_console_version(info, self.console_enabled);
        sync_runtime_alarms(&mut self.alarms, &info);
        self.device_info = info;
        self.has_provider = true;
        Ok(())
    }

    /// The device info to announce now: what the provider returned, when one
    /// is in use and `provided` holds its answer, else the stored info. The
    /// firmware-reverted alarm follows it.
    pub fn current_device_info(&mut self, provided: Option<Result<DeviceInfo, String>>) -> (r: Result<DeviceInfo, ClientError>)
        requires
            old(self).wf(),
        ensures
            final(self).wf(),
            final(self).info() == old(self).info(),
            unchanged_settings(*old(self), *final(self)),
            final(self).uses_provider() == old(self).uses_provider(),
            match provided {
                None => r matches Ok(i) && adopted(i, old(self).info(), old(self).console_on())
                    && final(self).alarm_map() == alarms_after_sync(old(self).alarm_map(), old(self).info()),
                Some(p) => (r is Ok <==> provided_ok(p)) && (p matches Err(m) ==> r matches Err(
                    ClientError::DeviceInfoProvider(n),
                ) && n@ == m@) && (r matches Ok(i) ==> (p matches Ok(pi) && adopted(
                    i,
                    pi,
                    old(self).console_on(),
                ) && final(self).alarm_map() == alarms_after_sync(old(self).alarm_map(), pi))) && (r is Err
                    ==> final(self).alarm_map() == old(self).alarm_map()),
            },
    {
        let info = match provided {
            Some(p) => match load_provided(p) {
                Ok(info) => info,
                Err(e) => {
                    return Err(e);
                },
            },
            None => self.device_info.copy(),
        };
        let info = with_console_version(info, self.console_enabled);
        sync_runtime_alarms(&mut self.alarms, &info);
        Ok(info)
    }

    /// The join payload of the device info to announce now (see
    /// `current_device_info`).
    pub fn current_join_payload(&mut self, provided: Option<Result<DeviceInfo, String>>) -> (r: Result<JsonValue, ClientError>)
        requires
            old(self).wf(),
        ensures
            final(self).wf(),
            final(self).info() == old(self).info(),
            unchanged_settings(*old(self), *final(self)),
            final(self).uses_provider() == old(self).uses_provider(),
            match provided {
                None => r matches Ok(j) && (exists|i: DeviceInfo| #[trigger] adopted(i, old(self).info(), old(self).console_on())
                    && j.model() == Json::Object(join_entries(i))),
                Some(p) => (r is Ok <==> provided_ok(p)) && (p matches Err(m) ==> r matches Err(
                    ClientError::DeviceInfoProvider(n),
                ) && n@ == m@) && (r matches Ok(j) ==> (p matches Ok(pi) && exists|i: DeviceInfo| #[trigger] adopted(i, pi, old(self).console_on())
                    && j.model() == Json::Object(join_entries(i)))),
            },
    {
        match self.current_device_info(provided) {
            Ok(info) => Ok(info.join_payload()),
            Err(e) => Err(e),
        }
    }

    /// The same client with device info from a provider (see
    /// `set_device_info_provider`).
    pub fn with_device_info_provider(self, provided: Result<DeviceInfo, String>) -> (r: Result<LinkClient, ClientError>)
        requires
            self.wf(),
        ensures
            r is Ok <==> provided_ok(provided),
            r matches Ok(c) ==> (provided matches Ok(p) && c.wf() && c.uses_provider() && adopted(c.info(), p, self.console_on())
                && c.alarm_map() == alarms_after_sync(self.alarm_map(), p) && unchanged_settings(self, c)),
    {
        let mut c = self;
        match c.set_device_info_provider(provided) {
            Ok(()) => Ok(c),
            Err(e) => Err(e),
        }
    }

    /// The same client with a rebooter set by the caller.
    pub fn with_rebooter(self) -> (r: LinkClient)
        ensures
            r.reboot_policy() == RebootController::with_rebooter_value(),
            r.info() == self.info(),
            r.alarm_map() == self.alarm_map(),
            r.wf() == self.wf(),
    {
        let mut c = self;
        c.set_rebooter();
        c
    }

    /// The same client with an identify action set by the caller.
    pub fn with_identify_action(self) -> (r: LinkClient)
        ensures
            r.identify_policy().has_action,
            r.info() == self.info(),
            r.alarm_map() == self.alarm_map(),
            r.wf() == self.wf(),
    {
        let mut c = self;
        c.set_identify_action();
        c
    }

    /// The same client with a script runner set by the caller.
    pub fn with_script_runner(self) -> (r: LinkClient)
        ensures
            r.scripts_on(),
            r.info() == self.info(),
            r.alarm_map() == self.alarm_map(),
            r.wf() == self.wf(),
    {
        let mut c = self;
        c.set_script_runner();
        c
    }

    /// Asks the provider again and keeps its answer; without a provider in
    /// use, or without an answer, nothing changes.
    pub fn refresh_device_info(&mut self, provided: Option<Result<DeviceInfo, String>>) -> (r: Result<(), ClientError>)
        requires
            old(self).wf(),
        ensures
            final(self).wf(),
            unchanged_settings(*old(self), *final(self)),
            final(self).uses_provider() == old(self).uses_provider(),
            match provided {
                Some(p) if old(self).uses_provider() => (r is Ok <==> provided_ok(p)) && (r is Err
                    ==> *final(self) == *old(self)) && (r is Ok ==> (p matches Ok(pi) && adopted(
                    final(self).info(),
                    pi,
                    old(self).console_on(),
                ) && final(self).alarm_map() == alarms_after_sync(old(self).alarm_map(), pi))),
                _ => r is Ok && *final(self) == *old(self),
            },
    {
        if !self.has_provider {
            return Ok(());
        }
        match provided {
            None => Ok(()),
            Some(p) => {
                let info = match load_provided(p) {
                    Ok(info) => info,
                    Err(e) => {
                        return Err(e);
                    },
                };
                let info = with_console_version(info, self.console_enabled);
                sync_runtime_alarms(&mut self.alarms, &info);
                self.device_info = info;
                Ok(())
            },
        }
    }

    /// Stops asking the provider; the last info stays.
    pub fn disable_device_info_provider(&mut self)
        ensures
            !final(self).uses_provider(),
            final(self).info() == old(self).info(),
            final(self).alarm_map() == old(self).alarm_map(),
            final(self).wf() == old(self).wf(),
            unchanged_settings(*old(self), *final(self)),
    {
        self.has_provider = false;
    }

    /// Whether device info comes from a provider.
    pub fn uses_device_info_provider(&self) -> (r: bool)
        ensures
            r == self.uses_provider(),
    {
        self.has_provider
    }

    /// The serial number of the device.
    pub fn serial(&self) -> (r: &str)
        ensures
            r@ == self.info().serial_number@,
    {
        self.device_info.serial_number.as_str()
    }

    /// The device channel join payload of the stored info.
    pub fn join_payload(&self) -> (r: JsonValue)
        ensures
            r.model() == Json::Object(join_entries(self.info())),
    {
        self.device_info.join_payload()
    }

    /// The alarm store.
    pub fn alarm_store(&self) -> (r: &AlarmStore)
        ensures
            r.view() == self.alarm_map(),
            self.wf() ==> r.wf(),
    {
        &self.alarms
    }

    /// Records or replaces an alarm.
    pub fn set_alarm(&mut self, id: &str, description: &str)
        requires
            old(self).wf(),
        ensures
            final(self).wf(),
            final(self).alarm_map() == old(self).alarm_map().insert(id@, description@),
            final(self).info() == old(self).info(),
            final(self).uses_provider() == old(self).uses_provider(),
            unchanged_settings(*old(self), *final(self)),
    {
        self.alarms.set(id, description);
    }

    /// Removes an alarm.
    pub fn clear_alarm(&mut self, id: &str)
        requires
            old(self).wf(),
        ensures
            final(self).wf(),
            final(self).alarm_map() == old(self).alarm_map().remove(id@),
            final(self).info() == old(self).info(),
            final(self).uses_provider() == old(self).uses_provider(),
            unchanged_settings(*old(self), *final(self)),
    {
        self.alarms.clear(id);
    }

    /// Records a lost connection (see `session::record_disconnect`).
    pub fn record_disconnect(&mut self, reason: &str) -> (r: ClientEvent)
        requires
            old(self).wf(),
        ensures
            final(self).wf(),
            final(self).alarm_map() == old(self).alarm_map().insert(DISCONNECTED_ALARM@, reason@),
            r matches ClientEvent::Disconnected(m) && m@ == reason@,
            final(self).info() == old(self).info(),
            final(self).uses_provider() == old(self).uses_provider(),
            unchanged_settings(*old(self), *final(self)),
    {
        crate::session::record_disconnect(&mut self.alarms, reason)
    }

    /// Records a failed connection attempt or join.
    pub fn record_connect_failure(&mut self, error: &ClientError)
        requires
            old(self).wf(),
        ensures
            final(self).wf(),
            final(self).alarm_map() == old(self).alarm_map().insert(DISCONNECTED_ALARM@, client_error_text(*error)),
            final(self).info() == old(self).info(),
            final(self).uses_provider() == old(self).uses_provider(),
            unchanged_settings(*old(self), *final(self)),
    {
        crate::session::record_connect_failure(&mut self.alarms, error)
    }

    /// Records a joined device channel.
    pub fn record_joined(&mut self)
        requires
            old(self).wf(),
        ensures
            final(self).wf(),
            final(self).alarm_map() == old(self).alarm_map().remove(DISCONNECTED_ALARM@),
            final(self).info() == old(self).info(),
            final(self).uses_provider() == old(self).uses_provider(),
            unchanged_settings(*old(self), *final(self)),
    {
        crate::session::record_joined(&mut self.alarms)
    }

    /// Ends a connection after the socket closed or a background task failed
    /// (see `session::end_connection`).
    pub fn end_connection(&mut self, task_error: Option<ClientError>) -> (r: (ClientEvent, Result<(), ClientError>))
        requires
            old(self).wf(),
        ensures
            final(self).wf(),
            match task_error {
                Some(e) => {
                    &&& final(self).alarm_map() == old(self).alarm_map().insert(
                        DISCONNECTED_ALARM@,
                        client_error_text(e),
                    )
                    &&& r.0 matches ClientEvent::Disconnected(m) && m@ == client_error_text(e)
                    &&& r.1 == Err::<(), ClientError>(e)
                },
                None => {
                    &&& final(self).alarm_map() == old(self).alarm_map().insert(
                        DISCONNECTED_ALARM@,
                        crate::session::CONNECTION_CLOSED_REASON@,
                    )
                    &&& r.0 matches ClientEvent::Disconnected(m) && m@
                        == crate::session::CONNECTION_CLOSED_REASON@
                    &&& r.1 is Ok
                },
            },
            final(self).info() == old(self).info(),
            final(self).uses_provider() == old(self).uses_provider(),
            unchanged_settings(*old(self), *final(self)),
    {
        crate::session::end_connection(&mut self.alarms, task_error)
    }

    /// Abandons a running deployment whose reports could not be sent or whose
    /// task failed (see `report::abandon_deployment`).
    pub fn abandon_deployment(&mut self)
        requires
            old(self).wf(),
        ensures
            final(self).wf(),
            final(self).alarm_map() == old(self).alarm_map().remove(crate::alarms::UPDATE_IN_PROGRESS_ALARM@),
            final(self).info() == old(self).info(),
            final(self).uses_provider() == old(self).uses_provider(),
            unchanged_settings(*old(self), *final(self)),
    {
        crate::deployment::report::abandon_deployment(&mut self.alarms)
    }

    /// Marks a deployment as running (see `report::begin_deployment`).
    pub fn begin_deployment(&mut self)
        requires
            old(self).wf(),
        ensures
            final(self).wf(),
            final(self).alarm_map() == old(self).alarm_map().insert(
                crate::alarms::UPDATE_IN_PROGRESS_ALARM@,
                crate::deployment::report::UPDATE_IN_PROGRESS_DESCRIPTION@,
            ),
            final(self).info() == old(self).info(),
            final(self).uses_provider() == old(self).uses_provider(),
            unchanged_settings(*old(self), *final(self)),
    {
        crate::deployment::report::begin_deployment(&mut self.alarms)
    }

    /// Ends a deployment under the client's reboot policy (see
    /// `report::finish_deployment`).
    pub fn finish_deployment(&mut self, outcome: &Result<(), DeploymentError>) -> (r: crate::deployment::report::Closing)
        requires
            old(self).wf(),
        ensures
            final(self).wf(),
            final(self).alarm_map() == old(self).alarm_map().remove(crate::alarms::UPDATE_IN_PROGRESS_ALARM@),
            crate::deployment::report::outbound_seq(r.reports@) == crate::deployment::report::closing_messages(
                *outcome,
                old(self).reboot_policy().has_rebooter && reboot_allowed(old(self).reboot_policy(), RebootReason::FirmwareApplied),
            ),
            r.reboot == (if outcome is Ok && old(self).reboot_policy().has_rebooter && reboot_allowed(
                old(self).reboot_policy(),
                RebootReason::FirmwareApplied,
            ) {
                Some(RebootReason::FirmwareApplied)
            } else {
                None
            }),
            final(self).info() == old(self).info(),
            final(self).uses_provider() == old(self).uses_provider(),
            unchanged_settings(*old(self), *final(self)),
    {
        let reboot = self.reboot;
        crate::deployment::report::finish_deployment(&mut self.alarms, outcome, &reboot)
    }

    /// The configuration.
    pub fn config(&self) -> (r: &Config)
        ensures
            *r == self.configuration(),
    {
        &self.config
    }

    /// Whether a console backend is installed.
    pub fn console_enabled(&self) -> (r: bool)
        ensures
            r == self.console_on(),
    {
        self.console_enabled
    }

    /// Whether a connection joins the console channel: a console is enabled
    /// and a backend to run it is at hand.
    pub fn joins_console(&self, has_backend: bool) -> (r: bool)
        ensures
            r == (self.console_on() && has_backend),
    {
        self.console_enabled && has_backend
    }

    /// Installs a console backend; the default console version is announced
    /// when the info names none.
    pub fn set_console_backend(&mut self)
        ensures
            final(self).console_on(),
            opt_view(final(self).info().console_version) == announced_console_version(old(self).info(), true),
            same_info(final(self).info(), DeviceInfo { console_version: final(self).info().console_version, ..old(self).info() }),
            final(self).alarm_map() == old(self).alarm_map(),
            final(self).wf() == old(self).wf(),
            final(self).reboot_policy() == old(self).reboot_policy(),
            final(self).identify_policy() == old(self).identify_policy(),
            final(self).scripts_on() == old(self).scripts_on(),
            final(self).uses_provider() == old(self).uses_provider(),
    {
        self.console_enabled = true;
        if self.device_info.console_version.is_none() {
            self.device_info.console_version = Some(owned(DEFAULT_CONSOLE_VERSION));
        }
    }

    /// Removes the console backend.
    pub fn disable_console(&mut self)
        ensures
            !final(self).console_on(),
            final(self).info() == old(self).info(),
            final(self).alarm_map() == old(self).alarm_map(),
            final(self).wf() == old(self).wf(),
    {
        self.console_enabled = false;
    }

    /// The reboot policy.
    pub fn reboot_controller(&self) -> (r: RebootController)
        ensures
            r == self.reboot_policy(),
    {
        self.reboot
    }

    /// Installs a rebooter set by the caller.
    pub fn set_rebooter(&mut self)
        ensures
            final(self).reboot_policy() == RebootController::with_rebooter_value(),
            final(self).info() == old(self).info(),
            final(self).alarm_map() == old(self).alarm_map(),
            final(self).wf() == old(self).wf(),
    {
        self.reboot.set_rebooter();
    }

    /// Turns reboots off.
    pub fn disable_reboot(&mut self)
        ensures
            final(self).reboot_policy() == RebootController::disabled_value(),
            final(self).info() == old(self).info(),
            final(self).alarm_map() == old(self).alarm_map(),
            final(self).wf() == old(self).wf(),
    {
        self.reboot.disable();
    }

    /// The identify policy.
    pub fn identify_controller(&self) -> (r: IdentifyController)
        ensures
            r == self.identify_policy(),
    {
        self.identify
    }

    /// Installs an identify action set by the caller.
    pub fn set_identify_action(&mut self)
        ensures
            final(self).identify_policy().has_action,
            final(self).info() == old(self).info(),
            final(self).alarm_map() == old(self).alarm_map(),
            final(self).wf() == old(self).wf(),
    {
        self.identify = IdentifyController::with_action();
    }

    /// Removes the identify action.
    pub fn disable_identify(&mut self)
        ensures
            !final(self).identify_policy().has_action,
            final(self).info() == old(self).info(),
            final(self).alarm_map() == old(self).alarm_map(),
            final(self).wf() == old(self).wf(),
    {
        self.identify = IdentifyController::disabled();
    }

    /// The script policy.
    pub fn script_controller(&self) -> (r: &ScriptController)
        ensures
            r.has_runner == self.scripts_on(),
    {
        &self.scripts
    }

    /// Installs a script runner set by the caller.
    pub fn set_script_runner(&mut self)
        ensures
            final(self).scripts_on(),
            final(self).info() == old(self).info(),
            final(self).alarm_map() == old(self).alarm_map(),
            final(self).wf() == old(self).wf(),
    {
        self.scripts = ScriptController::with_runner();
    }

    /// Removes the script runner.
    pub fn disable_scripts(&mut self)
        ensures
            !final(self).scripts_on(),
            final(self).info() == old(self).info(),
            final(self).alarm_map() == old(self).alarm_map(),
            final(self).wf() == old(self).wf(),
    {
        self.scripts = ScriptController::disabled();
    }
}

/// `info` with the console version that a client with `console_on` announces.
pub open spec fn adopted(announced: DeviceInfo, info: DeviceInfo, console_on: bool) -> bool {
    &&& opt_view(announced.console_version) == announced_console_version(info, console_on)
    &&& same_info(announced, DeviceInfo { console_version: announced.console_version, ..info })
}

/// Every firmware field is non-blank.
pub open spec fn firmware_complete(fw: crate::device::FirmwareMetadata) -> bool {
    &&& crate::text::trim(fw.uuid@).len() > 0
    &&& crate::text::trim(fw.version@).len() > 0
    &&& crate::text::trim(fw.platform@).len() > 0
    &&& crate::text::trim(fw.architecture@).len() > 0
    &&& crate::text::trim(fw.product@).len() > 0
}

/// The settings that device-info updates leave alone.
pub open spec fn unchanged_settings(a: LinkClient, b: LinkClient) -> bool {
    &&& a.configuration() == b.configuration()
    &&& a.console_on() == b.console_on()
    &&& a.reboot_policy() == b.reboot_policy()
    &&& a.identify_policy() == b.identify_policy()
    &&& a.scripts_on() == b.scripts_on()
}

/// Announcing device info is idempotent: adopting an already adopted info
/// with the same console setting changes nothing, so the info read back from
/// the client is the info that was set.
pub proof fn lemma_adopted_read_back(stored: DeviceInfo, read: DeviceInfo, info: DeviceInfo, console_on: bool)
    requires
        adopted(stored, info, console_on),
        adopted(read, stored, console_on),
    ensures
        same_info(read, stored),
        opt_view(read.console_version) == announced_console_version(info, console_on),
{
}

} // verus!
