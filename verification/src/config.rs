//! Daemon configuration: connection, authentication and feature settings.
use crate::device::{DeviceInfo, DeviceRuntimeState, FirmwareMetadata};
use crate::json::{clone_value, entries_model, JsonValue};
use crate::text::{
    char_is, chars_of, concat, has_prefix, owned, prefix_at, string_from_range, trim, trim_bounds,
    trim_end_by, trim_slice,
};
use crate::timing::{duration_from_secs, duration_nanos};
use core::time::Duration;
use vstd::prelude::*;

verus! {

/// Why a configuration was rejected.
#[derive(Debug)]
pub enum ConfigError {
    /// The configuration file could not be read.
    Io(String),
    /// The configuration text could not be parsed.
    Parse(String),
    /// A required field is missing.
    Missing(&'static str),
}

/// How the device authenticates to the server.
pub enum AuthConfig {
    Mtls { cert_path: String, key_path: String, ca_cert_path: String },
    SharedSecret { key: String, secret: String },
}

/// What `format!("{:?}", s)` gives for a string: the quoted, escaped text.
pub uninterp spec fn debug_text(s: Seq<char>) -> Seq<char>;

/// `Debug` formatting of a string (`format!("{:?}", s)`).
#[verifier::external_body]
fn debug_str(s: &str) -> (r: String)
    ensures
        r@ == debug_text(s@),
{
    format!("{:?}", s)
}

/// The `Debug` rendering of an authentication configuration, with the shared
/// secret replaced by a placeholder.
pub open spec fn auth_debug_text(a: AuthConfig) -> Seq<char> {
    match a {
        AuthConfig::Mtls { cert_path, key_path, ca_cert_path } => "Mtls { cert_path: "@ + debug_text(
            cert_path@,
        ) + ", key_path: "@ + debug_text(key_path@) + ", ca_cert_path: "@ + debug_text(
            ca_cert_path@,
        ) + " }"@,
        AuthConfig::SharedSecret { key, secret } => "SharedSecret { key: "@ + debug_text(key@)
            + ", secret: "@ + debug_text("<redacted>"@) + " }"@,
    }
}

/// The websocket path for an authentication method.
pub open spec fn endpoint_of(a: AuthConfig) -> Seq<char> {
    match a {
        AuthConfig::SharedSecret { .. } => "/device-socket/websocket"@,
        AuthConfig::Mtls { .. } => "/socket/websocket"@,
    }
}

impl AuthConfig {
    /// Shared Secret connects to `/device-socket/websocket`; mTLS to `/socket/websocket`.
    pub fn endpoint_path(&self) -> (r: &'static str)
        ensures
            r@ == endpoint_of(*self),
    {
        match self {
            AuthConfig::SharedSecret { .. } => "/device-socket/websocket",
            AuthConfig::Mtls { .. } => "/socket/websocket",
        }
    }

    /// The `Debug` text of this configuration; the shared secret never appears in it.
    pub fn debug_string(&self) -> (r: String)
        ensures
            r@ == auth_debug_text(*self),
    {
        match self {
            AuthConfig::Mtls { cert_path, key_path, ca_cert_path } => {
                let mut r = owned("Mtls { cert_path: ");
                r.append(debug_str(cert_path.as_str()).as_str());
                r.append(", key_path: ");
                r.append(debug_str(key_path.as_str()).as_str());
                r.append(", ca_cert_path: ");
                r.append(debug_str(ca_cert_path.as_str()).as_str());
                r.append(" }");
                r
            },
            AuthConfig::SharedSecret { key, secret: _ } => {
                let mut r = owned("SharedSecret { key: ");
                r.append(debug_str(key.as_str()).as_str());
                r.append(", secret: ");
                r.append(debug_str("<redacted>").as_str());
                r.append(" }");
                r
            },
        }
    }
}

/// Remote console settings (`[console]`).
pub struct ConsoleConfig {
    pub enabled: Option<bool>,
    pub version: Option<String>,
    pub command: Option<String>,
    pub args: Option<Vec<String>>,
    pub timeout_secs: Option<u64>,
    pub rows: Option<u16>,
    pub cols: Option<u16>,
}

/// The elements of an optional list, empty when absent.
pub open spec fn list_or_empty(v: Option<Vec<String>>) -> Seq<String> {
    match v {
        Some(v) => v@,
        None => Seq::empty(),
    }
}

/// The text of an optional string, or `default`.
pub open spec fn text_or(v: Option<String>, default: Seq<char>) -> Seq<char> {
    match v {
        Some(s) => s@,
        None => default,
    }
}

/// An optional string whose trimmed text is non-empty, trimmed.
pub open spec fn present_command(v: Option<String>) -> Option<Seq<char>> {
    match v {
        Some(s) => if trim(s@).len() > 0 {
            Some(trim(s@))
        } else {
            None
        },
        None => None,
    }
}

/// The slice of an optional list, empty when absent.
fn list_slice(v: &Option<Vec<String>>) -> (r: &[String])
    ensures
        r@ == list_or_empty(*v),
{
    match v {
        Some(v) => v.as_slice(),
        None => &[],
    }
}

/// The text of an optional string, or `default`.
fn str_or<'a>(v: &'a Option<String>, default: &'a str) -> (r: &'a str)
    ensures
        r@ == text_or(*v, default@),
{
    match v {
        Some(s) => s.as_str(),
        None => default,
    }
}

/// A command given by an optional string: trimmed, and absent when blank.
fn command_of(v: &Option<String>) -> (r: Option<&str>)
    ensures
        r matches Some(s) ==> present_command(*v) == Some(s@),
        r is None ==> present_command(*v) is None,
{
    match v {
        Some(s) => {
            let t = trim_slice(s.as_str());
            if crate::text::char_count(t) == 0 {
                None
            } else {
                Some(t)
            }
        },
        None => None,
    }
}

impl ConsoleConfig {
    /// Disabled unless set.
    pub fn enabled(&self) -> (r: bool)
        ensures
            r == (self.enabled == Some(true)),
    {
        match self.enabled {
            Some(b) => b,
            None => false,
        }
    }

    /// Console protocol version, `2.0.0` by default.
    pub fn version(&self) -> (r: &str)
        ensures
            r@ == text_or(self.version, "2.0.0"@),
    {
        str_or(&self.version, "2.0.0")
    }

    /// Shell command, `/bin/sh` by default.
    pub fn command(&self) -> (r: &str)
        ensures
            r@ == text_or(self.command, "/bin/sh"@),
    {
        str_or(&self.command, "/bin/sh")
    }

    /// Shell arguments, none by default.
    pub fn args(&self) -> (r: &[String])
        ensures
            r@ == list_or_empty(self.args),
    {
        list_slice(&self.args)
    }

    /// Inactivity timeout in seconds, five minutes by default.
    pub fn timeout_secs(&self) -> (r: u64)
        ensures
            r == (match self.timeout_secs {
                Some(t) => t,
                None => 300,
            }),
    {
        match self.timeout_secs {
            Some(t) => t,
            None => 5 * 60,
        }
    }

    /// Terminal rows, 24 by default and never below 1.
    pub fn rows(&self) -> (r: u16)
        ensures
            r == (match self.rows {
                Some(n) => if n >= 1 { n } else { 1 },
                None => 24,
            }),
    {
        let n = match self.rows {
            Some(n) => n,
            None => 24,
        };
        if n >= 1 { n } else { 1 }
    }

    /// Terminal columns, 80 by default and never below 1.
    pub fn cols(&self) -> (r: u16)
        ensures
            r == (match self.cols {
                Some(n) => if n >= 1 { n } else { 1 },
                None => 80,
            }),
    {
        let n = match self.cols {
            Some(n) => n,
            None => 80,
        };
        if n >= 1 { n } else { 1 }
    }
}

/// Reboot settings (`[reboot]`).
pub struct RebootConfig {
    pub enabled: Option<bool>,
    pub command: Option<String>,
    pub args: Option<Vec<String>>,
    pub after_firmware_apply: Option<bool>,
    pub on_server_request: Option<bool>,
}

impl RebootConfig {
    /// Disabled unless set.
    pub fn enabled(&self) -> (r: bool)
        ensures
            r == (self.enabled == Some(true)),
    {
        match self.enabled {
            Some(b) => b,
            None => false,
        }
    }

    /// Reboot command, `reboot` by default.
    pub fn command(&self) -> (r: &str)
        ensures
            r@ == text_or(self.command, "reboot"@),
    {
        str_or(&self.command, "reboot")
    }

    /// Reboot arguments, none by default.
    pub fn args(&self) -> (r: &[String])
        ensures
            r@ == list_or_empty(self.args),
    {
        list_slice(&self.args)
    }

    /// Reboot after a firmware apply; on by default.
    pub fn after_firmware_apply(&self) -> (r: bool)
        ensures
            r == (self.after_firmware_apply != Some(false)),
    {
        match self.after_firmware_apply {
            Some(b) => b,
            None => true,
        }
    }

    /// Reboot when the server asks; on by default.
    pub fn on_server_request(&self) -> (r: bool)
        ensures
            r == (self.on_server_request != Some(false)),
    {
        match self.on_server_request {
            Some(b) => b,
            None => true,
        }
    }
}

/// Identify-action settings (`[identify]`).
pub struct IdentifyConfig {
    pub enabled: Option<bool>,
    pub command: Option<String>,
    pub args: Option<Vec<String>>,
}

impl IdentifyConfig {
    /// Disabled unless set.
    pub fn enabled(&self) -> (r: bool)
        ensures
            r == (self.enabled == Some(true)),
    {
        match self.enabled {
            Some(b) => b,
            None => false,
        }
    }

    /// The trimmed command, absent when unset or blank.
    pub fn command(&self) -> (r: Option<&str>)
        ensures
            r matches Some(s) ==> present_command(self.command) == Some(s@),
            r is None ==> present_command(self.command) is None,
    {
        command_of(&self.command)
    }

    /// Command arguments, none by default.
    pub fn args(&self) -> (r: &[String])
        ensures
            r@ == list_or_empty(self.args),
    {
        list_slice(&self.args)
    }
}

/// Support-script settings (`[scripts]`).
pub struct ScriptsConfig {
    pub enabled: Option<bool>,
    pub command: Option<String>,
    pub args: Option<Vec<String>>,
    pub timeout_secs: Option<u64>,
}

impl ScriptsConfig {
    /// Disabled unless set.
    pub fn enabled(&self) -> (r: bool)
        ensures
            r == (self.enabled == Some(true)),
    {
        match self.enabled {
            Some(b) => b,
            None => false,
        }
    }

    /// The trimmed command, absent when unset or blank.
    pub fn command(&self) -> (r: Option<&str>)
        ensures
            r matches Some(s) ==> present_command(self.command) == Some(s@),
            r is None ==> present_command(self.command) is None,
    {
        command_of(&self.command)
    }

    /// Command arguments, none by default.
    pub fn args(&self) -> (r: &[String])
        ensures
            r@ == list_or_empty(self.args),
    {
        list_slice(&self.args)
    }

    /// Default script timeout, ten seconds unless set.
    pub fn timeout(&self) -> (r: Duration)
        ensures
            duration_nanos(r) == (match self.timeout_secs {
                Some(t) => t,
                None => 10,
            }) as int * 1_000_000_000,
    {
        let secs = match self.timeout_secs {
            Some(t) => t,
            None => 10,
        };
        duration_from_secs(secs)
    }
}

/// The daemon configuration.
pub struct Config {
    pub host: String,
    pub auth: AuthConfig,
    pub serial_number: Option<String>,
    pub fwup_devpath: Option<String>,
    pub fwup_task: Option<String>,
    pub fwup_public_keys: Option<Vec<String>>,
    pub firmware: Option<FirmwareMetadata>,
    pub heartbeat_interval_secs: Option<u64>,
    pub data_dir: Option<String>,
    pub device_api_version: Option<String>,
    pub console_version: Option<String>,
    pub fwup_version: Option<String>,
    pub currently_downloading_uuid: Option<String>,
    pub firmware_validated: Option<bool>,
    pub firmware_auto_revert_detected: Option<bool>,
    pub join_params: Option<Vec<(String, JsonValue)>>,
    pub console: Option<ConsoleConfig>,
    pub reboot: Option<RebootConfig>,
    pub identify: Option<IdentifyConfig>,
    pub scripts: Option<ScriptsConfig>,
}

/// Whether an optional section is present and enabled.
pub open spec fn section_enabled(enabled: Option<Option<bool>>) -> bool {
    enabled == Some(Some(true))
}

/// The first validation failure of a configuration, if any.
pub open spec fn config_problem(c: Config) -> Option<Seq<char>> {
    if c.host@.len() == 0 {
        Some("host"@)
    } else if (c.identify matches Some(i) && i.enabled == Some(true) && present_command(i.command) is None) {
        Some("identify.command"@)
    } else if (c.scripts matches Some(s) && s.enabled == Some(true) && present_command(s.command) is None) {
        Some("scripts.command"@)
    } else {
        None
    }
}

/// The host turned into a websocket base URL: trimmed, trailing slashes
/// removed, `https` and `http` mapped to `wss` and `ws`, and `wss` assumed
/// when no scheme is given.
pub open spec fn normalized_host(host: Seq<char>) -> Seq<char> {
    let h = trim_end_by(trim(host), char_is('/'));
    if has_prefix(h, "https://"@) {
        "wss://"@ + h.skip("https://"@.len() as int)
    } else if has_prefix(h, "http://"@) {
        "ws://"@ + h.skip("http://"@.len() as int)
    } else if has_prefix(h, "ws://"@) || has_prefix(h, "wss://"@) {
        h
    } else {
        "wss://"@ + h
    }
}

/// A host that already names a websocket scheme is used as it is, only
/// trimmed and without trailing slashes: it never gets a second scheme.
pub proof fn lemma_websocket_host_kept(host: Seq<char>)
    requires
        has_prefix(trim_end_by(trim(host), char_is('/')), "ws://"@) || has_prefix(
            trim_end_by(trim(host), char_is('/')),
            "wss://"@,
        ),
    ensures
        normalized_host(host) == trim_end_by(trim(host), char_is('/')),
{
    let h = trim_end_by(trim(host), char_is('/'));
    reveal_strlit("ws://");
    reveal_strlit("wss://");
    reveal_strlit("https://");
    reveal_strlit("http://");
    if has_prefix(h, "ws://"@) {
        assert(h.take(5)[0] == h[0]);
        assert("ws://"@[0] == 'w');
    } else {
        assert(h.take(6)[0] == h[0]);
        assert("wss://"@[0] == 'w');
    }
    assert(h[0] == 'w');
    assert("https://"@[0] == 'h');
    assert("http://"@[0] == 'h');
    if has_prefix(h, "https://"@) {
        assert(h.take(8)[0] == h[0]);
    }
    if has_prefix(h, "http://"@) {
        assert(h.take(7)[0] == h[0]);
    }
}

/// An `http` or `https` host is turned into the same address under `ws` or
/// `wss`; the rest of the host is kept.
pub proof fn lemma_http_host_mapped(host: Seq<char>)
    ensures
        has_prefix(trim_end_by(trim(host), char_is('/')), "https://"@) ==> normalized_host(host)
            == "wss://"@ + trim_end_by(trim(host), char_is('/')).skip(8),
        has_prefix(trim_end_by(trim(host), char_is('/')), "http://"@) ==> normalized_host(host)
            == "ws://"@ + trim_end_by(trim(host), char_is('/')).skip(7),
{
    let h = trim_end_by(trim(host), char_is('/'));
    reveal_strlit("https://");
    reveal_strlit("http://");
    if has_prefix(h, "http://"@) && has_prefix(h, "https://"@) {
        assert(h.take(7)[4] == h[4]);
        assert(h.take(8)[4] == h[4]);
        assert("http://"@[4] == ':');
        assert("https://"@[4] == 's');
    }
}

/// The console version reported in the join payload.
pub open spec fn console_version_of(c: Config) -> Option<Seq<char>> {
    match c.console {
        Some(console) => if console.enabled == Some(true) {
            Some(text_or(console.version, "2.0.0"@))
        } else {
            match c.console_version {
                Some(v) => Some(v@),
                None => None,
            }
        },
        None => match c.console_version {
            Some(v) => Some(v@),
            None => None,
        },
    }
}

proof fn lemma_prefix_take(v: Seq<char>, end: int, p: Seq<char>)
    requires
        0 <= end <= v.len(),
        has_prefix(v.take(end), p),
    ensures
        v.take(end).skip(p.len() as int) == v.subrange(p.len() as int, end),
{
    assert(v.take(end).skip(p.len() as int) =~= v.subrange(p.len() as int, end));
}

impl Config {
    /// Checks the fields that parsing alone cannot: a host is required, and an
    /// enabled identify or scripts section needs a command.
    pub fn validate(&self) -> (r: Result<(), ConfigError>)
        ensures
            r is Ok <==> config_problem(*self) is None,
            r matches Err(e) ==> (e matches ConfigError::Missing(f) && config_problem(*self) == Some(
                f@,
            )),
    {
        if crate::text::char_count(self.host.as_str()) == 0 {
            return Err(ConfigError::Missing("host"));
        }
        if let Some(identify) = &self.identify {
            if identify.enabled() && identify.command().is_none() {
                return Err(ConfigError::Missing("identify.command"));
            }
        }
        if let Some(scripts) = &self.scripts {
            if scripts.enabled() && scripts.command().is_none() {
                return Err(ConfigError::Missing("scripts.command"));
            }
        }
        Ok(())
    }

    /// The host as a websocket base URL.
    pub fn normalized_host(&self) -> (r: String)
        ensures
            r@ == normalized_host(self.host@),
            has_prefix(r@, "ws://"@) || has_prefix(r@, "wss://"@),
    {
        let v = chars_of(self.host.as_str());
        let (a, b) = trim_bounds(&v);
        let t = string_from_range(&v, a, b);
        let w = chars_of(t.as_str());
        let mut end = w.len();
        while end > 0 && w[end - 1] == '/'
            invariant
                end <= w.len(),
                forall|j: int| end <= j < w.len() ==> char_is('/')(#[trigger] w@[j]),
            decreases end,
        {
            end = end - 1;
        }
        let ghost h = w@.take(end as int);
        proof {
            crate::text::lemma_trim_end_by_take(w@, char_is('/'), end as int);
            if end > 0 {
                assert(!char_is('/')(h.last()));
            }
            assert(trim_end_by(h, char_is('/')) == h);
            assert(h == trim_end_by(trim(self.host@), char_is('/')));
        }
        if prefix_at(&w, end, "https://") {
            let n = crate::text::char_count("https://");
            proof {
                lemma_prefix_take(w@, end as int, "https://"@);
            }
            let r = concat("wss://", string_from_range(&w, n, end).as_str());
            proof {
                reveal_strlit("wss://");
                reveal_strlit("ws://");
                assert(r@.take(6) =~= "wss://"@);
            }
            r
        } else if prefix_at(&w, end, "http://") {
            let n = crate::text::char_count("http://");
            proof {
                lemma_prefix_take(w@, end as int, "http://"@);
            }
            let r = concat("ws://", string_from_range(&w, n, end).as_str());
            proof {
                reveal_strlit("ws://");
                assert(r@.take(5) =~= "ws://"@);
            }
            r
        } else if prefix_at(&w, end, "ws://") || prefix_at(&w, end, "wss://") {
            let r = string_from_range(&w, 0, end);
            proof {
                assert(r@ =~= h);
            }
            r
        } else {
            let r = concat("wss://", string_from_range(&w, 0, end).as_str());
            proof {
                assert(w@.subrange(0, end as int) =~= h);
                reveal_strlit("wss://");
                reveal_strlit("ws://");
                assert(r@.take(6) =~= "wss://"@);
            }
            r
        }
    }

    /// The websocket URL: normalized host, the auth method's endpoint path and
    /// the protocol version query.
    pub fn socket_url(&self) -> (r: String)
        ensures
            r@ == normalized_host(self.host@) + endpoint_of(self.auth) + "?vsn=2.0.0"@,
    {
        let host = self.normalized_host();
        let mut r = concat(host.as_str(), self.auth.endpoint_path());
        r.append("?vsn=2.0.0");
        r
    }

    /// Seconds between heartbeats, 30 by default.
    pub fn heartbeat_interval_secs(&self) -> (r: u64)
        ensures
            r == (match self.heartbeat_interval_secs {
                Some(n) => n,
                None => 30,
            }),
    {
        match self.heartbeat_interval_secs {
            Some(n) => n,
            None => 30,
        }
    }

    /// Block device for fwup, `/dev/mmcblk0` by default.
    pub fn fwup_devpath(&self) -> (r: &str)
        ensures
            r@ == text_or(self.fwup_devpath, "/dev/mmcblk0"@),
    {
        str_or(&self.fwup_devpath, "/dev/mmcblk0")
    }

    /// fwup task, `upgrade` by default.
    pub fn fwup_task(&self) -> (r: &str)
        ensures
            r@ == text_or(self.fwup_task, "upgrade"@),
    {
        str_or(&self.fwup_task, "upgrade")
    }

    /// Firmware signing public keys, none by default.
    pub fn fwup_public_keys(&self) -> (r: &[String])
        ensures
            r@ == list_or_empty(self.fwup_public_keys),
    {
        list_slice(&self.fwup_public_keys)
    }

    /// Directory for temporary firmware downloads, `/tmp/link` by default.
    pub fn data_dir(&self) -> (r: String)
        ensures
            r@ == text_or(self.data_dir, "/tmp/link"@),
    {
        owned(str_or(&self.data_dir, "/tmp/link"))
    }

    /// API version reported to the server, `2.3.0` by default.
    pub fn device_api_version(&self) -> (r: &str)
        ensures
            r@ == text_or(self.device_api_version, "2.3.0"@),
    {
        str_or(&self.device_api_version, "2.3.0")
    }

    /// The console version: that of an enabled `[console]` section, else the
    /// legacy top-level `console_version`.
    pub fn console_version(&self) -> (r: Option<&str>)
        ensures
            r matches Some(s) ==> console_version_of(*self) == Some(s@),
            r is None ==> console_version_of(*self) is None,
    {
        if let Some(console) = &self.console {
            if console.enabled() {
                return Some(console.version());
            }
        }
        match &self.console_version {
            Some(v) => Some(v.as_str()),
            None => None,
        }
    }

    /// Whether a `[console]` section is present and enabled.
    pub fn console_enabled(&self) -> (r: bool)
        ensures
            r == (self.console matches Some(c) && c.enabled == Some(true)),
    {
        match &self.console {
            Some(c) => c.enabled(),
            None => false,
        }
    }

    /// Whether a `[reboot]` section is present and enabled.
    pub fn reboot_enabled(&self) -> (r: bool)
        ensures
            r == (self.reboot matches Some(c) && c.enabled == Some(true)),
    {
        match &self.reboot {
            Some(c) => c.enabled(),
            None => false,
        }
    }

    /// Whether an `[identify]` section is present and enabled.
    pub fn identify_enabled(&self) -> (r: bool)
        ensures
            r == (self.identify matches Some(c) && c.enabled == Some(true)),
    {
        match &self.identify {
            Some(c) => c.enabled(),
            None => false,
        }
    }

    /// Whether a `[scripts]` section is present and enabled.
    pub fn scripts_enabled(&self) -> (r: bool)
        ensures
            r == (self.scripts matches Some(c) && c.enabled == Some(true)),
    {
        match &self.scripts {
            Some(c) => c.enabled(),
            None => false,
        }
    }

    /// The configured fwup version.
    pub fn fwup_version(&self) -> (r: Option<&str>)
        ensures
            r matches Some(s) ==> self.fwup_version matches Some(v) && v@ == s@,
            r is None ==> self.fwup_version is None,
    {
        match &self.fwup_version {
            Some(v) => Some(v.as_str()),
            None => None,
        }
    }

    /// Device metadata from the static configuration: the trimmed serial number
    /// and the firmware section are required.
    pub fn device_info(&self) -> (r: Result<DeviceInfo, ConfigError>)
        ensures
            r is Ok <==> present_command(self.serial_number) is Some && self.firmware is Some,
            r matches Err(e) ==> (e matches ConfigError::Missing(f) && f@ == (if present_command(
                self.serial_number,
            ) is None {
                "serial_number"@
            } else {
                "firmware"@
            })),
            r matches Ok(info) ==> {
                &&& present_command(self.serial_number) == Some(info.serial_number@)
                &&& self.firmware matches Some(fw) && info.firmware.uuid@ == fw.uuid@
                    && info.firmware.version@ == fw.version@ && info.firmware.platform@
                    == fw.platform@ && info.firmware.architecture@ == fw.architecture@
                    && info.firmware.product@ == fw.product@
                &&& info.device_api_version@ == text_or(self.device_api_version, "2.3.0"@)
                &&& (match info.fwup_version {
                    Some(v) => self.fwup_version matches Some(w) && v@ == w@,
                    None => self.fwup_version is None,
                })
                &&& (match info.console_version {
                    Some(v) => console_version_of(*self) == Some(v@),
                    None => console_version_of(*self) is None,
                })
                &&& (match info.runtime_state.currently_downloading_uuid {
                    Some(v) => self.currently_downloading_uuid matches Some(w) && v@ == w@,
                    None => self.currently_downloading_uuid is None,
                })
                &&& info.runtime_state.firmware_validated == self.firmware_validated
                &&& info.runtime_state.firmware_auto_revert_detected
                    == self.firmware_auto_revert_detected
                &&& entries_model(info.extra_join_params@) == (match self.join_params {
                    Some(p) => entries_model(p@),
                    None => Seq::empty(),
                })
            },
    {
        let serial_number = match command_of(&self.serial_number) {
            Some(s) => owned(s),
            None => {
                return Err(ConfigError::Missing("serial_number"));
            },
        };
        let firmware = match &self.firmware {
            Some(fw) => FirmwareMetadata {
                uuid: fw.uuid.clone(),
                version: fw.version.clone(),
                platform: fw.platform.clone(),
                architecture: fw.architecture.clone(),
                product: fw.product.clone(),
            },
            None => {
                return Err(ConfigError::Missing("firmware"));
            },
        };
        let console_version = match self.console_version() {
            Some(v) => Some(owned(v)),
            None => None,
        };
        let extra_join_params = match &self.join_params {
            Some(p) => clone_entries(p),
            None => {
                let v: Vec<(String, JsonValue)> = Vec::new();
                assert(entries_model(v@) =~= Seq::empty());
                v
            },
        };
        Ok(DeviceInfo {
            serial_number,
            firmware,
            device_api_version: owned(self.device_api_version()),
            fwup_version: clone_opt(&self.fwup_version),
            console_version,
            runtime_state: DeviceRuntimeState {
                currently_downloading_uuid: clone_opt(&self.currently_downloading_uuid),
                firmware_validated: self.firmware_validated,
                firmware_auto_revert_detected: self.firmware_auto_revert_detected,
            },
            extra_join_params,
        })
    }
}

/// A copy of an optional string.
pub fn clone_opt(v: &Option<String>) -> (r: Option<String>)
    ensures
        r matches Some(s) ==> v matches Some(w) && s@ == w@,
        r is None ==> v is None,
{
    match v {
        Some(s) => Some(s.clone()),
        None => None,
    }
}

/// A copy of a list of object entries.
pub fn clone_entries(v: &Vec<(String, JsonValue)>) -> (r: Vec<(String, JsonValue)>)
    ensures
        entries_model(r@) == entries_model(v@),
{
    let mut out: Vec<(String, JsonValue)> = Vec::new();
    let mut i: usize = 0;
    while i < v.len()
        invariant
            i <= v.len(),
            out@.len() == i,
            forall|j: int|
                0 <= j < i ==> (#[trigger] out@[j]).0@ == v@[j].0@ && out@[j].1.model()
                    == v@[j].1.model(),
        decreases v.len() - i,
    {
        out.push((v[i].0.clone(), clone_value(&v[i].1)));
        i = i + 1;
    }
    assert(entries_model(out@) =~= entries_model(v@));
    out
}

/// The `Display` text of a configuration error.
pub open spec fn config_error_text(e: ConfigError) -> Seq<char> {
    match e {
        ConfigError::Io(m) => "failed to read config file: "@ + m@,
        ConfigError::Parse(m) => "failed to parse config: "@ + m@,
        ConfigError::Missing(f) => "missing required field: "@ + f@,
    }
}

impl ConfigError {
    /// The error's message (its `Display` text).
    pub fn message(&self) -> (r: String)
        ensures
            r@ == config_error_text(*self),
    {
        match self {
            ConfigError::Io(m) => concat("failed to read config file: ", m.as_str()),
            ConfigError::Parse(m) => concat("failed to parse config: ", m.as_str()),
            ConfigError::Missing(f) => concat("missing required field: ", *f),
        }
    }
}

} // verus!
