//! Device identity, firmware metadata and the device channel join payload.
use crate::json::{
    clone_value, entries_model, get, insert, insert_entry, jstr, lemma_key_index_found, lemma_lookup_insert,
    Json, JsonValue,
};
use crate::config::{clone_entries, clone_opt};
use crate::protocol::message::opt_view;
use crate::text::{copy_strings, is_blank, owned, string_texts, trim, trimmed};
use crate::timing::{duration_as_nanos, duration_from_millis, duration_from_secs, duration_nanos};
use core::time::Duration;
use vstd::prelude::*;

verus! {

/// Default timeout, in seconds, for a device-info command.
pub const DEFAULT_DEVICE_INFO_COMMAND_TIMEOUT_SECS: u64 = 5;

/// Device metadata that is missing or blank.
#[derive(Debug)]
pub enum DeviceInfoError {
    Missing(&'static str),
}

/// The firmware that the device is running.
#[derive(Debug, Clone)]
pub struct FirmwareMetadata {
    pub uuid: String,
    pub version: String,
    pub platform: String,
    pub architecture: String,
    pub product: String,
}

/// Runtime state reported alongside the firmware metadata.
#[derive(Debug, Clone)]
pub struct DeviceRuntimeState {
    pub currently_downloading_uuid: Option<String>,
    pub firmware_validated: Option<bool>,
    pub firmware_auto_revert_detected: Option<bool>,
}

impl DeviceRuntimeState {
    /// No runtime state known.
    pub fn empty() -> (r: DeviceRuntimeState)
        ensures
            r.currently_downloading_uuid is None,
            r.firmware_validated is None,
            r.firmware_auto_revert_detected is None,
    {
        DeviceRuntimeState {
            currently_downloading_uuid: None,
            firmware_validated: None,
            firmware_auto_revert_detected: None,
        }
    }
}

/// Identity, firmware metadata and runtime state of a device.
#[derive(Debug, Clone)]
pub struct DeviceInfo {
    pub serial_number: String,
    pub firmware: FirmwareMetadata,
    pub device_api_version: String,
    pub fwup_version: Option<String>,
    pub console_version: Option<String>,
    pub runtime_state: DeviceRuntimeState,
    /// Extra join parameters, merged into the join payload.
    pub extra_join_params: Vec<(String, JsonValue)>,
}

/// The first required field of `info` that is blank, in the order checked.
pub open spec fn missing_field(info: DeviceInfo) -> Option<Seq<char>> {
    if trim(info.serial_number@).len() == 0 {
        Some("serial_number"@)
    } else if trim(info.firmware.uuid@).len() == 0 {
        Some("firmware.uuid"@)
    } else if trim(info.firmware.version@).len() == 0 {
        Some("firmware.version"@)
    } else if trim(info.firmware.platform@).len() == 0 {
        Some("firmware.platform"@)
    } else if trim(info.firmware.architecture@).len() == 0 {
        Some("firmware.architecture"@)
    } else if trim(info.firmware.product@).len() == 0 {
        Some("firmware.product"@)
    } else {
        None
    }
}

/// Inserting each of `extra` in turn.
pub open spec fn insert_all(es: Seq<(Seq<char>, Json)>, extra: Seq<(Seq<char>, Json)>) -> Seq<
    (Seq<char>, Json),
>
    decreases extra.len(),
{
    if extra.len() == 0 {
        es
    } else {
        insert_all(insert_entry(es, extra[0].0, extra[0].1), extra.drop_first())
    }
}

/// The `meta` object of the join payload.
pub open spec fn meta_entries(r: DeviceRuntimeState) -> Seq<(Seq<char>, Json)> {
    let m0 = Seq::<(Seq<char>, Json)>::empty();
    let m1 = match r.firmware_auto_revert_detected {
        Some(b) => insert_entry(m0, "firmware_auto_revert_detected"@, Json::Bool(b)),
        None => m0,
    };
    match r.firmware_validated {
        Some(b) => insert_entry(m1, "firmware_validated"@, Json::Bool(b)),
        None => m1,
    }
}

/// The entries of the join payload before the runtime `meta` object.
pub open spec fn join_entries_without_meta(info: DeviceInfo) -> Seq<(Seq<char>, Json)> {
    let e0 = seq![("device_api_version"@, jstr(info.device_api_version@))];
    let e1 = match info.fwup_version {
        Some(v) => insert_entry(e0, "fwup_version"@, jstr(v@)),
        None => e0,
    };
    let e2 = match info.console_version {
        Some(v) => insert_entry(e1, "console_version"@, jstr(v@)),
        None => e1,
    };
    let e3 = insert_entry(e2, "nerves_fw_uuid"@, jstr(info.firmware.uuid@));
    let e4 = insert_entry(e3, "nerves_fw_version"@, jstr(info.firmware.version@));
    let e5 = insert_entry(e4, "nerves_fw_platform"@, jstr(info.firmware.platform@));
    let e6 = insert_entry(e5, "nerves_fw_architecture"@, jstr(info.firmware.architecture@));
    let e7 = insert_entry(e6, "nerves_fw_product"@, jstr(info.firmware.product@));
    let e8 = insert_all(e7, entries_model(info.extra_join_params@));
    match info.runtime_state.currently_downloading_uuid {
        Some(u) => insert_entry(e8, "currently_downloading_uuid"@, jstr(u@)),
        None => e8,
    }
}

/// The entries of the device channel join payload, in insertion order.
pub open spec fn join_entries(info: DeviceInfo) -> Seq<(Seq<char>, Json)> {
    let e9 = join_entries_without_meta(info);
    let meta = meta_entries(info.runtime_state);
    if meta.len() > 0 {
        insert_entry(e9, "meta"@, Json::Object(meta))
    } else {
        e9
    }
}

/// The join payload reports the known runtime firmware state as it is:
/// whenever firmware validation or auto-revert detection is known, the
/// payload's `meta` object holds each known value, `true` or `false`, and
/// holds no entry for one that is not known.
pub proof fn lemma_join_reports_runtime_state(info: DeviceInfo)
    requires
        info.runtime_state.firmware_validated is Some || info.runtime_state.firmware_auto_revert_detected is Some,
    ensures
        get(Json::Object(join_entries(info)), "meta"@) matches Some(meta) && {
            &&& (forall|b: bool|
                info.runtime_state.firmware_validated == Some(b) ==> get(meta, "firmware_validated"@)
                    == Some(Json::Bool(b)))
            &&& (info.runtime_state.firmware_validated is None ==> get(meta, "firmware_validated"@) is None)
            &&& (forall|b: bool|
                info.runtime_state.firmware_auto_revert_detected == Some(b) ==> get(
                    meta,
                    "firmware_auto_revert_detected"@,
                ) == Some(Json::Bool(b)))
            &&& (info.runtime_state.firmware_auto_revert_detected is None ==> get(
                meta,
                "firmware_auto_revert_detected"@,
            ) is None)
        },
{
    let r = info.runtime_state;
    let m0 = Seq::<(Seq<char>, Json)>::empty();
    let m1 = match r.firmware_auto_revert_detected {
        Some(b) => insert_entry(m0, "firmware_auto_revert_detected"@, Json::Bool(b)),
        None => m0,
    };
    let meta = meta_entries(r);
    reveal_strlit("firmware_validated");
    reveal_strlit("firmware_auto_revert_detected");
    assert("firmware_validated"@[9] != "firmware_auto_revert_detected"@[9]);
    lemma_key_index_found(m0, "firmware_validated"@);
    lemma_key_index_found(m0, "firmware_auto_revert_detected"@);
    if let Some(b) = r.firmware_auto_revert_detected {
        lemma_lookup_insert(m0, "firmware_auto_revert_detected"@, Json::Bool(b), "firmware_validated"@);
        lemma_lookup_insert(m0, "firmware_auto_revert_detected"@, Json::Bool(b), "firmware_auto_revert_detected"@);
    }
    if let Some(b) = r.firmware_validated {
        lemma_lookup_insert(m1, "firmware_validated"@, Json::Bool(b), "firmware_validated"@);
        lemma_lookup_insert(m1, "firmware_validated"@, Json::Bool(b), "firmware_auto_revert_detected"@);
        lemma_key_index_found(meta, "firmware_validated"@);
    } else {
        lemma_key_index_found(meta, "firmware_auto_revert_detected"@);
    }
    assert(meta.len() > 0);
    let es = join_entries(info);
    lemma_lookup_insert(
        join_entries_without_meta(info),
        "meta"@,
        Json::Object(meta),
        "meta"@,
    );
}

impl DeviceInfo {
    /// Checks that the identity and every firmware field are non-blank.
    pub fn validate(&self) -> (r: Result<(), DeviceInfoError>)
        ensures
            r is Ok <==> missing_field(*self) is None,
            r matches Err(DeviceInfoError::Missing(f)) ==> missing_field(*self) == Some(f@),
    {
        if is_blank(self.serial_number.as_str()) {
            return Err(DeviceInfoError::Missing("serial_number"));
        }
        if is_blank(self.firmware.uuid.as_str()) {
            return Err(DeviceInfoError::Missing("firmware.uuid"));
        }
        if is_blank(self.firmware.version.as_str()) {
            return Err(DeviceInfoError::Missing("firmware.version"));
        }
        if is_blank(self.firmware.platform.as_str()) {
            return Err(DeviceInfoError::Missing("firmware.platform"));
        }
        if is_blank(self.firmware.architecture.as_str()) {
            return Err(DeviceInfoError::Missing("firmware.architecture"));
        }
        if is_blank(self.firmware.product.as_str()) {
            return Err(DeviceInfoError::Missing("firmware.product"));
        }
        Ok(())
    }

    /// The device channel join payload.
    pub fn join_payload(&self) -> (r: JsonValue)
        ensures
            r.model() == Json::Object(join_entries(*self)),
    {
        let mut payload: Vec<(String, JsonValue)> = Vec::new();
        assert(entries_model(payload@) =~= Seq::<(Seq<char>, Json)>::empty());
        insert(&mut payload, "device_api_version", JsonValue::text(self.device_api_version.as_str()));
        proof {
            assert(insert_entry(Seq::empty(), "device_api_version"@, jstr(self.device_api_version@)) =~= seq![("device_api_version"@, jstr(self.device_api_version@))]);
        }
        if let Some(v) = &self.fwup_version {
            insert(&mut payload, "fwup_version", JsonValue::text(v.as_str()));
        }
        if let Some(v) = &self.console_version {
            insert(&mut payload, "console_version", JsonValue::text(v.as_str()));
        }
        insert(&mut payload, "nerves_fw_uuid", JsonValue::text(self.firmware.uuid.as_str()));
        insert(&mut payload, "nerves_fw_version", JsonValue::text(self.firmware.version.as_str()));
        insert(&mut payload, "nerves_fw_platform", JsonValue::text(self.firmware.platform.as_str()));
        insert(
            &mut payload,
            "nerves_fw_architecture",
            JsonValue::text(self.firmware.architecture.as_str()),
        );
        insert(&mut payload, "nerves_fw_product", JsonValue::text(self.firmware.product.as_str()));
        let ghost e7 = entries_model(payload@);
        let extra = &self.extra_join_params;
        let mut i: usize = 0;
        assert(entries_model(extra@).skip(0) =~= entries_model(extra@));
        while i < extra.len()
            invariant
                i <= extra.len(),
                insert_all(e7, entries_model(extra@)) == insert_all(
                    entries_model(payload@),
                    entries_model(extra@).skip(i as int),
                ),
            decreases extra.len() - i,
        {
            let ghost before = entries_model(payload@);
            let ghost rest = entries_model(extra@).skip(i as int);
            insert(&mut payload, extra[i].0.as_str(), clone_value(&extra[i].1));
            proof {
                assert(rest.drop_first() =~= entries_model(extra@).skip(i + 1));
            }
            i = i + 1;
        }
        proof {
            assert(entries_model(extra@).skip(i as int) =~= Seq::<(Seq<char>, Json)>::empty());
        }
        if let Some(u) = &self.runtime_state.currently_downloading_uuid {
            insert(&mut payload, "currently_downloading_uuid", JsonValue::text(u.as_str()));
        }
        let mut meta: Vec<(String, JsonValue)> = Vec::new();
        assert(entries_model(meta@) =~= Seq::<(Seq<char>, Json)>::empty());
        if let Some(b) = self.runtime_state.firmware_auto_revert_detected {
            insert(&mut meta, "firmware_auto_revert_detected", JsonValue::Bool(b));
        }
        if let Some(b) = self.runtime_state.firmware_validated {
            insert(&mut meta, "firmware_validated", JsonValue::Bool(b));
        }
        if meta.len() > 0 {
            insert(&mut payload, "meta", JsonValue::object(meta));
        }
        JsonValue::object(payload)
    }
}

/// The `Display` text of a device-info error.
pub open spec fn device_info_error_text(e: DeviceInfoError) -> Seq<char> {
    match e {
        DeviceInfoError::Missing(f) => "missing required field: "@ + f@,
    }
}

impl DeviceInfoError {
    /// The error's message (its `Display` text).
    pub fn message(&self) -> (r: String)
        ensures
            r@ == device_info_error_text(*self),
    {
        match self {
            DeviceInfoError::Missing(f) => crate::text::concat("missing required field: ", *f),
        }
    }
}

/// Two device infos hold the same texts and values, field by field.
pub open spec fn same_info(a: DeviceInfo, b: DeviceInfo) -> bool {
    &&& a.serial_number@ == b.serial_number@
    &&& a.firmware.uuid@ == b.firmware.uuid@
    &&& a.firmware.version@ == b.firmware.version@
    &&& a.firmware.platform@ == b.firmware.platform@
    &&& a.firmware.architecture@ == b.firmware.architecture@
    &&& a.firmware.product@ == b.firmware.product@
    &&& a.device_api_version@ == b.device_api_version@
    &&& opt_view(a.fwup_version) == opt_view(b.fwup_version)
    &&& opt_view(a.console_version) == opt_view(b.console_version)
    &&& opt_view(a.runtime_state.currently_downloading_uuid) == opt_view(
        b.runtime_state.currently_downloading_uuid,
    )
    &&& a.runtime_state.firmware_validated == b.runtime_state.firmware_validated
    &&& a.runtime_state.firmware_auto_revert_detected == b.runtime_state.firmware_auto_revert_detected
    &&& entries_model(a.extra_join_params@) == entries_model(b.extra_join_params@)
}

/// Device infos with the same texts are checked and announced alike.
pub proof fn lemma_same_info_alike(a: DeviceInfo, b: DeviceInfo)
    requires
        same_info(a, b),
    ensures
        missing_field(a) == missing_field(b),
        join_entries(a) == join_entries(b),
{
    assert(meta_entries(a.runtime_state) == meta_entries(b.runtime_state));
}

fn copy_opt(o: &Option<String>) -> (r: Option<String>)
    ensures
        opt_view(r) == opt_view(*o),
{
    match o {
        Some(s) => Some(s.clone()),
        None => None,
    }
}

impl DeviceInfo {
    /// A copy of the device info.
    pub fn copy(&self) -> (r: DeviceInfo)
        ensures
            same_info(r, *self),
    {
        DeviceInfo {
            serial_number: self.serial_number.clone(),
            firmware: FirmwareMetadata {
                uuid: self.firmware.uuid.clone(),
                version: self.firmware.version.clone(),
                platform: self.firmware.platform.clone(),
                architecture: self.firmware.architecture.clone(),
                product: self.firmware.product.clone(),
            },
            device_api_version: self.device_api_version.clone(),
            fwup_version: copy_opt(&self.fwup_version),
            console_version: copy_opt(&self.console_version),
            runtime_state: DeviceRuntimeState {
                currently_downloading_uuid: copy_opt(&self.runtime_state.currently_downloading_uuid),
                firmware_validated: self.runtime_state.firmware_validated,
                firmware_auto_revert_detected: self.runtime_state.firmware_auto_revert_detected,
            },
            extra_join_params: clone_entries(&self.extra_join_params),
        }
    }
}

/// Supplies the same device info every time.
#[derive(Debug, Clone)]
pub struct StaticDeviceInfoProvider {
    info: DeviceInfo,
}

impl StaticDeviceInfoProvider {
    /// The device info it supplies.
    pub closed spec fn info(&self) -> DeviceInfo {
        self.info
    }

    /// A provider of `info`.
    pub fn new(info: DeviceInfo) -> (r: StaticDeviceInfoProvider)
        ensures
            r.info() == info,
    {
        StaticDeviceInfoProvider { info }
    }

    /// The device info, once it passes validation.
    pub fn device_info(&self) -> (r: Result<DeviceInfo, DeviceInfoError>)
        ensures
            r is Ok <==> missing_field(self.info()) is None,
            r matches Ok(i) ==> same_info(i, self.info()),
            r matches Err(DeviceInfoError::Missing(f)) ==> missing_field(self.info()) == Some(f@),
    {
        match self.info.validate() {
            Ok(()) => Ok(self.info.copy()),
            Err(e) => Err(e),
        }
    }
}

/// Reads device info from a JSON file.
#[derive(Debug, Clone)]
pub struct JsonFileDeviceInfoProvider {
    path: String,
}

impl JsonFileDeviceInfoProvider {
    /// The file that is read.
    pub closed spec fn path_text(&self) -> Seq<char> {
        self.path@
    }

    /// A provider that reads `path`.
    pub fn new(path: &str) -> (r: JsonFileDeviceInfoProvider)
        ensures
            r.path_text() == path@,
    {
        JsonFileDeviceInfoProvider { path: owned(path) }
    }

    /// The file that is read.
    pub fn path(&self) -> (r: &str)
        ensures
            r@ == self.path_text(),
    {
        self.path.as_str()
    }
}

/// Runs a command that prints device info as JSON.
#[derive(Debug)]
pub struct CommandDeviceInfoProvider {
    command: String,
    args: Vec<String>,
    timeout: Duration,
}

/// The default command timeout.
pub fn default_device_info_command_timeout() -> (r: Duration)
    ensures
        duration_nanos(r) == DEFAULT_DEVICE_INFO_COMMAND_TIMEOUT_SECS as int * 1_000_000_000,
{
    duration_from_secs(DEFAULT_DEVICE_INFO_COMMAND_TIMEOUT_SECS)
}

/// A command timeout of at least one millisecond.
pub fn normalize_device_info_command_timeout(timeout: Duration) -> (r: Duration)
    ensures
        duration_nanos(r) == if duration_nanos(timeout) < 1_000_000 {
            1_000_000
        } else {
            duration_nanos(timeout) as int
        },
{
    if duration_as_nanos(timeout) < 1_000_000 {
        duration_from_millis(1)
    } else {
        timeout
    }
}

impl CommandDeviceInfoProvider {
    /// The command that is run.
    pub closed spec fn command_text(&self) -> Seq<char> {
        self.command@
    }

    /// Its arguments.
    pub closed spec fn arg_texts(&self) -> Seq<Seq<char>> {
        string_texts(self.args@)
    }

    /// How long the command may run.
    pub closed spec fn timeout_nanos(&self) -> int {
        duration_nanos(self.timeout) as int
    }

    /// `command` without arguments and with the default timeout.
    pub fn new(command: &str) -> (r: CommandDeviceInfoProvider)
        ensures
            r.command_text() == command@,
            r.arg_texts().len() == 0,
            r.timeout_nanos() == 5_000_000_000,
    {
        CommandDeviceInfoProvider::with_args_and_timeout(command, Vec::new(), default_device_info_command_timeout())
    }

    /// `command` with `args` and the default timeout.
    pub fn with_args(command: &str, args: Vec<String>) -> (r: CommandDeviceInfoProvider)
        ensures
            r.command_text() == command@,
            r.arg_texts() == string_texts(args@),
            r.timeout_nanos() == 5_000_000_000,
    {
        CommandDeviceInfoProvider::with_args_and_timeout(command, args, default_device_info_command_timeout())
    }

    /// `command` without arguments and with `timeout`, at least one millisecond.
    pub fn with_timeout(command: &str, timeout: Duration) -> (r: CommandDeviceInfoProvider)
        ensures
            r.command_text() == command@,
            r.arg_texts().len() == 0,
            r.timeout_nanos() == if duration_nanos(timeout) < 1_000_000 {
                1_000_000
            } else {
                duration_nanos(timeout) as int
            },
    {
        CommandDeviceInfoProvider::with_args_and_timeout(command, Vec::new(), timeout)
    }

    /// `command` with `args` and `timeout`, at least one millisecond.
    pub fn with_args_and_timeout(command: &str, args: Vec<String>, timeout: Duration) -> (r: CommandDeviceInfoProvider)
        ensures
            r.command_text() == command@,
            r.arg_texts() == string_texts(args@),
            r.timeout_nanos() == if duration_nanos(timeout) < 1_000_000 {
                1_000_000
            } else {
                duration_nanos(timeout) as int
            },
    {
        let r = CommandDeviceInfoProvider {
            command: owned(command),
            args,
            timeout: normalize_device_info_command_timeout(timeout),
        };
        assert(r.arg_texts().len() == args@.len());
        r
    }

    /// The command that is run.
    pub fn command(&self) -> (r: &str)
        ensures
            r@ == self.command_text(),
    {
        self.command.as_str()
    }

    /// Its arguments.
    pub fn args(&self) -> (r: &[String])
        ensures
            string_texts(r@) == self.arg_texts(),
    {
        self.args.as_slice()
    }

    /// How long the command may run.
    pub fn timeout(&self) -> (r: Duration)
        ensures
            duration_nanos(r) == self.timeout_nanos(),
    {
        self.timeout
    }
}

/// Where the daemon reads device info from.
#[derive(Debug)]
pub enum DeviceInfoSourceProvider {
    JsonFile(JsonFileDeviceInfoProvider),
    Command(CommandDeviceInfoProvider),
}

/// The text reported for a failed device-info command: its standard error,
/// decoded leniently and trimmed.
pub fn command_stderr_text(stderr: &[u8]) -> (r: String)
    ensures
        r@ == trim(crate::scripts::utf8_lossy(stderr@)),
{
    let text = crate::scripts::lossy_text(stderr);
    trimmed(text.as_str())
}

} // verus!
