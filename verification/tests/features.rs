use link::alarms::{AlarmSource, AlarmStore};
use link::config::{IdentifyConfig, RebootConfig};
use link::device::{
    CommandDeviceInfoProvider, DeviceInfo, DeviceInfoError, DeviceRuntimeState, FirmwareMetadata,
    JsonFileDeviceInfoProvider, StaticDeviceInfoProvider,
};
use link::identify::{CommandIdentifyAction, IdentifyController, IdentifyError};
use link::json::{JsonNumber, JsonValue};
use link::reboot::{CommandRebooter, RebootController, RebootError, RebootReason};
use link::scripts::{
    combined_output, start_script, CommandScriptRunner, ScriptController, ScriptError,
    ScriptOutput, ScriptRequest, ScriptStart,
};
use std::time::Duration;

fn info(serial: &str) -> DeviceInfo {
    DeviceInfo {
        serial_number: serial.to_string(),
        firmware: FirmwareMetadata {
            uuid: "fw-uuid".to_string(),
            version: "1.0.0".to_string(),
            platform: "rpi4".to_string(),
            architecture: "arm".to_string(),
            product: "test-product".to_string(),
        },
        device_api_version: "2.3.0".to_string(),
        fwup_version: None,
        console_version: None,
        runtime_state: DeviceRuntimeState::empty(),
        extra_join_params: Vec::new(),
    }
}

fn object(entries: Vec<(&str, JsonValue)>) -> JsonValue {
    JsonValue::Object(entries.into_iter().map(|(k, v)| (k.to_string(), v)).collect())
}

fn text(s: &str) -> JsonValue {
    JsonValue::Str(s.to_string())
}

#[test]
fn alarm_store_sets_clears_and_snapshots() {
    let mut store = AlarmStore::default();

    store.set("link.test", "test alarm");
    assert!(store.is_set("link.test"));
    assert_eq!(store.get("link.test").as_deref(), Some("test alarm"));
    assert_eq!(
        store
            .list()
            .iter()
            .find(|(k, _)| k == "link.test")
            .map(|(_, v)| v.as_str()),
        Some("test alarm")
    );
    assert_eq!(store.snapshot(), store.list());

    store.clear("link.test");
    assert!(!store.is_set("link.test"));
    assert_eq!(store.get("link.test"), None);
    assert!(store.snapshot().is_empty());
}

#[test]
fn alarm_store_keeps_identifier_order_and_replaces_descriptions() {
    let mut store = AlarmStore::new();
    store.set("b", "2");
    store.set("a", "1");
    store.set("c", "3");
    store.set("b", "two");
    assert_eq!(
        store.list(),
        vec![
            ("a".to_string(), "1".to_string()),
            ("b".to_string(), "two".to_string()),
            ("c".to_string(), "3".to_string())
        ]
    );
    assert_eq!(store.alarms(), store.list());
    store.clear("missing");
    assert_eq!(store.list().len(), 3);
}

#[test]
fn command_identify_action_stores_command_and_args() {
    let action =
        CommandIdentifyAction::new("/usr/bin/identify-device", vec!["--blink".to_string()]);

    assert_eq!(action.command(), "/usr/bin/identify-device");
    assert_eq!(action.args(), &["--blink".to_string()]);
}

#[test]
fn identify_controller_is_disabled_without_enabled_config() {
    let config = IdentifyConfig {
        enabled: Some(false),
        command: Some("/usr/bin/identify-device".to_string()),
        args: None,
    };

    assert!(!IdentifyController::from_config(Some(&config)).0.is_enabled());
}

#[test]
fn command_rebooter_defaults_to_reboot_command() {
    let rebooter = CommandRebooter::system();

    assert_eq!(rebooter.command(), "reboot");
    assert!(rebooter.args().is_empty());
}

#[test]
fn reboot_policy_follows_reboot_config() {
    let config = RebootConfig {
        enabled: Some(true),
        command: None,
        args: None,
        after_firmware_apply: Some(false),
        on_server_request: Some(true),
    };
    let (controller, rebooter) = RebootController::from_config(Some(&config));

    assert!(!controller.is_enabled_for(RebootReason::FirmwareApplied));
    assert!(controller.is_enabled_for(RebootReason::ServerRequested));
    assert_eq!(rebooter.unwrap().command(), "reboot");
}

#[test]
fn command_script_runner_stores_command_and_args() {
    let runner = CommandScriptRunner::new("/bin/sh", vec!["-s".to_string()]);

    assert_eq!(runner.command(), "/bin/sh");
    assert_eq!(runner.args(), &["-s".to_string()]);
}

#[test]
fn parses_script_request() {
    let request = ScriptRequest::from_payload(
        &object(vec![
            ("ref", text("script-1")),
            ("text", text("echo hi")),
            ("timeout", JsonValue::Number(JsonNumber::Unsigned(2500))),
        ]),
        Duration::from_secs(10),
    )
    .unwrap();

    assert_eq!(request.script_ref, "script-1");
    assert_eq!(request.text, "echo hi");
    assert_eq!(request.timeout, Duration::from_millis(2500));
}

#[test]
fn script_request_timeout_may_be_text_and_defaults() {
    let request = ScriptRequest::from_payload(
        &object(vec![
            ("ref", text("s")),
            ("text", text("true")),
            ("timeout", text("1500")),
        ]),
        Duration::from_secs(10),
    )
    .unwrap();
    assert_eq!(request.timeout, Duration::from_millis(1500));

    let request = ScriptRequest::from_payload(
        &object(vec![("ref", text("s")), ("text", text("true"))]),
        Duration::from_secs(10),
    )
    .unwrap();
    assert_eq!(request.timeout, Duration::from_secs(10));
}

#[test]
fn script_start_decisions() {
    let disabled = ScriptController::disabled();
    let enabled = ScriptController::with_runner();
    let payload = object(vec![("ref", text("script-1")), ("text", text("echo hi"))]);

    match start_script(&payload, &disabled) {
        ScriptStart::Reject {
            script_ref,
            reason,
            output,
            requested,
        } => {
            assert_eq!(script_ref, "script-1");
            assert_eq!(reason, "scripts are not enabled");
            assert_eq!(output, "Error running script: scripts are not enabled");
            assert!(requested);
        }
        _ => panic!("expected a rejection"),
    }
    assert!(matches!(start_script(&payload, &enabled), ScriptStart::Run(_)));

    let no_text = object(vec![("ref", text("script-2"))]);
    assert!(matches!(
        start_script(&no_text, &enabled),
        ScriptStart::Reject { requested: false, .. }
    ));
    let no_ref = object(vec![("text", text("echo"))]);
    assert!(matches!(start_script(&no_ref, &enabled), ScriptStart::Ignore { .. }));
}

#[test]
fn script_error_results() {
    assert_eq!(ScriptError::Timeout.result_reason(), "timeout");
    assert_eq!(
        ScriptError::Timeout.result_output(),
        "Error running script: timeout exceeded"
    );
    let output = ScriptOutput {
        output: "script output".to_string(),
        return_value: ":ok".to_string(),
    };
    assert_eq!(output.return_value, ":ok");
}

#[test]
fn combined_output_joins_streams() {
    assert_eq!(combined_output(b"out", b""), "out");
    assert_eq!(combined_output(b"", b"err"), "err");
    let both = combined_output(b"out", b"err");
    assert!(both.contains("out") && both.contains("err"));
}

#[test]
fn static_provider_validates_info() {
    let provider = StaticDeviceInfoProvider::new(info("device-001"));
    assert_eq!(provider.device_info().unwrap().serial_number, "device-001");

    let provider = StaticDeviceInfoProvider::new(info("  "));
    assert!(matches!(
        provider.device_info(),
        Err(DeviceInfoError::Missing("serial_number"))
    ));
}

#[test]
fn device_info_validation_reports_first_blank_field() {
    let mut i = info("dev");
    i.firmware.version = " ".to_string();
    assert!(matches!(i.validate(), Err(DeviceInfoError::Missing("firmware.version"))));
    assert_eq!(
        DeviceInfoError::Missing("firmware.version").message(),
        "missing required field: firmware.version"
    );
}

#[test]
fn command_provider_timeout_is_at_least_one_millisecond() {
    let p = CommandDeviceInfoProvider::with_timeout("/bin/true", Duration::ZERO);
    assert_eq!(p.timeout(), Duration::from_millis(1));
    let p = CommandDeviceInfoProvider::new("/bin/true");
    assert_eq!(p.timeout(), Duration::from_secs(5));
    assert!(p.args().is_empty());
    let p = CommandDeviceInfoProvider::with_args("/bin/cat", vec!["x".to_string()]);
    assert_eq!(p.command(), "/bin/cat");
    assert_eq!(p.args(), &["x".to_string()]);
    let j = JsonFileDeviceInfoProvider::new("/etc/device.json");
    assert_eq!(j.path(), "/etc/device.json");
}

#[test]
fn reboot_and_identify_error_messages() {
    let e = RebootError::Command {
        command: "reboot".to_string(),
        status: "exit status: 1".to_string(),
        output: "denied".to_string(),
    };
    assert_eq!(
        e.message(),
        "reboot command `reboot` failed with status exit status: 1: denied"
    );
    let e = IdentifyError::Spawn {
        command: "blink".to_string(),
        source: "not found".to_string(),
    };
    assert_eq!(e.message(), "failed to start identify command `blink`: not found");
}
