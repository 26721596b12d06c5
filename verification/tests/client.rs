use link::alarms::FIRMWARE_REVERTED_ALARM;
use link::client::{ClientError, ClientEvent, LinkClient, TransportError};
use link::config::{AuthConfig, Config, ConfigError, ConsoleConfig};
use link::device::{DeviceInfo, DeviceInfoError, DeviceRuntimeState, FirmwareMetadata};
use link::json::JsonValue;
use std::cell::Cell;

fn test_config() -> Config {
    Config {
        host: "example.com".to_string(),
        auth: AuthConfig::SharedSecret {
            key: "test-key".to_string(),
            secret: "test-secret".to_string(),
        },
        serial_number: Some("test-device-001".to_string()),
        fwup_devpath: None,
        fwup_task: None,
        fwup_public_keys: None,
        firmware: Some(FirmwareMetadata {
            uuid: "fw-uuid-123".to_string(),
            version: "1.0.0".to_string(),
            platform: "rpi4".to_string(),
            architecture: "arm".to_string(),
            product: "test-product".to_string(),
        }),
        heartbeat_interval_secs: None,
        data_dir: None,
        device_api_version: None,
        console_version: None,
        fwup_version: None,
        currently_downloading_uuid: None,
        firmware_validated: None,
        firmware_auto_revert_detected: None,
        join_params: None,
        console: None,
        reboot: None,
        identify: None,
        scripts: None,
    }
}

fn provider_info(version: &str) -> DeviceInfo {
    DeviceInfo {
        serial_number: "provider-device-001".to_string(),
        firmware: FirmwareMetadata {
            uuid: "provider-fw".to_string(),
            version: version.to_string(),
            platform: "x86_64".to_string(),
            architecture: "x86_64".to_string(),
            product: "provider-product".to_string(),
        },
        device_api_version: "2.3.0".to_string(),
        fwup_version: Some("1.13.0".to_string()),
        console_version: None,
        runtime_state: DeviceRuntimeState::empty(),
        extra_join_params: Vec::new(),
    }
}

fn text<'a>(payload: &'a JsonValue, key: &str) -> Option<&'a str> {
    payload.get(key).and_then(|v| v.as_str()).map(|s| s.as_str())
}

fn meta_flag(payload: &JsonValue, key: &str) -> Option<bool> {
    payload.get("meta").and_then(|m| m.get(key)).and_then(|v| v.as_bool())
}

#[test]
fn client_creation() {
    let client = LinkClient::new(test_config()).unwrap();
    assert_eq!(client.serial(), "test-device-001");
}

#[test]
fn client_alarm_store_sets_gets_lists_and_clears() {
    let mut client = LinkClient::new(test_config()).unwrap();

    client.set_alarm("link.test", "test alarm");

    assert_eq!(client.alarm_store().get("link.test").as_deref(), Some("test alarm"));
    assert_eq!(
        client
            .alarm_store()
            .list()
            .iter()
            .find(|(k, _)| k == "link.test")
            .map(|(_, v)| v.as_str()),
        Some("test alarm")
    );

    client.clear_alarm("link.test");

    assert_eq!(client.alarm_store().get("link.test"), None);
    assert!(!client.alarm_store().list().iter().any(|(k, _)| k == "link.test"));
}

#[test]
fn join_payload_contains_metadata() {
    let client = LinkClient::new(test_config()).unwrap();
    let payload = client.join_payload();
    assert_eq!(text(&payload, "nerves_fw_uuid"), Some("fw-uuid-123"));
    assert_eq!(text(&payload, "nerves_fw_version"), Some("1.0.0"));
    assert_eq!(text(&payload, "nerves_fw_platform"), Some("rpi4"));
    assert_eq!(text(&payload, "nerves_fw_architecture"), Some("arm"));
    assert_eq!(text(&payload, "nerves_fw_product"), Some("test-product"));
    assert_eq!(text(&payload, "device_api_version"), Some("2.3.0"));
}

#[test]
fn join_payload_custom_api_version() {
    let mut config = test_config();
    config.device_api_version = Some("2.0.0".to_string());
    let client = LinkClient::new(config).unwrap();
    let payload = client.join_payload();
    assert_eq!(text(&payload, "device_api_version"), Some("2.0.0"));
}

#[test]
fn client_can_use_device_info_provider() {
    let mut config = test_config();
    config.serial_number = None;
    let firmware = config.firmware.take().unwrap();

    let info = DeviceInfo {
        serial_number: "provider-device-001".to_string(),
        firmware,
        device_api_version: "2.3.0".to_string(),
        fwup_version: Some("1.12.0".to_string()),
        console_version: Some("2.0.0".to_string()),
        runtime_state: DeviceRuntimeState {
            currently_downloading_uuid: None,
            firmware_validated: Some(true),
            firmware_auto_revert_detected: None,
        },
        extra_join_params: Vec::new(),
    };

    let client = LinkClient::from_provider(config, Ok(info)).unwrap();
    let payload = client.join_payload();

    assert_eq!(client.serial(), "provider-device-001");
    assert_eq!(text(&payload, "fwup_version"), Some("1.12.0"));
    assert_eq!(meta_flag(&payload, "firmware_validated"), Some(true));
}

#[test]
fn current_device_info_refreshes_provider_each_time() {
    let mut config = test_config();
    config.serial_number = None;
    config.firmware = None;

    let calls = Cell::new(0usize);
    let provider = || {
        calls.set(calls.get() + 1);
        Ok::<DeviceInfo, String>(provider_info(&format!("2.0.{}", calls.get())))
    };

    let mut client = LinkClient::from_provider(config, provider()).unwrap();

    assert_eq!(text(&client.join_payload(), "nerves_fw_version"), Some("2.0.1"));
    let fresh = if client.uses_device_info_provider() {
        Some(provider())
    } else {
        None
    };
    assert_eq!(
        client.current_device_info(fresh).unwrap().firmware.version,
        "2.0.2"
    );
    let fresh = if client.uses_device_info_provider() {
        Some(provider())
    } else {
        None
    };
    assert_eq!(
        text(&client.current_join_payload(fresh).unwrap(), "nerves_fw_version"),
        Some("2.0.3")
    );
    assert_eq!(calls.get(), 3);
}

#[test]
fn refresh_device_info_updates_cached_payload_from_provider() {
    let mut config = test_config();
    config.serial_number = None;
    config.firmware = None;

    let calls = Cell::new(0usize);
    let provider = || {
        calls.set(calls.get() + 1);
        Ok::<DeviceInfo, String>(provider_info(&format!("3.0.{}", calls.get())))
    };

    let mut client = LinkClient::from_provider(config, provider()).unwrap();
    let fresh = if client.uses_device_info_provider() {
        Some(provider())
    } else {
        None
    };
    client.refresh_device_info(fresh).unwrap();

    assert_eq!(text(&client.join_payload(), "nerves_fw_version"), Some("3.0.2"));
    assert_eq!(calls.get(), 2);
}

#[test]
fn set_device_info_replaces_provider_with_static_info() {
    let mut config = test_config();
    config.serial_number = None;
    config.firmware = None;

    let calls = Cell::new(0usize);
    let provider = || {
        calls.set(calls.get() + 1);
        Ok::<DeviceInfo, String>(provider_info("4.0.0"))
    };

    let mut client = LinkClient::from_provider(config, provider()).unwrap();
    client.set_device_info(provider_info("manual")).unwrap();

    let fresh = if client.uses_device_info_provider() {
        Some(provider())
    } else {
        None
    };
    assert_eq!(client.current_device_info(fresh).unwrap().firmware.version, "manual");
    assert_eq!(calls.get(), 1);
}

#[test]
fn client_can_use_runtime_device_info_directly() {
    let mut config = test_config();
    config.serial_number = None;
    config.firmware = None;

    let info = DeviceInfo {
        serial_number: "runtime-device-001".to_string(),
        firmware: FirmwareMetadata {
            uuid: "runtime-fw".to_string(),
            version: "2.0.0".to_string(),
            platform: "x86_64".to_string(),
            architecture: "x86_64".to_string(),
            product: "runtime-product".to_string(),
        },
        device_api_version: "2.3.0".to_string(),
        fwup_version: Some("1.13.0".to_string()),
        console_version: None,
        runtime_state: DeviceRuntimeState {
            currently_downloading_uuid: Some("download-123".to_string()),
            firmware_validated: Some(false),
            firmware_auto_revert_detected: Some(true),
        },
        extra_join_params: Vec::new(),
    };

    let client = LinkClient::with_device_info(config, info).unwrap();
    let payload = client.join_payload();

    assert_eq!(client.serial(), "runtime-device-001");
    assert_eq!(text(&payload, "nerves_fw_uuid"), Some("runtime-fw"));
    assert_eq!(text(&payload, "fwup_version"), Some("1.13.0"));
    assert_eq!(text(&payload, "currently_downloading_uuid"), Some("download-123"));
    assert_eq!(meta_flag(&payload, "firmware_auto_revert_detected"), Some(true));
}

#[test]
fn client_can_update_runtime_device_info() {
    let mut client = LinkClient::new(test_config()).unwrap();

    let info = DeviceInfo {
        serial_number: "updated-runtime-device".to_string(),
        firmware: FirmwareMetadata {
            uuid: "updated-fw".to_string(),
            version: "3.0.0".to_string(),
            platform: "rpi5".to_string(),
            architecture: "aarch64".to_string(),
            product: "updated-product".to_string(),
        },
        device_api_version: "2.3.0".to_string(),
        fwup_version: None,
        console_version: None,
        runtime_state: DeviceRuntimeState::empty(),
        extra_join_params: Vec::new(),
    };

    client.set_device_info(info).unwrap();

    let payload = client.join_payload();
    assert_eq!(client.serial(), "updated-runtime-device");
    assert_eq!(text(&payload, "nerves_fw_uuid"), Some("updated-fw"));
    assert_eq!(text(&payload, "nerves_fw_platform"), Some("rpi5"));
}

#[test]
fn runtime_device_info_updates_firmware_reverted_alarm() {
    let mut client = LinkClient::new(test_config()).unwrap();
    assert!(!client.alarm_store().is_set(FIRMWARE_REVERTED_ALARM));

    let mut info = provider_info("2.0.0");
    info.runtime_state.firmware_auto_revert_detected = Some(true);

    client.set_device_info(info.copy()).unwrap();
    assert!(client.alarm_store().is_set(FIRMWARE_REVERTED_ALARM));

    info.runtime_state.firmware_auto_revert_detected = Some(false);
    client.set_device_info(info).unwrap();
    assert!(!client.alarm_store().is_set(FIRMWARE_REVERTED_ALARM));
}

#[test]
fn console_backend_announces_default_console_version() {
    let mut config = test_config();
    config.console = Some(ConsoleConfig {
        enabled: Some(true),
        version: None,
        command: None,
        args: None,
        timeout_secs: None,
        rows: None,
        cols: None,
    });
    let client = LinkClient::new(config).unwrap();
    assert!(client.console_enabled());
    assert_eq!(text(&client.join_payload(), "console_version"), Some("2.0.0"));

    let mut plain = LinkClient::new(test_config()).unwrap();
    assert_eq!(text(&plain.join_payload(), "console_version"), None);
    plain.set_console_backend();
    assert_eq!(text(&plain.join_payload(), "console_version"), Some("2.0.0"));
}

#[test]
fn invalid_device_info_is_refused() {
    let mut config = test_config();
    config.serial_number = None;
    assert!(matches!(
        LinkClient::new(config),
        Err(ClientError::Config(ConfigError::Missing("serial_number")))
    ));

    let mut client = LinkClient::new(test_config()).unwrap();
    let mut info = provider_info("1");
    info.firmware.product = String::new();
    assert!(matches!(
        client.set_device_info(info),
        Err(ClientError::DeviceInfo(DeviceInfoError::Missing("firmware.product")))
    ));
    assert_eq!(client.serial(), "test-device-001");

    assert!(matches!(
        client.set_device_info_provider(Err("no source".to_string())),
        Err(ClientError::DeviceInfoProvider(m)) if m == "no source"
    ));
}

#[test]
fn client_errors_are_terminal_only_for_metadata_problems() {
    assert!(ClientError::DeviceInfoProvider("x".to_string()).is_terminal());
    assert!(ClientError::Config(ConfigError::Missing("host")).is_terminal());
    assert!(ClientError::DeviceInfo(DeviceInfoError::Missing("serial_number")).is_terminal());
    assert!(!ClientError::ChannelClosed.is_terminal());
    assert!(!ClientError::Transport(TransportError::Closed).is_terminal());
    assert!(!ClientError::JoinRejected("no".to_string()).is_terminal());
}

#[test]
fn client_error_messages() {
    assert_eq!(
        ClientError::DeviceInfoProvider("missing required field: firmware.version".to_string())
            .message(),
        "device info provider error: missing required field: firmware.version"
    );
    assert_eq!(
        ClientError::Deployment(link::deployment::DeploymentError::Fwup(
            "installer failed".to_string()
        ))
        .message(),
        "deployment error: fwup failed: installer failed"
    );
    assert_eq!(
        ClientError::Transport(TransportError::Write("broken pipe".to_string())).message(),
        "transport error: websocket write failed: broken pipe"
    );
    assert_eq!(ClientError::ChannelClosed.message(), "channel closed");
    assert!(matches!(
        ClientEvent::Disconnected("x".to_string()),
        ClientEvent::Disconnected(_)
    ));
}

#[test]
fn connection_end_prefers_the_task_error() {
    let mut client = LinkClient::new(test_config()).unwrap();
    let (event, result) = client.end_connection(None);
    assert!(matches!(event, ClientEvent::Disconnected(ref r) if r == "connection closed"));
    assert!(result.is_ok());
    assert_eq!(
        client.alarm_store().get("link.disconnected").as_deref(),
        Some("connection closed")
    );

    let (event, result) = client.end_connection(Some(ClientError::Connection("boom".to_string())));
    assert!(matches!(event, ClientEvent::Disconnected(ref r) if r == "connection failed: boom"));
    assert!(matches!(result, Err(ClientError::Connection(ref m)) if m == "boom"));
    assert_eq!(
        client.alarm_store().get("link.disconnected").as_deref(),
        Some("connection failed: boom")
    );
}

#[test]
fn abandoned_deployment_clears_the_update_alarm() {
    let mut client = LinkClient::new(test_config()).unwrap();
    client.begin_deployment();
    assert!(client.alarm_store().is_set("link.update_in_progress"));
    client.abandon_deployment();
    assert!(!client.alarm_store().is_set("link.update_in_progress"));
}

#[test]
fn console_is_joined_only_when_enabled_with_a_backend() {
    let mut client = LinkClient::new(test_config()).unwrap();
    client.disable_console();
    assert!(!client.joins_console(true));
    client.set_console_backend();
    assert!(client.joins_console(true));
    assert!(!client.joins_console(false));
}
