use link::config::{
    AuthConfig, Config, ConfigError, ConsoleConfig, IdentifyConfig, RebootConfig, ScriptsConfig,
};
use link::deployment::installer::FwupInstaller;
use link::device::FirmwareMetadata;
use link::json::JsonValue;
use std::time::Duration;

fn firmware(uuid: &str) -> FirmwareMetadata {
    FirmwareMetadata {
        uuid: uuid.to_string(),
        version: "v".to_string(),
        platform: "p".to_string(),
        architecture: "a".to_string(),
        product: "pr".to_string(),
    }
}

fn shared_secret(key: &str, secret: &str) -> AuthConfig {
    AuthConfig::SharedSecret {
        key: key.to_string(),
        secret: secret.to_string(),
    }
}

fn config(host: &str, serial: Option<&str>, auth: AuthConfig) -> Config {
    Config {
        host: host.to_string(),
        auth,
        serial_number: serial.map(str::to_string),
        fwup_devpath: None,
        fwup_task: None,
        fwup_public_keys: None,
        firmware: Some(firmware("u")),
        heartbeat_interval_secs: None,
        data_dir: None,
        device_api_version: None,
        console_version: None,
        fwup_version: None,
        currently_downloading_uuid: None,
        firmware_validated: None,
        firmware_auto_revert_detected: None,
        join_params: None,
        console: None,
        reboot: None,
        identify: None,
        scripts: None,
    }
}

#[test]
fn parse_mtls_config() {
    let mut config = config(
        "https://fleet.fabric.density.ai/",
        Some("device-1234"),
        AuthConfig::Mtls {
            cert_path: "/etc/link/cert.pem".to_string(),
            key_path: "/etc/link/key.pem".to_string(),
            ca_cert_path: "/etc/link/ca.pem".to_string(),
        },
    );
    config.firmware = Some(FirmwareMetadata {
        uuid: "aaaa-bbbb".to_string(),
        version: "1.0.0".to_string(),
        platform: "rpi4".to_string(),
        architecture: "arm".to_string(),
        product: "my-product".to_string(),
    });
    assert!(config.validate().is_ok());
    assert_eq!(config.host, "https://fleet.fabric.density.ai/");
    assert_eq!(
        config.socket_url(),
        "wss://fleet.fabric.density.ai/socket/websocket?vsn=2.0.0"
    );
    assert!(matches!(config.auth, AuthConfig::Mtls { .. }));
    assert_eq!(config.firmware.unwrap().uuid, "aaaa-bbbb");
}

#[test]
fn parse_shared_secret_config() {
    let config = config(
        "https://fleet.fabric.density.ai/",
        Some("device-1234"),
        shared_secret("my-key", "super-secret"),
    );
    assert!(config.validate().is_ok());
    assert_eq!(
        config.socket_url(),
        "wss://fleet.fabric.density.ai/device-socket/websocket?vsn=2.0.0"
    );
    assert!(matches!(config.auth, AuthConfig::SharedSecret { .. }));
}

#[test]
fn shared_secret_debug_redacts_secret() {
    let auth = AuthConfig::SharedSecret {
        key: "key-1".to_string(),
        secret: "super-secret".to_string(),
    };
    let debug = auth.debug_string();

    assert!(debug.contains("key-1"));
    assert!(debug.contains("<redacted>"));
    assert!(!debug.contains("super-secret"));
}

#[test]
fn http_base_url_converts_to_ws_socket_url() {
    let config = config("http://localhost:4000/", Some("dev-1"), shared_secret("k", "s"));
    assert_eq!(
        config.socket_url(),
        "ws://localhost:4000/device-socket/websocket?vsn=2.0.0"
    );
}

#[test]
fn missing_host_fails() {
    let config = config("", Some("device-1234"), shared_secret("k", "s"));
    assert!(matches!(config.validate(), Err(ConfigError::Missing("host"))));
}

#[test]
fn runtime_identity_can_omit_static_serial() {
    let config = config("example.com", None, shared_secret("k", "s"));
    assert!(config.validate().is_ok());
    assert!(config.serial_number.is_none());
}

#[test]
fn defaults() {
    let config = config("example.com", Some("dev-1"), shared_secret("k", "s"));
    assert_eq!(config.heartbeat_interval_secs(), 30);
    assert_eq!(config.fwup_devpath(), "/dev/mmcblk0");
    assert_eq!(config.fwup_task(), "upgrade");
    assert!(config.fwup_public_keys().is_empty());
    assert_eq!(config.device_api_version(), "2.3.0");
    assert!(!config.reboot_enabled());
    assert!(!config.identify_enabled());
    assert!(!config.scripts_enabled());
    assert_eq!(config.data_dir(), "/tmp/link");
}

#[test]
fn parses_fwup_public_keys() {
    let mut config = config("example.com", Some("dev-1"), shared_secret("k", "s"));
    config.fwup_public_keys = Some(vec!["key-1".to_string(), "key-2".to_string()]);

    assert_eq!(
        config.fwup_public_keys(),
        &["key-1".to_string(), "key-2".to_string()]
    );
}

#[test]
fn host_with_scheme_is_preserved() {
    let config = config("ws://localhost:4000", Some("dev-1"), shared_secret("k", "s"));
    assert_eq!(
        config.socket_url(),
        "ws://localhost:4000/device-socket/websocket?vsn=2.0.0"
    );
}

#[test]
fn device_info_is_config_backed() {
    let mut config = config("example.com", Some("dev-1"), shared_secret("k", "s"));
    config.device_api_version = Some("2.3.0".to_string());
    config.console_version = Some("2.0.0".to_string());
    config.fwup_version = Some("1.12.0".to_string());
    config.firmware_validated = Some(true);

    let info = config.device_info().unwrap();
    let payload = info.join_payload();

    assert_eq!(info.serial_number, "dev-1");
    assert_eq!(
        payload.get("fwup_version").and_then(|v| v.as_str()).map(|s| s.as_str()),
        Some("1.12.0")
    );
    assert_eq!(
        payload.get("console_version").and_then(|v| v.as_str()).map(|s| s.as_str()),
        Some("2.0.0")
    );
    assert_eq!(
        payload
            .get("meta")
            .and_then(|m| m.get("firmware_validated"))
            .and_then(|v| v.as_bool()),
        Some(true)
    );
}

#[test]
fn device_info_requires_static_serial() {
    let config = config("example.com", None, shared_secret("k", "s"));
    let err = config.device_info().unwrap_err();

    assert!(matches!(err, ConfigError::Missing("serial_number")));
}

#[test]
fn device_info_requires_firmware_section() {
    let mut config = config("example.com", Some("dev-1"), shared_secret("k", "s"));
    config.firmware = None;
    assert!(matches!(config.device_info(), Err(ConfigError::Missing("firmware"))));
}

#[test]
fn console_config_is_opt_in() {
    let mut config = config("example.com", Some("dev-1"), shared_secret("k", "s"));
    config.console = Some(ConsoleConfig {
        enabled: Some(true),
        version: Some("2.0.0".to_string()),
        command: Some("/bin/sh".to_string()),
        args: Some(vec!["-l".to_string()]),
        timeout_secs: Some(60),
        rows: Some(30),
        cols: Some(100),
    });
    let console = config.console.as_ref().unwrap();

    assert!(config.console_enabled());
    assert_eq!(config.console_version(), Some("2.0.0"));
    assert_eq!(console.command(), "/bin/sh");
    assert_eq!(console.args(), &["-l".to_string()]);
    assert_eq!(console.timeout_secs(), 60);
    assert_eq!(console.rows(), 30);
    assert_eq!(console.cols(), 100);
    assert_eq!(
        config.device_info().unwrap().console_version.as_deref(),
        Some("2.0.0")
    );
}

#[test]
fn disabled_console_config_does_not_enable_console() {
    let mut config = config("example.com", Some("dev-1"), shared_secret("k", "s"));
    config.console = Some(ConsoleConfig {
        enabled: Some(false),
        version: None,
        command: None,
        args: None,
        timeout_secs: None,
        rows: None,
        cols: None,
    });

    assert!(!config.console_enabled());
    assert_eq!(config.console_version(), None);
}

#[test]
fn reboot_config_is_opt_in() {
    let mut config = config("example.com", Some("dev-1"), shared_secret("k", "s"));
    config.reboot = Some(RebootConfig {
        enabled: Some(true),
        command: Some("/sbin/reboot".to_string()),
        args: Some(vec!["--force".to_string()]),
        after_firmware_apply: Some(false),
        on_server_request: Some(true),
    });
    let reboot = config.reboot.as_ref().unwrap();

    assert!(config.reboot_enabled());
    assert_eq!(reboot.command(), "/sbin/reboot");
    assert_eq!(reboot.args(), &["--force".to_string()]);
    assert!(!reboot.after_firmware_apply());
    assert!(reboot.on_server_request());
}

#[test]
fn identify_config_is_opt_in() {
    let mut config = config("example.com", Some("dev-1"), shared_secret("k", "s"));
    config.identify = Some(IdentifyConfig {
        enabled: Some(true),
        command: Some("/usr/bin/identify-device".to_string()),
        args: Some(vec!["--blink".to_string()]),
    });
    assert!(config.validate().is_ok());
    let identify = config.identify.as_ref().unwrap();

    assert!(config.identify_enabled());
    assert_eq!(identify.command(), Some("/usr/bin/identify-device"));
    assert_eq!(identify.args(), &["--blink".to_string()]);
}

#[test]
fn enabled_identify_config_requires_command() {
    let mut config = config("example.com", Some("dev-1"), shared_secret("k", "s"));
    config.identify = Some(IdentifyConfig {
        enabled: Some(true),
        command: None,
        args: None,
    });
    let err = config.validate().unwrap_err();

    assert!(matches!(err, ConfigError::Missing("identify.command")));
}

#[test]
fn scripts_config_is_opt_in() {
    let mut config = config("example.com", Some("dev-1"), shared_secret("k", "s"));
    config.scripts = Some(ScriptsConfig {
        enabled: Some(true),
        command: Some("/bin/sh".to_string()),
        args: Some(vec!["-s".to_string()]),
        timeout_secs: Some(20),
    });
    assert!(config.validate().is_ok());
    let scripts = config.scripts.as_ref().unwrap();

    assert!(config.scripts_enabled());
    assert_eq!(scripts.command(), Some("/bin/sh"));
    assert_eq!(scripts.args(), &["-s".to_string()]);
    assert_eq!(scripts.timeout(), Duration::from_secs(20));
}

#[test]
fn enabled_scripts_config_requires_command() {
    let mut config = config("example.com", Some("dev-1"), shared_secret("k", "s"));
    config.scripts = Some(ScriptsConfig {
        enabled: Some(true),
        command: Some("   ".to_string()),
        args: None,
        timeout_secs: None,
    });
    let err = config.validate().unwrap_err();

    assert!(matches!(err, ConfigError::Missing("scripts.command")));
}

#[test]
fn bare_host_gets_secure_scheme_and_trailing_slashes_are_dropped() {
    let config = config("  example.com//  ", Some("dev-1"), shared_secret("k", "s"));
    assert_eq!(config.normalized_host(), "wss://example.com");
}

#[test]
fn config_error_messages() {
    assert_eq!(ConfigError::Missing("host").message(), "missing required field: host");
    assert_eq!(
        ConfigError::Parse("bad".to_string()).message(),
        "failed to parse config: bad"
    );
    assert_eq!(
        ConfigError::Io("gone".to_string()).message(),
        "failed to read config file: gone"
    );
}

#[test]
fn join_params_are_carried_into_device_info() {
    let mut config = config("example.com", Some("dev-1"), shared_secret("k", "s"));
    config.join_params = Some(vec![("site".to_string(), JsonValue::Str("lab".to_string()))]);
    let payload = config.device_info().unwrap().join_payload();
    assert_eq!(
        payload.get("site").and_then(|v| v.as_str()).map(|s| s.as_str()),
        Some("lab")
    );
}

#[test]
fn installer_from_config_carries_public_keys() {
    let mut config = config("example.com", Some("dev-1"), shared_secret("k", "s"));
    let installer = FwupInstaller::from_config(&config);
    assert_eq!(installer.devpath(), "/dev/mmcblk0");
    assert_eq!(installer.task(), "upgrade");
    assert!(installer.public_keys().is_empty());

    config.fwup_public_keys = Some(vec!["key-1".to_string(), "key-2".to_string()]);
    config.fwup_task = Some("complete".to_string());
    let installer = FwupInstaller::from_config(&config);
    assert_eq!(installer.task(), "complete");
    assert_eq!(
        installer.public_keys(),
        &["key-1".to_string(), "key-2".to_string()]
    );
}
