use base64::Engine;
use sha2::Digest;
use link::alarms::{AlarmStore, UPDATE_IN_PROGRESS_ALARM};
use link::deployment::checksum::DownloadTally;
use link::deployment::download::{
    artifact_suffix_from_url, check_download, firmware_file_name, firmware_file_stem,
    partial_file_name, progress_percent, response_outcome, suffix_from_filename, uppercase_hex,
};
use link::deployment::fwup::{fwup_args, fwup_outcome, fwup_spawn_error};
use link::deployment::installer::FwupInstaller;
use link::deployment::report::{
    begin_deployment, closing_reports, finish_deployment, opening_reports, ProgressThrottle,
};
use link::deployment::types::{Deployment, FirmwareMeta};
use link::deployment::DeploymentError;
use link::json::JsonValue;
use link::protocol::events::ProtocolEvent;
use link::reboot::{RebootController, RebootReason};
use link::update::{UpdateError, FwupInstaller as UpdateFwupInstaller};

fn deployment(firmware_url: &str) -> Deployment {
    Deployment {
        update_available: true,
        firmware_url: firmware_url.to_string(),
        firmware_meta: FirmwareMeta {
            uuid: "test-uuid".to_string(),
            version: "1.0.0".to_string(),
            platform: "x86_64".to_string(),
            architecture: "x86_64".to_string(),
            product: "test".to_string(),
            author: None,
            description: None,
            fwup_version: None,
            vcs_identifier: None,
            misc: None,
            extra: Vec::new(),
        },
        size: None,
        checksum: None,
        partials_checksums: None,
        deployment_id: None,
        extra: vec![("custom".to_string(), JsonValue::Bool(true))],
    }
}

fn status_of(payload: &JsonValue) -> Option<String> {
    payload.get("status").and_then(|v| v.as_str()).cloned()
}

#[test]
fn progress_calculation() {
    assert_eq!(progress_percent(0, Some(100)), 0);
    assert_eq!(progress_percent(50, Some(100)), 50);
    assert_eq!(progress_percent(100, Some(100)), 100);
    assert_eq!(progress_percent(200, Some(100)), 100);
    assert_eq!(progress_percent(50, None), 0);
    assert_eq!(progress_percent(50, Some(0)), 0);
}

#[test]
fn firmware_file_stem_is_path_safe() {
    assert_eq!(firmware_file_stem("abc-123"), "firmware-abc-123");
    assert_eq!(firmware_file_stem("../bad uuid"), "firmware-bad_uuid");
    assert_eq!(firmware_file_stem("///"), "firmware-unknown");
}

#[test]
fn artifact_suffix_preserves_known_file_suffixes() {
    assert_eq!(
        artifact_suffix_from_url("https://example.com/releases/artifact.tar.gz?token=abc")
            .as_deref(),
        Some(".tar.gz")
    );
    assert_eq!(
        artifact_suffix_from_url("https://example.com/firmware.fw").as_deref(),
        Some(".fw")
    );
}

#[test]
fn artifact_suffix_reads_nerves_hub_proxy_query() {
    let encoded = base64::engine::general_purpose::URL_SAFE_NO_PAD
        .encode("https://example.com/releases/artifact.tar.zst");
    let proxy_url = format!("https://proxy.example.com/download?firmware={encoded}");

    assert_eq!(
        artifact_suffix_from_url(&proxy_url).as_deref(),
        Some(".tar.zst")
    );
}

#[test]
fn uppercase_hex_encodes_bytes() {
    assert_eq!(uppercase_hex(&[0xab, 0xcd, 0x01]), "ABCD01");
}

#[test]
fn firmware_file_name_uses_artifact_suffix() {
    let mut deployment = deployment("https://example.com/releases/artifact.tar.gz");
    assert_eq!(firmware_file_name(&deployment), "firmware-test-uuid.tar.gz");

    deployment.firmware_url = "https://example.com/download".to_string();
    assert_eq!(firmware_file_name(&deployment), "firmware-test-uuid");
}

#[test]
fn parse_no_update_available() {
    let payload = JsonValue::Object(vec![(
        "update_available".to_string(),
        JsonValue::Bool(false),
    )]);
    let err = Deployment::check_payload(&payload).unwrap_err();

    assert!(matches!(err, DeploymentError::NoUpdateAvailable));
}

#[test]
fn payload_with_update_available_is_accepted() {
    let payload = JsonValue::Object(vec![(
        "update_available".to_string(),
        JsonValue::Bool(true),
    )]);
    assert!(Deployment::check_payload(&payload).is_ok());
    assert!(Deployment::check_payload(&JsonValue::Object(Vec::new())).is_ok());
}

#[test]
fn fwup_args_include_public_keys() {
    let keys = vec!["key-1".to_string(), "key-2".to_string()];
    let args = fwup_args("/tmp/firmware.fw", "/dev/mmcblk0", "upgrade", &keys);

    assert_eq!(
        args,
        vec![
            "-a",
            "-d",
            "/dev/mmcblk0",
            "-i",
            "/tmp/firmware.fw",
            "-t",
            "upgrade",
            "--public-key",
            "key-1",
            "--public-key",
            "key-2",
        ]
    );
}

#[test]
fn fwup_args_omit_public_key_options_without_keys() {
    let args = fwup_args("/tmp/firmware.fw", "/dev/mmcblk0", "upgrade", &[]);

    assert!(!args.iter().any(|arg| arg == "--public-key"));
}

#[test]
fn fwup_installer_stores_public_keys() {
    let installer = FwupInstaller::new("/dev/mmcblk0", "upgrade")
        .with_public_keys(vec!["key-1".to_string(), "key-2".to_string()]);
    assert_eq!(
        installer.public_keys(),
        &["key-1".to_string(), "key-2".to_string()]
    );
}

#[test]
fn download_rejects_size_mismatch() {
    let mut d = deployment("https://example.com/a.fw");
    d.size = Some(10);
    let err = check_download(&d, 9, &[]).unwrap_err();
    assert!(matches!(
        err,
        DeploymentError::SizeMismatch {
            expected: 10,
            actual: 9
        }
    ));
    assert!(check_download(&d, 10, &[]).is_ok());
}

#[test]
fn download_rejects_checksum_mismatch_and_accepts_any_case() {
    let mut d = deployment("https://example.com/a.fw");
    d.checksum = Some("BAD".to_string());
    let err = check_download(&d, 3, &[0xab, 0xcd]).unwrap_err();
    match err {
        DeploymentError::ChecksumMismatch { expected, actual } => {
            assert_eq!(expected, "BAD");
            assert_eq!(actual, "ABCD");
        }
        other => panic!("unexpected {other:?}"),
    }
    d.checksum = Some("  abcd ".to_string());
    assert!(check_download(&d, 3, &[0xab, 0xcd]).is_ok());
    d.checksum = Some("   ".to_string());
    assert!(check_download(&d, 3, &[0x01]).is_ok());
}

#[test]
fn suffix_from_filename_keeps_compound_suffixes() {
    assert_eq!(suffix_from_filename("artifact.tar.gz").as_deref(), Some(".tar.gz"));
    assert_eq!(suffix_from_filename("firmware.fw").as_deref(), Some(".fw"));
    assert_eq!(suffix_from_filename("noext"), None);
}

#[test]
fn progress_throttle_spaces_reports_and_always_reports_full() {
    let mut throttle = ProgressThrottle::new();
    let reported: Vec<u8> = [1u8, 3, 5, 7, 9, 10, 11, 99, 100]
        .iter()
        .filter_map(|pct| throttle.observe(*pct).map(|_| *pct))
        .collect();
    assert_eq!(reported, vec![5, 10, 99, 100]);
    assert!(throttle.observe(100).is_some());
}

#[test]
fn deployment_reports_open_and_close_in_order() {
    let opening = opening_reports();
    assert_eq!(opening.len(), 2);
    assert_eq!(status_of(&opening[0].payload).as_deref(), Some("received"));
    assert_eq!(status_of(&opening[1].payload).as_deref(), Some("started"));

    let closing = closing_reports(&Ok(()), true);
    let events: Vec<ProtocolEvent> = closing.iter().map(|o| o.event).collect();
    assert_eq!(
        events,
        vec![
            ProtocolEvent::FwupProgress,
            ProtocolEvent::StatusUpdate,
            ProtocolEvent::Rebooting
        ]
    );
    assert_eq!(status_of(&closing[1].payload).as_deref(), Some("completed"));

    let failed = closing_reports(&Err(DeploymentError::Fwup("installer failed".to_string())), true);
    assert_eq!(failed.len(), 1);
    assert_eq!(status_of(&failed[0].payload).as_deref(), Some("failed"));
    assert_eq!(
        failed[0].payload.get("reason").and_then(|v| v.as_str()).map(|s| s.as_str()),
        Some("FWUP error: installer failed")
    );
}

#[test]
fn deployment_alarm_is_set_while_running_and_reboot_follows_policy() {
    let mut alarms = AlarmStore::new();
    begin_deployment(&mut alarms);
    assert!(alarms.is_set(UPDATE_IN_PROGRESS_ALARM));

    let closing = finish_deployment(&mut alarms, &Ok(()), &RebootController::with_rebooter());
    assert!(!alarms.is_set(UPDATE_IN_PROGRESS_ALARM));
    assert_eq!(closing.reboot, Some(RebootReason::FirmwareApplied));
    assert_eq!(closing.reports.len(), 3);

    begin_deployment(&mut alarms);
    let closing = finish_deployment(&mut alarms, &Ok(()), &RebootController::disabled());
    assert_eq!(closing.reboot, None);
    assert_eq!(closing.reports.len(), 2);

    begin_deployment(&mut alarms);
    let closing = finish_deployment(
        &mut alarms,
        &Err(DeploymentError::Download("HTTP 404".to_string())),
        &RebootController::with_rebooter(),
    );
    assert_eq!(closing.reboot, None);
    assert!(!alarms.is_set(UPDATE_IN_PROGRESS_ALARM));
}

#[test]
fn deployment_error_texts() {
    let e = DeploymentError::SizeMismatch {
        expected: 10,
        actual: 9,
    };
    assert_eq!(e.message(), "size mismatch: expected 10 bytes, got 9");
    assert_eq!(
        e.status_reason(),
        "Download failed: size mismatch: expected 10 bytes, got 9"
    );
    assert_eq!(
        DeploymentError::Io("disk full".to_string()).status_reason(),
        "Deployment IO error: disk full"
    );
    assert_eq!(
        DeploymentError::Fwup("x".to_string()).message(),
        "fwup failed: x"
    );
}

#[test]
fn fwup_outcome_reports_status_and_trimmed_stderr() {
    assert!(fwup_outcome(true, "exit status: 0", b"ignored").is_ok());
    match fwup_outcome(false, "exit status: 1", b"  bad image \n") {
        Err(DeploymentError::Fwup(m)) => assert_eq!(m, "fwup exit exit status: 1: bad image"),
        other => panic!("unexpected {other:?}"),
    }
    match fwup_spawn_error("not found") {
        DeploymentError::Fwup(m) => assert_eq!(m, "failed to execute fwup: not found"),
        other => panic!("unexpected {other:?}"),
    }
}

#[test]
fn update_error_status_reasons() {
    assert_eq!(
        UpdateError::InvalidMessage("x".to_string()).status_reason(),
        "Invalid update message: x"
    );
    assert_eq!(
        UpdateError::Io("y".to_string()).status_reason(),
        "Update IO error: y"
    );
    let installer = UpdateFwupInstaller::new("/dev/sda", "complete");
    assert_eq!(installer.devpath(), "/dev/sda");
    assert_eq!(installer.task(), "complete");
}

#[test]
fn download_file_names_and_http_status() {
    let d = deployment("https://example.com/releases/artifact.tar.gz");
    assert_eq!(partial_file_name(&d), "firmware-test-uuid.tar.gz.tmp");
    assert!(response_outcome(true, "200 OK").is_ok());
    match response_outcome(false, "404 Not Found") {
        Err(DeploymentError::Download(m)) => assert_eq!(m, "HTTP 404 Not Found"),
        other => panic!("unexpected {other:?}"),
    }
}

#[test]
fn download_tally_rejects_checksum_mismatch() {
    let mut d = deployment("https://example.com/a.fw");
    d.checksum = Some("BAD".to_string());
    let mut tally = DownloadTally::new();
    assert_eq!(tally.absorb(b"artifact "), 9);
    assert_eq!(tally.absorb(b"bytes"), 14);
    assert_eq!(tally.downloaded(), 14);
    let err = tally.finish(&d).unwrap_err();
    assert!(matches!(err, DeploymentError::ChecksumMismatch { .. }));
}

#[test]
fn download_tally_hashes_every_chunk_in_order() {
    let expected: String = sha2::Sha256::digest(b"artifact bytes")
        .iter()
        .map(|b| format!("{b:02x}"))
        .collect();
    let mut d = deployment("https://example.com/a.fw");
    d.size = Some(14);
    d.checksum = Some(expected.clone());
    let mut tally = DownloadTally::new();
    tally.absorb(b"artifact");
    tally.absorb(b"");
    tally.absorb(b" bytes");
    assert!(tally.finish(&d).is_ok());

    let mut reordered = DownloadTally::new();
    reordered.absorb(b" bytes");
    reordered.absorb(b"artifact");
    match reordered.finish(&d).unwrap_err() {
        DeploymentError::ChecksumMismatch { expected: e, actual } => {
            assert_eq!(e, expected);
            assert_eq!(actual.len(), 64);
            assert_ne!(actual.to_lowercase(), expected);
        }
        other => panic!("unexpected {other:?}"),
    }

    d.size = Some(15);
    let mut short = DownloadTally::new();
    short.absorb(b"artifact bytes");
    match short.finish(&d).unwrap_err() {
        DeploymentError::SizeMismatch { expected, actual } => {
            assert_eq!(expected, 15);
            assert_eq!(actual, 14);
        }
        other => panic!("unexpected {other:?}"),
    }
}

#[test]
fn artifact_suffix_follows_nested_proxy_urls() {
    let engine = base64::engine::general_purpose::URL_SAFE_NO_PAD;
    let mut url = "https://example.com/releases/artifact.fw".to_string();
    for _ in 0..10 {
        url = format!("https://proxy.example.com/download?firmware={}", engine.encode(&url));
    }
    assert_eq!(artifact_suffix_from_url(&url).as_deref(), Some(".fw"));
    assert_eq!(artifact_suffix_from_url("not a url"), None);
    assert_eq!(
        artifact_suffix_from_url("https://proxy.example.com/download?firmware=%%%"),
        None
    );
}
