use link::alarms::{AlarmStore, DISCONNECTED_ALARM};
use link::client::{ClientError, ClientEvent, TransportError};
use link::config::{AuthConfig, Config, ConsoleConfig};
use link::console::{
    console_size_from_payload, ConsoleAction, ConsoleFileReceiver, ConsoleError, ConsoleEvent,
    ConsoleState,
};
use link::extensions::{
    available_extensions_payload, extension_requested, health_report, with_alarms,
    ExtensionsAction, ExtensionsState, HealthCheck, HEALTH_EXTENSION_NAME,
};
use link::identify::IdentifyController;
use link::json::{JsonNumber, JsonValue};
use link::protocol::message::{Channel, Message, RefCounter};
use link::reboot::{RebootController, RebootReason};
use link::session::{
    after_connection, console_timeout_secs, device_actions, heartbeat_period_secs,
    join_reply_result, record_disconnect, record_joined, route, DeviceAction, Route, RunnerStep,
};

fn object(entries: Vec<(&str, JsonValue)>) -> JsonValue {
    JsonValue::Object(entries.into_iter().map(|(k, v)| (k.to_string(), v)).collect())
}

fn text(s: &str) -> JsonValue {
    JsonValue::Str(s.to_string())
}

fn uint(n: u64) -> JsonValue {
    JsonValue::Number(JsonNumber::Unsigned(n))
}

fn message(topic: &str, event: &str, payload: JsonValue) -> Message {
    Message {
        join_ref: None,
        msg_ref: None,
        topic: topic.to_string(),
        event: event.to_string(),
        payload,
    }
}

fn reply(msg_ref: &str, payload: JsonValue) -> Message {
    Message {
        join_ref: Some(msg_ref.to_string()),
        msg_ref: Some(msg_ref.to_string()),
        topic: "extensions".to_string(),
        event: "phx_reply".to_string(),
        payload,
    }
}

fn config() -> Config {
    Config {
        host: "example.com".to_string(),
        auth: AuthConfig::SharedSecret {
            key: "k".to_string(),
            secret: "s".to_string(),
        },
        serial_number: Some("dev".to_string()),
        fwup_devpath: None,
        fwup_task: None,
        fwup_public_keys: None,
        firmware: None,
        heartbeat_interval_secs: None,
        data_dir: None,
        device_api_version: None,
        console_version: None,
        fwup_version: None,
        currently_downloading_uuid: None,
        firmware_validated: None,
        firmware_auto_revert_detected: None,
        join_params: None,
        console: None,
        reboot: None,
        identify: None,
        scripts: None,
    }
}

#[test]
fn extension_request_parser_accepts_common_shapes() {
    assert!(extension_requested(&object(vec![("extensions", text("all"))]), "health"));
    assert!(extension_requested(
        &object(vec![("extensions", JsonValue::Array(vec![text("health")]))]),
        "health"
    ));
    assert!(extension_requested(&object(vec![("health", text("0.0.1"))]), "health"));
    assert!(!extension_requested(
        &object(vec![("extensions", JsonValue::Array(vec![text("geo")]))]),
        "health"
    ));
}

#[test]
fn extension_request_accepts_objects_in_lists() {
    let payload = object(vec![(
        "extensions",
        JsonValue::Array(vec![text("geo"), object(vec![("health", text("0.0.1"))])]),
    )]);
    assert!(extension_requested(&payload, "health"));
    assert!(!extension_requested(&uint(3), "health"));
    assert!(extension_requested(&text("health"), "health"));
}

#[test]
fn available_extensions_offer_health() {
    let payload = available_extensions_payload();
    assert_eq!(
        payload.get(HEALTH_EXTENSION_NAME).and_then(|v| v.as_str()).map(|s| s.as_str()),
        Some("0.0.1")
    );
    let check = HealthCheck::default();
    assert!(!check.pass);
    assert!(check.note.is_empty());
}

#[test]
fn extensions_join_reply_attaches_health_once() {
    let mut refs = RefCounter::new();
    let mut state = ExtensionsState::new();
    let join = state.join(&mut refs);
    assert_eq!(join.topic, "extensions");
    assert_eq!(join.event, "phx_join");

    let ok = reply(
        "1",
        object(vec![
            ("status", text("ok")),
            ("response", object(vec![("health", text("0.0.1"))])),
        ]),
    );
    assert_eq!(
        state.handle_message(&ok),
        vec![
            ExtensionsAction::AnnounceJoined,
            ExtensionsAction::SendHealthAttached,
            ExtensionsAction::ReportHealth
        ]
    );
    assert!(state.health_attached);

    let check = message("extensions", "health:check", object(vec![]));
    assert_eq!(state.handle_message(&check), vec![ExtensionsAction::ReportHealth]);

    let attach = message("extensions", "attach", object(vec![("extensions", text("all"))]));
    assert!(state.handle_message(&attach).is_empty());

    let detach = message("extensions", "detach", object(vec![("extensions", text("health"))]));
    assert_eq!(state.handle_message(&detach), vec![ExtensionsAction::SendHealthDetached]);
    assert!(!state.health_attached);
    assert!(state.handle_message(&check).is_empty());
}

#[test]
fn extensions_ignore_events_before_join_and_foreign_replies() {
    let mut state = ExtensionsState::new();
    let attach = message("extensions", "attach", object(vec![("extensions", text("all"))]));
    assert!(state.handle_message(&attach).is_empty());

    let mut refs = RefCounter::new();
    state.join(&mut refs);
    let other = reply("7", object(vec![("status", text("ok"))]));
    assert!(state.handle_message(&other).is_empty());
    let declined = reply("1", object(vec![("status", text("ok")), ("response", object(vec![]))]));
    assert_eq!(state.handle_message(&declined), vec![ExtensionsAction::AnnounceJoined]);
    assert!(!state.health_attached);
}

#[test]
fn health_report_merges_active_alarms() {
    let mut refs = RefCounter::new();
    let (channel, _) = Channel::join("extensions", JsonValue::Object(Vec::new()), &mut refs);
    let report = object(vec![
        ("timestamp", text("2026-07-02T21:17:26Z")),
        ("alarms", object(vec![("reporter", text("x"))])),
    ]);
    let alarms = vec![("link.test_alarm".to_string(), "test alarm".to_string())];
    let msg = health_report(&channel, report, &alarms, &mut refs);
    assert_eq!(msg.event, "health:report");
    let value = msg.payload.get("value").unwrap();
    let merged = value.get("alarms").unwrap();
    assert_eq!(
        merged.get("link.test_alarm").and_then(|v| v.as_str()).map(|s| s.as_str()),
        Some("test alarm")
    );
    assert_eq!(
        merged.get("reporter").and_then(|v| v.as_str()).map(|s| s.as_str()),
        Some("x")
    );

    let bare = with_alarms(object(vec![]), &alarms);
    assert!(bare.get("alarms").and_then(|a| a.get("link.test_alarm")).is_some());
    assert!(matches!(with_alarms(text("x"), &alarms), JsonValue::Str(_)));
}

#[test]
fn console_size_accepts_console_and_local_shell_shapes() {
    assert_eq!(
        console_size_from_payload(&object(vec![("height", uint(40)), ("width", uint(120))])),
        (40, 120)
    );
    assert_eq!(
        console_size_from_payload(&object(vec![("rows", uint(30)), ("cols", uint(100))])),
        (30, 100)
    );
    assert_eq!(console_size_from_payload(&object(vec![])), (24, 80));
}

#[test]
fn file_receiver_rejects_path_traversal() {
    let receiver = ConsoleFileReceiver::new("/tmp/link".to_string());

    assert!(matches!(
        receiver.target_path("../escape.txt"),
        Err(ConsoleError::InvalidFileName(_))
    ));
    assert!(matches!(
        receiver.target_path("/tmp/escape.txt"),
        Err(ConsoleError::InvalidFileName(_))
    ));
    assert_eq!(receiver.target_path("hello.txt").unwrap(), "/tmp/link/hello.txt");
}

#[test]
fn console_events_have_wire_names() {
    assert_eq!(ConsoleEvent::parse("dn"), Some(ConsoleEvent::Input));
    assert_eq!(ConsoleEvent::parse("file-data/stop"), Some(ConsoleEvent::FileDataStop));
    assert_eq!(ConsoleEvent::WindowSize.as_str(), "window_size");
    assert_eq!(ConsoleEvent::parse("up"), None);
}

#[test]
fn console_input_starts_a_session_and_writes() {
    let mut state = ConsoleState {
        joined: true,
        has_backend: true,
        session_active: false,
    };
    let mut receiver = ConsoleFileReceiver::new("/tmp/link".to_string());
    let input = message("console", "dn", object(vec![("data", text("ping\n"))]));
    let actions = state.handle_message(&input, "1", &mut receiver);
    assert!(matches!(actions[0], ConsoleAction::StartSession));
    assert!(matches!(actions[1], ConsoleAction::ResetDeadline));
    assert!(matches!(&actions[2], ConsoleAction::WriteInput(d) if d == "ping\n"));
    assert!(matches!(actions[3], ConsoleAction::ResetDeadline));
    assert!(state.session_active);

    let again = state.handle_message(&input, "1", &mut receiver);
    assert_eq!(again.len(), 2);

    let timeout = state.on_timeout();
    assert!(matches!(&timeout[0], ConsoleAction::PushText(t) if t.contains("Session timeout")));
    assert!(matches!(timeout[1], ConsoleAction::StopSession));
    assert!(!state.session_active);
}

#[test]
fn console_upload_steps() {
    let mut state = ConsoleState {
        joined: true,
        has_backend: false,
        session_active: false,
    };
    let mut receiver = ConsoleFileReceiver::new("/data".to_string());
    let start = message("console", "file-data/start", object(vec![("filename", text("a.txt"))]));
    let actions = state.handle_message(&start, "1", &mut receiver);
    assert!(matches!(&actions[0], ConsoleAction::CreateUpload(p) if p == "/data/a.txt"));
    receiver.activate("/data/a.txt".to_string());

    let chunk = message("console", "file-data", object(vec![("data", text("aGVsbG8="))]));
    let actions = state.handle_message(&chunk, "1", &mut receiver);
    assert!(matches!(&actions[0], ConsoleAction::AppendUpload(b) if b == b"hello"));

    let stop = message("console", "file-data/stop", object(vec![]));
    let actions = state.handle_message(&stop, "1", &mut receiver);
    assert!(matches!(&actions[0], ConsoleAction::FinishUpload(p) if p == "/data/a.txt"));
    assert!(receiver.active_path.is_none());

    let stray = state.handle_message(&chunk, "1", &mut receiver);
    assert!(matches!(&stray[0], ConsoleAction::PushText(t)
        if t == "\rconsole file upload failed: file transfer error: no active console file upload\r\n"));

    let bad = message("console", "file-data/start", object(vec![("filename", text(".."))]));
    let actions = state.handle_message(&bad, "1", &mut receiver);
    assert!(matches!(&actions[0], ConsoleAction::PushText(t) if t.contains("invalid console file name: ..")));
}

#[test]
fn console_join_reply_is_announced() {
    let mut state = ConsoleState {
        joined: true,
        has_backend: true,
        session_active: false,
    };
    let mut receiver = ConsoleFileReceiver::new("/data".to_string());
    let ok = Message {
        join_ref: Some("2".to_string()),
        msg_ref: Some("2".to_string()),
        topic: "console".to_string(),
        event: "phx_reply".to_string(),
        payload: object(vec![("status", text("ok"))]),
    };
    let actions = state.handle_message(&ok, "2", &mut receiver);
    assert!(matches!(actions[0], ConsoleAction::AnnounceJoined));
    assert!(state.handle_message(&ok, "3", &mut receiver).is_empty());
}

#[test]
fn messages_are_routed_by_topic() {
    assert_eq!(route("extensions"), Route::Extensions);
    assert_eq!(route("console"), Route::Console);
    assert_eq!(route("device"), Route::Device);
    assert_eq!(route("phoenix"), Route::Device);
}

#[test]
fn device_events_set_off_their_actions() {
    let reboot = RebootController::with_rebooter();
    let no_reboot = RebootController::disabled();
    let identify = IdentifyController::with_action();
    let no_identify = IdentifyController::disabled();

    let m = message("device", "reboot", object(vec![]));
    assert_eq!(
        device_actions(&m, &reboot, &identify),
        vec![
            DeviceAction::AnnounceRebootRequested,
            DeviceAction::SendRebooting,
            DeviceAction::Reboot(RebootReason::ServerRequested)
        ]
    );
    assert_eq!(
        device_actions(&m, &no_reboot, &identify),
        vec![DeviceAction::AnnounceRebootRequested]
    );
    let m = message("device", "identify", object(vec![]));
    assert_eq!(
        device_actions(&m, &reboot, &identify),
        vec![DeviceAction::AnnounceIdentifyRequested, DeviceAction::Identify]
    );
    assert_eq!(
        device_actions(&m, &reboot, &no_identify),
        vec![DeviceAction::AnnounceIdentifyRequested]
    );
    let m = message("device", "update", object(vec![]));
    assert_eq!(device_actions(&m, &reboot, &identify), vec![DeviceAction::StartDeployment]);
    let m = message("device", "extensions:get", object(vec![]));
    assert_eq!(device_actions(&m, &reboot, &identify), vec![DeviceAction::JoinExtensions]);
    let m = message("device", "scripts/run", object(vec![]));
    assert_eq!(device_actions(&m, &reboot, &identify), vec![DeviceAction::RunScript]);
    let m = message("device", "phx_close", object(vec![]));
    assert_eq!(device_actions(&m, &reboot, &identify), vec![DeviceAction::Close]);
    let m = message("device", "phx_reply", object(vec![]));
    assert!(device_actions(&m, &reboot, &identify).is_empty());
    let m = message("device", "custom", object(vec![]));
    assert!(device_actions(&m, &reboot, &identify).is_empty());
}

#[test]
fn join_replies_accept_or_reject() {
    let ok = reply("1", object(vec![("status", text("ok"))]));
    assert!(join_reply_result(&ok).is_ok());
    let rejected = reply(
        "1",
        object(vec![
            ("status", text("error")),
            ("response", object(vec![("reason", text("bad serial"))])),
        ]),
    );
    assert!(matches!(join_reply_result(&rejected), Err(ClientError::JoinRejected(r)) if r == "bad serial"));
    let bare = reply("1", object(vec![("status", text("error"))]));
    assert!(matches!(join_reply_result(&bare), Err(ClientError::JoinRejected(r)) if r == "unknown"));
}

#[test]
fn disconnects_set_and_joins_clear_the_alarm() {
    let mut alarms = AlarmStore::new();
    let event = record_disconnect(&mut alarms, "connection closed");
    assert!(matches!(event, ClientEvent::Disconnected(r) if r == "connection closed"));
    assert_eq!(alarms.get(DISCONNECTED_ALARM).as_deref(), Some("connection closed"));
    record_joined(&mut alarms);
    assert!(!alarms.is_set(DISCONNECTED_ALARM));
}

#[test]
fn heartbeat_and_console_timeouts() {
    let mut c = config();
    assert_eq!(heartbeat_period_secs(&c), 30);
    c.heartbeat_interval_secs = Some(0);
    assert_eq!(heartbeat_period_secs(&c), 1);
    c.heartbeat_interval_secs = Some(5);
    assert_eq!(heartbeat_period_secs(&c), 5);
    assert_eq!(console_timeout_secs(&c), 300);
    c.console = Some(ConsoleConfig {
        enabled: Some(true),
        version: None,
        command: None,
        args: None,
        timeout_secs: Some(60),
        rows: None,
        cols: None,
    });
    assert_eq!(console_timeout_secs(&c), 60);
}

#[test]
fn runner_backs_off_and_stops_on_terminal_errors() {
    assert!(matches!(
        after_connection(4, Ok(())),
        RunnerStep::Retry {
            delay_attempt: 0,
            next_attempt: 1
        }
    ));
    assert!(matches!(
        after_connection(2, Err(ClientError::Transport(TransportError::Closed))),
        RunnerStep::Retry {
            delay_attempt: 2,
            next_attempt: 3
        }
    ));
    assert!(matches!(
        after_connection(6, Err(ClientError::ChannelClosed)),
        RunnerStep::Retry {
            delay_attempt: 6,
            next_attempt: 6
        }
    ));
    assert!(matches!(
        after_connection(1, Err(ClientError::DeviceInfoProvider("x".to_string()))),
        RunnerStep::Stop(ClientError::DeviceInfoProvider(_))
    ));
}

#[test]
fn deployment_task_errors_name_the_failure() {
    let error = link::session::deployment_task_error("panicked");
    assert!(matches!(error, ClientError::Connection(ref m) if m == "deployment task failed: panicked"));
    assert_eq!(error.message(), "connection failed: deployment task failed: panicked");
}
