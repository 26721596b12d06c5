//! The remote console: options, file uploads, terminal sizes and the
//! decisions taken for console channel events.
use crate::config::{list_or_empty, text_or, ConsoleConfig};
use crate::json::{as_str, as_u64, get, Json, JsonValue, NumberView};
use crate::protocol::message::{opt_view, reply_status_of, Frame, Message};
use crate::text::{chars_of, concat, copy_strings, owned, str_eq, string_texts};
use vstd::prelude::*;

verus! {

/// Why a console operation failed.
#[derive(Debug)]
pub enum ConsoleError {
    Open(String),
    Spawn(String),
    Read(String),
    Write(String),
    Resize(String),
    Stop(String),
    File(String),
    InvalidFileName(String),
}

/// The `Display` text of a console error.
pub open spec fn console_error_text(e: ConsoleError) -> Seq<char> {
    match e {
        ConsoleError::Open(m) => "failed to open pty: "@ + m@,
        ConsoleError::Spawn(m) => "failed to spawn console command: "@ + m@,
        ConsoleError::Read(m) => "failed to read console output: "@ + m@,
        ConsoleError::Write(m) => "failed to write console input: "@ + m@,
        ConsoleError::Resize(m) => "failed to resize console: "@ + m@,
        ConsoleError::Stop(m) => "failed to stop console: "@ + m@,
        ConsoleError::File(m) => "file transfer error: "@ + m@,
        ConsoleError::InvalidFileName(m) => "invalid console file name: "@ + m@,
    }
}

impl ConsoleError {
    /// The error's message (its `Display` text).
    pub fn message(&self) -> (r: String)
        ensures
            r@ == console_error_text(*self),
    {
        match self {
            ConsoleError::Open(m) => concat("failed to open pty: ", m.as_str()),
            ConsoleError::Spawn(m) => concat("failed to spawn console command: ", m.as_str()),
            ConsoleError::Read(m) => concat("failed to read console output: ", m.as_str()),
            ConsoleError::Write(m) => concat("failed to write console input: ", m.as_str()),
            ConsoleError::Resize(m) => concat("failed to resize console: ", m.as_str()),
            ConsoleError::Stop(m) => concat("failed to stop console: ", m.as_str()),
            ConsoleError::File(m) => concat("file transfer error: ", m.as_str()),
            ConsoleError::InvalidFileName(m) => concat("invalid console file name: ", m.as_str()),
        }
    }
}

/// How the console shell is started.
#[derive(Debug, Clone)]
pub struct ConsoleOptions {
    pub command: String,
    pub args: Vec<String>,
    pub rows: u16,
    pub cols: u16,
}

impl ConsoleOptions {
    /// The options of a `[console]` section.
    pub fn from_config(config: &ConsoleConfig) -> (r: ConsoleOptions)
        ensures
            r.command@ == text_or(config.command, "/bin/sh"@),
            string_texts(r.args@) == string_texts(list_or_empty(config.args)),
            r.rows == (match config.rows {
                Some(n) => if n >= 1 { n } else { 1 },
                None => 24,
            }),
            r.cols == (match config.cols {
                Some(n) => if n >= 1 { n } else { 1 },
                None => 80,
            }),
    {
        ConsoleOptions {
            command: owned(config.command()),
            args: copy_strings(config.args()),
            rows: config.rows(),
            cols: config.cols(),
        }
    }
}

/// A chunk of shell output.
#[derive(Debug, Clone)]
pub struct ConsoleOutput {
    pub data: String,
}

/// The console backend that runs the shell in a pseudo terminal.
#[derive(Debug, Clone)]
pub struct PtyConsoleBackend {
    pub options: ConsoleOptions,
}

impl PtyConsoleBackend {
    /// A backend with the given options.
    pub fn new(options: ConsoleOptions) -> (r: PtyConsoleBackend)
        ensures
            r.options == options,
    {
        PtyConsoleBackend { options }
    }

    /// A backend for a `[console]` section.
    pub fn from_config(config: &ConsoleConfig) -> (r: PtyConsoleBackend)
        ensures
            r.options.command@ == text_or(config.command, "/bin/sh"@),
            string_texts(r.options.args@) == string_texts(list_or_empty(config.args)),
            r.options.rows == (match config.rows {
                Some(n) => if n >= 1 { n } else { 1 },
                None => 24,
            }),
            r.options.cols == (match config.cols {
                Some(n) => if n >= 1 { n } else { 1 },
                None => 80,
            }),
    {
        PtyConsoleBackend::new(ConsoleOptions::from_config(config))
    }
}

/// A file name that names a file directly in the upload directory: not
/// empty, no path separator, and neither `.` nor `..`.
pub open spec fn plain_file_name(f: Seq<char>) -> bool {
    &&& f.len() > 0
    &&& forall|i: int| 0 <= i < f.len() ==> f[i] != '/'
    &&& f != "."@
    &&& f != ".."@
}

/// `PathBuf::join` of a relative name without separators.
pub open spec fn path_join(dir: Seq<char>, name: Seq<char>) -> Seq<char> {
    if dir.len() == 0 {
        name
    } else if dir.last() == '/' {
        dir + name
    } else {
        dir + "/"@ + name
    }
}

/// The path of an uploaded file inside `data_dir`; file names that would
/// leave the directory are refused.
pub fn safe_file_path(data_dir: &str, filename: &str) -> (r: Result<String, ConsoleError>)
    ensures
        r is Ok <==> plain_file_name(filename@),
        r matches Ok(p) ==> p@ == path_join(data_dir@, filename@),
        r matches Err(e) ==> (e matches ConsoleError::InvalidFileName(n) && n@ == filename@),
{
    let v = chars_of(filename);
    let mut i: usize = 0;
    while i < v.len()
        invariant
            i <= v.len(),
            v@ == filename@,
            forall|j: int| 0 <= j < i ==> v@[j] != '/',
        decreases v.len() - i,
    {
        if v[i] == '/' {
            return Err(ConsoleError::InvalidFileName(owned(filename)));
        }
        i = i + 1;
    }
    if v.len() == 0 || str_eq(filename, ".") || str_eq(filename, "..") {
        return Err(ConsoleError::InvalidFileName(owned(filename)));
    }
    let d = chars_of(data_dir);
    if d.len() == 0 {
        Ok(owned(filename))
    } else if d[d.len() - 1] == '/' {
        Ok(concat(data_dir, filename))
    } else {
        let mut p = concat(data_dir, "/");
        p.append(filename);
        Ok(p)
    }
}

/// What standard, padded base64 decoding gives for a text (`None` when the
/// text is not valid base64).
pub uninterp spec fn base64_standard_decode(text: Seq<char>) -> Option<Seq<u8>>;

/// The message of the error that standard base64 decoding reports for a text.
pub uninterp spec fn base64_standard_error(text: Seq<char>) -> Seq<char>;

/// Decodes standard base64 (`base64::engine::general_purpose::STANDARD.decode`);
/// on failure returns the decode error's message.
#[verifier::external_body]
fn decode_standard(text: &str) -> (r: Result<Vec<u8>, String>)
    ensures
        match r {
            Ok(v) => base64_standard_decode(text@) == Some(v@),
            Err(m) => base64_standard_decode(text@) is None && m@ == base64_standard_error(text@),
        },
{
    base64::Engine::decode(&base64::engine::general_purpose::STANDARD, text).map_err(
        |e| e.to_string(),
    )
}

/// Receives a file uploaded through the console into the data directory.
#[derive(Debug)]
pub struct ConsoleFileReceiver {
    pub data_dir: String,
    pub active_path: Option<String>,
}

impl ConsoleFileReceiver {
    /// A receiver for `data_dir`, with no upload in progress.
    pub fn new(data_dir: String) -> (r: ConsoleFileReceiver)
        ensures
            r.data_dir == data_dir,
            r.active_path is None,
    {
        ConsoleFileReceiver { data_dir, active_path: None }
    }

    /// The path at which an upload of `filename` is written.
    pub fn target_path(&self, filename: &str) -> (r: Result<String, ConsoleError>)
        ensures
            r is Ok <==> plain_file_name(filename@),
            r matches Ok(p) ==> p@ == path_join(self.data_dir@, filename@),
            r matches Err(e) ==> (e matches ConsoleError::InvalidFileName(n) && n@ == filename@),
    {
        safe_file_path(self.data_dir.as_str(), filename)
    }

    /// Records `path` as the file that the following chunks go to.
    pub fn activate(&mut self, path: String)
        ensures
            final(self).data_dir == old(self).data_dir,
            final(self).active_path == Some(path),
    {
        self.active_path = Some(path);
    }

    /// Decodes a base64 chunk for the active upload; fails when no upload is
    /// active or the chunk is no valid base64.
    pub fn decode_chunk(&self, data: &str) -> (r: Result<Vec<u8>, ConsoleError>)
        ensures
            r is Ok <==> self.active_path is Some && base64_standard_decode(data@) is Some,
            r matches Ok(v) ==> base64_standard_decode(data@) == Some(v@),
            r matches Err(e) ==> (e matches ConsoleError::File(m) && m@ == if self.active_path is None {
                "no active console file upload"@
            } else {
                base64_standard_error(data@)
            }),
    {
        if self.active_path.is_none() {
            return Err(ConsoleError::File(owned("no active console file upload")));
        }
        match decode_standard(data) {
            Ok(v) => Ok(v),
            Err(m) => Err(ConsoleError::File(m)),
        }
    }

    /// Ends the active upload and returns its path.
    pub fn finish(&mut self) -> (r: Option<String>)
        ensures
            r == old(self).active_path,
            final(self).active_path is None,
            final(self).data_dir == old(self).data_dir,
    {
        let r = self.active_path.take();
        r
    }
}

/// A terminal dimension from a payload: the first of the two keys that is
/// present, as a `u16`, else the default; never below 1.
pub open spec fn dimension(p: Json, primary: Seq<char>, secondary: Seq<char>, default: u16) -> u16 {
    let v = match get(p, primary) {
        Some(v) => Some(v),
        None => get(p, secondary),
    };
    let n: u16 = match v {
        Some(v) => match as_u64(v) {
            Some(n) => if n <= u16::MAX as u64 {
                n as u16
            } else {
                default
            },
            None => default,
        },
        None => default,
    };
    if n >= 1 {
        n
    } else {
        1
    }
}

fn dimension_of(payload: &JsonValue, primary: &str, secondary: &str, default: u16) -> (r: u16)
    ensures
        r == dimension(payload.model(), primary@, secondary@, default),
{
    let v = match payload.get(primary) {
        Some(v) => Some(v),
        None => payload.get(secondary),
    };
    let n: u16 = match v {
        Some(v) => match v.as_u64() {
            Some(n) => if n <= u16::MAX as u64 {
                n as u16
            } else {
                default
            },
            None => default,
        },
        None => default,
    };
    if n >= 1 {
        n
    } else {
        1
    }
}

/// The terminal size in a `window_size` payload: `height`/`width` or
/// `rows`/`cols`, defaulting to 24 by 80.
pub fn console_size_from_payload(payload: &JsonValue) -> (r: (u16, u16))
    ensures
        r == (
            dimension(payload.model(), "height"@, "rows"@, 24),
            dimension(payload.model(), "width"@, "cols"@, 80),
        ),
{
    (dimension_of(payload, "height", "rows", 24), dimension_of(payload, "width", "cols", 80))
}

/// The events of the console channel.
#[derive(Debug, Clone, Copy, PartialEq, Eq, Structural)]
pub enum ConsoleEvent {
    Input,
    WindowSize,
    Restart,
    FileDataStart,
    FileData,
    FileDataStop,
}

/// The wire name of each console event.
pub open spec fn console_event_name(e: ConsoleEvent) -> Seq<char> {
    match e {
        ConsoleEvent::Input => "dn"@,
        ConsoleEvent::WindowSize => "window_size"@,
        ConsoleEvent::Restart => "restart"@,
        ConsoleEvent::FileDataStart => "file-data/start"@,
        ConsoleEvent::FileData => "file-data"@,
        ConsoleEvent::FileDataStop => "file-data/stop"@,
    }
}

impl ConsoleEvent {
    /// The console event whose wire name is `name`.
    pub fn parse(name: &str) -> (r: Option<ConsoleEvent>)
        ensures
            r matches Some(e) ==> console_event_name(e) == name@,
            r is None ==> forall|e: ConsoleEvent| console_event_name(e) != name@,
    {
        if str_eq(name, "dn") {
            Some(ConsoleEvent::Input)
        } else if str_eq(name, "window_size") {
            Some(ConsoleEvent::WindowSize)
        } else if str_eq(name, "restart") {
            Some(ConsoleEvent::Restart)
        } else if str_eq(name, "file-data/start") {
            Some(ConsoleEvent::FileDataStart)
        } else if str_eq(name, "file-data") {
            Some(ConsoleEvent::FileData)
        } else if str_eq(name, "file-data/stop") {
            Some(ConsoleEvent::FileDataStop)
        } else {
            proof {
                assert forall|e: ConsoleEvent| console_event_name(e) != name@ by {
                    match e {
                        ConsoleEvent::Input => {},
                        ConsoleEvent::WindowSize => {},
                        ConsoleEvent::Restart => {},
                        ConsoleEvent::FileDataStart => {},
                        ConsoleEvent::FileData => {},
                        ConsoleEvent::FileDataStop => {},
                    }
                }
            }
            None
        }
    }

    /// The event's wire name.
    pub fn as_str(self) -> (r: &'static str)
        ensures
            r@ == console_event_name(self),
    {
        match self {
            ConsoleEvent::Input => "dn",
            ConsoleEvent::WindowSize => "window_size",
            ConsoleEvent::Restart => "restart",
            ConsoleEvent::FileDataStart => "file-data/start",
            ConsoleEvent::FileData => "file-data",
            ConsoleEvent::FileDataStop => "file-data/stop",
        }
    }
}

/// Text shown before the shell restarts.
pub const RESTART_TEXT: &'static str = "\r*** Restarting shell ***\r";

/// Text shown when the session ends for inactivity.
pub const TIMEOUT_TEXT: &'static str = "\r****************************************\r\n*   Session timeout due to inactivity  *\r\n*                                      *\r\n*   Press any key to continue...       *\r\n****************************************\r\n";

/// What the console side of the client does, in order.
#[derive(Debug)]
pub enum ConsoleAction {
    /// Start a shell session with the backend.
    StartSession,
    /// Stop the shell session.
    StopSession,
    /// Write input to the shell.
    WriteInput(String),
    /// Resize the terminal.
    Resize(u16, u16),
    /// Send text to the server as console output.
    PushText(String),
    /// Restart the inactivity timer.
    ResetDeadline,
    /// Stop the inactivity timer.
    ClearDeadline,
    /// Tell the caller that the console channel was joined.
    AnnounceJoined,
    /// Create (or truncate) the upload file at this path; once created it
    /// becomes the receiver's active upload.
    CreateUpload(String),
    /// Append decoded bytes to the active upload file.
    AppendUpload(Vec<u8>),
    /// The upload to this path is complete.
    FinishUpload(String),
}

/// The mathematical form of a console action.
pub enum ConsoleStep {
    StartSession,
    StopSession,
    WriteInput(Seq<char>),
    Resize(u16, u16),
    PushText(Seq<char>),
    ResetDeadline,
    ClearDeadline,
    AnnounceJoined,
    CreateUpload(Seq<char>),
    AppendUpload(Seq<u8>),
    FinishUpload(Seq<char>),
}

/// The mathematical form of a console action.
pub open spec fn console_step(a: ConsoleAction) -> ConsoleStep {
    match a {
        ConsoleAction::StartSession => ConsoleStep::StartSession,
        ConsoleAction::StopSession => ConsoleStep::StopSession,
        ConsoleAction::WriteInput(s) => ConsoleStep::WriteInput(s@),
        ConsoleAction::Resize(r, c) => ConsoleStep::Resize(r, c),
        ConsoleAction::PushText(s) => ConsoleStep::PushText(s@),
        ConsoleAction::ResetDeadline => ConsoleStep::ResetDeadline,
        ConsoleAction::ClearDeadline => ConsoleStep::ClearDeadline,
        ConsoleAction::AnnounceJoined => ConsoleStep::AnnounceJoined,
        ConsoleAction::CreateUpload(p) => ConsoleStep::CreateUpload(p@),
        ConsoleAction::AppendUpload(b) => ConsoleStep::AppendUpload(b@),
        ConsoleAction::FinishUpload(p) => ConsoleStep::FinishUpload(p@),
    }
}

/// The mathematical form of a list of console actions.
pub open spec fn console_steps(v: Seq<ConsoleAction>) -> Seq<ConsoleStep> {
    v.map_values(|a: ConsoleAction| console_step(a))
}

/// The state that the console decisions depend on.
#[derive(Debug, Clone, Copy)]
pub struct ConsoleState {
    /// The console channel has been joined.
    pub joined: bool,
    /// A console backend is configured.
    pub has_backend: bool,
    /// A shell session is running.
    pub session_active: bool,
}

/// Steps that make sure a session runs: a session is started when none is
/// running and a backend exists.
pub open spec fn ensure_steps(s: ConsoleState) -> Seq<ConsoleStep> {
    if !s.session_active && s.has_backend {
        seq![ConsoleStep::StartSession, ConsoleStep::ResetDeadline]
    } else {
        Seq::empty()
    }
}

/// Whether a session runs after `ensure_steps`.
pub open spec fn running_after_ensure(s: ConsoleState) -> bool {
    s.session_active || s.has_backend
}

/// Steps that stop a running session.
pub open spec fn stop_steps(s: ConsoleState) -> Seq<ConsoleStep> {
    if s.session_active {
        seq![ConsoleStep::StopSession, ConsoleStep::ClearDeadline]
    } else {
        Seq::empty()
    }
}

/// Sending text, which is skipped when the text is empty.
pub open spec fn push_steps(text: Seq<char>) -> Seq<ConsoleStep> {
    if text.len() == 0 {
        Seq::empty()
    } else {
        seq![ConsoleStep::PushText(text)]
    }
}

/// The steps for terminal input: the session is ensured, then the input is
/// written and the timer restarted.
pub open spec fn input_steps(s: ConsoleState, data: Seq<char>) -> Seq<ConsoleStep> {
    if !s.joined {
        Seq::empty()
    } else if running_after_ensure(s) {
        ensure_steps(s) + seq![ConsoleStep::WriteInput(data), ConsoleStep::ResetDeadline]
    } else {
        Seq::empty()
    }
}

/// The steps for a window size change.
pub open spec fn resize_steps(s: ConsoleState, rows: u16, cols: u16) -> Seq<ConsoleStep> {
    if !s.joined {
        Seq::empty()
    } else if running_after_ensure(s) {
        ensure_steps(s) + seq![ConsoleStep::Resize(rows, cols), ConsoleStep::ResetDeadline]
    } else {
        Seq::empty()
    }
}

/// The steps for a restart: stop, announce, start again.
pub open spec fn restart_steps(s: ConsoleState) -> Seq<ConsoleStep> {
    if !s.joined {
        Seq::empty()
    } else {
        stop_steps(s) + push_steps(RESTART_TEXT@) + ensure_steps(
            ConsoleState { session_active: false, ..s },
        )
    }
}

/// The steps for shell output: the timer restarts and the output is sent.
pub open spec fn output_steps(s: ConsoleState, data: Seq<char>) -> Seq<ConsoleStep> {
    if !s.joined {
        Seq::empty()
    } else {
        seq![ConsoleStep::ResetDeadline] + push_steps(data)
    }
}

/// The steps when the inactivity timer runs out.
pub open spec fn timeout_steps(s: ConsoleState) -> Seq<ConsoleStep> {
    (if s.joined {
        push_steps(TIMEOUT_TEXT@)
    } else {
        Seq::empty()
    }) + stop_steps(s)
}

impl ConsoleState {
    fn push_ensure(&self, out: &mut Vec<ConsoleAction>)
        ensures
            console_steps(final(out)@) == console_steps(old(out)@) + ensure_steps(*self),
    {
        if !self.session_active && self.has_backend {
            out.push(ConsoleAction::StartSession);
            out.push(ConsoleAction::ResetDeadline);
        }
        assert(console_steps(out@) =~= console_steps(old(out)@) + ensure_steps(*self));
    }

    fn push_text(out: &mut Vec<ConsoleAction>, text: &str)
        ensures
            console_steps(final(out)@) == console_steps(old(out)@) + push_steps(text@),
    {
        if !text.is_empty() {
            out.push(ConsoleAction::PushText(owned(text)));
        }
        assert(console_steps(out@) =~= console_steps(old(out)@) + push_steps(text@));
    }

    /// Terminal input from the server.
    pub fn on_input(&mut self, data: &str) -> (r: Vec<ConsoleAction>)
        ensures
            console_steps(r@) == input_steps(*old(self), data@),
            final(self).session_active == (old(self).session_active || (old(self).joined
                && old(self).has_backend)),
            final(self).joined == old(self).joined,
            final(self).has_backend == old(self).has_backend,
    {
        let mut out: Vec<ConsoleAction> = Vec::new();
        if self.joined && (self.session_active || self.has_backend) {
            self.push_ensure(&mut out);
            out.push(ConsoleAction::WriteInput(owned(data)));
            out.push(ConsoleAction::ResetDeadline);
            self.session_active = true;
        }
        assert(console_steps(out@) =~= input_steps(*old(self), data@));
        out
    }

    /// A window size change from the server.
    pub fn on_window_size(&mut self, payload: &JsonValue) -> (r: Vec<ConsoleAction>)
        ensures
            console_steps(r@) == resize_steps(
                *old(self),
                dimension(payload.model(), "height"@, "rows"@, 24),
                dimension(payload.model(), "width"@, "cols"@, 80),
            ),
            final(self).session_active == (old(self).session_active || (old(self).joined
                && old(self).has_backend)),
            final(self).joined == old(self).joined,
            final(self).has_backend == old(self).has_backend,
    {
        let (rows, cols) = console_size_from_payload(payload);
        self.on_resize(rows, cols)
    }

    /// A terminal resize to `rows` by `cols`.
    pub fn on_resize(&mut self, rows: u16, cols: u16) -> (r: Vec<ConsoleAction>)
        ensures
            console_steps(r@) == resize_steps(*old(self), rows, cols),
            final(self).session_active == (old(self).session_active || (old(self).joined
                && old(self).has_backend)),
            final(self).joined == old(self).joined,
            final(self).has_backend == old(self).has_backend,
    {
        let mut out: Vec<ConsoleAction> = Vec::new();
        if self.joined && (self.session_active || self.has_backend) {
            self.push_ensure(&mut out);
            out.push(ConsoleAction::Resize(rows, cols));
            out.push(ConsoleAction::ResetDeadline);
            self.session_active = true;
        }
        assert(console_steps(out@) =~= resize_steps(*old(self), rows, cols));
        out
    }

    /// A restart request from the server.
    pub fn on_restart(&mut self) -> (r: Vec<ConsoleAction>)
        ensures
            console_steps(r@) == restart_steps(*old(self)),
            final(self).session_active == (if old(self).joined {
                old(self).has_backend
            } else {
                old(self).session_active
            }),
            final(self).joined == old(self).joined,
            final(self).has_backend == old(self).has_backend,
    {
        let mut out: Vec<ConsoleAction> = Vec::new();
        if self.joined {
            if self.session_active {
                out.push(ConsoleAction::StopSession);
                out.push(ConsoleAction::ClearDeadline);
                self.session_active = false;
            }
            assert(console_steps(out@) =~= stop_steps(*old(self)));
            ConsoleState::push_text(&mut out, RESTART_TEXT);
            self.push_ensure(&mut out);
            if self.has_backend {
                self.session_active = true;
            }
        }
        assert(console_steps(out@) =~= restart_steps(*old(self)));
        out
    }

    /// Shell output to forward to the server.
    pub fn on_output(&self, data: &str) -> (r: Vec<ConsoleAction>)
        ensures
            console_steps(r@) == output_steps(*self, data@),
    {
        let mut out: Vec<ConsoleAction> = Vec::new();
        if self.joined {
            out.push(ConsoleAction::ResetDeadline);
            ConsoleState::push_text(&mut out, data);
        }
        assert(console_steps(out@) =~= output_steps(*self, data@));
        out
    }

    /// The inactivity timer ran out.
    pub fn on_timeout(&mut self) -> (r: Vec<ConsoleAction>)
        ensures
            console_steps(r@) == timeout_steps(*old(self)),
            !final(self).session_active,
            final(self).joined == old(self).joined,
            final(self).has_backend == old(self).has_backend,
    {
        let mut out: Vec<ConsoleAction> = Vec::new();
        if self.joined {
            ConsoleState::push_text(&mut out, TIMEOUT_TEXT);
        }
        if self.session_active {
            out.push(ConsoleAction::StopSession);
            out.push(ConsoleAction::ClearDeadline);
            self.session_active = false;
        }
        assert(console_steps(out@) =~= timeout_steps(*old(self)));
        out
    }
}

/// The text sent when an upload step fails.
pub open spec fn upload_failed_text(e: ConsoleError) -> Seq<char> {
    "\rconsole file upload failed: "@ + console_error_text(e) + "\r\n"@
}

/// The text sent when an upload step fails.
pub fn upload_failed_message(e: &ConsoleError) -> (r: String)
    ensures
        r@ == upload_failed_text(*e),
{
    let mut r = concat("\rconsole file upload failed: ", e.message().as_str());
    r.append("\r\n");
    r
}

/// The target path of a `file-data/start` payload: its `filename` must be
/// present and name a file directly in the data directory.
pub fn upload_target(payload: &JsonValue, receiver: &ConsoleFileReceiver) -> (r: Result<
    String,
    ConsoleError,
>)
    ensures
        match get(payload.model(), "filename"@) {
            Some(v) => match as_str(v) {
                Some(f) => (r is Ok <==> plain_file_name(f)) && (r matches Ok(p) ==> p@ == path_join(
                    receiver.data_dir@,
                    f,
                )) && (r matches Err(e) ==> (e matches ConsoleError::InvalidFileName(n) && n@
                    == f)),
                None => r matches Err(e) && e matches ConsoleError::File(m) && m@
                    == "missing filename"@,
            },
            None => r matches Err(e) && e matches ConsoleError::File(m) && m@ == "missing filename"@,
        },
{
    match payload.get("filename") {
        Some(v) => match v.as_str() {
            Some(f) => receiver.target_path(f.as_str()),
            None => Err(ConsoleError::File(owned("missing filename"))),
        },
        None => Err(ConsoleError::File(owned("missing filename"))),
    }
}

/// The decoded bytes of a `file-data` payload for the active upload.
pub fn upload_chunk(payload: &JsonValue, receiver: &ConsoleFileReceiver) -> (r: Result<
    Vec<u8>,
    ConsoleError,
>)
    ensures
        match get(payload.model(), "data"@) {
            Some(v) => match as_str(v) {
                Some(d) => (r is Ok <==> receiver.active_path is Some && base64_standard_decode(d)
                    is Some) && (r matches Ok(bytes) ==> base64_standard_decode(d) == Some(bytes@))
                    && (r matches Err(e) ==> (e matches ConsoleError::File(m) && m@ == if receiver.active_path is None {
                    "no active console file upload"@
                } else {
                    base64_standard_error(d)
                })),
                None => r matches Err(e) && e matches ConsoleError::File(m) && m@ == "missing data"@,
            },
            None => r matches Err(e) && e matches ConsoleError::File(m) && m@ == "missing data"@,
        },
{
    match payload.get("data") {
        Some(v) => match v.as_str() {
            Some(d) => receiver.decode_chunk(d.as_str()),
            None => Err(ConsoleError::File(owned("missing data"))),
        },
        None => Err(ConsoleError::File(owned("missing data"))),
    }
}

/// The terminal input carried by a `dn` payload: its `data` text, or
/// nothing.
pub open spec fn input_text(p: Json) -> Seq<char> {
    match get(p, "data"@) {
        Some(v) => match as_str(v) {
            Some(d) => d,
            None => Seq::empty(),
        },
        None => Seq::empty(),
    }
}

/// Where a `file-data/start` payload asks to upload: the path, or the text
/// of the error.
pub open spec fn upload_start_of(p: Json, data_dir: Seq<char>) -> Result<Seq<char>, Seq<char>> {
    match get(p, "filename"@) {
        Some(v) => match as_str(v) {
            Some(f) => if plain_file_name(f) {
                Ok(path_join(data_dir, f))
            } else {
                Err("invalid console file name: "@ + f)
            },
            None => Err("file transfer error: "@ + "missing filename"@),
        },
        None => Err("file transfer error: "@ + "missing filename"@),
    }
}

/// The bytes of a `file-data` payload for the upload, or the text of the
/// error.
pub open spec fn upload_chunk_of(p: Json, active: bool) -> Result<Seq<u8>, Seq<char>> {
    match get(p, "data"@) {
        Some(v) => match as_str(v) {
            Some(d) => if !active {
                Err("file transfer error: "@ + "no active console file upload"@)
            } else {
                match base64_standard_decode(d) {
                    Some(b) => Ok(b),
                    None => Err("file transfer error: "@ + base64_standard_error(d)),
                }
            },
            None => Err("file transfer error: "@ + "missing data"@),
        },
        None => Err("file transfer error: "@ + "missing data"@),
    }
}

/// The steps for a failed upload step: the failure is shown on the console.
pub open spec fn upload_failure_steps(error_text: Seq<char>) -> Seq<ConsoleStep> {
    seq![ConsoleStep::PushText("\rconsole file upload failed: "@ + error_text + "\r\n"@)]
}

/// The steps for a message on the console channel, given the reference of
/// the channel's join and the upload receiver.
pub open spec fn console_message_steps(
    s: ConsoleState,
    m: Frame,
    join_ref: Seq<char>,
    data_dir: Seq<char>,
    active: Option<Seq<char>>,
) -> Seq<ConsoleStep> {
    if m.event == "phx_reply"@ {
        if s.joined && m.msg_ref == Some(join_ref) && reply_status_of(m.payload) == Some("ok"@) {
            seq![ConsoleStep::AnnounceJoined]
        } else {
            Seq::empty()
        }
    } else if !s.joined {
        Seq::empty()
    } else if m.event == "dn"@ {
        input_steps(s, input_text(m.payload))
    } else if m.event == "window_size"@ {
        resize_steps(
            s,
            dimension(m.payload, "height"@, "rows"@, 24),
            dimension(m.payload, "width"@, "cols"@, 80),
        )
    } else if m.event == "restart"@ {
        restart_steps(s)
    } else if m.event == "file-data/start"@ {
        match upload_start_of(m.payload, data_dir) {
            Ok(path) => seq![ConsoleStep::CreateUpload(path)],
            Err(e) => upload_failure_steps(e),
        }
    } else if m.event == "file-data"@ {
        match upload_chunk_of(m.payload, active is Some) {
            Ok(bytes) => seq![ConsoleStep::AppendUpload(bytes)],
            Err(e) => upload_failure_steps(e),
        }
    } else if m.event == "file-data/stop"@ {
        match active {
            Some(p) => seq![ConsoleStep::FinishUpload(p)],
            None => Seq::empty(),
        }
    } else {
        Seq::empty()
    }
}

/// A terminal resize on a joined console whose session runs, or can be
/// started, sets the terminal to `rows` rows by `cols` columns, in that
/// order, and then restarts the inactivity timer; it sets no other size.
pub proof fn lemma_resize_rows_then_cols(s: ConsoleState, rows: u16, cols: u16)
    requires
        s.joined,
        s.session_active || s.has_backend,
    ensures
        resize_steps(s, rows, cols).len() >= 2,
        resize_steps(s, rows, cols)[resize_steps(s, rows, cols).len() - 2] == ConsoleStep::Resize(rows, cols),
        resize_steps(s, rows, cols).last() == ConsoleStep::ResetDeadline,
        forall|i: int|
            0 <= i < resize_steps(s, rows, cols).len() && (#[trigger] resize_steps(s, rows, cols)[i]) is Resize
                ==> resize_steps(s, rows, cols)[i] == ConsoleStep::Resize(rows, cols),
{
    let st = resize_steps(s, rows, cols);
    assert forall|i: int| 0 <= i < st.len() && (#[trigger] st[i]) is Resize implies st[i] == ConsoleStep::Resize(rows, cols) by {
        if i < ensure_steps(s).len() {
            assert(st[i] == ensure_steps(s)[i]);
        }
    }
}

/// A `window_size` message that gives the height and width as numbers of
/// rows and columns resizes a joined, running (or startable) console to that
/// height as rows and that width as columns, then restarts the timer.
pub proof fn lemma_window_size_resizes_height_by_width(
    s: ConsoleState,
    m: Frame,
    join_ref: Seq<char>,
    data_dir: Seq<char>,
    active: Option<Seq<char>>,
    height: u64,
    width: u64,
)
    requires
        s.joined,
        s.session_active || s.has_backend,
        m.event == "window_size"@,
        get(m.payload, "height"@) == Some(Json::Number(NumberView::Unsigned(height))),
        get(m.payload, "width"@) == Some(Json::Number(NumberView::Unsigned(width))),
        1 <= height <= u16::MAX,
        1 <= width <= u16::MAX,
    ensures
        console_message_steps(s, m, join_ref, data_dir, active).len() >= 2,
        console_message_steps(s, m, join_ref, data_dir, active)[console_message_steps(
            s,
            m,
            join_ref,
            data_dir,
            active,
        ).len() - 2] == ConsoleStep::Resize(height as u16, width as u16),
        console_message_steps(s, m, join_ref, data_dir, active).last() == ConsoleStep::ResetDeadline,
{
    reveal_strlit("window_size");
    reveal_strlit("phx_reply");
    reveal_strlit("dn");
    assert("window_size"@.len() == 11 && "phx_reply"@.len() == 9 && "dn"@.len() == 2);
    assert(m.event != "phx_reply"@);
    assert(m.event != "dn"@);
    let rows = dimension(m.payload, "height"@, "rows"@, 24);
    let cols = dimension(m.payload, "width"@, "cols"@, 80);
    assert(as_u64(Json::Number(NumberView::Unsigned(height))) == Some(height));
    assert(as_u64(Json::Number(NumberView::Unsigned(width))) == Some(width));
    assert(rows == height as u16);
    assert(cols == width as u16);
    assert(console_message_steps(s, m, join_ref, data_dir, active) == resize_steps(s, rows, cols));
    lemma_resize_rows_then_cols(s, rows, cols);
}

/// The session state after a message on the console channel.
pub open spec fn console_message_state(s: ConsoleState, m: Frame) -> ConsoleState {
    if m.event == "phx_reply"@ || !s.joined {
        s
    } else if m.event == "dn"@ || m.event == "window_size"@ {
        ConsoleState { session_active: s.session_active || s.has_backend, ..s }
    } else if m.event == "restart"@ {
        ConsoleState { session_active: s.has_backend, ..s }
    } else {
        s
    }
}

fn failure_action(out: &mut Vec<ConsoleAction>, e: &ConsoleError)
    ensures
        console_steps(final(out)@) == console_steps(old(out)@) + upload_failure_steps(console_error_text(*e)),
{
    out.push(ConsoleAction::PushText(upload_failed_message(e)));
    assert(console_steps(out@) =~= console_steps(old(out)@) + upload_failure_steps(console_error_text(*e)));
}

fn upload_start_actions(payload: &JsonValue, receiver: &ConsoleFileReceiver) -> (r: Vec<ConsoleAction>)
    ensures
        console_steps(r@) == match upload_start_of(payload.model(), receiver.data_dir@) {
            Ok(path) => seq![ConsoleStep::CreateUpload(path)],
            Err(e) => upload_failure_steps(e),
        },
{
    let mut out: Vec<ConsoleAction> = Vec::new();
    match upload_target(payload, receiver) {
        Ok(path) => {
            assert(upload_start_of(payload.model(), receiver.data_dir@) == Ok::<Seq<char>, Seq<char>>(path@));
            out.push(ConsoleAction::CreateUpload(path));
        },
        Err(e) => {
            assert(upload_start_of(payload.model(), receiver.data_dir@) == Err::<Seq<char>, Seq<char>>(console_error_text(e)));
            failure_action(&mut out, &e);
        },
    }
    assert(console_steps(out@) =~= match upload_start_of(payload.model(), receiver.data_dir@) {
        Ok(path) => seq![ConsoleStep::CreateUpload(path)],
        Err(e) => upload_failure_steps(e),
    });
    out
}

fn upload_chunk_actions(payload: &JsonValue, receiver: &ConsoleFileReceiver) -> (r: Vec<ConsoleAction>)
    ensures
        console_steps(r@) == match upload_chunk_of(payload.model(), receiver.active_path is Some) {
            Ok(bytes) => seq![ConsoleStep::AppendUpload(bytes)],
            Err(e) => upload_failure_steps(e),
        },
{
    let mut out: Vec<ConsoleAction> = Vec::new();
    match upload_chunk(payload, receiver) {
        Ok(bytes) => {
            assert(upload_chunk_of(payload.model(), receiver.active_path is Some) == Ok::<Seq<u8>, Seq<char>>(bytes@));
            out.push(ConsoleAction::AppendUpload(bytes));
        },
        Err(e) => {
            assert(upload_chunk_of(payload.model(), receiver.active_path is Some) == Err::<Seq<u8>, Seq<char>>(console_error_text(e)));
            failure_action(&mut out, &e);
        },
    }
    assert(console_steps(out@) =~= match upload_chunk_of(payload.model(), receiver.active_path is Some) {
        Ok(bytes) => seq![ConsoleStep::AppendUpload(bytes)],
        Err(e) => upload_failure_steps(e),
    });
    out
}

fn upload_stop_actions(receiver: &mut ConsoleFileReceiver) -> (r: Vec<ConsoleAction>)
    ensures
        console_steps(r@) == match opt_view(old(receiver).active_path) {
            Some(p) => seq![ConsoleStep::FinishUpload(p)],
            None => Seq::empty(),
        },
        final(receiver).active_path is None,
        final(receiver).data_dir == old(receiver).data_dir,
{
    let mut out: Vec<ConsoleAction> = Vec::new();
    match receiver.finish() {
        Some(path) => {
            out.push(ConsoleAction::FinishUpload(path));
        },
        None => {},
    }
    assert(console_steps(out@) =~= match opt_view(old(receiver).active_path) {
        Some(p) => seq![ConsoleStep::FinishUpload(p)],
        None => Seq::<ConsoleStep>::empty(),
    });
    out
}

fn reply_actions(s: ConsoleState, msg: &Message, join_ref: &str) -> (r: Vec<ConsoleAction>)
    ensures
        console_steps(r@) == if s.joined && opt_view(msg.msg_ref) == Some(join_ref@) && reply_status_of(
            msg.payload.model(),
        ) == Some("ok"@) {
            seq![ConsoleStep::AnnounceJoined]
        } else {
            Seq::empty()
        },
{
    let mut out: Vec<ConsoleAction> = Vec::new();
    let ours = match &msg.msg_ref {
        Some(m) => str_eq(m.as_str(), join_ref),
        None => false,
    };
    if s.joined && ours && msg.reply_ok() {
        out.push(ConsoleAction::AnnounceJoined);
    }
    assert(console_steps(out@) =~= if s.joined && opt_view(msg.msg_ref) == Some(join_ref@) && reply_status_of(
        msg.payload.model(),
    ) == Some("ok"@) {
        seq![ConsoleStep::AnnounceJoined]
    } else {
        Seq::<ConsoleStep>::empty()
    });
    out
}

fn input_of(payload: &JsonValue) -> (r: String)
    ensures
        r@ == input_text(payload.model()),
{
    match payload.get("data") {
        Some(v) => match v.as_str() {
            Some(d) => d.clone(),
            None => String::new(),
        },
        None => String::new(),
    }
}

impl ConsoleState {
    /// Handles a message on the console channel: a join reply, terminal
    /// input, a resize, a restart, or a step of a file upload.
    #[verifier::rlimit(40)]
    pub fn handle_message(&mut self, msg: &Message, join_ref: &str, receiver: &mut ConsoleFileReceiver) -> (r: Vec<ConsoleAction>)
        ensures
            console_steps(r@) == console_message_steps(
                *old(self),
                msg.model(),
                join_ref@,
                old(receiver).data_dir@,
                opt_view(old(receiver).active_path),
            ),
            *final(self) == console_message_state(*old(self), msg.model()),
            final(receiver).data_dir == old(receiver).data_dir,
            final(receiver).active_path == (if old(self).joined && msg.event@ == "file-data/stop"@ {
                None
            } else {
                old(receiver).active_path
            }),
    {
        proof {
            reveal_strlit("phx_reply");
            reveal_strlit("file-data/stop");
        }
        if msg.is_reply() {
            assert("phx_reply"@.len() == 9);
            assert("file-data/stop"@.len() == 14);
            assert(msg.event@ != "file-data/stop"@);
            return reply_actions(*self, msg, join_ref);
        }
        if !self.joined {
            let out: Vec<ConsoleAction> = Vec::new();
            assert(console_steps(out@) =~= Seq::<ConsoleStep>::empty());
            return out;
        }
        let event = msg.event.as_str();
        proof {
            reveal_strlit("phx_reply");
            reveal_strlit("dn");
            reveal_strlit("window_size");
            reveal_strlit("restart");
            reveal_strlit("file-data/start");
            reveal_strlit("file-data");
            reveal_strlit("file-data/stop");
            assert("dn"@.len() == 2);
            assert("window_size"@.len() == 11);
            assert("restart"@.len() == 7);
            assert("file-data/start"@.len() == 15);
            assert("file-data"@.len() == 9);
            assert("file-data/stop"@.len() == 14);
        }
        if str_eq(event, "dn") {
            let data = input_of(&msg.payload);
            self.on_input(data.as_str())
        } else if str_eq(event, "window_size") {
            self.on_window_size(&msg.payload)
        } else if str_eq(event, "restart") {
            self.on_restart()
        } else if str_eq(event, "file-data/start") {
            upload_start_actions(&msg.payload, receiver)
        } else if str_eq(event, "file-data") {
            upload_chunk_actions(&msg.payload, receiver)
        } else if str_eq(event, "file-data/stop") {
            upload_stop_actions(receiver)
        } else {
            let out: Vec<ConsoleAction> = Vec::new();
            assert(console_steps(out@) =~= Seq::<ConsoleStep>::empty());
            out
        }
    }
}

/// A shell session runs only when a backend is installed: no console
/// message, output or timeout starts one without a backend, and a timeout
/// always ends it.
pub proof fn lemma_session_needs_backend(s: ConsoleState, m: Frame)
    requires
        s.session_active ==> s.has_backend,
    ensures
        console_message_state(s, m).session_active ==> console_message_state(s, m).has_backend,
        console_message_state(s, m).has_backend == s.has_backend,
        console_message_state(s, m).joined == s.joined,
{
}

/// A running shell session that the console feeds and resizes.
pub trait ConsoleSession {
    /// Writes terminal input to the shell.
    fn write_input(&mut self, data: &str) -> Result<(), ConsoleError>;

    /// Resizes the terminal.
    fn resize(&mut self, rows: u16, cols: u16) -> Result<(), ConsoleError>;

    /// Ends the shell.
    fn stop(&mut self) -> Result<(), ConsoleError>;
}

} // verus!
