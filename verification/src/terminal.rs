//! The web terminal: what a container prints is shown as HTML, and what
//! the user types is sent to the container's shell.
use vstd::prelude::*;
use vstd::utf8::{decode_utf8, valid_utf8};
use crate::naming::{container_name, spec_container_name};
use crate::text::{append_chars, chars_of, string_of, strings};

verus! {

/// What `strip_ansi_escapes::strip` leaves of `bytes`: the bytes with the
/// ANSI escape sequences taken out.
pub uninterp spec fn ansi_stripped(bytes: Seq<u8>) -> Seq<u8>;

/// `strip_ansi_escapes::strip(bytes)`.
#[verifier::external_body]
pub(crate) fn strip_ansi(bytes: &[u8]) -> (r: Vec<u8>)
    ensures
        r@ == ansi_stripped(bytes@),
{
    strip_ansi_escapes::strip(bytes)
}

/// The text that `String::from_utf8_lossy` reads from `bytes`: invalid
/// sequences become U+FFFD.
pub uninterp spec fn utf8_lossy(bytes: Seq<u8>) -> Seq<char>;

/// `String::from_utf8_lossy(bytes).into_owned()`. Valid UTF-8 is read as
/// it is.
#[verifier::external_body]
pub(crate) fn lossy_text(bytes: &[u8]) -> (r: String)
    ensures
        r@ == utf8_lossy(bytes@),
        valid_utf8(bytes@) ==> r@ == decode_utf8(bytes@),
{
    String::from_utf8_lossy(bytes).into_owned()
}

/// The HTML fragment that appends a piece of terminal output to the page.
pub open spec fn spec_output_fragment(output: Seq<u8>) -> Seq<char> {
    "<pre id=\"data\" hx-swap-oob=\"beforeend\">"@ + utf8_lossy(ansi_stripped(output)) + "</pre> "@
}

pub fn output_fragment(output: &[u8]) -> (r: String)
    ensures
        r@ == spec_output_fragment(output@),
{
    let stripped = strip_ansi(output);
    let text = lossy_text(stripped.as_slice());
    let mut out = chars_of("<pre id=\"data\" hx-swap-oob=\"beforeend\">");
    append_chars(&mut out, text.as_str());
    append_chars(&mut out, "</pre> ");
    string_of(&out)
}

/// The line sent to the shell for a message typed in the terminal.
pub fn input_line(message: &str) -> (r: String)
    ensures
        r@ == message@.push('\n'),
{
    let mut v = chars_of(message);
    v.push('\n');
    string_of(&v)
}

fn own(s: &str) -> (r: String)
    ensures
        r@ == s@,
{
    string_of(&chars_of(s))
}

/// The address of a project's terminal socket.
pub fn ws_path(owner: &str, project: &str) -> (r: String)
    ensures
        r@ == "/"@ + owner@ + "/"@ + project@ + "/terminal/ws"@,
{
    let mut v = chars_of("/");
    append_chars(&mut v, owner);
    append_chars(&mut v, "/");
    append_chars(&mut v, project);
    append_chars(&mut v, "/terminal/ws");
    string_of(&v)
}

/// The shell started in a project's container: `bash`, with a terminal,
/// its input and both outputs attached.
pub struct ExecSpec {
    pub container: String,
    pub cmd: Vec<String>,
    pub tty: bool,
    pub attach_stdin: bool,
    pub attach_stdout: bool,
    pub attach_stderr: bool,
}

pub enum SessionStage {
    Pinging,
    Listening,
    CreatingExec,
    StartingExec,
    Attached,
    Ended,
}

pub enum SessionEvent {
    /// Whether the opening ping could be sent.
    PingSent(bool),
    /// The first thing the client sent: a message, an error (the client
    /// went away), or nothing before the socket closed.
    FirstMessage(Option<Result<(), ()>>),
    /// The id of the created exec, or the error.
    ExecCreated(Result<String, String>),
    /// Whether the exec started attached (rather than detached), or the
    /// error.
    ExecStarted(Result<bool, String>),
}

pub enum SessionAction {
    ReceiveOne,
    CreateExec(ExecSpec),
    StartExec { id: String },
    /// Relay between the socket and the shell.
    Relay,
    End,
}

pub open spec fn session_event_fits(stage: SessionStage, event: SessionEvent) -> bool {
    match stage {
        SessionStage::Pinging => event is PingSent,
        SessionStage::Listening => event is FirstMessage,
        SessionStage::CreatingExec => event is ExecCreated,
        SessionStage::StartingExec => event is ExecStarted,
        _ => false,
    }
}

/// Whether `spec` is the shell of the project `owner`/`project`.
pub open spec fn is_project_shell(spec: ExecSpec, owner: Seq<char>, project: Seq<char>) -> bool {
    &&& spec.container@ == spec_container_name(owner, project)
    &&& strings(spec.cmd@) == seq!["bash"@]
    &&& spec.tty && spec.attach_stdin && spec.attach_stdout && spec.attach_stderr
}

pub open spec fn session_transition(
    owner: Seq<char>,
    project: Seq<char>,
    stage: SessionStage,
    event: SessionEvent,
    r: (SessionStage, SessionAction),
) -> bool {
    match (stage, event) {
        (SessionStage::Pinging, SessionEvent::PingSent(true)) => r.0 is Listening && r.1 is ReceiveOne,
        (SessionStage::Listening, SessionEvent::FirstMessage(Some(Err(_)))) => r.0 is Ended && r.1 is End,
        (SessionStage::Listening, SessionEvent::FirstMessage(_)) => r.0 is CreatingExec && (r.1 matches SessionAction::CreateExec(
            spec,
        ) && is_project_shell(spec, owner, project)),
        (SessionStage::CreatingExec, SessionEvent::ExecCreated(Ok(id))) => r.0 is StartingExec && (r.1 matches SessionAction::StartExec {
            id: i,
        } && i@ == id@),
        (SessionStage::StartingExec, SessionEvent::ExecStarted(Ok(true))) => r.0 is Attached && r.1 is Relay,
        (SessionStage::Attached, _) => false,
        (SessionStage::Ended, _) => false,
        _ => r.0 is Ended && r.1 is End,
    }
}

/// One step of opening a project's terminal: ping the client, read its
/// first message, then create and start a shell in the project's
/// container; any failure ends the session.
pub fn session_step(owner: &str, project: &str, stage: SessionStage, event: SessionEvent) -> (r: (
    SessionStage,
    SessionAction,
))
    requires
        session_event_fits(stage, event),
    ensures
        session_transition(owner@, project@, stage, event, r),
{
    match (stage, event) {
        (SessionStage::Pinging, SessionEvent::PingSent(true)) => (SessionStage::Listening, SessionAction::ReceiveOne),
        (SessionStage::Listening, SessionEvent::FirstMessage(Some(Err(_)))) => (SessionStage::Ended, SessionAction::End),
        (SessionStage::Listening, SessionEvent::FirstMessage(_)) => {
            let mut cmd: Vec<String> = Vec::new();
            cmd.push(own("bash"));
            assert(strings(cmd@) =~= seq!["bash"@]);
            (
                SessionStage::CreatingExec,
                SessionAction::CreateExec(
                    ExecSpec {
                        container: container_name(owner, project),
                        cmd,
                        tty: true,
                        attach_stdin: true,
                        attach_stdout: true,
                        attach_stderr: true,
                    },
                ),
            )
        },
        (SessionStage::CreatingExec, SessionEvent::ExecCreated(Ok(id))) => (
            SessionStage::StartingExec,
            SessionAction::StartExec { id },
        ),
        (SessionStage::StartingExec, SessionEvent::ExecStarted(Ok(true))) => (SessionStage::Attached, SessionAction::Relay),
        _ => (SessionStage::Ended, SessionAction::End),
    }
}

/// What the relay does with a piece of what the shell printed.
pub enum OutputReaction {
    /// Send this HTML fragment to the client.
    Send(String),
    /// Close the socket with the normal close code and this reason.
    Close { code: u16, reason: String },
}

/// The normal close code of a web socket.
pub const CLOSE_NORMAL: u16 = 1000;

/// The relay's answer to what the shell printed: each piece of output is
/// sent as a fragment; an error or the end of the output closes the
/// socket with "Goodbye".
pub fn on_output(chunk: Option<Result<Vec<u8>, String>>) -> (r: OutputReaction)
    ensures
        chunk matches Some(Ok(b)) ==> (r matches OutputReaction::Send(f) && f@ == spec_output_fragment(b@)),
        !(chunk matches Some(Ok(_))) ==> (r matches OutputReaction::Close { code, reason } && code
            == CLOSE_NORMAL && reason@ == "Goodbye"@),
{
    match chunk {
        Some(Ok(bytes)) => OutputReaction::Send(output_fragment(bytes.as_slice())),
        _ => OutputReaction::Close { code: CLOSE_NORMAL, reason: own("Goodbye") },
    }
}

/// A message from the client, as the relay sees it.
pub enum ClientMessage {
    /// A text message, with the `message` field of the request it holds,
    /// or none where it is not such a request.
    Text(Option<String>),
    Close,
    Other,
}

/// What the relay does with a message from the client.
pub enum InputReaction {
    /// Write this line to the shell.
    Write(String),
    Ignore,
    Stop,
}

/// The relay's answer to a message from the client: a request's message
/// is written to the shell as a line; a close stops the relay; anything
/// else, unreadable requests included, is ignored.
pub fn on_client_message(msg: ClientMessage) -> (r: InputReaction)
    ensures
        msg matches ClientMessage::Text(Some(m)) ==> (r matches InputReaction::Write(l) && l@ == m@.push('\n')),
        msg matches ClientMessage::Text(None) ==> r is Ignore,
        msg is Close ==> r is Stop,
        msg is Other ==> r is Ignore,
{
    match msg {
        ClientMessage::Text(Some(m)) => InputReaction::Write(input_line(m.as_str())),
        ClientMessage::Text(None) => InputReaction::Ignore,
        ClientMessage::Close => InputReaction::Stop,
        ClientMessage::Other => InputReaction::Ignore,
    }
}

} // verus!
