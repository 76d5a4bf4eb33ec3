//! The decisions of the project pages and their API: which status each
//! answers with and what it says, and stopping a project.
use vstd::prelude::*;
use crate::naming::{container_name, db_name, spec_container_name};
use crate::accounts::User;
use crate::text::{append_chars, chars_of, string_of};

verus! {

/// Which of a project action's two handlers answers: the HTML form page,
/// or the JSON API.
#[derive(PartialEq, Eq, Structural, Clone, Copy)]
pub enum Route {
    Form,
    Api,
}

/// An answer of a page or API route: its status and its message.
pub struct PageReply {
    pub status: u16,
    pub message: String,
}

pub open spec fn says(r: PageReply, status: u16, message: Seq<char>) -> bool {
    r.status == status && r.message@ == message
}

fn reply(status: u16, prefix: &str, detail: &str) -> (r: PageReply)
    ensures
        says(r, status, prefix@ + detail@),
{
    let mut v = chars_of(prefix);
    append_chars(&mut v, detail);
    PageReply { status, message: string_of(&v) }
}

/// The answer to a failed database query.
pub fn query_failure(error: &str) -> (r: PageReply)
    ensures
        says(r, 500, "Failed to query database: "@ + error@),
{
    reply(500, "Failed to query database: ", error)
}

/// The answer of an API route to the lookup of the project it is about:
/// none where the project exists (the route goes on), 400 where it does
/// not, 500 where the query failed.
pub fn project_lookup_reply(lookup: Result<bool, String>) -> (r: Option<PageReply>)
    ensures
        lookup == Ok::<bool, String>(true) ==> r is None,
        lookup == Ok::<bool, String>(false) ==> (r matches Some(p) && says(p, 400, "Project does not exist"@)),
        lookup matches Err(e) ==> (r matches Some(p) && says(p, 500, "Failed to query database: "@ + e@)),
{
    match lookup {
        Ok(true) => None,
        Ok(false) => {
            proof {
                reveal_strlit("");
            }
            let r = reply(400, "Project does not exist", "");
            assert(r.message@ =~= "Project does not exist"@);
            Some(r)
        },
        Err(e) => Some(query_failure(e.as_str())),
    }
}

/// The answer of the route that reports who is signed in: 403 where
/// nobody is, 400 "User not found" where the signed-in user cannot be
/// loaded, else 200.
pub fn validate_reply(signed_in: bool, user_found: bool) -> (r: PageReply)
    ensures
        !signed_in ==> r.status == 403 && r.message@.len() == 0,
        signed_in && !user_found ==> says(r, 400, "User not found"@),
        signed_in && user_found ==> r.status == 200 && r.message@.len() == 0,
{
    proof {
        reveal_strlit("");
    }
    if !signed_in {
        reply(403, "", "")
    } else if !user_found {
        let r = reply(400, "User not found", "");
        assert(r.message@ =~= "User not found"@);
        r
    } else {
        reply(200, "", "")
    }
}

/// What the signed-in user is told of themself: their id, username and
/// name, and never their password.
pub struct WhoAmI {
    pub id: u128,
    pub username: String,
    pub name: String,
}

/// The answer of the route that reports who is signed in, from whether
/// anyone is signed in and the user that could be loaded: 403 with nothing
/// where nobody is, 400 "User not found" where no user could be loaded,
/// and otherwise that user's id, username and name.
pub fn validate_answer(signed_in: bool, user: Option<User>) -> (r: Result<WhoAmI, PageReply>)
    ensures
        !signed_in ==> (r matches Err(p) && p.status == 403 && p.message@.len() == 0),
        signed_in && user is None ==> (r matches Err(p) && says(p, 400, "User not found"@)),
        signed_in ==> (user matches Some(u) ==> (r matches Ok(w) && w.id == u.id && w.username@
            == u.username@ && w.name@ == u.name@)),
{
    match user {
        Some(u) if signed_in => Ok(WhoAmI { id: u.id, username: u.username, name: u.name }),
        _ => Err(validate_reply(signed_in, false)),
    }
}

/// The most user names suggested at once.
pub const SUGGESTION_LIMIT: usize = 5;

/// The names suggested out of those that match: the first
/// `SUGGESTION_LIMIT` of them, in order.
pub fn first_suggestions(names: Vec<String>) -> (r: Vec<String>)
    ensures
        r@ == names@.take(if names@.len() < SUGGESTION_LIMIT { names@.len() as int } else { SUGGESTION_LIMIT as int }),
{
    let mut out = names;
    if out.len() > SUGGESTION_LIMIT {
        out.truncate(SUGGESTION_LIMIT);
        assert(out@ =~= names@.take(SUGGESTION_LIMIT as int));
    } else {
        assert(out@ =~= names@.take(names@.len() as int));
    }
    out
}

/// Signing out answers with a redirect to the sign-in page.
pub fn logout_redirect() -> (r: (u16, String))
    ensures
        r.0 == 302,
        r.1@ == "/api/login"@,
{
    (302, string_of(&chars_of("/api/login")))
}

/// The pattern that user names are suggested by: those starting with what
/// was typed. Nothing typed is refused.
pub fn suggestion_pattern(typed: &str) -> (r: Option<String>)
    ensures
        typed@.len() == 0 ==> r is None,
        typed@.len() > 0 ==> (r matches Some(p) && p@ == typed@ + "%"@),
{
    if typed.unicode_len() == 0 {
        None
    } else {
        let mut v = chars_of(typed);
        append_chars(&mut v, "%");
        Some(string_of(&v))
    }
}

/// The address of an action on a project, such as `delete` or
/// `volume/delete`.
pub fn project_action_path(owner: &str, project: &str, action: &str) -> (r: String)
    ensures
        r@ == "/"@ + owner@ + "/"@ + project@ + "/"@ + action@,
{
    let mut v = chars_of("/");
    append_chars(&mut v, owner);
    append_chars(&mut v, "/");
    append_chars(&mut v, project);
    append_chars(&mut v, "/");
    append_chars(&mut v, action);
    string_of(&v)
}

/// The note after a build in a project's list of builds, newest first:
/// the first is marked as the latest.
pub fn latest_build_note(index: usize) -> (r: String)
    ensures
        index == 0 ==> r@ == " (LATEST BUILD)"@,
        index != 0 ==> r@.len() == 0,
{
    if index == 0 {
        string_of(&chars_of(" (LATEST BUILD)"))
    } else {
        String::new()
    }
}

/// A frame of a container's log.
pub enum LogFrame {
    StdOut(String),
    StdErr(String),
    Other,
}

/// The text shown of a log frame: what the container wrote to either
/// output; nothing for any other frame.
pub fn log_frame_text(frame: LogFrame) -> (r: String)
    ensures
        frame matches LogFrame::StdOut(t) ==> r@ == t@,
        frame matches LogFrame::StdErr(t) ==> r@ == t@,
        frame is Other ==> r@.len() == 0,
{
    match frame {
        LogFrame::StdOut(t) => t,
        LogFrame::StdErr(t) => t,
        LogFrame::Other => String::new(),
    }
}

// ---------------------------------------------------------------------
// Stopping a project.

pub enum StopStage {
    FindingProject,
    Connecting { project_id: u128 },
    StoppingApp { project_id: u128 },
    StoppingDb { project_id: u128 },
    MarkingStopped,
    Done,
}

pub enum StopEvent {
    /// The project's id, none, or the error of the query.
    Found(Result<Option<u128>, String>),
    /// Whether the Docker daemon could be reached, or the error.
    Done(Result<(), String>),
}

pub enum StopAction {
    ConnectDocker,
    StopContainer { container: String },
    MarkStopped { project_id: u128 },
    /// Answer with this status, the state shown, and this message.
    Answer { status: u16, state: String, message: String },
}

pub open spec fn stop_event_fits(stage: StopStage, event: StopEvent) -> bool {
    match stage {
        StopStage::FindingProject => event is Found,
        StopStage::Done => false,
        _ => event is Done,
    }
}

pub open spec fn answers(a: StopAction, status: u16, state: Seq<char>, message: Seq<char>) -> bool {
    a matches StopAction::Answer { status: s, state: t, message: m } && s == status && t@ == state && m@
        == message
}

pub open spec fn stop_transition(
    owner: Seq<char>,
    project: Seq<char>,
    stage: StopStage,
    event: StopEvent,
    r: (StopStage, StopAction),
) -> bool {
    let c = spec_container_name(owner, project);
    match (stage, event) {
        (StopStage::FindingProject, StopEvent::Found(Ok(Some(id)))) => r.0 == (StopStage::Connecting {
            project_id: id,
        }) && r.1 is ConnectDocker,
        (StopStage::FindingProject, StopEvent::Found(Ok(None))) => r.0 is Done && answers(
            r.1,
            400,
            "Stopped"@,
            "Owner does not exist"@,
        ),
        (StopStage::FindingProject, StopEvent::Found(Err(e))) => r.0 is Done && answers(
            r.1,
            500,
            "Stopped"@,
            "Failed to query database: "@ + e@,
        ),
        (StopStage::Connecting { project_id }, StopEvent::Done(Ok(()))) => r.0 == (
        StopStage::StoppingApp { project_id }) && (r.1 matches StopAction::StopContainer { container }
            && container@ == c),
        (StopStage::Connecting { .. }, StopEvent::Done(Err(e))) => r.0 is Done && answers(
            r.1,
            500,
            "Stopped"@,
            "Failed to connect to docker "@ + e@,
        ),
        (StopStage::StoppingApp { project_id }, StopEvent::Done(Ok(()))) => r.0 == (
        StopStage::StoppingDb { project_id }) && (r.1 matches StopAction::StopContainer { container }
            && container@ == c + "-db"@),
        (StopStage::StoppingApp { .. }, StopEvent::Done(Err(e))) => r.0 is Done && answers(
            r.1,
            500,
            "Stopped"@,
            "Failed to stop container "@ + e@,
        ),
        (StopStage::StoppingDb { project_id }, StopEvent::Done(Ok(()))) => r.0 is MarkingStopped
            && r.1 == (StopAction::MarkStopped { project_id }),
        (StopStage::StoppingDb { .. }, StopEvent::Done(Err(e))) => r.0 is Done && answers(
            r.1,
            500,
            "Stopped"@,
            "Failed to stop db container "@ + e@,
        ),
        (StopStage::MarkingStopped, StopEvent::Done(Ok(()))) => r.0 is Done && answers(
            r.1,
            200,
            "Running"@,
            "Project stopped"@,
        ),
        (StopStage::MarkingStopped, StopEvent::Done(Err(e))) => r.0 is Done && answers(
            r.1,
            500,
            "Stopped"@,
            "Failed to update project state "@ + e@,
        ),
        _ => false,
    }
}

fn answer(status: u16, state: &str, prefix: &str, detail: &str) -> (r: StopAction)
    ensures
        answers(r, status, state@, prefix@ + detail@),
{
    let mut v = chars_of(prefix);
    append_chars(&mut v, detail);
    StopAction::Answer { status, state: string_of(&chars_of(state)), message: string_of(&v) }
}

/// One step of stopping a project: find it among the projects of its
/// owner's members, stop its container and then its database, and record
/// it as stopped. The first failure is answered, with what failed. (The
/// answer to a stop that went through shows the state as running.)
pub fn stop_step(owner: &str, project: &str, stage: StopStage, event: StopEvent) -> (r: (
    StopStage,
    StopAction,
))
    requires
        stop_event_fits(stage, event),
    ensures
        stop_transition(owner@, project@, stage, event, r),
{
    proof {
        reveal_strlit("");
    }
    match stage {
        StopStage::FindingProject => match event {
            StopEvent::Found(Ok(Some(id))) => (StopStage::Connecting { project_id: id }, StopAction::ConnectDocker),
            StopEvent::Found(Ok(None)) => {
                let a = answer(400, "Stopped", "Owner does not exist", "");
                assert("Owner does not exist"@ + ""@ =~= "Owner does not exist"@);
                (StopStage::Done, a)
            },
            StopEvent::Found(Err(e)) => (
                StopStage::Done,
                answer(500, "Stopped", "Failed to query database: ", e.as_str()),
            ),
            _ => (StopStage::Done, StopAction::ConnectDocker),
        },
        StopStage::Connecting { project_id } => match event {
            StopEvent::Done(Ok(())) => (
                StopStage::StoppingApp { project_id },
                StopAction::StopContainer { container: container_name(owner, project) },
            ),
            StopEvent::Done(Err(e)) => (
                StopStage::Done,
                answer(500, "Stopped", "Failed to connect to docker ", e.as_str()),
            ),
            _ => (StopStage::Done, StopAction::ConnectDocker),
        },
        StopStage::StoppingApp { project_id } => match event {
            StopEvent::Done(Ok(())) => {
                let c = container_name(owner, project);
                (StopStage::StoppingDb { project_id }, StopAction::StopContainer { container: db_name(c.as_str()) })
            },
            StopEvent::Done(Err(e)) => (
                StopStage::Done,
                answer(500, "Stopped", "Failed to stop container ", e.as_str()),
            ),
            _ => (StopStage::Done, StopAction::ConnectDocker),
        },
        StopStage::StoppingDb { project_id } => match event {
            StopEvent::Done(Ok(())) => (StopStage::MarkingStopped, StopAction::MarkStopped { project_id }),
            StopEvent::Done(Err(e)) => (
                StopStage::Done,
                answer(500, "Stopped", "Failed to stop db container ", e.as_str()),
            ),
            _ => (StopStage::Done, StopAction::ConnectDocker),
        },
        StopStage::MarkingStopped => match event {
            StopEvent::Done(Ok(())) => {
                let a = answer(200, "Running", "Project stopped", "");
                assert("Project stopped"@ + ""@ =~= "Project stopped"@);
                (StopStage::Done, a)
            },
            StopEvent::Done(Err(e)) => (
                StopStage::Done,
                answer(500, "Stopped", "Failed to update project state ", e.as_str()),
            ),
            _ => (StopStage::Done, StopAction::ConnectDocker),
        },
        StopStage::Done => (StopStage::Done, StopAction::ConnectDocker),
    }
}

/// A project is recorded as stopped only after both its container and its
/// database were stopped; any failure before that answers with an error
/// status.
pub proof fn stopped_only_after_both_containers_stop(
    owner: Seq<char>,
    project: Seq<char>,
    stage: StopStage,
    event: StopEvent,
    r: (StopStage, StopAction),
)
    requires
        stop_event_fits(stage, event),
        stop_transition(owner, project, stage, event, r),
    ensures
        r.1 is MarkStopped ==> stage is StoppingDb && event matches StopEvent::Done(Ok(())),
        (r.1 matches StopAction::Answer { status, .. } && status == 200) ==> stage is MarkingStopped,
        r.0 is StoppingDb ==> stage is StoppingApp,
{
}

} // verus!
