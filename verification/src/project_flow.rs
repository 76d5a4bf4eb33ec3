//! Creating a project: its row, its bare repository and its API token.
use vstd::prelude::*;
use vstd::utf8::encode_utf8;
use crate::naming::{project_url, repo_path, spec_project_url, spec_repo_path};
use crate::pages::Route;
use crate::password::{argon2_verifies, new_project_token, token_charset, TOKEN_LENGTH};
use crate::text::{append_chars, chars_of, string_of};
use crate::validation::{spec_project_request_problems, validate_project_request, ProjectField};

verus! {

/// A request to create `project` for the owner group `owner`.
pub struct CreateProjectRequest {
    pub owner: String,
    pub project: String,
}

/// Where the project is created, and by whom.
pub struct CreateContext {
    /// The directory that holds the repositories.
    pub base: String,
    pub domain: String,
    /// Whether the service is reached over HTTPS.
    pub secure: bool,
    /// The signed-in user, who becomes the git user name shown.
    pub username: String,
}

/// The answer to a successful creation.
pub struct CreateProjectResponse {
    pub id: u128,
    pub owner_name: String,
    pub project_name: String,
    /// The address to push to.
    pub domain: String,
    pub git_username: String,
    /// The project's API token, shown this once.
    pub git_password: String,
}

/// An answer that reports a failure: its status, its message, and whether
/// the open transaction is rolled back first.
pub struct Failure {
    pub status: u16,
    pub message: String,
    pub rollback: bool,
}

/// Where a creation stands.
pub enum CreateStage {
    FindOwner,
    CheckProject { owner_id: u128 },
    BeginTransaction { owner_id: u128 },
    InsertProject,
    InitRepo { project_id: u128 },
    InsertToken { project_id: u128, token: String },
    Commit { project_id: u128, token: String },
    Done,
}

/// What came of the step that a creation stage asked for.
pub enum CreateEvent {
    /// The id found by a lookup or made by an insert, none, or the error.
    Id(Result<Option<u128>, String>),
    /// Whether a step went through, or its error.
    Done(Result<(), String>),
}

/// What to do next for a creation.
pub enum CreateAction {
    CheckProject { owner_id: u128 },
    BeginTransaction,
    InsertProject { owner_id: u128 },
    /// Make a bare repository at `path`.
    InitRepo { path: String },
    /// Store the hash of the project's API token.
    InsertToken { project_id: u128, hash: String },
    Commit,
    Fail(Failure),
    Created(CreateProjectResponse),
}

pub open spec fn create_event_fits(stage: CreateStage, event: CreateEvent) -> bool {
    match stage {
        CreateStage::FindOwner => event is Id,
        CreateStage::CheckProject { .. } => event is Id,
        CreateStage::InsertProject => event matches CreateEvent::Id(r) && !(r matches Ok(None)),
        CreateStage::Done => false,
        _ => event is Done,
    }
}

/// Whether `a` fails with `status` and `message`.
pub open spec fn fails(a: CreateAction, status: u16, message: Seq<char>, rollback: bool) -> bool {
    a matches CreateAction::Fail(f) && f.status == status && f.message@ == message && f.rollback
        == rollback
}

/// Whether `a` makes a bare repository at `path`.
pub open spec fn inits_repo_at(a: CreateAction, path: Seq<char>) -> bool {
    a matches CreateAction::InitRepo { path: p } && p@ == path
}

/// Whether `s` stores a fresh API token for `project_id`: 32 characters of
/// the token alphabet.
pub open spec fn holds_new_token(s: CreateStage, project_id: u128) -> bool {
    s matches CreateStage::InsertToken { project_id: p, token } && p == project_id && token@.len()
        == TOKEN_LENGTH && (forall|i: int|
        0 <= i < TOKEN_LENGTH ==> token_charset().contains(#[trigger] token@[i]))
}

/// Whether `a` stores, for `project_id`, a hash that accepts the token
/// that `s` carries.
pub open spec fn stores_hash_of_token(s: CreateStage, a: CreateAction, project_id: u128) -> bool {
    s matches CreateStage::InsertToken { token, .. } && (a matches CreateAction::InsertToken {
        project_id: q,
        hash,
    } && q == project_id && argon2_verifies(hash@, encode_utf8(token@)))
}

/// What a creation of a project that exists already is answered with:
/// the form page says "Project already exist", the API "Project already
/// exists".
pub open spec fn exists_text(route: Route) -> Seq<char> {
    if route == Route::Form { "Project already exist"@ } else { "Project already exists"@ }
}

/// The start of the answer to a failed commit.
pub open spec fn commit_failed_text(route: Route) -> Seq<char> {
    if route == Route::Form { "Failed to commit transaction "@ } else { "Failed to commit transaction: "@ }
}

/// The transitions of a creation, answered by `route`'s handler (the form
/// page shows the push address over plain HTTP).
pub open spec fn create_transition(
    route: Route,
    req: CreateProjectRequest,
    ctx: CreateContext,
    stage: CreateStage,
    event: CreateEvent,
    r: (CreateStage, CreateAction),
) -> bool {
    &&& (r.1 is Fail || r.1 is Created) ==> r.0 is Done
    &&& match stage {
        CreateStage::FindOwner => match event {
            CreateEvent::Id(Ok(Some(o))) => r.0 == (CreateStage::CheckProject { owner_id: o })
                && r.1 == (CreateAction::CheckProject { owner_id: o }),
            CreateEvent::Id(Ok(None)) => fails(r.1, 400, "Owner does not exist"@, false),
            CreateEvent::Id(Err(e)) => fails(r.1, 500, "Failed to query database "@ + e@, false),
            _ => false,
        },
        CreateStage::CheckProject { owner_id } => match event {
            CreateEvent::Id(Ok(None)) => r.0 == (CreateStage::BeginTransaction { owner_id })
                && r.1 is BeginTransaction,
            CreateEvent::Id(Ok(Some(_))) => fails(r.1, 409, exists_text(route), false),
            CreateEvent::Id(Err(e)) => fails(r.1, 500, "Failed to query database "@ + e@, false),
            _ => false,
        },
        CreateStage::BeginTransaction { owner_id } => match event {
            CreateEvent::Done(Ok(_)) => r.0 is InsertProject && r.1 == (CreateAction::InsertProject {
                owner_id,
            }),
            CreateEvent::Done(Err(e)) => fails(r.1, 400, "Failed to begin transaction "@ + e@, false),
            _ => false,
        },
        CreateStage::InsertProject => match event {
            CreateEvent::Id(Ok(Some(p))) => r.0 == (CreateStage::InitRepo { project_id: p })
                && inits_repo_at(r.1, spec_repo_path(ctx.base@, req.owner@, req.project@)),
            CreateEvent::Id(Err(_)) => fails(r.1, 500, "Failed to insert into database"@, true),
            _ => false,
        },
        CreateStage::InitRepo { project_id } => match event {
            CreateEvent::Done(Ok(_)) => holds_new_token(r.0, project_id) && stores_hash_of_token(
                r.0,
                r.1,
                project_id,
            ),
            CreateEvent::Done(Err(e)) => fails(r.1, 500, "Failed to create project: "@ + e@, false),
            _ => false,
        },
        CreateStage::InsertToken { project_id, token } => match event {
            CreateEvent::Done(Ok(_)) => r.0 == (CreateStage::Commit { project_id, token })
                && r.1 is Commit,
            CreateEvent::Done(Err(e)) => fails(r.1, 500, "Failed to insert into database "@ + e@, false),
            _ => false,
        },
        CreateStage::Commit { project_id, token } => match event {
            CreateEvent::Done(Ok(_)) => r.1 matches CreateAction::Created(c) && c.id == project_id
                && c.owner_name@ == req.owner@ && c.project_name@ == req.project@ && c.domain@
                == spec_project_url(ctx.secure && route == Route::Api, ctx.domain@, req.owner@, req.project@)
                && c.git_username@ == ctx.username@ && c.git_password@ == token@,
            CreateEvent::Done(Err(e)) => fails(r.1, 500, commit_failed_text(route) + e@, false),
            _ => false,
        },
        CreateStage::Done => false,
    }
}

fn failure(status: u16, message: Vec<char>, rollback: bool) -> (r: (CreateStage, CreateAction))
    ensures
        r.0 is Done,
        fails(r.1, status, message@, rollback),
{
    (CreateStage::Done, CreateAction::Fail(Failure { status, message: string_of(&message), rollback }))
}

fn text_with(prefix: &str, detail: &str) -> (r: Vec<char>)
    ensures
        r@ == prefix@ + detail@,
{
    let mut v = chars_of(prefix);
    append_chars(&mut v, detail);
    v
}

/// The text that reports the broken rules of a creation, one line per
/// field.
pub open spec fn spec_create_problem_text(problems: Seq<ProjectField>) -> Seq<char>
    decreases problems.len(),
{
    if problems.len() == 0 {
        Seq::empty()
    } else {
        spec_create_problem_text(problems.drop_last()) + match problems.last() {
            ProjectField::Owner => "owner: length is lower than 1\n"@,
            ProjectField::Project => "project: not alphanumeric\n"@,
        }
    }
}

/// How a creation starts: a request that breaks a rule is answered 400
/// with the broken rules; any other goes on to find the owner group.
pub fn create_start(req: &CreateProjectRequest) -> (r: (CreateStage, Option<Failure>))
    ensures
        spec_project_request_problems(req.owner@, req.project@).len() == 0 ==> r.0 is FindOwner
            && r.1 is None,
        spec_project_request_problems(req.owner@, req.project@).len() > 0 ==> (r.0 is Done && (r.1 matches Some(
            f,
        ) && f.status == 400 && f.rollback == false && f.message@ == spec_create_problem_text(
            spec_project_request_problems(req.owner@, req.project@),
        ))),
{
    let problems = validate_project_request(req.owner.as_str(), req.project.as_str());
    if problems.len() == 0 {
        return (CreateStage::FindOwner, None);
    }
    let mut out: Vec<char> = Vec::new();
    let mut i: usize = 0;
    while i < problems.len()
        invariant
            i <= problems@.len(),
            out@ == spec_create_problem_text(problems@.take(i as int)),
        decreases problems.len() - i,
    {
        match problems[i] {
            ProjectField::Owner => append_chars(&mut out, "owner: length is lower than 1\n"),
            ProjectField::Project => append_chars(&mut out, "project: not alphanumeric\n"),
        }
        assert(problems@.take(i + 1).drop_last() =~= problems@.take(i as int));
        i = i + 1;
    }
    assert(problems@.take(problems@.len() as int) =~= problems@);
    (CreateStage::Done, Some(Failure { status: 400, message: string_of(&out), rollback: false }))
}

/// One step of creating a project, answered by `route`'s handler.
pub fn create_step(
    route: Route,
    req: &CreateProjectRequest,
    ctx: &CreateContext,
    stage: CreateStage,
    event: CreateEvent,
) -> (r: (CreateStage, CreateAction))
    requires
        create_event_fits(stage, event),
    ensures
        create_transition(route, *req, *ctx, stage, event, r),
{
    match stage {
        CreateStage::FindOwner => match event {
            CreateEvent::Id(Ok(Some(o))) => (
                CreateStage::CheckProject { owner_id: o },
                CreateAction::CheckProject { owner_id: o },
            ),
            CreateEvent::Id(Ok(None)) => failure(400, chars_of("Owner does not exist"), false),
            CreateEvent::Id(Err(e)) => failure(500, text_with("Failed to query database ", e.as_str()), false),
            _ => (CreateStage::Done, CreateAction::Commit),
        },
        CreateStage::CheckProject { owner_id } => match event {
            CreateEvent::Id(Ok(None)) => (
                CreateStage::BeginTransaction { owner_id },
                CreateAction::BeginTransaction,
            ),
            CreateEvent::Id(Ok(Some(_))) => {
                proof {
                    reveal_strlit("Project already exist");
                    reveal_strlit("Project already exists");
                }
                if route == Route::Form {
                    failure(409, chars_of("Project already exist"), false)
                } else {
                    failure(409, chars_of("Project already exists"), false)
                }
            },
            CreateEvent::Id(Err(e)) => failure(500, text_with("Failed to query database ", e.as_str()), false),
            _ => (CreateStage::Done, CreateAction::Commit),
        },
        CreateStage::BeginTransaction { owner_id } => match event {
            CreateEvent::Done(Ok(_)) => (CreateStage::InsertProject, CreateAction::InsertProject { owner_id }),
            CreateEvent::Done(Err(e)) => failure(400, text_with("Failed to begin transaction ", e.as_str()), false),
            _ => (CreateStage::Done, CreateAction::Commit),
        },
        CreateStage::InsertProject => match event {
            CreateEvent::Id(Ok(Some(p))) => {
                let path = repo_path(ctx.base.as_str(), req.owner.as_str(), req.project.as_str());
                (CreateStage::InitRepo { project_id: p }, CreateAction::InitRepo { path })
            },
            CreateEvent::Id(Err(_)) => failure(500, chars_of("Failed to insert into database"), true),
            _ => (CreateStage::Done, CreateAction::Commit),
        },
        CreateStage::InitRepo { project_id } => match event {
            CreateEvent::Done(Ok(_)) => match new_project_token() {
                Ok((token, hash)) => (
                    CreateStage::InsertToken { project_id, token },
                    CreateAction::InsertToken { project_id, hash },
                ),
                Err(e) => failure(500, text_with("Failed to generate token ", e.as_str()), false),
            },
            CreateEvent::Done(Err(e)) => failure(500, text_with("Failed to create project: ", e.as_str()), false),
            _ => (CreateStage::Done, CreateAction::Commit),
        },
        CreateStage::InsertToken { project_id, token } => match event {
            CreateEvent::Done(Ok(_)) => (CreateStage::Commit { project_id, token }, CreateAction::Commit),
            CreateEvent::Done(Err(e)) => failure(
                500,
                text_with("Failed to insert into database ", e.as_str()),
                false,
            ),
            _ => (CreateStage::Done, CreateAction::Commit),
        },
        CreateStage::Commit { project_id, token } => match event {
            CreateEvent::Done(Ok(_)) => {
                let url = project_url(
                    ctx.secure && route == Route::Api,
                    ctx.domain.as_str(),
                    req.owner.as_str(),
                    req.project.as_str(),
                );
                (
                    CreateStage::Done,
                    CreateAction::Created(
                        CreateProjectResponse {
                            id: project_id,
                            owner_name: req.owner.clone(),
                            project_name: req.project.clone(),
                            domain: url,
                            git_username: ctx.username.clone(),
                            git_password: token,
                        },
                    ),
                )
            },
            CreateEvent::Done(Err(e)) => if route == Route::Form {
                failure(500, text_with("Failed to commit transaction ", e.as_str()), false)
            } else {
                failure(500, text_with("Failed to commit transaction: ", e.as_str()), false)
            },
            _ => (CreateStage::Done, CreateAction::Commit),
        },
        CreateStage::Done => (CreateStage::Done, CreateAction::Commit),
    }
}

/// The token that a project is created with is the one whose hash is
/// stored for it: once the repository is made, a fresh token is always
/// drawn and the hash stored at the token step accepts the token that the
/// creation carries on to its answer.
pub proof fn created_token_matches_stored_hash(
    route: Route,
    req: CreateProjectRequest,
    ctx: CreateContext,
    project_id: u128,
    event: CreateEvent,
    r: (CreateStage, CreateAction),
)
    requires
        create_event_fits(CreateStage::InitRepo { project_id }, event),
        create_transition(route, req, ctx, CreateStage::InitRepo { project_id }, event, r),
    ensures
        event is Done && (event matches CreateEvent::Done(d) && d is Ok) ==> holds_new_token(
            r.0,
            project_id,
        ) && stores_hash_of_token(r.0, r.1, project_id),
        r.1 is InsertToken ==> stores_hash_of_token(r.0, r.1, project_id),
{
}

/// The push address that a creation answers with is served the way the
/// service is: it starts with `http://` wherever the service is not
/// configured secure (and on the form page), and with `https://` only
/// where the service is secure; after the scheme it names the service's
/// domain.
pub proof fn push_address_follows_the_service(
    route: Route,
    req: CreateProjectRequest,
    ctx: CreateContext,
    stage: CreateStage,
    event: CreateEvent,
    r: (CreateStage, CreateAction),
)
    requires
        create_event_fits(stage, event),
        create_transition(route, req, ctx, stage, event, r),
    ensures
        r.1 matches CreateAction::Created(c) ==> {
            &&& (!ctx.secure || route == Route::Form) ==> "http://"@.is_prefix_of(c.domain@)
            &&& "https://"@.is_prefix_of(c.domain@) ==> ctx.secure
            &&& ("http://"@ + ctx.domain@).is_prefix_of(c.domain@) || ("https://"@ + ctx.domain@).is_prefix_of(
                c.domain@,
            )
        },
{
    reveal_strlit("http://");
    reveal_strlit("https://");
    reveal_strlit("http");
    reveal_strlit("https");
    reveal_strlit("://");
    if let CreateAction::Created(c) = r.1 {
        let d = c.domain@;
        let secure = ctx.secure && route == Route::Api;
        assert(d == spec_project_url(secure, ctx.domain@, req.owner@, req.project@));
        let rest = "/"@ + req.owner@ + "/"@ + req.project@;
        if secure {
            assert(d =~= ("https://"@ + ctx.domain@) + rest);
            assert(("https://"@ + ctx.domain@).is_prefix_of(d));
            assert(!"http://"@.is_prefix_of(d)) by {
                assert(d[4] == 's');
            }
        } else {
            assert(d =~= ("http://"@ + ctx.domain@) + rest);
            assert(("http://"@ + ctx.domain@).is_prefix_of(d));
            assert("http://"@.is_prefix_of(d));
            assert(!"https://"@.is_prefix_of(d)) by {
                assert(d[4] == ':');
            }
        }
    }
}

} // verus!
