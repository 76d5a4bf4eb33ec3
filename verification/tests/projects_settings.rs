use pemasak_infra::configuration::{
    pick_address, setting_defaults, ApplicationSettings, AuthSettings, BuilderSettings, ConfigValue,
    DatabaseSettings, GitSettings, Settings,
};
use pemasak_infra::deletion::{
    all_deleted, container_report, delete_start, delete_step, may_delete, project_report,
    repo_report, resource_report, volume_deletion, DeleteAction, DeleteEvent, Deletion, Part,
    ProjectRow, Resource,
};
use pemasak_infra::membership::{
    invite_start, invite_step, owner_start, owner_step, removal_after_membership_check, removal_check, Membership,
    removal_answer, InsertError, InviteAction, InviteEvent, InviteStage, OwnerAction, OwnerStage,
};
use pemasak_infra::pages::{
    Route, latest_build_note, log_frame_text, logout_redirect, project_action_path, project_lookup_reply,
    query_failure, stop_step, suggestion_pattern, validate_reply, LogFrame, StopAction, StopEvent,
    StopStage,
};
use pemasak_infra::project_flow::{
    create_start, create_step, CreateAction, CreateContext, CreateEvent, CreateProjectRequest,
    CreateStage,
};
use pemasak_infra::telemetry::{max_level, LevelHint, LogLevel, LogRecorder, StdioLock};
use pemasak_infra::terminal::{
    input_line, on_client_message, on_output, output_fragment, session_step, ws_path,
    ClientMessage, InputReaction, OutputReaction, SessionAction, SessionEvent, SessionStage,
};

fn settings(bodylimit: &str, lifespan: i64) -> Settings {
    Settings {
        database: DatabaseSettings {
            user: "postgres".into(),
            password: "pw".into(),
            host: "db".into(),
            port: 5432,
            name: "pws".into(),
            timeout: 20,
        },
        application: ApplicationSettings {
            port: 8080,
            host: "0.0.0.0".into(),
            domain: "pws.example".into(),
            hostip: "10.0.0.1".into(),
            bodylimit: bodylimit.into(),
            ipv6: false,
            secure: true,
            idle: 30,
        },
        git: GitSettings { base: "./git-repo".into(), auth: true },
        auth: AuthSettings {
            sso: false,
            register: true,
            lifespan,
            cookiename: "session".into(),
            maxage: 365,
            httponly: true,
            secure: false,
            maxlifespan: 365,
        },
        build: BuilderSettings { max: 2, timeout: 120000 },
    }
}

fn answer_of(a: StopAction) -> (u16, String, String) {
    match a {
        StopAction::Answer { status, state, message } => (status, state, message),
        _ => panic!("expected an answer"),
    }
}

#[test]
fn settings_derive_addresses_and_limits() {
    let s = settings("25mib", 168);
    assert_eq!(s.address_string(), "0.0.0.0:8080");
    assert_eq!(s.domain(), "pws.example");
    assert_eq!(s.body_limit(), 26214400);
    assert_eq!(settings("1kb", 1).body_limit(), 1000);
    assert_eq!(settings("2 MiB", 1).body_limit(), 2097152);
    assert_eq!(settings("not a size", 1).body_limit(), 26214400);
    assert_eq!(s.address(&vec![true, false, false]), Some(1));
    assert_eq!(s.address(&vec![true, true]), Some(0));
    assert_eq!(s.address(&vec![]), None);
    assert_eq!(pick_address(&vec![false, true, true], true), Some(1));
    let c = s.connection_options();
    assert_eq!((c.host.as_str(), c.port, c.username.as_str(), c.password.as_str(), c.database.as_str()), ("db", 5432, "postgres", "pw", "pws"));
}

#[test]
fn session_spans_in_seconds() {
    let p = settings("25mib", 168).session_config().unwrap();
    assert_eq!(p.lifetime_secs, 168 * 3600);
    assert_eq!(p.max_age_secs, 365 * 86400);
    assert_eq!(p.max_lifetime_secs, 365 * 86400);
    assert_eq!(p.cookie_name, "session");
    assert!(p.http_only && !p.secure);
    assert!(settings("25mib", i64::MAX).session_config().is_none());
}

#[test]
fn defaults_of_the_settings() {
    let d = setting_defaults(Some(8));
    assert_eq!(d.len(), 27);
    assert_eq!(d[0].0, "application.port");
    assert!(matches!(d[0].1, ConfigValue::Int(8080)));
    assert!(matches!(d[4].1, ConfigValue::Str(ref s) if s == "25mib"));
    assert_eq!(d[18].0, "auth.lifespan");
    assert!(matches!(d[18].1, ConfigValue::Int(168)));
    assert_eq!(d[25].0, "builder.max");
    assert!(matches!(d[25].1, ConfigValue::Int(7)));
    assert!(matches!(setting_defaults(None)[25].1, ConfigValue::Int(2)));
    assert!(matches!(d[15].1, ConfigValue::Bool(true)));
}

#[test]
fn log_levels_pick_the_stream() {
    let r = LogRecorder::new();
    assert!(r.make_writer_for(LogLevel::Error) == StdioLock::Stderr);
    assert!(r.make_writer_for(LogLevel::Warn) == StdioLock::Stderr);
    assert!(r.make_writer_for(LogLevel::Info) == StdioLock::Stdout);
    assert!(r.make_writer_for(LogLevel::Trace) == StdioLock::Stdout);
    assert!(r.make_writer() == StdioLock::Stdout);
    assert!(max_level(Some(LevelHint::Debug)) == Some(LogLevel::Debug));
    assert!(max_level(Some(LevelHint::Off)).is_none());
    assert!(max_level(None).is_none());
}

#[test]
fn project_creation_flow() {
    let req = CreateProjectRequest { owner: "alice".into(), project: "site".into() };
    let ctx = CreateContext { base: "/b".into(), domain: "pws.example".into(), secure: true, username: "alice".into() };
    let (s, f) = create_start(&req);
    assert!(f.is_none());
    let (s, a) = create_step(Route::Api, &req, &ctx, s, CreateEvent::Id(Ok(Some(1))));
    assert!(matches!(a, CreateAction::CheckProject { owner_id: 1 }));
    let (s, a) = create_step(Route::Api, &req, &ctx, s, CreateEvent::Id(Ok(None)));
    assert!(matches!(a, CreateAction::BeginTransaction));
    let (s, a) = create_step(Route::Api, &req, &ctx, s, CreateEvent::Done(Ok(())));
    assert!(matches!(a, CreateAction::InsertProject { owner_id: 1 }));
    let (s, a) = create_step(Route::Api, &req, &ctx, s, CreateEvent::Id(Ok(Some(42))));
    assert!(matches!(a, CreateAction::InitRepo { ref path } if path == "/b/alice/site.git"));
    let (s, a) = create_step(Route::Api, &req, &ctx, s, CreateEvent::Done(Ok(())));
    let token = match (&s, a) {
        (CreateStage::InsertToken { project_id: 42, token }, CreateAction::InsertToken { project_id: 42, hash }) => {
            assert!(hash.starts_with("$argon2"));
            token.clone()
        }
        _ => panic!("expected the token's hash to be stored"),
    };
    let (s, a) = create_step(Route::Api, &req, &ctx, s, CreateEvent::Done(Ok(())));
    assert!(matches!(a, CreateAction::Commit));
    let (_, a) = create_step(Route::Api, &req, &ctx, s, CreateEvent::Done(Ok(())));
    match a {
        CreateAction::Created(c) => {
            assert_eq!(c.id, 42);
            assert_eq!(c.owner_name, "alice");
            assert_eq!(c.project_name, "site");
            assert_eq!(c.domain, "https://pws.example/alice/site");
            assert_eq!(c.git_username, "alice");
            assert_eq!(c.git_password, token);
        }
        _ => panic!("expected the project to be created"),
    }
}

#[test]
fn project_creation_refusals() {
    let bad = CreateProjectRequest { owner: "".into(), project: "my site".into() };
    let (_, f) = create_start(&bad);
    let f = f.unwrap();
    assert_eq!(f.status, 400);
    assert_eq!(f.message, "owner: length is lower than 1\nproject: not alphanumeric\n");
    let req = CreateProjectRequest { owner: "alice".into(), project: "site".into() };
    let ctx = CreateContext { base: "/b".into(), domain: "d".into(), secure: false, username: "u".into() };
    let (_, a) = create_step(Route::Api, &req, &ctx, CreateStage::FindOwner, CreateEvent::Id(Ok(None)));
    assert!(matches!(a, CreateAction::Fail(ref f) if f.status == 400 && f.message == "Owner does not exist"));
    let (_, a) = create_step(Route::Api, &req, &ctx, CreateStage::CheckProject { owner_id: 1 }, CreateEvent::Id(Ok(Some(3))));
    assert!(matches!(a, CreateAction::Fail(ref f) if f.status == 409 && f.message == "Project already exists"));
    let (_, a) = create_step(Route::Api, &req, &ctx, CreateStage::InsertProject, CreateEvent::Id(Err("dup".into())));
    assert!(matches!(a, CreateAction::Fail(ref f) if f.status == 500 && f.rollback));
}

#[test]
fn invitations() {
    assert!(invite_start(None, Some("bob")).is_err());
    let s = invite_start(Some(1), Some("bob")).ok().unwrap();
    let (s, a) = invite_step(s, InviteEvent::Found(Ok(Some(1))));
    assert!(matches!(a, InviteAction::FindUser { ref username } if username == "bob"));
    let (s, a) = invite_step(s, InviteEvent::Found(Ok(Some(9))));
    assert!(matches!(a, InviteAction::BeginTransaction));
    let (s, a) = invite_step(s, InviteEvent::Done(Ok(())));
    assert!(matches!(a, InviteAction::Insert { user_id: 9, owner_id: 1 }));
    let (s, a) = invite_step(s, InviteEvent::Inserted(Ok(())));
    assert!(matches!(a, InviteAction::Commit));
    let (_, a) = invite_step(s, InviteEvent::Done(Ok(())));
    assert!(matches!(a, InviteAction::Answer(ref x) if x.status == 204));
    let (_, a) = invite_step(
        InviteStage::CheckMembership { owner_id: 1, username: "bob".into() },
        InviteEvent::Found(Ok(None)),
    );
    assert!(matches!(a, InviteAction::Answer(ref x) if x.status == 401));
    let (_, a) = invite_step(
        InviteStage::Insert,
        InviteEvent::Inserted(Err(InsertError { message: "e".into(), constraint: Some("users_owners_pkey".into()) })),
    );
    assert!(matches!(a, InviteAction::Answer(ref x) if x.status == 400 && x.message == "User is already in the owner group" && x.rollback));
    let (_, a) = invite_step(
        InviteStage::FindUser { owner_id: 1, username: "zed".into() },
        InviteEvent::Found(Ok(None)),
    );
    assert!(matches!(a, InviteAction::Answer(ref x) if x.message == "User not found with username zed"));
    assert!(removal_check(5, 3) == Membership { user_id: 5, owner_id: 3 });
    assert!(removal_after_membership_check(Ok(true), 3, 4).ok() == Some(Membership { user_id: 4, owner_id: 3 }));
    assert_eq!(removal_after_membership_check(Ok(false), 3, 4).err().unwrap().status, 401);
    assert_eq!(removal_after_membership_check(Err("down".into()), 3, 4).err().unwrap().status, 500);
    assert_eq!(removal_answer(true).status, 204);
    assert_eq!(removal_answer(false).message, "Failed to remove owner group member");
}

#[test]
fn owner_groups() {
    assert!(owner_start(&"x".repeat(129)).is_err());
    let s = owner_start("team").ok().unwrap();
    let (s, a) = owner_step("team", s, Ok(false));
    assert!(matches!(a, OwnerAction::BeginTransaction));
    let (s, a) = owner_step("team", s, Ok(true));
    assert!(matches!(a, OwnerAction::Insert));
    let (_, a) = owner_step("team", s, Ok(true));
    assert!(matches!(a, OwnerAction::Answer(ref x) if x.status == 200));
    let (_, a) = owner_step("team", OwnerStage::CheckName, Ok(true));
    assert!(matches!(a, OwnerAction::Answer(ref x) if x.message == "Project with name team already exists"));
}

#[test]
fn deletion_reports() {
    assert_eq!(container_report(false, false, false), "failed to delete: container does not exist");
    assert_eq!(container_report(true, false, false), "failed to delete: container error");
    assert_eq!(container_report(true, true, true), "successfully deleted");
    assert_eq!(resource_report(Resource::Network, true, false), "failed to delete: network error");
    assert_eq!(resource_report(Resource::Image, false, false), "failed to delete: image does not exist");
    assert_eq!(repo_report(true, false), "failed to delete: repo error");
    assert_eq!(project_report(ProjectRow::NoOwner), None);
    assert_eq!(project_report(ProjectRow::Deleted(true)).as_deref(), Some("successfully deleted"));
    assert!(may_delete(None, "alice"));
    assert!(may_delete(Some("alice"), "alice"));
    assert!(!may_delete(Some("bob"), "alice"));
    assert_eq!(volume_deletion(true, true, true), ("successfully deleted".to_string(), true));
    let ok = vec![("repo".to_string(), "successfully deleted".to_string())];
    assert!(all_deleted(&ok));
    let mut one_failed = ok.clone();
    one_failed.push(("image".to_string(), "failed to delete: image error".to_string()));
    assert!(!all_deleted(&one_failed));
    assert!(all_deleted(&Vec::new()));
}

fn run_deletion(events: Vec<DeleteEvent>) -> (bool, Vec<String>) {
    let (mut s, mut a) = delete_start(Some("alice"), "alice");
    for e in events {
        let (s2, a2) = delete_step("alice", "site", "/b", s, e);
        s = s2;
        a = a2;
    }
    let _: &Deletion = &s;
    match a {
        DeleteAction::Answer { success, details } => (success, details),
        _ => panic!("expected an answer"),
    }
}

#[test]
fn deleting_everything() {
    let (success, details) = run_deletion(vec![
        DeleteEvent::Owner(Ok(Some(1))),
        DeleteEvent::Project(Ok(true)),
        DeleteEvent::Done(true),
        DeleteEvent::Exists(true),
        DeleteEvent::Done(true),
        DeleteEvent::Done(true),
        DeleteEvent::Exists(true),
        DeleteEvent::Done(true),
        DeleteEvent::Done(true),
        DeleteEvent::Exists(true),
        DeleteEvent::Done(true),
        DeleteEvent::Exists(true),
        DeleteEvent::Done(true),
        DeleteEvent::Done(true),
        DeleteEvent::Exists(true),
        DeleteEvent::Done(true),
        DeleteEvent::Exists(true),
        DeleteEvent::Done(true),
    ]);
    assert!(success);
    assert_eq!(
        details,
        vec![
            "project: successfully deleted",
            "repo: successfully deleted",
            "container: successfully deleted",
            "image: successfully deleted",
            "db: successfully deleted",
            "volume: successfully deleted",
            "network: successfully deleted",
        ]
    );
}

#[test]
fn deleting_with_missing_parts_fails() {
    let (success, details) = run_deletion(vec![
        DeleteEvent::Owner(Ok(None)),
        DeleteEvent::Exists(false),
        DeleteEvent::Done(true),
        DeleteEvent::Exists(false),
        DeleteEvent::Exists(true),
        DeleteEvent::Done(false),
        DeleteEvent::Exists(true),
        DeleteEvent::Done(false),
        DeleteEvent::Exists(false),
        DeleteEvent::Exists(true),
        DeleteEvent::Done(true),
    ]);
    assert!(!success);
    assert_eq!(
        details,
        vec![
            "repo: failed to delete: repo does not exist",
            "container: failed to delete: container does not exist",
            "image: failed to delete: image error",
            "db: failed to delete: container error",
            "volume: failed to delete: volume does not exist",
            "network: successfully deleted",
        ]
    );
    let (success, details) = run_deletion(vec![DeleteEvent::Owner(Err("x".into())), DeleteEvent::Exists(false), DeleteEvent::Done(false)]);
    assert!(!success);
    assert_eq!(details, vec!["repo: failed to delete: repo does not exist", "container: failed to delete: docker error"]);
    let (_, a) = delete_start(Some("bob"), "alice");
    assert!(matches!(a, DeleteAction::Refuse));
}

#[test]
fn deletion_asks_for_the_right_objects() {
    let (s, a) = delete_start(None, "alice");
    assert!(matches!(a, DeleteAction::QueryOwner { ref owner } if owner == "alice"));
    let (s, a) = delete_step("alice", "site.git", "/b", s, DeleteEvent::Owner(Ok(None)));
    assert!(matches!(a, DeleteAction::CheckRepo { ref path } if path == "/b/alice/site.git"));
    let (s, _) = delete_step("alice", "site.git", "/b", s, DeleteEvent::Exists(false));
    let (s, a) = delete_step("alice", "site.git", "/b", s, DeleteEvent::Done(true));
    assert!(matches!(a, DeleteAction::Inspect { part: Part::Container, ref object } if object == "alice-site"));
    let (_, a) = delete_step("alice", "site.git", "/b", s, DeleteEvent::Exists(true));
    assert!(matches!(a, DeleteAction::Stop { ref object } if object == "alice-site"));
}

#[test]
fn stopping_a_project() {
    let (s, a) = stop_step("alice", "site", StopStage::FindingProject, StopEvent::Found(Ok(Some(3))));
    assert!(matches!(a, StopAction::ConnectDocker));
    let (s, a) = stop_step("alice", "site", s, StopEvent::Done(Ok(())));
    assert!(matches!(a, StopAction::StopContainer { ref container } if container == "alice-site"));
    let (s, a) = stop_step("alice", "site", s, StopEvent::Done(Ok(())));
    assert!(matches!(a, StopAction::StopContainer { ref container } if container == "alice-site-db"));
    let (s, a) = stop_step("alice", "site", s, StopEvent::Done(Ok(())));
    assert!(matches!(a, StopAction::MarkStopped { project_id: 3 }));
    let (_, a) = stop_step("alice", "site", s, StopEvent::Done(Ok(())));
    assert_eq!(answer_of(a), (200, "Running".to_string(), "Project stopped".to_string()));
    let (_, a) = stop_step("alice", "site", StopStage::FindingProject, StopEvent::Found(Ok(None)));
    assert_eq!(answer_of(a), (400, "Stopped".to_string(), "Owner does not exist".to_string()));
    let (_, a) = stop_step("alice", "site", StopStage::StoppingDb { project_id: 3 }, StopEvent::Done(Err("gone".into())));
    assert_eq!(answer_of(a), (500, "Stopped".to_string(), "Failed to stop db container gone".to_string()));
}

#[test]
fn page_answers() {
    assert!(project_lookup_reply(Ok(true)).is_none());
    let r = project_lookup_reply(Ok(false)).unwrap();
    assert_eq!((r.status, r.message.as_str()), (400, "Project does not exist"));
    let r = project_lookup_reply(Err("timeout".into())).unwrap();
    assert_eq!((r.status, r.message.as_str()), (500, "Failed to query database: timeout"));
    assert_eq!(query_failure("x").message, "Failed to query database: x");
    assert_eq!(validate_reply(false, false).status, 403);
    let r = validate_reply(true, false);
    assert_eq!((r.status, r.message.as_str()), (400, "User not found"));
    assert_eq!(validate_reply(true, true).status, 200);
    assert_eq!(logout_redirect(), (302, "/api/login".to_string()));
    assert_eq!(suggestion_pattern("al").as_deref(), Some("al%"));
    assert_eq!(suggestion_pattern(""), None);
    assert_eq!(project_action_path("alice", "site", "volume/delete"), "/alice/site/volume/delete");
    assert_eq!(latest_build_note(0), " (LATEST BUILD)");
    assert_eq!(latest_build_note(1), "");
    assert_eq!(log_frame_text(LogFrame::StdErr("oops\n".into())), "oops\n");
    assert_eq!(log_frame_text(LogFrame::Other), "");
}

#[test]
fn terminal_session() {
    assert_eq!(ws_path("alice", "site"), "/alice/site/terminal/ws");
    let (s, a) = session_step("alice", "site", SessionStage::Pinging, SessionEvent::PingSent(true));
    assert!(matches!(a, SessionAction::ReceiveOne));
    let (s, a) = session_step("alice", "site", s, SessionEvent::FirstMessage(Some(Ok(()))));
    match a {
        SessionAction::CreateExec(spec) => {
            assert_eq!(spec.container, "alice-site");
            assert_eq!(spec.cmd, vec!["bash"]);
            assert!(spec.tty && spec.attach_stdin && spec.attach_stdout && spec.attach_stderr);
        }
        _ => panic!("expected an exec"),
    }
    let (s, a) = session_step("alice", "site", s, SessionEvent::ExecCreated(Ok("e1".into())));
    assert!(matches!(a, SessionAction::StartExec { ref id } if id == "e1"));
    let (_, a) = session_step("alice", "site", s, SessionEvent::ExecStarted(Ok(true)));
    assert!(matches!(a, SessionAction::Relay));
    let (_, a) = session_step("alice", "site", SessionStage::StartingExec, SessionEvent::ExecStarted(Ok(false)));
    assert!(matches!(a, SessionAction::End));
    let (_, a) = session_step("alice", "site", SessionStage::Pinging, SessionEvent::PingSent(false));
    assert!(matches!(a, SessionAction::End));
    let (_, a) = session_step("alice", "site", SessionStage::Listening, SessionEvent::FirstMessage(Some(Err(()))));
    assert!(matches!(a, SessionAction::End));
}

#[test]
fn terminal_relay() {
    assert_eq!(output_fragment(b"\x1b[32mok\x1b[0m"), "<pre id=\"data\" hx-swap-oob=\"beforeend\">ok</pre> ");
    assert_eq!(output_fragment(&[0x66, 0xff]), "<pre id=\"data\" hx-swap-oob=\"beforeend\">f\u{fffd}</pre> ");
    assert!(matches!(on_output(Some(Ok(b"hi".to_vec()))), OutputReaction::Send(ref f) if f == "<pre id=\"data\" hx-swap-oob=\"beforeend\">hi</pre> "));
    assert!(matches!(on_output(None), OutputReaction::Close { code: 1000, ref reason } if reason == "Goodbye"));
    assert!(matches!(on_output(Some(Err("x".into()))), OutputReaction::Close { .. }));
    assert_eq!(input_line("ls"), "ls\n");
    assert!(matches!(on_client_message(ClientMessage::Text(Some("ls".into()))), InputReaction::Write(ref l) if l == "ls\n"));
    assert!(matches!(on_client_message(ClientMessage::Text(None)), InputReaction::Ignore));
    assert!(matches!(on_client_message(ClientMessage::Close), InputReaction::Stop));
    assert!(matches!(on_client_message(ClientMessage::Other), InputReaction::Ignore));
}

#[test]
fn idle_projects_expire_after_the_idle_minutes() {
    let s = settings("25MB", 1);
    let limit = s.application.idle * 60;
    assert!(!s.idle_expired(limit));
    assert!(s.idle_expired(limit + 1));
    assert!(!s.idle_expired(0));
}

#[test]
fn form_creation_answers_with_its_own_texts() {
    let req = CreateProjectRequest { owner: "alice".into(), project: "site".into() };
    let ctx = CreateContext { base: "/b".into(), domain: "pws.example".into(), secure: true, username: "alice".into() };
    let (_, a) = create_step(Route::Form, &req, &ctx, CreateStage::CheckProject { owner_id: 1 }, CreateEvent::Id(Ok(Some(3))));
    assert!(matches!(a, CreateAction::Fail(ref f) if f.status == 409 && f.message == "Project already exist"));
    let (_, a) = create_step(
        Route::Form,
        &req,
        &ctx,
        CreateStage::Commit { project_id: 4, token: "t".into() },
        CreateEvent::Done(Err("gone".into())),
    );
    assert!(matches!(a, CreateAction::Fail(ref f) if f.status == 500 && f.message == "Failed to commit transaction gone"));
    let (_, a) = create_step(
        Route::Api,
        &req,
        &ctx,
        CreateStage::Commit { project_id: 4, token: "t".into() },
        CreateEvent::Done(Err("gone".into())),
    );
    assert!(matches!(a, CreateAction::Fail(ref f) if f.message == "Failed to commit transaction: gone"));
    let (_, a) = create_step(Route::Form, &req, &ctx, CreateStage::Commit { project_id: 4, token: "t".into() }, CreateEvent::Done(Ok(())));
    assert!(matches!(a, CreateAction::Created(ref c) if c.domain == "http://pws.example/alice/site" && c.git_password == "t"));
}
