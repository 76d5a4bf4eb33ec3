use pemasak_infra::accounts::{
    login_outcome, login_refusal, problem_text, register_start, register_step, sign_in_redirect,
    LoginOutcome, RegisterAction, RegisterEvent, RegisterStage, RegisterUserErrorType, SsoResult,
    User,
};
use pemasak_infra::basic_auth::{
    any_hash_accepts, challenge_header, git_auth_finish, git_auth_start, GitAuthStep,
    GitAuthVerdict, TokenLookup,
};
use pemasak_infra::password::{hash_password, new_project_token};
use pemasak_infra::validation::{
    invite_request_check, owner_name_check, password_check, project_name_check, username_check,
    validate_project_request, validate_user_request, ProjectField, UserField,
};

fn basic(owner_and_token: &str) -> String {
    format!("Basic {}", data_encoding::BASE64.encode(owner_and_token.as_bytes()))
}

fn reply_of(a: RegisterAction) -> (u16, String, Option<RegisterUserErrorType>, bool) {
    match a {
        RegisterAction::Reply(r) => (r.status, r.message, r.error_type, r.rollback),
        _ => panic!("expected a reply"),
    }
}

#[test]
fn usernames_are_letters_digits_and_dots() {
    assert!(username_check("alice.b2").is_ok());
    assert_eq!(
        username_check("alice b").unwrap_err(),
        "Username can only contain alphanumeric characters and dots"
    );
    assert!(username_check("").is_err());
    assert!(username_check("al/ice").is_err());
    assert!(username_check("ali_ce").is_err());
    assert!(password_check("x").is_ok());
    assert_eq!(password_check("").unwrap_err(), "Password cannot be empty");
}

#[test]
fn registration_problems_in_form_order() {
    assert!(validate_user_request("alice", "Alice", "pw").is_empty());
    let p = validate_user_request("a b", "", "");
    assert!(p == vec![UserField::Username, UserField::Name, UserField::Password]);
    assert_eq!(
        problem_text(&p),
        "username: Username can only contain alphanumeric characters and dots\nname: length is lower than 1\npassword: Password cannot be empty\n"
    );
    let (stage, reply) = register_start("alice", "", "pw");
    assert!(matches!(stage, RegisterStage::Done));
    let reply = reply.unwrap();
    assert_eq!(reply.status, 400);
    assert_eq!(reply.message, "name: length is lower than 1\n");
    assert!(reply.error_type == Some(RegisterUserErrorType::ValidationError));
    let (stage, reply) = register_start("alice", "Alice", "pw");
    assert!(matches!(stage, RegisterStage::CheckUser));
    assert!(reply.is_none());
}

#[test]
fn registration_without_sso_inserts_and_commits() {
    let (s, a) = register_step(false, "secret", RegisterStage::CheckUser, RegisterEvent::Taken(Ok(false)));
    assert!(matches!(a, RegisterAction::CheckOwnerName));
    let (s, a) = register_step(false, "secret", s, RegisterEvent::Taken(Ok(false)));
    assert!(matches!(a, RegisterAction::BeginTransaction));
    let (s, a) = register_step(false, "secret", s, RegisterEvent::Done(Ok(())));
    match a {
        RegisterAction::InsertUser { hash: h } => {
            assert!(h != "secret");
            assert!(login_outcome(Some(&h), "secret") == LoginOutcome::LoggedIn);
            assert!(login_outcome(Some(&h), "other") == LoginOutcome::WrongCredentials);
        }
        _ => panic!("expected the user to be inserted"),
    }
    let (s, a) = register_step(false, "pw", s, RegisterEvent::Done(Ok(())));
    assert!(matches!(a, RegisterAction::InsertOwner));
    let (s, a) = register_step(false, "pw", s, RegisterEvent::Done(Ok(())));
    assert!(matches!(a, RegisterAction::LinkOwner));
    let (s, a) = register_step(false, "pw", s, RegisterEvent::Done(Ok(())));
    assert!(matches!(a, RegisterAction::Commit));
    let (_, a) = register_step(false, "pw", s, RegisterEvent::Done(Ok(())));
    match a {
        RegisterAction::SignIn { reply, location } => {
            assert_eq!((reply.status, reply.message.as_str(), location.as_str()), (200, "User Created", "/api/dashboard"));
            assert!(reply.error_type.is_none() && !reply.rollback);
        }
        _ => panic!("expected the new user to be signed in"),
    }
}

#[test]
fn registration_refusals() {
    let (_, a) = register_step(false, "pw", RegisterStage::CheckUser, RegisterEvent::Taken(Ok(true)));
    assert!(reply_of(a) == (400, "Username already exists".to_string(), Some(RegisterUserErrorType::BadRequestError), false));
    let (_, a) = register_step(false, "pw", RegisterStage::CheckOwner, RegisterEvent::Taken(Err("down".into())));
    assert!(reply_of(a) == (500, "failed to query database: down".to_string(), Some(RegisterUserErrorType::InternalServerError), false));
    let (_, a) = register_step(true, "pw", RegisterStage::Sso { hash: "h".into() }, RegisterEvent::Sso(SsoResult::Refused));
    assert!(reply_of(a) == (400, "Wrong username or password".to_string(), Some(RegisterUserErrorType::SSOError), false));
    let (_, a) = register_step(
        true,
        "pw",
        RegisterStage::Sso { hash: "h".into() },
        RegisterEvent::Sso(SsoResult::Accepted { faculty: "Ilmu Hukum".into() }),
    );
    assert!(reply_of(a) == (400, "User is not from UI Faculty of Computer Science".to_string(), Some(RegisterUserErrorType::SSOError), false));
    let (_, a) = register_step(
        true,
        "pw",
        RegisterStage::Sso { hash: "h".into() },
        RegisterEvent::Sso(SsoResult::RequestFailed("timeout".into())),
    );
    assert!(reply_of(a) == (400, "failed to request sso: timeout".to_string(), Some(RegisterUserErrorType::InternalServerError), true));
    let (_, a) = register_step(false, "pw", RegisterStage::InsertOwner, RegisterEvent::Done(Err("dup".into())));
    assert!(reply_of(a) == (400, "failed to insert into database: dup".to_string(), Some(RegisterUserErrorType::InternalServerError), true));
}

#[test]
fn sso_accepts_computer_science_only() {
    let (_, a) = register_step(true, "pw", RegisterStage::BeginTransaction { hash: "h".into() }, RegisterEvent::Done(Ok(())));
    assert!(matches!(a, RegisterAction::AskSso));
    let (_, a) = register_step(
        true,
        "pw",
        RegisterStage::Sso { hash: "h".into() },
        RegisterEvent::Sso(SsoResult::Accepted { faculty: "Ilmu Komputer".into() }),
    );
    assert!(matches!(a, RegisterAction::InsertUser { ref hash } if hash == "h"));
}

#[test]
fn sign_in_checks_the_stored_hash() {
    let hash = hash_password("correct horse").unwrap();
    assert!(login_outcome(Some(&hash), "correct horse") == LoginOutcome::LoggedIn);
    assert!(login_outcome(Some(&hash), "wrong") == LoginOutcome::WrongCredentials);
    assert!(login_outcome(None, "anything") == LoginOutcome::WrongCredentials);
    assert!(login_outcome(Some("not a phc string"), "x") == LoginOutcome::CorruptHash);
    let r = login_refusal();
    assert_eq!(r.status, 400);
    assert_eq!(r.message, "Wrong username or password entered");
}

#[test]
fn git_auth_reads_basic_credentials() {
    assert!(matches!(git_auth_start(false, None), GitAuthStep::Allow));
    assert!(matches!(git_auth_start(true, None), GitAuthStep::Challenge));
    assert!(matches!(git_auth_start(true, Some("Bearer abc")), GitAuthStep::Challenge));
    assert!(matches!(git_auth_start(true, Some("Basic !!!notbase64")), GitAuthStep::Undecodable));
    let invalid_utf8 = format!("Basic {}", data_encoding::BASE64.encode(&[0xff, 0xfe]));
    assert!(matches!(git_auth_start(true, Some(&invalid_utf8)), GitAuthStep::Undecodable));
    match git_auth_start(true, Some(&basic("alice:tok3n"))) {
        GitAuthStep::Lookup { owner, password } => {
            assert_eq!(owner, "alice");
            assert_eq!(password, "tok3n");
        }
        _ => panic!("expected a lookup"),
    }
    match git_auth_start(true, Some(&basic("bob"))) {
        GitAuthStep::Lookup { owner, password } => {
            assert_eq!(owner, "bob");
            assert_eq!(password, "");
        }
        _ => panic!("expected a lookup"),
    }
}

#[test]
fn issued_token_opens_git() {
    let (token, hash) = new_project_token().unwrap();
    assert_eq!(token.chars().count(), 32);
    assert!(token.chars().all(|c| c.is_ascii_alphanumeric() || c == '-' || c == '_'));
    let hashes = vec!["garbage".to_string(), hash];
    assert!(any_hash_accepts(&hashes, &token));
    assert!(!any_hash_accepts(&hashes, "not the token"));
    assert!(git_auth_finish(TokenLookup::Found(hashes.clone()), &token) == GitAuthVerdict::Allow);
    assert!(git_auth_finish(TokenLookup::Found(hashes), "nope") == GitAuthVerdict::Refuse);
    assert!(git_auth_finish(TokenLookup::NotFound, &token) == GitAuthVerdict::Refuse);
    assert!(git_auth_finish(TokenLookup::Failed, &token) == GitAuthVerdict::Challenge);
    assert_eq!(challenge_header(&GitAuthVerdict::Refuse), "Basic realm=\"failed to login\"");
    assert_eq!(challenge_header(&GitAuthVerdict::Challenge), "Basic realm=\"git\"");
}

#[test]
fn project_and_owner_names() {
    assert!(project_name_check("myapp2"));
    assert!(project_name_check("proyék"));
    assert!(project_name_check(""));
    assert!(!project_name_check("my-app"));
    assert!(!project_name_check("my app"));
    assert!(validate_project_request("alice", "site").is_empty());
    let p = validate_project_request("", "bad name");
    assert!(p == vec![ProjectField::Owner, ProjectField::Project]);
    assert!(owner_name_check(&"a".repeat(128)));
    assert!(!owner_name_check(&"a".repeat(129)));
    assert_eq!(invite_request_check(Some(7), Some("bob")), Some((7, "bob".to_string())));
    assert_eq!(invite_request_check(None, Some("bob")), None);
    assert_eq!(invite_request_check(Some(7), None), None);
}

#[test]
fn users_hold_their_permissions() {
    let u = User::from_rows(1, "alice".into(), "Alice".into(), "h".into(), vec!["admin".into(), "deploy".into()]);
    assert!(u.has("deploy"));
    assert!(!u.has("root"));
    assert!(u.is_authenticated() && u.is_active() && !u.is_anonymous());
    assert_eq!(sign_in_redirect(true), None);
    assert_eq!(sign_in_redirect(false), Some((302, "/api/login".to_string())));
}

#[test]
fn hashing_is_given_for_short_passwords() {
    assert!(hash_password("").is_ok());
    assert!(hash_password(&"x".repeat(1000)).is_ok());
    assert!(new_project_token().is_ok());
}
