//! Signing in and registering users.
use vstd::prelude::*;
use vstd::utf8::encode_utf8;
use vstd::string::StringSliceAdditionalSpecFns;
use crate::password::{
    argon2_verifies, hash_password, is_password_hash, password_matches, phc_parses,
    MAX_PASSWORD_BYTES,
};
use crate::text::{append_chars, chars_of, str_eq, string_of};
use crate::validation::{spec_user_request_problems, validate_user_request, UserField};

verus! {

/// The kinds of failure a registration or sign-in reports.
#[derive(PartialEq, Eq, Structural, Clone, Copy)]
pub enum RegisterUserErrorType {
    ValidationError,
    BadRequestError,
    InternalServerError,
    SSOError,
}

/// An answer of the account routes: its HTTP status, its message, the kind
/// of error where it reports one, and whether the open transaction is
/// rolled back first.
pub struct Reply {
    pub status: u16,
    pub message: String,
    pub error_type: Option<RegisterUserErrorType>,
    pub rollback: bool,
}

/// Whether `r` answers with `status`, `message` and `error_type`, rolling
/// back or not.
pub open spec fn replies(
    r: Reply,
    status: u16,
    message: Seq<char>,
    error_type: Option<RegisterUserErrorType>,
    rollback: bool,
) -> bool {
    r.status == status && r.message@ == message && r.error_type == error_type && r.rollback == rollback
}

/// How a sign-in ends.
#[derive(PartialEq, Eq, Structural, Clone, Copy)]
pub enum LoginOutcome {
    /// The password is right: the user is signed in.
    LoggedIn,
    /// No such user, or the password is wrong.
    WrongCredentials,
    /// The stored hash does not parse; the request is not answered.
    CorruptHash,
}

pub open spec fn spec_login_outcome(stored_hash: Option<Seq<char>>, password: Seq<char>) -> LoginOutcome {
    match stored_hash {
        None => LoginOutcome::WrongCredentials,
        Some(h) => if !phc_parses(h) {
            LoginOutcome::CorruptHash
        } else if argon2_verifies(h, encode_utf8(password)) {
            LoginOutcome::LoggedIn
        } else {
            LoginOutcome::WrongCredentials
        },
    }
}

/// Decides a sign-in from the stored password hash of the user (none
/// where the user could not be found) and the password given.
pub fn login_outcome(stored_hash: Option<&str>, password: &str) -> (r: LoginOutcome)
    ensures
        r == spec_login_outcome(
            match stored_hash {
                Some(h) => Some(h@),
                None => None,
            },
            password@,
        ),
{
    match stored_hash {
        None => LoginOutcome::WrongCredentials,
        Some(h) => {
            if !is_password_hash(h) {
                LoginOutcome::CorruptHash
            } else if password_matches(h, password.as_bytes()) {
                LoginOutcome::LoggedIn
            } else {
                LoginOutcome::WrongCredentials
            }
        },
    }
}

/// The answer to a sign-in that was not let through.
pub fn login_refusal() -> (r: Reply)
    ensures
        replies(r, 400, "Wrong username or password entered"@, Some(RegisterUserErrorType::BadRequestError), false),
{
    Reply {
        status: 400,
        message: "Wrong username or password entered".to_owned(),
        error_type: Some(RegisterUserErrorType::BadRequestError),
        rollback: false,
    }
}

/// The text that reports the broken rules of a registration, one line per
/// field.
pub open spec fn spec_problem_text(problems: Seq<UserField>) -> Seq<char>
    decreases problems.len(),
{
    if problems.len() == 0 {
        Seq::empty()
    } else {
        spec_problem_text(problems.drop_last()) + match problems.last() {
            UserField::Username => "username: Username can only contain alphanumeric characters and dots\n"@,
            UserField::Name => "name: length is lower than 1\n"@,
            UserField::Password => "password: Password cannot be empty\n"@,
        }
    }
}

pub fn problem_text(problems: &Vec<UserField>) -> (r: String)
    ensures
        r@ == spec_problem_text(problems@),
{
    let mut out: Vec<char> = Vec::new();
    let mut i: usize = 0;
    while i < problems.len()
        invariant
            i <= problems@.len(),
            out@ == spec_problem_text(problems@.take(i as int)),
        decreases problems.len() - i,
    {
        match problems[i] {
            UserField::Username => append_chars(
                &mut out,
                "username: Username can only contain alphanumeric characters and dots\n",
            ),
            UserField::Name => append_chars(&mut out, "name: length is lower than 1\n"),
            UserField::Password => append_chars(&mut out, "password: Password cannot be empty\n"),
        }
        assert(problems@.take(i + 1).drop_last() =~= problems@.take(i as int));
        i = i + 1;
    }
    assert(problems@.take(problems@.len() as int) =~= problems@);
    string_of(&out)
}

/// What the single sign-on service answered about a registering user.
pub enum SsoResult {
    /// The request could not be made.
    RequestFailed(String),
    /// The answer's body could not be read.
    BodyFailed(String),
    /// The answer is not one of the two expected forms.
    Unparseable(String),
    /// The service refused the credentials.
    Refused,
    /// The service accepted them; the user's faculty.
    Accepted { faculty: String },
}

/// Where a registration stands.
pub enum RegisterStage {
    CheckUser,
    CheckOwner,
    /// The password's hash, once the name was found free.
    BeginTransaction { hash: String },
    Sso { hash: String },
    InsertUser,
    InsertOwner,
    LinkOwner,
    Commit,
    Done,
}

/// What came of the step that a registration stage asked for.
pub enum RegisterEvent {
    /// Whether the name is taken, or the query's error.
    Taken(Result<bool, String>),
    /// Whether a database step went through, or its error.
    Done(Result<(), String>),
    Sso(SsoResult),
}

/// What to do next for a registration.
pub enum RegisterAction {
    CheckOwnerName,
    BeginTransaction,
    AskSso,
    /// Insert the user with the password hash.
    InsertUser { hash: String },
    InsertOwner,
    LinkOwner,
    Commit,
    /// Answer with a refusal.
    Reply(Reply),
    /// Answer `reply`, sign the new user in, and send the browser to
    /// `location`.
    SignIn { reply: Reply, location: String },
}

pub open spec fn register_event_fits(stage: RegisterStage, event: RegisterEvent) -> bool {
    match stage {
        RegisterStage::CheckUser => event is Taken,
        RegisterStage::CheckOwner => event is Taken,
        RegisterStage::Sso { .. } => event is Sso,
        RegisterStage::Done => false,
        _ => event is Done,
    }
}

/// The faculty that may register when single sign-on is on.
pub open spec fn computer_science() -> Seq<char> {
    "Ilmu Komputer"@
}

/// Whether `a` answers with `status`, `message` and `error_type`.
pub open spec fn answers(
    a: RegisterAction,
    status: u16,
    message: Seq<char>,
    error_type: RegisterUserErrorType,
    rollback: bool,
) -> bool {
    a matches RegisterAction::Reply(r) && replies(r, status, message, Some(error_type), rollback)
}

/// Whether `a` answers 400 because the password could not be hashed.
pub open spec fn refuses_hashing(a: RegisterAction) -> bool {
    a matches RegisterAction::Reply(rep) && rep.status == 400 && rep.error_type == Some(
        RegisterUserErrorType::InternalServerError,
    ) && !rep.rollback && "failed to hash password: "@.is_prefix_of(rep.message@)
}

/// Whether `hash` is a PHC string whose Argon2 hash accepts `password`.
pub open spec fn hash_of(hash: Seq<char>, password: Seq<char>) -> bool {
    phc_parses(hash) && argon2_verifies(hash, encode_utf8(password))
}

/// The transitions of a registration with the given password.
pub open spec fn register_transition(
    sso: bool,
    password: Seq<char>,
    stage: RegisterStage,
    event: RegisterEvent,
    r: (RegisterStage, RegisterAction),
) -> bool {
    &&& r.1 is Reply ==> r.0 is Done
    &&& match (stage, event) {
        (RegisterStage::CheckUser, RegisterEvent::Taken(Ok(false))) => r.0 is CheckOwner && r.1 is CheckOwnerName,
        (RegisterStage::CheckOwner, RegisterEvent::Taken(Ok(false))) => if encode_utf8(password).len()
            <= MAX_PASSWORD_BYTES {
            r.0 matches RegisterStage::BeginTransaction { hash } && hash_of(hash@, password)
                && r.1 is BeginTransaction
        } else {
            refuses_hashing(r.1)
        },
        (RegisterStage::CheckUser, RegisterEvent::Taken(Ok(true))) => answers(
            r.1,
            400,
            "Username already exists"@,
            RegisterUserErrorType::BadRequestError,
            false,
        ),
        (RegisterStage::CheckUser, RegisterEvent::Taken(Err(e))) => answers(
            r.1,
            500,
            "failed to query database: "@ + e@,
            RegisterUserErrorType::InternalServerError,
            false,
        ),
        (RegisterStage::CheckOwner, RegisterEvent::Taken(Ok(true))) => answers(
            r.1,
            400,
            "Username already exists"@,
            RegisterUserErrorType::BadRequestError,
            false,
        ),
        (RegisterStage::CheckOwner, RegisterEvent::Taken(Err(e))) => answers(
            r.1,
            500,
            "failed to query database: "@ + e@,
            RegisterUserErrorType::InternalServerError,
            false,
        ),
        (RegisterStage::BeginTransaction { hash }, RegisterEvent::Done(Ok(()))) => if sso {
            r.0 == (RegisterStage::Sso { hash }) && r.1 is AskSso
        } else {
            r.0 is InsertUser && r.1 == (RegisterAction::InsertUser { hash })
        },
        (RegisterStage::BeginTransaction { .. }, RegisterEvent::Done(Err(_))) => answers(
            r.1,
            400,
            "failed to request sso: Failed to begin transaction"@,
            RegisterUserErrorType::InternalServerError,
            false,
        ),
        (RegisterStage::Sso { hash }, RegisterEvent::Sso(s)) => match s {
            SsoResult::RequestFailed(e) => answers(
                r.1,
                400,
                "failed to request sso: "@ + e@,
                RegisterUserErrorType::InternalServerError,
                true,
            ),
            SsoResult::BodyFailed(e) => answers(
                r.1,
                400,
                "failed to get body: "@ + e@,
                RegisterUserErrorType::SSOError,
                true,
            ),
            SsoResult::Unparseable(e) => answers(
                r.1,
                400,
                "failed to parse body: "@ + e@,
                RegisterUserErrorType::SSOError,
                true,
            ),
            SsoResult::Refused => answers(
                r.1,
                400,
                "Wrong username or password"@,
                RegisterUserErrorType::SSOError,
                false,
            ),
            SsoResult::Accepted { faculty } => if faculty@ == computer_science() {
                r.0 is InsertUser && r.1 == (RegisterAction::InsertUser { hash })
            } else {
                answers(
                    r.1,
                    400,
                    "User is not from UI Faculty of Computer Science"@,
                    RegisterUserErrorType::SSOError,
                    false,
                )
            },
        },
        (RegisterStage::InsertUser, RegisterEvent::Done(Ok(()))) => r.0 is InsertOwner && r.1 is InsertOwner,
        (RegisterStage::InsertOwner, RegisterEvent::Done(Ok(()))) => r.0 is LinkOwner && r.1 is LinkOwner,
        (RegisterStage::LinkOwner, RegisterEvent::Done(Ok(()))) => r.0 is Commit && r.1 is Commit,
        (RegisterStage::InsertUser, RegisterEvent::Done(Err(e))) => answers(
            r.1,
            400,
            "failed to insert into database: "@ + e@,
            RegisterUserErrorType::InternalServerError,
            true,
        ),
        (RegisterStage::InsertOwner, RegisterEvent::Done(Err(e))) => answers(
            r.1,
            400,
            "failed to insert into database: "@ + e@,
            RegisterUserErrorType::InternalServerError,
            true,
        ),
        (RegisterStage::LinkOwner, RegisterEvent::Done(Err(e))) => answers(
            r.1,
            400,
            "failed to insert into database: "@ + e@,
            RegisterUserErrorType::InternalServerError,
            true,
        ),
        (RegisterStage::Commit, RegisterEvent::Done(Ok(()))) => r.0 is Done && (r.1 matches RegisterAction::SignIn {
            reply: rep,
            location,
        } && replies(rep, 200, "User Created"@, None, false) && location@ == "/api/dashboard"@),
        (RegisterStage::Commit, RegisterEvent::Done(Err(e))) => answers(
            r.1,
            400,
            "failed to commit transaction: "@ + e@,
            RegisterUserErrorType::InternalServerError,
            false,
        ),
        _ => false,
    }
}

fn reply(
    status: u16,
    message: Vec<char>,
    error_type: Option<RegisterUserErrorType>,
    rollback: bool,
) -> (r: (RegisterStage, RegisterAction))
    ensures
        r.0 is Done,
        r.1 matches RegisterAction::Reply(rep) && replies(rep, status, message@, error_type, rollback),
{
    (
        RegisterStage::Done,
        RegisterAction::Reply(Reply { status, message: string_of(&message), error_type, rollback }),
    )
}

fn text_with(prefix: &str, detail: &str) -> (r: Vec<char>)
    ensures
        r@ == prefix@ + detail@,
{
    let mut v = chars_of(prefix);
    append_chars(&mut v, detail);
    v
}

/// One step of registering a user with `password` (single sign-on checks
/// the user against the university's directory where `sso` is on). Once
/// the name is found free, the password is hashed here.
pub fn register_step(sso: bool, password: &str, stage: RegisterStage, event: RegisterEvent) -> (r: (
    RegisterStage,
    RegisterAction,
))
    requires
        register_event_fits(stage, event),
    ensures
        register_transition(sso, password@, stage, event, r),
{
    let internal = Some(RegisterUserErrorType::InternalServerError);
    let sso_error = Some(RegisterUserErrorType::SSOError);
    match stage {
        RegisterStage::CheckUser | RegisterStage::CheckOwner => {
            let is_user = match stage {
                RegisterStage::CheckUser => true,
                _ => false,
            };
            match event {
                RegisterEvent::Taken(Ok(false)) => if is_user {
                    (RegisterStage::CheckOwner, RegisterAction::CheckOwnerName)
                } else {
                    match hash_password(password) {
                        Ok(h) => (RegisterStage::BeginTransaction { hash: h }, RegisterAction::BeginTransaction),
                        Err(e) => {
                            let r = reply(400, text_with("failed to hash password: ", e.as_str()), internal, false);
                            assert("failed to hash password: "@.is_prefix_of("failed to hash password: "@ + e@));
                            r
                        },
                    }
                },
                RegisterEvent::Taken(Ok(true)) => reply(
                    400,
                    chars_of("Username already exists"),
                    Some(RegisterUserErrorType::BadRequestError),
                    false,
                ),
                RegisterEvent::Taken(Err(e)) => reply(
                    500,
                    text_with("failed to query database: ", e.as_str()),
                    internal,
                    false,
                ),
                _ => (RegisterStage::Done, RegisterAction::Commit),
            }
        },
        RegisterStage::BeginTransaction { hash } => match event {
            RegisterEvent::Done(Ok(())) => if sso {
                (RegisterStage::Sso { hash }, RegisterAction::AskSso)
            } else {
                (RegisterStage::InsertUser, RegisterAction::InsertUser { hash })
            },
            RegisterEvent::Done(Err(_)) => reply(
                400,
                chars_of("failed to request sso: Failed to begin transaction"),
                internal,
                false,
            ),
            _ => (RegisterStage::Done, RegisterAction::Commit),
        },
        RegisterStage::Sso { hash } => match event {
            RegisterEvent::Sso(SsoResult::RequestFailed(e)) => reply(
                400,
                text_with("failed to request sso: ", e.as_str()),
                internal,
                true,
            ),
            RegisterEvent::Sso(SsoResult::BodyFailed(e)) => reply(
                400,
                text_with("failed to get body: ", e.as_str()),
                sso_error,
                true,
            ),
            RegisterEvent::Sso(SsoResult::Unparseable(e)) => reply(
                400,
                text_with("failed to parse body: ", e.as_str()),
                sso_error,
                true,
            ),
            RegisterEvent::Sso(SsoResult::Refused) => reply(
                400,
                chars_of("Wrong username or password"),
                sso_error,
                false,
            ),
            RegisterEvent::Sso(SsoResult::Accepted { faculty }) => if str_eq(
                faculty.as_str(),
                "Ilmu Komputer",
            ) {
                (RegisterStage::InsertUser, RegisterAction::InsertUser { hash })
            } else {
                reply(400, chars_of("User is not from UI Faculty of Computer Science"), sso_error, false)
            },
            _ => (RegisterStage::Done, RegisterAction::Commit),
        },
        RegisterStage::InsertUser | RegisterStage::InsertOwner | RegisterStage::LinkOwner => {
            match event {
                RegisterEvent::Done(Ok(())) => match stage {
                    RegisterStage::InsertUser => (RegisterStage::InsertOwner, RegisterAction::InsertOwner),
                    RegisterStage::InsertOwner => (RegisterStage::LinkOwner, RegisterAction::LinkOwner),
                    _ => (RegisterStage::Commit, RegisterAction::Commit),
                },
                RegisterEvent::Done(Err(e)) => reply(
                    400,
                    text_with("failed to insert into database: ", e.as_str()),
                    internal,
                    true,
                ),
                _ => (RegisterStage::Done, RegisterAction::Commit),
            }
        },
        RegisterStage::Commit => match event {
            RegisterEvent::Done(Ok(())) => (
                RegisterStage::Done,
                RegisterAction::SignIn {
                    reply: Reply {
                        status: 200,
                        message: string_of(&chars_of("User Created")),
                        error_type: None,
                        rollback: false,
                    },
                    location: string_of(&chars_of("/api/dashboard")),
                },
            ),
            RegisterEvent::Done(Err(e)) => reply(
                400,
                text_with("failed to commit transaction: ", e.as_str()),
                internal,
                false,
            ),
            _ => (RegisterStage::Done, RegisterAction::Commit),
        },
        RegisterStage::Done => (RegisterStage::Done, RegisterAction::Commit),
    }
}

/// How a registration starts: a request that breaks a rule is answered
/// 400 with the broken rules; any other goes on to check that the
/// username is free.
pub fn register_start(username: &str, name: &str, password: &str) -> (r: (RegisterStage, Option<Reply>))
    ensures
        spec_user_request_problems(username@, name@, password@).len() == 0 ==> r.0 is CheckUser
            && r.1 is None,
        spec_user_request_problems(username@, name@, password@).len() > 0 ==> (r.0 is Done
            && (r.1 matches Some(rep) && replies(
            rep,
            400,
            spec_problem_text(spec_user_request_problems(username@, name@, password@)),
            Some(RegisterUserErrorType::ValidationError),
            false,
        ))),
{
    let problems = validate_user_request(username, name, password);
    if problems.len() == 0 {
        (RegisterStage::CheckUser, None)
    } else {
        let message = problem_text(&problems);
        (
            RegisterStage::Done,
            Some(
                Reply {
                    status: 400,
                    message,
                    error_type: Some(RegisterUserErrorType::ValidationError),
                    rollback: false,
                },
            ),
        )
    }
}

/// Whether an action accepts the registration (answers 200 and signs the
/// new user in).
pub open spec fn accepts(a: RegisterAction) -> bool {
    a matches RegisterAction::SignIn { reply: rep, .. } && rep.status == 200
}

/// Whether a database step went through.
pub open spec fn went_through(e: RegisterEvent) -> bool {
    e matches RegisterEvent::Done(Ok(_))
}

/// Whether the directory accepted a user of the Faculty of Computer
/// Science.
pub open spec fn directory_accepts_computer_science(e: RegisterEvent) -> bool {
    e matches RegisterEvent::Sso(SsoResult::Accepted { faculty }) && faculty@ == computer_science()
}

/// A registration is accepted (answered 200) only at the commit of its
/// transaction, and a user row is inserted only once the username was
/// found free, its password hashed, its transaction begun, and, with
/// single sign-on on, the directory accepted a user of the Faculty of
/// Computer Science (the directory is asked only where single sign-on is
/// on).
pub proof fn registration_requires_the_checks(
    sso: bool,
    password: Seq<char>,
    stage: RegisterStage,
    event: RegisterEvent,
    r: (RegisterStage, RegisterAction),
)
    requires
        register_event_fits(stage, event),
        register_transition(sso, password, stage, event, r),
    ensures
        accepts(r.1) ==> stage is Commit && went_through(event),
        r.1 is SignIn ==> accepts(r.1) && (r.1 matches RegisterAction::SignIn { location, .. }
            && location@ == "/api/dashboard"@),
        r.1 is InsertUser ==> (stage is BeginTransaction && !sso && went_through(event)) || (stage is Sso
            && directory_accepts_computer_science(event)),
        r.1 is AskSso ==> sso && stage is BeginTransaction,
        r.0 is BeginTransaction ==> stage is CheckOwner && event matches RegisterEvent::Taken(Ok(false)),
        r.0 is CheckOwner ==> stage is CheckUser && event matches RegisterEvent::Taken(Ok(false)),
{
}

/// Whether the hash that `stage` carries, where it carries one, is a hash
/// of `password`.
pub open spec fn carries_hash_of(stage: RegisterStage, password: Seq<char>) -> bool {
    match stage {
        RegisterStage::BeginTransaction { hash } => hash_of(hash@, password),
        RegisterStage::Sso { hash } => hash_of(hash@, password),
        _ => true,
    }
}

/// The hash that a registration stores for its user is a hash of the
/// password it was given: every stage carries only such a hash, the user
/// row is inserted with it, and signing in with that password against it
/// lets the user in.
pub proof fn registered_hash_signs_in(
    sso: bool,
    password: Seq<char>,
    stage: RegisterStage,
    event: RegisterEvent,
    r: (RegisterStage, RegisterAction),
)
    requires
        register_event_fits(stage, event),
        register_transition(sso, password, stage, event, r),
        carries_hash_of(stage, password),
    ensures
        carries_hash_of(r.0, password),
        r.1 matches RegisterAction::InsertUser { hash } ==> hash_of(hash@, password)
            && spec_login_outcome(Some(hash@), password) == LoginOutcome::LoggedIn,
{
}

/// Whether `a` answers without accepting the registration.
pub open spec fn refuses(a: RegisterAction) -> bool {
    a matches RegisterAction::Reply(rep) && rep.status != 200
}

/// A refused registration leaves the users, owners and their links as
/// they were: the transaction that inserts them is committed only after
/// all three inserts went through, an insert that fails rolls it back,
/// and a registration whose commit went through is always accepted.
pub proof fn refused_registration_commits_nothing(
    sso: bool,
    password: Seq<char>,
    stage: RegisterStage,
    event: RegisterEvent,
    r: (RegisterStage, RegisterAction),
)
    requires
        register_event_fits(stage, event),
        register_transition(sso, password, stage, event, r),
    ensures
        r.1 is Commit ==> stage is LinkOwner && went_through(event),
        refuses(r.1) && (stage is InsertUser || stage is InsertOwner || stage is LinkOwner) ==> (
        r.1 matches RegisterAction::Reply(rep) && rep.rollback),
        stage is Commit && went_through(event) ==> accepts(r.1),
        refuses(r.1) ==> !(stage is Commit && went_through(event)),
{
}

/// How a sign-in is answered: a redirect, or a refusal.
pub enum SignInAnswer {
    /// The user is signed in and sent to `location` with `status`.
    Redirect { status: u16, location: String },
    Refuse(Reply),
}

/// The answer to a sign-in whose stored hash parses (where it does not,
/// the request is not answered): 302 to the dashboard where the password
/// is right, the refusal where it is not.
pub fn sign_in_answer(outcome: LoginOutcome) -> (r: SignInAnswer)
    requires
        outcome != LoginOutcome::CorruptHash,
    ensures
        outcome == LoginOutcome::LoggedIn ==> (r matches SignInAnswer::Redirect { status, location }
            && status == 302 && location@ == "/api/dashboard"@),
        outcome == LoginOutcome::WrongCredentials ==> (r matches SignInAnswer::Refuse(rep) && replies(
            rep,
            400,
            "Wrong username or password entered"@,
            Some(RegisterUserErrorType::BadRequestError),
            false,
        )),
{
    match outcome {
        LoginOutcome::LoggedIn => SignInAnswer::Redirect {
            status: 302,
            location: string_of(&chars_of("/api/dashboard")),
        },
        _ => SignInAnswer::Refuse(login_refusal()),
    }
}

/// A signed-in user, with the permission tokens granted to them.
pub struct User {
    pub id: u128,
    pub username: String,
    pub password: String,
    pub name: String,
    pub permissions: Vec<String>,
}

impl User {
    /// A user from their row and the tokens of their permissions.
    pub fn from_rows(id: u128, username: String, name: String, password: String, tokens: Vec<String>) -> (r: User)
        ensures
            r.id == id,
            r.username@ == username@,
            r.name@ == name@,
            r.password@ == password@,
            r.permissions@ == tokens@,
    {
        User { id, username, password, name, permissions: tokens }
    }

    /// Whether the user holds the permission `perm`.
    pub fn has(&self, perm: &str) -> (r: bool)
        ensures
            r == exists|i: int| 0 <= i < self.permissions.len() && #[trigger] self.permissions@[i]@ == perm@,
    {
        let mut i: usize = 0;
        while i < self.permissions.len()
            invariant
                i <= self.permissions.len(),
                forall|j: int| 0 <= j < i ==> #[trigger] self.permissions@[j]@ != perm@,
            decreases self.permissions.len() - i,
        {
            if str_eq(self.permissions[i].as_str(), perm) {
                return true;
            }
            i = i + 1;
        }
        false
    }

    /// A loaded user is always authenticated.
    pub fn is_authenticated(&self) -> (r: bool)
        ensures
            r,
    {
        true
    }

    /// A loaded user is always active.
    pub fn is_active(&self) -> (r: bool)
        ensures
            r,
    {
        true
    }

    /// A loaded user is never anonymous.
    pub fn is_anonymous(&self) -> (r: bool)
        ensures
            !r,
    {
        false
    }
}

/// The answer of the routes that need a signed-in user to a request
/// without one: a redirect to the sign-in page; none where a user is
/// signed in.
pub fn sign_in_redirect(signed_in: bool) -> (r: Option<(u16, String)>)
    ensures
        signed_in ==> r is None,
        !signed_in ==> (r matches Some((status, location)) && status == 302 && location@ == "/api/login"@),
{
    if signed_in {
        None
    } else {
        Some((302, string_of(&chars_of("/api/login"))))
    }
}

} // verus!
