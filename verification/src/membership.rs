//! Owner groups: creating one, and inviting users into it or removing
//! them from it.
use vstd::prelude::*;
use crate::text::{append_chars, chars_of, str_eq, string_of};
use crate::validation::OWNER_NAME_MAX;

verus! {

/// An answer of the owner routes: its status, its message (empty where
/// the answer has no body), and whether the open transaction is rolled
/// back first.
pub struct Answer {
    pub status: u16,
    pub message: String,
    pub rollback: bool,
}

pub open spec fn answered(a: Answer, status: u16, message: Seq<char>, rollback: bool) -> bool {
    a.status == status && a.message@ == message && a.rollback == rollback
}

fn answer(status: u16, message: Vec<char>, rollback: bool) -> (r: Answer)
    ensures
        answered(r, status, message@, rollback),
{
    Answer { status, message: string_of(&message), rollback }
}

fn text_with(prefix: &str, detail: &str) -> (r: Vec<char>)
    ensures
        r@ == prefix@ + detail@,
{
    let mut v = chars_of(prefix);
    append_chars(&mut v, detail);
    v
}

/// Why an insert failed: its error text, and the constraint it broke where
/// the database named one.
pub struct InsertError {
    pub message: String,
    pub constraint: Option<String>,
}

/// Where an invitation stands.
pub enum InviteStage {
    /// Check that the inviting user belongs to the group.
    CheckMembership { owner_id: u128, username: String },
    FindUser { owner_id: u128, username: String },
    BeginTransaction { owner_id: u128, user_id: u128 },
    Insert,
    Commit,
    Done,
}

pub enum InviteEvent {
    /// The id found by a lookup, none, or the query's error.
    Found(Result<Option<u128>, String>),
    /// Whether a step went through, or its error.
    Done(Result<(), String>),
    /// Whether the membership row was inserted, or why not.
    Inserted(Result<(), InsertError>),
}

pub enum InviteAction {
    FindUser { username: String },
    BeginTransaction,
    Insert { user_id: u128, owner_id: u128 },
    Commit,
    Answer(Answer),
}

/// How an invitation starts: it must name both the group and the user.
pub fn invite_start(owner_id: Option<u128>, username: Option<&str>) -> (r: Result<InviteStage, Answer>)
    ensures
        (owner_id is Some && username is Some) ==> (r matches Ok(InviteStage::CheckMembership {
            owner_id: o,
            username: u,
        }) && o == owner_id->0 && u@ == username->0@),
        !(owner_id is Some && username is Some) ==> (r matches Err(a) && answered(
            a,
            400,
            "Invalid request"@,
            false,
        )),
{
    match (owner_id, username) {
        (Some(o), Some(u)) => Ok(InviteStage::CheckMembership { owner_id: o, username: u.to_owned() }),
        _ => Err(answer(400, chars_of("Invalid request"), false)),
    }
}

pub open spec fn invite_event_fits(stage: InviteStage, event: InviteEvent) -> bool {
    match stage {
        InviteStage::CheckMembership { .. } => event is Found,
        InviteStage::FindUser { .. } => event is Found,
        InviteStage::BeginTransaction { .. } => event is Done,
        InviteStage::Insert => event is Inserted,
        InviteStage::Commit => event is Done,
        InviteStage::Done => false,
    }
}

pub open spec fn invite_answers(a: InviteAction, status: u16, message: Seq<char>, rollback: bool) -> bool {
    a matches InviteAction::Answer(x) && answered(x, status, message, rollback)
}

/// The transitions of an invitation.
pub open spec fn invite_transition(stage: InviteStage, event: InviteEvent, r: (InviteStage, InviteAction)) -> bool {
    &&& r.1 is Answer ==> r.0 is Done
    &&& match stage {
        InviteStage::CheckMembership { owner_id, username } => match event {
            InviteEvent::Found(Ok(Some(_))) => r.0 == (InviteStage::FindUser { owner_id, username })
                && (r.1 matches InviteAction::FindUser { username: u } && u@ == username@),
            InviteEvent::Found(Ok(None)) => invite_answers(r.1, 401, Seq::empty(), false),
            InviteEvent::Found(Err(_)) => invite_answers(r.1, 500, Seq::empty(), false),
            _ => false,
        },
        InviteStage::FindUser { owner_id, username } => match event {
            InviteEvent::Found(Ok(Some(u))) => r.0 == (InviteStage::BeginTransaction { owner_id, user_id: u })
                && r.1 is BeginTransaction,
            InviteEvent::Found(Ok(None)) => invite_answers(
                r.1,
                400,
                "User not found with username "@ + username@,
                false,
            ),
            InviteEvent::Found(Err(_)) => invite_answers(r.1, 500, Seq::empty(), false),
            _ => false,
        },
        InviteStage::BeginTransaction { owner_id, user_id } => match event {
            InviteEvent::Done(Ok(_)) => r.0 is Insert && r.1 == (InviteAction::Insert { user_id, owner_id }),
            InviteEvent::Done(Err(e)) => invite_answers(r.1, 500, "Failed to begin transaction "@ + e@, false),
            _ => false,
        },
        InviteStage::Insert => match event {
            InviteEvent::Inserted(Ok(_)) => r.0 is Commit && r.1 is Commit,
            InviteEvent::Inserted(Err(e)) => if e.constraint matches Some(c) && c@ == "users_owners_pkey"@ {
                invite_answers(r.1, 400, "User is already in the owner group"@, true)
            } else {
                invite_answers(r.1, 400, "Failed to invite member to owner group"@, true)
            },
            _ => false,
        },
        InviteStage::Commit => match event {
            InviteEvent::Done(Ok(_)) => invite_answers(r.1, 204, Seq::empty(), false),
            InviteEvent::Done(Err(e)) => invite_answers(r.1, 500, "Failed to commit transaction "@ + e@, false),
            _ => false,
        },
        InviteStage::Done => false,
    }
}

fn invite_answer(status: u16, message: Vec<char>, rollback: bool) -> (r: (InviteStage, InviteAction))
    ensures
        r.0 is Done,
        invite_answers(r.1, status, message@, rollback),
{
    (InviteStage::Done, InviteAction::Answer(answer(status, message, rollback)))
}

/// One step of inviting a user into an owner group.
pub fn invite_step(stage: InviteStage, event: InviteEvent) -> (r: (InviteStage, InviteAction))
    requires
        invite_event_fits(stage, event),
    ensures
        invite_transition(stage, event, r),
{
    match stage {
        InviteStage::CheckMembership { owner_id, username } => match event {
            InviteEvent::Found(Ok(Some(_))) => {
                let u = username.clone();
                (InviteStage::FindUser { owner_id, username }, InviteAction::FindUser { username: u })
            },
            InviteEvent::Found(Ok(None)) => invite_answer(401, Vec::new(), false),
            InviteEvent::Found(Err(_)) => invite_answer(500, Vec::new(), false),
            _ => (InviteStage::Done, InviteAction::Commit),
        },
        InviteStage::FindUser { owner_id, username } => match event {
            InviteEvent::Found(Ok(Some(u))) => (
                InviteStage::BeginTransaction { owner_id, user_id: u },
                InviteAction::BeginTransaction,
            ),
            InviteEvent::Found(Ok(None)) => invite_answer(
                400,
                text_with("User not found with username ", username.as_str()),
                false,
            ),
            InviteEvent::Found(Err(_)) => invite_answer(500, Vec::new(), false),
            _ => (InviteStage::Done, InviteAction::Commit),
        },
        InviteStage::BeginTransaction { owner_id, user_id } => match event {
            InviteEvent::Done(Ok(_)) => (InviteStage::Insert, InviteAction::Insert { user_id, owner_id }),
            InviteEvent::Done(Err(e)) => invite_answer(
                500,
                text_with("Failed to begin transaction ", e.as_str()),
                false,
            ),
            _ => (InviteStage::Done, InviteAction::Commit),
        },
        InviteStage::Insert => match event {
            InviteEvent::Inserted(Ok(_)) => (InviteStage::Commit, InviteAction::Commit),
            InviteEvent::Inserted(Err(e)) => {
                let duplicate = match &e.constraint {
                    Some(c) => str_eq(c.as_str(), "users_owners_pkey"),
                    None => false,
                };
                if duplicate {
                    invite_answer(400, chars_of("User is already in the owner group"), true)
                } else {
                    invite_answer(400, chars_of("Failed to invite member to owner group"), true)
                }
            },
            _ => (InviteStage::Done, InviteAction::Commit),
        },
        InviteStage::Commit => match event {
            InviteEvent::Done(Ok(_)) => invite_answer(204, Vec::new(), false),
            InviteEvent::Done(Err(e)) => invite_answer(
                500,
                text_with("Failed to commit transaction ", e.as_str()),
                false,
            ),
            _ => (InviteStage::Done, InviteAction::Commit),
        },
        InviteStage::Done => (InviteStage::Done, InviteAction::Commit),
    }
}

/// A row of `users_owners`: a user's membership of an owner group.
#[derive(PartialEq, Eq, Structural, Clone, Copy)]
pub struct Membership {
    pub user_id: u128,
    pub owner_id: u128,
}

/// The membership that a removal checks first: that of the signed-in
/// user `auth_id` in the group.
pub fn removal_check(auth_id: u128, owner_id: u128) -> (r: Membership)
    ensures
        r == (Membership { user_id: auth_id, owner_id }),
{
    Membership { user_id: auth_id, owner_id }
}

/// How a removal of `user_id` from the group `owner_id` goes once the
/// signed-in user's membership was looked up: only a member of the group
/// may remove anyone from it, and what is then deleted is the membership
/// of `user_id` in that group, and nothing else.
pub fn removal_after_membership_check(
    membership: Result<bool, String>,
    owner_id: u128,
    user_id: u128,
) -> (r: Result<Membership, Answer>)
    ensures
        membership matches Ok(true) ==> r == Ok::<Membership, Answer>(Membership { user_id, owner_id }),
        membership matches Ok(false) ==> (r matches Err(a) && answered(a, 401, Seq::empty(), false)),
        membership is Err ==> (r matches Err(a) && answered(a, 500, Seq::empty(), false)),
{
    match membership {
        Ok(true) => Ok(Membership { user_id, owner_id }),
        Ok(false) => Err(answer(401, Vec::new(), false)),
        Err(_) => Err(answer(500, Vec::new(), false)),
    }
}

/// The answer once the membership row was (or was not) deleted.
pub fn removal_answer(deleted: bool) -> (r: Answer)
    ensures
        deleted ==> answered(r, 204, Seq::empty(), false),
        !deleted ==> answered(r, 400, "Failed to remove owner group member"@, false),
{
    if deleted {
        answer(204, Vec::new(), false)
    } else {
        answer(400, chars_of("Failed to remove owner group member"), false)
    }
}

/// Where the creation of an owner group stands.
pub enum OwnerStage {
    CheckName,
    BeginTransaction,
    Insert,
    Done,
}

pub enum OwnerAction {
    BeginTransaction,
    /// Insert the group with a new id. The transaction is not committed
    /// afterwards.
    Insert,
    Answer(Answer),
}

/// How the creation of an owner group starts: a name of more than 128
/// characters is answered 400.
pub fn owner_start(name: &str) -> (r: Result<OwnerStage, Answer>)
    ensures
        name@.len() <= OWNER_NAME_MAX ==> r matches Ok(OwnerStage::CheckName),
        name@.len() > OWNER_NAME_MAX ==> (r matches Err(a) && answered(
            a,
            400,
            "name: length is greater than 128\n"@,
            false,
        )),
{
    if name.unicode_len() <= OWNER_NAME_MAX {
        Ok(OwnerStage::CheckName)
    } else {
        Err(answer(400, chars_of("name: length is greater than 128\n"), false))
    }
}

/// The transitions of the creation of an owner group named `name`.
pub open spec fn owner_transition(
    name: Seq<char>,
    stage: OwnerStage,
    taken: Result<bool, String>,
    r: (OwnerStage, OwnerAction),
) -> bool {
    &&& r.1 is Answer ==> r.0 is Done
    &&& match stage {
        OwnerStage::CheckName => match taken {
            Ok(false) => r.0 is BeginTransaction && r.1 is BeginTransaction,
            Ok(true) => r.1 matches OwnerAction::Answer(a) && answered(
                a,
                400,
                "Project with name "@ + name + " already exists"@,
                false,
            ),
            Err(_) => r.1 matches OwnerAction::Answer(a) && answered(a, 400, Seq::empty(), false),
        },
        OwnerStage::BeginTransaction => match taken {
            Ok(_) => r.0 is Insert && r.1 is Insert,
            Err(e) => r.1 matches OwnerAction::Answer(a) && answered(
                a,
                400,
                "Failed to begin transaction "@ + e@,
                false,
            ),
        },
        OwnerStage::Insert => match taken {
            Ok(_) => r.1 matches OwnerAction::Answer(a) && answered(a, 200, Seq::empty(), false),
            Err(_) => r.1 matches OwnerAction::Answer(a) && answered(
                a,
                400,
                "Failed to insert project owner into database"@,
                true,
            ),
        },
        OwnerStage::Done => false,
    }
}

/// One step of creating an owner group. `outcome` is, after the name
/// check, whether the name is taken; after the other steps, `Ok` where the
/// step went through; or the error.
pub fn owner_step(name: &str, stage: OwnerStage, outcome: Result<bool, String>) -> (r: (OwnerStage, OwnerAction))
    requires
        !(stage is Done),
    ensures
        owner_transition(name@, stage, outcome, r),
{
    match stage {
        OwnerStage::CheckName => match outcome {
            Ok(false) => (OwnerStage::BeginTransaction, OwnerAction::BeginTransaction),
            Ok(true) => {
                let mut m = text_with("Project with name ", name);
                append_chars(&mut m, " already exists");
                (OwnerStage::Done, OwnerAction::Answer(answer(400, m, false)))
            },
            Err(_) => (OwnerStage::Done, OwnerAction::Answer(answer(400, Vec::new(), false))),
        },
        OwnerStage::BeginTransaction => match outcome {
            Ok(_) => (OwnerStage::Insert, OwnerAction::Insert),
            Err(e) => (
                OwnerStage::Done,
                OwnerAction::Answer(answer(400, text_with("Failed to begin transaction ", e.as_str()), false)),
            ),
        },
        OwnerStage::Insert => match outcome {
            Ok(_) => (OwnerStage::Done, OwnerAction::Answer(answer(200, Vec::new(), false))),
            Err(_) => (
                OwnerStage::Done,
                OwnerAction::Answer(answer(400, chars_of("Failed to insert project owner into database"), true)),
            ),
        },
        OwnerStage::Done => (OwnerStage::Done, OwnerAction::Insert),
    }
}

/// Only a member of a group can bring anyone into it: an invitation that
/// gets past the membership check did so because the inviting user was
/// found in the group.
pub proof fn invitation_requires_membership(
    stage: InviteStage,
    event: InviteEvent,
    r: (InviteStage, InviteAction),
)
    requires
        invite_event_fits(stage, event),
        invite_transition(stage, event, r),
    ensures
        r.0 is FindUser ==> stage is CheckMembership && event matches InviteEvent::Found(Ok(Some(_))),
        r.1 is Insert ==> stage is BeginTransaction,
        r.0 is BeginTransaction ==> stage is FindUser,
{
}

} // verus!
