//! Deleting a project: every resource of the project is removed on its
//! own, and the answer reports how each removal went.
use vstd::prelude::*;
use crate::docker::db_spec;
use crate::pages::Route;
use crate::naming::{container_name, repo_path, spec_container_name, spec_repo_path};
use crate::text::{append_chars, chars_of, str_eq, string_of, strings};

verus! {

/// The report of a resource that is gone.
pub open spec fn deleted() -> Seq<char> {
    "successfully deleted"@
}

/// What came of removing a container (the project's or its database's):
/// whether it existed, and, where it did, whether stopping it and then
/// removing it went through.
pub fn container_report(exists: bool, stopped: bool, removed: bool) -> (r: String)
    ensures
        !exists ==> r@ == "failed to delete: container does not exist"@,
        exists && !stopped ==> r@ == "failed to delete: container error"@,
        exists && stopped && !removed ==> r@ == "failed to delete: container error"@,
        exists && stopped && removed ==> r@ == deleted(),
{
    if !exists {
        "failed to delete: container does not exist".to_owned()
    } else if !stopped || !removed {
        "failed to delete: container error".to_owned()
    } else {
        "successfully deleted".to_owned()
    }
}

/// The kinds of resource that are inspected and then removed in one step.
#[derive(PartialEq, Eq, Structural, Clone, Copy)]
pub enum Resource {
    Image,
    Volume,
    Network,
}

/// What came of removing an image, volume or network: whether it existed,
/// and, where it did, whether removing it went through.
pub fn resource_report(kind: Resource, exists: bool, removed: bool) -> (r: String)
    ensures
        exists && removed ==> r@ == deleted(),
        !exists ==> r@ == (match kind {
            Resource::Image => "failed to delete: image does not exist"@,
            Resource::Volume => "failed to delete: volume does not exist"@,
            Resource::Network => "failed to delete: network does not exist"@,
        }),
        exists && !removed ==> r@ == (match kind {
            Resource::Image => "failed to delete: image error"@,
            Resource::Volume => "failed to delete: volume error"@,
            Resource::Network => "failed to delete: network error"@,
        }),
{
    if exists && removed {
        "successfully deleted".to_owned()
    } else if !exists {
        match kind {
            Resource::Image => "failed to delete: image does not exist".to_owned(),
            Resource::Volume => "failed to delete: volume does not exist".to_owned(),
            Resource::Network => "failed to delete: network does not exist".to_owned(),
        }
    } else {
        match kind {
            Resource::Image => "failed to delete: image error".to_owned(),
            Resource::Volume => "failed to delete: volume error".to_owned(),
            Resource::Network => "failed to delete: network error".to_owned(),
        }
    }
}

/// What came of removing the repository directory: whether it existed,
/// and, where it did, whether removing it went through.
pub fn repo_report(exists: bool, removed: bool) -> (r: String)
    ensures
        !exists ==> r@ == "failed to delete: repo does not exist"@,
        exists && !removed ==> r@ == "failed to delete: repo error"@,
        exists && removed ==> r@ == deleted(),
{
    if !exists {
        "failed to delete: repo does not exist".to_owned()
    } else if !removed {
        "failed to delete: repo error".to_owned()
    } else {
        "successfully deleted".to_owned()
    }
}

/// What came of looking up the project's row.
pub enum ProjectRow {
    /// The owner group does not exist (or could not be read): no report.
    NoOwner,
    Missing,
    LookupFailed,
    /// The row exists; whether deleting it went through.
    Deleted(bool),
}

/// The report on the project's row, where there is one.
pub fn project_report(row: ProjectRow) -> (r: Option<String>)
    ensures
        row is NoOwner <==> r is None,
        row is Missing ==> (r matches Some(s) && s@ == "failed to delete: project does not exist"@),
        row is LookupFailed ==> (r matches Some(s) && s@ == "failed to delete: database error"@),
        row == ProjectRow::Deleted(false) ==> (r matches Some(s) && s@ == "failed to delete: database error"@),
        row == ProjectRow::Deleted(true) ==> (r matches Some(s) && s@ == deleted()),
{
    match row {
        ProjectRow::NoOwner => None,
        ProjectRow::Missing => Some("failed to delete: project does not exist".to_owned()),
        ProjectRow::LookupFailed => Some("failed to delete: database error".to_owned()),
        ProjectRow::Deleted(false) => Some("failed to delete: database error".to_owned()),
        ProjectRow::Deleted(true) => Some("successfully deleted".to_owned()),
    }
}

/// Whether every report says its resource is gone (an empty report counts
/// as success).
pub open spec fn spec_all_deleted(reports: Seq<(String, String)>) -> bool {
    forall|i: int| 0 <= i < reports.len() ==> #[trigger] reports[i].1@ == deleted()
}

pub fn all_deleted(reports: &Vec<(String, String)>) -> (r: bool)
    ensures
        r == spec_all_deleted(reports@),
{
    let mut i: usize = 0;
    while i < reports.len()
        invariant
            i <= reports@.len(),
            forall|j: int| 0 <= j < i ==> #[trigger] reports@[j].1@ == deleted(),
        decreases reports.len() - i,
    {
        if !str_eq(reports[i].1.as_str(), "successfully deleted") {
            return false;
        }
        i = i + 1;
    }
    true
}

/// Whether the signed-in user may delete the projects of `owner`: only the
/// user whose own owner group it is (anyone where nobody is signed in).
pub fn may_delete(current_user: Option<&str>, owner: &str) -> (r: bool)
    ensures
        r == (match current_user {
            Some(u) => u@ == owner@,
            None => true,
        }),
{
    match current_user {
        Some(u) => str_eq(u, owner),
        None => true,
    }
}

/// What came of deleting a project's database volume, and whether the
/// database container is to be started again.
pub fn volume_deletion(db_stopped: bool, volume_exists: bool, removed: bool) -> (r: (String, bool))
    ensures
        r.1 == db_stopped,
        r.0@ == (if !volume_exists {
            "failed to delete: volume does not exist"@
        } else if !removed {
            "failed to delete: volume error"@
        } else {
            deleted()
        }),
{
    (resource_report(Resource::Volume, volume_exists, removed), db_stopped)
}

/// A deletion is reported as a success exactly when no resource reported
/// a failure: adding a failed report to any set of reports makes the
/// deletion fail.
pub proof fn one_failure_fails_the_deletion(reports: Seq<(String, String)>, i: int)
    requires
        0 <= i < reports.len(),
        reports[i].1@ != deleted(),
    ensures
        !spec_all_deleted(reports),
{
}

// ---------------------------------------------------------------------
// The deletion of a project, step by step.

/// The resources of a project's deployment, in the order they are
/// removed.
#[derive(PartialEq, Eq, Structural, Clone, Copy)]
pub enum Part {
    Container,
    Image,
    Db,
    Volume,
    Network,
}

/// The report of a container's removal.
pub open spec fn spec_container_report(exists: bool, stopped: bool, removed: bool) -> Seq<char> {
    if !exists {
        "failed to delete: container does not exist"@
    } else if !stopped || !removed {
        "failed to delete: container error"@
    } else {
        deleted()
    }
}

/// The report of the removal of an image, volume or network.
pub open spec fn spec_resource_report(kind: Resource, exists: bool, removed: bool) -> Seq<char> {
    if exists && removed {
        deleted()
    } else if !exists {
        match kind {
            Resource::Image => "failed to delete: image does not exist"@,
            Resource::Volume => "failed to delete: volume does not exist"@,
            Resource::Network => "failed to delete: network does not exist"@,
        }
    } else {
        match kind {
            Resource::Image => "failed to delete: image error"@,
            Resource::Volume => "failed to delete: volume error"@,
            Resource::Network => "failed to delete: network error"@,
        }
    }
}

/// The key a part is reported under.
pub open spec fn part_key(p: Part) -> Seq<char> {
    match p {
        Part::Container => "container"@,
        Part::Image => "image"@,
        Part::Db => "db"@,
        Part::Volume => "volume"@,
        Part::Network => "network"@,
    }
}

/// The Docker object of a part, for the container `c`.
pub open spec fn part_object(p: Part, c: Seq<char>) -> Seq<char> {
    match p {
        Part::Container => c,
        Part::Image => c,
        Part::Db => c + "-db"@,
        Part::Volume => c + "-volume"@,
        Part::Network => c + "-network"@,
    }
}

/// Whether a part is a container, stopped before it is removed.
pub open spec fn is_container(p: Part) -> bool {
    p == Part::Container || p == Part::Db
}

pub open spec fn part_resource(p: Part) -> Resource {
    match p {
        Part::Volume => Resource::Volume,
        Part::Network => Resource::Network,
        _ => Resource::Image,
    }
}

/// The report of a part: a container by whether it existed, stopped and
/// was removed; any other by whether it existed and was removed.
pub open spec fn part_report(p: Part, exists: bool, stopped: bool, removed: bool) -> Seq<char> {
    if is_container(p) {
        spec_container_report(exists, stopped, removed)
    } else {
        spec_resource_report(part_resource(p), exists, removed)
    }
}

/// The part removed after `p`, if any.
pub open spec fn next_part(p: Part) -> Option<Part> {
    match p {
        Part::Container => Some(Part::Image),
        Part::Image => Some(Part::Db),
        Part::Db => Some(Part::Volume),
        Part::Volume => Some(Part::Network),
        Part::Network => None,
    }
}

#[derive(Clone, Copy)]
pub enum DeleteStep {
    FindingOwner,
    FindingProject { owner_id: u128 },
    DeletingRow,
    CheckingRepo,
    RemovingRepo,
    Connecting,
    Inspecting(Part),
    Stopping(Part),
    Removing(Part),
    Done,
}

/// A deletion in progress: where it stands, and the reports so far, each
/// under its key, in the order they were made.
pub struct Deletion {
    pub step: DeleteStep,
    pub reports: Vec<(String, String)>,
}

pub open spec fn reports_view(r: Seq<(String, String)>) -> Seq<(Seq<char>, Seq<char>)> {
    r.map_values(|p: (String, String)| (p.0@, p.1@))
}

pub enum DeleteEvent {
    /// The owner group's id, none, or the error of the query.
    Owner(Result<Option<u128>, String>),
    /// Whether the project's row exists, or the error of the query.
    Project(Result<bool, String>),
    /// Whether a step went through.
    Done(bool),
    /// Whether the repository directory, or a Docker object, exists.
    Exists(bool),
}

pub enum DeleteAction {
    QueryOwner { owner: String },
    QueryProject { project: String, owner_id: u128 },
    DeleteRow,
    CheckRepo { path: String },
    RemoveRepo { path: String },
    ConnectDocker,
    Inspect { part: Part, object: String },
    Stop { object: String },
    Remove { part: Part, object: String },
    /// Answer with status 200: whether everything was deleted, and the
    /// reports as `key: report` lines.
    Answer { success: bool, details: Vec<String> },
    /// Answer with status 400: the user may not delete the project.
    Refuse,
}

/// The status and message of a deletion's answer: 200 either way. The
/// API says "Successfully deleted project" where everything was deleted
/// and "Failed to delete project" where not; the form page says
/// "successfully deleted repo" and "some action failed".
pub fn deletion_answer(route: Route, success: bool) -> (r: (u16, String))
    ensures
        r.0 == 200,
        route == Route::Api && success ==> r.1@ == "Successfully deleted project"@,
        route == Route::Api && !success ==> r.1@ == "Failed to delete project"@,
        route == Route::Form && success ==> r.1@ == "successfully deleted repo"@,
        route == Route::Form && !success ==> r.1@ == "some action failed"@,
{
    match (route, success) {
        (Route::Api, true) => (200, string_of(&chars_of("Successfully deleted project"))),
        (Route::Api, false) => (200, string_of(&chars_of("Failed to delete project"))),
        (Route::Form, true) => (200, string_of(&chars_of("successfully deleted repo"))),
        (Route::Form, false) => (200, string_of(&chars_of("some action failed"))),
    }
}

/// The lines of a deletion's reports as `route` shows them: `key: report`
/// in the API, `key report` on the form page.
pub open spec fn route_lines(route: Route, reports: Seq<(Seq<char>, Seq<char>)>) -> Seq<Seq<char>> {
    if route == Route::Api {
        detail_lines(reports)
    } else {
        reports.map_values(|p: (Seq<char>, Seq<char>)| p.0 + " "@ + p.1)
    }
}

/// The report lines that `route` shows for a deletion's reports.
pub fn deletion_lines(route: Route, reports: &Vec<(String, String)>) -> (r: Vec<String>)
    ensures
        strings(r@) == route_lines(route, reports_view(reports@)),
{
    let mut out: Vec<String> = Vec::new();
    let mut i: usize = 0;
    while i < reports.len()
        invariant
            i <= reports.len(),
            out.len() == i,
            forall|j: int| 0 <= j < i ==> #[trigger] out@[j]@ == route_lines(route, reports_view(reports@))[j],
        decreases reports.len() - i,
    {
        let mut line = chars_of(reports[i].0.as_str());
        match route {
            Route::Api => append_chars(&mut line, ": "),
            Route::Form => append_chars(&mut line, " "),
        }
        append_chars(&mut line, reports[i].1.as_str());
        out.push(string_of(&line));
        i = i + 1;
    }
    assert(strings(out@) =~= route_lines(route, reports_view(reports@)));
    out
}

/// The status and message of a refused deletion.
pub fn deletion_refusal() -> (r: (u16, String))
    ensures
        r.0 == 400,
        r.1@ == "You are not allowed to delete this project"@,
{
    (400, string_of(&chars_of("You are not allowed to delete this project")))
}

pub open spec fn delete_event_fits(step: DeleteStep, e: DeleteEvent) -> bool {
    match step {
        DeleteStep::FindingOwner => e is Owner,
        DeleteStep::FindingProject { .. } => e is Project,
        DeleteStep::CheckingRepo => e is Exists,
        DeleteStep::Inspecting(_) => e is Exists,
        DeleteStep::Done => false,
        _ => e is Done,
    }
}

/// The lines of the answer: each report as `key: report`.
pub open spec fn detail_lines(reports: Seq<(Seq<char>, Seq<char>)>) -> Seq<Seq<char>> {
    reports.map_values(|p: (Seq<char>, Seq<char>)| p.0 + ": "@ + p.1)
}

pub open spec fn all_gone(reports: Seq<(Seq<char>, Seq<char>)>) -> bool {
    forall|i: int| 0 <= i < reports.len() ==> #[trigger] reports[i].1 == deleted()
}

/// The answer that ends a deletion with `reports`.
pub open spec fn concludes(a: DeleteAction, reports: Seq<(Seq<char>, Seq<char>)>) -> bool {
    a matches DeleteAction::Answer { success, details } && success == all_gone(reports) && strings(
        details@,
    ) == detail_lines(reports)
}

/// The deletion moves on to `step`, adding the report `value` under `key`.
pub open spec fn reports_and_moves(
    s: Deletion,
    key: Seq<char>,
    value: Seq<char>,
    step: DeleteStep,
    r: Deletion,
) -> bool {
    r.step == step && reports_view(r.reports@) == reports_view(s.reports@).push((key, value))
}

/// Where a deletion goes once part `p` is reported: to the next part, or
/// to the answer.
pub open spec fn after_part(
    s: Deletion,
    p: Part,
    report: Seq<char>,
    c: Seq<char>,
    r: (Deletion, DeleteAction),
) -> bool {
    match next_part(p) {
        Some(q) => reports_and_moves(s, part_key(p), report, DeleteStep::Inspecting(q), r.0) && (r.1 matches DeleteAction::Inspect {
            part,
            object,
        } && part == q && object@ == part_object(q, c)),
        None => reports_and_moves(s, part_key(p), report, DeleteStep::Done, r.0) && concludes(
            r.1,
            reports_view(r.0.reports@),
        ),
    }
}

pub open spec fn delete_transition(
    owner: Seq<char>,
    project: Seq<char>,
    base: Seq<char>,
    s: Deletion,
    e: DeleteEvent,
    r: (Deletion, DeleteAction),
) -> bool {
    let c = spec_container_name(owner, project);
    let path = spec_repo_path(base, owner, project);
    let to_repo = r.1 matches DeleteAction::CheckRepo { path: p } && p@ == path;
    let keeps = reports_view(r.0.reports@) == reports_view(s.reports@);
    match (s.step, e) {
        (DeleteStep::FindingOwner, DeleteEvent::Owner(Ok(Some(id)))) => r.0.step == (DeleteStep::FindingProject {
            owner_id: id,
        }) && keeps && (r.1 matches DeleteAction::QueryProject { project: p, owner_id } && p@ == project
            && owner_id == id),
        (DeleteStep::FindingOwner, DeleteEvent::Owner(_)) => r.0.step == DeleteStep::CheckingRepo && keeps
            && to_repo,
        (DeleteStep::FindingProject { .. }, DeleteEvent::Project(Ok(true))) => r.0.step == DeleteStep::DeletingRow
            && keeps && r.1 is DeleteRow,
        (DeleteStep::FindingProject { .. }, DeleteEvent::Project(Ok(false))) => reports_and_moves(
            s,
            "project"@,
            "failed to delete: project does not exist"@,
            DeleteStep::CheckingRepo,
            r.0,
        ) && to_repo,
        (DeleteStep::FindingProject { .. }, DeleteEvent::Project(Err(_))) => reports_and_moves(
            s,
            "project"@,
            "failed to delete: database error"@,
            DeleteStep::CheckingRepo,
            r.0,
        ) && to_repo,
        (DeleteStep::DeletingRow, DeleteEvent::Done(ok)) => reports_and_moves(
            s,
            "project"@,
            if ok { deleted() } else { "failed to delete: database error"@ },
            DeleteStep::CheckingRepo,
            r.0,
        ) && to_repo,
        (DeleteStep::CheckingRepo, DeleteEvent::Exists(true)) => r.0.step == DeleteStep::RemovingRepo
            && keeps && (r.1 matches DeleteAction::RemoveRepo { path: p } && p@ == path),
        (DeleteStep::CheckingRepo, DeleteEvent::Exists(false)) => reports_and_moves(
            s,
            "repo"@,
            "failed to delete: repo does not exist"@,
            DeleteStep::Connecting,
            r.0,
        ) && r.1 is ConnectDocker,
        (DeleteStep::RemovingRepo, DeleteEvent::Done(ok)) => reports_and_moves(
            s,
            "repo"@,
            if ok { deleted() } else { "failed to delete: repo error"@ },
            DeleteStep::Connecting,
            r.0,
        ) && r.1 is ConnectDocker,
        (DeleteStep::Connecting, DeleteEvent::Done(true)) => r.0.step == DeleteStep::Inspecting(Part::Container)
            && keeps && (r.1 matches DeleteAction::Inspect { part, object } && part == Part::Container
            && object@ == c),
        (DeleteStep::Connecting, DeleteEvent::Done(false)) => reports_and_moves(
            s,
            "container"@,
            "failed to delete: docker error"@,
            DeleteStep::Done,
            r.0,
        ) && concludes(r.1, reports_view(r.0.reports@)),
        (DeleteStep::Inspecting(p), DeleteEvent::Exists(true)) => if is_container(p) {
            r.0.step == DeleteStep::Stopping(p) && keeps && (r.1 matches DeleteAction::Stop { object }
                && object@ == part_object(p, c))
        } else {
            r.0.step == DeleteStep::Removing(p) && keeps && (r.1 matches DeleteAction::Remove {
                part,
                object,
            } && part == p && object@ == part_object(p, c))
        },
        (DeleteStep::Inspecting(p), DeleteEvent::Exists(false)) => after_part(
            s,
            p,
            part_report(p, false, false, false),
            c,
            r,
        ),
        (DeleteStep::Stopping(p), DeleteEvent::Done(true)) => r.0.step == DeleteStep::Removing(p) && keeps
            && (r.1 matches DeleteAction::Remove { part, object } && part == p && object@ == part_object(
            p,
            c,
        )),
        (DeleteStep::Stopping(p), DeleteEvent::Done(false)) => after_part(
            s,
            p,
            part_report(p, true, false, false),
            c,
            r,
        ),
        (DeleteStep::Removing(p), DeleteEvent::Done(ok)) => after_part(
            s,
            p,
            part_report(p, true, true, ok),
            c,
            r,
        ),
        _ => false,
    }
}

fn own(s: &str) -> (r: String)
    ensures
        r@ == s@,
{
    string_of(&chars_of(s))
}

/// The first step of deleting `owner`'s project: refused where the
/// signed-in user is another user; else the owner group is looked up.
pub fn delete_start(current_user: Option<&str>, owner: &str) -> (r: (Deletion, DeleteAction))
    ensures
        r.0.reports@.len() == 0,
        !may_delete_spec(current_user, owner@) ==> r.1 is Refuse && r.0.step is Done,
        may_delete_spec(current_user, owner@) ==> r.0.step is FindingOwner && (r.1 matches DeleteAction::QueryOwner {
            owner: o,
        } && o@ == owner@),
{
    let d = Deletion { step: DeleteStep::FindingOwner, reports: Vec::new() };
    if may_delete(current_user, owner) {
        (d, DeleteAction::QueryOwner { owner: own(owner) })
    } else {
        (Deletion { step: DeleteStep::Done, reports: Vec::new() }, DeleteAction::Refuse)
    }
}

pub open spec fn may_delete_spec(current_user: Option<&str>, owner: Seq<char>) -> bool {
    match current_user {
        Some(u) => u@ == owner,
        None => true,
    }
}

fn push_report(s: Deletion, key: &str, value: String, step: DeleteStep) -> (r: Deletion)
    ensures
        reports_and_moves(s, key@, value@, step, r),
{
    let mut reports = s.reports;
    reports.push((own(key), value));
    assert(reports_view(reports@) =~= reports_view(s.reports@).push((key@, value@)));
    Deletion { step, reports }
}

fn conclude(d: &Deletion) -> (r: DeleteAction)
    ensures
        concludes(r, reports_view(d.reports@)),
{
    let success = all_deleted(&d.reports);
    let mut details: Vec<String> = Vec::new();
    let mut i: usize = 0;
    while i < d.reports.len()
        invariant
            i <= d.reports.len(),
            details.len() == i,
            forall|j: int| 0 <= j < i ==> #[trigger] details@[j]@ == detail_lines(reports_view(d.reports@))[j],
        decreases d.reports.len() - i,
    {
        let mut line = chars_of(d.reports[i].0.as_str());
        append_chars(&mut line, ": ");
        append_chars(&mut line, d.reports[i].1.as_str());
        details.push(string_of(&line));
        i = i + 1;
    }
    assert(strings(details@) =~= detail_lines(reports_view(d.reports@)));
    assert(success == all_gone(reports_view(d.reports@))) by {
        if success {
            assert forall|k: int| 0 <= k < reports_view(d.reports@).len() implies #[trigger] reports_view(
                d.reports@,
            )[k].1 == deleted() by {
                assert(d.reports@[k].1@ == deleted());
            }
        } else {
            let k = choose|k: int| 0 <= k < d.reports@.len() && #[trigger] d.reports@[k].1@ != deleted();
            assert(reports_view(d.reports@)[k].1 != deleted());
        }
    }
    DeleteAction::Answer { success, details }
}

fn part_name(p: Part, c: &str) -> (r: String)
    ensures
        r@ == part_object(p, c@),
{
    let mut v = chars_of(c);
    match p {
        Part::Db => append_chars(&mut v, "-db"),
        Part::Volume => append_chars(&mut v, "-volume"),
        Part::Network => append_chars(&mut v, "-network"),
        _ => {},
    }
    proof {
        if p == Part::Container || p == Part::Image {
            assert(v@ =~= c@);
        }
    }
    string_of(&v)
}

fn part_key_text(p: Part) -> (r: &'static str)
    ensures
        r@ == part_key(p),
{
    match p {
        Part::Container => "container",
        Part::Image => "image",
        Part::Db => "db",
        Part::Volume => "volume",
        Part::Network => "network",
    }
}

fn report_of(p: Part, exists: bool, stopped: bool, removed: bool) -> (r: String)
    ensures
        r@ == part_report(p, exists, stopped, removed),
{
    match p {
        Part::Container | Part::Db => container_report(exists, stopped, removed),
        Part::Image => resource_report(Resource::Image, exists, removed),
        Part::Volume => resource_report(Resource::Volume, exists, removed),
        Part::Network => resource_report(Resource::Network, exists, removed),
    }
}

fn finish_part(s: Deletion, p: Part, report: String, c: &str) -> (r: (Deletion, DeleteAction))
    ensures
        after_part(s, p, report@, c@, r),
{
    let key = part_key_text(p);
    match p {
        Part::Container => {
            let d = push_report(s, key, report, DeleteStep::Inspecting(Part::Image));
            (d, DeleteAction::Inspect { part: Part::Image, object: part_name(Part::Image, c) })
        },
        Part::Image => {
            let d = push_report(s, key, report, DeleteStep::Inspecting(Part::Db));
            (d, DeleteAction::Inspect { part: Part::Db, object: part_name(Part::Db, c) })
        },
        Part::Db => {
            let d = push_report(s, key, report, DeleteStep::Inspecting(Part::Volume));
            (d, DeleteAction::Inspect { part: Part::Volume, object: part_name(Part::Volume, c) })
        },
        Part::Volume => {
            let d = push_report(s, key, report, DeleteStep::Inspecting(Part::Network));
            (d, DeleteAction::Inspect { part: Part::Network, object: part_name(Part::Network, c) })
        },
        Part::Network => {
            let d = push_report(s, key, report, DeleteStep::Done);
            let a = conclude(&d);
            (d, a)
        },
    }
}

/// One step of deleting a project: its row (where its owner group
/// exists), its repository, then its container, image, database, volume
/// and network, each reported on its own; the answer says whether all of
/// them are gone and lists every report.
#[verifier::rlimit(40)]
pub fn delete_step(owner: &str, project: &str, base: &str, s: Deletion, e: DeleteEvent) -> (r: (
    Deletion,
    DeleteAction,
))
    requires
        delete_event_fits(s.step, e),
    ensures
        delete_transition(owner@, project@, base@, s, e, r),
{
    let c = container_name(owner, project);
    match s.step {
        DeleteStep::FindingOwner => match e {
            DeleteEvent::Owner(Ok(Some(id))) => (
                Deletion { step: DeleteStep::FindingProject { owner_id: id }, reports: s.reports },
                DeleteAction::QueryProject { project: own(project), owner_id: id },
            ),
            _ => (
                Deletion { step: DeleteStep::CheckingRepo, reports: s.reports },
                DeleteAction::CheckRepo { path: repo_path(base, owner, project) },
            ),
        },
        DeleteStep::FindingProject { .. } => match e {
            DeleteEvent::Project(Ok(true)) => (
                Deletion { step: DeleteStep::DeletingRow, reports: s.reports },
                DeleteAction::DeleteRow,
            ),
            DeleteEvent::Project(Ok(false)) => (
                push_report(s, "project", own("failed to delete: project does not exist"), DeleteStep::CheckingRepo),
                DeleteAction::CheckRepo { path: repo_path(base, owner, project) },
            ),
            _ => (
                push_report(s, "project", own("failed to delete: database error"), DeleteStep::CheckingRepo),
                DeleteAction::CheckRepo { path: repo_path(base, owner, project) },
            ),
        },
        DeleteStep::DeletingRow => {
            let ok = match e {
                DeleteEvent::Done(b) => b,
                _ => false,
            };
            let report = if ok {
                own("successfully deleted")
            } else {
                own("failed to delete: database error")
            };
            (
                push_report(s, "project", report, DeleteStep::CheckingRepo),
                DeleteAction::CheckRepo { path: repo_path(base, owner, project) },
            )
        },
        DeleteStep::CheckingRepo => match e {
            DeleteEvent::Exists(true) => (
                Deletion { step: DeleteStep::RemovingRepo, reports: s.reports },
                DeleteAction::RemoveRepo { path: repo_path(base, owner, project) },
            ),
            _ => (
                push_report(s, "repo", own("failed to delete: repo does not exist"), DeleteStep::Connecting),
                DeleteAction::ConnectDocker,
            ),
        },
        DeleteStep::RemovingRepo => {
            let ok = match e {
                DeleteEvent::Done(b) => b,
                _ => false,
            };
            let report = repo_report(true, ok);
            (push_report(s, "repo", report, DeleteStep::Connecting), DeleteAction::ConnectDocker)
        },
        DeleteStep::Connecting => match e {
            DeleteEvent::Done(true) => (
                Deletion { step: DeleteStep::Inspecting(Part::Container), reports: s.reports },
                DeleteAction::Inspect { part: Part::Container, object: c },
            ),
            _ => {
                let d = push_report(s, "container", own("failed to delete: docker error"), DeleteStep::Done);
                let a = conclude(&d);
                (d, a)
            },
        },
        DeleteStep::Inspecting(p) => match e {
            DeleteEvent::Exists(true) => match p {
                Part::Container | Part::Db => (
                    Deletion { step: DeleteStep::Stopping(p), reports: s.reports },
                    DeleteAction::Stop { object: part_name(p, c.as_str()) },
                ),
                _ => (
                    Deletion { step: DeleteStep::Removing(p), reports: s.reports },
                    DeleteAction::Remove { part: p, object: part_name(p, c.as_str()) },
                ),
            },
            _ => {
                let report = report_of(p, false, false, false);
                finish_part(s, p, report, c.as_str())
            },
        },
        DeleteStep::Stopping(p) => match e {
            DeleteEvent::Done(true) => (
                Deletion { step: DeleteStep::Removing(p), reports: s.reports },
                DeleteAction::Remove { part: p, object: part_name(p, c.as_str()) },
            ),
            _ => {
                let report = report_of(p, true, false, false);
                finish_part(s, p, report, c.as_str())
            },
        },
        DeleteStep::Removing(p) => {
            let ok = match e {
                DeleteEvent::Done(b) => b,
                _ => false,
            };
            let report = report_of(p, true, true, ok);
            finish_part(s, p, report, c.as_str())
        },
        DeleteStep::Done => (Deletion { step: DeleteStep::Done, reports: s.reports }, DeleteAction::Refuse),
    }
}

/// Every part of a project is reported on exactly once, in order: a
/// deletion only ever adds one report at a time, and it answers only after
/// the network, or where Docker cannot be reached.
pub proof fn deletion_reports_one_part_at_a_time(
    owner: Seq<char>,
    project: Seq<char>,
    base: Seq<char>,
    s: Deletion,
    e: DeleteEvent,
    r: (Deletion, DeleteAction),
)
    requires
        delete_event_fits(s.step, e),
        delete_transition(owner, project, base, s, e, r),
    ensures
        r.0.reports@.len() == s.reports@.len() || r.0.reports@.len() == s.reports@.len() + 1,
        reports_view(r.0.reports@).take(s.reports@.len() as int) == reports_view(s.reports@),
        r.1 is Answer ==> s.step == DeleteStep::Connecting || s.step == DeleteStep::Inspecting(
            Part::Network,
        ) || s.step == DeleteStep::Stopping(Part::Network) || s.step == DeleteStep::Removing(
            Part::Network,
        ),
{
    assert(reports_view(r.0.reports@).len() == r.0.reports@.len());
    assert(reports_view(s.reports@).len() == s.reports@.len());
    if reports_view(r.0.reports@) != reports_view(s.reports@) {
        assert(reports_view(r.0.reports@).take(s.reports@.len() as int) =~= reports_view(s.reports@));
    } else {
        assert(reports_view(r.0.reports@).take(s.reports@.len() as int) =~= reports_view(s.reports@));
    }
}

/// A deletion removes the Docker objects that a build of the same project
/// makes: the database container it inspects, stops or removes is the one
/// a build creates for the project, and the volume it inspects or removes
/// is the one bound as that database container's data, whatever the
/// database's credentials.
pub proof fn deletion_targets_what_the_build_made(
    owner: Seq<char>,
    project: Seq<char>,
    base: Seq<char>,
    s: Deletion,
    e: DeleteEvent,
    r: (Deletion, DeleteAction),
    user: Seq<char>,
    password: Seq<char>,
)
    requires
        delete_event_fits(s.step, e),
        delete_transition(owner, project, base, s, e, r),
    ensures
        ({
            let built = db_spec(spec_container_name(owner, project), user, password);
            &&& r.1 matches DeleteAction::Inspect { part, object } ==> (part == Part::Volume ==> built.volume
                == Some(object@ + ":/var/lib/postgresql/data"@)) && (part == Part::Db ==> object@
                == built.name)
            &&& r.1 matches DeleteAction::Remove { part, object } ==> (part == Part::Volume ==> built.volume
                == Some(object@ + ":/var/lib/postgresql/data"@)) && (part == Part::Db ==> object@
                == built.name)
            &&& r.1 matches DeleteAction::Stop { object } ==> (s.step == DeleteStep::Inspecting(Part::Db)
                ==> object@ == built.name)
        }),
{
    let c = spec_container_name(owner, project);
    assert(c + "-volume"@ + ":/var/lib/postgresql/data"@ =~= (c + "-volume"@) + ":/var/lib/postgresql/data"@);
}

} // verus!
