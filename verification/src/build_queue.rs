//! The build queue: pushed repositories wait in a queue, a bounded number
//! of builds run at once, and each build moves through the database
//! updates that record its outcome.
use vstd::prelude::*;
use crate::docker::DockerContainer;
use crate::text::{append_chars, chars_of, spec_uuid_text, str_eq, string_of, uuid_text};

verus! {

/// Why a build could not be carried out.
pub struct BuildError {
    pub message: String,
    /// What the failing step reported, where it reported something.
    pub inner_error: Option<String>,
}

/// A push that asks for a build.
pub struct BuildQueueItem {
    pub container_name: String,
    pub container_src: String,
    pub owner: String,
    pub repo: String,
}

/// A queued build: a push with the id of its row in `builds`.
pub struct BuildItem {
    pub build_id: u128,
    pub container_name: String,
    pub container_src: String,
    pub owner: String,
    pub repo: String,
}

/// The slots for builds that may run at the same time.
pub struct BuildSlots {
    free: usize,
    max: usize,
}

impl BuildSlots {
    pub closed spec fn free(&self) -> nat {
        self.free as nat
    }

    pub closed spec fn max(&self) -> nat {
        self.max as nat
    }

    /// How many builds run now.
    pub open spec fn running(&self) -> int {
        self.max() - self.free()
    }

    pub closed spec fn wf(&self) -> bool {
        self.free <= self.max
    }

    /// Slots for `max` builds at once, all free.
    pub fn new(max: usize) -> (r: Self)
        ensures
            r.wf(),
            r.free() == max,
            r.max() == max,
            r.running() == 0,
    {
        BuildSlots { free: max, max }
    }

    pub fn free_slots(&self) -> (r: usize)
        ensures
            r == self.free(),
    {
        self.free
    }

    /// Whether a build is taken from the queue: a slot is free and the
    /// queue holds a build.
    pub fn should_pop(&self, waiting: i64) -> (r: bool)
        ensures
            r == (self.free() > 0 && waiting > 0),
    {
        self.free > 0 && waiting > 0
    }

    /// A popped build starts and takes a slot.
    pub fn start_build(&mut self)
        requires
            old(self).wf(),
            old(self).free() > 0,
        ensures
            final(self).wf(),
            final(self).max() == old(self).max(),
            final(self).free() == old(self).free() - 1,
            final(self).running() == old(self).running() + 1,
    {
        self.free = self.free - 1;
    }

    /// A build ended, whatever its outcome, and gives its slot back.
    pub fn finish_build(&mut self)
        requires
            old(self).wf(),
            old(self).running() > 0,
        ensures
            final(self).wf(),
            final(self).max() == old(self).max(),
            final(self).free() == old(self).free() + 1,
            final(self).running() == old(self).running() - 1,
    {
        self.free = self.free + 1;
    }
}

/// However builds start and end, the number running never exceeds the
/// number of slots, and a start followed by its end leaves the slots as
/// they were.
pub proof fn build_slots_are_conserved(s: BuildSlots, t: BuildSlots, u: BuildSlots)
    requires
        s.wf(),
        s.free() > 0,
        t.wf(),
        t.max() == s.max(),
        t.free() == s.free() - 1,
        u.wf(),
        u.max() == t.max(),
        u.free() == t.free() + 1,
    ensures
        0 <= t.running() <= t.max(),
        t.running() == s.running() + 1,
        u.free() == s.free(),
        u.running() == s.running(),
{
}

/// Where the enqueueing of one push stands.
pub enum EnqueueStage {
    /// Look up the project of the push.
    FindProject,
    /// The project exists; check that no build of the container waits.
    CheckQueued { project_id: u128 },
    /// Nothing waits; a row in `builds` is being made.
    CreateBuild { project_id: u128 },
}

/// What came of the step that an enqueue stage asked for.
pub enum EnqueueEvent {
    /// The project's id, none, or a failed query.
    Project(Result<Option<u128>, ()>),
    /// Whether a build of the container waits already, or a failed query.
    Queued(Result<bool, ()>),
    /// The id of the new row in `builds`, or a failed insert.
    Created(Result<u128, ()>),
}

/// What to do next for a push.
pub enum EnqueueAction {
    /// Check the queue for the container.
    CheckQueued,
    /// Insert a row into `builds` for the project.
    CreateBuild { project_id: u128 },
    /// Put the build on the queue.
    Send(u128),
    /// Drop the push.
    Skip,
}

pub open spec fn enqueue_event_fits(stage: EnqueueStage, event: EnqueueEvent) -> bool {
    match stage {
        EnqueueStage::FindProject => event is Project,
        EnqueueStage::CheckQueued { .. } => event is Queued,
        EnqueueStage::CreateBuild { .. } => event is Created,
    }
}

/// The transitions of enqueueing a push.
pub open spec fn enqueue_transition(stage: EnqueueStage, event: EnqueueEvent, r: (EnqueueStage, EnqueueAction)) -> bool {
    match (stage, event) {
        (EnqueueStage::FindProject, EnqueueEvent::Project(Ok(Some(id)))) => r.0 == (
        EnqueueStage::CheckQueued { project_id: id }) && r.1 is CheckQueued,
        (EnqueueStage::FindProject, _) => r.1 is Skip,
        (EnqueueStage::CheckQueued { project_id }, EnqueueEvent::Queued(Ok(false))) => r.0 == (
        EnqueueStage::CreateBuild { project_id }) && r.1 == (EnqueueAction::CreateBuild {
            project_id,
        }),
        (EnqueueStage::CheckQueued { .. }, _) => r.1 is Skip,
        (EnqueueStage::CreateBuild { .. }, EnqueueEvent::Created(Ok(id))) => r.1 == EnqueueAction::Send(id),
        (EnqueueStage::CreateBuild { .. }, _) => r.1 is Skip,
    }
}

/// One step of enqueueing a push: a push whose project is unknown, whose
/// container already waits, or whose build row cannot be made is dropped.
pub fn enqueue_step(stage: EnqueueStage, event: EnqueueEvent) -> (r: (EnqueueStage, EnqueueAction))
    requires
        enqueue_event_fits(stage, event),
    ensures
        enqueue_transition(stage, event, r),
{
    match (stage, event) {
        (EnqueueStage::FindProject, EnqueueEvent::Project(Ok(Some(id)))) => (
            EnqueueStage::CheckQueued { project_id: id },
            EnqueueAction::CheckQueued,
        ),
        (EnqueueStage::FindProject, _) => (EnqueueStage::FindProject, EnqueueAction::Skip),
        (EnqueueStage::CheckQueued { project_id }, EnqueueEvent::Queued(Ok(false))) => (
            EnqueueStage::CreateBuild { project_id },
            EnqueueAction::CreateBuild { project_id },
        ),
        (EnqueueStage::CheckQueued { project_id }, _) => (
            EnqueueStage::CheckQueued { project_id },
            EnqueueAction::Skip,
        ),
        (EnqueueStage::CreateBuild { project_id }, EnqueueEvent::Created(Ok(id))) => (
            EnqueueStage::CreateBuild { project_id },
            EnqueueAction::Send(id),
        ),
        (EnqueueStage::CreateBuild { project_id }, _) => (
            EnqueueStage::CreateBuild { project_id },
            EnqueueAction::Skip,
        ),
    }
}

/// What is put on the queue for a push once its build row `build_id` is
/// made: the build id with the push's container, source, owner and
/// repository.
pub fn queued_build(item: &BuildQueueItem, build_id: u128) -> (r: BuildItem)
    ensures
        r.build_id == build_id,
        r.container_name@ == item.container_name@,
        r.container_src@ == item.container_src@,
        r.owner@ == item.owner@,
        r.repo@ == item.repo@,
{
    BuildItem {
        build_id,
        container_name: item.container_name.clone(),
        container_src: item.container_src.clone(),
        owner: item.owner.clone(),
        repo: item.repo.clone(),
    }
}

/// A push is queued at most once while it waits: a build row is made only
/// for a project that exists and only after the queue was found to hold no
/// build of the push's container, and a build is sent only for the row
/// just made; every other outcome drops the push.
pub proof fn push_queued_only_when_none_waits(
    stage: EnqueueStage,
    event: EnqueueEvent,
    r: (EnqueueStage, EnqueueAction),
)
    requires
        enqueue_event_fits(stage, event),
        enqueue_transition(stage, event, r),
    ensures
        r.1 is CreateBuild ==> stage is CheckQueued && event == EnqueueEvent::Queued(Ok(false)),
        r.1 is CheckQueued ==> stage is FindProject && (event matches EnqueueEvent::Project(Ok(Some(_)))),
        r.1 matches EnqueueAction::Send(id) ==> stage is CreateBuild && event == EnqueueEvent::Created(Ok(id)),
        event == EnqueueEvent::Queued(Ok(true)) ==> r.1 is Skip,
{
}

/// What the poller does with a build it took off the queue, in order:
/// tell the idle watch that the build's container is in use, run the
/// build, and tell the idle watch again once the build has ended.
pub struct BuildRun {
    pub notice_before: String,
    pub build: BuildItem,
    pub notice_after: String,
}

/// The run of a build taken off the queue: both notices to the idle watch
/// name the build's container, and the build is the one taken.
pub fn build_run(item: BuildItem) -> (r: BuildRun)
    ensures
        r.notice_before@ == item.container_name@,
        r.notice_after@ == item.container_name@,
        r.build == item,
{
    let before = item.container_name.clone();
    let after = item.container_name.clone();
    BuildRun { notice_before: before, build: item, notice_after: after }
}

/// A project's row in `domains`.
pub struct DomainRow {
    pub name: String,
    pub subnet: String,
    pub host_ip: String,
}

/// The status that a build's row in `builds` is given.
#[derive(PartialEq, Eq, Structural)]
pub enum BuildStatus {
    Building,
    Successful,
    Failed,
}

/// Where the carrying out of one queued build stands.
pub enum TriggerStage {
    FindProject,
    FindBuild { project_id: u128 },
    MarkBuilding { project_id: u128, build_id: u128 },
    Build { project_id: u128, build_id: u128 },
    MarkSuccessful { project_id: u128, out: DockerContainer },
    MarkRunning { project_id: u128, out: DockerContainer },
    MarkFailed { error: String },
    FindDomain { project_id: u128, out: DockerContainer },
    UpdateSubnet { project_id: u128, domain: DomainRow },
    UpdateHostIp { project_id: u128, domain: DomainRow },
    InsertDomain,
    Done,
}

/// What came of the step that a trigger stage asked for.
pub enum TriggerEvent {
    /// The id found by a lookup, none, or the error of a failed query.
    Lookup(Result<Option<u128>, String>),
    /// Whether an update or insert went through, or its error.
    Written(Result<(), String>),
    /// The build's outcome: what it left, or the text of its error.
    Built(Result<DockerContainer, String>),
    /// The project's domain row, none, or the error of a failed query.
    Domain(Result<Option<DomainRow>, String>),
}

/// What to do next for a build.
pub enum TriggerAction {
    QueryBuild { build_id: u128 },
    SetBuildStatus { build_id: u128, status: BuildStatus, log: Option<String> },
    RunBuild,
    SetProjectRunning { project_id: u128 },
    QueryDomain { project_id: u128 },
    SetDomainSubnet { project_id: u128, subnet: String },
    SetDomainHostIp { project_id: u128, host_ip: String },
    /// Insert a domain row named after the container.
    InsertDomain { project_id: u128, out: DockerContainer },
    /// The build is over: the subdomain it is served at, or why not.
    Finish(Result<String, BuildError>),
}

pub open spec fn trigger_event_fits(stage: TriggerStage, event: TriggerEvent) -> bool {
    match stage {
        TriggerStage::FindProject => event is Lookup,
        TriggerStage::FindBuild { .. } => event is Lookup,
        TriggerStage::Build { .. } => event is Built,
        TriggerStage::FindDomain { .. } => event is Domain,
        TriggerStage::Done => false,
        _ => event is Written,
    }
}

/// The stages that a build reaches only once it has built and its build
/// row has been marked successful.
pub open spec fn after_successful_build(stage: TriggerStage) -> bool {
    ||| stage is MarkSuccessful
    ||| stage is MarkRunning
    ||| stage is FindDomain
    ||| stage is UpdateSubnet
    ||| stage is UpdateHostIp
    ||| stage is InsertDomain
}

/// Whether an action ends the build answering with the subdomain `name`.
pub open spec fn finishes_at(a: TriggerAction, name: Seq<char>) -> bool {
    a matches TriggerAction::Finish(Ok(n)) && n@ == name
}

/// Whether an action sets the status of build `build_id` with `log`.
pub open spec fn sets_status(a: TriggerAction, build_id: u128, status: BuildStatus, log: Seq<char>) -> bool {
    a matches TriggerAction::SetBuildStatus { build_id: b, status: st, log: Some(l) } && b == build_id
        && st == status && l@ == log
}

/// Whether an action sets the subnet of the domain row of `project_id`.
pub open spec fn sets_subnet(a: TriggerAction, project_id: u128, subnet: Seq<char>) -> bool {
    a matches TriggerAction::SetDomainSubnet { project_id: p, subnet: n } && p == project_id && n@
        == subnet
}

/// Whether an action sets the host address of the domain row of
/// `project_id`.
pub open spec fn sets_host_ip(a: TriggerAction, project_id: u128, host_ip: Seq<char>) -> bool {
    a matches TriggerAction::SetDomainHostIp { project_id: p, host_ip: h } && p == project_id && h@
        == host_ip
}

/// Whether an action ends the build with `message`, and no inner error
/// text.
pub open spec fn fails_with(a: TriggerAction, message: Seq<char>) -> bool {
    a matches TriggerAction::Finish(Err(e)) && e.message@ == message && e.inner_error is None
}

/// Whether an action ends the build with `message`, carrying the text of
/// the failed step's error.
pub open spec fn fails_because(a: TriggerAction, message: Seq<char>, cause: Seq<char>) -> bool {
    a matches TriggerAction::Finish(Err(e)) && e.message@ == message && (e.inner_error matches Some(
        c,
    ) && c@ == cause)
}

fn fail(message: Vec<char>, inner: Option<String>) -> (r: (TriggerStage, TriggerAction))
    ensures
        r.0 is Done,
        r.1 matches TriggerAction::Finish(Err(e)) && e.message@ == message@ && e.inner_error == inner,
{
    (
        TriggerStage::Done,
        TriggerAction::Finish(Err(BuildError { message: string_of(&message), inner_error: inner })),
    )
}

fn text(s: &str) -> (r: Vec<char>)
    ensures
        r@ == s@,
{
    chars_of(s)
}

/// The transitions of a build: how `trigger_step` answers each stage and
/// event.
pub open spec fn trigger_transition(
    item: BuildItem,
    host_ip: Seq<char>,
    stage: TriggerStage,
    event: TriggerEvent,
    r: (TriggerStage, TriggerAction),
) -> bool {
    &&& r.1 is Finish ==> r.0 is Done
    &&& match (stage, event) {
        (TriggerStage::FindProject, TriggerEvent::Lookup(Ok(Some(p)))) => r.0 == (
        TriggerStage::FindBuild { project_id: p }) && r.1 == (TriggerAction::QueryBuild {
            build_id: item.build_id,
        }),
        (TriggerStage::FindProject, TriggerEvent::Lookup(Ok(None))) => fails_with(
            r.1,
            "Project not found with owner "@ + item.owner@ + " and repo "@ + item.repo@,
        ),
        (TriggerStage::FindProject, TriggerEvent::Lookup(Err(e))) => fails_because(
            r.1,
            "Can't get project: Failed to query database"@,
            e@,
        ),
        (TriggerStage::FindBuild { project_id }, TriggerEvent::Lookup(Ok(Some(b)))) => r.0 == (
        TriggerStage::MarkBuilding { project_id, build_id: b }) && r.1 == (
        TriggerAction::SetBuildStatus { build_id: b, status: BuildStatus::Building, log: None }),
        (TriggerStage::FindBuild { .. }, TriggerEvent::Lookup(Ok(None))) => fails_with(
            r.1,
            "Failed to find build with id: "@ + spec_uuid_text(item.build_id),
        ),
        (TriggerStage::FindBuild { .. }, TriggerEvent::Lookup(Err(e))) => fails_because(
            r.1,
            "Can't create build: Failed to query database"@,
            e@,
        ),
        (TriggerStage::MarkBuilding { project_id, build_id }, TriggerEvent::Written(Ok(()))) => r.0
            == (TriggerStage::Build { project_id, build_id }) && r.1 is RunBuild,
        (TriggerStage::MarkBuilding { .. }, TriggerEvent::Written(Err(e))) => fails_because(
            r.1,
            "Failed to update build status: Failed to query database"@,
            e@,
        ),
        (TriggerStage::Build { project_id, build_id }, TriggerEvent::Built(Ok(out))) => r.0
            == (TriggerStage::MarkSuccessful { project_id, out }) && sets_status(r.1, build_id, BuildStatus::Successful, out.build_log@),
        (TriggerStage::Build { build_id, .. }, TriggerEvent::Built(Err(e))) => r.0 == (
        TriggerStage::MarkFailed { error: e }) && sets_status(r.1, build_id, BuildStatus::Failed, e@),
        (TriggerStage::MarkSuccessful { project_id, out }, TriggerEvent::Written(Ok(()))) => r.0
            == (TriggerStage::MarkRunning { project_id, out }) && r.1 == (
        TriggerAction::SetProjectRunning { project_id }),
        (TriggerStage::MarkSuccessful { .. }, TriggerEvent::Written(Err(e))) => fails_because(
            r.1,
            "Failed to update build status: Failed to query database"@,
            e@,
        ),
        (TriggerStage::MarkRunning { project_id, out }, TriggerEvent::Written(Ok(()))) => r.0
            == (TriggerStage::FindDomain { project_id, out }) && r.1 == (TriggerAction::QueryDomain {
            project_id,
        }),
        (TriggerStage::MarkRunning { .. }, TriggerEvent::Written(Err(e))) => fails_because(
            r.1,
            "Failed to update project state: Failed to query database"@,
            e@,
        ),
        (TriggerStage::MarkFailed { error }, TriggerEvent::Written(Ok(()))) => fails_because(
            r.1,
            "A build error occured while building repository: "@ + item.repo@,
            error@,
        ),
        (TriggerStage::MarkFailed { .. }, TriggerEvent::Written(Err(e))) => fails_because(
            r.1,
            "Failed to update build status: Failed to query database: "@ + item.repo@,
            e@,
        ),
        (TriggerStage::FindDomain { project_id, out }, TriggerEvent::Domain(Ok(Some(d)))) => if d.subnet@
            == "0.0.0.0/0"@ {
            r.0 == (TriggerStage::UpdateSubnet { project_id, domain: d }) && sets_subnet(
                r.1,
                project_id,
                out.subnet@,
            )
        } else if d.host_ip@ == "0.0.0.0"@ {
            r.0 == (TriggerStage::UpdateHostIp { project_id, domain: d }) && sets_host_ip(
                r.1,
                project_id,
                host_ip,
            )
        } else {
            r.0 is Done && finishes_at(r.1, d.name@)
        },
        (TriggerStage::FindDomain { project_id, out }, TriggerEvent::Domain(Ok(None))) => r.0
            is InsertDomain && r.1 == (TriggerAction::InsertDomain { project_id, out }),
        (TriggerStage::FindDomain { .. }, TriggerEvent::Domain(Err(e))) => fails_because(
            r.1,
            "Can't get subdomain: Failed to query database"@,
            e@,
        ),
        (TriggerStage::UpdateSubnet { project_id, domain }, TriggerEvent::Written(Ok(()))) => if domain.host_ip@
            == "0.0.0.0"@ {
            r.0 == (TriggerStage::UpdateHostIp { project_id, domain }) && sets_host_ip(
                r.1,
                project_id,
                host_ip,
            )
        } else {
            r.0 is Done && finishes_at(r.1, domain.name@)
        },
        (TriggerStage::UpdateSubnet { .. }, TriggerEvent::Written(Err(e))) => fails_because(
            r.1,
            "Failed to update domain subnet: Failed to query database"@,
            e@,
        ),
        (TriggerStage::UpdateHostIp { domain, .. }, TriggerEvent::Written(Ok(()))) => r.0 is Done
            && finishes_at(r.1, domain.name@),
        (TriggerStage::UpdateHostIp { .. }, TriggerEvent::Written(Err(e))) => fails_because(
            r.1,
            "Failed to update domain host_ip: Failed to query database"@,
            e@,
        ),
        (TriggerStage::InsertDomain, TriggerEvent::Written(Ok(()))) => r.0 is Done && finishes_at(
            r.1,
            item.container_name@,
        ),
        (TriggerStage::InsertDomain, TriggerEvent::Written(Err(e))) => fails_because(
            r.1,
            "Can't insert domain: Failed to query database"@,
            e@,
        ),
        (TriggerStage::Done, _) => false,
        _ => false,
    }
}

/// One step of carrying out a queued build: look up its project and its
/// build row, mark the build as building, build, record the outcome, and
/// make sure the project has a domain row that points at the new
/// container.
pub fn trigger_step(item: &BuildItem, host_ip: &str, stage: TriggerStage, event: TriggerEvent) -> (r: (
    TriggerStage,
    TriggerAction,
))
    requires
        trigger_event_fits(stage, event),
    ensures
        trigger_transition(*item, host_ip@, stage, event, r),

{
    match stage {
        TriggerStage::FindProject => match event {
            TriggerEvent::Lookup(Ok(Some(p))) => (
                TriggerStage::FindBuild { project_id: p },
                TriggerAction::QueryBuild { build_id: item.build_id },
            ),
            TriggerEvent::Lookup(Ok(None)) => {
                let mut m = text("Project not found with owner ");
                append_chars(&mut m, item.owner.as_str());
                append_chars(&mut m, " and repo ");
                append_chars(&mut m, item.repo.as_str());
                fail(m, None)
            },
            TriggerEvent::Lookup(Err(e)) => fail(text("Can't get project: Failed to query database"), Some(e)),
            _ => (TriggerStage::Done, TriggerAction::RunBuild),
        },
        TriggerStage::FindBuild { project_id } => match event {
            TriggerEvent::Lookup(Ok(Some(b))) => (
                TriggerStage::MarkBuilding { project_id, build_id: b },
                TriggerAction::SetBuildStatus { build_id: b, status: BuildStatus::Building, log: None },
            ),
            TriggerEvent::Lookup(Ok(None)) => {
                let mut m = text("Failed to find build with id: ");
                let id = uuid_text(item.build_id);
                append_chars(&mut m, id.as_str());
                fail(m, None)
            },
            TriggerEvent::Lookup(Err(e)) => fail(text("Can't create build: Failed to query database"), Some(e)),
            _ => (TriggerStage::Done, TriggerAction::RunBuild),
        },
        TriggerStage::MarkBuilding { project_id, build_id } => match event {
            TriggerEvent::Written(Ok(())) => (
                TriggerStage::Build { project_id, build_id },
                TriggerAction::RunBuild,
            ),
            TriggerEvent::Written(Err(e)) => fail(text("Failed to update build status: Failed to query database"), Some(e)),
            _ => (TriggerStage::Done, TriggerAction::RunBuild),
        },
        TriggerStage::Build { project_id, build_id } => match event {
            TriggerEvent::Built(Ok(out)) => {
                let log = out.build_log.clone();
                (
                    TriggerStage::MarkSuccessful { project_id, out },
                    TriggerAction::SetBuildStatus {
                        build_id,
                        status: BuildStatus::Successful,
                        log: Some(log),
                    },
                )
            },
            TriggerEvent::Built(Err(e)) => {
                let log = e.clone();
                (
                    TriggerStage::MarkFailed { error: e },
                    TriggerAction::SetBuildStatus { build_id, status: BuildStatus::Failed, log: Some(log) },
                )
            },
            _ => (TriggerStage::Done, TriggerAction::RunBuild),
        },
        TriggerStage::MarkSuccessful { project_id, out } => match event {
            TriggerEvent::Written(Ok(())) => (
                TriggerStage::MarkRunning { project_id, out },
                TriggerAction::SetProjectRunning { project_id },
            ),
            TriggerEvent::Written(Err(e)) => fail(text("Failed to update build status: Failed to query database"), Some(e)),
            _ => (TriggerStage::Done, TriggerAction::RunBuild),
        },
        TriggerStage::MarkRunning { project_id, out } => match event {
            TriggerEvent::Written(Ok(())) => (
                TriggerStage::FindDomain { project_id, out },
                TriggerAction::QueryDomain { project_id },
            ),
            TriggerEvent::Written(Err(e)) => fail(text("Failed to update project state: Failed to query database"), Some(e)),
            _ => (TriggerStage::Done, TriggerAction::RunBuild),
        },
        TriggerStage::MarkFailed { error } => match event {
            TriggerEvent::Written(Ok(())) => {
                let mut m = text("A build error occured while building repository: ");
                append_chars(&mut m, item.repo.as_str());
                fail(m, Some(error))
            },
            TriggerEvent::Written(Err(e)) => {
                let mut m = text("Failed to update build status: Failed to query database: ");
                append_chars(&mut m, item.repo.as_str());
                fail(m, Some(e))
            },
            _ => (TriggerStage::Done, TriggerAction::RunBuild),
        },
        TriggerStage::FindDomain { project_id, out } => match event {
            TriggerEvent::Domain(Ok(Some(d))) => {
                if str_eq(d.subnet.as_str(), "0.0.0.0/0") {
                    let subnet = out.subnet.clone();
                    (
                        TriggerStage::UpdateSubnet { project_id, domain: d },
                        TriggerAction::SetDomainSubnet { project_id, subnet },
                    )
                } else if str_eq(d.host_ip.as_str(), "0.0.0.0") {
                    (
                        TriggerStage::UpdateHostIp { project_id, domain: d },
                        TriggerAction::SetDomainHostIp { project_id, host_ip: host_ip.to_owned() },
                    )
                } else {
                    (TriggerStage::Done, TriggerAction::Finish(Ok(d.name)))
                }
            },
            TriggerEvent::Domain(Ok(None)) => (
                TriggerStage::InsertDomain,
                TriggerAction::InsertDomain { project_id, out },
            ),
            TriggerEvent::Domain(Err(e)) => fail(text("Can't get subdomain: Failed to query database"), Some(e)),
            _ => (TriggerStage::Done, TriggerAction::RunBuild),
        },
        TriggerStage::UpdateSubnet { project_id, domain } => match event {
            TriggerEvent::Written(Ok(())) => {
                if str_eq(domain.host_ip.as_str(), "0.0.0.0") {
                    (
                        TriggerStage::UpdateHostIp { project_id, domain },
                        TriggerAction::SetDomainHostIp { project_id, host_ip: host_ip.to_owned() },
                    )
                } else {
                    (TriggerStage::Done, TriggerAction::Finish(Ok(domain.name)))
                }
            },
            TriggerEvent::Written(Err(e)) => fail(text("Failed to update domain subnet: Failed to query database"), Some(e)),
            _ => (TriggerStage::Done, TriggerAction::RunBuild),
        },
        TriggerStage::UpdateHostIp { domain, .. } => match event {
            TriggerEvent::Written(Ok(())) => (TriggerStage::Done, TriggerAction::Finish(Ok(domain.name))),
            TriggerEvent::Written(Err(e)) => fail(text("Failed to update domain host_ip: Failed to query database"), Some(e)),
            _ => (TriggerStage::Done, TriggerAction::RunBuild),
        },
        TriggerStage::InsertDomain => match event {
            TriggerEvent::Written(Ok(())) => (
                TriggerStage::Done,
                TriggerAction::Finish(Ok(item.container_name.clone())),
            ),
            TriggerEvent::Written(Err(e)) => fail(text("Can't insert domain: Failed to query database"), Some(e)),
            _ => (TriggerStage::Done, TriggerAction::RunBuild),
        },
        TriggerStage::Done => (TriggerStage::Done, TriggerAction::RunBuild),
    }
}

/// A build is reported deployed only from a stage that follows a
/// successful build, and such a stage is entered only from another such
/// stage or from a build that succeeded: so every deployment answer
/// follows a successful build.
pub proof fn deployment_follows_successful_build(
    item: BuildItem,
    host_ip: Seq<char>,
    stage: TriggerStage,
    event: TriggerEvent,
    r: (TriggerStage, TriggerAction),
)
    requires
        trigger_event_fits(stage, event),
        trigger_transition(item, host_ip, stage, event, r),
    ensures
        r.1 matches TriggerAction::Finish(Ok(_)) ==> after_successful_build(stage) && !(stage is MarkSuccessful),
        after_successful_build(r.0) ==> after_successful_build(stage) || (stage is Build
            && event matches TriggerEvent::Built(Ok(_))),
{
}

} // verus!
