//! Building and starting a project's containers, step by step: each step
//! names one call to the Docker daemon (or to the database, the file system
//! or the image builder) and the caller hands back what came of it.
use vstd::prelude::*;
use crate::environment::{container_env, deployment_env, lists_env, EnvValue};
use crate::naming::{db_name, image_name, network_name, old_image_name, release_name, volume_name};
use crate::password::{fresh_rng, random_token, token_charset};
use crate::text::{
    append_chars, chars_of, find_char, first_piece, pieces, split_at_char, string_of, strings,
};

verus! {

/// What a successful build leaves running.
pub struct DockerContainer {
    pub ip: String,
    pub port: i32,
    pub build_log: String,
    pub db_url: String,
    pub subnet: String,
}

/// A network of the Docker daemon, as listing it shows it.
pub struct NetworkInfo {
    pub id: Option<String>,
    pub subnet: Option<String>,
}

/// When a container is restarted.
#[derive(PartialEq, Eq, Structural)]
pub enum Restart {
    OnFailure,
    No,
}

/// A container's health check.
pub struct HealthCheck {
    pub test: Vec<String>,
    pub interval_ns: i64,
    pub timeout_ns: i64,
    pub retries: i64,
    pub start_period_ns: i64,
}

/// The configuration a container is created with.
pub struct ContainerSpec {
    pub name: String,
    pub image: String,
    pub env: Vec<String>,
    pub cmd: Option<Vec<String>>,
    pub restart: Restart,
    /// A volume binding, `volume:path`.
    pub volume: Option<String>,
    pub health: Option<HealthCheck>,
}

pub struct HealthCheckView {
    pub test: Seq<Seq<char>>,
    pub interval_ns: i64,
    pub timeout_ns: i64,
    pub retries: i64,
    pub start_period_ns: i64,
}

pub struct ContainerSpecView {
    pub name: Seq<char>,
    pub image: Seq<char>,
    pub env: Seq<Seq<char>>,
    pub cmd: Option<Seq<Seq<char>>>,
    pub restart: Restart,
    pub volume: Option<Seq<char>>,
    pub health: Option<HealthCheckView>,
}

impl View for ContainerSpec {
    type V = ContainerSpecView;

    open spec fn view(&self) -> ContainerSpecView {
        ContainerSpecView {
            name: self.name@,
            image: self.image@,
            env: strings(self.env@),
            cmd: match self.cmd {
                Some(c) => Some(strings(c@)),
                None => None,
            },
            restart: self.restart,
            volume: match self.volume {
                Some(v) => Some(v@),
                None => None,
            },
            health: match self.health {
                Some(h) => Some(
                    HealthCheckView {
                        test: strings(h.test@),
                        interval_ns: h.interval_ns,
                        timeout_ns: h.timeout_ns,
                        retries: h.retries,
                        start_period_ns: h.start_period_ns,
                    },
                ),
                None => None,
            },
        }
    }
}

/// One call to the Docker daemon.
pub enum DockerCall {
    InspectImage { image: String },
    TagImage { image: String, repo: String, tag: String },
    RemoveImage { image: String },
    InspectContainer { container: String },
    StopContainer { container: String },
    /// Wait for a stopped container to exit.
    WaitContainer { container: String },
    RemoveContainer { container: String },
    StartContainer { container: String },
    /// Pause two seconds, then inspect the container's health.
    ProbeHealth { container: String },
    CreateContainer { spec: ContainerSpec },
    ConnectNetwork { network: String, container: String },
    InspectVolume { volume: String },
    CreateVolume { volume: String },
    RemoveVolume { volume: String },
    /// List the networks whose name matches, and take the first.
    ListNetworks { name: String },
    CreateNetwork { name: String },
    /// Inspect a network, and give the addresses that one of its
    /// containers has in it.
    InspectNetwork { network_id: String, container_id: String },
}

pub enum DockerCallView {
    InspectImage { image: Seq<char> },
    TagImage { image: Seq<char>, repo: Seq<char>, tag: Seq<char> },
    RemoveImage { image: Seq<char> },
    InspectContainer { container: Seq<char> },
    StopContainer { container: Seq<char> },
    WaitContainer { container: Seq<char> },
    RemoveContainer { container: Seq<char> },
    StartContainer { container: Seq<char> },
    ProbeHealth { container: Seq<char> },
    CreateContainer { spec: ContainerSpecView },
    ConnectNetwork { network: Seq<char>, container: Seq<char> },
    InspectVolume { volume: Seq<char> },
    CreateVolume { volume: Seq<char> },
    RemoveVolume { volume: Seq<char> },
    ListNetworks { name: Seq<char> },
    CreateNetwork { name: Seq<char> },
    InspectNetwork { network_id: Seq<char>, container_id: Seq<char> },
}

impl View for DockerCall {
    type V = DockerCallView;

    open spec fn view(&self) -> DockerCallView {
        match self {
            DockerCall::InspectImage { image } => DockerCallView::InspectImage { image: image@ },
            DockerCall::TagImage { image, repo, tag } => DockerCallView::TagImage {
                image: image@,
                repo: repo@,
                tag: tag@,
            },
            DockerCall::RemoveImage { image } => DockerCallView::RemoveImage { image: image@ },
            DockerCall::InspectContainer { container } => DockerCallView::InspectContainer {
                container: container@,
            },
            DockerCall::StopContainer { container } => DockerCallView::StopContainer {
                container: container@,
            },
            DockerCall::WaitContainer { container } => DockerCallView::WaitContainer {
                container: container@,
            },
            DockerCall::RemoveContainer { container } => DockerCallView::RemoveContainer {
                container: container@,
            },
            DockerCall::StartContainer { container } => DockerCallView::StartContainer {
                container: container@,
            },
            DockerCall::ProbeHealth { container } => DockerCallView::ProbeHealth {
                container: container@,
            },
            DockerCall::CreateContainer { spec } => DockerCallView::CreateContainer { spec: spec@ },
            DockerCall::ConnectNetwork { network, container } => DockerCallView::ConnectNetwork {
                network: network@,
                container: container@,
            },
            DockerCall::InspectVolume { volume } => DockerCallView::InspectVolume { volume: volume@ },
            DockerCall::CreateVolume { volume } => DockerCallView::CreateVolume { volume: volume@ },
            DockerCall::RemoveVolume { volume } => DockerCallView::RemoveVolume { volume: volume@ },
            DockerCall::ListNetworks { name } => DockerCallView::ListNetworks { name: name@ },
            DockerCall::CreateNetwork { name } => DockerCallView::CreateNetwork { name: name@ },
            DockerCall::InspectNetwork { network_id, container_id } =>
                DockerCallView::InspectNetwork { network_id: network_id@, container_id: container_id@ },
        }
    }
}

/// What came of a call to the Docker daemon.
pub enum DockerReply {
    /// The call went through, or the text of its error.
    Done(Result<(), String>),
    /// An inspection found the object, answered that there is none, or
    /// failed otherwise.
    Found(Result<bool, String>),
    /// A health probe: whether the container reports itself healthy, or
    /// the error of the inspection.
    Healthy(Result<bool, String>),
    /// The id of a created container, or the error.
    Created(Result<String, String>),
    /// The first network that a listing gave, if any, or the error.
    Networks(Result<Option<NetworkInfo>, String>),
    /// A container's IPv4 and IPv6 addresses in a network, or the error.
    Addresses(Result<(Option<String>, Option<String>), String>),
}

/// The next step of a procedure, by its view: a call, or the outcome.
pub enum Next<T> {
    Call(DockerCallView),
    Finish(Result<T, Seq<char>>),
}

pub open spec fn outcome_view<T>(r: Result<T, String>) -> Result<T, Seq<char>> {
    match r {
        Ok(v) => Ok(v),
        Err(e) => Err(e@),
    }
}

fn own(s: &str) -> (r: String)
    ensures
        r@ == s@,
{
    string_of(&chars_of(s))
}

// ---------------------------------------------------------------------
// Removing a container: stop it, wait for it, remove it.

pub enum RemovalStage {
    Stopping,
    Waiting,
    Removing,
    Done,
}

/// The next call of a removal, or its outcome.
pub enum RemovalAction {
    Call(DockerCall),
    Finish(Result<(), String>),
}

impl View for RemovalAction {
    type V = Next<()>;

    open spec fn view(&self) -> Next<()> {
        match self {
            RemovalAction::Call(c) => Next::<()>::Call(c@),
            RemovalAction::Finish(o) => Next::<()>::Finish(outcome_view(*o)),
        }
    }
}

pub open spec fn removal_transition(
    container: Seq<char>,
    stage: RemovalStage,
    reply: Result<(), String>,
    r: (RemovalStage, RemovalAction),
) -> bool {
    match stage {
        RemovalStage::Stopping => match reply {
            Ok(()) => r.0 is Waiting && r.1@ == Next::<()>::Call(DockerCallView::WaitContainer { container }),
            Err(e) => r.0 is Done && r.1@ == Next::<()>::Finish(Err(e@)),
        },
        RemovalStage::Waiting => r.0 is Removing && r.1@ == Next::<()>::Call(
            DockerCallView::RemoveContainer { container },
        ),
        RemovalStage::Removing => match reply {
            Ok(()) => r.0 is Done && r.1@ == Next::<()>::Finish(Ok(())),
            Err(e) => r.0 is Done && r.1@ == Next::<()>::Finish(Err(e@)),
        },
        RemovalStage::Done => false,
    }
}

/// The first call of removing `container`: stopping it.
pub fn removal_start(container: &str) -> (r: (RemovalStage, RemovalAction))
    ensures
        r.0 is Stopping,
        r.1@ == Next::<()>::Call(DockerCallView::StopContainer {
            container: container@,
        }),
{
    (RemovalStage::Stopping, RemovalAction::Call(DockerCall::StopContainer { container: own(container) }))
}

/// One step of removing `container`. A failure to stop or to remove it
/// ends the removal with that error; a failure while waiting for it to
/// exit does not.
pub fn removal_step(container: &str, stage: RemovalStage, reply: Result<(), String>) -> (r: (
    RemovalStage,
    RemovalAction,
))
    requires
        !(stage is Done),
    ensures
        removal_transition(container@, stage, reply, r),
{
    match stage {
        RemovalStage::Stopping => match reply {
            Ok(()) => (
                RemovalStage::Waiting,
                RemovalAction::Call(DockerCall::WaitContainer { container: own(container) }),
            ),
            Err(e) => (RemovalStage::Done, RemovalAction::Finish(Err(e))),
        },
        RemovalStage::Waiting => (
            RemovalStage::Removing,
            RemovalAction::Call(DockerCall::RemoveContainer { container: own(container) }),
        ),
        RemovalStage::Removing => match reply {
            Ok(()) => (RemovalStage::Done, RemovalAction::Finish(Ok(()))),
            Err(e) => (RemovalStage::Done, RemovalAction::Finish(Err(e))),
        },
        RemovalStage::Done => (RemovalStage::Done, RemovalAction::Finish(Ok(()))),
    }
}

/// A removal reports success only once the daemon has removed the
/// container, and a failed wait never fails it.
pub proof fn removal_succeeds_only_once_removed(
    container: Seq<char>,
    stage: RemovalStage,
    reply: Result<(), String>,
    r: (RemovalStage, RemovalAction),
)
    requires
        removal_transition(container, stage, reply, r),
    ensures
        r.1@ == Next::<()>::Finish(Ok(())) ==> stage is Removing && reply is Ok,
        stage is Waiting ==> !(r.1 is Finish),
{
}

// ---------------------------------------------------------------------
// Starting a container; a database container is waited on until its
// health check passes.

pub enum StartStage {
    Starting,
    Probing,
    Done,
}

pub enum StartEvent {
    Started(Result<(), String>),
    Probed(Result<bool, String>),
}

pub enum StartAction {
    Call(DockerCall),
    Finish(Result<(), String>),
}

impl View for StartAction {
    type V = Next<()>;

    open spec fn view(&self) -> Next<()> {
        match self {
            StartAction::Call(c) => Next::<()>::Call(c@),
            StartAction::Finish(o) => Next::<()>::Finish(outcome_view(*o)),
        }
    }
}

pub open spec fn start_event_fits(stage: StartStage, event: StartEvent) -> bool {
    match stage {
        StartStage::Starting => event is Started,
        StartStage::Probing => event is Probed,
        StartStage::Done => false,
    }
}

pub open spec fn start_transition(
    container: Seq<char>,
    db: bool,
    stage: StartStage,
    event: StartEvent,
    r: (StartStage, StartAction),
) -> bool {
    match (stage, event) {
        (StartStage::Starting, StartEvent::Started(Ok(()))) => if db {
            r.0 is Probing && r.1@ == Next::<()>::Call(DockerCallView::ProbeHealth {
                container,
            })
        } else {
            r.0 is Done && r.1@ == Next::<()>::Finish(Ok(()))
        },
        (StartStage::Starting, StartEvent::Started(Err(e))) => r.0 is Done && r.1@ == Next::<()>::Finish(Err(e@)),
        (StartStage::Probing, StartEvent::Probed(Ok(true))) => r.0 is Done && r.1@ == Next::<()>::Finish(Ok(())),
        (StartStage::Probing, StartEvent::Probed(_)) => r.0 is Probing && r.1@ == Next::<()>::Call(DockerCallView::ProbeHealth { container }),
        _ => false,
    }
}

/// The first call of starting `container`.
pub fn start_begin(container: &str) -> (r: (StartStage, StartAction))
    ensures
        r.0 is Starting,
        r.1@ == Next::<()>::Call(DockerCallView::StartContainer {
            container: container@,
        }),
{
    (StartStage::Starting, StartAction::Call(DockerCall::StartContainer { container: own(container) }))
}

/// One step of starting `container`: a database container (`db`) is
/// probed every two seconds until it reports itself healthy; a failed
/// probe is tried again.
pub fn start_step(container: &str, db: bool, stage: StartStage, event: StartEvent) -> (r: (
    StartStage,
    StartAction,
))
    requires
        start_event_fits(stage, event),
    ensures
        start_transition(container@, db, stage, event, r),
{
    match event {
        StartEvent::Started(Ok(())) => if db {
            (StartStage::Probing, StartAction::Call(DockerCall::ProbeHealth { container: own(container) }))
        } else {
            (StartStage::Done, StartAction::Finish(Ok(())))
        },
        StartEvent::Started(Err(e)) => (StartStage::Done, StartAction::Finish(Err(e))),
        StartEvent::Probed(Ok(true)) => (StartStage::Done, StartAction::Finish(Ok(()))),
        StartEvent::Probed(_) => (
            StartStage::Probing,
            StartAction::Call(DockerCall::ProbeHealth { container: own(container) }),
        ),
    }
}

/// A database container is reported started only after a probe found it
/// healthy; a probe never ends the start with an error.
pub proof fn database_starts_only_when_healthy(
    container: Seq<char>,
    stage: StartStage,
    event: StartEvent,
    r: (StartStage, StartAction),
)
    requires
        start_event_fits(stage, event),
        start_transition(container, true, stage, event, r),
    ensures
        r.1@ == Next::<()>::Finish(Ok(())) ==> event matches StartEvent::Probed(Ok(true)),
        stage is Probing ==> !(r.1@ matches Next::<()>::Finish(Err(_))),
{
}

// ---------------------------------------------------------------------
// Finding a project's network, creating it where there is none.

pub enum NetworkStage {
    Listing,
    Creating,
    Relisting,
    Done,
}

pub enum NetworkEvent {
    Listed(Result<Option<NetworkInfo>, String>),
    Created(Result<(), String>),
}

pub enum NetworkAction {
    Call(DockerCall),
    Finish(Result<NetworkInfo, String>),
}

impl View for NetworkAction {
    type V = Next<NetworkInfo>;

    open spec fn view(&self) -> Next<NetworkInfo> {
        match self {
            NetworkAction::Call(c) => Next::<NetworkInfo>::Call(c@),
            NetworkAction::Finish(o) => Next::<NetworkInfo>::Finish(outcome_view(*o)),
        }
    }
}

pub open spec fn network_event_fits(stage: NetworkStage, event: NetworkEvent) -> bool {
    match stage {
        NetworkStage::Listing => event is Listed,
        NetworkStage::Creating => event is Created,
        NetworkStage::Relisting => event is Listed,
        NetworkStage::Done => false,
    }
}

pub open spec fn fails_network(a: NetworkAction, e: Seq<char>) -> bool {
    a@ == Next::<NetworkInfo>::Finish(Err(e))
}

pub open spec fn network_transition(
    name: Seq<char>,
    stage: NetworkStage,
    event: NetworkEvent,
    r: (NetworkStage, NetworkAction),
) -> bool {
    match (stage, event) {
        (NetworkStage::Listing, NetworkEvent::Listed(Ok(Some(n)))) => r.0 is Done && r.1 == NetworkAction::Finish(Ok(n)),
        (NetworkStage::Listing, NetworkEvent::Listed(Ok(None))) => r.0 is Creating && r.1@ == Next::<NetworkInfo>::Call(DockerCallView::CreateNetwork { name }),
        (NetworkStage::Listing, NetworkEvent::Listed(Err(e))) => r.0 is Done && fails_network(r.1, e@),
        (NetworkStage::Creating, NetworkEvent::Created(Ok(()))) => r.0 is Relisting && r.1@ == Next::<NetworkInfo>::Call(DockerCallView::ListNetworks { name }),
        (NetworkStage::Creating, NetworkEvent::Created(Err(e))) => r.0 is Done && fails_network(r.1, e@),
        (NetworkStage::Relisting, NetworkEvent::Listed(Ok(Some(n)))) => r.0 is Done && r.1 == NetworkAction::Finish(Ok(n)),
        (NetworkStage::Relisting, NetworkEvent::Listed(Ok(None))) => r.0 is Done && fails_network(
            r.1,
            "No network found after make one???"@,
        ),
        (NetworkStage::Relisting, NetworkEvent::Listed(Err(e))) => r.0 is Done && fails_network(r.1, e@),
        _ => false,
    }
}

/// The first call of finding the network `name`: listing the networks of
/// that name.
pub fn network_begin(name: &str) -> (r: (NetworkStage, NetworkAction))
    ensures
        r.0 is Listing,
        r.1@ == Next::<NetworkInfo>::Call(DockerCallView::ListNetworks { name: name@ }),
{
    (NetworkStage::Listing, NetworkAction::Call(DockerCall::ListNetworks { name: own(name) }))
}

/// One step of finding the network `name`: an existing one is used, else
/// one is created and looked up again.
pub fn network_step(name: &str, stage: NetworkStage, event: NetworkEvent) -> (r: (
    NetworkStage,
    NetworkAction,
))
    requires
        network_event_fits(stage, event),
    ensures
        network_transition(name@, stage, event, r),
{
    match stage {
        NetworkStage::Listing => match event {
            NetworkEvent::Listed(Ok(Some(n))) => (NetworkStage::Done, NetworkAction::Finish(Ok(n))),
            NetworkEvent::Listed(Ok(None)) => (
                NetworkStage::Creating,
                NetworkAction::Call(DockerCall::CreateNetwork { name: own(name) }),
            ),
            NetworkEvent::Listed(Err(e)) => (NetworkStage::Done, NetworkAction::Finish(Err(e))),
            NetworkEvent::Created(_) => (NetworkStage::Done, NetworkAction::Finish(Err(String::new()))),
        },
        NetworkStage::Creating => match event {
            NetworkEvent::Created(Ok(())) => (
                NetworkStage::Relisting,
                NetworkAction::Call(DockerCall::ListNetworks { name: own(name) }),
            ),
            NetworkEvent::Created(Err(e)) => (NetworkStage::Done, NetworkAction::Finish(Err(e))),
            NetworkEvent::Listed(_) => (NetworkStage::Done, NetworkAction::Finish(Err(String::new()))),
        },
        NetworkStage::Relisting => match event {
            NetworkEvent::Listed(Ok(Some(n))) => (NetworkStage::Done, NetworkAction::Finish(Ok(n))),
            NetworkEvent::Listed(Ok(None)) => (
                NetworkStage::Done,
                NetworkAction::Finish(Err(own("No network found after make one???"))),
            ),
            NetworkEvent::Listed(Err(e)) => (NetworkStage::Done, NetworkAction::Finish(Err(e))),
            NetworkEvent::Created(_) => (NetworkStage::Done, NetworkAction::Finish(Err(String::new()))),
        },
        NetworkStage::Done => (NetworkStage::Done, NetworkAction::Finish(Err(String::new()))),
    }
}

/// A network is created only where listing found none of that name, and
/// the network handed back is always one that a listing gave.
pub proof fn network_created_only_when_missing(
    name: Seq<char>,
    stage: NetworkStage,
    event: NetworkEvent,
    r: (NetworkStage, NetworkAction),
)
    requires
        network_event_fits(stage, event),
        network_transition(name, stage, event, r),
    ensures
        (r.1@ matches Next::<NetworkInfo>::Call(c) && c is CreateNetwork) ==> (stage is Listing && event
            matches NetworkEvent::Listed(Ok(None))),
        r.1 matches NetworkAction::Finish(Ok(n)) ==> (event matches NetworkEvent::Listed(Ok(Some(m)))
            && m == n),
{
}

// ---------------------------------------------------------------------
// Setting the previous image aside before a build.

pub enum OldImageStage {
    Inspecting,
    Tagging,
    Removing,
    Done,
}

pub enum OldImageAction {
    Call(DockerCall),
    Finish(Result<(), String>),
}

impl View for OldImageAction {
    type V = Next<()>;

    open spec fn view(&self) -> Next<()> {
        match self {
            OldImageAction::Call(c) => Next::<()>::Call(c@),
            OldImageAction::Finish(o) => Next::<()>::Finish(outcome_view(*o)),
        }
    }
}

pub open spec fn old_image_event_fits(stage: OldImageStage, reply: DockerReply) -> bool {
    match stage {
        OldImageStage::Inspecting => reply is Found,
        OldImageStage::Tagging => reply is Done,
        OldImageStage::Removing => reply is Done,
        OldImageStage::Done => false,
    }
}

pub open spec fn old_image_transition(
    container_name: Seq<char>,
    image_name: Seq<char>,
    stage: OldImageStage,
    reply: DockerReply,
    r: (OldImageStage, OldImageAction),
) -> bool {
    match (stage, reply) {
        (OldImageStage::Inspecting, DockerReply::Found(Ok(true))) => r.0 is Tagging && r.1@ == Next::<()>::Call(DockerCallView::TagImage {
            image: container_name,
            repo: container_name,
            tag: "old"@,
        }),
        (OldImageStage::Inspecting, DockerReply::Found(Ok(false))) => r.0 is Done && r.1@ == Next::<()>::Finish(Ok(())),
        (OldImageStage::Inspecting, DockerReply::Found(Err(e))) => r.0 is Done && r.1@ == Next::<()>::Finish(Err(e@)),
        (OldImageStage::Tagging, DockerReply::Done(Ok(()))) => r.0 is Removing && r.1@ == Next::<()>::Call(DockerCallView::RemoveImage { image: image_name }),
        (OldImageStage::Tagging, DockerReply::Done(Err(e))) => r.0 is Done && r.1@ == Next::<()>::Finish(Err(e@)),
        (OldImageStage::Removing, DockerReply::Done(Ok(()))) => r.0 is Done && r.1@ == Next::<()>::Finish(Ok(())),
        (OldImageStage::Removing, DockerReply::Done(Err(e))) => r.0 is Done && r.1@ == Next::<()>::Finish(Err(e@)),
        _ => false,
    }
}

/// The first call of setting an image aside: inspecting `image_name`.
pub fn old_image_begin(image_name: &str) -> (r: (OldImageStage, OldImageAction))
    ensures
        r.0 is Inspecting,
        r.1@ == Next::<()>::Call(DockerCallView::InspectImage {
            image: image_name@,
        }),
{
    (OldImageStage::Inspecting, OldImageAction::Call(DockerCall::InspectImage { image: own(image_name) }))
}

/// One step of setting an image aside: where `image_name` exists,
/// `container_name` is tagged `old` in its own repository and
/// `image_name` is removed; where it does not, nothing is done.
pub fn old_image_step(
    container_name: &str,
    image_name: &str,
    stage: OldImageStage,
    reply: DockerReply,
) -> (r: (OldImageStage, OldImageAction))
    requires
        old_image_event_fits(stage, reply),
    ensures
        old_image_transition(container_name@, image_name@, stage, reply, r),
{
    match reply {
        DockerReply::Found(Ok(true)) => (
            OldImageStage::Tagging,
            OldImageAction::Call(
                DockerCall::TagImage {
                    image: own(container_name),
                    repo: own(container_name),
                    tag: own("old"),
                },
            ),
        ),
        DockerReply::Found(Ok(false)) => (OldImageStage::Done, OldImageAction::Finish(Ok(()))),
        DockerReply::Found(Err(e)) => (OldImageStage::Done, OldImageAction::Finish(Err(e))),
        DockerReply::Done(Ok(())) => match stage {
            OldImageStage::Tagging => (
                OldImageStage::Removing,
                OldImageAction::Call(DockerCall::RemoveImage { image: own(image_name) }),
            ),
            _ => (OldImageStage::Done, OldImageAction::Finish(Ok(()))),
        },
        DockerReply::Done(Err(e)) => (OldImageStage::Done, OldImageAction::Finish(Err(e))),
        _ => (OldImageStage::Done, OldImageAction::Finish(Ok(()))),
    }
}

// ---------------------------------------------------------------------
// Pieces of a build.

/// `base` joined with the relative path `name`, as `std::path::Path::join`
/// does on Unix: a `/` goes between them unless `base` is empty or already
/// ends with one.
pub open spec fn path_join(base: Seq<char>, name: Seq<char>) -> Seq<char> {
    if base.len() == 0 || base.last() == '/' {
        base + name
    } else {
        base + "/"@ + name
    }
}

pub fn join_path(base: &str, name: &str) -> (r: String)
    ensures
        r@ == path_join(base@, name@),
{
    let mut out = chars_of(base);
    let n = out.len();
    if n > 0 && out[n - 1] != '/' {
        append_chars(&mut out, "/");
    }
    append_chars(&mut out, name);
    string_of(&out)
}

/// The arguments of the `docker` command that builds `image` from the
/// Dockerfile in `src`.
pub open spec fn spec_dockerfile_args(src: Seq<char>, image: Seq<char>) -> Seq<Seq<char>> {
    seq!["build"@, "-t"@, image, "-f"@, path_join(src, "Dockerfile"@), src]
}

pub fn dockerfile_args(src: &str, image: &str) -> (r: Vec<String>)
    ensures
        strings(r@) == spec_dockerfile_args(src@, image@),
{
    let mut v: Vec<String> = Vec::new();
    v.push(own("build"));
    v.push(own("-t"));
    v.push(own(image));
    v.push(own("-f"));
    v.push(join_path(src, "Dockerfile"));
    v.push(own(src));
    assert(strings(v@) =~= spec_dockerfile_args(src@, image@));
    v
}

/// The address that a container is reached at: its IPv6 address where it
/// has a non-empty one, else its non-empty IPv4 address, without the
/// prefix length that follows a `/`.
pub open spec fn spec_container_ip(v4: Option<Seq<char>>, v6: Option<Seq<char>>) -> Option<Seq<char>> {
    if v6 is Some && v6->0.len() > 0 {
        Some(first_piece(v6->0, '/'))
    } else if v4 is Some && v4->0.len() > 0 {
        Some(first_piece(v4->0, '/'))
    } else {
        None
    }
}

pub open spec fn opt_view(o: Option<String>) -> Option<Seq<char>> {
    match o {
        Some(s) => Some(s@),
        None => None,
    }
}

fn before_slash(a: &String) -> (r: String)
    ensures
        r@ == first_piece(a@, '/'),
{
    let v = chars_of(a.as_str());
    let mut i: usize = 0;
    while i < v.len() && v[i] != '/'
        invariant
            i <= v.len(),
            find_char(v@, '/', 0) == find_char(v@, '/', i as int),
        decreases v.len() - i,
    {
        i = i + 1;
    }
    let mut out: Vec<char> = Vec::new();
    let mut j: usize = 0;
    while j < i
        invariant
            j <= i <= v.len(),
            out@ == v@.take(j as int),
        decreases i - j,
    {
        out.push(v[j]);
        j = j + 1;
        assert(out@ =~= v@.take(j as int));
    }
    string_of(&out)
}

/// The address a container is reached at, from its addresses in a
/// network.
pub fn container_ip(v4: &Option<String>, v6: &Option<String>) -> (r: Option<String>)
    ensures
        opt_view(r) == spec_container_ip(opt_view(*v4), opt_view(*v6)),
{
    match v6 {
        Some(a) => {
            if a.unicode_len() > 0 {
                return Some(before_slash(a));
            }
        },
        None => {},
    }
    match v4 {
        Some(b) => {
            if b.unicode_len() > 0 {
                return Some(before_slash(b));
            }
        },
        None => {},
    }
    None
}

/// The processes that `procfile::parse` finds in the text of a Procfile:
/// each process name, with its command and options as `Process` displays
/// them.
pub uninterp spec fn procfile_processes(content: Seq<char>) -> Map<Seq<char>, Seq<char>>;

/// `procfile::parse(content)`, each process given by its name and its
/// displayed text. The contract claims that the pairs handed back are
/// exactly the entries of the parsed map, in some order.
#[verifier::external_body]
fn parse_procfile(content: &str) -> (r: Vec<(String, String)>)
    ensures
        forall|i: int|
            0 <= i < r.len() ==> procfile_processes(content@).dom().contains(#[trigger] r@[i].0@)
                && procfile_processes(content@)[r@[i].0@] == r@[i].1@,
        forall|name: Seq<char>|
            procfile_processes(content@).dom().contains(name) ==> exists|i: int|
                0 <= i < r.len() && #[trigger] r@[i].0@ == name,
{
    let mut out = Vec::new();
    if let Ok(map) = procfile::parse(content) {
        for entry in map.iter() {
            out.push((entry.key().to_string(), entry.value().to_string()));
        }
    }
    out
}

/// What a map gives for `key`, if anything.
pub open spec fn map_get(m: Map<Seq<char>, Seq<char>>, key: Seq<char>) -> Option<Seq<char>> {
    if m.dom().contains(key) {
        Some(m[key])
    } else {
        None
    }
}

/// The command of the process `name` of a Procfile's text, if it has one.
pub open spec fn procfile_command(content: Option<Seq<char>>, name: Seq<char>) -> Option<Seq<char>> {
    match content {
        Some(c) => map_get(procfile_processes(c), name),
        None => None,
    }
}

/// The command of the process `name` in a Procfile, read from `content`
/// where the file could be read.
pub fn procfile_entry(content: &Option<String>, name: &str) -> (r: Option<String>)
    ensures
        opt_view(r) == procfile_command(opt_view(*content), name@),
{
    match content {
        None => None,
        Some(text) => {
            let procs = parse_procfile(text.as_str());
            let ghost m = procfile_processes(text@);
            let mut i: usize = 0;
            while i < procs.len()
                invariant
                    i <= procs.len(),
                    opt_view(*content) == Some(text@),
                    m == procfile_processes(text@),
                    forall|j: int| 0 <= j < i ==> #[trigger] procs@[j].0@ != name@,
                    forall|k: int|
                        0 <= k < procs.len() ==> m.dom().contains(#[trigger] procs@[k].0@) && m[procs@[k].0@]
                            == procs@[k].1@,
                    forall|key: Seq<char>|
                        m.dom().contains(key) ==> exists|k: int|
                            0 <= k < procs.len() && #[trigger] procs@[k].0@ == key,
                decreases procs.len() - i,
            {
                if crate::text::str_eq(procs[i].0.as_str(), name) {
                    assert(procs@[i as int].0@ == name@);
                    assert(m.dom().contains(name@) && m[name@] == procs@[i as int].1@);
                    return Some(procs[i].1.clone());
                }
                i = i + 1;
            }
            None
        },
    }
}

/// The words of a command, split at every space as `str::split(' ')` does.
pub fn command_words(cmd: &str) -> (r: Vec<String>)
    ensures
        strings(r@) == pieces(cmd@, ' '),
{
    let r = split_at_char(cmd, ' ');
    assert(strings(r@) =~= pieces(cmd@, ' '));
    r
}

/// A database user name and password: 10 and 20 characters of the token
/// alphabet.
pub open spec fn fresh_credentials(user: Seq<char>, password: Seq<char>) -> bool {
    &&& user.len() == 10
    &&& password.len() == 20
    &&& forall|i: int| 0 <= i < 10 ==> token_charset().contains(#[trigger] user[i])
    &&& forall|i: int| 0 <= i < 20 ==> token_charset().contains(#[trigger] password[i])
}

fn new_credentials() -> (r: (String, String))
    ensures
        fresh_credentials(r.0@, r.1@),
{
    let mut rng = fresh_rng();
    let user = random_token(&mut rng, 10);
    let password = random_token(&mut rng, 20);
    (user, password)
}

/// The image a project's database container runs.
pub open spec fn postgres_image() -> Seq<char> {
    "postgres:16.0-alpine3.18"@
}

/// Five seconds, in nanoseconds.
pub const FIVE_SECONDS_NS: i64 = 5000000000;

/// The container of a project's database: PostgreSQL with the given user
/// and password, its data on the project's volume, restarted on failure
/// and checked with `pg_isready`.
pub open spec fn db_spec(container: Seq<char>, user: Seq<char>, password: Seq<char>) -> ContainerSpecView {
    ContainerSpecView {
        name: container + "-db"@,
        image: postgres_image(),
        env: seq![
            "POSTGRES_USER="@ + user,
            "POSTGRES_PASSWORD="@ + password,
            "POSTGRES_DB=postgres"@,
        ],
        cmd: None,
        restart: Restart::OnFailure,
        volume: Some(container + "-volume"@ + ":/var/lib/postgresql/data"@),
        health: Some(
            HealthCheckView {
                test: seq!["CMD-SHELL"@, "pg_isready -U postgres"@],
                interval_ns: FIVE_SECONDS_NS,
                timeout_ns: FIVE_SECONDS_NS,
                retries: 10,
                start_period_ns: FIVE_SECONDS_NS,
            },
        ),
    }
}

fn make_db_spec(container: &str, user: &str, password: &str) -> (r: ContainerSpec)
    ensures
        r@ == db_spec(container@, user@, password@),
{
    let mut env: Vec<String> = Vec::new();
    let mut u = chars_of("POSTGRES_USER=");
    append_chars(&mut u, user);
    env.push(string_of(&u));
    let mut p = chars_of("POSTGRES_PASSWORD=");
    append_chars(&mut p, password);
    env.push(string_of(&p));
    env.push(own("POSTGRES_DB=postgres"));
    let mut vol = chars_of(volume_name(container).as_str());
    append_chars(&mut vol, ":/var/lib/postgresql/data");
    let mut test: Vec<String> = Vec::new();
    test.push(own("CMD-SHELL"));
    test.push(own("pg_isready -U postgres"));
    let r = ContainerSpec {
        name: db_name(container),
        image: own("postgres:16.0-alpine3.18"),
        env,
        cmd: None,
        restart: Restart::OnFailure,
        volume: Some(string_of(&vol)),
        health: Some(
            HealthCheck {
                test,
                interval_ns: FIVE_SECONDS_NS,
                timeout_ns: FIVE_SECONDS_NS,
                retries: 10,
                start_period_ns: FIVE_SECONDS_NS,
            },
        ),
    };
    assert(strings(r.env@) =~= db_spec(container@, user@, password@).env);
    assert(strings(test@) =~= seq!["CMD-SHELL"@, "pg_isready -U postgres"@]);
    r
}

/// A project's container: its image, its environment and command, restarted
/// on failure.
pub open spec fn app_spec(
    container: Seq<char>,
    env: Seq<Seq<char>>,
    cmd: Option<Seq<Seq<char>>>,
) -> ContainerSpecView {
    ContainerSpecView {
        name: container,
        image: container + ":latest"@,
        env,
        cmd,
        restart: Restart::OnFailure,
        volume: None,
        health: None,
    }
}

/// The one-off container that runs a Procfile's `release` command: the
/// project's image and environment, never restarted.
pub open spec fn release_spec(container: Seq<char>, env: Seq<Seq<char>>, cmd: Seq<Seq<char>>) -> ContainerSpecView {
    ContainerSpecView {
        name: container + "-release"@,
        image: container + ":latest"@,
        env,
        cmd: Some(cmd),
        restart: Restart::No,
        volume: None,
        health: None,
    }
}

fn copy_strings(v: &Vec<String>) -> (r: Vec<String>)
    ensures
        strings(r@) == strings(v@),
{
    let mut out: Vec<String> = Vec::new();
    let mut i: usize = 0;
    while i < v.len()
        invariant
            i <= v.len(),
            out@ == v@.take(i as int),
        decreases v.len() - i,
    {
        out.push(v[i].clone());
        i = i + 1;
        assert(out@ =~= v@.take(i as int));
    }
    assert(v@.take(v.len() as int) =~= v@);
    out
}

pub open spec fn opt_strings(o: Option<Vec<String>>) -> Option<Seq<Seq<char>>> {
    match o {
        Some(v) => Some(strings(v@)),
        None => None,
    }
}

fn copy_opt_strings(o: &Option<Vec<String>>) -> (r: Option<Vec<String>>)
    ensures
        opt_strings(r) == opt_strings(*o),
{
    match o {
        Some(v) => Some(copy_strings(v)),
        None => None,
    }
}

fn make_app_spec(container: &str, env: &Vec<String>, cmd: &Option<Vec<String>>) -> (r: ContainerSpec)
    ensures
        r@ == app_spec(container@, strings(env@), opt_strings(*cmd)),
{
    ContainerSpec {
        name: own(container),
        image: image_name(container),
        env: copy_strings(env),
        cmd: copy_opt_strings(cmd),
        restart: Restart::OnFailure,
        volume: None,
        health: None,
    }
}

fn make_release_spec(container: &str, env: &Vec<String>, cmd: Vec<String>) -> (r: ContainerSpec)
    ensures
        r@ == release_spec(container@, strings(env@), strings(cmd@)),
{
    ContainerSpec {
        name: release_name(container),
        image: image_name(container),
        env: copy_strings(env),
        cmd: Some(cmd),
        restart: Restart::No,
        volume: None,
        health: None,
    }
}

// ---------------------------------------------------------------------
// Building and starting a project.

/// What to build: the project, the name of its container, and the
/// checked-out source.
pub struct BuildJob {
    pub project_name: String,
    pub container_name: String,
    pub container_src: String,
}

pub struct BuildJobView {
    pub project: Seq<char>,
    pub container: Seq<char>,
    pub src: Seq<char>,
}

impl View for BuildJob {
    type V = BuildJobView;

    open spec fn view(&self) -> BuildJobView {
        BuildJobView {
            project: self.project_name@,
            container: self.container_name@,
            src: self.container_src@,
        }
    }
}

/// Where a build stands: which call it waits on.
#[derive(Clone, Copy)]
pub enum BuildStep {
    SettingOldImageAside,
    CheckingDockerfile,
    Building,
    InspectingImage,
    InspectingApp,
    RemovingApp,
    RemovingOldTag,
    InspectingDb,
    InspectingVolume,
    CreatingVolume,
    FindingNetwork,
    FindingDbUrl,
    DroppingDb,
    DroppingVolume,
    CreatingDb,
    StartingDb,
    ConnectingDb,
    ReadingEnvs,
    ReadingProcfile,
    CreatingRelease,
    ReleaseCleanupDb,
    ReleaseCleanupVolume,
    ConnectingRelease,
    StartingRelease,
    StartCleanupDb,
    StartCleanupVolume,
    RemovingRelease,
    CreatingApp,
    ConnectingApp,
    StartingApp,
    InspectingNetwork,
    Done,
}

/// A build in progress, with what it has learned so far.
pub struct DockerBuild {
    pub step: BuildStep,
    /// Whether the image was built by nixpacks, for want of a Dockerfile.
    pub nixpacks: bool,
    pub build_log: String,
    /// Whether the project's database container existed before the build.
    pub db_exists: bool,
    pub network: Option<NetworkInfo>,
    pub db_user: String,
    pub db_password: String,
    pub db_url: String,
    pub env: Vec<String>,
    pub web_cmd: Option<Vec<String>>,
    /// The error of a failed `release` container, kept while the database
    /// is dropped.
    pub release_error: String,
    pub container_id: String,
}

pub struct DockerBuildView {
    pub step: BuildStep,
    pub nixpacks: bool,
    pub build_log: Seq<char>,
    pub db_exists: bool,
    pub network: Option<NetworkInfo>,
    pub db_user: Seq<char>,
    pub db_password: Seq<char>,
    pub db_url: Seq<char>,
    pub env: Seq<Seq<char>>,
    pub web_cmd: Option<Seq<Seq<char>>>,
    pub release_error: Seq<char>,
    pub container_id: Seq<char>,
}

impl View for DockerBuild {
    type V = DockerBuildView;

    open spec fn view(&self) -> DockerBuildView {
        DockerBuildView {
            step: self.step,
            nixpacks: self.nixpacks,
            build_log: self.build_log@,
            db_exists: self.db_exists,
            network: self.network,
            db_user: self.db_user@,
            db_password: self.db_password@,
            db_url: self.db_url@,
            env: strings(self.env@),
            web_cmd: opt_strings(self.web_cmd),
            release_error: self.release_error@,
            container_id: self.container_id@,
        }
    }
}

/// What came of the step that a build asked for.
pub enum BuildEvent {
    Docker(DockerReply),
    /// A procedure (setting the old image aside, removing or starting a
    /// container) ended.
    Finished(Result<(), String>),
    Network(Result<NetworkInfo, String>),
    /// Whether a file exists.
    Exists(bool),
    /// The image builder ran: whether it succeeded, with what it wrote to
    /// its error output; or the error that kept it from running.
    Built(Result<(bool, String), String>),
    /// The stored database address of the project, none, or the error of
    /// the query.
    DbUrl(Result<Option<String>, String>),
    /// The project's stored environment object, or the error of the query.
    Envs(Result<Vec<(String, EnvValue)>, String>),
    /// The text of a file, where it could be read.
    FileText(Option<String>),
}

/// What a build does next.
pub enum BuildAction {
    /// Run `old_image_begin` / `old_image_step` on these two names.
    SetOldImageAside { container_name: String, image_name: String },
    CheckFile { path: String },
    /// Run `docker` with these arguments.
    BuildDockerfile { args: Vec<String> },
    BuildNixpacks { src: String, name: String },
    Call(DockerCall),
    /// Run `removal_start` / `removal_step`.
    RemoveContainer { container: String },
    /// Run `start_begin` / `start_step`.
    StartContainer { container: String, db: bool },
    /// Run `network_begin` / `network_step`.
    FindNetwork { name: String },
    QueryDbUrl { project: String },
    QueryEnvs { project: String },
    ReadFile { path: String },
    Finish(Result<DockerContainer, String>),
}

pub struct DockerContainerView {
    pub ip: Seq<char>,
    pub port: i32,
    pub build_log: Seq<char>,
    pub db_url: Seq<char>,
    pub subnet: Seq<char>,
}

impl View for DockerContainer {
    type V = DockerContainerView;

    open spec fn view(&self) -> DockerContainerView {
        DockerContainerView {
            ip: self.ip@,
            port: self.port,
            build_log: self.build_log@,
            db_url: self.db_url@,
            subnet: self.subnet@,
        }
    }
}

pub enum BuildActionView {
    SetOldImageAside { container_name: Seq<char>, image_name: Seq<char> },
    CheckFile { path: Seq<char> },
    BuildDockerfile { args: Seq<Seq<char>> },
    BuildNixpacks { src: Seq<char>, name: Seq<char> },
    Call(DockerCallView),
    RemoveContainer { container: Seq<char> },
    StartContainer { container: Seq<char>, db: bool },
    FindNetwork { name: Seq<char> },
    QueryDbUrl { project: Seq<char> },
    QueryEnvs { project: Seq<char> },
    ReadFile { path: Seq<char> },
    Finish(Result<DockerContainerView, Seq<char>>),
}

impl View for BuildAction {
    type V = BuildActionView;

    open spec fn view(&self) -> BuildActionView {
        match self {
            BuildAction::SetOldImageAside { container_name, image_name } =>
                BuildActionView::SetOldImageAside {
                    container_name: container_name@,
                    image_name: image_name@,
                },
            BuildAction::CheckFile { path } => BuildActionView::CheckFile { path: path@ },
            BuildAction::BuildDockerfile { args } => BuildActionView::BuildDockerfile {
                args: strings(args@),
            },
            BuildAction::BuildNixpacks { src, name } => BuildActionView::BuildNixpacks {
                src: src@,
                name: name@,
            },
            BuildAction::Call(c) => BuildActionView::Call(c@),
            BuildAction::RemoveContainer { container } => BuildActionView::RemoveContainer {
                container: container@,
            },
            BuildAction::StartContainer { container, db } => BuildActionView::StartContainer {
                container: container@,
                db: *db,
            },
            BuildAction::FindNetwork { name } => BuildActionView::FindNetwork { name: name@ },
            BuildAction::QueryDbUrl { project } => BuildActionView::QueryDbUrl { project: project@ },
            BuildAction::QueryEnvs { project } => BuildActionView::QueryEnvs { project: project@ },
            BuildAction::ReadFile { path } => BuildActionView::ReadFile { path: path@ },
            BuildAction::Finish(Ok(c)) => BuildActionView::Finish(Ok(c@)),
            BuildAction::Finish(Err(e)) => BuildActionView::Finish(Err(e@)),
        }
    }
}

/// Whether an event answers what a build at `s` waits on.
pub open spec fn build_event_fits(s: DockerBuildView, e: BuildEvent) -> bool {
    match s.step {
        BuildStep::SettingOldImageAside | BuildStep::RemovingApp | BuildStep::DroppingDb
        | BuildStep::StartingDb | BuildStep::ReleaseCleanupDb | BuildStep::StartingRelease
        | BuildStep::StartCleanupDb | BuildStep::RemovingRelease => e is Finished,
        BuildStep::StartingApp => e is Finished && (e matches BuildEvent::Finished(Ok(_)) ==> (
        s.network is Some && s.network->0.id is Some)),
        BuildStep::CheckingDockerfile => e is Exists,
        BuildStep::Building => e is Built,
        BuildStep::FindingNetwork => e is Network,
        BuildStep::FindingDbUrl => e is DbUrl,
        BuildStep::ReadingEnvs => e is Envs,
        BuildStep::ReadingProcfile => e is FileText,
        BuildStep::InspectingImage | BuildStep::RemovingOldTag | BuildStep::CreatingVolume
        | BuildStep::DroppingVolume | BuildStep::ConnectingDb | BuildStep::ReleaseCleanupVolume
        | BuildStep::ConnectingRelease | BuildStep::StartCleanupVolume | BuildStep::ConnectingApp =>
            e matches BuildEvent::Docker(DockerReply::Done(_)),
        BuildStep::InspectingApp | BuildStep::InspectingDb | BuildStep::InspectingVolume =>
            e matches BuildEvent::Docker(DockerReply::Found(_)),
        BuildStep::CreatingDb | BuildStep::CreatingRelease | BuildStep::CreatingApp =>
            e matches BuildEvent::Docker(DockerReply::Created(_)),
        BuildStep::InspectingNetwork => e matches BuildEvent::Docker(DockerReply::Addresses(_)),
        BuildStep::Done => false,
    }
}

/// `s` moved on to `step`, all else kept.
pub open spec fn at(s: DockerBuildView, step: BuildStep) -> DockerBuildView {
    DockerBuildView { step, ..s }
}

/// The build ends with the error `msg`.
pub open spec fn ends_failed(s: DockerBuildView, msg: Seq<char>, r: (DockerBuildView, BuildActionView)) -> bool {
    r.0 == at(s, BuildStep::Done) && r.1 == BuildActionView::Finish(Err(msg))
}

/// The build moves to `step` and asks for `a`.
pub open spec fn moves(
    s: DockerBuildView,
    step: BuildStep,
    a: BuildActionView,
    r: (DockerBuildView, BuildActionView),
) -> bool {
    r.0 == at(s, step) && r.1 == a
}

pub open spec fn call(c: DockerCallView) -> BuildActionView {
    BuildActionView::Call(c)
}

/// The subnet of the project's network, or the unset subnet.
pub open spec fn network_subnet(n: Option<NetworkInfo>) -> Seq<char> {
    match n {
        Some(x) => match x.subnet {
            Some(t) => t@,
            None => "0.0.0.0/0"@,
        },
        None => "0.0.0.0/0"@,
    }
}

pub open spec fn opt_pieces(o: Option<Seq<char>>) -> Option<Seq<Seq<char>>> {
    match o {
        Some(w) => Some(pieces(w, ' ')),
        None => None,
    }
}

/// The transitions of a build: how `build_docker_step` answers each stage
/// and event.
pub open spec fn build_transition(
    job: BuildJobView,
    s: DockerBuildView,
    e: BuildEvent,
    r: (DockerBuildView, BuildActionView),
) -> bool {
    let c = job.container;
    match (s.step, e) {
        (BuildStep::SettingOldImageAside, BuildEvent::Finished(Ok(()))) => moves(
            s,
            BuildStep::CheckingDockerfile,
            BuildActionView::CheckFile { path: path_join(job.src, "Dockerfile"@) },
            r,
        ),
        (BuildStep::CheckingDockerfile, BuildEvent::Exists(true)) => r.0 == DockerBuildView {
            step: BuildStep::Building,
            nixpacks: false,
            ..s
        } && r.1 == BuildActionView::BuildDockerfile {
            args: spec_dockerfile_args(job.src, c + ":latest"@),
        },
        (BuildStep::CheckingDockerfile, BuildEvent::Exists(false)) => r.0 == DockerBuildView {
            step: BuildStep::Building,
            nixpacks: true,
            ..s
        } && r.1 == BuildActionView::BuildNixpacks { src: job.src, name: c },
        (BuildStep::Building, BuildEvent::Built(Ok((ok, log)))) => if ok {
            r.0 == DockerBuildView { step: BuildStep::InspectingImage, build_log: log@, ..s } && r.1
                == call(DockerCallView::InspectImage { image: c + ":latest"@ })
        } else {
            ends_failed(s, log@, r)
        },
        (BuildStep::InspectingImage, BuildEvent::Docker(DockerReply::Done(Ok(())))) => moves(
            s,
            BuildStep::InspectingApp,
            call(DockerCallView::InspectContainer { container: c }),
            r,
        ),
        (BuildStep::InspectingApp, BuildEvent::Docker(DockerReply::Found(Ok(true)))) => moves(
            s,
            BuildStep::RemovingApp,
            BuildActionView::RemoveContainer { container: c },
            r,
        ),
        (BuildStep::InspectingApp, BuildEvent::Docker(DockerReply::Found(Ok(false)))) => moves(
            s,
            BuildStep::InspectingDb,
            call(DockerCallView::InspectContainer { container: c + "-db"@ }),
            r,
        ),
        (BuildStep::RemovingApp, BuildEvent::Finished(Ok(()))) => moves(
            s,
            BuildStep::RemovingOldTag,
            call(DockerCallView::RemoveImage { image: c + ":old"@ }),
            r,
        ),
        (BuildStep::RemovingOldTag, BuildEvent::Docker(DockerReply::Done(Ok(())))) => moves(
            s,
            BuildStep::InspectingDb,
            call(DockerCallView::InspectContainer { container: c + "-db"@ }),
            r,
        ),
        (BuildStep::InspectingDb, BuildEvent::Docker(DockerReply::Found(Ok(b)))) => r.0
            == DockerBuildView { step: BuildStep::InspectingVolume, db_exists: b, ..s } && r.1 == call(
            DockerCallView::InspectVolume { volume: c + "-volume"@ },
        ),
        (BuildStep::InspectingVolume, BuildEvent::Docker(DockerReply::Found(Ok(true)))) => moves(
            s,
            BuildStep::FindingNetwork,
            BuildActionView::FindNetwork { name: c + "-network"@ },
            r,
        ),
        (BuildStep::InspectingVolume, BuildEvent::Docker(DockerReply::Found(Ok(false)))) => moves(
            s,
            BuildStep::CreatingVolume,
            call(DockerCallView::CreateVolume { volume: c + "-volume"@ }),
            r,
        ),
        (BuildStep::CreatingVolume, BuildEvent::Docker(DockerReply::Done(Ok(())))) => moves(
            s,
            BuildStep::FindingNetwork,
            BuildActionView::FindNetwork { name: c + "-network"@ },
            r,
        ),
        (BuildStep::FindingNetwork, BuildEvent::Network(Ok(n))) => if s.db_exists {
            r.0 == DockerBuildView { step: BuildStep::FindingDbUrl, network: Some(n), ..s } && r.1
                == BuildActionView::QueryDbUrl { project: job.project }
        } else {
            &&& r.0 == DockerBuildView {
                step: BuildStep::CreatingDb,
                network: Some(n),
                db_user: r.0.db_user,
                db_password: r.0.db_password,
                ..s
            }
            &&& fresh_credentials(r.0.db_user, r.0.db_password)
            &&& r.1 == call(
                DockerCallView::CreateContainer { spec: db_spec(c, r.0.db_user, r.0.db_password) },
            )
        },
        (BuildStep::FindingDbUrl, BuildEvent::DbUrl(Ok(Some(url)))) => r.0 == DockerBuildView {
            step: BuildStep::ReadingEnvs,
            db_url: url@,
            ..s
        } && r.1 == BuildActionView::QueryEnvs { project: job.project },
        (BuildStep::FindingDbUrl, BuildEvent::DbUrl(Ok(None))) => moves(
            s,
            BuildStep::DroppingDb,
            BuildActionView::RemoveContainer { container: c + "-db"@ },
            r,
        ),
        (BuildStep::DroppingDb, BuildEvent::Finished(Ok(()))) => moves(
            s,
            BuildStep::DroppingVolume,
            call(DockerCallView::RemoveVolume { volume: c + "-volume"@ }),
            r,
        ),
        (BuildStep::DroppingVolume, BuildEvent::Docker(DockerReply::Done(Ok(())))) => {
            &&& r.0 == DockerBuildView {
                step: BuildStep::CreatingDb,
                db_user: r.0.db_user,
                db_password: r.0.db_password,
                ..s
            }
            &&& fresh_credentials(r.0.db_user, r.0.db_password)
            &&& r.1 == call(
                DockerCallView::CreateContainer { spec: db_spec(c, r.0.db_user, r.0.db_password) },
            )
        },
        (BuildStep::CreatingDb, BuildEvent::Docker(DockerReply::Created(Ok(_)))) => moves(
            s,
            BuildStep::StartingDb,
            BuildActionView::StartContainer { container: c + "-db"@, db: true },
            r,
        ),
        (BuildStep::StartingDb, BuildEvent::Finished(Ok(()))) => moves(
            s,
            BuildStep::ConnectingDb,
            call(DockerCallView::ConnectNetwork { network: c + "-network"@, container: c + "-db"@ }),
            r,
        ),
        (BuildStep::ConnectingDb, BuildEvent::Docker(DockerReply::Done(Ok(())))) => r.0
            == DockerBuildView {
            step: BuildStep::ReadingEnvs,
            db_url: crate::naming::spec_db_url(s.db_user, s.db_password, c + "-db"@),
            ..s
        } && r.1 == BuildActionView::QueryEnvs { project: job.project },
        (BuildStep::ReadingEnvs, BuildEvent::Envs(Ok(entries))) => {
            &&& lists_env(r.0.env, deployment_env(entries@, s.db_url))
            &&& if s.nixpacks {
                r.0 == DockerBuildView { step: BuildStep::CreatingApp, env: r.0.env, ..s } && r.1
                    == call(DockerCallView::CreateContainer { spec: app_spec(c, r.0.env, None) })
            } else {
                r.0 == DockerBuildView { step: BuildStep::ReadingProcfile, env: r.0.env, ..s } && r.1
                    == BuildActionView::ReadFile { path: path_join(job.src, "Procfile"@) }
            }
        },
        (BuildStep::ReadingProcfile, BuildEvent::FileText(text)) => {
            let release = procfile_command(opt_view(text), "release"@);
            let web_cmd = opt_pieces(procfile_command(opt_view(text), "web"@));
            if release is Some {
                r.0 == DockerBuildView { step: BuildStep::CreatingRelease, web_cmd, ..s } && r.1
                    == call(
                    DockerCallView::CreateContainer {
                        spec: release_spec(c, s.env, pieces(release->0, ' ')),
                    },
                )
            } else {
                r.0 == DockerBuildView { step: BuildStep::CreatingApp, web_cmd, ..s } && r.1 == call(
                    DockerCallView::CreateContainer { spec: app_spec(c, s.env, web_cmd) },
                )
            }
        },
        (BuildStep::CreatingRelease, BuildEvent::Docker(DockerReply::Created(Ok(_)))) => moves(
            s,
            BuildStep::ConnectingRelease,
            call(
                DockerCallView::ConnectNetwork { network: c + "-network"@, container: c + "-release"@ },
            ),
            r,
        ),
        (BuildStep::CreatingRelease, BuildEvent::Docker(DockerReply::Created(Err(err)))) => if s.db_exists {
            ends_failed(s, err@, r)
        } else {
            r.0 == DockerBuildView { step: BuildStep::ReleaseCleanupDb, release_error: err@, ..s }
                && r.1 == BuildActionView::RemoveContainer { container: c + "-db"@ }
        },
        (BuildStep::ReleaseCleanupDb, BuildEvent::Finished(Ok(()))) => moves(
            s,
            BuildStep::ReleaseCleanupVolume,
            call(DockerCallView::RemoveVolume { volume: c + "-volume"@ }),
            r,
        ),
        (BuildStep::ReleaseCleanupVolume, BuildEvent::Docker(DockerReply::Done(Ok(())))) => ends_failed(
            s,
            s.release_error,
            r,
        ),
        (BuildStep::ConnectingRelease, BuildEvent::Docker(DockerReply::Done(Ok(())))) => moves(
            s,
            BuildStep::StartingRelease,
            BuildActionView::StartContainer { container: c + "-release"@, db: false },
            r,
        ),
        (BuildStep::StartingRelease, BuildEvent::Finished(res)) => if res is Err && !s.db_exists {
            moves(s, BuildStep::StartCleanupDb, BuildActionView::RemoveContainer { container: c + "-db"@ }, r)
        } else {
            moves(
                s,
                BuildStep::RemovingRelease,
                BuildActionView::RemoveContainer { container: c + "-release"@ },
                r,
            )
        },
        (BuildStep::StartCleanupDb, BuildEvent::Finished(Ok(()))) => moves(
            s,
            BuildStep::StartCleanupVolume,
            call(DockerCallView::RemoveVolume { volume: c + "-volume"@ }),
            r,
        ),
        (BuildStep::StartCleanupVolume, BuildEvent::Docker(DockerReply::Done(Ok(())))) => moves(
            s,
            BuildStep::RemovingRelease,
            BuildActionView::RemoveContainer { container: c + "-release"@ },
            r,
        ),
        (BuildStep::RemovingRelease, BuildEvent::Finished(Ok(()))) => moves(
            s,
            BuildStep::CreatingApp,
            call(DockerCallView::CreateContainer { spec: app_spec(c, s.env, s.web_cmd) }),
            r,
        ),
        (BuildStep::CreatingApp, BuildEvent::Docker(DockerReply::Created(Ok(id)))) => r.0
            == DockerBuildView { step: BuildStep::ConnectingApp, container_id: id@, ..s } && r.1
            == call(DockerCallView::ConnectNetwork { network: c + "-network"@, container: c }),
        (BuildStep::ConnectingApp, BuildEvent::Docker(DockerReply::Done(Ok(())))) => moves(
            s,
            BuildStep::StartingApp,
            BuildActionView::StartContainer { container: c, db: false },
            r,
        ),
        (BuildStep::StartingApp, BuildEvent::Finished(Ok(()))) => moves(
            s,
            BuildStep::InspectingNetwork,
            call(
                DockerCallView::InspectNetwork {
                    network_id: s.network->0.id->0@,
                    container_id: s.container_id,
                },
            ),
            r,
        ),
        (BuildStep::InspectingNetwork, BuildEvent::Docker(DockerReply::Addresses(Ok((v4, v6))))) => {
            let ip = spec_container_ip(opt_view(v4), opt_view(v6));
            if ip is Some {
                r.0 == at(s, BuildStep::Done) && r.1 == BuildActionView::Finish(
                    Ok(
                        DockerContainerView {
                            ip: ip->0,
                            port: 80,
                            build_log: s.build_log,
                            db_url: s.db_url,
                            subnet: network_subnet(s.network),
                        },
                    ),
                )
            } else {
                ends_failed(s, "No ip address found for container "@ + c, r)
            }
        },
        // Every other answer that fits is the error of the call waited on.
        (_, BuildEvent::Finished(Err(err))) => ends_failed(s, err@, r),
        (_, BuildEvent::Network(Err(err))) => ends_failed(s, err@, r),
        (_, BuildEvent::Built(Err(err))) => ends_failed(s, err@, r),
        (_, BuildEvent::DbUrl(Err(err))) => ends_failed(s, err@, r),
        (_, BuildEvent::Envs(Err(err))) => ends_failed(s, err@, r),
        (_, BuildEvent::Docker(DockerReply::Done(Err(err)))) => ends_failed(s, err@, r),
        (_, BuildEvent::Docker(DockerReply::Found(Err(err)))) => ends_failed(s, err@, r),
        (_, BuildEvent::Docker(DockerReply::Created(Err(err)))) => ends_failed(s, err@, r),
        (_, BuildEvent::Docker(DockerReply::Addresses(Err(err)))) => ends_failed(s, err@, r),
        _ => false,
    }
}

/// A build that has just begun, setting the previous image aside.
pub open spec fn build_begins() -> DockerBuildView {
    DockerBuildView {
        step: BuildStep::SettingOldImageAside,
        nixpacks: false,
        build_log: Seq::empty(),
        db_exists: false,
        network: None,
        db_user: Seq::empty(),
        db_password: Seq::empty(),
        db_url: Seq::empty(),
        env: Seq::empty(),
        web_cmd: None,
        release_error: Seq::empty(),
        container_id: Seq::empty(),
    }
}

/// The first step of a build: setting the previous image aside, with the
/// image's tag given as the container name and the container name as the
/// image name.
pub fn build_docker_start(job: &BuildJob) -> (r: (DockerBuild, BuildAction))
    ensures
        r.0@ == build_begins(),
        r.1@ == (BuildActionView::SetOldImageAside {
            container_name: job.container_name@ + ":latest"@,
            image_name: job.container_name@,
        }),
{
    let s = DockerBuild {
        step: BuildStep::SettingOldImageAside,
        nixpacks: false,
        build_log: String::new(),
        db_exists: false,
        network: None,
        db_user: String::new(),
        db_password: String::new(),
        db_url: String::new(),
        env: Vec::new(),
        web_cmd: None,
        release_error: String::new(),
        container_id: String::new(),
    };
    assert(strings(s.env@) =~= Seq::<Seq<char>>::empty());
    let c = job.container_name.as_str();
    (s, BuildAction::SetOldImageAside { container_name: image_name(c), image_name: own(c) })
}

fn fail_build(s: DockerBuild, msg: String) -> (r: (DockerBuild, BuildAction))
    ensures
        ends_failed(s@, msg@, (r.0@, r.1@)),
{
    (DockerBuild { step: BuildStep::Done, ..s }, BuildAction::Finish(Err(msg)))
}

fn go(s: DockerBuild, step: BuildStep, a: BuildAction) -> (r: (DockerBuild, BuildAction))
    ensures
        moves(s@, step, a@, (r.0@, r.1@)),
{
    (DockerBuild { step, ..s }, a)
}

fn subnet_text(n: &Option<NetworkInfo>) -> (r: String)
    ensures
        r@ == network_subnet(*n),
{
    match n {
        Some(x) => match &x.subnet {
            Some(t) => t.clone(),
            None => own("0.0.0.0/0"),
        },
        None => own("0.0.0.0/0"),
    }
}

fn create_db_step(c: &str, s: DockerBuild) -> (r: (DockerBuild, BuildAction))
    ensures
        r.0@ == (DockerBuildView {
            step: BuildStep::CreatingDb,
            db_user: r.0@.db_user,
            db_password: r.0@.db_password,
            ..s@
        }),
        fresh_credentials(r.0@.db_user, r.0@.db_password),
        r.1@ == call(DockerCallView::CreateContainer { spec: db_spec(c@, r.0@.db_user, r.0@.db_password) }),
{
    let (user, password) = new_credentials();
    let spec = make_db_spec(c, user.as_str(), password.as_str());
    (
        DockerBuild { step: BuildStep::CreatingDb, db_user: user, db_password: password, ..s },
        BuildAction::Call(DockerCall::CreateContainer { spec }),
    )
}

/// One step of building and starting a project: set the previous image
/// aside; build the image from the Dockerfile, or with nixpacks where
/// there is none; replace a running container; make sure the project has
/// a volume, a network and a database (creating the database with fresh
/// credentials where it is missing or its address is not on record); run
/// the Procfile's `release` command once; create, connect and start the
/// project's container with its environment and the Procfile's `web`
/// command; and answer with the address it is reached at.
#[verifier::spinoff_prover]
#[verifier::rlimit(100)]
pub fn build_docker_step(job: &BuildJob, s: DockerBuild, e: BuildEvent) -> (r: (DockerBuild, BuildAction))
    requires
        build_event_fits(s@, e),
    ensures
        build_transition(job@, s@, e, (r.0@, r.1@)),
{
    let c = job.container_name.as_str();
    let src = job.container_src.as_str();
    match s.step {
        BuildStep::SettingOldImageAside => match e {
            BuildEvent::Finished(Ok(())) => go(
                s,
                BuildStep::CheckingDockerfile,
                BuildAction::CheckFile { path: join_path(src, "Dockerfile") },
            ),
            BuildEvent::Finished(Err(err)) => fail_build(s, err),
            _ => fail_build(s, String::new()),
        },
        BuildStep::CheckingDockerfile => match e {
            BuildEvent::Exists(true) => {
                let image = image_name(c);
                let args = dockerfile_args(src, image.as_str());
                (DockerBuild { step: BuildStep::Building, nixpacks: false, ..s }, BuildAction::BuildDockerfile { args })
            },
            _ => (
                DockerBuild { step: BuildStep::Building, nixpacks: true, ..s },
                BuildAction::BuildNixpacks { src: own(src), name: own(c) },
            ),
        },
        BuildStep::Building => match e {
            BuildEvent::Built(Ok((ok, log))) => if ok {
                (
                    DockerBuild { step: BuildStep::InspectingImage, build_log: log, ..s },
                    BuildAction::Call(DockerCall::InspectImage { image: image_name(c) }),
                )
            } else {
                fail_build(s, log)
            },
            BuildEvent::Built(Err(err)) => fail_build(s, err),
            _ => fail_build(s, String::new()),
        },
        BuildStep::InspectingImage => match e {
            BuildEvent::Docker(DockerReply::Done(Ok(()))) => go(
                s,
                BuildStep::InspectingApp,
                BuildAction::Call(DockerCall::InspectContainer { container: own(c) }),
            ),
            BuildEvent::Docker(DockerReply::Done(Err(err))) => fail_build(s, err),
            _ => fail_build(s, String::new()),
        },
        BuildStep::InspectingApp => match e {
            BuildEvent::Docker(DockerReply::Found(Ok(true))) => go(
                s,
                BuildStep::RemovingApp,
                BuildAction::RemoveContainer { container: own(c) },
            ),
            BuildEvent::Docker(DockerReply::Found(Ok(false))) => go(
                s,
                BuildStep::InspectingDb,
                BuildAction::Call(DockerCall::InspectContainer { container: db_name(c) }),
            ),
            BuildEvent::Docker(DockerReply::Found(Err(err))) => fail_build(s, err),
            _ => fail_build(s, String::new()),
        },
        BuildStep::RemovingApp => match e {
            BuildEvent::Finished(Ok(())) => go(
                s,
                BuildStep::RemovingOldTag,
                BuildAction::Call(DockerCall::RemoveImage { image: old_image_name(c) }),
            ),
            BuildEvent::Finished(Err(err)) => fail_build(s, err),
            _ => fail_build(s, String::new()),
        },
        BuildStep::RemovingOldTag => match e {
            BuildEvent::Docker(DockerReply::Done(Ok(()))) => go(
                s,
                BuildStep::InspectingDb,
                BuildAction::Call(DockerCall::InspectContainer { container: db_name(c) }),
            ),
            BuildEvent::Docker(DockerReply::Done(Err(err))) => fail_build(s, err),
            _ => fail_build(s, String::new()),
        },
        BuildStep::InspectingDb => match e {
            BuildEvent::Docker(DockerReply::Found(Ok(b))) => (
                DockerBuild { step: BuildStep::InspectingVolume, db_exists: b, ..s },
                BuildAction::Call(DockerCall::InspectVolume { volume: volume_name(c) }),
            ),
            BuildEvent::Docker(DockerReply::Found(Err(err))) => fail_build(s, err),
            _ => fail_build(s, String::new()),
        },
        BuildStep::InspectingVolume => match e {
            BuildEvent::Docker(DockerReply::Found(Ok(true))) => go(
                s,
                BuildStep::FindingNetwork,
                BuildAction::FindNetwork { name: network_name(c) },
            ),
            BuildEvent::Docker(DockerReply::Found(Ok(false))) => go(
                s,
                BuildStep::CreatingVolume,
                BuildAction::Call(DockerCall::CreateVolume { volume: volume_name(c) }),
            ),
            BuildEvent::Docker(DockerReply::Found(Err(err))) => fail_build(s, err),
            _ => fail_build(s, String::new()),
        },
        BuildStep::CreatingVolume => match e {
            BuildEvent::Docker(DockerReply::Done(Ok(()))) => go(
                s,
                BuildStep::FindingNetwork,
                BuildAction::FindNetwork { name: network_name(c) },
            ),
            BuildEvent::Docker(DockerReply::Done(Err(err))) => fail_build(s, err),
            _ => fail_build(s, String::new()),
        },
        BuildStep::FindingNetwork => match e {
            BuildEvent::Network(Ok(n)) => if s.db_exists {
                (
                    DockerBuild { step: BuildStep::FindingDbUrl, network: Some(n), ..s },
                    BuildAction::QueryDbUrl { project: job.project_name.clone() },
                )
            } else {
                create_db_step(c, DockerBuild { network: Some(n), ..s })
            },
            BuildEvent::Network(Err(err)) => fail_build(s, err),
            _ => fail_build(s, String::new()),
        },
        BuildStep::FindingDbUrl => match e {
            BuildEvent::DbUrl(Ok(Some(url))) => (
                DockerBuild { step: BuildStep::ReadingEnvs, db_url: url, ..s },
                BuildAction::QueryEnvs { project: job.project_name.clone() },
            ),
            BuildEvent::DbUrl(Ok(None)) => go(
                s,
                BuildStep::DroppingDb,
                BuildAction::RemoveContainer { container: db_name(c) },
            ),
            BuildEvent::DbUrl(Err(err)) => fail_build(s, err),
            _ => fail_build(s, String::new()),
        },
        BuildStep::DroppingDb => match e {
            BuildEvent::Finished(Ok(())) => go(
                s,
                BuildStep::DroppingVolume,
                BuildAction::Call(DockerCall::RemoveVolume { volume: volume_name(c) }),
            ),
            BuildEvent::Finished(Err(err)) => fail_build(s, err),
            _ => fail_build(s, String::new()),
        },
        BuildStep::DroppingVolume => match e {
            BuildEvent::Docker(DockerReply::Done(Ok(()))) => create_db_step(c, s),
            BuildEvent::Docker(DockerReply::Done(Err(err))) => fail_build(s, err),
            _ => fail_build(s, String::new()),
        },
        BuildStep::CreatingDb => match e {
            BuildEvent::Docker(DockerReply::Created(Ok(_))) => go(
                s,
                BuildStep::StartingDb,
                BuildAction::StartContainer { container: db_name(c), db: true },
            ),
            BuildEvent::Docker(DockerReply::Created(Err(err))) => fail_build(s, err),
            _ => fail_build(s, String::new()),
        },
        BuildStep::StartingDb => match e {
            BuildEvent::Finished(Ok(())) => go(
                s,
                BuildStep::ConnectingDb,
                BuildAction::Call(
                    DockerCall::ConnectNetwork { network: network_name(c), container: db_name(c) },
                ),
            ),
            BuildEvent::Finished(Err(err)) => fail_build(s, err),
            _ => fail_build(s, String::new()),
        },
        BuildStep::ConnectingDb => match e {
            BuildEvent::Docker(DockerReply::Done(Ok(()))) => {
                let db = db_name(c);
                let url = crate::naming::db_url(s.db_user.as_str(), s.db_password.as_str(), db.as_str());
                (
                    DockerBuild { step: BuildStep::ReadingEnvs, db_url: url, ..s },
                    BuildAction::QueryEnvs { project: job.project_name.clone() },
                )
            },
            BuildEvent::Docker(DockerReply::Done(Err(err))) => fail_build(s, err),
            _ => fail_build(s, String::new()),
        },
        BuildStep::ReadingEnvs => match e {
            BuildEvent::Envs(Ok(entries)) => {
                let env = container_env(&entries, s.db_url.as_str());
                if s.nixpacks {
                    let spec = make_app_spec(c, &env, &None);
                    (
                        DockerBuild { step: BuildStep::CreatingApp, env, ..s },
                        BuildAction::Call(DockerCall::CreateContainer { spec }),
                    )
                } else {
                    (
                        DockerBuild { step: BuildStep::ReadingProcfile, env, ..s },
                        BuildAction::ReadFile { path: join_path(src, "Procfile") },
                    )
                }
            },
            BuildEvent::Envs(Err(err)) => fail_build(s, err),
            _ => fail_build(s, String::new()),
        },
        BuildStep::ReadingProcfile => match e {
            BuildEvent::FileText(text) => {
                let release = procfile_entry(&text, "release");
                let web = procfile_entry(&text, "web");
                let web_cmd = match web {
                    Some(w) => Some(command_words(w.as_str())),
                    None => None,
                };
                match release {
                    Some(rel) => {
                        let spec = make_release_spec(c, &s.env, command_words(rel.as_str()));
                        (
                            DockerBuild { step: BuildStep::CreatingRelease, web_cmd, ..s },
                            BuildAction::Call(DockerCall::CreateContainer { spec }),
                        )
                    },
                    None => {
                        let spec = make_app_spec(c, &s.env, &web_cmd);
                        (
                            DockerBuild { step: BuildStep::CreatingApp, web_cmd, ..s },
                            BuildAction::Call(DockerCall::CreateContainer { spec }),
                        )
                    },
                }
            },
            _ => fail_build(s, String::new()),
        },
        BuildStep::CreatingRelease => match e {
            BuildEvent::Docker(DockerReply::Created(Ok(_))) => go(
                s,
                BuildStep::ConnectingRelease,
                BuildAction::Call(
                    DockerCall::ConnectNetwork { network: network_name(c), container: release_name(c) },
                ),
            ),
            BuildEvent::Docker(DockerReply::Created(Err(err))) => if s.db_exists {
                fail_build(s, err)
            } else {
                (
                    DockerBuild { step: BuildStep::ReleaseCleanupDb, release_error: err, ..s },
                    BuildAction::RemoveContainer { container: db_name(c) },
                )
            },
            _ => fail_build(s, String::new()),
        },
        BuildStep::ReleaseCleanupDb => match e {
            BuildEvent::Finished(Ok(())) => go(
                s,
                BuildStep::ReleaseCleanupVolume,
                BuildAction::Call(DockerCall::RemoveVolume { volume: volume_name(c) }),
            ),
            BuildEvent::Finished(Err(err)) => fail_build(s, err),
            _ => fail_build(s, String::new()),
        },
        BuildStep::ReleaseCleanupVolume => match e {
            BuildEvent::Docker(DockerReply::Done(Ok(()))) => {
                let msg = s.release_error.clone();
                fail_build(s, msg)
            },
            BuildEvent::Docker(DockerReply::Done(Err(err))) => fail_build(s, err),
            _ => fail_build(s, String::new()),
        },
        BuildStep::ConnectingRelease => match e {
            BuildEvent::Docker(DockerReply::Done(Ok(()))) => go(
                s,
                BuildStep::StartingRelease,
                BuildAction::StartContainer { container: release_name(c), db: false },
            ),
            BuildEvent::Docker(DockerReply::Done(Err(err))) => fail_build(s, err),
            _ => fail_build(s, String::new()),
        },
        BuildStep::StartingRelease => match e {
            BuildEvent::Finished(res) => {
                let failed = match res {
                    Ok(()) => false,
                    Err(_) => true,
                };
                if failed && !s.db_exists {
                    go(s, BuildStep::StartCleanupDb, BuildAction::RemoveContainer { container: db_name(c) })
                } else {
                    go(
                        s,
                        BuildStep::RemovingRelease,
                        BuildAction::RemoveContainer { container: release_name(c) },
                    )
                }
            },
            _ => fail_build(s, String::new()),
        },
        BuildStep::StartCleanupDb => match e {
            BuildEvent::Finished(Ok(())) => go(
                s,
                BuildStep::StartCleanupVolume,
                BuildAction::Call(DockerCall::RemoveVolume { volume: volume_name(c) }),
            ),
            BuildEvent::Finished(Err(err)) => fail_build(s, err),
            _ => fail_build(s, String::new()),
        },
        BuildStep::StartCleanupVolume => match e {
            BuildEvent::Docker(DockerReply::Done(Ok(()))) => go(
                s,
                BuildStep::RemovingRelease,
                BuildAction::RemoveContainer { container: release_name(c) },
            ),
            BuildEvent::Docker(DockerReply::Done(Err(err))) => fail_build(s, err),
            _ => fail_build(s, String::new()),
        },
        BuildStep::RemovingRelease => match e {
            BuildEvent::Finished(Ok(())) => {
                let spec = make_app_spec(c, &s.env, &s.web_cmd);
                go(s, BuildStep::CreatingApp, BuildAction::Call(DockerCall::CreateContainer { spec }))
            },
            BuildEvent::Finished(Err(err)) => fail_build(s, err),
            _ => fail_build(s, String::new()),
        },
        BuildStep::CreatingApp => match e {
            BuildEvent::Docker(DockerReply::Created(Ok(id))) => (
                DockerBuild { step: BuildStep::ConnectingApp, container_id: id, ..s },
                BuildAction::Call(DockerCall::ConnectNetwork { network: network_name(c), container: own(c) }),
            ),
            BuildEvent::Docker(DockerReply::Created(Err(err))) => fail_build(s, err),
            _ => fail_build(s, String::new()),
        },
        BuildStep::ConnectingApp => match e {
            BuildEvent::Docker(DockerReply::Done(Ok(()))) => go(
                s,
                BuildStep::StartingApp,
                BuildAction::StartContainer { container: own(c), db: false },
            ),
            BuildEvent::Docker(DockerReply::Done(Err(err))) => fail_build(s, err),
            _ => fail_build(s, String::new()),
        },
        BuildStep::StartingApp => match e {
            BuildEvent::Finished(Ok(())) => {
                let network_id = match &s.network {
                    Some(n) => match &n.id {
                        Some(i) => i.clone(),
                        None => String::new(),
                    },
                    None => String::new(),
                };
                let container_id = s.container_id.clone();
                go(
                    s,
                    BuildStep::InspectingNetwork,
                    BuildAction::Call(DockerCall::InspectNetwork { network_id, container_id }),
                )
            },
            BuildEvent::Finished(Err(err)) => fail_build(s, err),
            _ => fail_build(s, String::new()),
        },
        BuildStep::InspectingNetwork => match e {
            BuildEvent::Docker(DockerReply::Addresses(Ok((v4, v6)))) => match container_ip(&v4, &v6) {
                Some(ip) => {
                    let out = DockerContainer {
                        ip,
                        port: 80,
                        build_log: s.build_log.clone(),
                        db_url: s.db_url.clone(),
                        subnet: subnet_text(&s.network),
                    };
                    (DockerBuild { step: BuildStep::Done, ..s }, BuildAction::Finish(Ok(out)))
                },
                None => {
                    let mut msg = chars_of("No ip address found for container ");
                    append_chars(&mut msg, c);
                    fail_build(s, string_of(&msg))
                },
            },
            BuildEvent::Docker(DockerReply::Addresses(Err(err))) => fail_build(s, err),
            _ => fail_build(s, String::new()),
        },
        BuildStep::Done => fail_build(s, String::new()),
    }
}

/// Whether an action creates the project's database container.
pub open spec fn creates_database(a: BuildActionView, container: Seq<char>) -> bool {
    a matches BuildActionView::Call(DockerCallView::CreateContainer { spec }) && spec.name
        == container + "-db"@
}

/// A build answers with a running container only once the container has
/// been started and the network inspected; and it inspects the network
/// only right after the container started.
pub proof fn build_succeeds_only_after_start(
    job: BuildJobView,
    s: DockerBuildView,
    e: BuildEvent,
    r: (DockerBuildView, BuildActionView),
)
    requires
        build_event_fits(s, e),
        build_transition(job, s, e, r),
    ensures
        r.1 is Finish && r.1->Finish_0 is Ok ==> s.step is InspectingNetwork,
        r.0.step is InspectingNetwork ==> s.step is StartingApp && e matches BuildEvent::Finished(Ok(_)),
{
}

/// A redeploy clears the way for the new container: where the build finds
/// a container of the job's name, it removes that container, and once it
/// is removed it removes the image tagged `<container>:old`. The build goes
/// on to the database (and so, later, to creating the new container) only
/// where no such container was found, or after both removals.
pub proof fn old_container_removed_before_redeploy(
    job: BuildJobView,
    s: DockerBuildView,
    e: BuildEvent,
    r: (DockerBuildView, BuildActionView),
)
    requires
        build_event_fits(s, e),
        build_transition(job, s, e, r),
    ensures
        s.step is InspectingApp && (e matches BuildEvent::Docker(DockerReply::Found(Ok(found))) && found) ==> r.0.step is RemovingApp
            && r.1 == (BuildActionView::RemoveContainer { container: job.container }),
        s.step is RemovingApp && (e matches BuildEvent::Finished(Ok(_))) ==> r.0.step is RemovingOldTag && r.1
            == BuildActionView::Call(DockerCallView::RemoveImage { image: job.container + seq![':', 'o', 'l', 'd'] }),
        r.0.step is InspectingDb ==> (s.step is InspectingApp && (e matches BuildEvent::Docker(
            DockerReply::Found(Ok(found)),
        ) && !found)) || (s.step is RemovingOldTag && (e matches BuildEvent::Docker(DockerReply::Done(Ok(_))))),
        r.0.step is RemovingOldTag ==> s.step is RemovingApp,
        r.0.step is RemovingApp ==> s.step is InspectingApp,
{
    reveal_strlit(":old");
    assert(":old"@ =~= seq![':', 'o', 'l', 'd']);
}

/// A build creates a database container only where the project had none,
/// or where it had one whose address was not on record (which it has
/// dropped first); and it does so with fresh credentials, which it keeps
/// unchanged at every other step.
#[verifier::rlimit(40)]
pub proof fn database_created_only_when_missing(
    job: BuildJobView,
    s: DockerBuildView,
    e: BuildEvent,
    r: (DockerBuildView, BuildActionView),
)
    requires
        build_event_fits(s, e),
        build_transition(job, s, e, r),
    ensures
        creates_database(r.1, job.container) ==> (s.step is FindingNetwork && !s.db_exists) || (
        s.step is DroppingVolume),
        creates_database(r.1, job.container) ==> fresh_credentials(r.0.db_user, r.0.db_password),
        !creates_database(r.1, job.container) ==> r.0.db_user == s.db_user && r.0.db_password
            == s.db_password,
{
    let c = job.container;
    reveal_strlit("-db");
    reveal_strlit("-release");
    assert((c + "-db"@).len() != c.len());
    assert((c + "-db"@).len() != (c + "-release"@).len());
}

/// The database address that a build hands to the project's container is
/// either the one on record or the one of the database it created, made
/// of that database's user and password.
#[verifier::rlimit(40)]
pub proof fn database_address_comes_from_record_or_credentials(
    job: BuildJobView,
    s: DockerBuildView,
    e: BuildEvent,
    r: (DockerBuildView, BuildActionView),
)
    requires
        build_event_fits(s, e),
        build_transition(job, s, e, r),
    ensures
        r.0.db_url != s.db_url ==> (e matches BuildEvent::DbUrl(Ok(Some(url))) && r.0.db_url == url@)
            || (s.step is ConnectingDb && r.0.db_url == crate::naming::spec_db_url(
            s.db_user,
            s.db_password,
            job.container + "-db"@,
        )),
{
}

} // verus!
