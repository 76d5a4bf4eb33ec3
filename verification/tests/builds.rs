use pemasak_infra::build_queue::{
    build_run, enqueue_step, queued_build, trigger_step, BuildItem, BuildQueueItem, BuildSlots, BuildStatus, DomainRow, EnqueueAction,
    EnqueueEvent, EnqueueStage, TriggerAction, TriggerEvent, TriggerStage,
};
use pemasak_infra::build_state::{badge_color, status_badge, BadgeColor, BuildState};
use pemasak_infra::docker::DockerContainer;
use pemasak_infra::text::uuid_text;

fn item() -> BuildItem {
    BuildItem {
        build_id: 0x0123456789abcdef0123456789abcdef,
        container_name: "alice-site".into(),
        container_src: "/b/alice/site.git/master".into(),
        owner: "alice".into(),
        repo: "site".into(),
    }
}

fn output(subnet: &str) -> DockerContainer {
    DockerContainer {
        ip: "172.20.0.3".into(),
        port: 80,
        build_log: "built".into(),
        db_url: "postgresql://u:p@alice-site-db:5432/postgres".into(),
        subnet: subnet.into(),
    }
}

fn failure(a: TriggerAction) -> (String, Option<String>) {
    match a {
        TriggerAction::Finish(Err(e)) => (e.message, e.inner_error),
        _ => panic!("expected a failure"),
    }
}

#[test]
fn build_slots_are_conserved_on_example() {
    let mut s = BuildSlots::new(2);
    assert_eq!(s.free_slots(), 2);
    assert!(s.should_pop(1));
    assert!(!s.should_pop(0));
    s.start_build();
    s.start_build();
    assert_eq!(s.free_slots(), 0);
    assert!(!s.should_pop(5));
    s.finish_build();
    assert_eq!(s.free_slots(), 1);
    s.finish_build();
    assert_eq!(s.free_slots(), 2);
}

#[test]
fn a_push_is_enqueued_once() {
    let (stage, action) = enqueue_step(EnqueueStage::FindProject, EnqueueEvent::Project(Ok(Some(9))));
    assert!(matches!(action, EnqueueAction::CheckQueued));
    let (stage2, action) = enqueue_step(stage, EnqueueEvent::Queued(Ok(false)));
    assert!(matches!(action, EnqueueAction::CreateBuild { project_id: 9 }));
    let (_, action) = enqueue_step(stage2, EnqueueEvent::Created(Ok(77)));
    assert!(matches!(action, EnqueueAction::Send(77)));
    let (_, action) = enqueue_step(EnqueueStage::CheckQueued { project_id: 9 }, EnqueueEvent::Queued(Ok(true)));
    assert!(matches!(action, EnqueueAction::Skip));
    let (_, action) = enqueue_step(EnqueueStage::FindProject, EnqueueEvent::Project(Ok(None)));
    assert!(matches!(action, EnqueueAction::Skip));
    let (_, action) = enqueue_step(EnqueueStage::CreateBuild { project_id: 9 }, EnqueueEvent::Created(Err(())));
    assert!(matches!(action, EnqueueAction::Skip));
}

#[test]
fn successful_build_gets_a_new_domain() {
    let it = item();
    let (s, a) = trigger_step(&it, "10.0.0.1", TriggerStage::FindProject, TriggerEvent::Lookup(Ok(Some(5))));
    assert!(matches!(a, TriggerAction::QueryBuild { build_id } if build_id == it.build_id));
    let (s, a) = trigger_step(&it, "10.0.0.1", s, TriggerEvent::Lookup(Ok(Some(it.build_id))));
    assert!(matches!(a, TriggerAction::SetBuildStatus { status: BuildStatus::Building, log: None, .. }));
    let (s, a) = trigger_step(&it, "10.0.0.1", s, TriggerEvent::Written(Ok(())));
    assert!(matches!(a, TriggerAction::RunBuild));
    let (s, a) = trigger_step(&it, "10.0.0.1", s, TriggerEvent::Built(Ok(output("172.20.0.0/16"))));
    match a {
        TriggerAction::SetBuildStatus { status: BuildStatus::Successful, log: Some(log), .. } => assert_eq!(log, "built"),
        _ => panic!("expected the build to be marked successful"),
    }
    let (s, a) = trigger_step(&it, "10.0.0.1", s, TriggerEvent::Written(Ok(())));
    assert!(matches!(a, TriggerAction::SetProjectRunning { project_id: 5 }));
    let (s, a) = trigger_step(&it, "10.0.0.1", s, TriggerEvent::Written(Ok(())));
    assert!(matches!(a, TriggerAction::QueryDomain { project_id: 5 }));
    let (s, a) = trigger_step(&it, "10.0.0.1", s, TriggerEvent::Domain(Ok(None)));
    assert!(matches!(a, TriggerAction::InsertDomain { project_id: 5, .. }));
    let (_, a) = trigger_step(&it, "10.0.0.1", s, TriggerEvent::Written(Ok(())));
    assert!(matches!(a, TriggerAction::Finish(Ok(ref n)) if n == "alice-site"));
}

#[test]
fn existing_domain_is_completed() {
    let it = item();
    let domain = DomainRow { name: "site".into(), subnet: "0.0.0.0/0".into(), host_ip: "0.0.0.0".into() };
    let (s, a) = trigger_step(
        &it,
        "10.0.0.1",
        TriggerStage::FindDomain { project_id: 5, out: output("172.20.0.0/16") },
        TriggerEvent::Domain(Ok(Some(domain))),
    );
    assert!(matches!(a, TriggerAction::SetDomainSubnet { project_id: 5, ref subnet } if subnet == "172.20.0.0/16"));
    let (s, a) = trigger_step(&it, "10.0.0.1", s, TriggerEvent::Written(Ok(())));
    assert!(matches!(a, TriggerAction::SetDomainHostIp { project_id: 5, ref host_ip } if host_ip == "10.0.0.1"));
    let (_, a) = trigger_step(&it, "10.0.0.1", s, TriggerEvent::Written(Ok(())));
    assert!(matches!(a, TriggerAction::Finish(Ok(ref n)) if n == "site"));
    let done = DomainRow { name: "site".into(), subnet: "172.20.0.0/16".into(), host_ip: "10.0.0.1".into() };
    let (_, a) = trigger_step(
        &it,
        "10.0.0.1",
        TriggerStage::FindDomain { project_id: 5, out: output("x") },
        TriggerEvent::Domain(Ok(Some(done))),
    );
    assert!(matches!(a, TriggerAction::Finish(Ok(ref n)) if n == "site"));
}

#[test]
fn build_failures_report_their_cause() {
    let it = item();
    let (_, a) = trigger_step(&it, "h", TriggerStage::FindProject, TriggerEvent::Lookup(Ok(None)));
    assert_eq!(failure(a), ("Project not found with owner alice and repo site".to_string(), None));
    let (_, a) = trigger_step(&it, "h", TriggerStage::FindProject, TriggerEvent::Lookup(Err("db down".into())));
    assert_eq!(failure(a), ("Can't get project: Failed to query database".to_string(), Some("db down".to_string())));
    let (_, a) = trigger_step(&it, "h", TriggerStage::FindBuild { project_id: 5 }, TriggerEvent::Lookup(Ok(None)));
    assert_eq!(
        failure(a),
        ("Failed to find build with id: 01234567-89ab-cdef-0123-456789abcdef".to_string(), None)
    );
    let (s, a) = trigger_step(
        &it,
        "h",
        TriggerStage::Build { project_id: 5, build_id: 1 },
        TriggerEvent::Built(Err("compile error".into())),
    );
    assert!(matches!(a, TriggerAction::SetBuildStatus { status: BuildStatus::Failed, log: Some(ref l), .. } if l == "compile error"));
    let (_, a) = trigger_step(&it, "h", s, TriggerEvent::Written(Ok(())));
    assert_eq!(
        failure(a),
        ("A build error occured while building repository: site".to_string(), Some("compile error".to_string()))
    );
}

#[test]
fn build_ids_print_as_uuids() {
    assert_eq!(uuid_text(0), "00000000-0000-0000-0000-000000000000");
    assert_eq!(uuid_text(0x0123456789abcdef0123456789abcdef), "01234567-89ab-cdef-0123-456789abcdef");
    assert_eq!(uuid_text(u128::MAX), "ffffffff-ffff-ffff-ffff-ffffffffffff");
}

#[test]
fn build_states_read_and_print() {
    assert_eq!(BuildState::PENDING.fmt(), "Pending");
    assert_eq!(BuildState::FAILED.fmt(), "Failed");
    assert!(matches!(BuildState::from_column("building"), Some(BuildState::BUILDING)));
    assert!(matches!(BuildState::from_column("successful"), Some(BuildState::SUCCESSFUL)));
    assert!(BuildState::from_column("Building").is_none());
    assert!(badge_color(BuildState::SUCCESSFUL) == BadgeColor::Green);
    assert!(badge_color(BuildState::PENDING) == BadgeColor::Grey);
    assert!(badge_color(BuildState::BUILDING) == BadgeColor::Yellow);
    assert!(badge_color(BuildState::FAILED) == BadgeColor::Red);
}

#[test]
fn status_badge_draws_the_state() {
    let svg = status_badge(BuildState::SUCCESSFUL).unwrap();
    assert!(svg.starts_with("<svg"));
    let failed = status_badge(BuildState::FAILED).unwrap();
    assert!(failed.starts_with("<svg"));
    assert_ne!(svg, failed);
    assert_eq!(status_badge(BuildState::SUCCESSFUL).unwrap(), svg);
}

#[test]
fn queued_build_carries_the_push() {
    let push = BuildQueueItem {
        container_name: "alice-site".into(),
        container_src: "/b/alice/site.git".into(),
        owner: "alice".into(),
        repo: "site".into(),
    };
    let b = queued_build(&push, 77);
    assert_eq!(b.build_id, 77);
    assert_eq!(b.container_name, "alice-site");
    assert_eq!(b.container_src, "/b/alice/site.git");
    assert_eq!((b.owner.as_str(), b.repo.as_str()), ("alice", "site"));
}

#[test]
fn a_build_run_notifies_the_idle_watch_around_the_build() {
    let item = BuildItem {
        build_id: 3,
        container_name: "alice-site".into(),
        container_src: "/b/alice/site.git".into(),
        owner: "alice".into(),
        repo: "site".into(),
    };
    let run = build_run(item);
    assert_eq!(run.notice_before, "alice-site");
    assert_eq!(run.notice_after, "alice-site");
    assert_eq!(run.build.build_id, 3);
    assert_eq!(run.build.repo, "site");
}
