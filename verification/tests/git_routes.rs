use pemasak_infra::git_protocol::{
    get_git_service, is_smart_service, packet_flush, packet_write, service_advertisement,
};
use pemasak_infra::git_server::{
    advertise_args, advertisement_content_type, cache_forever_headers, cache_forever_headers_at,
    checkout_start, checkout_step, git_protocol_env, info_packs_path, loose_object_path,
    no_cache_headers, pack_content_type, pack_file_path, pack_file_type, receive_pack_plan,
    rpc_args, rpc_content_type, rpc_input, rpc_reply, CheckoutAction, CheckoutEvent, CheckoutStage,
    GitQuery,
};

fn pairs(v: &[(String, String)]) -> Vec<(&str, &str)> {
    v.iter().map(|(a, b)| (a.as_str(), b.as_str())).collect()
}

#[test]
fn git_service_names_drop_the_prefix() {
    assert_eq!(get_git_service("git-upload-pack"), "upload-pack");
    assert_eq!(get_git_service("git-receive-pack"), "receive-pack");
    assert_eq!(get_git_service("upload-pack"), "");
    assert_eq!(get_git_service("git"), "");
    assert_eq!(get_git_service("git-"), "");
}

#[test]
fn pkt_line_has_hex_length_prefix() {
    assert_eq!(packet_write("# service=git-upload-pack\n"), b"001e# service=git-upload-pack\n".to_vec());
    assert_eq!(packet_write(""), b"0004".to_vec());
    assert_eq!(packet_write("a"), b"0005a".to_vec());
    let long = "x".repeat(300);
    let out = packet_write(&long);
    assert_eq!(&out[..4], b"0130");
    assert_eq!(out.len(), 304);
}

#[test]
fn flush_packet_is_four_zeros() {
    assert_eq!(packet_flush(), b"0000".to_vec());
}

#[test]
fn advertisement_frames_service_then_refs() {
    let body = service_advertisement("upload-pack", b"REFS");
    assert_eq!(body, b"001e# service=git-upload-pack\n0000REFS".to_vec());
    let body = service_advertisement("receive-pack", b"");
    assert_eq!(body, b"001f# service=git-receive-pack\n0000".to_vec());
}

#[test]
fn only_two_services_are_smart() {
    assert!(is_smart_service("upload-pack"));
    assert!(is_smart_service("receive-pack"));
    assert!(!is_smart_service(""));
    assert!(!is_smart_service("git-upload-pack"));
    let q = GitQuery { service: "git-upload-pack".to_string() };
    assert!(is_smart_service(&get_git_service(&q.service)));
}

#[test]
fn dumb_protocol_paths() {
    assert_eq!(info_packs_path("/b", "r"), "/b/r.git/objects/info/packs");
    assert_eq!(info_packs_path("/b", "r.git"), "/b/r.git/objects/info/packs");
    assert_eq!(loose_object_path("/b", "r.git", "ab", "cdef"), "/b/r.git/objects/ab/cdef");
    assert_eq!(loose_object_path("/b", "r", "ab", "cdef"), "/b/r.git/objects/abcdef");
    assert_eq!(pack_file_path("/b", "r.git", "p.pack"), "/b/r.git/objects/pack/p.pack");
    assert_eq!(pack_file_path("/b", "r", "p.pack"), "/b/r.git/objects/packp.pack");
}

#[test]
fn pack_files_are_typed_by_extension() {
    assert_eq!(
        pack_file_type("/b/r.git/objects/pack/pack-1.pack").as_deref(),
        Some("application/x-git-packed-objects")
    );
    assert_eq!(
        pack_file_type("/b/r.git/objects/pack/pack-1.idx").as_deref(),
        Some("application/x-git-packed-objects-toc")
    );
    assert_eq!(pack_file_type("/b/r.git/objects/pack/pack-1.txt"), None);
    assert_eq!(pack_file_type("/b/r.git/objects/pack/pack"), None);
    assert_eq!(pack_file_type("/b/r.git/objects/pack/.pack"), None);
    assert_eq!(pack_content_type(&Some("pack".to_string())).as_deref(), Some("application/x-git-packed-objects"));
    assert_eq!(pack_content_type(&None), None);
}

#[test]
fn no_cache_headers_are_exact() {
    let h = no_cache_headers();
    assert_eq!(
        pairs(&h),
        vec![
            ("Expires", "Fri, 01 Jan 1980 00:00:00 GMT"),
            ("Pragma", "no-cache"),
            ("Cache-Control", "no-cache, max-age=0, must-revalidate"),
        ]
    );
}

#[test]
fn cache_forever_adds_the_span_to_now() {
    let h = cache_forever_headers_at(1_700_000_000_000);
    assert_eq!(
        pairs(&h),
        vec![
            ("Date", "1700000000000"),
            ("Expires", "1700031536000"),
            ("Cache-Control", "public, max-age=31536000"),
        ]
    );
    let h = cache_forever_headers_at(0);
    assert_eq!(h[0].1, "0");
    assert_eq!(h[1].1, "31536000");
    let now = cache_forever_headers().expect("clock after the epoch");
    let date: u128 = now[0].1.parse().unwrap();
    let expires: u128 = now[1].1.parse().unwrap();
    assert_eq!(expires, date + 31536000);
}

#[test]
fn only_protocol_version_two_is_passed_on() {
    assert_eq!(git_protocol_env(Some("version=2")), ("GIT_PROTOCOL".to_string(), "version=2".to_string()));
    assert_eq!(git_protocol_env(Some("version=1")), (String::new(), String::new()));
    assert_eq!(git_protocol_env(None), (String::new(), String::new()));
}

#[test]
fn content_types_name_the_service() {
    assert_eq!(rpc_content_type("upload-pack"), "application/x-git-upload-pack-result");
    assert_eq!(advertisement_content_type("receive-pack"), "application/x-git-receive-pack-advertisement");
}

#[test]
fn gzip_bodies_are_decompressed() {
    let mut enc = flate2::write::GzEncoder::new(Vec::new(), flate2::Compression::default());
    std::io::Write::write_all(&mut enc, b"0032want abc\n").unwrap();
    let gz = enc.finish().unwrap();
    assert_ne!(gz, b"0032want abc\n".to_vec());
    assert_eq!(rpc_input(Some("gzip"), &gz), Some(b"0032want abc\n".to_vec()));
    assert_eq!(rpc_input(Some("gzip"), b"not gzip at all"), None);
    assert_eq!(rpc_input(None, b"plain"), Some(b"plain".to_vec()));
    assert_eq!(rpc_input(Some("identity"), b"plain"), Some(b"plain".to_vec()));
}

#[test]
fn git_arguments() {
    assert_eq!(rpc_args("receive-pack", "/p"), vec!["receive-pack", "--stateless-rpc", "/p"]);
    assert_eq!(advertise_args("upload-pack"), vec!["upload-pack", "--stateless-rpc", "--advertise-refs", "."]);
}

#[test]
fn rpc_status_follows_git() {
    assert_eq!(rpc_reply(true, true, b"out".to_vec()), (200, b"out".to_vec()));
    assert_eq!(rpc_reply(true, false, b"out".to_vec()), (500, Vec::new()));
    assert_eq!(rpc_reply(false, true, b"out".to_vec()), (500, Vec::new()));
}

#[test]
fn a_push_queues_a_build_of_its_working_copy() {
    let (path, item) = receive_pack_plan("/base", "alice", "My.App");
    assert_eq!(path, "/base/alice/My.App.git");
    assert_eq!(item.container_src, "/base/alice/My.App.git/master");
    assert_eq!(item.container_name, "alice-My-App");
    assert_eq!(item.owner, "alice");
    assert_eq!(item.repo, "My.App");
    let (path, item) = receive_pack_plan("/base", "alice", "app.git");
    assert_eq!(path, "/base/alice/app.git");
    assert_eq!(item.container_name, "alice-app");
}

#[test]
fn fresh_clone_needs_nothing_more() {
    let (stage, action) = checkout_start("/b/a/r.git", "/b/a/r.git/master");
    match action {
        CheckoutAction::Clone { from, to } => {
            assert_eq!(from, "/b/a/r.git");
            assert_eq!(to, "/b/a/r.git/master");
        }
        _ => panic!("expected a clone"),
    }
    let (_, action) = checkout_step("/b/a/r.git/master", stage, CheckoutEvent::Cloned(true));
    assert!(matches!(action, CheckoutAction::Done));
}

#[test]
fn existing_copy_fast_forwards() {
    let src = "/w";
    let (stage, action) = checkout_step(src, CheckoutStage::Cloning, CheckoutEvent::Cloned(false));
    match action {
        CheckoutAction::Fetch { dir, branch } => {
            assert_eq!(dir, "/w");
            assert_eq!(branch, "master");
        }
        _ => panic!("expected a fetch"),
    }
    let (stage, action) = checkout_step(
        src,
        stage,
        CheckoutEvent::Analyzed { fast_forward: true, fetch_id: "f1".into(), head_id: "h1".into() },
    );
    assert!(matches!(action, CheckoutAction::FindReference { ref name } if name == "refs/heads/master"));
    let (_, action) = checkout_step(src, stage, CheckoutEvent::Master(Some("refs/heads/master".into())));
    match action {
        CheckoutAction::FastForward { reference, target, message } => {
            assert_eq!(reference, "refs/heads/master");
            assert_eq!(target, "f1");
            assert_eq!(message, "Fast-Forward: Setting refs/heads/master to id: f1");
        }
        _ => panic!("expected a fast-forward"),
    }
    let (_, action) = checkout_step(
        src,
        CheckoutStage::FindingMaster { fetch_id: "f2".into() },
        CheckoutEvent::Master(None),
    );
    match action {
        CheckoutAction::CreateReference { name, target, message } => {
            assert_eq!(name, "refs/heads/master");
            assert_eq!(target, "f2");
            assert_eq!(message, "Setting f2 to master");
        }
        _ => panic!("expected the reference to be created"),
    }
}

#[test]
fn diverged_copy_merges_unless_conflicted() {
    let (stage, action) = checkout_step(
        "/w",
        CheckoutStage::Fetching,
        CheckoutEvent::Analyzed { fast_forward: false, fetch_id: "f".into(), head_id: "h".into() },
    );
    match action {
        CheckoutAction::MergeTrees { local, remote } => {
            assert_eq!(local, "h");
            assert_eq!(remote, "f");
        }
        _ => panic!("expected a merge"),
    }
    let (_, action) = checkout_step("/w", stage, CheckoutEvent::Merged { conflicts: false });
    match action {
        CheckoutAction::CommitMerge { message } => assert_eq!(message, "Merge: f into h"),
        _ => panic!("expected a merge commit"),
    }
    let (_, action) = checkout_step(
        "/w",
        CheckoutStage::Merging { head_id: "h".into(), fetch_id: "f".into() },
        CheckoutEvent::Merged { conflicts: true },
    );
    assert!(matches!(action, CheckoutAction::CheckoutIndex));
}
