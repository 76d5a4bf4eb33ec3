use pemasak_infra::naming::{
    checkout_path, container_name, db_name, db_url, image_name, network_name, old_image_name,
    project_url, release_name, repo_file_path, repo_path, volume_name, with_suffix,
};
use pemasak_infra::proxy::{address_on_network, route_host, subdomain, upstream_uri, HostRoute};

#[test]
fn repository_directory_gets_git_suffix_once() {
    assert_eq!(repo_path("/srv/git", "alice", "site"), "/srv/git/alice/site.git");
    assert_eq!(repo_path("/srv/git", "alice", "site.git"), "/srv/git/alice/site.git");
    assert_eq!(repo_file_path("/b", "o", "r", "HEAD"), "/b/o/r.git/HEAD");
    assert_eq!(repo_file_path("/b", "o", "r.git", "objects/info/alternates"), "/b/o/r.git/objects/info/alternates");
}

#[test]
fn container_name_law_on_examples() {
    assert_eq!(container_name("alice", "site"), "alice-site");
    assert_eq!(container_name("alice", "site.git"), "alice-site");
    assert_eq!(container_name("alice", "site.git.git"), "alice-site");
    assert_eq!(container_name("al.ice", "my.site"), "al-ice-my-site");
    assert!(!container_name("a.b", "c.d.git").contains('.'));
}

#[test]
fn resource_names() {
    let c = "alice-site";
    assert_eq!(image_name(c), "alice-site:latest");
    assert_eq!(old_image_name(c), "alice-site:old");
    assert_eq!(network_name(c), "alice-site-network");
    assert_eq!(db_name(c), "alice-site-db");
    assert_eq!(volume_name(c), "alice-site-volume");
    assert_eq!(release_name(c), "alice-site-release");
    assert_eq!(with_suffix("a", "b"), "ab");
    assert_eq!(checkout_path("/b/o/r.git"), "/b/o/r.git/master");
}

#[test]
fn database_address() {
    assert_eq!(db_url("u", "p", "alice-site-db"), "postgresql://u:p@alice-site-db:5432/postgres");
}

#[test]
fn project_push_address() {
    assert_eq!(project_url(true, "pws.cs.ui.ac.id", "alice", "site"), "https://pws.cs.ui.ac.id/alice/site");
    assert_eq!(project_url(false, "localhost:8080", "a", "b"), "http://localhost:8080/a/b");
}

#[test]
fn subdomain_law_on_examples() {
    assert_eq!(subdomain("alice-site.pws.example", "pws.example"), "alice-site");
    assert_eq!(subdomain("pws.example", "pws.example"), "");
    assert_eq!(subdomain("a..pws.example", "pws.example"), "a");
    assert_eq!(subdomain("other.host", "pws.example"), "other.host");
}

#[test]
fn hosts_route_to_service_or_project() {
    assert!(matches!(route_host("pws.example", "pws.example"), HostRoute::Service));
    match route_host("alice-site.pws.example", "pws.example") {
        HostRoute::Project { container, network } => {
            assert_eq!(container, "alice-site");
            assert_eq!(network, "alice-site-network");
        }
        HostRoute::Service => panic!("expected a project"),
    }
}

#[test]
fn upstream_address_uses_port_80() {
    assert_eq!(upstream_uri("172.17.0.5", "/index.html?x=1"), "http://172.17.0.5:80/index.html?x=1");
}

#[test]
fn container_address_on_its_network() {
    let nets = Some(vec![
        ("bridge".to_string(), Some("172.17.0.2".to_string())),
        ("alice-site-network".to_string(), Some("172.20.0.3".to_string())),
    ]);
    assert_eq!(address_on_network(&nets, "alice-site-network").as_deref(), Some("172.20.0.3"));
    assert_eq!(address_on_network(&nets, "other-network"), None);
    assert_eq!(address_on_network(&None, "alice-site-network"), None);
    let no_ip = Some(vec![("alice-site-network".to_string(), None)]);
    assert_eq!(address_on_network(&no_ip, "alice-site-network"), None);
}
