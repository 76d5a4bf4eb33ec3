//! Requests to a project's subdomain are passed on to its container.
use vstd::prelude::*;
use crate::text::{append_chars, chars_of, ends_with, str_eq, string_of, trim_end_all, trim_end_all_exec};

verus! {

/// The subdomain part of a request's host name: the host with the
/// service's domain, then dots, trimmed off its end (each as often as it
/// repeats there).
pub open spec fn spec_subdomain(hostname: Seq<char>, domain: Seq<char>) -> Seq<char> {
    trim_end_all(trim_end_all(hostname, domain), seq!['.'])
}

pub fn subdomain(hostname: &str, domain: &str) -> (r: String)
    ensures
        r@ == spec_subdomain(hostname@, domain@),
{
    let h = chars_of(hostname);
    let d = chars_of(domain);
    let t = trim_end_all_exec(&h, &d);
    let mut dot: Vec<char> = Vec::new();
    dot.push('.');
    assert(dot@ =~= seq!['.']);
    let s = trim_end_all_exec(&t, &dot);
    string_of(&s)
}

/// How a request is routed by its host name.
pub enum HostRoute {
    /// The host is the service's own domain: the request is the
    /// dashboard's (the fallback answers 404 to it).
    Service,
    /// The host names a project's container; the request goes to it.
    Project { container: String, network: String },
}

pub fn route_host(hostname: &str, domain: &str) -> (r: HostRoute)
    ensures
        spec_subdomain(hostname@, domain@).len() == 0 ==> r is Service,
        spec_subdomain(hostname@, domain@).len() > 0 ==> (r matches HostRoute::Project {
            container,
            network,
        } && container@ == spec_subdomain(hostname@, domain@) && network@ == spec_subdomain(
            hostname@,
            domain@,
        ) + "-network"@),
{
    let sub = subdomain(hostname, domain);
    if sub.unicode_len() == 0 {
        HostRoute::Service
    } else {
        let mut n = chars_of(sub.as_str());
        append_chars(&mut n, "-network");
        HostRoute::Project { container: sub, network: string_of(&n) }
    }
}

/// The address a request to a project is passed on to: the container's
/// address on its network, port 80, and the request's path and query.
pub open spec fn spec_upstream_uri(ip: Seq<char>, path_and_query: Seq<char>) -> Seq<char> {
    "http://"@ + ip + ":80"@ + path_and_query
}

pub fn upstream_uri(ip: &str, path_and_query: &str) -> (r: String)
    ensures
        r@ == spec_upstream_uri(ip@, path_and_query@),
{
    let mut out = chars_of("http://");
    append_chars(&mut out, ip);
    append_chars(&mut out, ":80");
    append_chars(&mut out, path_and_query);
    string_of(&out)
}

/// A request to `name.domain` reaches the container `name`, where the name
/// ends neither in a dot nor in the domain and the domain does not end in
/// a dot.
pub proof fn subdomain_of_project_host(name: Seq<char>, domain: Seq<char>)
    requires
        domain.len() > 0,
        !ends_with(name, seq!['.']),
        !ends_with(name + seq!['.'], domain),
    ensures
        spec_subdomain(name + seq!['.'] + domain, domain) == name,
{
    let h = name + seq!['.'] + domain;
    assert(h.skip(h.len() - domain.len()) =~= domain);
    assert(h.take(h.len() - domain.len()) =~= name + seq!['.']);
    let t = name + seq!['.'];
    assert(ends_with(h, domain));
    assert(trim_end_all(h, domain) == trim_end_all(t, domain));
    assert(trim_end_all(t, domain) == t);
    assert(t.skip(t.len() - 1) =~= seq!['.']);
    assert(t.take(t.len() - 1) =~= name);
    assert(ends_with(t, seq!['.']));
    assert(trim_end_all(t, seq!['.']) == trim_end_all(name, seq!['.']));
    assert(trim_end_all(name, seq!['.']) == name);
}

pub open spec fn opt_text(o: Option<String>) -> Option<Seq<char>> {
    match o {
        Some(s) => Some(s@),
        None => None,
    }
}

/// The address of a container on the network `network`, from the
/// networks an inspection of the container lists (none where it lists
/// none), each by its name and the container's address in it. A request
/// is answered with status 400 where there is no such address.
pub fn address_on_network(networks: &Option<Vec<(String, Option<String>)>>, network: &str) -> (r: Option<String>)
    ensures
        r matches Some(ip) ==> (networks matches Some(ns) && exists|i: int|
            0 <= i < ns.len() && #[trigger] ns@[i].0@ == network@ && opt_text(ns@[i].1) == Some(ip@)),
        r is None ==> (networks is None || (networks matches Some(ns) && forall|i: int|
            0 <= i < ns.len() && #[trigger] ns@[i].0@ == network@ ==> ns@[i].1 is None)),
{
    match networks {
        None => None,
        Some(ns) => {
            let mut i: usize = 0;
            while i < ns.len()
                invariant
                    i <= ns.len(),
                    *networks == Some(*ns),
                    forall|j: int| 0 <= j < i && #[trigger] ns@[j].0@ == network@ ==> ns@[j].1 is None,
                decreases ns.len() - i,
            {
                if str_eq(ns[i].0.as_str(), network) {
                    match &ns[i].1 {
                        Some(a) => {
                            assert(opt_text(ns@[i as int].1) == Some(a@));
                            return Some(a.clone());
                        },
                        None => {},
                    }
                }
                i = i + 1;
            }
            None
        },
    }
}

} // verus!
