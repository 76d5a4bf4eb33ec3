//! The git HTTP routes: where each route finds its file, the headers it
//! answers with, and how a smart-protocol request is handed to `git`.
use vstd::prelude::*;
use crate::build_queue::BuildQueueItem;
use crate::naming::{checkout_path, container_name, repo_path, spec_container_name, spec_repo_path};
use crate::text::{append_chars, chars_of, digits, decimal_string, ends_with, ends_with_exec, str_eq, string_of, strings};

verus! {

/// The query of `info/refs`: the service asked for.
pub struct GitQuery {
    pub service: String,
}

fn own(s: &str) -> (r: String)
    ensures
        r@ == s@,
{
    string_of(&chars_of(s))
}

/// The directory of a repository named by the route's repository segment
/// alone, with `.git` added where it is missing.
pub open spec fn spec_bare_dir(base: Seq<char>, repo: Seq<char>) -> Seq<char> {
    if ends_with(repo, ".git"@) {
        base + "/"@ + repo
    } else {
        base + "/"@ + repo + ".git"@
    }
}

fn bare_dir(base: &str, repo: &str) -> (r: (Vec<char>, bool))
    ensures
        r.0@ == spec_bare_dir(base@, repo@),
        r.1 == ends_with(repo@, ".git"@),
{
    let rv = chars_of(repo);
    let suffix = chars_of(".git");
    let mut out = chars_of(base);
    append_chars(&mut out, "/");
    append_chars(&mut out, repo);
    let suffixed = ends_with_exec(&rv, &suffix);
    if !suffixed {
        append_chars(&mut out, ".git");
    }
    (out, suffixed)
}

/// The list of packs of a repository, served by the dumb protocol.
pub open spec fn spec_info_packs_path(base: Seq<char>, repo: Seq<char>) -> Seq<char> {
    spec_bare_dir(base, repo) + "/objects/info/packs"@
}

pub fn info_packs_path(base: &str, repo: &str) -> (r: String)
    ensures
        r@ == spec_info_packs_path(base@, repo@),
{
    let (mut out, _) = bare_dir(base, repo);
    append_chars(&mut out, "/objects/info/packs");
    string_of(&out)
}

/// A loose object of a repository. Where the repository segment lacks the
/// `.git` suffix, the object's directory and file name are joined without
/// a `/`.
pub open spec fn spec_loose_object_path(
    base: Seq<char>,
    repo: Seq<char>,
    head: Seq<char>,
    hash: Seq<char>,
) -> Seq<char> {
    if ends_with(repo, ".git"@) {
        spec_bare_dir(base, repo) + "/objects/"@ + head + "/"@ + hash
    } else {
        spec_bare_dir(base, repo) + "/objects/"@ + head + hash
    }
}

pub fn loose_object_path(base: &str, repo: &str, head: &str, hash: &str) -> (r: String)
    ensures
        r@ == spec_loose_object_path(base@, repo@, head@, hash@),
{
    let (mut out, suffixed) = bare_dir(base, repo);
    append_chars(&mut out, "/objects/");
    append_chars(&mut out, head);
    if suffixed {
        append_chars(&mut out, "/");
    }
    append_chars(&mut out, hash);
    string_of(&out)
}

/// A pack or pack index of a repository. Where the repository segment
/// lacks the `.git` suffix, the file name follows `pack` without a `/`.
pub open spec fn spec_pack_file_path(base: Seq<char>, repo: Seq<char>, file: Seq<char>) -> Seq<char> {
    if ends_with(repo, ".git"@) {
        spec_bare_dir(base, repo) + "/objects/pack/"@ + file
    } else {
        spec_bare_dir(base, repo) + "/objects/pack"@ + file
    }
}

pub fn pack_file_path(base: &str, repo: &str, file: &str) -> (r: String)
    ensures
        r@ == spec_pack_file_path(base@, repo@, file@),
{
    let (mut out, suffixed) = bare_dir(base, repo);
    if suffixed {
        append_chars(&mut out, "/objects/pack/");
    } else {
        append_chars(&mut out, "/objects/pack");
    }
    append_chars(&mut out, file);
    string_of(&out)
}

/// What `std::path::Path::extension` gives for a path, as UTF-8 text.
pub uninterp spec fn std_path_extension(path: Seq<char>) -> Option<Seq<char>>;

pub open spec fn opt_view(o: Option<String>) -> Option<Seq<char>> {
    match o {
        Some(s) => Some(s@),
        None => None,
    }
}

/// `Path::new(path).extension()`, where it is valid UTF-8 (it always is
/// here, the path being a `str`).
#[verifier::external_body]
fn path_extension(path: &str) -> (r: Option<String>)
    ensures
        opt_view(r) == std_path_extension(path@),
{
    std::path::Path::new(path).extension().and_then(|e| e.to_str()).map(|e| e.to_owned())
}

/// The content type of a pack file by its extension; a file of any other
/// extension is not served.
pub open spec fn spec_pack_content_type(ext: Option<Seq<char>>) -> Option<Seq<char>> {
    if ext == Some("pack"@) {
        Some("application/x-git-packed-objects"@)
    } else if ext == Some("idx"@) {
        Some("application/x-git-packed-objects-toc"@)
    } else {
        None
    }
}

pub fn pack_content_type(ext: &Option<String>) -> (r: Option<String>)
    ensures
        opt_view(r) == spec_pack_content_type(opt_view(*ext)),
{
    match ext {
        Some(e) => if str_eq(e.as_str(), "pack") {
            Some(own("application/x-git-packed-objects"))
        } else if str_eq(e.as_str(), "idx") {
            Some(own("application/x-git-packed-objects-toc"))
        } else {
            None
        },
        None => None,
    }
}

/// The content type a pack file at `path` is served with, or none where
/// the file is not a pack or a pack index.
pub fn pack_file_type(path: &str) -> (r: Option<String>)
    ensures
        opt_view(r) == spec_pack_content_type(std_path_extension(path@)),
{
    let ext = path_extension(path);
    pack_content_type(&ext)
}

pub open spec fn headers_view(h: Seq<(String, String)>) -> Seq<(Seq<char>, Seq<char>)> {
    h.map_values(|p: (String, String)| (p.0@, p.1@))
}

fn header(name: &str, value: &str) -> (r: (String, String))
    ensures
        r.0@ == name@,
        r.1@ == value@,
{
    (own(name), own(value))
}

/// The headers that keep a git answer from being cached.
pub open spec fn spec_no_cache_headers() -> Seq<(Seq<char>, Seq<char>)> {
    seq![
        ("Expires"@, "Fri, 01 Jan 1980 00:00:00 GMT"@),
        ("Pragma"@, "no-cache"@),
        ("Cache-Control"@, "no-cache, max-age=0, must-revalidate"@),
    ]
}

pub fn no_cache_headers() -> (r: Vec<(String, String)>)
    ensures
        headers_view(r@) == spec_no_cache_headers(),
{
    let mut v: Vec<(String, String)> = Vec::new();
    v.push(header("Expires", "Fri, 01 Jan 1980 00:00:00 GMT"));
    v.push(header("Pragma", "no-cache"));
    v.push(header("Cache-Control", "no-cache, max-age=0, must-revalidate"));
    assert(headers_view(v@) =~= spec_no_cache_headers());
    v
}

/// The number that is added to the current time in milliseconds for the
/// `Expires` header of an object that never changes.
pub const CACHE_FOREVER_SPAN: u128 = 31536000;

/// The headers of an answer that may be cached for a year, at `now_ms`
/// milliseconds after the epoch: the date, and an expiry `CACHE_FOREVER_SPAN`
/// later, both written as plain numbers.
pub open spec fn spec_cache_forever_headers(now_ms: nat) -> Seq<(Seq<char>, Seq<char>)> {
    seq![
        ("Date"@, digits(now_ms, 10)),
        ("Expires"@, digits(now_ms + CACHE_FOREVER_SPAN as nat, 10)),
        ("Cache-Control"@, "public, max-age=31536000"@),
    ]
}

pub fn cache_forever_headers_at(now_ms: u128) -> (r: Vec<(String, String)>)
    requires
        now_ms + CACHE_FOREVER_SPAN <= u128::MAX,
    ensures
        headers_view(r@) == spec_cache_forever_headers(now_ms as nat),
{
    let expire = now_ms + CACHE_FOREVER_SPAN;
    let mut v: Vec<(String, String)> = Vec::new();
    v.push((own("Date"), decimal_string(now_ms)));
    v.push((own("Expires"), decimal_string(expire)));
    v.push(header("Cache-Control", "public, max-age=31536000"));
    assert(headers_view(v@) =~= spec_cache_forever_headers(now_ms as nat));
    v
}

/// The milliseconds since the Unix epoch by the system clock, or none
/// where the clock is set before the epoch. A `Duration` holds at most
/// `u64::MAX` seconds, so the count stays below that many thousands plus
/// one thousand.
#[verifier::external_body]
fn now_millis() -> (r: Option<u128>)
    ensures
        r matches Some(ms) ==> ms <= 18446744073709551615u128 * 1000 + 999,
{
    match std::time::SystemTime::now().duration_since(std::time::UNIX_EPOCH) {
        Ok(d) => Some(d.as_millis()),
        Err(_) => None,
    }
}

/// The cache-forever headers at the current time; none where the system
/// clock is set before the epoch.
pub fn cache_forever_headers() -> (r: Option<Vec<(String, String)>>)
    ensures
        r matches Some(h) ==> exists|now: nat| headers_view(h@) == spec_cache_forever_headers(now),
{
    match now_millis() {
        Some(ms) => Some(cache_forever_headers_at(ms)),
        None => None,
    }
}

/// The environment variable that passes a client's `Git-Protocol` header
/// on to `git`: only version 2 is passed; anything else gives an empty
/// pair.
pub open spec fn spec_git_protocol_env(header: Option<Seq<char>>) -> (Seq<char>, Seq<char>) {
    if header == Some("version=2"@) {
        ("GIT_PROTOCOL"@, "version=2"@)
    } else {
        (Seq::empty(), Seq::empty())
    }
}

pub fn git_protocol_env(header: Option<&str>) -> (r: (String, String))
    ensures
        (r.0@, r.1@) == spec_git_protocol_env(match header {
            Some(h) => Some(h@),
            None => None,
        }),
{
    match header {
        Some(h) => if str_eq(h, "version=2") {
            (own("GIT_PROTOCOL"), own("version=2"))
        } else {
            (String::new(), String::new())
        },
        None => (String::new(), String::new()),
    }
}

/// The content type of the answer of a smart-protocol service run.
pub open spec fn spec_rpc_content_type(rpc: Seq<char>) -> Seq<char> {
    "application/x-git-"@ + rpc + "-result"@
}

pub fn rpc_content_type(rpc: &str) -> (r: String)
    ensures
        r@ == spec_rpc_content_type(rpc@),
{
    let mut v = chars_of("application/x-git-");
    append_chars(&mut v, rpc);
    append_chars(&mut v, "-result");
    string_of(&v)
}

/// The content type of a service advertisement.
pub open spec fn spec_advertisement_content_type(service: Seq<char>) -> Seq<char> {
    "application/x-git-"@ + service + "-advertisement"@
}

pub fn advertisement_content_type(service: &str) -> (r: String)
    ensures
        r@ == spec_advertisement_content_type(service@),
{
    let mut v = chars_of("application/x-git-");
    append_chars(&mut v, service);
    append_chars(&mut v, "-advertisement");
    string_of(&v)
}

/// What `flate2::read::GzDecoder` reads from a gzip stream, or none where
/// the stream is not valid gzip.
pub uninterp spec fn gunzipped(bytes: Seq<u8>) -> Option<Seq<u8>>;

pub open spec fn opt_bytes(o: Option<Vec<u8>>) -> Option<Seq<u8>> {
    match o {
        Some(v) => Some(v@),
        None => None,
    }
}

/// `GzDecoder::new(bytes).read_to_end(..)`: the decompressed bytes, or
/// none where reading fails.
#[verifier::external_body]
fn gunzip(bytes: &[u8]) -> (r: Option<Vec<u8>>)
    ensures
        opt_bytes(r) == gunzipped(bytes@),
{
    let mut out = Vec::new();
    match std::io::Read::read_to_end(&mut flate2::read::GzDecoder::new(bytes), &mut out) {
        Ok(_) => Some(out),
        Err(_) => None,
    }
}

/// The bytes handed to `git` for a request body: decompressed where the
/// request says it is gzip-encoded, else as they came.
pub open spec fn spec_rpc_input(content_encoding: Option<Seq<char>>, body: Seq<u8>) -> Option<Seq<u8>> {
    if content_encoding == Some("gzip"@) {
        gunzipped(body)
    } else {
        Some(body)
    }
}

/// The input of a smart-protocol service run; none where a gzip body
/// cannot be decompressed, which is answered with status 500.
pub fn rpc_input(content_encoding: Option<&str>, body: &[u8]) -> (r: Option<Vec<u8>>)
    ensures
        opt_bytes(r) == spec_rpc_input(
            match content_encoding {
                Some(h) => Some(h@),
                None => None,
            },
            body@,
        ),
{
    let gz = match content_encoding {
        Some(h) => str_eq(h, "gzip"),
        None => false,
    };
    if gz {
        gunzip(body)
    } else {
        let mut v: Vec<u8> = Vec::new();
        let mut i: usize = 0;
        while i < body.len()
            invariant
                i <= body@.len(),
                v@ == body@.take(i as int),
            decreases body.len() - i,
        {
            v.push(body[i]);
            i = i + 1;
            assert(v@ =~= body@.take(i as int));
        }
        assert(body@.take(body@.len() as int) =~= body@);
        Some(v)
    }
}

/// The arguments of `git` for a smart-protocol service run on `path`.
pub open spec fn spec_rpc_args(rpc: Seq<char>, path: Seq<char>) -> Seq<Seq<char>> {
    seq![rpc, "--stateless-rpc"@, path]
}

pub fn rpc_args(rpc: &str, path: &str) -> (r: Vec<String>)
    ensures
        strings(r@) == spec_rpc_args(rpc@, path@),
{
    let mut v: Vec<String> = Vec::new();
    v.push(own(rpc));
    v.push(own("--stateless-rpc"));
    v.push(own(path));
    assert(strings(v@) =~= spec_rpc_args(rpc@, path@));
    v
}

/// The arguments of `git` that advertise a repository's refs for a
/// service.
pub open spec fn spec_advertise_args(service: Seq<char>) -> Seq<Seq<char>> {
    seq![service, "--stateless-rpc"@, "--advertise-refs"@, "."@]
}

pub fn advertise_args(service: &str) -> (r: Vec<String>)
    ensures
        strings(r@) == spec_advertise_args(service@),
{
    let mut v: Vec<String> = Vec::new();
    v.push(own(service));
    v.push(own("--stateless-rpc"));
    v.push(own("--advertise-refs"));
    v.push(own("."));
    assert(strings(v@) =~= spec_advertise_args(service@));
    v
}

/// The status and body of a smart-protocol answer: what `git` printed
/// where writing the request to it went through and it succeeded, else
/// status 500 with an empty body.
pub fn rpc_reply(written: bool, success: bool, stdout: Vec<u8>) -> (r: (u16, Vec<u8>))
    ensures
        written && success ==> r.0 == 200 && r.1@ == stdout@,
        !(written && success) ==> r.0 == 500 && r.1@.len() == 0,
{
    if written && success {
        (200, stdout)
    } else {
        (500, Vec::new())
    }
}

/// Where a push is received: the bare repository, its working copy, and
/// the build that the push queues.
pub fn receive_pack_plan(base: &str, owner: &str, repo: &str) -> (r: (String, BuildQueueItem))
    ensures
        r.0@ == spec_repo_path(base@, owner@, repo@),
        r.1.container_src@ == spec_repo_path(base@, owner@, repo@) + "/master"@,
        r.1.container_name@ == spec_container_name(owner@, repo@),
        r.1.owner@ == owner@,
        r.1.repo@ == repo@,
{
    let path = repo_path(base, owner, repo);
    let src = checkout_path(path.as_str());
    let item = BuildQueueItem {
        container_name: container_name(owner, repo),
        container_src: src,
        owner: own(owner),
        repo: own(repo),
    };
    (path, item)
}

// ---------------------------------------------------------------------
// Bringing a push into the working copy that builds read.

pub enum CheckoutStage {
    Cloning,
    Fetching,
    FindingMaster { fetch_id: String },
    Merging { head_id: String, fetch_id: String },
    Done,
}

pub enum CheckoutEvent {
    /// Whether cloning the bare repository into the working copy went
    /// through (it fails where the working copy exists).
    Cloned(bool),
    /// The fetched commit, the commit at the working copy's HEAD, and
    /// whether the merge analysis allows a fast-forward.
    Analyzed { fast_forward: bool, fetch_id: String, head_id: String },
    /// The name of `refs/heads/master` in the working copy, where it
    /// exists.
    Master(Option<String>),
    /// Whether merging the trees left conflicts.
    Merged { conflicts: bool },
}

pub enum CheckoutAction {
    Clone { from: String, to: String },
    /// Open the working copy, fetch `branch` from `origin` with all tags,
    /// and analyse `FETCH_HEAD`.
    Fetch { dir: String, branch: String },
    FindReference { name: String },
    /// Point `reference` at `target`, make it HEAD and force a checkout.
    FastForward { reference: String, target: String, message: String },
    /// Create the reference `name` at `target`, make it HEAD and force a
    /// checkout that allows conflicts.
    CreateReference { name: String, target: String, message: String },
    /// Merge the trees of `local` and `remote` over their merge base.
    MergeTrees { local: String, remote: String },
    /// Check the conflicted index out.
    CheckoutIndex,
    /// Commit the merged tree on HEAD with the two parents, then check HEAD
    /// out.
    CommitMerge { message: String },
    Done,
}

pub open spec fn checkout_event_fits(stage: CheckoutStage, event: CheckoutEvent) -> bool {
    match stage {
        CheckoutStage::Cloning => event is Cloned,
        CheckoutStage::Fetching => event is Analyzed,
        CheckoutStage::FindingMaster { .. } => event is Master,
        CheckoutStage::Merging { .. } => event is Merged,
        CheckoutStage::Done => false,
    }
}

pub open spec fn checkout_transition(
    src: Seq<char>,
    stage: CheckoutStage,
    event: CheckoutEvent,
    r: (CheckoutStage, CheckoutAction),
) -> bool {
    match (stage, event) {
        (CheckoutStage::Cloning, CheckoutEvent::Cloned(true)) => r.0 is Done && r.1 is Done,
        (CheckoutStage::Cloning, CheckoutEvent::Cloned(false)) => r.0 is Fetching && (r.1 matches CheckoutAction::Fetch {
            dir,
            branch,
        } && dir@ == src && branch@ == "master"@),
        (CheckoutStage::Fetching, CheckoutEvent::Analyzed { fast_forward, fetch_id, head_id }) => if fast_forward {
            (r.0 matches CheckoutStage::FindingMaster { fetch_id: f } && f@ == fetch_id@) && (r.1 matches CheckoutAction::FindReference {
                name,
            } && name@ == "refs/heads/master"@)
        } else {
            (r.0 matches CheckoutStage::Merging { head_id: h, fetch_id: f } && h@ == head_id@ && f@
                == fetch_id@) && (r.1 matches CheckoutAction::MergeTrees { local, remote } && local@
                == head_id@ && remote@ == fetch_id@)
        },
        (CheckoutStage::FindingMaster { fetch_id }, CheckoutEvent::Master(Some(name))) => r.0 is Done
            && (r.1 matches CheckoutAction::FastForward { reference, target, message } && reference@
            == name@ && target@ == fetch_id@ && message@ == "Fast-Forward: Setting "@ + name@
            + " to id: "@ + fetch_id@),
        (CheckoutStage::FindingMaster { fetch_id }, CheckoutEvent::Master(None)) => r.0 is Done && (
        r.1 matches CheckoutAction::CreateReference { name, target, message } && name@
            == "refs/heads/master"@ && target@ == fetch_id@ && message@ == "Setting "@ + fetch_id@
            + " to master"@),
        (CheckoutStage::Merging { head_id, fetch_id }, CheckoutEvent::Merged { conflicts }) => r.0 is Done
            && if conflicts {
            r.1 is CheckoutIndex
        } else {
            r.1 matches CheckoutAction::CommitMerge { message } && message@ == "Merge: "@ + fetch_id@
                + " into "@ + head_id@
        },
        _ => false,
    }
}

/// The first step of bringing a push into the working copy `src`:
/// cloning the bare repository at `path` into it.
pub fn checkout_start(path: &str, src: &str) -> (r: (CheckoutStage, CheckoutAction))
    ensures
        r.0 is Cloning,
        r.1 matches CheckoutAction::Clone { from, to } && from@ == path@ && to@ == src@,
{
    (CheckoutStage::Cloning, CheckoutAction::Clone { from: own(path), to: own(src) })
}

fn joined3(a: &str, b: &str, c: &str, d: &str) -> (r: String)
    ensures
        r@ == a@ + b@ + c@ + d@,
{
    let mut v = chars_of(a);
    append_chars(&mut v, b);
    append_chars(&mut v, c);
    append_chars(&mut v, d);
    string_of(&v)
}

/// One step of bringing a push into the working copy: where it cannot be
/// cloned afresh, fetch `master` and fast-forward to it, or merge it,
/// committing the merge only where it has no conflicts.
pub fn checkout_step(src: &str, stage: CheckoutStage, event: CheckoutEvent) -> (r: (
    CheckoutStage,
    CheckoutAction,
))
    requires
        checkout_event_fits(stage, event),
    ensures
        checkout_transition(src@, stage, event, r),
{
    match stage {
        CheckoutStage::Cloning => match event {
            CheckoutEvent::Cloned(true) => (CheckoutStage::Done, CheckoutAction::Done),
            _ => (
                CheckoutStage::Fetching,
                CheckoutAction::Fetch { dir: own(src), branch: own("master") },
            ),
        },
        CheckoutStage::Fetching => match event {
            CheckoutEvent::Analyzed { fast_forward, fetch_id, head_id } => if fast_forward {
                (
                    CheckoutStage::FindingMaster { fetch_id },
                    CheckoutAction::FindReference { name: own("refs/heads/master") },
                )
            } else {
                let local = head_id.clone();
                let remote = fetch_id.clone();
                (CheckoutStage::Merging { head_id, fetch_id }, CheckoutAction::MergeTrees { local, remote })
            },
            _ => (CheckoutStage::Done, CheckoutAction::Done),
        },
        CheckoutStage::FindingMaster { fetch_id } => match event {
            CheckoutEvent::Master(Some(name)) => {
                let message = joined3("Fast-Forward: Setting ", name.as_str(), " to id: ", fetch_id.as_str());
                (
                    CheckoutStage::Done,
                    CheckoutAction::FastForward { reference: name, target: fetch_id, message },
                )
            },
            _ => {
                let message = joined3("Setting ", fetch_id.as_str(), " to master", "");
                proof {
                    reveal_strlit("");
                }
                assert(message@ =~= "Setting "@ + fetch_id@ + " to master"@);
                (
                    CheckoutStage::Done,
                    CheckoutAction::CreateReference {
                        name: own("refs/heads/master"),
                        target: fetch_id,
                        message,
                    },
                )
            },
        },
        CheckoutStage::Merging { head_id, fetch_id } => match event {
            CheckoutEvent::Merged { conflicts } => if conflicts {
                (CheckoutStage::Done, CheckoutAction::CheckoutIndex)
            } else {
                let message = joined3("Merge: ", fetch_id.as_str(), " into ", head_id.as_str());
                (CheckoutStage::Done, CheckoutAction::CommitMerge { message })
            },
            _ => (CheckoutStage::Done, CheckoutAction::Done),
        },
        CheckoutStage::Done => (CheckoutStage::Done, CheckoutAction::Done),
    }
}

/// A push never leaves a merge commit behind where the merge has
/// conflicts, nor where the fetched commit could be fast-forwarded to;
/// and a working copy that could be cloned afresh is never fetched into.
pub proof fn merge_commit_only_without_conflicts(
    src: Seq<char>,
    stage: CheckoutStage,
    event: CheckoutEvent,
    r: (CheckoutStage, CheckoutAction),
)
    requires
        checkout_event_fits(stage, event),
        checkout_transition(src, stage, event, r),
    ensures
        r.1 is CommitMerge ==> stage is Merging && event matches CheckoutEvent::Merged { conflicts: false },
        r.1 is MergeTrees ==> event matches CheckoutEvent::Analyzed { fast_forward: false, .. },
        event matches CheckoutEvent::Cloned(true) ==> r.1 is Done,
{
}

} // verus!
