//! The names that a project's files and containers go by.
use vstd::prelude::*;
use crate::text::{
    append_chars, chars_of, ends_with, ends_with_exec, replace_char, replace_char_exec, string_of,
    trim_end_all, trim_end_all_exec,
};

verus! {

/// The directory of a bare repository under `base`: the repository name
/// gets a `.git` suffix unless it already has one.
pub open spec fn spec_repo_path(base: Seq<char>, owner: Seq<char>, repo: Seq<char>) -> Seq<char> {
    if ends_with(repo, ".git"@) {
        base + "/"@ + owner + "/"@ + repo
    } else {
        base + "/"@ + owner + "/"@ + repo + ".git"@
    }
}

pub fn repo_path(base: &str, owner: &str, repo: &str) -> (r: String)
    ensures
        r@ == spec_repo_path(base@, owner@, repo@),
{
    let rv = chars_of(repo);
    let suffix = chars_of(".git");
    let mut out = chars_of(base);
    append_chars(&mut out, "/");
    append_chars(&mut out, owner);
    append_chars(&mut out, "/");
    append_chars(&mut out, repo);
    if !ends_with_exec(&rv, &suffix) {
        append_chars(&mut out, ".git");
    }
    string_of(&out)
}

/// A file inside a repository, for the routes that serve the dumb protocol.
pub open spec fn spec_repo_file_path(
    base: Seq<char>,
    owner: Seq<char>,
    repo: Seq<char>,
    file: Seq<char>,
) -> Seq<char> {
    spec_repo_path(base, owner, repo) + "/"@ + file
}

pub fn repo_file_path(base: &str, owner: &str, repo: &str, file: &str) -> (r: String)
    ensures
        r@ == spec_repo_file_path(base@, owner@, repo@, file@),
{
    let p = repo_path(base, owner, repo);
    let mut out = chars_of(p.as_str());
    append_chars(&mut out, "/");
    append_chars(&mut out, file);
    string_of(&out)
}

/// The name of the container, image, network and volume family of a
/// project: `owner-repo`, without the trailing `.git`s of the repository
/// name, with every `.` turned into `-`.
pub open spec fn spec_container_name(owner: Seq<char>, repo: Seq<char>) -> Seq<char> {
    replace_char(owner + "-"@ + trim_end_all(repo, ".git"@), '.', '-')
}

pub fn container_name(owner: &str, repo: &str) -> (r: String)
    ensures
        r@ == spec_container_name(owner@, repo@),
{
    let rv = chars_of(repo);
    let suffix = chars_of(".git");
    let trimmed = trim_end_all_exec(&rv, &suffix);
    let mut out = chars_of(owner);
    append_chars(&mut out, "-");
    let ghost before = out@;
    let mut i: usize = 0;
    while i < trimmed.len()
        invariant
            i <= trimmed@.len(),
            out@ == before + trimmed@.take(i as int),
        decreases trimmed.len() - i,
    {
        out.push(trimmed[i]);
        i = i + 1;
        assert(out@ =~= before + trimmed@.take(i as int));
    }
    assert(trimmed@.take(trimmed@.len() as int) =~= trimmed@);
    let replaced = replace_char_exec(&out, '.', '-');
    string_of(&replaced)
}

/// `name` followed by `suffix`.
pub fn with_suffix(name: &str, suffix: &str) -> (r: String)
    ensures
        r@ == name@ + suffix@,
{
    let mut out = chars_of(name);
    append_chars(&mut out, suffix);
    string_of(&out)
}

/// The tag of the image that a build produces.
pub fn image_name(container: &str) -> (r: String)
    ensures
        r@ == container@ + ":latest"@,
{
    with_suffix(container, ":latest")
}

/// The tag under which the previous image is kept while a build runs.
pub fn old_image_name(container: &str) -> (r: String)
    ensures
        r@ == container@ + ":old"@,
{
    with_suffix(container, ":old")
}

/// The private network of a project's containers.
pub fn network_name(container: &str) -> (r: String)
    ensures
        r@ == container@ + "-network"@,
{
    with_suffix(container, "-network")
}

/// The database container of a project.
pub fn db_name(container: &str) -> (r: String)
    ensures
        r@ == container@ + "-db"@,
{
    with_suffix(container, "-db")
}

/// The volume that holds a project's database.
pub fn volume_name(container: &str) -> (r: String)
    ensures
        r@ == container@ + "-volume"@,
{
    with_suffix(container, "-volume")
}

/// The one-off container that runs a Procfile's `release` command.
pub fn release_name(container: &str) -> (r: String)
    ensures
        r@ == container@ + "-release"@,
{
    with_suffix(container, "-release")
}

/// The working copy that a push is checked out into.
pub fn checkout_path(repo_dir: &str) -> (r: String)
    ensures
        r@ == repo_dir@ + "/master"@,
{
    with_suffix(repo_dir, "/master")
}

/// The connection string of a project's database container.
pub open spec fn spec_db_url(user: Seq<char>, password: Seq<char>, db: Seq<char>) -> Seq<char> {
    "postgresql://"@ + user + ":"@ + password + "@"@ + db + ":5432/postgres"@
}

pub fn db_url(user: &str, password: &str, db: &str) -> (r: String)
    ensures
        r@ == spec_db_url(user@, password@, db@),
{
    let mut out = chars_of("postgresql://");
    append_chars(&mut out, user);
    append_chars(&mut out, ":");
    append_chars(&mut out, password);
    append_chars(&mut out, "@");
    append_chars(&mut out, db);
    append_chars(&mut out, ":5432/postgres");
    string_of(&out)
}

/// The address under which a project's repository is pushed to.
pub open spec fn spec_project_url(
    secure: bool,
    domain: Seq<char>,
    owner: Seq<char>,
    project: Seq<char>,
) -> Seq<char> {
    (if secure { "https"@ } else { "http"@ }) + "://"@ + domain + "/"@ + owner + "/"@ + project
}

pub fn project_url(secure: bool, domain: &str, owner: &str, project: &str) -> (r: String)
    ensures
        r@ == spec_project_url(secure, domain@, owner@, project@),
{
    let mut out = if secure {
        chars_of("https")
    } else {
        chars_of("http")
    };
    append_chars(&mut out, "://");
    append_chars(&mut out, domain);
    append_chars(&mut out, "/");
    append_chars(&mut out, owner);
    append_chars(&mut out, "/");
    append_chars(&mut out, project);
    string_of(&out)
}

/// A repository name with or without its `.git` suffix lives in the same
/// directory.
pub proof fn repo_path_ignores_git_suffix(base: Seq<char>, owner: Seq<char>, repo: Seq<char>)
    requires
        !ends_with(repo, ".git"@),
    ensures
        spec_repo_path(base, owner, repo + ".git"@) == spec_repo_path(base, owner, repo),
{
    reveal_strlit(".git");
    let r = repo + ".git"@;
    assert(r.skip(r.len() - 4) =~= ".git"@);
}

/// A repository name with or without its `.git` suffix gives the same
/// container name.
pub proof fn container_name_ignores_git_suffix(owner: Seq<char>, repo: Seq<char>)
    ensures
        spec_container_name(owner, repo + ".git"@) == spec_container_name(owner, repo),
{
    reveal_strlit(".git");
    let r = repo + ".git"@;
    assert(r.skip(r.len() - 4) =~= ".git"@);
    assert(r.take(r.len() - 4) =~= repo);
}

/// A container name holds no `.`.
pub proof fn container_name_has_no_dot(owner: Seq<char>, repo: Seq<char>)
    ensures
        !spec_container_name(owner, repo).contains('.'),
{
    let n = spec_container_name(owner, repo);
    if n.contains('.') {
        let i = choose|i: int| 0 <= i < n.len() && n[i] == '.';
        assert(n[i] == '.');
    }
}

} // verus!
