//! The rules that the forms of the dashboard are held to.
use vstd::prelude::*;
use crate::text::chars_of;

verus! {

/// Whether `c` may stand in a username: an ASCII letter, an ASCII digit or
/// a dot (the class `[a-zA-Z0-9.]`).
pub open spec fn is_username_char(c: char) -> bool {
    ('a' <= c && c <= 'z') || ('A' <= c && c <= 'Z') || ('0' <= c && c <= '9') || c == '.'
}

/// A username matches `^[a-zA-Z0-9.]+$`: it is not empty and every
/// character is an ASCII letter, an ASCII digit or a dot.
pub open spec fn spec_valid_username(s: Seq<char>) -> bool {
    s.len() > 0 && forall|i: int| 0 <= i < s.len() ==> is_username_char(#[trigger] s[i])
}

pub fn username_check(value: &str) -> (r: Result<(), String>)
    ensures
        r is Ok <==> spec_valid_username(value@),
        r matches Err(m) ==> m@ == "Username can only contain alphanumeric characters and dots"@,
{
    let v = chars_of(value);
    let mut ok = v.len() > 0;
    let mut i: usize = 0;
    while i < v.len()
        invariant
            i <= v@.len(),
            ok == (v@.len() > 0 && forall|j: int| 0 <= j < i ==> is_username_char(#[trigger] v@[j])),
        decreases v.len() - i,
    {
        let c = v[i];
        if !(('a' <= c && c <= 'z') || ('A' <= c && c <= 'Z') || ('0' <= c && c <= '9') || c == '.') {
            ok = false;
        }
        i = i + 1;
    }
    if ok {
        Ok(())
    } else {
        Err("Username can only contain alphanumeric characters and dots".to_owned())
    }
}

pub fn password_check(value: &str) -> (r: Result<(), String>)
    ensures
        r is Ok <==> value@.len() > 0,
        r matches Err(m) ==> m@ == "Password cannot be empty"@,
{
    if value.unicode_len() == 0 {
        Err("Password cannot be empty".to_owned())
    } else {
        Ok(())
    }
}

/// The fields of a registration that break a rule.
#[derive(PartialEq, Eq, Structural)]
pub enum UserField {
    /// The username does not match `^[a-zA-Z0-9.]+$`.
    Username,
    /// The name is empty.
    Name,
    /// The password is empty.
    Password,
}

/// The fields of a registration that break their rule, in the order of
/// the form.
pub open spec fn spec_user_request_problems(
    username: Seq<char>,
    name: Seq<char>,
    password: Seq<char>,
) -> Seq<UserField> {
    (if spec_valid_username(username) { Seq::empty() } else { seq![UserField::Username] }) + (if name.len()
        > 0 {
        Seq::empty()
    } else {
        seq![UserField::Name]
    }) + (if password.len() > 0 {
        Seq::empty()
    } else {
        seq![UserField::Password]
    })
}

pub fn validate_user_request(username: &str, name: &str, password: &str) -> (r: Vec<UserField>)
    ensures
        r@ == spec_user_request_problems(username@, name@, password@),
{
    let mut r: Vec<UserField> = Vec::new();
    if username_check(username).is_err() {
        r.push(UserField::Username);
    }
    let ghost r1 = r@;
    if name.unicode_len() == 0 {
        r.push(UserField::Name);
    }
    let ghost r2 = r@;
    if password_check(password).is_err() {
        r.push(UserField::Password);
    }
    assert(r@ =~= spec_user_request_problems(username@, name@, password@));
    r
}

/// Whether `char::is_alphanumeric` holds of `c` (Unicode's Alphabetic or
/// Numeric property).
pub uninterp spec fn unicode_alphanumeric(c: char) -> bool;

/// `c.is_alphanumeric()`. Among ASCII characters, exactly the letters and
/// digits are alphanumeric.
#[verifier::external_body]
pub(crate) fn char_is_alphanumeric(c: char) -> (r: bool)
    ensures
        r == unicode_alphanumeric(c),
        c <= '\u{7f}' ==> (r <==> (('a' <= c && c <= 'z') || ('A' <= c && c <= 'Z') || ('0' <= c
            && c <= '9'))),
{
    c.is_alphanumeric()
}

/// A project name: every character alphanumeric (the empty name passes).
pub open spec fn spec_valid_project_name(s: Seq<char>) -> bool {
    forall|i: int| 0 <= i < s.len() ==> unicode_alphanumeric(#[trigger] s[i])
}

pub fn project_name_check(value: &str) -> (r: bool)
    ensures
        r == spec_valid_project_name(value@),
{
    let v = chars_of(value);
    let mut i: usize = 0;
    while i < v.len()
        invariant
            i <= v@.len(),
            v@ == value@,
            forall|j: int| 0 <= j < i ==> unicode_alphanumeric(#[trigger] v@[j]),
        decreases v.len() - i,
    {
        if !char_is_alphanumeric(v[i]) {
            assert(!unicode_alphanumeric(value@[i as int]));
            return false;
        }
        i = i + 1;
    }
    true
}

/// The fields of a project creation that break a rule.
#[derive(PartialEq, Eq, Structural)]
pub enum ProjectField {
    /// The owner is empty.
    Owner,
    /// The project name holds a character that is not alphanumeric.
    Project,
}

pub open spec fn spec_project_request_problems(owner: Seq<char>, project: Seq<char>) -> Seq<
    ProjectField,
> {
    (if owner.len() > 0 { Seq::empty() } else { seq![ProjectField::Owner] }) + (if spec_valid_project_name(
        project,
    ) {
        Seq::empty()
    } else {
        seq![ProjectField::Project]
    })
}

pub fn validate_project_request(owner: &str, project: &str) -> (r: Vec<ProjectField>)
    ensures
        r@ == spec_project_request_problems(owner@, project@),
{
    let mut r: Vec<ProjectField> = Vec::new();
    if owner.unicode_len() == 0 {
        r.push(ProjectField::Owner);
    }
    if !project_name_check(project) {
        r.push(ProjectField::Project);
    }
    assert(r@ =~= spec_project_request_problems(owner@, project@));
    r
}

/// The longest name an owner group may have.
pub const OWNER_NAME_MAX: usize = 128;

/// An owner group's name is at most 128 characters long.
pub fn owner_name_check(name: &str) -> (r: bool)
    ensures
        r == (name@.len() <= OWNER_NAME_MAX),
{
    name.unicode_len() <= OWNER_NAME_MAX
}

/// An invitation names both the owner group and the invited user.
pub fn invite_request_check(owner_id: Option<u128>, username: Option<&str>) -> (r: Option<(u128, String)>)
    ensures
        r is Some <==> (owner_id is Some && username is Some),
        r matches Some(p) ==> p.0 == owner_id->0 && p.1@ == username->0@,
{
    match (owner_id, username) {
        (Some(o), Some(u)) => Some((o, u.to_owned())),
        _ => None,
    }
}

/// A valid username is never empty and holds neither `/` nor `:`, so it
/// can stand as a path segment and as the user part of Basic credentials.
pub proof fn valid_username_is_path_safe(s: Seq<char>)
    requires
        spec_valid_username(s),
    ensures
        s.len() > 0,
        !s.contains('/'),
        !s.contains(':'),
{
    if s.contains('/') {
        let i = choose|i: int| 0 <= i < s.len() && s[i] == '/';
        assert(is_username_char(s[i]));
    }
    if s.contains(':') {
        let i = choose|i: int| 0 <= i < s.len() && s[i] == ':';
        assert(is_username_char(s[i]));
    }
}

/// The lower-case form of an ASCII letter; any other character is its
/// own.
pub open spec fn ascii_lower(c: char) -> char {
    if 'A' <= c && c <= 'Z' {
        ((c as u32) + 32) as char
    } else {
        c
    }
}

/// What a username may be: a single character is a username exactly when
/// it is an ASCII letter of either case, an ASCII digit or a dot; two
/// non-empty texts joined make a username exactly when each is one; the
/// empty text is none; and whether a text is a username never depends on
/// the case of its letters.
pub proof fn username_rule(s: Seq<char>, t: Seq<char>, c: char)
    ensures
        !spec_valid_username(Seq::empty()),
        spec_valid_username(seq![c]) <==> (('a' <= c && c <= 'z') || ('A' <= c && c <= 'Z') || ('0'
            <= c && c <= '9') || c == '.'),
        s.len() > 0 && t.len() > 0 ==> (spec_valid_username(s + t) <==> (spec_valid_username(s)
            && spec_valid_username(t))),
        spec_valid_username(s) <==> spec_valid_username(s.map_values(|x: char| ascii_lower(x))),
{
    assert(seq![c][0] == c);
    if s.len() > 0 && t.len() > 0 {
        let st = s + t;
        if spec_valid_username(s) && spec_valid_username(t) {
            assert forall|i: int| 0 <= i < st.len() implies is_username_char(#[trigger] st[i]) by {
                if i < s.len() {
                    assert(st[i] == s[i]);
                } else {
                    assert(st[i] == t[i - s.len()]);
                }
            }
        }
        if spec_valid_username(st) {
            assert forall|i: int| 0 <= i < s.len() implies is_username_char(#[trigger] s[i]) by {
                assert(st[i] == s[i]);
            }
            assert forall|i: int| 0 <= i < t.len() implies is_username_char(#[trigger] t[i]) by {
                assert(st[i + s.len()] == t[i]);
            }
        }
    }
    let m = s.map_values(|x: char| ascii_lower(x));
    assert forall|i: int| 0 <= i < s.len() implies (is_username_char(#[trigger] s[i]) <==> is_username_char(
        m[i],
    )) by {
        let x = s[i];
        assert(m[i] == ascii_lower(x));
        if 'A' <= x && x <= 'Z' {
            assert((x as u32) + 32 <= 'z' as u32);
            assert('a' <= ascii_lower(x) && ascii_lower(x) <= 'z');
        }
    }
    if spec_valid_username(s) {
        assert forall|i: int| 0 <= i < m.len() implies is_username_char(#[trigger] m[i]) by {
            assert(is_username_char(s[i]));
        }
    }
    if spec_valid_username(m) {
        assert forall|i: int| 0 <= i < s.len() implies is_username_char(#[trigger] s[i]) by {
            assert(is_username_char(m[i]));
        }
    }
}

} // verus!
