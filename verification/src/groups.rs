//! The pages of owner groups, and the ids that requests name in their
//! path.
use vstd::prelude::*;
use crate::pages::{says, PageReply};
use crate::text::{append_chars, chars_of, string_of};

verus! {

/// The 128-bit value of the UUID that `uuid::Uuid::parse_str` reads from
/// `text`, or none where it rejects `text`.
pub uninterp spec fn uuid_parsed(text: Seq<char>) -> Option<u128>;

/// `uuid::Uuid::parse_str(text)`, as the UUID's 128-bit value.
#[verifier::external_body]
pub(crate) fn parse_uuid(text: &str) -> (r: Option<u128>)
    ensures
        r == uuid_parsed(text@),
{
    uuid::Uuid::parse_str(text).ok().map(|u| u.as_u128())
}

/// The id that a request names in its path: the UUID it reads as, or a
/// 400 answer "Invalid URL" where it is not a UUID.
pub fn path_id(text: &str) -> (r: Result<u128, PageReply>)
    ensures
        uuid_parsed(text@) matches Some(id) ==> r == Ok::<u128, PageReply>(id),
        uuid_parsed(text@) is None ==> (r matches Err(p) && says(p, 400, "Invalid URL"@)),
{
    match parse_uuid(text) {
        Some(id) => Ok(id),
        None => Err(PageReply { status: 400, message: string_of(&chars_of("Invalid URL")) }),
    }
}

/// Two ids named in a path, both UUIDs, or a 400 answer "Invalid URL".
pub fn path_ids(first: &str, second: &str) -> (r: Result<(u128, u128), PageReply>)
    ensures
        (uuid_parsed(first@), uuid_parsed(second@)) matches (Some(a), Some(b)) ==> r == Ok::<
            (u128, u128),
            PageReply,
        >((a, b)),
        uuid_parsed(first@) is None || uuid_parsed(second@) is None ==> (r matches Err(p) && says(
            p,
            400,
            "Invalid URL"@,
        )),
{
    match (parse_uuid(first), parse_uuid(second)) {
        (Some(a), Some(b)) => Ok((a, b)),
        _ => Err(PageReply { status: 400, message: string_of(&chars_of("Invalid URL")) }),
    }
}

/// What a page of the owner groups shows.
pub enum GroupPage {
    /// "Owner Group not found", with a way back to the list of groups.
    NotFound,
    /// Nothing.
    Empty,
    /// "An error occurred while fetching this Owner Group".
    MembersFailed,
    /// A reminder to check one's permission on the group.
    NoPermission,
    /// A request to try again later.
    TryLater,
    /// A group: its name, its id, and its members (id and username) in the
    /// order they were read.
    Details { id: u128, name: String, members: Vec<(u128, String)> },
    /// The form that invites a user into the group `owner_id`.
    InviteForm { owner_id: u128 },
    /// The groups of the signed-in user, each with its id and name.
    List { groups: Vec<(u128, String)> },
}

/// A page of the owner groups and the status it is answered with.
pub struct GroupReply {
    pub status: u16,
    pub page: GroupPage,
}

/// The group a details page is about: the UUID of its path, or 404 with
/// "Owner Group not found" where the path does not hold one.
pub fn owner_group_start(owner_id: &str) -> (r: Result<u128, GroupReply>)
    ensures
        uuid_parsed(owner_id@) matches Some(id) ==> r == Ok::<u128, GroupReply>(id),
        uuid_parsed(owner_id@) is None ==> (r matches Err(g) && g.status == 404
            && g.page is NotFound),
{
    match parse_uuid(owner_id) {
        Some(id) => Ok(id),
        None => Err(GroupReply { status: 404, page: GroupPage::NotFound }),
    }
}

/// The details page of a group, from the lookup of the group (its id and
/// name) and, where it was found, the query of its members: 404 where
/// there is no such group, 500 where either query failed, and otherwise
/// 200 with the group's name, id and members in order.
pub fn owner_group_reply(
    group: Result<Option<(u128, String)>, String>,
    members: Option<Result<Vec<(u128, String)>, String>>,
) -> (r: GroupReply)
    requires
        (group matches Ok(Some(_))) <==> members is Some,
    ensures
        group matches Ok(None) ==> r.status == 404 && r.page is NotFound,
        group is Err ==> r.status == 500 && r.page is Empty,
        group matches Ok(Some(_)) ==> (members matches Some(Err(_)) ==> r.status == 500
            && r.page is MembersFailed),
        (group, members) matches (Ok(Some((id, name))), Some(Ok(m))) ==> r.status == 200 && (r.page matches GroupPage::Details { id: i, name: n, members: ms } && i == id && n@ == name@ && ms@ == m@),
{
    match group {
        Err(_) => GroupReply { status: 500, page: GroupPage::Empty },
        Ok(None) => GroupReply { status: 404, page: GroupPage::NotFound },
        Ok(Some((id, name))) => match members {
            Some(Ok(m)) => GroupReply { status: 200, page: GroupPage::Details { id, name, members: m } },
            _ => GroupReply { status: 500, page: GroupPage::MembersFailed },
        },
    }
}

/// The group an invitation form is about: the UUID of its path, or the
/// page "Owner Group not found", answered 200, where the path does not
/// hold one.
pub fn invite_form_start(owner_id: &str) -> (r: Result<u128, GroupReply>)
    ensures
        uuid_parsed(owner_id@) matches Some(id) ==> r == Ok::<u128, GroupReply>(id),
        uuid_parsed(owner_id@) is None ==> (r matches Err(g) && g.status == 200
            && g.page is NotFound),
{
    match parse_uuid(owner_id) {
        Some(id) => Ok(id),
        None => Err(GroupReply { status: 200, page: GroupPage::NotFound }),
    }
}

/// The invitation form, from the lookup of the group among the signed-in
/// user's groups: the form for that group, 404 where the user is not in
/// it, 500 where the query failed.
pub fn invite_form_reply(lookup: Result<Option<u128>, String>) -> (r: GroupReply)
    ensures
        lookup matches Ok(Some(id)) ==> r.status == 200 && r.page == (GroupPage::InviteForm {
            owner_id: id,
        }),
        lookup matches Ok(None) ==> r.status == 404 && r.page is NoPermission,
        lookup is Err ==> r.status == 500 && r.page is TryLater,
{
    match lookup {
        Ok(Some(id)) => GroupReply { status: 200, page: GroupPage::InviteForm { owner_id: id } },
        Ok(None) => GroupReply { status: 404, page: GroupPage::NoPermission },
        Err(_) => GroupReply { status: 500, page: GroupPage::TryLater },
    }
}

/// The list of the signed-in user's groups: 200 with each group as read,
/// 500 with nothing where the query failed.
pub fn owner_group_list_reply(groups: Result<Vec<(u128, String)>, String>) -> (r: GroupReply)
    ensures
        groups matches Ok(g) ==> r.status == 200 && (r.page matches GroupPage::List { groups: l }
            && l@ == g@),
        groups is Err ==> r.status == 500 && r.page is Empty,
{
    match groups {
        Ok(g) => GroupReply { status: 200, page: GroupPage::List { groups: g } },
        Err(_) => GroupReply { status: 500, page: GroupPage::Empty },
    }
}

/// The owner groups offered by the form that creates a project, or 500
/// with "Failed to query database " and the error where they could not be
/// read.
pub fn create_form_owners(owners: Result<Vec<String>, String>) -> (r: Result<Vec<String>, PageReply>)
    ensures
        owners matches Ok(o) ==> (r matches Ok(l) && l@ == o@),
        owners matches Err(e) ==> (r matches Err(p) && says(p, 500, "Failed to query database "@ + e@)),
{
    match owners {
        Ok(o) => Ok(o),
        Err(e) => {
            let mut v = chars_of("Failed to query database ");
            append_chars(&mut v, e.as_str());
            Err(PageReply { status: 500, message: string_of(&v) })
        },
    }
}

} // verus!
