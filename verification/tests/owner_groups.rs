use pemasak_infra::accounts::{sign_in_answer, LoginOutcome, RegisterUserErrorType, SignInAnswer, User};
use pemasak_infra::deletion::{deletion_answer, deletion_lines, deletion_refusal};
use pemasak_infra::groups::{
    create_form_owners, invite_form_reply, invite_form_start, owner_group_list_reply,
    owner_group_reply, owner_group_start, path_id, path_ids, GroupPage,
};
use pemasak_infra::pages::{first_suggestions, validate_answer, Route, SUGGESTION_LIMIT};

const ID: &str = "67e55044-10b1-426f-9247-bb680e5fe0c8";
const ID_VALUE: u128 = 0x67e5504410b1426f9247bb680e5fe0c8;

#[test]
fn path_ids_read_uuids() {
    assert_eq!(path_id(ID).ok(), Some(ID_VALUE));
    let bad = path_id("not-a-uuid").err().unwrap();
    assert_eq!((bad.status, bad.message.as_str()), (400, "Invalid URL"));
    assert_eq!(path_ids(ID, ID).ok(), Some((ID_VALUE, ID_VALUE)));
    assert_eq!(path_ids(ID, "x").err().unwrap().status, 400);
}

#[test]
fn owner_group_details_pages() {
    assert_eq!(owner_group_start(ID).ok(), Some(ID_VALUE));
    let r = owner_group_start("12").err().unwrap();
    assert!(r.status == 404 && matches!(r.page, GroupPage::NotFound));
    let r = owner_group_reply(Ok(None), None);
    assert!(r.status == 404 && matches!(r.page, GroupPage::NotFound));
    let r = owner_group_reply(Err("down".into()), None);
    assert!(r.status == 500 && matches!(r.page, GroupPage::Empty));
    let r = owner_group_reply(Ok(Some((7, "team".into()))), Some(Err("down".into())));
    assert!(r.status == 500 && matches!(r.page, GroupPage::MembersFailed));
    let r = owner_group_reply(Ok(Some((7, "team".into()))), Some(Ok(vec![(1, "alice".into()), (2, "bob".into())])));
    assert_eq!(r.status, 200);
    match r.page {
        GroupPage::Details { id, name, members } => {
            assert_eq!(id, 7);
            assert_eq!(name, "team");
            assert_eq!(members, vec![(1, "alice".to_string()), (2, "bob".to_string())]);
        }
        _ => panic!("expected the group's details"),
    }
}

#[test]
fn invite_form_and_group_list_pages() {
    let r = invite_form_start("nope").err().unwrap();
    assert!(r.status == 200 && matches!(r.page, GroupPage::NotFound));
    assert_eq!(invite_form_start(ID).ok(), Some(ID_VALUE));
    let r = invite_form_reply(Ok(Some(9)));
    assert!(r.status == 200 && matches!(r.page, GroupPage::InviteForm { owner_id: 9 }));
    let r = invite_form_reply(Ok(None));
    assert!(r.status == 404 && matches!(r.page, GroupPage::NoPermission));
    let r = invite_form_reply(Err("down".into()));
    assert!(r.status == 500 && matches!(r.page, GroupPage::TryLater));
    let r = owner_group_list_reply(Ok(vec![(3, "g".into())]));
    assert!(r.status == 200 && matches!(r.page, GroupPage::List { ref groups } if groups == &vec![(3, "g".to_string())]));
    let r = owner_group_list_reply(Err("down".into()));
    assert!(r.status == 500 && matches!(r.page, GroupPage::Empty));
    assert_eq!(create_form_owners(Ok(vec!["a".into()])).ok(), Some(vec!["a".to_string()]));
    let e = create_form_owners(Err("down".into())).err().unwrap();
    assert_eq!((e.status, e.message.as_str()), (500, "Failed to query database down"));
}

fn user() -> User {
    User { id: 5, username: "alice".into(), password: "$argon2id$secret".into(), name: "Alice".into(), permissions: vec![] }
}

#[test]
fn who_is_signed_in() {
    let w = validate_answer(true, Some(user())).ok().unwrap();
    assert_eq!((w.id, w.username.as_str(), w.name.as_str()), (5, "alice", "Alice"));
    let e = validate_answer(true, None).err().unwrap();
    assert_eq!((e.status, e.message.as_str()), (400, "User not found"));
    let e = validate_answer(false, Some(user())).err().unwrap();
    assert_eq!((e.status, e.message.as_str()), (403, ""));
}

#[test]
fn suggestions_are_limited_to_five() {
    let names: Vec<String> = (0..8).map(|i| format!("user{i}")).collect();
    let r = first_suggestions(names.clone());
    assert_eq!(r.len(), SUGGESTION_LIMIT);
    assert_eq!(r, names[..5].to_vec());
    assert_eq!(first_suggestions(vec!["a".into()]), vec!["a".to_string()]);
}

#[test]
fn deletion_and_sign_in_answers() {
    assert_eq!(deletion_answer(Route::Api, true), (200, "Successfully deleted project".to_string()));
    assert_eq!(deletion_answer(Route::Api, false), (200, "Failed to delete project".to_string()));
    assert_eq!(deletion_answer(Route::Form, true), (200, "successfully deleted repo".to_string()));
    assert_eq!(deletion_answer(Route::Form, false), (200, "some action failed".to_string()));
    let reports = vec![("repo".to_string(), "successfully deleted".to_string()), ("db".to_string(), "failed to delete: docker error".to_string())];
    assert_eq!(deletion_lines(Route::Api, &reports), vec!["repo: successfully deleted".to_string(), "db: failed to delete: docker error".to_string()]);
    assert_eq!(deletion_lines(Route::Form, &reports), vec!["repo successfully deleted".to_string(), "db failed to delete: docker error".to_string()]);
    assert_eq!(deletion_refusal(), (400, "You are not allowed to delete this project".to_string()));
    match sign_in_answer(LoginOutcome::LoggedIn) {
        SignInAnswer::Redirect { status, location } => assert_eq!((status, location.as_str()), (302, "/api/dashboard")),
        _ => panic!("expected a redirect"),
    }
    match sign_in_answer(LoginOutcome::WrongCredentials) {
        SignInAnswer::Refuse(r) => {
            assert_eq!((r.status, r.message.as_str()), (400, "Wrong username or password entered"));
            assert!(r.error_type == Some(RegisterUserErrorType::BadRequestError));
        }
        _ => panic!("expected a refusal"),
    }
}
