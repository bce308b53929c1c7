use auth_api::auth_api::{refresh_checked, sign_in_checked, sign_out_checked, sign_up_checked, SignInStart};
use auth_api::replies::{Body, Reply, Status};
use auth_api::requests::{UserDataCreate, UserDataRefresh, UserDataSignIn, UserDataSignOut, UserDataSignUp, UserDataUpdate};
use auth_api::users_api::{create_checked, update_admin_checked, update_checked};

const SALT: &str = "bvIG6Nmid91Mu9RcmmWZfO";
const ID: &str = "507f1f77bcf86cd799439011";

fn s(x: &str) -> Option<String> {
    Some(x.to_string())
}

fn passed() -> Option<Result<(), Vec<String>>> {
    Some(Ok(()))
}

fn failed() -> Option<Result<(), Vec<String>>> {
    Some(Err(vec!["first issue".to_string(), "second issue".to_string()]))
}

fn is_violations(r: &Reply) -> bool {
    r.status == Status::BadRequest
        && matches!(&r.body, Body::Issues(v) if v == &vec!["first issue".to_string(), "second issue".to_string()])
}

fn is_unreadable(r: &Reply) -> bool {
    r.status == Status::InternalServerError && matches!(&r.body, Body::Text(t) if t == "Something went wrong")
}

fn issue(r: &Reply) -> String {
    match &r.body {
        Body::Issues(v) if v.len() == 1 => v[0].clone(),
        other => panic!("expected one issue, got {:?}", other),
    }
}

#[test]
fn sign_in_after_the_check() {
    let body = || UserDataSignIn { email: s("a@b.c"), password: s("pw") };
    assert!(matches!(sign_in_checked(body(), failed()), SignInStart::Reply(r) if is_violations(&r)));
    assert!(matches!(sign_in_checked(body(), None), SignInStart::Reply(r) if is_unreadable(&r)));
    assert!(matches!(sign_in_checked(body(), passed()), SignInStart::Lookup { lookup, .. } if lookup.email == "a@b.c"));
    let no_password = UserDataSignIn { email: s("a@b.c"), password: None };
    assert!(matches!(sign_in_checked(no_password, passed()), SignInStart::Reply(r) if is_unreadable(&r)));
}

#[test]
fn sign_up_after_the_check() {
    let body = || UserDataSignUp { first_name: s("A"), last_name: s("B"), email: s("a@b.c"), password: s("pw") };
    assert!(is_violations(&sign_up_checked(SALT, body(), failed()).unwrap_err()));
    let m = sign_up_checked(SALT, body(), passed()).unwrap();
    assert_eq!((m.first_name.as_str(), m.access_level), ("A", 1));
    let r = sign_up_checked("short", body(), passed()).unwrap_err();
    assert_eq!((r.status, issue(&r)), (Status::Unauthorized, "something went wrong".to_string()));
}

#[test]
fn token_bodies_after_the_check() {
    assert_eq!(sign_out_checked(UserDataSignOut { refresh_token: s("t") }, passed()).unwrap().token, "t");
    assert!(is_violations(&sign_out_checked(UserDataSignOut { refresh_token: s("t") }, failed()).unwrap_err()));
    assert_eq!(refresh_checked(UserDataRefresh { refresh_token: s("t") }, passed()).unwrap(), "t");
    assert!(is_unreadable(&refresh_checked(UserDataRefresh { refresh_token: None }, passed()).unwrap_err()));
}

#[test]
fn user_changes_after_the_check() {
    let create = |level: i32| UserDataCreate {
        first_name: s("A"),
        last_name: s("B"),
        email: s("a@b.c"),
        password: s("pw"),
        access_level: Some(level),
    };
    let r = create_checked(5, SALT, create(6), passed()).unwrap_err();
    assert_eq!(issue(&r), "You can not create a user with higher access level than yours");
    assert_eq!(create_checked(5, SALT, create(5), passed()).unwrap().access_level, 5);
    assert!(is_violations(&create_checked(5, SALT, create(1), failed()).unwrap_err()));
    // a level given as a number reaches the promotion check once the body passes
    let r = update_admin_checked(5, ID, SALT, create(6), passed()).unwrap_err();
    assert_eq!(issue(&r), "You can not promote user to higher access level than yours");
    assert_eq!(update_admin_checked(5, ID, SALT, create(5), passed()).unwrap().access_level, Some(5));
    assert_eq!(issue(&update_admin_checked(5, "zz", SALT, create(5), passed()).unwrap_err()), "Bad user ID");
    let empty = UserDataUpdate { first_name: None, last_name: None, email: None, password: None };
    assert_eq!(issue(&update_checked(ID, SALT, empty, passed()).unwrap_err()), "At least one field must be provided");
    let named = UserDataUpdate { first_name: s("Z"), last_name: None, email: None, password: None };
    assert!(is_violations(&update_checked(ID, SALT, named, failed()).unwrap_err()));
}
