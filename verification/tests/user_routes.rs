use auth_api::cache::CacheAnswer;
use auth_api::clock::Instant;
use auth_api::object_id::object_id_from_text;
use auth_api::passwords::verify_password;
use auth_api::replies::{Body, Reply, Status};
use auth_api::requests::{UserDataCreate, UserDataUpdate, UserFilter};
use auth_api::users::{
    create_user_outcome, delete_user_outcome, new_email_outcome, user_to_update, CompareType,
    CreateUser, UpdateUser, UpdateUserAdmin, Users,
};
use auth_api::users_api::{
    after_ban, create_done, create_start, delete_admin_done, delete_admin_start, delete_done,
    delete_start, filter_level_condition, get_many_counted, get_many_done, get_many_start,
    get_my_acc_done, get_my_acc_start, get_one_done, get_one_start, update_admin_done,
    update_admin_start, update_done, update_start, DELETION_BAN_SECS,
};

const SALT: &str = "bvIG6Nmid91Mu9RcmmWZfO";
const ID: &str = "507f1f77bcf86cd799439011";

fn s(x: &str) -> Option<String> {
    Some(x.to_string())
}

fn issues(r: &Reply) -> Vec<String> {
    match &r.body {
        Body::Issues(v) => v.clone(),
        other => panic!("expected issues, got {:?}", other),
    }
}

fn message(r: &Reply) -> (Status, String) {
    match &r.body {
        Body::Message(m) => (r.status, m.clone()),
        other => panic!("expected a message, got {:?}", other),
    }
}

fn is_went_wrong(r: &Reply) -> bool {
    r.status == Status::InternalServerError && issues(r) == vec!["something went wrong".to_string()]
}

fn is_bad_id(r: &Reply) -> bool {
    r.status == Status::BadRequest && issues(r) == vec!["Bad user ID".to_string()]
}

fn user(level: i32) -> Users {
    Users {
        _id: object_id_from_text(ID).unwrap(),
        first_name: "Ann".to_string(),
        last_name: "Lee".to_string(),
        email: "ann@example.com".to_string(),
        password: "hash".to_string(),
        access_level: level,
        creation_date: Instant { secs: 5, nanos: 0 },
        is_deleted: false,
    }
}

fn create_body(level: i32) -> UserDataCreate {
    UserDataCreate {
        first_name: s("Bob"),
        last_name: s("Ray"),
        email: s("bob@example.com"),
        password: s("longenough"),
        access_level: Some(level),
    }
}

fn empty_filter() -> UserFilter {
    UserFilter {
        page: None,
        size: None,
        first_name: None,
        last_name: None,
        email: None,
        access_level: None,
        access_level_cmp: None,
    }
}

#[test]
fn creation_refuses_a_level_above_the_caller() {
    let r = create_start(100, SALT, create_body(200)).unwrap_err();
    assert_eq!(r.status, Status::Unauthorized);
    assert_eq!(issues(&r), vec!["You can not create a user with higher access level than yours".to_string()]);
    let m = create_start(100, SALT, create_body(100)).unwrap();
    assert_eq!((m.first_name.as_str(), m.email.as_str(), m.access_level), ("Bob", "bob@example.com", 100));
    assert!(verify_password(m.password.clone(), "longenough".to_string()));
    let r = create_start(100, SALT, create_body(-1)).unwrap_err();
    assert_eq!(r.status, Status::BadRequest);
}

#[test]
fn creation_replies() {
    assert_eq!(message(&create_done(Ok(Ok(Ok(()))))), (Status::Success, "User was created successfully".to_string()));
    assert_eq!(
        message(&create_done(Ok(Err("User already exists.".to_string())))),
        (Status::BadRequest, "User already exists.".to_string())
    );
    assert!(is_went_wrong(&create_done(Err(()))));
}

#[test]
fn deletion_bans_then_deletes() {
    assert!(is_bad_id(&delete_admin_start("nope".to_string()).unwrap_err()));
    let p = delete_admin_start(ID.to_string()).unwrap();
    assert_eq!((p.ban.id.as_str(), p.ban.dur), (ID, DELETION_BAN_SECS));
    assert_eq!(p.ban.dur, 86400);
    assert_eq!(p.delete._id.bytes, object_id_from_text(ID).unwrap().bytes);
    let own = delete_start(ID.to_string());
    assert_eq!(own.ban.id, ID);
    assert!(after_ban(CacheAnswer::Done).is_none());
    assert!(is_went_wrong(&after_ban(CacheAnswer::Failed).unwrap()));
    assert!(is_went_wrong(&after_ban(CacheAnswer::Undelivered).unwrap()));
    assert_eq!(message(&delete_admin_done(Ok(Ok(Ok(()))))), (Status::Success, "User was deleted successfully".to_string()));
    let r = delete_admin_done(Ok(Err("User does not exist.".to_string())));
    assert_eq!(r.status, Status::NotFound);
    assert_eq!(issues(&r), vec!["User does not exist.".to_string()]);
    assert_eq!(message(&delete_done(Ok(Ok(Ok(()))))), (Status::Success, "Your account was deleted successfully".to_string()));
    assert!(is_went_wrong(&delete_done(Ok(Ok(Err(()))))));
}

#[test]
fn listing_defaults_and_pages() {
    let p = get_many_start(&empty_filter());
    assert_eq!((p.page, p.list.skip, p.list.limit), (1, 0, 20));
    assert!(p.list.access_level.is_none() && p.count.access_level.is_none());
    let f = UserFilter {
        page: Some(3),
        size: Some(10),
        first_name: s("an"),
        last_name: None,
        email: None,
        access_level: Some(50),
        access_level_cmp: Some(2),
    };
    let p = get_many_start(&f);
    assert_eq!((p.page, p.list.skip, p.list.limit), (3, 20, 10));
    assert_eq!(p.list.access_level, Some((50, CompareType::GTE)));
    assert_eq!(p.count.first_name, s("an"));
    let q = p.list.query();
    assert_eq!(q.first_name, s(".*an.*"));
    assert!(q.last_name.is_none());
    assert_eq!(q.access_level.unwrap().1.operator(), "$gte");
    assert_eq!(p.count.query().first_name, s(".*an.*"));
    let codes = [(0u8, CompareType::EQ), (1, CompareType::GT), (2, CompareType::GTE), (3, CompareType::LT), (4, CompareType::LTE), (9, CompareType::EQ)];
    for (c, t) in codes {
        let mut g = empty_filter();
        g.access_level = Some(1);
        g.access_level_cmp = Some(c);
        assert_eq!(filter_level_condition(&g), Some((1, t)));
    }
    let mut g = empty_filter();
    g.access_level = Some(7);
    assert_eq!(filter_level_condition(&g), Some((7, CompareType::EQ)));
}

#[test]
fn listing_replies() {
    assert_eq!(get_many_counted(Ok(Ok(42))).unwrap(), 42);
    assert!(is_went_wrong(&get_many_counted(Ok(Err(1))).unwrap_err()));
    let r = get_many_done(2, 42, Ok(Ok(Vec::new())));
    assert_eq!(r.status, Status::Success);
    match &r.body {
        Body::Page { message, page, total_count, users } => {
            assert_eq!((message.as_str(), *page, *total_count, users.len()), ("Users retrieved successfully", 2, 42, 0));
        }
        other => panic!("unexpected {:?}", other),
    }
    let r = get_many_done(1, 0, Ok(Err(1)));
    assert!(r.status == Status::BadRequest && matches!(r.body, Body::MessageCode(1)));
    assert!(is_went_wrong(&get_many_done(1, 0, Err(()))));
}

#[test]
fn reading_users() {
    assert_eq!(get_my_acc_start(ID)._id.bytes, object_id_from_text(ID).unwrap().bytes);
    assert!(is_bad_id(&get_one_start("zz").unwrap_err()));
    assert_eq!(get_one_start(ID).unwrap()._id.bytes, object_id_from_text(ID).unwrap().bytes);
    let r = get_one_done(Ok(Ok(user(3))));
    assert_eq!(r.status, Status::Success);
    assert!(matches!(&r.body, Body::UserRecord { message, user } if message == "User retrieved successfully" && user.access_level == 3));
    let r = get_my_acc_done(Ok(Ok(user(3))));
    assert!(matches!(&r.body, Body::Account { message, .. } if message == "Your account was retrieved successfully"));
    assert_eq!(message(&get_one_done(Ok(Err(0)))), (Status::NotFound, "This user does not exist".to_string()));
    assert!(is_went_wrong(&get_one_done(Ok(Err(1)))));
    assert!(is_went_wrong(&get_my_acc_done(Err(()))));
}

#[test]
fn admin_update_checks() {
    let body = |f: Option<String>, p: Option<String>, a: Option<i32>| UserDataCreate {
        first_name: f,
        last_name: None,
        email: None,
        password: p,
        access_level: a,
    };
    assert!(is_bad_id(&update_admin_start(100, "zz", SALT, body(s("A"), None, None)).unwrap_err()));
    let r = update_admin_start(100, ID, SALT, body(None, None, None)).unwrap_err();
    assert_eq!(r.status, Status::BadRequest);
    let m = update_admin_start(100, ID, SALT, body(s("Al"), s("longenough"), None)).unwrap();
    assert_eq!(m.first_name, s("Al"));
    assert!(m.last_name.is_none() && m.access_level.is_none());
    assert!(verify_password(m.password.clone().unwrap(), "longenough".to_string()));
    // the schema describes the level as text, so a numeric level is refused
    let r = update_admin_start(100, ID, SALT, body(None, None, Some(5))).unwrap_err();
    assert_eq!(r.status, Status::BadRequest);
    assert_eq!(issues(&r).len(), 1);
    assert_eq!(message(&update_admin_done(Ok(Ok(Ok(()))))), (Status::Success, "User was updated successfully".to_string()));
}

#[test]
fn own_update_checks() {
    let body = UserDataUpdate { first_name: None, last_name: None, email: None, password: None };
    let r = update_start(ID, SALT, body).unwrap_err();
    assert_eq!(r.status, Status::BadRequest);
    assert_eq!(issues(&r), vec!["At least one field must be provided".to_string()]);
    let body = UserDataUpdate { first_name: None, last_name: s("Lee"), email: None, password: None };
    assert_eq!(update_start(ID, SALT, body).unwrap().last_name, s("Lee"));
    let body = UserDataUpdate { first_name: None, last_name: None, email: s("new@example.com"), password: None };
    let m = update_start(ID, SALT, body).unwrap();
    assert_eq!(m.email, s("new@example.com"));
    assert!(m.password.is_none());
    assert_eq!(m._id.bytes, object_id_from_text(ID).unwrap().bytes);
    let body = UserDataUpdate { first_name: None, last_name: None, email: None, password: s("short") };
    assert_eq!(update_start(ID, SALT, body).unwrap_err().status, Status::BadRequest);
    assert_eq!(
        message(&update_done(Ok(Err("Email already exists.".to_string())))),
        (Status::BadRequest, "Email already exists.".to_string())
    );
}

#[test]
fn updates_merge_into_the_record() {
    let current = user(3);
    let change = UpdateUser {
        _id: current._id,
        first_name: s("Al"),
        last_name: None,
        email: None,
        password: s("newhash"),
    };
    let c = change.changes(&current);
    assert_eq!((c.first_name.as_str(), c.last_name.as_str(), c.email.as_str(), c.password.as_str()), ("Al", "Lee", "ann@example.com", "newhash"));
    let admin = UpdateUserAdmin {
        _id: current._id,
        first_name: None,
        last_name: s("Ray"),
        email: None,
        password: None,
        access_level: Some(9),
    };
    let c = admin.changes(&current);
    assert_eq!((c.first_name.as_str(), c.last_name.as_str(), c.access_level), ("Ann", "Ray", 9));
    let none = UpdateUserAdmin { _id: current._id, first_name: None, last_name: None, email: None, password: None, access_level: None };
    assert_eq!(none.changes(&current).access_level, 3);
}

#[test]
fn store_decisions_on_users() {
    let req = || CreateUser {
        first_name: "Ann".to_string(),
        last_name: "Lee".to_string(),
        email: "ann@example.com".to_string(),
        password: "hash".to_string(),
        access_level: 1,
    };
    assert_eq!(create_user_outcome(req(), Ok(true)).unwrap_err(), "User already exists.");
    let u = create_user_outcome(req(), Ok(false)).unwrap();
    assert!(!u.is_deleted && u.access_level == 1 && u.email == "ann@example.com");
    assert!(create_user_outcome(req(), Err(())).is_ok());
    let a = Users::new(req());
    let b = Users::new(req());
    assert_ne!(a._id.bytes, b._id.bytes);
    assert!((chrono::Utc::now().timestamp() - a.creation_date.secs).abs() <= 5);
    assert_eq!(user_to_update(Ok(Some(user(2)))).unwrap().access_level, 2);
    assert_eq!(user_to_update(Ok(None)).unwrap_err(), "User does not exist.");
    assert_eq!(user_to_update(Err(())).unwrap_err(), "User does not exist.");
    assert_eq!(new_email_outcome(Ok(true)), Err("Email already exists.".to_string()));
    assert_eq!(new_email_outcome(Ok(false)), Ok(()));
    assert_eq!(new_email_outcome(Err(())), Ok(()));
    assert_eq!(delete_user_outcome(Ok(true)), Ok(()));
    assert_eq!(delete_user_outcome(Ok(false)), Err("User does not exist.".to_string()));
    assert_eq!(delete_user_outcome(Err(())), Err("User does not exist.".to_string()));
}
