use auth_api::bootstrap::{
    admin_account, admin_registration_outcome, after_registration, first_startup_step,
    registration_succeeded, resource_registration, ResourceEntry, StartupStep,
    ADMIN_ACCESS_LEVEL,
};
use auth_api::clock::Instant;
use auth_api::grpc::{
    get_user_on_token, get_user_reply, grpc_method, has_access_begin, has_access_on_resource,
    has_access_on_verification, GrpcCode, GrpcMethod, HasAccessStep,
};
use auth_api::object_id::object_id_from_text;
use auth_api::passwords::verify_password;
use auth_api::rbac::{
    failure_message, rbac_on_resource, rbac_on_verification, resource_of_request,
    unauthorized_message, RbacStep,
};
use auth_api::resources::{Method, Resources};
use auth_api::store::{found_reply, query_reply};
use auth_api::users::Users;

const ID: &str = "507f1f77bcf86cd799439011";

fn resource(access: i32) -> Resources {
    Resources { method: Method::GET, path: "/api/users".to_string(), access }
}

fn user() -> Users {
    Users {
        _id: object_id_from_text(ID).unwrap(),
        first_name: "Ann".to_string(),
        last_name: "Lee".to_string(),
        email: "ann@example.com".to_string(),
        password: "hash".to_string(),
        access_level: 42,
        creation_date: Instant { secs: 0, nanos: 0 },
        is_deleted: false,
    }
}

#[test]
fn rbac_lets_open_resources_through() {
    let g = resource_of_request("/api/users", "GET");
    assert_eq!((g.path.as_str(), g.method), ("/api/users", Method::GET));
    assert_eq!(resource_of_request("/", "HEAD").method, Method::INVALID);
    assert!(matches!(rbac_on_resource(Ok(Ok(resource(0))), None), RbacStep::Forward));
    assert!(matches!(rbac_on_resource(Ok(Ok(resource(0))), Some("x".to_string())), RbacStep::Forward));
}

#[test]
fn rbac_verifies_tokens_for_protected_resources() {
    match rbac_on_resource(Ok(Ok(resource(100))), Some(" a.b .c\n".to_string())) {
        RbacStep::Verify { token, required } => assert_eq!((token.as_str(), required), ("a.b.c", 100)),
        other => panic!("unexpected {:?}", other),
    }
    assert!(matches!(rbac_on_resource(Ok(Ok(resource(100))), None), RbacStep::Unauthorized));
    assert!(matches!(rbac_on_resource(Ok(Err(0)), None), RbacStep::Failure));
    assert!(matches!(rbac_on_resource(Err(()), Some("t".to_string())), RbacStep::Failure));
    assert!(matches!(rbac_on_verification(100, Ok((ID.to_string(), 100))), RbacStep::Forward));
    assert!(matches!(rbac_on_verification(100, Ok((ID.to_string(), 1000))), RbacStep::Forward));
    assert!(matches!(rbac_on_verification(100, Ok((ID.to_string(), 99))), RbacStep::Unauthorized));
    assert!(matches!(rbac_on_verification(100, Err(())), RbacStep::Unauthorized));
    assert_eq!(unauthorized_message(), "You don't have access to this resource");
    assert_eq!(failure_message(), "Something went wrong.");
}

#[test]
fn grpc_access_questions() {
    assert_eq!(grpc_method(Some(GrpcMethod::Patch)), Method::PATCH);
    assert_eq!(grpc_method(None), Method::INVALID);
    let e = has_access_begin(None, "/x").unwrap_err();
    assert_eq!((e.code, e.message.as_str()), (GrpcCode::InvalidArgument, "Invalid method"));
    let e = has_access_begin(Some(GrpcMethod::Get), "").unwrap_err();
    assert_eq!((e.code, e.message.as_str()), (GrpcCode::InvalidArgument, "Empty path"));
    let g = has_access_begin(Some(GrpcMethod::Put), "/x").unwrap();
    assert_eq!((g.path.as_str(), g.method), ("/x", Method::PUT));
    match has_access_on_resource(Ok(Ok(resource(10))), "jwt".to_string()) {
        HasAccessStep::Verify { token, required } => assert_eq!((token.as_str(), required), ("jwt", 10)),
        other => panic!("unexpected {:?}", other),
    }
    assert!(matches!(has_access_on_resource(Ok(Ok(resource(0))), String::new()), HasAccessStep::Answer(Ok(true))));
    assert!(matches!(has_access_on_resource(Ok(Err(0)), String::new()), HasAccessStep::Answer(Ok(false))));
    match has_access_on_resource(Err(()), String::new()) {
        HasAccessStep::Answer(Err(s)) => assert_eq!((s.code, s.message.as_str()), (GrpcCode::Internal, "Something went wrong.")),
        other => panic!("unexpected {:?}", other),
    }
    assert!(has_access_on_verification(10, Ok((ID.to_string(), 10))).unwrap());
    assert!(!has_access_on_verification(10, Ok((ID.to_string(), 9))).unwrap());
    assert!(!has_access_on_verification(10, Err(())).unwrap());
}

#[test]
fn grpc_user_questions() {
    let id = object_id_from_text(ID).unwrap();
    assert_eq!(get_user_on_token(Ok(id)).unwrap()._id.bytes, id.bytes);
    let e = get_user_on_token(Err(())).unwrap_err();
    assert_eq!((e.code, e.message.as_str()), (GrpcCode::InvalidArgument, "Invalid jwt"));
    let u = get_user_reply(Ok(Ok(user()))).unwrap();
    assert_eq!((u.id.as_str(), u.first_name.as_str(), u.access_level), (ID, "Ann", 42));
    let e = get_user_reply(Ok(Err(0))).unwrap_err();
    assert_eq!((e.code, e.message.as_str()), (GrpcCode::InvalidArgument, "Invalid jwt"));
    let e = get_user_reply(Err(())).unwrap_err();
    assert_eq!((e.code, e.message.as_str()), (GrpcCode::Internal, "Something went wrong"));
}

#[test]
fn start_up_registrations() {
    let entry = ResourceEntry { path: "/api/users".to_string(), access: 1000, method: "DELETE".to_string() };
    let r = resource_registration(&entry);
    assert_eq!((r.path.as_str(), r.access, r.method), ("/api/users", 1000, Method::DELETE));
    let odd = ResourceEntry { path: "/".to_string(), access: 0, method: "delete".to_string() };
    assert_eq!(resource_registration(&odd).method, Method::INVALID);
    assert!(registration_succeeded(Ok(Ok(()))));
    assert!(!registration_succeeded(Ok(Err(()))));
    assert!(!registration_succeeded(Err(())));
    let a = admin_account("bvIG6Nmid91Mu9RcmmWZfO", "root@example.com", "adminpass");
    assert_eq!((a.first_name.as_str(), a.last_name.as_str(), a.email.as_str()), ("admin", "admin", "root@example.com"));
    assert_eq!(a.access_level, ADMIN_ACCESS_LEVEL);
    assert_eq!(a.access_level, 1000);
    assert!(verify_password(a.password, "adminpass".to_string()));
    assert_eq!(admin_registration_outcome(Ok(Ok(Ok(())))), Ok(()));
    assert_eq!(admin_registration_outcome(Ok(Err("User already exists.".to_string()))), Ok(()));
    assert_eq!(admin_registration_outcome(Ok(Ok(Err(())))), Err(()));
    assert_eq!(admin_registration_outcome(Err(())), Err(()));
}

#[test]
fn store_answers() {
    assert_eq!(found_reply(Ok(Some(3))), Ok(3));
    assert_eq!(found_reply::<i32>(Ok(None)), Err(0));
    assert_eq!(found_reply::<i32>(Err(())), Err(1));
    assert_eq!(query_reply(Ok(7u64)), Ok(7));
    assert_eq!(query_reply::<u64>(Err(())), Err(1));
}

#[test]
fn start_up_registers_in_file_order_and_stops_at_a_failure() {
    let entry = |p: &str, m: &str| ResourceEntry { path: p.to_string(), access: 10, method: m.to_string() };
    let entries = vec![entry("/a", "GET"), entry("/b", "POST"), entry("/c", "PATCH")];
    let mut step = first_startup_step(&entries);
    let mut sent = Vec::new();
    loop {
        match step {
            StartupStep::Register { index, message } => {
                sent.push((index, message.path.clone(), message.method));
                step = after_registration(&entries, index, Ok(Ok(())));
            }
            StartupStep::RegisterAdmin => break,
            StartupStep::Fail => panic!("no failure expected"),
        }
    }
    assert_eq!(
        sent,
        vec![(0, "/a".to_string(), Method::GET), (1, "/b".to_string(), Method::POST), (2, "/c".to_string(), Method::PATCH)]
    );
    assert!(matches!(after_registration(&entries, 1, Ok(Err(()))), StartupStep::Fail));
    assert!(matches!(after_registration(&entries, 0, Err(())), StartupStep::Fail));
    assert!(matches!(after_registration(&entries, 2, Ok(Ok(()))), StartupStep::RegisterAdmin));
    assert!(matches!(first_startup_step(&Vec::new()), StartupStep::RegisterAdmin));
}
