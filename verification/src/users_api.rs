//! The decisions of the user routes: creating, changing, deleting, reading
//! and listing users.  The routes for the caller's own account take the
//! caller's identifier and access level as the access check established
//! them.

use vstd::prelude::*;
use crate::cache::{BanUser, CacheAnswer};
use crate::object_id::{ObjectId, is_object_id_text, object_id_bytes};
use crate::passwords::{service_hash, hash_password, salt_decoding_breaks};
use crate::replies::{
    Body, Reply, Status, accepts_body, body_outcome, lemma_outcome_decides, refusal, refuses, is_issue, is_message, issue_reply,
    issues_reply, message_reply, rejects_body, text_of, unreadable, unreadable_reply, went_wrong,
    went_wrong_reply,
};
use crate::requests::{
    UserDataCreate, UserDataUpdate, UserDataUpdateAdmin, UserFilter, create_json, update_json,
};
use crate::schemas::{
    ADMIN_UPDATE_SCHEMA, CREATE_SCHEMA, UPDATE_SCHEMA, get_admin_update_schema, get_create_schema,
    get_update_schema,
};
use crate::users::{
    CompareType, CountUsersWithFilter, CreateUser, DeleteUser, GetUserWithId, GetUsersWithFilter,
    PasswordlessUsers, UpdateUser, UpdateUserAdmin, Users, compare_type_of, passwordless,
    passwordless_of,
};

verus! {

/// Seconds for which a deleted user's tokens stay refused.
pub const DELETION_BAN_SECS: i64 = 86400i64;

/// Page shown when a listing names none.
pub const DEFAULT_PAGE: u64 = 1u64;

/// Page size when a listing names none.
pub const DEFAULT_PAGE_SIZE: u64 = 20u64;

/// Whether the change names at least one field.
pub open spec fn names_a_field(
    first_name: Option<String>,
    last_name: Option<String>,
    email: Option<String>,
    password: Option<String>,
) -> bool {
    first_name is Some || last_name is Some || email is Some || password is Some
}

/// A change names a field exactly when it gives one: any one of a new first
/// name, last name, email address or password alone is a change, and only
/// the change that gives none of them is empty.
pub proof fn law_any_field_is_a_change(v: String)
    ensures
        names_a_field(Some(v), None, None, None),
        names_a_field(None, Some(v), None, None),
        names_a_field(None, None, Some(v), None),
        names_a_field(None, None, None, Some(v)),
        !names_a_field(None, None, None, None),
{
}

/// The reply to a store answer on a write (outer error: not delivered;
/// middle error: refused with a reason; inner error: the write failed):
/// `ok` as message on success, the reason with status `refused` otherwise.
pub open spec fn write_reply(
    r: Reply,
    written: Result<Result<Result<(), ()>, String>, ()>,
    ok: Seq<char>,
    refused: Status,
    reason_as_issue: bool,
) -> bool {
    match written {
        Ok(Ok(Ok(_))) => is_message(r, Status::Success, ok),
        Ok(Err(e)) => if reason_as_issue {
            is_issue(r, refused, e@)
        } else {
            is_message(r, refused, e@)
        },
        _ => went_wrong(r),
    }
}

fn write_done(
    written: Result<Result<Result<(), ()>, String>, ()>,
    ok: &str,
    refused: Status,
    reason_as_issue: bool,
) -> (r: Reply)
    ensures
        write_reply(r, written, ok@, refused, reason_as_issue),
{
    match written {
        Ok(Ok(Ok(_))) => message_reply(Status::Success, ok),
        Ok(Err(e)) => {
            if reason_as_issue {
                issues_reply(refused, e)
            } else {
                Reply { status: refused, body: Body::Message(e) }
            }
        },
        _ => went_wrong_reply(),
    }
}

/// The reply to a refused identifier.
pub open spec fn bad_id(r: Reply) -> bool {
    is_issue(r, Status::BadRequest, "Bad user ID"@)
}

// ---------------------------------------------------------------------------
/// The first step of an administrator's creation of a user: the body's
/// schema check, the refusal of an access level above the caller's, the
/// password hashed with the service's salt, then the registration.
pub fn create_start(caller_level: i32, salt: &str, user: UserDataCreate) -> (r: Result<
    CreateUser,
    Reply,
>)
    requires
        !salt_decoding_breaks(salt@),
    ensures
        !accepts_body(CREATE_SCHEMA@, create_json(user)) ==> (r matches Err(rep) && rejects_body(
            rep,
            CREATE_SCHEMA@,
            create_json(user),
        )),
        accepts_body(CREATE_SCHEMA@, create_json(user)) ==> if (user.access_level matches Some(a)
            && a > caller_level) {
            r matches Err(rep) && is_issue(
                rep,
                Status::Unauthorized,
                "You can not create a user with higher access level than yours"@,
            )
        } else {
            match user.password {
                None => r matches Err(rep) && unreadable(rep),
                Some(p) => match service_hash(salt@, p@) {
                    None => r matches Err(rep) && is_issue(
                        rep,
                        Status::Unauthorized,
                        "something went wrong"@,
                    ),
                    Some(h) => match (user.first_name, user.last_name, user.email, user.access_level) {
                        (Some(f), Some(l), Some(e), Some(a)) => r matches Ok(m) && m.first_name == f
                            && m.last_name == l && m.email == e && m.password@ == h
                            && m.access_level == a,
                        _ => r matches Err(rep) && unreadable(rep),
                    },
                },
            }
        },
        // no user is created with a level above the caller's
        r matches Ok(m) ==> m.access_level <= caller_level,
{
    let json = user.to_json();
    let ghost j = text_of(json);
    assert(j == create_json(user));
    let checked = body_outcome(get_create_schema(), json);
    proof {
        lemma_outcome_decides(checked, CREATE_SCHEMA@, j);
    }
    create_checked(caller_level, salt, user, checked)
}

/// As `create_start`, given the outcome `checked` of the body's schema check.
pub fn create_checked(
    caller_level: i32,
    salt: &str,
    user: UserDataCreate,
    checked: Option<Result<(), Vec<String>>>,
) -> (r: Result<
    CreateUser,
    Reply,
>)
    requires
        !salt_decoding_breaks(salt@),
    ensures
        !(checked matches Some(Ok(_))) ==> (r matches Err(rep) && refuses(rep, checked)),
        (checked matches Some(Ok(_))) ==> if (user.access_level matches Some(a)
            && a > caller_level) {
            r matches Err(rep) && is_issue(
                rep,
                Status::Unauthorized,
                "You can not create a user with higher access level than yours"@,
            )
        } else {
            match user.password {
                None => r matches Err(rep) && unreadable(rep),
                Some(p) => match service_hash(salt@, p@) {
                    None => r matches Err(rep) && is_issue(
                        rep,
                        Status::Unauthorized,
                        "something went wrong"@,
                    ),
                    Some(h) => match (user.first_name, user.last_name, user.email, user.access_level) {
                        (Some(f), Some(l), Some(e), Some(a)) => r matches Ok(m) && m.first_name == f
                            && m.last_name == l && m.email == e && m.password@ == h
                            && m.access_level == a,
                        _ => r matches Err(rep) && unreadable(rep),
                    },
                },
            }
        },
        // no user is created with a level above the caller's
        r matches Ok(m) ==> m.access_level <= caller_level,
{
    if let Some(rep) = refusal(checked) {
        return Err(rep);
    }
    if let Some(a) = user.access_level {
        if a > caller_level {
            return Err(
                issue_reply(
                    Status::Unauthorized,
                    "You can not create a user with higher access level than yours",
                ),
            );
        }
    }
    let password = match user.password {
        Some(p) => p,
        None => {
            return Err(unreadable_reply());
        },
    };
    let hashed = match hash_password(salt, password) {
        Ok(h) => h,
        Err(_) => {
            return Err(issue_reply(Status::Unauthorized, "something went wrong"));
        },
    };
    match (user.first_name, user.last_name, user.email, user.access_level) {
        (Some(f), Some(l), Some(e), Some(a)) => Ok(
            CreateUser { first_name: f, last_name: l, email: e, password: hashed, access_level: a },
        ),
        _ => Err(unreadable_reply()),
    }

}

/// The reply to a creation from the store's answer.
pub fn create_done(created: Result<Result<Result<(), ()>, String>, ()>) -> (r: Reply)
    ensures
        write_reply(r, created, "User was created successfully"@, Status::BadRequest, false),
{
    write_done(created, "User was created successfully", Status::BadRequest, false)
}

// ---------------------------------------------------------------------------
/// What the deletion of a user sends: the ban of the user's tokens, then
/// the deletion.
#[derive(Debug)]
pub struct DeletionPlan {
    pub ban: BanUser,
    pub delete: DeleteUser,
}

/// The first step of an administrator's deletion of the user `id_text`:
/// the refusal of a text that is no identifier, or the plan.
pub fn delete_admin_start(id_text: String) -> (r: Result<DeletionPlan, Reply>)
    ensures
        is_object_id_text(id_text@) <==> r is Ok,
        !is_object_id_text(id_text@) ==> (r matches Err(rep) && bad_id(rep)),
        r matches Ok(p) ==> p.ban.id == id_text && p.ban.dur == DELETION_BAN_SECS
            && p.delete._id.bytes@ == object_id_bytes(id_text@),
{
    match ObjectId::parse_str(id_text.as_str()) {
        Some(id) => Ok(
            DeletionPlan {
                ban: BanUser { id: id_text, dur: DELETION_BAN_SECS },
                delete: DeleteUser { _id: id },
            },
        ),
        None => Err(issue_reply(Status::BadRequest, "Bad user ID")),
    }
}

/// The first step of a user's deletion of their own account.
pub fn delete_start(id_text: String) -> (r: DeletionPlan)
    requires
        is_object_id_text(id_text@),
    ensures
        r.ban.id == id_text && r.ban.dur == DELETION_BAN_SECS && r.delete._id.bytes@
            == object_id_bytes(id_text@),
{
    match ObjectId::parse_str(id_text.as_str()) {
        Some(id) => DeletionPlan {
            ban: BanUser { id: id_text, dur: DELETION_BAN_SECS },
            delete: DeleteUser { _id: id },
        },
        None => DeletionPlan {
            ban: BanUser { id: id_text, dur: DELETION_BAN_SECS },
            delete: DeleteUser { _id: ObjectId { bytes: [0u8; 12] } },
        },
    }
}

/// The reply that stops a deletion whose ban did not go through; `None`
/// once the ban is in place.
pub fn after_ban(answer: CacheAnswer) -> (r: Option<Reply>)
    ensures
        answer == CacheAnswer::Done ==> r is None,
        answer != CacheAnswer::Done ==> (r matches Some(rep) && went_wrong(rep)),
{
    match answer {
        CacheAnswer::Done => None,
        _ => Some(went_wrong_reply()),
    }
}

/// The reply to an administrator's deletion from the store's answer.
pub fn delete_admin_done(deleted: Result<Result<Result<(), ()>, String>, ()>) -> (r: Reply)
    ensures
        write_reply(r, deleted, "User was deleted successfully"@, Status::NotFound, true),
{
    write_done(deleted, "User was deleted successfully", Status::NotFound, true)
}

/// The reply to a user's deletion of their own account.
pub fn delete_done(deleted: Result<Result<Result<(), ()>, String>, ()>) -> (r: Reply)
    ensures
        write_reply(r, deleted, "Your account was deleted successfully"@, Status::BadRequest, false),
{
    write_done(deleted, "Your account was deleted successfully", Status::BadRequest, false)
}

// ---------------------------------------------------------------------------
/// What a listing asks the store: the number of matching users, then the
/// page.
#[derive(Debug)]
pub struct ListingPlan {
    pub page: u64,
    pub count: CountUsersWithFilter,
    pub list: GetUsersWithFilter,
}

pub open spec fn page_of(filter: UserFilter) -> int {
    match filter.page {
        Some(p) => p as int,
        None => DEFAULT_PAGE as int,
    }
}

pub open spec fn size_of(filter: UserFilter) -> int {
    match filter.size {
        Some(s) => s as int,
        None => DEFAULT_PAGE_SIZE as int,
    }
}

/// The access-level condition of a listing: the level with the comparison
/// that its code asks for (equality by default).
pub open spec fn level_condition(filter: UserFilter) -> Option<(i32, CompareType)> {
    match filter.access_level {
        Some(a) => Some(
            (
                a,
                compare_type_of(
                    match filter.access_level_cmp {
                        Some(c) => c,
                        None => 0,
                    },
                ),
            ),
        ),
        None => None,
    }
}

/// A listing shows the page and page size that its query string names, and
/// page `DEFAULT_PAGE` of `DEFAULT_PAGE_SIZE` users where it names none; it
/// filters by access level exactly where the query names a level, comparing
/// by equality unless a comparison code is named.
pub proof fn law_listing_reads_its_query(filter: UserFilter, p: u64, n: u64, a: i32, c: u8)
    ensures
        filter.page == Some(p) ==> page_of(filter) == p,
        filter.page is None ==> page_of(filter) == 1,
        filter.size == Some(n) ==> size_of(filter) == n,
        filter.size is None ==> size_of(filter) == 20,
        filter.access_level is None <==> level_condition(filter) is None,
        filter.access_level == Some(a) && filter.access_level_cmp is None ==> level_condition(filter)
            == Some((a, CompareType::EQ)),
        filter.access_level == Some(a) && filter.access_level_cmp == Some(c) ==> level_condition(
            filter,
        ) == Some((a, compare_type_of(c))),
{
}

/// The access-level condition of a listing.
pub fn filter_level_condition(filter: &UserFilter) -> (r: Option<(i32, CompareType)>)
    ensures
        r == level_condition(*filter),
{
    match filter.access_level {
        Some(acc) => {
            let code = match filter.access_level_cmp {
                Some(c) => c,
                None => 0,
            };
            Some((acc, CompareType::from_code(code)))
        },
        None => None,
    }
}

/// The plan of a listing: page `page` (1 by default) of `size` users (20 by
/// default) skips the first `(page - 1) * size` matches.
pub fn get_many_start(filter: &UserFilter) -> (r: ListingPlan)
    requires
        page_of(*filter) >= 1,
        (page_of(*filter) - 1) * size_of(*filter) <= u64::MAX,
    ensures
        r.page == page_of(*filter),
        r.count.first_name == filter.first_name,
        r.count.last_name == filter.last_name,
        r.count.email == filter.email,
        r.count.access_level == level_condition(*filter),
        r.list.first_name == filter.first_name,
        r.list.last_name == filter.last_name,
        r.list.email == filter.email,
        r.list.access_level == level_condition(*filter),
        r.list.skip == (page_of(*filter) - 1) * size_of(*filter),
        r.list.limit == size_of(*filter) as i64,
{
    let page = match filter.page {
        Some(p) => p,
        None => DEFAULT_PAGE,
    };
    let size = match filter.size {
        Some(s) => s,
        None => DEFAULT_PAGE_SIZE,
    };
    let level = filter_level_condition(filter);
    assert((page - 1) * size <= u64::MAX) by (nonlinear_arith)
        requires
            (page - 1) * size <= u64::MAX,
    ;
    let skip = (page - 1) * size;
    ListingPlan {
        page,
        count: CountUsersWithFilter {
            first_name: filter.first_name.clone(),
            last_name: filter.last_name.clone(),
            email: filter.email.clone(),
            access_level: level,
        },
        list: GetUsersWithFilter {
            limit: size as i64,
            skip,
            first_name: filter.first_name.clone(),
            last_name: filter.last_name.clone(),
            email: filter.email.clone(),
            access_level: level,
        },
    }
}

/// The number of matching users, or the reply to a failed count.
pub fn get_many_counted(counted: Result<Result<u64, u8>, ()>) -> (r: Result<u64, Reply>)
    ensures
        match counted {
            Ok(Ok(c)) => r == Ok::<u64, Reply>(c),
            _ => r matches Err(rep) && went_wrong(rep),
        },
{
    match counted {
        Ok(Ok(c)) => Ok(c),
        _ => Err(went_wrong_reply()),
    }
}

/// The reply to a listing from the store's answer.
pub fn get_many_done(page: u64, total_count: u64, listed: Result<
    Result<Vec<PasswordlessUsers>, u8>,
    (),
>) -> (r: Reply)
    ensures
        match listed {
            Ok(Ok(users)) => {
                &&& r.status == Status::Success
                &&& r.body matches Body::Page { message, page: p, total_count: t, users: u }
                    && message@ == "Users retrieved successfully"@ && p == page && t
                    == total_count && u == users
            },
            Ok(Err(e)) => r.status == Status::BadRequest && r.body == Body::MessageCode(e),
            Err(_) => went_wrong(r),
        },
{
    match listed {
        Ok(Ok(users)) => Reply {
            status: Status::Success,
            body: Body::Page {
                message: String::from_str("Users retrieved successfully"),
                page,
                total_count,
                users,
            },
        },
        Ok(Err(e)) => Reply { status: Status::BadRequest, body: Body::MessageCode(e) },
        Err(_) => went_wrong_reply(),
    }
}

// ---------------------------------------------------------------------------
/// The lookup of the caller's own account.
pub fn get_my_acc_start(id_text: &str) -> (r: GetUserWithId)
    requires
        is_object_id_text(id_text@),
    ensures
        r._id.bytes@ == object_id_bytes(id_text@),
{
    match ObjectId::parse_str(id_text) {
        Some(id) => GetUserWithId { _id: id },
        None => GetUserWithId { _id: ObjectId { bytes: [0u8; 12] } },
    }
}

/// The reply to a read of one user: the record under `ok`, a missing user
/// as 404, a failure as 500.
pub open spec fn read_reply(
    r: Reply,
    found: Result<Result<Users, u8>, ()>,
    ok: Seq<char>,
    detailed: bool,
) -> bool {
    match found {
        Ok(Ok(u)) => {
            &&& r.status == Status::Success
            &&& if detailed {
                r.body matches Body::UserRecord { message, user } && message@ == ok && user
                    == passwordless_of(u)
            } else {
                r.body matches Body::Account { message, user } && message@ == ok && user
                    == passwordless_of(u)
            }
        },
        Ok(Err(c)) => if c == 0 {
            is_message(r, Status::NotFound, "This user does not exist"@)
        } else {
            went_wrong(r)
        },
        Err(_) => went_wrong(r),
    }
}

fn read_done(found: Result<Result<Users, u8>, ()>, ok: &str, detailed: bool) -> (r: Reply)
    ensures
        read_reply(r, found, ok@, detailed),
{
    match found {
        Ok(Ok(u)) => {
            let message = String::from_str(ok);
            let u = passwordless(u);
            if detailed {
                Reply { status: Status::Success, body: Body::UserRecord { message, user: u } }
            } else {
                Reply { status: Status::Success, body: Body::Account { message, user: u } }
            }
        },
        Ok(Err(c)) => {
            if c == 0 {
                message_reply(Status::NotFound, "This user does not exist")
            } else {
                went_wrong_reply()
            }
        },
        Err(_) => went_wrong_reply(),
    }
}

/// The reply to a read of the caller's own account.
pub fn get_my_acc_done(found: Result<Result<Users, u8>, ()>) -> (r: Reply)
    ensures
        read_reply(r, found, "Your account was retrieved successfully"@, false),
{
    read_done(found, "Your account was retrieved successfully", false)
}

/// The lookup of a user by identifier text, or the refusal of a text that
/// is no identifier.
pub fn get_one_start(id_text: &str) -> (r: Result<GetUserWithId, Reply>)
    ensures
        is_object_id_text(id_text@) <==> r is Ok,
        !is_object_id_text(id_text@) ==> (r matches Err(rep) && bad_id(rep)),
        r matches Ok(g) ==> g._id.bytes@ == object_id_bytes(id_text@),
{
    match ObjectId::parse_str(id_text) {
        Some(id) => Ok(GetUserWithId { _id: id }),
        None => Err(issue_reply(Status::BadRequest, "Bad user ID")),
    }
}

/// The reply to a read of a user.
pub fn get_one_done(found: Result<Result<Users, u8>, ()>) -> (r: Reply)
    ensures
        read_reply(r, found, "User retrieved successfully"@, true),
{
    read_done(found, "User retrieved successfully", true)
}

// ---------------------------------------------------------------------------
fn hashed_if_given(salt: &str, password: Option<String>) -> (r: Result<Option<String>, ()>)
    requires
        !salt_decoding_breaks(salt@),
    ensures
        match password {
            None => r == Ok::<Option<String>, ()>(None),
            Some(p) => match service_hash(salt@, p@) {
                None => r is Err,
                Some(h) => r matches Ok(Some(x)) && x@ == h,
            },
        },
{
    match password {
        None => Ok(None),
        Some(p) => match hash_password(salt, p) {
            Ok(h) => Ok(Some(h)),
            Err(_) => Err(()),
        },
    }
}

/// The first step of an administrator's change of the user `id_text`: the
/// refusal of a text that is no identifier, the body's schema check, the
/// refusal of an empty change and of an access level above the caller's,
/// a new password hashed with the service's salt, then the change.
pub fn update_admin_start(caller_level: i32, id_text: &str, salt: &str, user: UserDataUpdateAdmin) -> (r:
    Result<UpdateUserAdmin, Reply>)
    requires
        !salt_decoding_breaks(salt@),
    ensures
        !is_object_id_text(id_text@) ==> (r matches Err(rep) && bad_id(rep)),
        is_object_id_text(id_text@) && !accepts_body(ADMIN_UPDATE_SCHEMA@, create_json(user)) ==> (
        r matches Err(rep) && rejects_body(rep, ADMIN_UPDATE_SCHEMA@, create_json(user))),
        is_object_id_text(id_text@) && accepts_body(ADMIN_UPDATE_SCHEMA@, create_json(user))
            ==> if !(names_a_field(user.first_name, user.last_name, user.email, user.password)
            || user.access_level is Some) {
            r matches Err(rep) && is_issue(
                rep,
                Status::BadRequest,
                "At least one field must be provided"@,
            )
        } else if (user.access_level matches Some(a) && a > caller_level) {
            r matches Err(rep) && is_issue(
                rep,
                Status::Unauthorized,
                "You can not promote user to higher access level than yours"@,
            )
        } else {
            match user.password {
                Some(p) if service_hash(salt@, p@) is None => r matches Err(rep) && is_issue(
                    rep,
                    Status::Unauthorized,
                    "something went wrong"@,
                ),
                _ => r matches Ok(m) && m._id.bytes@ == object_id_bytes(id_text@) && m.first_name
                    == user.first_name && m.last_name == user.last_name && m.email == user.email
                    && m.access_level == user.access_level && match user.password {
                    Some(p) => m.password matches Some(x) && service_hash(salt@, p@) == Some(
                        x@,
                    ),
                    None => m.password is None,
                },
            }
        },
        // no user is promoted above the caller's level, and a change names a field
        r matches Ok(m) ==> (m.access_level matches Some(a) ==> a <= caller_level),
        r matches Ok(m) ==> names_a_field(m.first_name, m.last_name, m.email, m.password)
            || m.access_level is Some,
        // a new password is a change: unless the level is refused, it is hashed and written
        accepts_body(ADMIN_UPDATE_SCHEMA@, create_json(user)) ==> (is_object_id_text(id_text@) ==> (!(user.access_level matches Some(a) && a
            > caller_level) ==> (user.password matches Some(p) ==> (service_hash(salt@, p@) matches Some(
            h,
        ) ==> (r matches Ok(m) && m.password matches Some(x) && x@ == h))))),
        // the empty-change refusal comes only for a change that gives no field
        accepts_body(ADMIN_UPDATE_SCHEMA@, create_json(user)) ==> (is_object_id_text(id_text@) ==> (r matches Err(rep) ==> (is_issue(
            rep,
            Status::BadRequest,
            "At least one field must be provided"@,
        ) ==> user.first_name is None && user.last_name is None && user.email is None
            && user.password is None && user.access_level is None))),
{
    let json = user.to_json();
    let ghost j = text_of(json);
    assert(j == create_json(user));
    let checked = body_outcome(get_admin_update_schema(), json);
    proof {
        lemma_outcome_decides(checked, ADMIN_UPDATE_SCHEMA@, j);
    }
    update_admin_checked(caller_level, id_text, salt, user, checked)
}

/// As `update_admin_start`, given the outcome `checked` of the body's schema check.
pub fn update_admin_checked(
    caller_level: i32,
    id_text: &str,
    salt: &str,
    user: UserDataUpdateAdmin,
    checked: Option<Result<(), Vec<String>>>,
) -> (r:
    Result<UpdateUserAdmin, Reply>)
    requires
        !salt_decoding_breaks(salt@),
    ensures
        !is_object_id_text(id_text@) ==> (r matches Err(rep) && bad_id(rep)),
        is_object_id_text(id_text@) && !(checked matches Some(Ok(_))) ==> (
        r matches Err(rep) && refuses(rep, checked)),
        is_object_id_text(id_text@) && (checked matches Some(Ok(_)))
            ==> if !(names_a_field(user.first_name, user.last_name, user.email, user.password)
            || user.access_level is Some) {
            r matches Err(rep) && is_issue(
                rep,
                Status::BadRequest,
                "At least one field must be provided"@,
            )
        } else if (user.access_level matches Some(a) && a > caller_level) {
            r matches Err(rep) && is_issue(
                rep,
                Status::Unauthorized,
                "You can not promote user to higher access level than yours"@,
            )
        } else {
            match user.password {
                Some(p) if service_hash(salt@, p@) is None => r matches Err(rep) && is_issue(
                    rep,
                    Status::Unauthorized,
                    "something went wrong"@,
                ),
                _ => r matches Ok(m) && m._id.bytes@ == object_id_bytes(id_text@) && m.first_name
                    == user.first_name && m.last_name == user.last_name && m.email == user.email
                    && m.access_level == user.access_level && match user.password {
                    Some(p) => m.password matches Some(x) && service_hash(salt@, p@) == Some(
                        x@,
                    ),
                    None => m.password is None,
                },
            }
        },
        // no user is promoted above the caller's level, and a change names a field
        r matches Ok(m) ==> (m.access_level matches Some(a) ==> a <= caller_level),
        r matches Ok(m) ==> names_a_field(m.first_name, m.last_name, m.email, m.password)
            || m.access_level is Some,
        // a new password is a change: unless the level is refused, it is hashed and written
        (checked matches Some(Ok(_))) ==> (is_object_id_text(id_text@) ==> (!(user.access_level matches Some(a) && a
            > caller_level) ==> (user.password matches Some(p) ==> (service_hash(salt@, p@) matches Some(
            h,
        ) ==> (r matches Ok(m) && m.password matches Some(x) && x@ == h))))),
        // the empty-change refusal comes only for a change that gives no field
        (checked matches Some(Ok(_))) ==> (is_object_id_text(id_text@) ==> (r matches Err(rep) ==> (is_issue(
            rep,
            Status::BadRequest,
            "At least one field must be provided"@,
        ) ==> user.first_name is None && user.last_name is None && user.email is None
            && user.password is None && user.access_level is None))),
{
    let id = match ObjectId::parse_str(id_text) {
        Some(id) => id,
        None => {
            return Err(issue_reply(Status::BadRequest, "Bad user ID"));
        },
    };
    if let Some(rep) = refusal(checked) {
        return Err(rep);
    }
    if !(user.email.is_some() || user.first_name.is_some() || user.last_name.is_some()
        || user.access_level.is_some() || user.password.is_some()) {
        return Err(issue_reply(Status::BadRequest, "At least one field must be provided"));
    }
    if let Some(a) = user.access_level {
        if a > caller_level {
            return Err(
                issue_reply(
                    Status::Unauthorized,
                    "You can not promote user to higher access level than yours",
                ),
            );
        }
    }
    let hashed = match hashed_if_given(salt, user.password) {
        Ok(h) => h,
        Err(_) => {
            return Err(issue_reply(Status::Unauthorized, "something went wrong"));
        },
    };
    Ok(
        UpdateUserAdmin {
            _id: id,
            first_name: user.first_name,
            last_name: user.last_name,
            email: user.email,
            password: hashed,
            access_level: user.access_level,
        },
    )

}

/// The reply to an administrator's change from the store's answer.
pub fn update_admin_done(updated: Result<Result<Result<(), ()>, String>, ()>) -> (r: Reply)
    ensures
        write_reply(r, updated, "User was updated successfully"@, Status::BadRequest, false),
{
    write_done(updated, "User was updated successfully", Status::BadRequest, false)
}

/// The first step of a user's change of their own account: the body's
/// schema check, the refusal of an empty change, a new password hashed with
/// the service's salt, then the change.
pub fn update_start(id_text: &str, salt: &str, user: UserDataUpdate) -> (r: Result<UpdateUser, Reply>)
    requires
        is_object_id_text(id_text@),
        !salt_decoding_breaks(salt@),
    ensures
        !accepts_body(UPDATE_SCHEMA@, update_json(user)) ==> (r matches Err(rep) && rejects_body(
            rep,
            UPDATE_SCHEMA@,
            update_json(user),
        )),
        accepts_body(UPDATE_SCHEMA@, update_json(user)) ==> if !names_a_field(
            user.first_name,
            user.last_name,
            user.email,
            user.password,
        ) {
            r matches Err(rep) && is_issue(
                rep,
                Status::BadRequest,
                "At least one field must be provided"@,
            )
        } else {
            match user.password {
                Some(p) if service_hash(salt@, p@) is None => r matches Err(rep) && is_issue(
                    rep,
                    Status::Unauthorized,
                    "something went wrong"@,
                ),
                _ => r matches Ok(m) && m._id.bytes@ == object_id_bytes(id_text@) && m.first_name
                    == user.first_name && m.last_name == user.last_name && m.email == user.email
                    && match user.password {
                    Some(p) => m.password matches Some(x) && service_hash(salt@, p@) == Some(
                        x@,
                    ),
                    None => m.password is None,
                },
            }
        },
        // a change names a field
        r matches Ok(m) ==> names_a_field(m.first_name, m.last_name, m.email, m.password),
        // a new password is a change: it is hashed and written
        accepts_body(UPDATE_SCHEMA@, update_json(user)) ==> (is_object_id_text(id_text@) ==> (user.password matches Some(p) ==> (service_hash(salt@, p@) matches Some(h)
            ==> (r matches Ok(m) && m.password matches Some(x) && x@ == h)))),
        // the empty-change refusal comes only for a change that gives no field
        accepts_body(UPDATE_SCHEMA@, update_json(user)) ==> (r matches Err(rep) ==> (is_issue(
            rep,
            Status::BadRequest,
            "At least one field must be provided"@,
        ) ==> user.first_name is None && user.last_name is None && user.email is None
            && user.password is None)),
{
    let json = user.to_json();
    let ghost j = text_of(json);
    assert(j == update_json(user));
    let checked = body_outcome(get_update_schema(), json);
    proof {
        lemma_outcome_decides(checked, UPDATE_SCHEMA@, j);
    }
    update_checked(id_text, salt, user, checked)
}

/// As `update_start`, given the outcome `checked` of the body's schema check.
pub fn update_checked(
    id_text: &str,
    salt: &str,
    user: UserDataUpdate,
    checked: Option<Result<(), Vec<String>>>,
) -> (r: Result<UpdateUser, Reply>)
    requires
        is_object_id_text(id_text@),
        !salt_decoding_breaks(salt@),
    ensures
        !(checked matches Some(Ok(_))) ==> (r matches Err(rep) && refuses(rep, checked)),
        (checked matches Some(Ok(_))) ==> if !names_a_field(
            user.first_name,
            user.last_name,
            user.email,
            user.password,
        ) {
            r matches Err(rep) && is_issue(
                rep,
                Status::BadRequest,
                "At least one field must be provided"@,
            )
        } else {
            match user.password {
                Some(p) if service_hash(salt@, p@) is None => r matches Err(rep) && is_issue(
                    rep,
                    Status::Unauthorized,
                    "something went wrong"@,
                ),
                _ => r matches Ok(m) && m._id.bytes@ == object_id_bytes(id_text@) && m.first_name
                    == user.first_name && m.last_name == user.last_name && m.email == user.email
                    && match user.password {
                    Some(p) => m.password matches Some(x) && service_hash(salt@, p@) == Some(
                        x@,
                    ),
                    None => m.password is None,
                },
            }
        },
        // a change names a field
        r matches Ok(m) ==> names_a_field(m.first_name, m.last_name, m.email, m.password),
        // a new password is a change: it is hashed and written
        (checked matches Some(Ok(_))) ==> (is_object_id_text(id_text@) ==> (user.password matches Some(p) ==> (service_hash(salt@, p@) matches Some(h)
            ==> (r matches Ok(m) && m.password matches Some(x) && x@ == h)))),
        // the empty-change refusal comes only for a change that gives no field
        (checked matches Some(Ok(_))) ==> (r matches Err(rep) ==> (is_issue(
            rep,
            Status::BadRequest,
            "At least one field must be provided"@,
        ) ==> user.first_name is None && user.last_name is None && user.email is None
            && user.password is None)),
{
    let id = match ObjectId::parse_str(id_text) {
        Some(id) => id,
        None => ObjectId { bytes: [0u8; 12] },
    };
    if let Some(rep) = refusal(checked) {
        return Err(rep);
    }
    if !(user.email.is_some() || user.first_name.is_some() || user.last_name.is_some()
        || user.password.is_some()) {
        return Err(issue_reply(Status::BadRequest, "At least one field must be provided"));
    }
    let hashed = match hashed_if_given(salt, user.password) {
        Ok(h) => h,
        Err(_) => {
            return Err(issue_reply(Status::Unauthorized, "something went wrong"));
        },
    };
    Ok(
        UpdateUser {
            _id: id,
            first_name: user.first_name,
            last_name: user.last_name,
            email: user.email,
            password: hashed,
        },
    )

}

/// The reply to a user's change of their own account.
pub fn update_done(updated: Result<Result<Result<(), ()>, String>, ()>) -> (r: Reply)
    ensures
        write_reply(r, updated, "Your account was updated successfully"@, Status::BadRequest, false),
{
    write_done(updated, "Your account was updated successfully", Status::BadRequest, false)
}

} // verus!
