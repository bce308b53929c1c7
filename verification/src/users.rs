//! User records, the messages that read and change them, and the store's
//! decisions on those messages.

use vstd::prelude::*;
use crate::clock::{Instant, current_time, is_clock_reading};
use crate::object_id::ObjectId;
use crate::text::surround;

verus! {

/// How a listing compares a user's access level with the given one.
#[derive(PartialEq, Eq, Clone, Copy, Debug, Structural)]
pub enum CompareType {
    EQ,
    LTE,
    GTE,
    LT,
    GT,
}

/// Request to register a user.
#[derive(Debug)]
pub struct CreateUser {
    pub first_name: String,
    pub last_name: String,
    pub email: String,
    pub password: String,
    pub access_level: i32,
}

/// Request of a user to change their own record.
#[derive(Debug)]
pub struct UpdateUser {
    pub _id: ObjectId,
    pub first_name: Option<String>,
    pub last_name: Option<String>,
    pub email: Option<String>,
    pub password: Option<String>,
}

/// Request of an administrator to change a user's record.
#[derive(Debug)]
pub struct UpdateUserAdmin {
    pub _id: ObjectId,
    pub first_name: Option<String>,
    pub last_name: Option<String>,
    pub email: Option<String>,
    pub password: Option<String>,
    pub access_level: Option<i32>,
}

/// Request to delete a user.
#[derive(Debug)]
pub struct DeleteUser {
    pub _id: ObjectId,
}

/// Request for the live user with an email address.
#[derive(Debug)]
pub struct GetUser {
    pub email: String,
}

/// Request for the live user with an identifier.
#[derive(Debug)]
pub struct GetUserWithId {
    pub _id: ObjectId,
}

/// Request for a page of live users matching a filter.
#[derive(Debug)]
pub struct GetUsersWithFilter {
    pub email: Option<String>,
    pub first_name: Option<String>,
    pub last_name: Option<String>,
    pub access_level: Option<(i32, CompareType)>,
    pub skip: u64,
    pub limit: i64,
}

/// Request for the number of live users matching a filter.
#[derive(Debug)]
pub struct CountUsersWithFilter {
    pub email: Option<String>,
    pub first_name: Option<String>,
    pub last_name: Option<String>,
    pub access_level: Option<(i32, CompareType)>,
}

/// A stored user without the password hash.
#[derive(Debug)]
pub struct PasswordlessUsers {
    pub _id: ObjectId,
    pub first_name: String,
    pub last_name: String,
    pub email: String,
    pub access_level: i32,
    pub creation_date: Instant,
    pub is_deleted: bool,
}

/// A stored user.
#[derive(Debug)]
pub struct Users {
    pub _id: ObjectId,
    pub first_name: String,
    pub last_name: String,
    pub email: String,
    pub password: String,
    pub access_level: i32,
    pub creation_date: Instant,
    pub is_deleted: bool,
}

impl Users {
    /// The record of a newly registered user: the request's fields, not
    /// deleted, with the given identifier and creation time.
    pub fn created(create_user: CreateUser, id: ObjectId, at: Instant) -> (r: Users)
        ensures
            r._id == id,
            r.first_name == create_user.first_name,
            r.last_name == create_user.last_name,
            r.email == create_user.email,
            r.password == create_user.password,
            r.access_level == create_user.access_level,
            r.creation_date == at,
            !r.is_deleted,
    {
        Users {
            _id: id,
            first_name: create_user.first_name,
            last_name: create_user.last_name,
            email: create_user.email,
            password: create_user.password,
            access_level: create_user.access_level,
            is_deleted: false,
            creation_date: at,
        }
    }

    /// The record of a newly registered user, with a fresh identifier and
    /// the current time as creation time.
    pub fn new(create_user: CreateUser) -> (r: Users)
        ensures
            r.first_name == create_user.first_name,
            r.last_name == create_user.last_name,
            r.email == create_user.email,
            r.password == create_user.password,
            r.access_level == create_user.access_level,
            is_clock_reading(r.creation_date),
            !r.is_deleted,
    {
        let id = ObjectId::generate();
        let at = current_time();
        Users::created(create_user, id, at)
    }
}

/// The record `u` without its password hash.
pub open spec fn passwordless_of(u: Users) -> PasswordlessUsers {
    PasswordlessUsers {
        _id: u._id,
        first_name: u.first_name,
        last_name: u.last_name,
        email: u.email,
        access_level: u.access_level,
        creation_date: u.creation_date,
        is_deleted: u.is_deleted,
    }
}

/// A user shown without the password hash is the stored record field for
/// field: the same identifier, names, email address, access level, creation
/// time and deletion mark.
pub proof fn law_passwordless_keeps_fields(u: Users)
    ensures
        passwordless_of(u)._id == u._id,
        passwordless_of(u).first_name == u.first_name,
        passwordless_of(u).last_name == u.last_name,
        passwordless_of(u).email == u.email,
        passwordless_of(u).access_level == u.access_level,
        passwordless_of(u).creation_date == u.creation_date,
        passwordless_of(u).is_deleted == u.is_deleted,
{
}

/// The record without its password hash, as replies show a user.
pub fn passwordless(u: Users) -> (r: PasswordlessUsers)
    ensures
        r == passwordless_of(u),
        r._id == u._id,
        r.first_name == u.first_name,
        r.last_name == u.last_name,
        r.email == u.email,
        r.access_level == u.access_level,
        r.creation_date == u.creation_date,
        r.is_deleted == u.is_deleted,
{
    PasswordlessUsers {
        _id: u._id,
        first_name: u.first_name,
        last_name: u.last_name,
        email: u.email,
        access_level: u.access_level,
        creation_date: u.creation_date,
        is_deleted: u.is_deleted,
    }
}

/// The fields that a user's update writes.
#[derive(Debug)]
pub struct UserChanges {
    pub first_name: String,
    pub last_name: String,
    pub email: String,
    pub password: String,
}

/// The fields that an administrator's update writes.
#[derive(Debug)]
pub struct UserChangesAdmin {
    pub first_name: String,
    pub last_name: String,
    pub email: String,
    pub password: String,
    pub access_level: i32,
}

/// The given value, or the current one where none is given.
pub open spec fn given_or(given: Option<String>, current: String) -> Seq<char> {
    match given {
        Some(v) => v@,
        None => current@,
    }
}

/// In a change, a given value replaces the stored one and an absent value
/// keeps it.
pub proof fn law_given_value_wins(v: String, current: String)
    ensures
        given_or(Some(v), current) == v@,
        given_or(None, current) == current@,
{
}

fn string_or(given: &Option<String>, current: &String) -> (r: String)
    ensures
        r@ == given_or(*given, *current),
{
    match given {
        Some(v) => v.clone(),
        None => current.clone(),
    }
}

impl UpdateUser {
    /// The fields written for this request on the user's current record:
    /// each given field replaces the stored one, the others stay.
    pub fn changes(&self, current: &Users) -> (r: UserChanges)
        ensures
            r.first_name@ == given_or(self.first_name, current.first_name),
            r.last_name@ == given_or(self.last_name, current.last_name),
            r.email@ == given_or(self.email, current.email),
            r.password@ == given_or(self.password, current.password),
    {
        UserChanges {
            first_name: string_or(&self.first_name, &current.first_name),
            last_name: string_or(&self.last_name, &current.last_name),
            email: string_or(&self.email, &current.email),
            password: string_or(&self.password, &current.password),
        }
    }
}

impl UpdateUserAdmin {
    /// The fields written for this request on the user's current record:
    /// each given field replaces the stored one, the others stay.
    pub fn changes(&self, current: &Users) -> (r: UserChangesAdmin)
        ensures
            r.first_name@ == given_or(self.first_name, current.first_name),
            r.last_name@ == given_or(self.last_name, current.last_name),
            r.email@ == given_or(self.email, current.email),
            r.password@ == given_or(self.password, current.password),
            r.access_level == match self.access_level {
                Some(a) => a,
                None => current.access_level,
            },
    {
        UserChangesAdmin {
            first_name: string_or(&self.first_name, &current.first_name),
            last_name: string_or(&self.last_name, &current.last_name),
            email: string_or(&self.email, &current.email),
            password: string_or(&self.password, &current.password),
            access_level: match self.access_level {
                Some(a) => a,
                None => current.access_level,
            },
        }
    }
}

/// Decision on a registration, given whether a live user already holds the
/// email address: a record to insert, or the reason for refusing.  A failed
/// lookup does not stop the registration.
pub fn create_user_outcome(create_user: CreateUser, email_taken: Result<bool, ()>) -> (r: Result<
    Users,
    String,
>)
    ensures
        email_taken == Ok::<bool, ()>(true) <==> r is Err,
        r matches Err(e) ==> e@ == "User already exists."@,
        r matches Ok(u) ==> u.first_name == create_user.first_name && u.last_name
            == create_user.last_name && u.email == create_user.email && u.password
            == create_user.password && u.access_level == create_user.access_level
            && !u.is_deleted,
        // the new record is stamped with a reading of the clock
        r matches Ok(u) ==> is_clock_reading(u.creation_date),
{
    match email_taken {
        Ok(true) => Err(String::from_str("User already exists.")),
        _ => Ok(Users::new(create_user)),
    }
}

/// Decision on an update, given the lookup of the user to change.
pub fn user_to_update(found: Result<Option<Users>, ()>) -> (r: Result<Users, String>)
    ensures
        match found {
            Ok(Some(u)) => r == Ok::<Users, String>(u),
            _ => r matches Err(e) && e@ == "User does not exist."@,
        },
{
    match found {
        Ok(Some(u)) => Ok(u),
        _ => Err(String::from_str("User does not exist.")),
    }
}

/// Decision on an update that changes the email address, given whether a
/// live user already holds the new address.  A failed lookup does not stop
/// the update.
pub fn new_email_outcome(email_taken: Result<bool, ()>) -> (r: Result<(), String>)
    ensures
        email_taken == Ok::<bool, ()>(true) <==> r is Err,
        r matches Err(e) ==> e@ == "Email already exists."@,
{
    match email_taken {
        Ok(true) => Err(String::from_str("Email already exists.")),
        _ => Ok(()),
    }
}

/// Decision on a deletion, given whether the user is live: mark the user
/// deleted, or refuse.
pub fn delete_user_outcome(found: Result<bool, ()>) -> (r: Result<(), String>)
    ensures
        found == Ok::<bool, ()>(true) <==> r is Ok,
        r matches Err(e) ==> e@ == "User does not exist."@,
{
    match found {
        Ok(true) => Ok(()),
        _ => Err(String::from_str("User does not exist.")),
    }
}

// ---------------------------------------------------------------------------
// Live users keep distinct email addresses
/// Whether a live user (one not marked deleted) of `us` holds the email
/// address `e`; each user is seen as its email address and deletion mark.
pub open spec fn has_live_email(us: Seq<(Seq<char>, bool)>, e: Seq<char>) -> bool {
    exists|i: int| 0 <= i < us.len() && !us[i].1 && #[trigger] us[i].0 == e
}

/// Whether no two live users of `us` share an email address.
pub open spec fn live_emails_distinct(us: Seq<(Seq<char>, bool)>) -> bool {
    forall|i: int, j: int|
        0 <= i < us.len() && 0 <= j < us.len() && i != j && !us[i].1 && !us[j].1 ==> #[trigger] us[i].0
            != #[trigger] us[j].0
}

/// A registration that `create_user_outcome` admits on a lookup that
/// answered truly (`taken` tells whether a live user holds the address)
/// keeps live users' email addresses distinct.
pub proof fn law_registration_keeps_emails_distinct(
    us: Seq<(Seq<char>, bool)>,
    email: Seq<char>,
    taken: Result<bool, ()>,
)
    requires
        live_emails_distinct(us),
        taken == Ok::<bool, ()>(has_live_email(us, email)),
        taken != Ok::<bool, ()>(true),
    ensures
        live_emails_distinct(us.push((email, false))),
{
    let vs = us.push((email, false));
    assert forall|i: int, j: int|
        0 <= i < vs.len() && 0 <= j < vs.len() && i != j && !vs[i].1 && !vs[j].1 implies #[trigger] vs[i].0
        != #[trigger] vs[j].0 by {
        if i == us.len() as int {
            assert(us[j].0 == vs[j].0);
        } else if j == us.len() as int {
            assert(us[i].0 == vs[i].0);
        } else {
            assert(us[i] == vs[i] && us[j] == vs[j]);
        }
    }
}

/// An update of user `k` that `new_email_outcome` admits on a lookup that
/// answered truly (a new address is looked up among live users, the user's
/// own record included) keeps live users' email addresses distinct.
pub proof fn law_update_keeps_emails_distinct(
    us: Seq<(Seq<char>, bool)>,
    k: int,
    new_email: Option<Seq<char>>,
    taken: Result<bool, ()>,
)
    requires
        live_emails_distinct(us),
        0 <= k < us.len(),
        new_email matches Some(e) ==> taken == Ok::<bool, ()>(has_live_email(us, e)),
        new_email is Some ==> taken != Ok::<bool, ()>(true),
    ensures
        live_emails_distinct(
            us.update(
                k,
                (
                    match new_email {
                        Some(e) => e,
                        None => us[k].0,
                    },
                    us[k].1,
                ),
            ),
        ),
{
    let e = match new_email {
        Some(e) => e,
        None => us[k].0,
    };
    let vs = us.update(k, (e, us[k].1));
    assert forall|i: int, j: int|
        0 <= i < vs.len() && 0 <= j < vs.len() && i != j && !vs[i].1 && !vs[j].1 implies #[trigger] vs[i].0
        != #[trigger] vs[j].0 by {
        if i == k {
            assert(vs[j] == us[j]);
            if new_email is Some {
                assert(!(us[j].0 == e));
            }
        } else if j == k {
            assert(vs[i] == us[i]);
            if new_email is Some {
                assert(!(us[i].0 == e));
            }
        } else {
            assert(vs[i] == us[i] && vs[j] == us[j]);
        }
    }
}

/// Marking user `k` deleted keeps live users' email addresses distinct.
pub proof fn law_deletion_keeps_emails_distinct(us: Seq<(Seq<char>, bool)>, k: int)
    requires
        live_emails_distinct(us),
        0 <= k < us.len(),
    ensures
        live_emails_distinct(us.update(k, (us[k].0, true))),
{
    let vs = us.update(k, (us[k].0, true));
    assert forall|i: int, j: int|
        0 <= i < vs.len() && 0 <= j < vs.len() && i != j && !vs[i].1 && !vs[j].1 implies #[trigger] vs[i].0
        != #[trigger] vs[j].0 by {
        assert(vs[i] == us[i] && vs[j] == us[j]);
    }
}

/// The comparison that a listing's numeric comparison code asks for:
/// 1 greater, 2 greater or equal, 3 less, 4 less or equal, others equal.
pub open spec fn compare_type_of(code: u8) -> CompareType {
    if code == 1 {
        CompareType::GT
    } else if code == 2 {
        CompareType::GTE
    } else if code == 3 {
        CompareType::LT
    } else if code == 4 {
        CompareType::LTE
    } else {
        CompareType::EQ
    }
}

/// The comparison codes of a listing: 1 asks for greater, 2 for greater or
/// equal, 3 for less, 4 for less or equal; these four differ from each other
/// and from equality, and every other code asks for equality.
pub proof fn law_comparison_codes(code: u8)
    ensures
        code == 1 <==> compare_type_of(code) == CompareType::GT,
        code == 2 <==> compare_type_of(code) == CompareType::GTE,
        code == 3 <==> compare_type_of(code) == CompareType::LT,
        code == 4 <==> compare_type_of(code) == CompareType::LTE,
        !(1 <= code <= 4) <==> compare_type_of(code) == CompareType::EQ,
{
}

impl CompareType {
    /// The comparison that a numeric code asks for.
    pub fn from_code(code: u8) -> (r: CompareType)
        ensures
            r == compare_type_of(code),
    {
        match code {
            1 => CompareType::GT,
            2 => CompareType::GTE,
            3 => CompareType::LT,
            4 => CompareType::LTE,
            _ => CompareType::EQ,
        }
    }

    /// The query operator of the comparison.
    pub fn operator(&self) -> (r: &'static str)
        ensures
            r@ == match *self {
                CompareType::EQ => "$eq"@,
                CompareType::GT => "$gt"@,
                CompareType::LT => "$lt"@,
                CompareType::GTE => "$gte"@,
                CompareType::LTE => "$lte"@,
            },
    {
        match self {
            CompareType::EQ => "$eq",
            CompareType::GT => "$gt",
            CompareType::LT => "$lt",
            CompareType::GTE => "$gte",
            CompareType::LTE => "$lte",
        }
    }
}

/// A query on the live users: each present pattern must match the field
/// (as a regular expression), and the access level must compare as given.
#[derive(Debug)]
pub struct UserQuery {
    pub first_name: Option<String>,
    pub last_name: Option<String>,
    pub email: Option<String>,
    pub access_level: Option<(i32, CompareType)>,
}

/// The pattern that matches any text containing `s`.
pub open spec fn containing(s: Seq<char>) -> Seq<char> {
    ".*"@ + s + ".*"@
}

/// The pattern for an optional filter value.
pub open spec fn pattern_for(v: Option<String>) -> Option<Seq<char>> {
    match v {
        Some(s) => Some(containing(s@)),
        None => None,
    }
}

pub open spec fn opt_view(v: Option<String>) -> Option<Seq<char>> {
    match v {
        Some(s) => Some(s@),
        None => None,
    }
}

fn pattern(v: &Option<String>) -> (r: Option<String>)
    ensures
        opt_view(r) == pattern_for(*v),
{
    match v {
        Some(s) => Some(surround(".*", s.as_str(), ".*")),
        None => None,
    }
}

/// The query that a filter describes.
pub fn user_query(
    first_name: &Option<String>,
    last_name: &Option<String>,
    email: &Option<String>,
    access_level: Option<(i32, CompareType)>,
) -> (r: UserQuery)
    ensures
        opt_view(r.first_name) == pattern_for(*first_name),
        opt_view(r.last_name) == pattern_for(*last_name),
        opt_view(r.email) == pattern_for(*email),
        r.access_level == access_level,
{
    UserQuery {
        first_name: pattern(first_name),
        last_name: pattern(last_name),
        email: pattern(email),
        access_level,
    }
}

impl GetUsersWithFilter {
    /// The query on the live users that this request describes.
    pub fn query(&self) -> (r: UserQuery)
        ensures
            opt_view(r.first_name) == pattern_for(self.first_name),
            opt_view(r.last_name) == pattern_for(self.last_name),
            opt_view(r.email) == pattern_for(self.email),
            r.access_level == self.access_level,
    {
        user_query(&self.first_name, &self.last_name, &self.email, self.access_level)
    }
}

impl CountUsersWithFilter {
    /// The query on the live users that this request describes.
    pub fn query(&self) -> (r: UserQuery)
        ensures
            opt_view(r.first_name) == pattern_for(self.first_name),
            opt_view(r.last_name) == pattern_for(self.last_name),
            opt_view(r.email) == pattern_for(self.email),
            r.access_level == self.access_level,
    {
        user_query(&self.first_name, &self.last_name, &self.email, self.access_level)
    }
}

} // verus!
