//! Start-up registration: the protected resources listed in the resource
//! file, and the administrator's account.

use vstd::prelude::*;
use crate::passwords::{hash_password, is_service_salt, service_hash};
use crate::resources::{CreateOrUpdateResource, Method, method_named};
use crate::users::CreateUser;

verus! {

/// Access level of the administrator's account.
pub const ADMIN_ACCESS_LEVEL: i32 = 1000i32;

/// One entry of the resource file.
#[derive(Debug)]
pub struct ResourceEntry {
    pub path: String,
    pub access: i32,
    pub method: String,
}

/// The registration of a resource-file entry; a method name that is none of
/// the nine methods registers under `INVALID`.
pub fn resource_registration(entry: &ResourceEntry) -> (r: CreateOrUpdateResource)
    ensures
        r.path@ == entry.path@,
        r.access == entry.access,
        r.method == method_named(entry.method@),
{
    CreateOrUpdateResource {
        path: entry.path.clone(),
        access: entry.access,
        method: Method::from_name(entry.method.as_str()),
    }
}

/// Whether a registration went through (outer error: not delivered).
pub fn registration_succeeded(reply: Result<Result<(), ()>, ()>) -> (r: bool)
    ensures
        r == (reply matches Ok(Ok(_))),
{
    match reply {
        Ok(Ok(_)) => true,
        _ => false,
    }
}

/// The registration of the administrator, named "admin admin", with the
/// password hashed under the service's salt and access level
/// `ADMIN_ACCESS_LEVEL`.  The salt must be of the service's kind: with any
/// other the password cannot be hashed and the service does not start.
pub fn admin_account(salt: &str, admin_email: &str, admin_password: &str) -> (r: CreateUser)
    requires
        is_service_salt(salt@),
    ensures
        service_hash(salt@, admin_password@) matches Some(h) && r.password@ == h,
        r.first_name@ == "admin"@,
        r.last_name@ == "admin"@,
        r.email@ == admin_email@,
        r.access_level == ADMIN_ACCESS_LEVEL,
{
    let password = match hash_password(salt, String::from_str(admin_password)) {
        Ok(h) => h,
        Err(_) => String::new(),
    };
    CreateUser {
        first_name: String::from_str("admin"),
        last_name: String::from_str("admin"),
        email: String::from_str(admin_email),
        password,
        access_level: ADMIN_ACCESS_LEVEL,
    }
}

/// What the start-up does next.
#[derive(Debug)]
pub enum StartupStep {
    /// Register the resource-file entry at `index`.
    Register { index: usize, message: CreateOrUpdateResource },
    /// Register the administrator's account.
    RegisterAdmin,
    /// Stop: a registration failed.
    Fail,
}

/// The first step of the start-up: the first entry of the resource file, or
/// the administrator where the file lists none.
pub fn first_startup_step(entries: &Vec<ResourceEntry>) -> (r: StartupStep)
    ensures
        entries.len() == 0 ==> r is RegisterAdmin,
        entries.len() > 0 ==> (r matches StartupStep::Register { index, message } && index == 0
            && registers(message, entries@[0])),
{
    if entries.len() == 0 {
        StartupStep::RegisterAdmin
    } else {
        StartupStep::Register { index: 0, message: resource_registration(&entries[0]) }
    }
}

/// Whether `m` is the registration of the resource-file entry `e`.
pub open spec fn registers(m: CreateOrUpdateResource, e: ResourceEntry) -> bool {
    m.path@ == e.path@ && m.access == e.access && m.method == method_named(e.method@)
}

/// The step after the reply to the registration of entry `index`: the first
/// failed reply stops the start-up; otherwise the next entry in file order
/// follows, and after the last one the administrator.
pub fn after_registration(
    entries: &Vec<ResourceEntry>,
    index: usize,
    reply: Result<Result<(), ()>, ()>,
) -> (r: StartupStep)
    requires
        index < entries.len(),
    ensures
        !(reply matches Ok(Ok(_))) ==> r is Fail,
        reply matches Ok(Ok(_)) && index + 1 < entries.len() ==> (r matches StartupStep::Register {
            index: next,
            message,
        } && next == index + 1 && registers(message, entries@[index + 1])),
        reply matches Ok(Ok(_)) && index + 1 == entries.len() ==> r is RegisterAdmin,
{
    if !registration_succeeded(reply) {
        StartupStep::Fail
    } else if index + 1 < entries.len() {
        StartupStep::Register {
            index: index + 1,
            message: resource_registration(&entries[index + 1]),
        }
    } else {
        StartupStep::RegisterAdmin
    }
}

/// The outcome of the administrator's registration: an account that exists
/// already is fine; an undelivered message fails the start-up.
pub fn admin_registration_outcome(reply: Result<Result<Result<(), ()>, String>, ()>) -> (r: Result<
    (),
    (),
>)
    ensures
        r is Ok <==> (reply matches Ok(Ok(Ok(_))) || reply matches Ok(Err(_))),
{
    match reply {
        Ok(Ok(Ok(_))) => Ok(()),
        Ok(Err(_)) => Ok(()),
        _ => Err(()),
    }
}

} // verus!
