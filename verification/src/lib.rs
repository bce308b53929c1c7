//! Authentication and user-management service logic: access control over
//! protected resources, token issuance and verification, password hashing,
//! user records and the request-handling decisions of the HTTP and gRPC
//! front ends.  The network, database and cache sit outside this crate; the
//! functions here decide what to ask of them and what to answer.

pub mod text;
pub mod object_id;
pub mod passwords;
pub mod clock;
pub mod resources;
pub mod store;
pub mod users;
pub mod cache;
pub mod tokens;
pub mod rbac;
pub mod grpc;
pub mod validation;
pub mod requests;
pub mod schemas;
pub mod replies;
pub mod auth_api;
pub mod users_api;
pub mod bootstrap;
