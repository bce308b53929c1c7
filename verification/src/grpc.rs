//! The decisions of the gRPC authentication service that other services
//! ask: whether a token grants access to a resource, and who a token's user
//! is.

use vstd::prelude::*;
use crate::object_id::{ObjectId, lower_hex};
use crate::resources::{GetResource, Method, Resources, law_request_method_matches_name, method_name, request_method};
use crate::users::{GetUserWithId, Users};

verus! {

/// The HTTP methods of the service's protocol.
#[derive(Debug, Clone, Copy, PartialEq, Eq, Structural)]
pub enum GrpcMethod {
    Get,
    Connect,
    Delete,
    Options,
    Patch,
    Post,
    Put,
    Trace,
}

/// The method that a protocol method (`None` for a code that is none of
/// them) stands for.
pub open spec fn method_of(m: Option<GrpcMethod>) -> Method {
    match m {
        Some(GrpcMethod::Get) => Method::GET,
        Some(GrpcMethod::Connect) => Method::CONNECT,
        Some(GrpcMethod::Delete) => Method::DELETE,
        Some(GrpcMethod::Options) => Method::OPTIONS,
        Some(GrpcMethod::Patch) => Method::PATCH,
        Some(GrpcMethod::Post) => Method::POST,
        Some(GrpcMethod::Put) => Method::PUT,
        Some(GrpcMethod::Trace) => Method::TRACE,
        None => Method::INVALID,
    }
}

/// The HTTP name of a protocol method.
pub open spec fn grpc_method_name(m: GrpcMethod) -> Seq<char> {
    match m {
        GrpcMethod::Get => "GET"@,
        GrpcMethod::Connect => "CONNECT"@,
        GrpcMethod::Delete => "DELETE"@,
        GrpcMethod::Options => "OPTIONS"@,
        GrpcMethod::Patch => "PATCH"@,
        GrpcMethod::Post => "POST"@,
        GrpcMethod::Put => "PUT"@,
        GrpcMethod::Trace => "TRACE"@,
    }
}

/// Each protocol method stands for the resource method of the same name,
/// so that an access question over the protocol looks up the resource that
/// an HTTP request with that method addresses; a code that is none of the
/// protocol's methods stands for `INVALID`.
pub proof fn law_grpc_method_same_name(m: GrpcMethod)
    ensures
        method_name(method_of(Some(m))) == grpc_method_name(m),
        method_of(Some(m)) == request_method(grpc_method_name(m)),
        method_of(None) == Method::INVALID,
{
    law_request_method_matches_name(method_of(Some(m)));
}

/// The method that a protocol method stands for.
pub fn grpc_method(m: Option<GrpcMethod>) -> (r: Method)
    ensures
        r == method_of(m),
{
    match m {
        Some(GrpcMethod::Get) => Method::GET,
        Some(GrpcMethod::Connect) => Method::CONNECT,
        Some(GrpcMethod::Delete) => Method::DELETE,
        Some(GrpcMethod::Options) => Method::OPTIONS,
        Some(GrpcMethod::Patch) => Method::PATCH,
        Some(GrpcMethod::Post) => Method::POST,
        Some(GrpcMethod::Put) => Method::PUT,
        Some(GrpcMethod::Trace) => Method::TRACE,
        None => Method::INVALID,
    }
}

/// Kinds of error that the service answers with.
#[derive(Debug, Clone, Copy, PartialEq, Eq, Structural)]
pub enum GrpcCode {
    InvalidArgument,
    Internal,
}

/// An error answer.
#[derive(Debug)]
pub struct GrpcStatus {
    pub code: GrpcCode,
    pub message: String,
}

/// Whether `s` is the error of kind `code` with message `message`.
pub open spec fn is_status(s: GrpcStatus, code: GrpcCode, message: Seq<char>) -> bool {
    s.code == code && s.message@ == message
}

fn status(code: GrpcCode, message: &str) -> (r: GrpcStatus)
    ensures
        is_status(r, code, message@),
{
    GrpcStatus { code, message: String::from_str(message) }
}

/// The first decision of an access question: the resource lookup to make,
/// or the refusal of a method that is none of the protocol's or of an empty
/// path.
pub fn has_access_begin(method: Option<GrpcMethod>, path: &str) -> (r: Result<
    GetResource,
    GrpcStatus,
>)
    ensures
        method is None ==> (r matches Err(s) && is_status(
            s,
            GrpcCode::InvalidArgument,
            "Invalid method"@,
        )),
        method is Some && path@.len() == 0 ==> (r matches Err(s) && is_status(
            s,
            GrpcCode::InvalidArgument,
            "Empty path"@,
        )),
        method is Some && path@.len() != 0 ==> (r matches Ok(g) && g.method == method_of(method)
            && g.path@ == path@),
{
    let m = grpc_method(method);
    if m == Method::INVALID {
        return Err(status(GrpcCode::InvalidArgument, "Invalid method"));
    } else if path.unicode_len() == 0 {
        return Err(status(GrpcCode::InvalidArgument, "Empty path"));
    }
    Ok(GetResource { path: String::from_str(path), method: m })
}

/// What an access question does after the resource lookup.
#[derive(Debug)]
pub enum HasAccessStep {
    /// The answer.
    Answer(Result<bool, GrpcStatus>),
    /// Verify the token and compare its level with `required`.
    Verify { token: String, required: i32 },
}

/// The step after the resource lookup: a resource of positive level needs
/// the token verified; any other registered resource is open; an
/// unregistered one is closed; a failed lookup is an internal error.
pub fn has_access_on_resource(found: Result<Result<Resources, u8>, ()>, jwt: String) -> (r:
    HasAccessStep)
    ensures
        match found {
            Ok(Ok(res)) => if res.access > 0 {
                r == HasAccessStep::Verify { token: jwt, required: res.access }
            } else {
                r matches HasAccessStep::Answer(Ok(true))
            },
            Ok(Err(c)) => if c == 0 {
                r matches HasAccessStep::Answer(Ok(false))
            } else {
                r matches HasAccessStep::Answer(Err(s)) && is_status(
                    s,
                    GrpcCode::Internal,
                    "Something went wrong."@,
                )
            },
            Err(_) => r matches HasAccessStep::Answer(Err(s)) && is_status(
                s,
                GrpcCode::Internal,
                "Something went wrong."@,
            ),
        },
{
    match found {
        Ok(Ok(res)) => {
            if res.access > 0 {
                HasAccessStep::Verify { token: jwt, required: res.access }
            } else {
                HasAccessStep::Answer(Ok(true))
            }
        },
        Ok(Err(c)) => {
            if c == 0 {
                HasAccessStep::Answer(Ok(false))
            } else {
                HasAccessStep::Answer(Err(status(GrpcCode::Internal, "Something went wrong.")))
            }
        },
        Err(_) => HasAccessStep::Answer(Err(status(GrpcCode::Internal, "Something went wrong."))),
    }
}

/// The answer after the token's verification: access exactly where the
/// token's level is at least the resource's.
pub fn has_access_on_verification(required: i32, verified: Result<(String, i32), ()>) -> (r:
    Result<bool, GrpcStatus>)
    ensures
        r == Ok::<bool, GrpcStatus>(verified matches Ok((_, level)) && level >= required),
{
    match verified {
        Ok((_, level)) => Ok(level >= required),
        Err(_) => Ok(false),
    }
}

/// A user as the service describes one.
#[derive(Debug)]
pub struct GrpcUser {
    pub id: String,
    pub first_name: String,
    pub last_name: String,
    pub email: String,
    pub access_level: i32,
}

/// The user lookup for a token's user, or the refusal of a token that does
/// not name one.
pub fn get_user_on_token(user_id: Result<ObjectId, ()>) -> (r: Result<GetUserWithId, GrpcStatus>)
    ensures
        match user_id {
            Ok(id) => r matches Ok(g) && g._id == id,
            Err(_) => r matches Err(s) && is_status(s, GrpcCode::InvalidArgument, "Invalid jwt"@),
        },
{
    match user_id {
        Ok(id) => Ok(GetUserWithId { _id: id }),
        Err(_) => Err(status(GrpcCode::InvalidArgument, "Invalid jwt")),
    }
}

/// The answer from the user lookup: the user (identifier as lower-case
/// hexadecimal), an invalid token for a user that is not live, an internal
/// error for a failed lookup.
pub fn get_user_reply(found: Result<Result<Users, u8>, ()>) -> (r: Result<GrpcUser, GrpcStatus>)
    ensures
        match found {
            Ok(Ok(u)) => r matches Ok(g) && g.id@ == lower_hex(u._id.bytes@) && g.first_name
                == u.first_name && g.last_name == u.last_name && g.email == u.email
                && g.access_level == u.access_level,
            Ok(Err(c)) => if c == 0 {
                r matches Err(s) && is_status(s, GrpcCode::InvalidArgument, "Invalid jwt"@)
            } else {
                r matches Err(s) && is_status(s, GrpcCode::Internal, "Something went wrong"@)
            },
            Err(_) => r matches Err(s) && is_status(s, GrpcCode::Internal, "Something went wrong"@),
        },
{
    match found {
        Ok(Ok(u)) => Ok(
            GrpcUser {
                id: u._id.to_hex(),
                first_name: u.first_name,
                last_name: u.last_name,
                email: u.email,
                access_level: u.access_level,
            },
        ),
        Ok(Err(c)) => {
            if c == 0 {
                Err(status(GrpcCode::InvalidArgument, "Invalid jwt"))
            } else {
                Err(status(GrpcCode::Internal, "Something went wrong"))
            }
        },
        Err(_) => Err(status(GrpcCode::Internal, "Something went wrong")),
    }
}

} // verus!
