//! The decisions of the authentication routes: sign-in, sign-up, sign-out
//! and token refresh.  Each route starts from its request, hands the store
//! or the cache a message, and ends with the reply that their answers call
//! for.

use vstd::prelude::*;
use crate::cache::DelTokenPair;
use crate::object_id::lower_hex;
use crate::passwords::{
    bcrypt_accepts, service_hash, bcrypt_verify_breaks, hash_password, salt_decoding_breaks,
    verify_password,
};
use crate::replies::{
    Body, Reply, Status, accepts_body, body_outcome, lemma_outcome_decides, refusal, refuses, is_issue, is_message, is_notice,
    issue_reply, issues_reply, message_reply, notice_reply, rejects_body, text_of, unreadable,
    unreadable_reply, went_wrong, went_wrong_reply, texts,
};
use crate::requests::{
    UserDataRefresh, UserDataSignIn, UserDataSignOut, UserDataSignUp, refresh_token_json,
    sign_in_json, sign_up_json,
};
use crate::schemas::{
    REFRESH_SCHEMA, SIGN_IN_SCHEMA, SIGN_OUT_SCHEMA, SIGN_UP_SCHEMA, get_refresh_schema,
    get_sign_in_schema, get_sign_out_schema, get_sign_up_schema,
};
use crate::tokens::revoke_token_request;
use crate::users::{CreateUser, GetUser, Users};

verus! {

/// Access level of a user who signs up.
pub const SIGN_UP_ACCESS_LEVEL: i32 = 1i32;

/// The reply that carries an issued pair, or an internal failure.
pub fn tokens_reply(issued: Result<(String, String), ()>) -> (r: Reply)
    ensures
        match issued {
            Ok((a, f)) => r.status == Status::Success && r.body == Body::Tokens {
                access_token: a,
                refresh_token: f,
            },
            Err(_) => went_wrong(r),
        },
{
    match issued {
        Ok((a, f)) => Reply {
            status: Status::Success,
            body: Body::Tokens { access_token: a, refresh_token: f },
        },
        Err(_) => went_wrong_reply(),
    }
}

// ---------------------------------------------------------------------------
/// What a sign-in does first.
#[derive(Debug)]
pub enum SignInStart {
    Reply(Reply),
    /// Look the user up by email address, then check `password`.
    Lookup { lookup: GetUser, password: String },
}

/// The first step of a sign-in: the body's schema check, then the lookup of
/// the user by email address.
pub fn sign_in_start(user: UserDataSignIn) -> (r: SignInStart)
    ensures
        !accepts_body(SIGN_IN_SCHEMA@, sign_in_json(user)) ==> (r matches SignInStart::Reply(rep)
            && rejects_body(rep, SIGN_IN_SCHEMA@, sign_in_json(user))),
        accepts_body(SIGN_IN_SCHEMA@, sign_in_json(user)) ==> match (user.email, user.password) {
            (Some(e), Some(p)) => r == SignInStart::Lookup { lookup: GetUser { email: e }, password: p },
            _ => r matches SignInStart::Reply(rep) && unreadable(rep),
        },
{
    let json = user.to_json();
    let ghost j = text_of(json);
    assert(j == sign_in_json(user));
    let checked = body_outcome(get_sign_in_schema(), json);
    proof {
        lemma_outcome_decides(checked, SIGN_IN_SCHEMA@, j);
    }
    sign_in_checked(user, checked)
}

/// As `sign_in_start`, given the outcome `checked` of the body's schema check.
pub fn sign_in_checked(
    user: UserDataSignIn,
    checked: Option<Result<(), Vec<String>>>,
) -> (r: SignInStart)
    ensures
        !(checked matches Some(Ok(_))) ==> (r matches SignInStart::Reply(rep)
            && refuses(rep, checked)),
        (checked matches Some(Ok(_))) ==> match (user.email, user.password) {
            (Some(e), Some(p)) => r == SignInStart::Lookup { lookup: GetUser { email: e }, password: p },
            _ => r matches SignInStart::Reply(rep) && unreadable(rep),
        },
{
    match refusal(checked) {
        Some(rep) => SignInStart::Reply(rep),
        None => match (user.email, user.password) {
            (Some(e), Some(p)) => SignInStart::Lookup { lookup: GetUser { email: e }, password: p },
            _ => SignInStart::Reply(unreadable_reply()),
        },
    }

}

/// What a sign-in does after the lookup.
#[derive(Debug)]
pub enum SignInLookup {
    Reply(Reply),
    /// Issue a pair of tokens to the user.
    Issue { user_id: String, level: i32 },
}

/// The step after the user lookup: a matching password leads to a pair of
/// tokens for the user's identifier (lower-case hexadecimal) and access
/// level; a wrong password and an unknown email address get the same
/// refusal.
pub fn sign_in_lookup(password: String, found: Result<Result<Users, u8>, ()>) -> (r: SignInLookup)
    requires
        found matches Ok(Ok(u)) ==> !bcrypt_verify_breaks(u.password@),
    ensures
        match found {
            Ok(Ok(u)) => if bcrypt_accepts(password@, u.password@) {
                r matches SignInLookup::Issue { user_id, level } && user_id@ == lower_hex(
                    u._id.bytes@,
                ) && level == u.access_level
            } else {
                r matches SignInLookup::Reply(rep) && is_issue(
                    rep,
                    Status::Unauthorized,
                    "wrong password or email"@,
                )
            },
            Ok(Err(c)) => if c == 0 {
                r matches SignInLookup::Reply(rep) && is_issue(
                    rep,
                    Status::Unauthorized,
                    "wrong password or email"@,
                )
            } else {
                r matches SignInLookup::Reply(rep) && went_wrong(rep)
            },
            Err(_) => r matches SignInLookup::Reply(rep) && went_wrong(rep),
        },
{
    match found {
        Ok(Ok(u)) => {
            if verify_password(u.password, password) {
                SignInLookup::Issue { user_id: u._id.to_hex(), level: u.access_level }
            } else {
                SignInLookup::Reply(issue_reply(Status::Unauthorized, "wrong password or email"))
            }
        },
        Ok(Err(c)) => {
            if c == 0 {
                SignInLookup::Reply(issue_reply(Status::Unauthorized, "wrong password or email"))
            } else {
                SignInLookup::Reply(went_wrong_reply())
            }
        },
        Err(_) => SignInLookup::Reply(went_wrong_reply()),
    }
}

// ---------------------------------------------------------------------------
/// The first step of a sign-up: the body's schema check, then the password
/// hashed with the service's salt, then the registration of a user with
/// access level `SIGN_UP_ACCESS_LEVEL`.
pub fn sign_up_start(salt: &str, user: UserDataSignUp) -> (r: Result<CreateUser, Reply>)
    requires
        !salt_decoding_breaks(salt@),
    ensures
        !accepts_body(SIGN_UP_SCHEMA@, sign_up_json(user)) ==> (r matches Err(rep) && rejects_body(
            rep,
            SIGN_UP_SCHEMA@,
            sign_up_json(user),
        )),
        accepts_body(SIGN_UP_SCHEMA@, sign_up_json(user)) ==> match user.password {
            None => r matches Err(rep) && unreadable(rep),
            Some(p) => match service_hash(salt@, p@) {
                None => r matches Err(rep) && is_issue(
                    rep,
                    Status::Unauthorized,
                    "something went wrong"@,
                ),
                Some(h) => match (user.first_name, user.last_name, user.email) {
                    (Some(f), Some(l), Some(e)) => r matches Ok(m) && m.first_name == f
                        && m.last_name == l && m.email == e && m.password@ == h
                        && m.access_level == SIGN_UP_ACCESS_LEVEL,
                    _ => r matches Err(rep) && unreadable(rep),
                },
            },
        },
{
    let json = user.to_json();
    let ghost j = text_of(json);
    assert(j == sign_up_json(user));
    let checked = body_outcome(get_sign_up_schema(), json);
    proof {
        lemma_outcome_decides(checked, SIGN_UP_SCHEMA@, j);
    }
    sign_up_checked(salt, user, checked)
}

/// As `sign_up_start`, given the outcome `checked` of the body's schema check.
pub fn sign_up_checked(
    salt: &str,
    user: UserDataSignUp,
    checked: Option<Result<(), Vec<String>>>,
) -> (r: Result<CreateUser, Reply>)
    requires
        !salt_decoding_breaks(salt@),
    ensures
        !(checked matches Some(Ok(_))) ==> (r matches Err(rep) && refuses(rep, checked)),
        (checked matches Some(Ok(_))) ==> match user.password {
            None => r matches Err(rep) && unreadable(rep),
            Some(p) => match service_hash(salt@, p@) {
                None => r matches Err(rep) && is_issue(
                    rep,
                    Status::Unauthorized,
                    "something went wrong"@,
                ),
                Some(h) => match (user.first_name, user.last_name, user.email) {
                    (Some(f), Some(l), Some(e)) => r matches Ok(m) && m.first_name == f
                        && m.last_name == l && m.email == e && m.password@ == h
                        && m.access_level == SIGN_UP_ACCESS_LEVEL,
                    _ => r matches Err(rep) && unreadable(rep),
                },
            },
        },
{
    if let Some(rep) = refusal(checked) {
        return Err(rep);
    }
    let password = match user.password {
        Some(p) => p,
        None => {
            return Err(unreadable_reply());
        },
    };
    let hashed = match hash_password(salt, password) {
        Ok(h) => h,
        Err(_) => {
            return Err(issue_reply(Status::Unauthorized, "something went wrong"));
        },
    };
    match (user.first_name, user.last_name, user.email) {
        (Some(f), Some(l), Some(e)) => Ok(
            CreateUser {
                first_name: f,
                last_name: l,
                email: e,
                password: hashed,
                access_level: SIGN_UP_ACCESS_LEVEL,
            },
        ),
        _ => Err(unreadable_reply()),
    }

}

/// The reply to a sign-up from the store's answer to the registration
/// (outer error: not delivered; middle error: refused with a reason; inner
/// error: the write failed).
pub fn sign_up_done(created: Result<Result<Result<(), ()>, String>, ()>) -> (r: Reply)
    ensures
        match created {
            Ok(Ok(Ok(_))) => is_message(
                r,
                Status::Success,
                "Your account was created successfully, use login api to get auth token"@,
            ),
            Ok(Err(e)) => is_issue(r, Status::BadRequest, e@),
            _ => went_wrong(r),
        },
{
    match created {
        Ok(Ok(Ok(_))) => message_reply(
            Status::Success,
            "Your account was created successfully, use login api to get auth token",
        ),
        Ok(Err(e)) => issues_reply(Status::BadRequest, e),
        _ => went_wrong_reply(),
    }
}

// ---------------------------------------------------------------------------
/// The first step of a sign-out: the body's schema check, then the
/// revocation of the pair that the refresh token belongs to.
pub fn sign_out_start(token: UserDataSignOut) -> (r: Result<DelTokenPair, Reply>)
    ensures
        !accepts_body(SIGN_OUT_SCHEMA@, refresh_token_json(token.refresh_token)) ==> (r matches Err(
            rep,
        ) && rejects_body(rep, SIGN_OUT_SCHEMA@, refresh_token_json(token.refresh_token))),
        accepts_body(SIGN_OUT_SCHEMA@, refresh_token_json(token.refresh_token)) ==> match token.refresh_token {
            Some(t) => r == Ok::<DelTokenPair, Reply>(DelTokenPair { token: t }),
            None => r matches Err(rep) && unreadable(rep),
        },
{
    let json = token.to_json();
    let ghost j = text_of(json);
    assert(j == refresh_token_json(token.refresh_token));
    let checked = body_outcome(get_sign_out_schema(), json);
    proof {
        lemma_outcome_decides(checked, SIGN_OUT_SCHEMA@, j);
    }
    sign_out_checked(token, checked)
}

/// As `sign_out_start`, given the outcome `checked` of the body's schema check.
pub fn sign_out_checked(
    token: UserDataSignOut,
    checked: Option<Result<(), Vec<String>>>,
) -> (r: Result<DelTokenPair, Reply>)
    ensures
        !(checked matches Some(Ok(_))) ==> (r matches Err(
            rep,
        ) && refuses(rep, checked)),
        (checked matches Some(Ok(_))) ==> match token.refresh_token {
            Some(t) => r == Ok::<DelTokenPair, Reply>(DelTokenPair { token: t }),
            None => r matches Err(rep) && unreadable(rep),
        },
{
    if let Some(rep) = refusal(checked) {
        return Err(rep);
    }
    match token.refresh_token {
        Some(t) => Ok(revoke_token_request(t)),
        None => Err(unreadable_reply()),
    }

}

/// The reply to a sign-out from the outcome of the revocation.
pub fn sign_out_done(revoked: Result<bool, ()>) -> (r: Reply)
    ensures
        match revoked {
            Ok(true) => is_notice(r, Status::Success, "Sing out was successful."@),
            Ok(false) => is_notice(r, Status::Unauthorized, "Invalid token."@),
            Err(_) => went_wrong(r),
        },
{
    match revoked {
        Ok(true) => notice_reply(Status::Success, "Sing out was successful."),
        Ok(false) => notice_reply(Status::Unauthorized, "Invalid token."),
        Err(_) => went_wrong_reply(),
    }
}

// ---------------------------------------------------------------------------
/// The first step of a refresh: the body's schema check, then the refresh
/// token to exchange.
pub fn refresh_start(token: UserDataRefresh) -> (r: Result<String, Reply>)
    ensures
        !accepts_body(REFRESH_SCHEMA@, refresh_token_json(token.refresh_token)) ==> (r matches Err(
            rep,
        ) && rejects_body(rep, REFRESH_SCHEMA@, refresh_token_json(token.refresh_token))),
        accepts_body(REFRESH_SCHEMA@, refresh_token_json(token.refresh_token)) ==> match token.refresh_token {
            Some(t) => r == Ok::<String, Reply>(t),
            None => r matches Err(rep) && unreadable(rep),
        },
{
    let json = token.to_json();
    let ghost j = text_of(json);
    assert(j == refresh_token_json(token.refresh_token));
    let checked = body_outcome(get_refresh_schema(), json);
    proof {
        lemma_outcome_decides(checked, REFRESH_SCHEMA@, j);
    }
    refresh_checked(token, checked)
}

/// As `refresh_start`, given the outcome `checked` of the body's schema check.
pub fn refresh_checked(
    token: UserDataRefresh,
    checked: Option<Result<(), Vec<String>>>,
) -> (r: Result<String, Reply>)
    ensures
        !(checked matches Some(Ok(_))) ==> (r matches Err(
            rep,
        ) && refuses(rep, checked)),
        (checked matches Some(Ok(_))) ==> match token.refresh_token {
            Some(t) => r == Ok::<String, Reply>(t),
            None => r matches Err(rep) && unreadable(rep),
        },
{
    if let Some(rep) = refusal(checked) {
        return Err(rep);
    }
    match token.refresh_token {
        Some(t) => Ok(t),
        None => Err(unreadable_reply()),
    }

}

/// The reply to a refresh from the outcome of the exchange.
pub fn refresh_done(exchanged: Result<(String, String), u8>) -> (r: Reply)
    ensures
        match exchanged {
            Ok((a, f)) => r.status == Status::Success && r.body == Body::Tokens {
                access_token: a,
                refresh_token: f,
            },
            Err(c) => if c == 2 {
                is_notice(r, Status::Unauthorized, "Access token is still valid."@)
            } else if c == 0 {
                is_notice(r, Status::Unauthorized, "Invalid token."@)
            } else {
                went_wrong(r)
            },
        },
{
    match exchanged {
        Ok((a, f)) => Reply {
            status: Status::Success,
            body: Body::Tokens { access_token: a, refresh_token: f },
        },
        Err(c) => {
            if c == 2 {
                notice_reply(Status::Unauthorized, "Access token is still valid.")
            } else if c == 0 {
                notice_reply(Status::Unauthorized, "Invalid token.")
            } else {
                went_wrong_reply()
            }
        },
    }
}

} // verus!
