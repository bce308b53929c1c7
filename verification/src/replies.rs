//! HTTP replies: a status and a JSON body of one of a few shapes.

use vstd::prelude::*;
use crate::users::PasswordlessUsers;
use crate::validation::{json_schema_issues, validate};
use crate::schemas::is_service_schema;

verus! {

/// Reply statuses.
#[derive(Debug, Clone, Copy, PartialEq, Eq, Structural)]
pub enum Status {
    Success,
    BadRequest,
    Unauthorized,
    NotFound,
    InternalServerError,
}

/// Reply bodies.
#[derive(Debug)]
pub enum Body {
    /// A bare JSON string.
    Text(String),
    /// `{"issues": [..]}`.
    Issues(Vec<String>),
    /// `{"message": ".."}`.
    Message(String),
    /// `{"message": n}`.
    MessageCode(u8),
    /// `{"Message": ".."}`.
    Notice(String),
    /// `{"access_token": .., "refresh_token": ..}`.
    Tokens { access_token: String, refresh_token: String },
    /// `{"message": .., "data": [user]}` with the user's identifier, names,
    /// email address and access level.
    Account { message: String, user: PasswordlessUsers },
    /// As `Account`, with the creation date and the deletion mark too.
    UserRecord { message: String, user: PasswordlessUsers },
    /// `{"message": .., "data": {"page": .., "total_count": .., "data": [..]}}`.
    Page { message: String, page: u64, total_count: u64, users: Vec<PasswordlessUsers> },
}

/// A reply.
#[derive(Debug)]
pub struct Reply {
    pub status: Status,
    pub body: Body,
}

/// The texts of a list of strings.
pub open spec fn texts(v: Vec<String>) -> Seq<Seq<char>> {
    v@.map_values(|s: String| s@)
}

/// Whether `r` has status `st` and lists the single issue `text`.
pub open spec fn is_issue(r: Reply, st: Status, text: Seq<char>) -> bool {
    &&& r.status == st
    &&& r.body matches Body::Issues(v) && texts(v) == seq![text]
}

/// Whether `r` has status `st` and the message `text`.
pub open spec fn is_message(r: Reply, st: Status, text: Seq<char>) -> bool {
    &&& r.status == st
    &&& r.body matches Body::Message(m) && m@ == text
}

/// Whether `r` has status `st` and the capitalised message `text`.
pub open spec fn is_notice(r: Reply, st: Status, text: Seq<char>) -> bool {
    &&& r.status == st
    &&& r.body matches Body::Notice(m) && m@ == text
}

/// Whether `r` has status `st` and the bare text `text`.
pub open spec fn is_text(r: Reply, st: Status, text: Seq<char>) -> bool {
    &&& r.status == st
    &&& r.body matches Body::Text(m) && m@ == text
}

/// The reply to an internal failure.
pub open spec fn went_wrong(r: Reply) -> bool {
    is_issue(r, Status::InternalServerError, "something went wrong"@)
}

/// The reply to a body that could not be checked.
pub open spec fn unreadable(r: Reply) -> bool {
    is_text(r, Status::InternalServerError, "Something went wrong"@)
}

pub fn issue_reply(status: Status, text: &str) -> (r: Reply)
    ensures
        is_issue(r, status, text@),
{
    let mut v: Vec<String> = Vec::new();
    v.push(String::from_str(text));
    let r = Reply { status, body: Body::Issues(v) };
    assert(texts(v) =~= seq![text@]);
    r
}

pub fn issues_reply(status: Status, text: String) -> (r: Reply)
    ensures
        is_issue(r, status, text@),
{
    let mut v: Vec<String> = Vec::new();
    v.push(text);
    let ghost t = v@[0]@;
    let r = Reply { status, body: Body::Issues(v) };
    assert(texts(v) =~= seq![t]);
    r
}

pub fn message_reply(status: Status, text: &str) -> (r: Reply)
    ensures
        is_message(r, status, text@),
{
    Reply { status, body: Body::Message(String::from_str(text)) }
}

pub fn notice_reply(status: Status, text: &str) -> (r: Reply)
    ensures
        is_notice(r, status, text@),
{
    Reply { status, body: Body::Notice(String::from_str(text)) }
}

pub fn text_reply(status: Status, text: &str) -> (r: Reply)
    ensures
        is_text(r, status, text@),
{
    Reply { status, body: Body::Text(String::from_str(text)) }
}

pub fn went_wrong_reply() -> (r: Reply)
    ensures
        went_wrong(r),
{
    issue_reply(Status::InternalServerError, "something went wrong")
}

pub fn unreadable_reply() -> (r: Reply)
    ensures
        unreadable(r),
{
    text_reply(Status::InternalServerError, "Something went wrong")
}

/// Whether a body whose JSON text is `json` passes the schema `schema`.
pub open spec fn accepts_body(schema: Seq<char>, json: Option<Seq<char>>) -> bool {
    json matches Some(j) && json_schema_issues(schema, j) matches Some(issues) && issues.len() == 0
}

/// Whether `r` is the reply to a body that does not pass the schema: the
/// violations with status 400, or the reply to an unreadable body where the
/// check cannot be run.
pub open spec fn rejects_body(r: Reply, schema: Seq<char>, json: Option<Seq<char>>) -> bool {
    match json {
        Some(j) => match json_schema_issues(schema, j) {
            Some(issues) => {
                &&& issues.len() > 0
                &&& r.status == Status::BadRequest
                &&& r.body matches Body::Issues(v) && texts(v) == issues
            },
            None => unreadable(r),
        },
        None => unreadable(r),
    }
}

pub open spec fn text_of(t: Option<String>) -> Option<Seq<char>> {
    match t {
        Some(s) => Some(s@),
        None => None,
    }
}

/// Whether `r` is the outcome of checking a body whose JSON text is `json`
/// (`None` where the body has no JSON text) against `schema`: `None` where
/// the check cannot be run, `Ok` where it passes, and the violations
/// otherwise.
pub open spec fn is_outcome_of(
    r: Option<Result<(), Vec<String>>>,
    schema: Seq<char>,
    json: Option<Seq<char>>,
) -> bool {
    match json {
        None => r is None,
        Some(j) => match json_schema_issues(schema, j) {
            None => r is None,
            Some(issues) => if issues.len() == 0 {
                r == Some(Ok::<(), Vec<String>>(()))
            } else {
                r matches Some(Err(v)) && texts(v) == issues
            },
        },
    }
}

/// Whether `rep` is the reply to a body check with outcome `checked` that
/// did not pass: the violations with status 400, or the reply to an
/// unreadable body where the check could not be run.
pub open spec fn refuses(rep: Reply, checked: Option<Result<(), Vec<String>>>) -> bool {
    match checked {
        None => unreadable(rep),
        Some(Err(v)) => rep.status == Status::BadRequest && rep.body == Body::Issues(v),
        Some(Ok(_)) => false,
    }
}

/// The outcome of checking a body's JSON text against one of the service's
/// schemas.
pub fn body_outcome(schema: &str, json: Option<String>) -> (r: Option<Result<(), Vec<String>>>)
    requires
        is_service_schema(schema@),
    ensures
        is_outcome_of(r, schema@, text_of(json)),
{
    match json {
        None => None,
        Some(j) => validate(schema, j.as_str()),
    }
}

/// The reply that a body check with outcome `checked` calls for: none where
/// it passed.
pub fn refusal(checked: Option<Result<(), Vec<String>>>) -> (r: Option<Reply>)
    ensures
        checked matches Some(Ok(_)) ==> r is None,
        !(checked matches Some(Ok(_))) ==> (r matches Some(rep) && refuses(rep, checked)),
{
    match checked {
        None => Some(unreadable_reply()),
        Some(Ok(())) => None,
        Some(Err(v)) => Some(Reply { status: Status::BadRequest, body: Body::Issues(v) }),
    }
}

/// A body check's outcome passes exactly where the schema accepts the body,
/// and a refusal of a failed check is the reply to a body that the schema
/// rejects.
pub proof fn lemma_outcome_decides(
    checked: Option<Result<(), Vec<String>>>,
    schema: Seq<char>,
    json: Option<Seq<char>>,
)
    requires
        is_outcome_of(checked, schema, json),
    ensures
        accepts_body(schema, json) <==> checked matches Some(Ok(_)),
        forall|rep: Reply| #[trigger] refuses(rep, checked) ==> rejects_body(rep, schema, json),
{
}

/// The reply to a body that does not pass its schema, `None` for one that
/// does.
pub fn check_body(schema: &str, json: Option<String>) -> (r: Option<Reply>)
    requires
        is_service_schema(schema@),
    ensures
        accepts_body(schema@, text_of(json)) ==> r is None,
        !accepts_body(schema@, text_of(json)) ==> (r matches Some(rep) && rejects_body(
            rep,
            schema@,
            text_of(json),
        )),
{
    let ghost j = text_of(json);
    let checked = body_outcome(schema, json);
    proof {
        lemma_outcome_decides(checked, schema@, j);
    }
    refusal(checked)
}

} // verus!
