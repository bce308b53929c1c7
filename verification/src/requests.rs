//! The bodies and query strings of the HTTP requests, and their JSON text
//! (field names and order of the records, absent fields as `null`), which is
//! what the request schemas check.

use vstd::prelude::*;
use crate::text::decimal_text;
use crate::validation::{json_quoted, member, opt_int_json, opt_int_text, opt_string_json, opt_string_text, push_member};

verus! {

/// Sign-in body.
#[derive(Debug)]
pub struct UserDataSignIn {
    pub email: Option<String>,
    pub password: Option<String>,
}

/// Sign-out body.
#[derive(Debug)]
pub struct UserDataSignOut {
    pub refresh_token: Option<String>,
}

/// Sign-up body.
#[derive(Debug)]
pub struct UserDataSignUp {
    pub first_name: Option<String>,
    pub last_name: Option<String>,
    pub email: Option<String>,
    pub password: Option<String>,
}

/// Token refresh body.
#[derive(Debug)]
pub struct UserDataRefresh {
    pub refresh_token: Option<String>,
}

/// Body of an administrator's request to create a user, and of one to
/// change a user.
#[derive(Debug)]
pub struct UserDataCreate {
    pub first_name: Option<String>,
    pub last_name: Option<String>,
    pub email: Option<String>,
    pub password: Option<String>,
    pub access_level: Option<i32>,
}

/// Body of an administrator's request to change a user.
pub type UserDataUpdateAdmin = UserDataCreate;

/// Body of a user's request to change their own account.
#[derive(Debug)]
pub struct UserDataUpdate {
    pub first_name: Option<String>,
    pub last_name: Option<String>,
    pub email: Option<String>,
    pub password: Option<String>,
}

/// Query string of a user listing.
#[derive(Debug)]
pub struct UserFilter {
    pub page: Option<u64>,
    pub size: Option<u64>,
    pub first_name: Option<String>,
    pub last_name: Option<String>,
    pub email: Option<String>,
    pub access_level: Option<i32>,
    pub access_level_cmp: Option<u8>,
}

/// JSON object text with one member.
pub open spec fn object1(n1: Seq<char>, v1: Option<Seq<char>>) -> Option<Seq<char>> {
    match v1 {
        Some(a) => Some("{"@ + member(n1, a) + "}"@),
        None => None,
    }
}

/// JSON object text with two members.
pub open spec fn object2(n1: Seq<char>, v1: Option<Seq<char>>, n2: Seq<char>, v2: Option<Seq<char>>) -> Option<Seq<char>> {
    match (v1, v2) {
        (Some(a), Some(b)) => Some("{"@ + member(n1, a) + ","@ + member(n2, b) + "}"@),
        _ => None,
    }
}

/// JSON object text with the members `first_name`, `last_name`, `email`
/// and `password`, and `extra` appended inside the braces.
pub open spec fn person_object(
    first_name: Option<Seq<char>>,
    last_name: Option<Seq<char>>,
    email: Option<Seq<char>>,
    password: Option<Seq<char>>,
    extra: Seq<char>,
) -> Option<Seq<char>> {
    match (first_name, last_name, email, password) {
        (Some(f), Some(l), Some(e), Some(p)) => Some(
            "{"@ + member("first_name"@, f) + ","@ + member("last_name"@, l) + ","@ + member(
                "email"@,
                e,
            ) + ","@ + member("password"@, p) + extra + "}"@,
        ),
        _ => None,
    }
}

pub open spec fn sign_in_json(u: UserDataSignIn) -> Option<Seq<char>> {
    object2("email"@, opt_string_json(u.email), "password"@, opt_string_json(u.password))
}

pub open spec fn refresh_token_json(t: Option<String>) -> Option<Seq<char>> {
    object1("refresh_token"@, opt_string_json(t))
}

pub open spec fn sign_up_json(u: UserDataSignUp) -> Option<Seq<char>> {
    person_object(
        opt_string_json(u.first_name),
        opt_string_json(u.last_name),
        opt_string_json(u.email),
        opt_string_json(u.password),
        Seq::empty(),
    )
}

pub open spec fn create_json(u: UserDataCreate) -> Option<Seq<char>> {
    person_object(
        opt_string_json(u.first_name),
        opt_string_json(u.last_name),
        opt_string_json(u.email),
        opt_string_json(u.password),
        ","@ + member("access_level"@, opt_int_json(u.access_level)),
    )
}

pub open spec fn update_json(u: UserDataUpdate) -> Option<Seq<char>> {
    person_object(
        opt_string_json(u.first_name),
        opt_string_json(u.last_name),
        opt_string_json(u.email),
        opt_string_json(u.password),
        Seq::empty(),
    )
}

/// The JSON text of an optional string field: its string literal, or
/// `null` where the field is absent.
pub open spec fn json_value(v: Option<String>) -> Seq<char> {
    match v {
        Some(x) => json_quoted(x@),
        None => "null"@,
    }
}

/// Whether the JSON object text `j` holds the member `"name":value`.
pub open spec fn has_member(j: Seq<char>, name: Seq<char>, value: Seq<char>) -> bool {
    exists|a: Seq<char>, b: Seq<char>| j == #[trigger] (a + member(name, value) + b)
}

proof fn lemma_member_at(a: Seq<char>, name: Seq<char>, value: Seq<char>, b: Seq<char>)
    ensures
        has_member(a + member(name, value) + b, name, value),
{
    let j = a + member(name, value) + b;
    assert(j == a + member(name, value) + b);
}

proof fn lemma_person_object_members(
    first_name: Option<String>,
    last_name: Option<String>,
    email: Option<String>,
    password: Option<String>,
    extra: Seq<char>,
)
    ensures
        person_object(
            opt_string_json(first_name),
            opt_string_json(last_name),
            opt_string_json(email),
            opt_string_json(password),
            extra,
        ) matches Some(j) && has_member(j, "first_name"@, json_value(first_name)) && has_member(
            j,
            "last_name"@,
            json_value(last_name),
        ) && has_member(j, "email"@, json_value(email)) && has_member(
            j,
            "password"@,
            json_value(password),
        ) && exists|a: Seq<char>| j == #[trigger] (a + extra + "}"@),
{
    let f = json_value(first_name);
    let l = json_value(last_name);
    let e = json_value(email);
    let p = json_value(password);
    let mf = member("first_name"@, f);
    let ml = member("last_name"@, l);
    let me = member("email"@, e);
    let mp = member("password"@, p);
    let j = "{"@ + mf + ","@ + ml + ","@ + me + ","@ + mp + extra + "}"@;
    lemma_member_at("{"@, "first_name"@, f, ","@ + ml + ","@ + me + ","@ + mp + extra + "}"@);
    assert(j =~= "{"@ + mf + (","@ + ml + ","@ + me + ","@ + mp + extra + "}"@));
    lemma_member_at("{"@ + mf + ","@, "last_name"@, l, ","@ + me + ","@ + mp + extra + "}"@);
    assert(j =~= ("{"@ + mf + ","@) + ml + (","@ + me + ","@ + mp + extra + "}"@));
    lemma_member_at("{"@ + mf + ","@ + ml + ","@, "email"@, e, ","@ + mp + extra + "}"@);
    assert(j =~= ("{"@ + mf + ","@ + ml + ","@) + me + (","@ + mp + extra + "}"@));
    lemma_member_at("{"@ + mf + ","@ + ml + ","@ + me + ","@, "password"@, p, extra + "}"@);
    assert(j =~= ("{"@ + mf + ","@ + ml + ","@ + me + ","@) + mp + (extra + "}"@));
    assert(j =~= ("{"@ + mf + ","@ + ml + ","@ + me + ","@ + mp) + extra + "}"@);
    assert(j == #[trigger] (("{"@ + mf + ","@ + ml + ","@ + me + ","@ + mp) + extra + "}"@));
}

/// The JSON text that the sign-up schema checks writes each field of the
/// body under its own name: first name, last name, email address and
/// password, each as its string literal or `null`.
pub proof fn law_sign_up_json_members(u: UserDataSignUp)
    ensures
        sign_up_json(u) matches Some(j) && has_member(j, "first_name"@, json_value(u.first_name))
            && has_member(j, "last_name"@, json_value(u.last_name)) && has_member(
            j,
            "email"@,
            json_value(u.email),
        ) && has_member(j, "password"@, json_value(u.password)),
{
    lemma_person_object_members(u.first_name, u.last_name, u.email, u.password, Seq::empty());
}

/// The JSON text that a user's update schema checks writes each field of the
/// body under its own name.
pub proof fn law_update_json_members(u: UserDataUpdate)
    ensures
        update_json(u) matches Some(j) && has_member(j, "first_name"@, json_value(u.first_name))
            && has_member(j, "last_name"@, json_value(u.last_name)) && has_member(
            j,
            "email"@,
            json_value(u.email),
        ) && has_member(j, "password"@, json_value(u.password)),
{
    lemma_person_object_members(u.first_name, u.last_name, u.email, u.password, Seq::empty());
}

/// The JSON text that the creation and administrator's update schemas check
/// writes each field of the body under its own name, the access level as
/// its decimal text or `null`.
pub proof fn law_create_json_members(u: UserDataCreate)
    ensures
        create_json(u) matches Some(j) && has_member(j, "first_name"@, json_value(u.first_name))
            && has_member(j, "last_name"@, json_value(u.last_name)) && has_member(
            j,
            "email"@,
            json_value(u.email),
        ) && has_member(j, "password"@, json_value(u.password)) && has_member(
            j,
            "access_level"@,
            match u.access_level {
                Some(a) => decimal_text(a as int),
                None => "null"@,
            },
        ),
{
    let extra = ","@ + member("access_level"@, opt_int_json(u.access_level));
    lemma_person_object_members(u.first_name, u.last_name, u.email, u.password, extra);
    let j = create_json(u)->Some_0;
    let a = choose|a: Seq<char>| j == #[trigger] (a + extra + "}"@);
    assert(j =~= (a + ","@) + member("access_level"@, opt_int_json(u.access_level)) + "}"@);
    lemma_member_at(a + ","@, "access_level"@, opt_int_json(u.access_level), "}"@);
}

/// The JSON text that the sign-in schema checks writes the email address and
/// the password under their own names.
pub proof fn law_sign_in_json_members(u: UserDataSignIn)
    ensures
        sign_in_json(u) matches Some(j) && has_member(j, "email"@, json_value(u.email)) && has_member(
            j,
            "password"@,
            json_value(u.password),
        ),
{
    let e = json_value(u.email);
    let p = json_value(u.password);
    let j = "{"@ + member("email"@, e) + ","@ + member("password"@, p) + "}"@;
    lemma_member_at("{"@, "email"@, e, ","@ + member("password"@, p) + "}"@);
    assert(j =~= "{"@ + member("email"@, e) + (","@ + member("password"@, p) + "}"@));
    lemma_member_at("{"@ + member("email"@, e) + ","@, "password"@, p, "}"@);
}

/// The JSON text that the sign-out and refresh schemas check writes the
/// refresh token under its own name.
pub proof fn law_refresh_token_json_member(t: Option<String>)
    ensures
        refresh_token_json(t) matches Some(j) && has_member(j, "refresh_token"@, json_value(t)),
{
    lemma_member_at("{"@, "refresh_token"@, json_value(t), "}"@);
}

fn text_of_object1(n1: &str, v1: &Option<String>) -> (r: Option<String>)
    ensures
        match r {
            Some(t) => object1(n1@, opt_string_json(*v1)) == Some(t@),
            None => object1(n1@, opt_string_json(*v1)) is None,
        },
{
    match opt_string_text(v1) {
        Some(a) => {
            let mut out = String::from_str("{");
            push_member(&mut out, "", n1, a.as_str());
            out.append("}");
            proof {
                reveal_strlit("");
                assert(out@ =~= "{"@ + member(n1@, a@) + "}"@);
            }
            Some(out)
        },
        None => None,
    }
}

fn text_of_person(
    first_name: &Option<String>,
    last_name: &Option<String>,
    email: &Option<String>,
    password: &Option<String>,
    extra: &str,
) -> (r: Option<String>)
    ensures
        ({
            let spec_text = person_object(
                opt_string_json(*first_name),
                opt_string_json(*last_name),
                opt_string_json(*email),
                opt_string_json(*password),
                extra@,
            );
            match r {
                Some(t) => spec_text == Some(t@),
                None => spec_text is None,
            }
        }),
{
    let f = opt_string_text(first_name);
    let l = opt_string_text(last_name);
    let e = opt_string_text(email);
    let p = opt_string_text(password);
    match (f, l, e, p) {
        (Some(f), Some(l), Some(e), Some(p)) => {
            let mut out = String::from_str("{");
            push_member(&mut out, "", "first_name", f.as_str());
            push_member(&mut out, ",", "last_name", l.as_str());
            push_member(&mut out, ",", "email", e.as_str());
            push_member(&mut out, ",", "password", p.as_str());
            out.append(extra);
            out.append("}");
            proof {
                reveal_strlit("");
                assert(out@ =~= "{"@ + member("first_name"@, f@) + ","@ + member("last_name"@, l@)
                    + ","@ + member("email"@, e@) + ","@ + member("password"@, p@) + extra@
                    + "}"@);
            }
            Some(out)
        },
        _ => None,
    }
}

impl UserDataSignIn {
    /// The body's JSON text.
    pub fn to_json(&self) -> (r: Option<String>)
        ensures
            match r {
                Some(t) => sign_in_json(*self) == Some(t@),
                None => sign_in_json(*self) is None,
            },
    {
        let e = opt_string_text(&self.email);
        let p = opt_string_text(&self.password);
        match (e, p) {
            (Some(e), Some(p)) => {
                let mut out = String::from_str("{");
                push_member(&mut out, "", "email", e.as_str());
                push_member(&mut out, ",", "password", p.as_str());
                out.append("}");
                proof {
                    reveal_strlit("");
                    assert(out@ =~= "{"@ + member("email"@, e@) + ","@ + member("password"@, p@)
                        + "}"@);
                }
                Some(out)
            },
            _ => None,
        }
    }
}

impl UserDataSignOut {
    /// The body's JSON text.
    pub fn to_json(&self) -> (r: Option<String>)
        ensures
            match r {
                Some(t) => refresh_token_json(self.refresh_token) == Some(t@),
                None => refresh_token_json(self.refresh_token) is None,
            },
    {
        text_of_object1("refresh_token", &self.refresh_token)
    }
}

impl UserDataRefresh {
    /// The body's JSON text.
    pub fn to_json(&self) -> (r: Option<String>)
        ensures
            match r {
                Some(t) => refresh_token_json(self.refresh_token) == Some(t@),
                None => refresh_token_json(self.refresh_token) is None,
            },
    {
        text_of_object1("refresh_token", &self.refresh_token)
    }
}

impl UserDataSignUp {
    /// The body's JSON text.
    pub fn to_json(&self) -> (r: Option<String>)
        ensures
            match r {
                Some(t) => sign_up_json(*self) == Some(t@),
                None => sign_up_json(*self) is None,
            },
    {
        proof {
            reveal_strlit("");
            assert(""@ =~= Seq::<char>::empty());
        }
        text_of_person(&self.first_name, &self.last_name, &self.email, &self.password, "")
    }
}

impl UserDataCreate {
    /// The body's JSON text.
    pub fn to_json(&self) -> (r: Option<String>)
        ensures
            match r {
                Some(t) => create_json(*self) == Some(t@),
                None => create_json(*self) is None,
            },
    {
        let level = opt_int_text(self.access_level);
        let mut extra = String::new();
        push_member(&mut extra, ",", "access_level", level.as_str());
        proof {
            assert(extra@ =~= ","@ + member("access_level"@, opt_int_json(self.access_level)));
        }
        text_of_person(
            &self.first_name,
            &self.last_name,
            &self.email,
            &self.password,
            extra.as_str(),
        )
    }
}

impl UserDataUpdate {
    /// The body's JSON text.
    pub fn to_json(&self) -> (r: Option<String>)
        ensures
            match r {
                Some(t) => update_json(*self) == Some(t@),
                None => update_json(*self) is None,
            },
    {
        proof {
            reveal_strlit("");
            assert(""@ =~= Seq::<char>::empty());
        }
        text_of_person(&self.first_name, &self.last_name, &self.email, &self.password, "")
    }
}

} // verus!
