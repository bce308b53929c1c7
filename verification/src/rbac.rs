//! Role-based access control in front of the HTTP routes: each route is a
//! registered resource with an access level; level 0 is open to everyone,
//! any other level needs a verified access token of a user whose level is at
//! least that high.

use vstd::prelude::*;
use crate::resources::{GetResource, Method, Resources, request_method};
use crate::text::push_char;

verus! {

/// Whether `c` has the Unicode `White_Space` property: U+0009 to U+000D,
/// U+0020, U+0085, U+00A0, U+1680, U+2000 to U+200A, U+2028, U+2029,
/// U+202F, U+205F and U+3000.
pub open spec fn is_unicode_whitespace(c: char) -> bool {
    let v = c as u32;
    ||| 0x09 <= v <= 0x0d
    ||| v == 0x20
    ||| v == 0x85
    ||| v == 0xa0
    ||| v == 0x1680
    ||| 0x2000 <= v <= 0x200a
    ||| v == 0x2028
    ||| v == 0x2029
    ||| v == 0x202f
    ||| v == 0x205f
    ||| v == 0x3000
}

/// Whether a character is white space.
fn whitespace(c: char) -> (r: bool)
    ensures
        r == is_unicode_whitespace(c),
{
    let v = c as u32;
    (0x09 <= v && v <= 0x0d) || v == 0x20 || v == 0x85 || v == 0xa0 || v == 0x1680 || (0x2000 <= v
        && v <= 0x200a) || v == 0x2028 || v == 0x2029 || v == 0x202f || v == 0x205f || v == 0x3000
}

/// The characters of `s` that are not white space, in order.
pub open spec fn without_whitespace(s: Seq<char>) -> Seq<char>
    decreases s.len(),
{
    if s.len() == 0 {
        s
    } else if is_unicode_whitespace(s.last()) {
        without_whitespace(s.drop_last())
    } else {
        without_whitespace(s.drop_last()).push(s.last())
    }
}

/// Removing white space keeps exactly the characters of `s` that are not
/// white space, in their order: the result is `s` filtered by that test, it
/// holds no white space, and it keeps every character that is not white
/// space.
pub proof fn law_whitespace_removal(s: Seq<char>)
    ensures
        without_whitespace(s) == s.filter(|c: char| !is_unicode_whitespace(c)),
        forall|i: int|
            0 <= i < without_whitespace(s).len() ==> !is_unicode_whitespace(
                #[trigger] without_whitespace(s)[i],
            ),
        forall|i: int|
            0 <= i < s.len() && !is_unicode_whitespace(s[i]) ==> #[trigger] without_whitespace(
                s,
            ).contains(s[i]),
        without_whitespace(s).len() <= s.len(),
    decreases s.len(),
{
    let pred = |c: char| !is_unicode_whitespace(c);
    reveal(Seq::filter);
    if s.len() > 0 {
        law_whitespace_removal(s.drop_last());
    }
    assert(without_whitespace(s) == s.filter(pred));
    broadcast use vstd::seq_lib::group_filter_ensures;
    assert forall|i: int|
        0 <= i < without_whitespace(s).len() implies !is_unicode_whitespace(
        #[trigger] without_whitespace(s)[i],
    ) by {
        assert(pred(s.filter(pred)[i]));
    }
    assert forall|i: int| 0 <= i < s.len() && !is_unicode_whitespace(s[i]) implies #[trigger] without_whitespace(
        s,
    ).contains(s[i]) by {
        assert(pred(s[i]));
        assert(s.filter(pred).contains(s[i]));
    }
}

/// The bearer token with all white space removed.
pub fn strip_whitespace(s: &str) -> (r: String)
    ensures
        r@ == without_whitespace(s@),
{
    let n = s.unicode_len();
    let mut r = String::new();
    let mut i: usize = 0;
    while i < n
        invariant
            n == s@.len(),
            i <= n,
            r@ == without_whitespace(s@.subrange(0, i as int)),
        decreases n - i,
    {
        let c = s.get_char(i);
        assert(s@.subrange(0, i + 1).drop_last() =~= s@.subrange(0, i as int));
        if !whitespace(c) {
            push_char(&mut r, c);
        }
        i += 1;
    }
    assert(s@.subrange(0, n as int) =~= s@);
    r
}

/// The lookup of the resource that a request addresses, by its path and the
/// name of its HTTP method.
pub fn resource_of_request(path: &str, method_name: &str) -> (r: GetResource)
    ensures
        r.path@ == path@,
        r.method == request_method(method_name@),
{
    GetResource { path: String::from_str(path), method: Method::from_request(method_name) }
}

/// What the access check does next.
#[derive(Debug)]
pub enum RbacStep {
    /// Let the request through to its handler.
    Forward,
    /// Verify the access token and compare its level with `required`.
    Verify { token: String, required: i32 },
    /// Refuse: the caller may not use the resource.
    Unauthorized,
    /// Refuse: the resource could not be looked up.
    Failure,
}

/// The message of a refusal for want of access.
pub fn unauthorized_message() -> (r: &'static str)
    ensures
        r@ == "You don't have access to this resource"@,
{
    "You don't have access to this resource"
}

/// The message of a refusal for a failed lookup.
pub fn failure_message() -> (r: &'static str)
    ensures
        r@ == "Something went wrong."@,
{
    "Something went wrong."
}

/// The step after the resource lookup, given the bearer token of the
/// request (`None` where the request carries none): an open resource lets
/// the request through, a protected one needs a token, which is verified
/// with its white space removed; a missing resource or a failed lookup is a
/// failure.
pub open spec fn rbac_after_lookup(found: Result<Result<Resources, u8>, ()>, bearer: Option<String>) -> RbacStep {
    match found {
        Ok(Ok(res)) => if res.access == 0 {
            RbacStep::Forward
        } else {
            match bearer {
                Some(t) => RbacStep::Verify { token: t, required: res.access },
                None => RbacStep::Unauthorized,
            }
        },
        _ => RbacStep::Failure,
    }
}

/// The step after the resource lookup.
pub fn rbac_on_resource(found: Result<Result<Resources, u8>, ()>, bearer: Option<String>) -> (r:
    RbacStep)
    ensures
        match (found, bearer) {
            (Ok(Ok(res)), Some(t)) if res.access != 0 => r matches RbacStep::Verify {
                token,
                required,
            } && token@ == without_whitespace(t@) && required == res.access,
            _ => r == rbac_after_lookup(found, bearer),
        },
{
    match found {
        Ok(Ok(res)) => {
            if res.access == 0 {
                RbacStep::Forward
            } else {
                match bearer {
                    Some(t) => RbacStep::Verify {
                        token: strip_whitespace(t.as_str()),
                        required: res.access,
                    },
                    None => RbacStep::Unauthorized,
                }
            }
        },
        _ => RbacStep::Failure,
    }
}

/// Whether a verified token grants a level at least `required`.
pub open spec fn grants(required: i32, verified: Result<(String, i32), ()>) -> bool {
    verified matches Ok((_, level)) && level >= required
}

/// The step after the token's verification: through where the token's
/// level is at least the resource's, refused otherwise.
pub fn rbac_on_verification(required: i32, verified: Result<(String, i32), ()>) -> (r: RbacStep)
    ensures
        grants(required, verified) ==> r is Forward,
        !grants(required, verified) ==> r is Unauthorized,
{
    match verified {
        Ok((_, level)) => {
            if level < required {
                RbacStep::Unauthorized
            } else {
                RbacStep::Forward
            }
        },
        Err(_) => RbacStep::Unauthorized,
    }
}

/// A request reaches its handler exactly when its resource is registered
/// and either open (level 0) or the request carries a token whose
/// verification gives a level at least the resource's.
pub proof fn law_rbac_forwards(
    found: Result<Result<Resources, u8>, ()>,
    bearer: Option<String>,
    verified: Result<(String, i32), ()>,
)
    ensures
        ({
            let first = rbac_after_lookup(found, bearer);
            let last = match first {
                RbacStep::Verify { token, required } => if grants(required, verified) {
                    RbacStep::Forward
                } else {
                    RbacStep::Unauthorized
                },
                _ => first,
            };
            last is Forward <==> (found matches Ok(Ok(res)) && (res.access == 0 || (bearer is Some
                && grants(res.access, verified))))
        }),
{
}

} // verus!
