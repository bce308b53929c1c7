//! Protected resources: an HTTP method and a path with the access level that
//! a caller needs, and the decisions of the resource store.

use vstd::prelude::*;
use crate::text::same_text;

verus! {

/// HTTP methods that resources are registered under.
#[derive(Clone, Copy, Debug, PartialEq, Eq, Structural)]
pub enum Method {
    GET,
    POST,
    PUT,
    DELETE,
    HEAD,
    CONNECT,
    OPTIONS,
    TRACE,
    PATCH,
    INVALID,
}

/// A protected resource.
#[derive(Debug)]
pub struct Resources {
    pub method: Method,
    pub path: String,
    pub access: i32,
}

/// Request to register a resource, or to change the access level of one
/// that is registered.
#[derive(Debug)]
pub struct CreateOrUpdateResource {
    pub method: Method,
    pub path: String,
    pub access: i32,
}

/// Request to look a resource up.
#[derive(Debug)]
pub struct GetResource {
    pub method: Method,
    pub path: String,
}

/// The name under which a method is stored.
pub open spec fn method_name(m: Method) -> Seq<char> {
    match m {
        Method::CONNECT => "CONNECT"@,
        Method::DELETE => "DELETE"@,
        Method::GET => "GET"@,
        Method::HEAD => "HEAD"@,
        Method::OPTIONS => "OPTIONS"@,
        Method::PATCH => "PATCH"@,
        Method::POST => "POST"@,
        Method::PUT => "PUT"@,
        Method::TRACE => "TRACE"@,
        Method::INVALID => "INVALID"@,
    }
}

/// The method that a resource file names: one of the nine method names,
/// anything else being `INVALID`.
pub open spec fn method_named(s: Seq<char>) -> Method {
    if s == "POST"@ {
        Method::POST
    } else if s == "GET"@ {
        Method::GET
    } else if s == "DELETE"@ {
        Method::DELETE
    } else if s == "PUT"@ {
        Method::PUT
    } else if s == "PATCH"@ {
        Method::PATCH
    } else if s == "TRACE"@ {
        Method::TRACE
    } else if s == "HEAD"@ {
        Method::HEAD
    } else if s == "CONNECT"@ {
        Method::CONNECT
    } else if s == "OPTIONS"@ {
        Method::OPTIONS
    } else {
        Method::INVALID
    }
}

/// The method under which an incoming HTTP request is looked up: the
/// request's method when it is one of GET, CONNECT, DELETE, OPTIONS, PATCH,
/// POST, PUT and TRACE, and `INVALID` otherwise (HEAD included).
pub open spec fn request_method(s: Seq<char>) -> Method {
    if s == "GET"@ {
        Method::GET
    } else if s == "CONNECT"@ {
        Method::CONNECT
    } else if s == "DELETE"@ {
        Method::DELETE
    } else if s == "OPTIONS"@ {
        Method::OPTIONS
    } else if s == "PATCH"@ {
        Method::PATCH
    } else if s == "POST"@ {
        Method::POST
    } else if s == "PUT"@ {
        Method::PUT
    } else if s == "TRACE"@ {
        Method::TRACE
    } else {
        Method::INVALID
    }
}

impl Method {
    /// The name under which the method is stored.
    pub fn name(&self) -> (r: &'static str)
        ensures
            r@ == method_name(*self),
    {
        match self {
            Method::CONNECT => "CONNECT",
            Method::DELETE => "DELETE",
            Method::GET => "GET",
            Method::HEAD => "HEAD",
            Method::OPTIONS => "OPTIONS",
            Method::PATCH => "PATCH",
            Method::POST => "POST",
            Method::PUT => "PUT",
            Method::TRACE => "TRACE",
            Method::INVALID => "INVALID",
        }
    }

    /// The method that a resource file names.
    pub fn from_name(s: &str) -> (r: Method)
        ensures
            r == method_named(s@),
    {
        if same_text(s, "POST") {
            Method::POST
        } else if same_text(s, "GET") {
            Method::GET
        } else if same_text(s, "DELETE") {
            Method::DELETE
        } else if same_text(s, "PUT") {
            Method::PUT
        } else if same_text(s, "PATCH") {
            Method::PATCH
        } else if same_text(s, "TRACE") {
            Method::TRACE
        } else if same_text(s, "HEAD") {
            Method::HEAD
        } else if same_text(s, "CONNECT") {
            Method::CONNECT
        } else if same_text(s, "OPTIONS") {
            Method::OPTIONS
        } else {
            Method::INVALID
        }
    }

    /// The method under which a request with HTTP method name `s` is looked
    /// up.
    pub fn from_request(s: &str) -> (r: Method)
        ensures
            r == request_method(s@),
    {
        if same_text(s, "GET") {
            Method::GET
        } else if same_text(s, "CONNECT") {
            Method::CONNECT
        } else if same_text(s, "DELETE") {
            Method::DELETE
        } else if same_text(s, "OPTIONS") {
            Method::OPTIONS
        } else if same_text(s, "PATCH") {
            Method::PATCH
        } else if same_text(s, "POST") {
            Method::POST
        } else if same_text(s, "PUT") {
            Method::PUT
        } else if same_text(s, "TRACE") {
            Method::TRACE
        } else {
            Method::INVALID
        }
    }
}

proof fn lemma_method_names_distinct(a: Method, b: Method)
    ensures
        method_name(a) == method_name(b) ==> a == b,
{
    reveal_strlit("CONNECT");
    reveal_strlit("DELETE");
    reveal_strlit("GET");
    reveal_strlit("HEAD");
    reveal_strlit("OPTIONS");
    reveal_strlit("PATCH");
    reveal_strlit("POST");
    reveal_strlit("PUT");
    reveal_strlit("TRACE");
    reveal_strlit("INVALID");
    let sa = method_name(a);
    let sb = method_name(b);
    if sa == sb {
        assert(sa.len() == sb.len());
        assert(sa[0] == sb[0]);
    }
}

/// Reading back the name under which a method is stored gives the method.
pub proof fn law_method_name_round_trip(m: Method)
    ensures
        method_named(method_name(m)) == m,
{
    lemma_method_names_distinct(m, Method::POST);
    lemma_method_names_distinct(m, Method::GET);
    lemma_method_names_distinct(m, Method::DELETE);
    lemma_method_names_distinct(m, Method::PUT);
    lemma_method_names_distinct(m, Method::PATCH);
    lemma_method_names_distinct(m, Method::TRACE);
    lemma_method_names_distinct(m, Method::HEAD);
    lemma_method_names_distinct(m, Method::CONNECT);
    lemma_method_names_distinct(m, Method::OPTIONS);
}

/// A request whose HTTP method name is the stored name of a method other
/// than HEAD is looked up under that method.
pub proof fn law_request_method_matches_name(m: Method)
    requires
        m != Method::HEAD,
    ensures
        request_method(method_name(m)) == m,
{
    lemma_method_names_distinct(m, Method::POST);
    lemma_method_names_distinct(m, Method::GET);
    lemma_method_names_distinct(m, Method::DELETE);
    lemma_method_names_distinct(m, Method::PUT);
    lemma_method_names_distinct(m, Method::PATCH);
    lemma_method_names_distinct(m, Method::TRACE);
    lemma_method_names_distinct(m, Method::CONNECT);
    lemma_method_names_distinct(m, Method::OPTIONS);
}

impl Resources {
    /// The resource that a registration request describes.
    pub fn new(create_resource: &CreateOrUpdateResource) -> (r: Resources)
        ensures
            r.method == create_resource.method,
            r.path@ == create_resource.path@,
            r.access == create_resource.access,
    {
        Resources {
            method: create_resource.method,
            path: create_resource.path.clone(),
            access: create_resource.access,
        }
    }
}

/// What the store does with a registration request, given whether the
/// resource is already registered.
#[derive(Debug)]
pub enum UpsertPlan {
    /// Set the access level of the registered resource.
    UpdateAccess,
    /// Insert the resource.
    Insert(Resources),
    /// The lookup failed; report failure.
    Fail,
}

/// Whether `p` is the plan for the registration `msg`, given whether the
/// resource is registered: an update of the registered resource's access
/// level, an insertion of the resource, or a failure where the lookup failed.
pub open spec fn plans(msg: CreateOrUpdateResource, registered: Result<bool, ()>, p: UpsertPlan) -> bool {
    match registered {
        Ok(true) => p is UpdateAccess,
        Ok(false) => p matches UpsertPlan::Insert(res) && res.method == msg.method && res.path@
            == msg.path@ && res.access == msg.access,
        Err(_) => p is Fail,
    }
}

/// The access levels of the registered resources by method and path after
/// a plan is carried out, as the document store documents its writes: the
/// update sets the access level of the resource with the request's method
/// and path, the insertion adds the resource, and a failure writes nothing.
pub open spec fn after_plan(
    m: Map<(Method, Seq<char>), i32>,
    msg: CreateOrUpdateResource,
    p: UpsertPlan,
) -> Map<(Method, Seq<char>), i32> {
    match p {
        UpsertPlan::UpdateAccess => if m.contains_key((msg.method, msg.path@)) {
            m.insert((msg.method, msg.path@), msg.access)
        } else {
            m
        },
        UpsertPlan::Insert(res) => m.insert((res.method, res.path@), res.access),
        UpsertPlan::Fail => m,
    }
}

/// A registration whose lookup answered truly leaves its resource registered
/// with its access level, so that a later lookup by the same method and
/// path finds that level; other resources stay as they were.
pub proof fn law_registration_is_found(
    m: Map<(Method, Seq<char>), i32>,
    msg: CreateOrUpdateResource,
    p: UpsertPlan,
    other: (Method, Seq<char>),
)
    requires
        plans(msg, Ok(m.contains_key((msg.method, msg.path@))), p),
    ensures
        after_plan(m, msg, p).contains_key((msg.method, msg.path@)),
        after_plan(m, msg, p)[(msg.method, msg.path@)] == msg.access,
        other != (msg.method, msg.path@) ==> (after_plan(m, msg, p).contains_key(other)
            == m.contains_key(other) && (m.contains_key(other) ==> after_plan(m, msg, p)[other]
            == m[other])),
{
}

impl CreateOrUpdateResource {
    /// What to do with this request, given whether the resource is
    /// registered.
    pub fn plan(&self, registered: Result<bool, ()>) -> (r: UpsertPlan)
        ensures
            plans(*self, registered, r),
    {
        match registered {
            Ok(true) => UpsertPlan::UpdateAccess,
            Ok(false) => UpsertPlan::Insert(Resources::new(self)),
            Err(_) => UpsertPlan::Fail,
        }
    }
}

} // verus!
