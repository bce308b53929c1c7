//! Checking request bodies against JSON schemas.  A request record is
//! written out as JSON text here, with the field names and order of the
//! record; the schema check itself is the JSON-schema validator's.

use vstd::prelude::*;
use crate::text::{decimal, decimal_text, push_char};
use crate::object_id::lower_hex_digit;
use crate::schemas::is_service_schema;

verus! {

/// How `serde_json` writes a character inside a string literal: `"` and
/// `\` behind a backslash, the short escapes `\b`, `\t`, `\n`, `\f`, `\r`,
/// other control characters below U+0020 as `\u00` and two lower-case
/// hexadecimal digits, and any other character as itself.
pub open spec fn json_escape_char(c: char) -> Seq<char> {
    let v = c as u32;
    if c == '"' {
        seq!['\\', '"']
    } else if c == '\\' {
        seq!['\\', '\\']
    } else if v == 0x08 {
        seq!['\\', 'b']
    } else if v == 0x09 {
        seq!['\\', 't']
    } else if v == 0x0a {
        seq!['\\', 'n']
    } else if v == 0x0c {
        seq!['\\', 'f']
    } else if v == 0x0d {
        seq!['\\', 'r']
    } else if v < 0x20 {
        seq!['\\', 'u', '0', '0', lower_hex_digit((v / 16) as nat), lower_hex_digit((v % 16) as nat)]
    } else {
        seq![c]
    }
}

/// The characters of `s`, each written as in a JSON string literal.
pub open spec fn json_escaped(s: Seq<char>) -> Seq<char>
    decreases s.len(),
{
    if s.len() == 0 {
        s
    } else {
        json_escaped(s.drop_last()) + json_escape_char(s.last())
    }
}

/// The JSON string literal of `s`, as `serde_json::to_string` writes it.
pub open spec fn json_quoted(s: Seq<char>) -> Seq<char> {
    seq!['"'] + json_escaped(s) + seq!['"']
}

/// Name for the outcome of checking the JSON text `instance` against the
/// JSON-schema text `schema` with `jsonschema`: `None` where either text
/// does not parse or the schema does not compile, otherwise the messages of
/// the violations found, none for a valid instance.
pub uninterp spec fn json_schema_issues(schema: Seq<char>, instance: Seq<char>) -> Option<
    Seq<Seq<char>>,
>;

/// Appends the JSON writing of one character.
fn push_escaped(out: &mut String, c: char)
    ensures
        final(out)@ == old(out)@ + json_escape_char(c),
{
    let v = c as u32;
    if c == '"' || c == '\\' {
        push_char(out, '\\');
        push_char(out, c);
    } else if v == 0x08 || v == 0x09 || v == 0x0a || v == 0x0c || v == 0x0d {
        push_char(out, '\\');
        let e = if v == 0x08 {
            'b'
        } else if v == 0x09 {
            't'
        } else if v == 0x0a {
            'n'
        } else if v == 0x0c {
            'f'
        } else {
            'r'
        };
        push_char(out, e);
    } else if v < 0x20 {
        push_char(out, '\\');
        push_char(out, 'u');
        push_char(out, '0');
        push_char(out, '0');
        let hi: u8 = (v / 16) as u8;
        let lo: u8 = (v % 16) as u8;
        let h = (48u8 + hi) as char;
        assert(h == lower_hex_digit((v / 16) as nat));
        push_char(out, h);
        let l = if lo < 10 {
            (48u8 + lo) as char
        } else {
            (87u8 + lo) as char
        };
        assert(l == lower_hex_digit((v % 16) as nat));
        push_char(out, l);
    } else {
        push_char(out, c);
    }
    proof {
        assert(out@ =~= old(out)@ + json_escape_char(c));
    }
}

/// JSON string literal for `s`, as `serde_json::to_string` writes it.
fn quote(s: &str) -> (r: String)
    ensures
        r@ == json_quoted(s@),
{
    let n = s.unicode_len();
    let mut out = String::new();
    push_char(&mut out, '"');
    let mut i: usize = 0;
    while i < n
        invariant
            n == s@.len(),
            i <= n,
            out@ == seq!['"'] + json_escaped(s@.subrange(0, i as int)),
        decreases n - i,
    {
        let c = s.get_char(i);
        assert(s@.subrange(0, i + 1).drop_last() =~= s@.subrange(0, i as int));
        push_escaped(&mut out, c);
        i += 1;
        assert(out@ =~= seq!['"'] + json_escaped(s@.subrange(0, i as int)));
    }
    assert(s@.subrange(0, n as int) =~= s@);
    push_char(&mut out, '"');
    assert(out@ =~= json_quoted(s@));
    out
}

/// The violations of `schema` by `instance`.
///
/// Trusted: parses both texts with `serde_json::from_str`, compiles the
/// schema with `jsonschema::JSONSchema::compile` and validates the instance
/// with `JSONSchema::validate`, writing each violation with its `Display`.
/// The outcome depends on the two texts alone, so it is named.  The
/// `requires` admits the service's own schemas only: a schema that refers
/// to itself (such as `{"$ref":"#"}`) makes the validator recurse without
/// bound.
#[verifier::external_body]
fn schema_issues(schema: &str, instance: &str) -> (r: Option<Vec<String>>)
    requires
        is_service_schema(schema@),
    ensures
        match r {
            Some(v) => json_schema_issues(schema@, instance@) == Some(
                v@.map_values(|s: String| s@),
            ),
            None => json_schema_issues(schema@, instance@) is None,
        },
{
    let schema: serde_json::Value = serde_json::from_str(schema).ok()?;
    let instance: serde_json::Value = serde_json::from_str(instance).ok()?;
    let compiled = jsonschema::JSONSchema::compile(&schema).ok()?;
    let issues: Vec<String> = match compiled.validate(&instance) {
        Ok(()) => Vec::new(),
        Err(errors) => errors.map(|e| format!("{}", e)).collect(),
    };
    Some(issues)
}

/// Checks `from_api` against one of the service's schemas: `None` where the
/// check cannot be run, `Ok` for a valid instance, and the violation
/// messages otherwise.
pub fn validate(schema: &str, from_api: &str) -> (r: Option<Result<(), Vec<String>>>)
    requires
        is_service_schema(schema@),
    ensures
        match json_schema_issues(schema@, from_api@) {
            None => r is None,
            Some(issues) => if issues.len() == 0 {
                r == Some(Ok::<(), Vec<String>>(()))
            } else {
                r matches Some(Err(v)) && v@.map_values(|s: String| s@) == issues
            },
        },
{
    match schema_issues(schema, from_api) {
        None => None,
        Some(v) => {
            if v.len() == 0 {
                Some(Ok(()))
            } else {
                Some(Err(v))
            }
        },
    }
}

/// JSON text of an optional string: the quoted string, or `null`.
pub open spec fn opt_string_json(v: Option<String>) -> Option<Seq<char>> {
    match v {
        Some(s) => Some(json_quoted(s@)),
        None => Some("null"@),
    }
}

/// JSON text of an optional integer: its decimal text, or `null`.
pub open spec fn opt_int_json(v: Option<i32>) -> Seq<char> {
    match v {
        Some(i) => decimal_text(i as int),
        None => "null"@,
    }
}

/// The member `"name":value` of a JSON object.
pub open spec fn member(name: Seq<char>, value: Seq<char>) -> Seq<char> {
    seq!['"'] + name + seq!['"', ':'] + value
}

pub(crate) fn opt_string_text(v: &Option<String>) -> (r: Option<String>)
    ensures
        match r {
            Some(t) => opt_string_json(*v) == Some(t@),
            None => opt_string_json(*v) is None,
        },
{
    match v {
        Some(s) => Some(quote(s.as_str())),
        None => Some(String::from_str("null")),
    }
}

pub(crate) fn opt_int_text(v: Option<i32>) -> (r: String)
    ensures
        r@ == opt_int_json(v),
{
    match v {
        Some(i) => decimal(i as i64),
        None => String::from_str("null"),
    }
}

/// Appends `"name":value`, preceded by `lead`.
pub(crate) fn push_member(out: &mut String, lead: &str, name: &str, value: &str)
    ensures
        final(out)@ == old(out)@ + lead@ + member(name@, value@),
{
    out.append(lead);
    out.append("\"");
    out.append(name);
    out.append("\":");
    out.append(value);
    proof {
        reveal_strlit("\"");
        reveal_strlit("\":");
        assert(out@ =~= old(out)@ + lead@ + member(name@, value@));
    }
}

} // verus!
