//! JSON schemas of the request bodies.

use vstd::prelude::*;

verus! {

/// Schema of a sign-in body: an email address and a password of 8 to 128
/// characters.
pub const SIGN_IN_SCHEMA: &'static str = r#"{
        "$schema": "https://json-schema.org/draft/2020-12/schema",
        "$id": "https://example.com/product.schema.json",
        "title": "Product",
        "description": "A product from Acme's catalog",
        "type": "object",
        "properties": {
            "email": {
                "description": "User's email",
                "type": "string",
                "format": "email"
            },
            "password": {
                "description": "User's password",
                "type": "string",
                "minLength": 8,
                "maxLength": 128
            }
        },
        "required": [ "email", "password" ]
    }"#;

/// The schema text.
pub fn get_sign_in_schema() -> (r: &'static str)
    ensures
        r@ == SIGN_IN_SCHEMA@,
{
    SIGN_IN_SCHEMA
}

/// Schema of a sign-up body.  The second `first_name` entry (meant for the
/// last name) replaces the first, as the later of two equal keys does.
pub const SIGN_UP_SCHEMA: &'static str = r#"{
        "$schema": "https://json-schema.org/draft/2020-12/schema",
        "$id": "https://example.com/product.schema.json",
        "title": "Product",
        "description": "A product from Acme's catalog",
        "type": "object",
        "properties": {
            "email": {
                "description": "User's email",
                "type": "string",
                "format": "email"
            },
            "password": {
                "description": "User's password",
                "type": "string",
                "minLength": 8,
                "maxLength": 128
            },
            "first_name": {
                "description": "User's name",
                "type": "string"
            },
            "first_name": {
                "description": "User's last name",
                "type": "string"
            }
        },
        "required": [ "email", "password", "first_name", "last_name"]
    }"#;

/// The schema text.
pub fn get_sign_up_schema() -> (r: &'static str)
    ensures
        r@ == SIGN_UP_SCHEMA@,
{
    SIGN_UP_SCHEMA
}

/// Schema of a sign-out body: a refresh token.
pub const SIGN_OUT_SCHEMA: &'static str = r#"{
        "$schema": "https://json-schema.org/draft/2020-12/schema",
        "type": "object",
        "properties": {
            "refresh_token": {
                "description": "Refresh token of the pair to revoke",
                "type": "string"
            }
        },
        "required": [ "refresh_token" ]
    }"#;

/// The schema text.
pub fn get_sign_out_schema() -> (r: &'static str)
    ensures
        r@ == SIGN_OUT_SCHEMA@,
{
    SIGN_OUT_SCHEMA
}

/// Schema of a token refresh body: a refresh token.
pub const REFRESH_SCHEMA: &'static str = r#"{
        "$schema": "https://json-schema.org/draft/2020-12/schema",
        "type": "object",
        "properties": {
            "refresh_token": {
                "description": "Refresh token to exchange",
                "type": "string"
            }
        },
        "required": [ "refresh_token" ]
    }"#;

/// The schema text.
pub fn get_refresh_schema() -> (r: &'static str)
    ensures
        r@ == REFRESH_SCHEMA@,
{
    REFRESH_SCHEMA
}

/// Schema of an administrator's body for creating a user.
pub const CREATE_SCHEMA: &'static str = r#"{
        "$schema": "https://json-schema.org/draft/2020-12/schema",
        "$id": "https://cloud.project/create.schema.json",
        "title": "Create",
        "description": "Admin's Create user form",
        "type": "object",
        "properties": {
            "email": {
                "description": "User's email",
                "type": "string",
                "format": "email"
            },
            "password": {
                "description": "User's password",
                "type": "string",
                "minLength": 8,
                "maxLength": 128
            },
            "first_name": {
                "description": "User's name",
                "type": "string"
            },
            "first_name": {
                "description": "User's last name",
                "type": "string"
            },
            "access_level": {
                "description" : "User's access level",
                "type" : "integer",
                "minimum" : 0
            }
        },
        "required": [ "email", "password", "first_name", "last_name", "access_level"]
    }"#;

/// The schema text.
pub fn get_create_schema() -> (r: &'static str)
    ensures
        r@ == CREATE_SCHEMA@,
{
    CREATE_SCHEMA
}

/// Schema of a user's body for changing their account: at least one of the
/// fields present.
pub const UPDATE_SCHEMA: &'static str = r#"{
        "$schema": "https://json-schema.org/draft/2020-12/schema",
        "$id": "https://cloud.project/update.schema.json",
        "title": "Create",
        "description": "Admin's Create user form",
        "type": "object",
        "properties": {
            "email": {
                "description": "User's email",
                "type": ["string", "null"],
                "format": "email"
            },
            "first_name": {
                "description": "User's name",
                "type": ["string", "null"]
            },
            "password": {
                "description": "User's password",
                "type": ["string", "null"],
                "minLength": 8,
                "maxLength": 128
            },
            "first_name": {
                "description": "User's last name",
                "type": ["string", "null"]
            }
        },
        "anyOf" : [
            {"required": [ "email" ]},
            {"required": [ "password" ]},
            {"required": [ "first_name" ]},
            {"required": [ "last_name"]}
        ]
    }"#;

/// The schema text.
pub fn get_update_schema() -> (r: &'static str)
    ensures
        r@ == UPDATE_SCHEMA@,
{
    UPDATE_SCHEMA
}

/// Schema of an administrator's body for changing a user.
pub const ADMIN_UPDATE_SCHEMA: &'static str = r#"{
        "$schema": "https://json-schema.org/draft/2020-12/schema",
        "$id": "https://cloud.project/admin.update.schema.json",
        "title": "Create",
        "description": "Admin's Create user form",
        "type": "object",
        "properties": {
            "email": {
                "description": "User's email",
                "type": ["string", "null"],
                "format": "email"
            },
            "first_name": {
                "description": "User's name",
                "type": ["string", "null"]
            },
            "password": {
                "description": "User's password",
                "type": ["string", "null"],
                "minLength": 8,
                "maxLength": 128
            },
            "first_name": {
                "description": "User's last name",
                "type": ["string", "null"]
            },
            "access_level": {
                "description" : "User's access level",
                "type" : ["string", "null"],
                "minimum" : 0
            }
        },
        "anyOf" : [
            {"required": [ "email" ]},
            {"required": [ "password" ]},
            {"required": [ "first_name" ]},
            {"required": [ "last_name"]},
            {"required": [ "access_level"]}
        ]
    }"#;

/// The schema text.
pub fn get_admin_update_schema() -> (r: &'static str)
    ensures
        r@ == ADMIN_UPDATE_SCHEMA@,
{
    ADMIN_UPDATE_SCHEMA
}

/// Whether `s` is the text of one of the service's request schemas.
pub open spec fn is_service_schema(s: Seq<char>) -> bool {
    ||| s == SIGN_IN_SCHEMA@
    ||| s == SIGN_UP_SCHEMA@
    ||| s == SIGN_OUT_SCHEMA@
    ||| s == REFRESH_SCHEMA@
    ||| s == CREATE_SCHEMA@
    ||| s == UPDATE_SCHEMA@
    ||| s == ADMIN_UPDATE_SCHEMA@
}

} // verus!
