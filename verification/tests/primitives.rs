use auth_api::cache::{
    deleted_one, present, written, AddNewPair, BanUser, CacheCommand, DelToken, DelTokenPair,
    IsTokenOwnerRevoked, PairLookup, TokenPairExists,
};
use auth_api::clock::{
    current_time, is_token_expired, is_token_expired_at, seconds_after, Instant, MAX_TIMESTAMP,
    MIN_TIMESTAMP,
};
use auth_api::object_id::{is_valid_object_id, object_id_from_text, object_id_text, ObjectId};
use auth_api::passwords::{hash_is_verifiable, hash_password, salt_is_usable, verify_password};
use auth_api::rbac::strip_whitespace;
use auth_api::resources::{CreateOrUpdateResource, Method, Resources, UpsertPlan};
use auth_api::text::{same_text, surround};

const SALT: &str = "bvIG6Nmid91Mu9RcmmWZfO";

fn words(c: &CacheCommand) -> Vec<&str> {
    c.args.iter().map(|s| s.as_str()).collect()
}

#[test]
fn text_helpers() {
    assert!(same_text("abc", "abc"));
    assert!(!same_text("abc", "abd"));
    assert!(!same_text("abc", "ab"));
    let neg = BanUser { id: "u".to_string(), dur: -86400 };
    assert_eq!(words(&neg.command())[4], "-86400");
    let zero = BanUser { id: "u".to_string(), dur: 0 };
    assert_eq!(words(&zero.command())[4], "0");
    assert_eq!(surround(".*", "ann", ".*"), ".*ann.*");
}

#[test]
fn object_id_text_round_trip() {
    let id = object_id_from_text("507F1F77bcf86cd799439011").unwrap();
    assert_eq!(id.bytes, [0x50, 0x7f, 0x1f, 0x77, 0xbc, 0xf8, 0x6c, 0xd7, 0x99, 0x43, 0x90, 0x11]);
    assert_eq!(object_id_text(&id), "507f1f77bcf86cd799439011");
    let zero = ObjectId { bytes: [0u8; 12] };
    assert_eq!(object_id_text(&zero), "000000000000000000000000");
}

#[test]
fn object_id_rejects_bad_text() {
    assert!(is_valid_object_id("507f1f77bcf86cd799439011"));
    assert!(!is_valid_object_id("507f1f77bcf86cd79943901"));
    assert!(!is_valid_object_id("507f1f77bcf86cd79943901g"));
    assert!(!is_valid_object_id(""));
    assert!(object_id_from_text("not an id").is_none());
}

#[test]
fn known_bcrypt_hash_verifies() {
    let stored = "$2y$05$bvIG6Nmid91Mu9RcmmWZfO5HJIMCT8riNW0hEp8f6/FuA2/mHZFpe".to_string();
    assert!(hash_is_verifiable(&stored));
    assert!(verify_password(stored.clone(), "password".to_string()));
    assert!(!verify_password(stored, "Password".to_string()));
}

#[test]
fn hashed_password_verifies() {
    assert!(salt_is_usable(SALT));
    let h = hash_password(SALT, "correct horse".to_string()).unwrap();
    assert!(h.starts_with("$2b$10$bvIG6Nmid91Mu9RcmmWZfO"));
    assert_eq!(h.len(), 60);
    assert_ne!(h, "correct horse");
    assert!(verify_password(h.clone(), "correct horse".to_string()));
    assert!(!verify_password(h, "wrong horse".to_string()));
}

#[test]
fn hashing_is_deterministic_under_fixed_salt() {
    let a = hash_password(SALT, "same password".to_string()).unwrap();
    let b = hash_password(SALT, "same password".to_string()).unwrap();
    assert_eq!(a, b);
}

#[test]
fn bad_salt_is_refused_or_detected() {
    assert!(!salt_is_usable("bvIG\u{1}6Nmid91Mu9RcmmWZfO"));
    assert!(!salt_is_usable("\u{80}"));
    assert!(!salt_is_usable("bv!\u{1}"));
    // the salt must be exactly 22 characters of bcrypt's alphabet
    assert!(!salt_is_usable("bvIG6Nmid91Mu9RcmmWZf"));
    assert!(!salt_is_usable("bvIG6Nmid91Mu9RcmmWZfOO"));
    assert!(hash_password("bvIG6Nmid91Mu9RcmmWZf", "pw".to_string()).is_err());
    assert!(hash_password("bv!Nmid91Mu9RcmmWZfOaa", "pw".to_string()).is_err());
    let h = hash_password(SALT, "pw".to_string()).unwrap();
    assert!(hash_is_verifiable(&h));
}

#[test]
fn malformed_stored_hash_is_detected() {
    assert!(!hash_is_verifiable("$2b$10$\u{1}vIG6Nmid91Mu9RcmmWZfO5HJIMCT8riNW0hEp8f6/FuA2/mHZFpe"));
    assert!(hash_is_verifiable("$2b$99$\u{1}vIG6Nmid91Mu9RcmmWZfO"));
    assert!(hash_is_verifiable("plain text"));
    assert!(!verify_password("plain text".to_string(), "plain text".to_string()));
}

#[test]
fn clock_range_matches_calendar() {
    assert!(chrono::DateTime::from_timestamp(MIN_TIMESTAMP, 0).is_some());
    assert!(chrono::DateTime::from_timestamp(MIN_TIMESTAMP - 1, 0).is_none());
    assert!(chrono::DateTime::from_timestamp(MAX_TIMESTAMP, 999_999_999).is_some());
    assert!(chrono::DateTime::from_timestamp(MAX_TIMESTAMP + 1, 0).is_none());
}

#[test]
fn clock_reading_is_current() {
    let t = current_time();
    let now = chrono::Utc::now().timestamp();
    assert!(t.secs <= now && now - t.secs <= 5);
    assert!(t.nanos < 1_000_000_000);
}

#[test]
fn expiry_counts_whole_seconds() {
    let now = Instant { secs: 1_000, nanos: 500_000_000 };
    assert!(!is_token_expired_at(995, 10, now));
    assert!(is_token_expired_at(990, 10, now));
    assert!(!is_token_expired_at(991, 10, now));
    // a negative gap with a fraction is truncated toward zero
    assert!(is_token_expired_at(1_001, 0, now));
    assert!(!is_token_expired_at(1_002, 0, now));
    assert!(is_token_expired(0, 10));
    assert!(!is_token_expired(chrono::Utc::now().timestamp() + 100, 10));
}

#[test]
fn seconds_after_stays_in_range() {
    let now = Instant { secs: 100, nanos: 0 };
    assert_eq!(seconds_after(now, 86400), Some(86500));
    let late = Instant { secs: MAX_TIMESTAMP - 5, nanos: 0 };
    assert_eq!(seconds_after(late, 10), None);
    assert_eq!(seconds_after(late, 5), Some(MAX_TIMESTAMP));
}

#[test]
fn method_names_round_trip() {
    let all = [
        Method::GET,
        Method::POST,
        Method::PUT,
        Method::DELETE,
        Method::HEAD,
        Method::CONNECT,
        Method::OPTIONS,
        Method::TRACE,
        Method::PATCH,
        Method::INVALID,
    ];
    for m in all {
        assert_eq!(Method::from_name(m.name()), m);
        if m != Method::HEAD {
            assert_eq!(Method::from_request(m.name()), m);
        }
    }
    assert_eq!(Method::from_request("HEAD"), Method::INVALID);
    assert_eq!(Method::from_name("get"), Method::INVALID);
    assert_eq!(Method::from_name("FETCH"), Method::INVALID);
}

#[test]
fn resource_registration_plan() {
    let msg = CreateOrUpdateResource { method: Method::POST, path: "/api/users".to_string(), access: 100 };
    let r = Resources::new(&msg);
    assert_eq!((r.method, r.path.as_str(), r.access), (Method::POST, "/api/users", 100));
    assert!(matches!(msg.plan(Ok(true)), UpsertPlan::UpdateAccess));
    assert!(matches!(msg.plan(Err(())), UpsertPlan::Fail));
    match msg.plan(Ok(false)) {
        UpsertPlan::Insert(res) => assert_eq!(res.access, 100),
        _ => panic!("expected an insertion"),
    }
}

#[test]
fn whitespace_is_stripped_from_bearer() {
    assert_eq!(strip_whitespace(" ab c\t\nd\u{2003}e "), "abcde");
    assert_eq!(strip_whitespace(""), "");
}

#[test]
fn cache_commands() {
    let pair = AddNewPair {
        access_tok: "acc".to_string(),
        refresh_tok: "ref".to_string(),
        access_exp: 10,
        refresh_exp: 86400,
    };
    let t = pair.commands();
    assert_eq!(words(&t.first), vec!["SET", "acc", "ref", "EX", "10"]);
    assert_eq!(words(&t.second), vec!["SET", "ref", "acc", "EX", "86400"]);
    let ban = BanUser { id: "u1".to_string(), dur: 86400 };
    assert_eq!(words(&ban.command()), vec!["SET", "u1", "u1", "EX", "86400"]);
    let q = TokenPairExists { token: "ref".to_string() };
    assert_eq!(words(&q.command()), vec!["GET", "ref"]);
    match TokenPairExists::after_token(Ok(Some("acc".to_string()))) {
        PairLookup::ReadPartner(c) => assert_eq!(words(&c), vec!["GET", "acc"]),
        _ => panic!("expected a second read"),
    }
    assert!(matches!(TokenPairExists::after_token(Ok(None)), PairLookup::Answer(Ok(false))));
    assert!(matches!(TokenPairExists::after_token(Err(())), PairLookup::Answer(Err(()))));
    let del = DelTokenPair { token: "ref".to_string() };
    let (d1, d2) = del.after_token(Ok(Some("acc".to_string()))).unwrap();
    assert_eq!(words(&d1), vec!["DEL", "acc"]);
    assert_eq!(words(&d2), vec!["DEL", "ref"]);
    assert!(del.after_token(Ok(None)).is_err());
}

#[test]
fn cache_replies() {
    assert_eq!(present(Ok(Some("x".to_string()))), Ok(true));
    assert_eq!(present(Ok(None)), Ok(false));
    assert_eq!(present(Err(())), Err(()));
    assert_eq!(deleted_one(Ok(Some(1))), Ok(()));
    assert_eq!(deleted_one(Ok(Some(0))), Err(()));
    assert_eq!(deleted_one(Ok(None)), Err(()));
    assert_eq!(written::<String>(Ok("OK".to_string())), Ok(()));
    assert_eq!(written::<String>(Err(())), Err(()));
}

fn apply(store: &mut std::collections::HashMap<String, String>, c: &CacheCommand) -> Option<String> {
    match c.args[0].as_str() {
        "SET" => {
            store.insert(c.args[1].clone(), c.args[2].clone());
            None
        }
        "DEL" => store.remove(&c.args[1]),
        "GET" => store.get(&c.args[1]).cloned(),
        _ => None,
    }
}

#[test]
fn cache_protocol_on_a_map() {
    let mut store = std::collections::HashMap::new();
    let pair = AddNewPair { access_tok: "acc".to_string(), refresh_tok: "ref".to_string(), access_exp: 10, refresh_exp: 86400 };
    let t = pair.commands();
    apply(&mut store, &t.first);
    apply(&mut store, &t.second);
    // the pair check of the refresh token finds the access token while it is stored
    let check = TokenPairExists { token: "ref".to_string() };
    let first = apply(&mut store, &check.command());
    match TokenPairExists::after_token(Ok(first)) {
        PairLookup::ReadPartner(c) => assert_eq!(present(Ok(apply(&mut store, &c))), Ok(true)),
        _ => panic!("expected a second read"),
    }
    // the access token's one use deletes it; then the partner read finds nothing
    apply(&mut store, &DelToken { token: "acc".to_string() }.command());
    let first = apply(&mut store, &check.command());
    match TokenPairExists::after_token(Ok(first)) {
        PairLookup::ReadPartner(c) => assert_eq!(present(Ok(apply(&mut store, &c))), Ok(false)),
        _ => panic!("expected a second read"),
    }
    // revocation removes both tokens
    let t = pair.commands();
    apply(&mut store, &t.first);
    apply(&mut store, &t.second);
    let revoke = DelTokenPair { token: "ref".to_string() };
    let first = apply(&mut store, &revoke.command());
    let (d1, d2) = revoke.after_token(Ok(first)).unwrap();
    apply(&mut store, &d1);
    apply(&mut store, &d2);
    assert!(store.is_empty());
    // a ban is what the revocation check reads
    let ban = BanUser { id: "u1".to_string(), dur: 86400 };
    apply(&mut store, &ban.command());
    let q = IsTokenOwnerRevoked { id: "u1".to_string() };
    assert_eq!(present(Ok(apply(&mut store, &q.command()))), Ok(true));
}

#[test]
fn object_id_text_reads_back() {
    for bytes in [[0u8; 12], [255u8; 12], [0x0f, 0xf0, 1, 2, 3, 4, 5, 6, 7, 8, 9, 0xab]] {
        let id = ObjectId { bytes };
        let text = object_id_text(&id);
        assert!(is_valid_object_id(&text));
        assert_eq!(object_id_from_text(&text).unwrap().bytes, bytes);
    }
}

#[test]
fn json_strings_are_written_as_serde_json_writes_them() {
    let samples = [
        "plain",
        "",
        "quote \" and back\\slash",
        "\u{0}\u{1}\u{8}\u{9}\u{a}\u{b}\u{c}\u{d}\u{1f}\u{7f} end",
        "caf\u{e9} \u{2028} \u{1f600}",
    ];
    for t in samples {
        let body = auth_api::requests::UserDataSignOut { refresh_token: Some(t.to_string()) };
        let expected = format!("{{\"refresh_token\":{}}}", serde_json::to_string(t).unwrap());
        assert_eq!(body.to_json(), Some(expected));
    }
    let none = auth_api::requests::UserDataSignOut { refresh_token: None };
    assert_eq!(none.to_json(), Some("{\"refresh_token\":null}".to_string()));
}

#[test]
fn whitespace_agrees_with_std() {
    for v in 0u32..0x11_0000 {
        if let Some(c) = char::from_u32(v) {
            let stripped = strip_whitespace(&c.to_string());
            assert_eq!(stripped.is_empty(), c.is_whitespace(), "U+{:04X}", v);
        }
    }
}

#[test]
fn decimal_text_of_extremes() {
    for d in [i64::MIN, i64::MIN + 1, -1, 0, 9, 10, 1234567890, i64::MAX] {
        let ban = BanUser { id: "u".to_string(), dur: d };
        assert_eq!(words(&ban.command())[4], d.to_string().as_str());
    }
}
