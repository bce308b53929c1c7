use auth_api::cache::{CacheAnswer, CacheRequest};
use auth_api::clock::{Instant, MAX_TIMESTAMP};
use auth_api::tokens::{
    gen_tokens_claims, gen_tokens_claims_at, gen_tokens_outcome, gen_tokens_store,
    refresh_token_reissued, refresh_token_start_at, refresh_token_step, revoke_token_outcome,
    revoke_token_request, verify_token_and_get_user_id_at, verify_token_start, verify_token_start_at,
    verify_token_step, Claims, RefreshToken, TokenType, VerifyToken, ACCESS_TOKEN_LIFETIME,
    REFRESH_TOKEN_LIFETIME,
};

const USER: &str = "507f1f77bcf86cd799439011";

fn claims(kind: TokenType, exp: i64) -> Claims {
    Claims { user_id: USER.to_string(), user_access_level: 7, token_use_case: kind, exp, issued: 0 }
}

fn now() -> Instant {
    Instant { secs: 1_000_000, nanos: 250 }
}

fn verify_run(decoded: Option<Claims>, answers: &[CacheAnswer]) -> VerifyToken {
    let mut s = verify_token_start_at("tok".to_string(), decoded, now());
    for a in answers {
        s = verify_token_step(s, *a);
    }
    s
}

fn refresh_run(decoded: Option<Claims>, answers: &[CacheAnswer]) -> RefreshToken {
    let mut s = refresh_token_start_at("ref".to_string(), decoded, now());
    for a in answers {
        s = refresh_token_step(s, *a);
    }
    s
}

#[test]
fn claims_expire_after_their_lifetime() {
    let c = Claims::issued_at("u".to_string(), 5, TokenType::ACCESS, now(), 10).unwrap();
    assert_eq!((c.user_id.as_str(), c.user_access_level, c.token_use_case), ("u", 5, TokenType::ACCESS));
    assert_eq!(c.exp, 1_000_010);
    assert_eq!(c.issued, 250);
    let late = Instant { secs: MAX_TIMESTAMP - 5, nanos: 0 };
    assert!(Claims::issued_at("u".to_string(), 5, TokenType::ACCESS, late, 10).is_none());
    let fresh = Claims::new("u".to_string(), 1, TokenType::REFRESH, 86400).unwrap();
    let t = chrono::Utc::now().timestamp();
    assert!(fresh.exp - t <= 86400 && fresh.exp - t >= 86395);
}

#[test]
fn issued_pair_has_both_lifetimes() {
    let (a, r) = gen_tokens_claims_at(USER, 3, now()).unwrap();
    assert_eq!(a.token_use_case, TokenType::ACCESS);
    assert_eq!(r.token_use_case, TokenType::REFRESH);
    assert_eq!(a.exp, 1_000_000 + ACCESS_TOKEN_LIFETIME);
    assert_eq!(r.exp, 1_000_000 + REFRESH_TOKEN_LIFETIME);
    assert_eq!((a.user_id.as_str(), a.user_access_level), (USER, 3));
    assert_eq!((r.user_id.as_str(), r.user_access_level), (USER, 3));
    assert!(gen_tokens_claims_at(USER, 3, Instant { secs: MAX_TIMESTAMP - 100, nanos: 0 }).is_none());
    let (a2, r2) = gen_tokens_claims(USER, 3).unwrap();
    assert_eq!(r2.exp - a2.exp, REFRESH_TOKEN_LIFETIME - ACCESS_TOKEN_LIFETIME);
}

#[test]
fn issued_pair_is_stored_then_returned() {
    let stored = gen_tokens_store(Ok("A".to_string()), Ok("R".to_string())).unwrap();
    assert_eq!((stored.access_tok.as_str(), stored.refresh_tok.as_str()), ("A", "R"));
    assert_eq!((stored.access_exp, stored.refresh_exp), (10, 86400));
    assert!(gen_tokens_store(Err(()), Ok("R".to_string())).is_err());
    assert!(gen_tokens_store(Ok("A".to_string()), Err(())).is_err());
    assert_eq!(gen_tokens_outcome(stored, CacheAnswer::Done), Ok(("A".to_string(), "R".to_string())));
    let again = gen_tokens_store(Ok("A".to_string()), Ok("R".to_string())).unwrap();
    assert_eq!(gen_tokens_outcome(again, CacheAnswer::Failed), Err(()));
}

#[test]
fn access_token_accepted_once_all_checks_pass() {
    let live = now().secs;
    let s = verify_token_start_at("tok".to_string(), Some(claims(TokenType::ACCESS, live)), now());
    match s.request() {
        Some(CacheRequest::IsTokenOwnerRevoked(m)) => assert_eq!(m.id, USER),
        other => panic!("unexpected {:?}", other),
    }
    let s = verify_token_step(s, CacheAnswer::No);
    match s.request() {
        Some(CacheRequest::TokenExists(m)) => assert_eq!(m.token, "tok"),
        other => panic!("unexpected {:?}", other),
    }
    let s = verify_token_step(s, CacheAnswer::Yes);
    match s.request() {
        Some(CacheRequest::DelToken(m)) => assert_eq!(m.token, "tok"),
        other => panic!("unexpected {:?}", other),
    }
    let s = verify_token_step(s, CacheAnswer::Done);
    assert!(s.request().is_none());
    assert_eq!(s.outcome(), Some(Ok((USER.to_string(), 7))));
}

#[test]
fn access_token_refusals() {
    let live = now().secs;
    let ok = [CacheAnswer::No, CacheAnswer::Yes, CacheAnswer::Done];
    // a failed ban check does not stop the verification
    let failed_ban = [CacheAnswer::Failed, CacheAnswer::Yes, CacheAnswer::Done];
    assert!(matches!(verify_run(Some(claims(TokenType::ACCESS, live)), &failed_ban), VerifyToken::Done(Ok(_))));
    // banned owner
    let banned = [CacheAnswer::Yes, CacheAnswer::Yes, CacheAnswer::Done];
    assert!(matches!(verify_run(Some(claims(TokenType::ACCESS, live)), &banned), VerifyToken::Done(Err(()))));
    // token not stored
    let missing = [CacheAnswer::No, CacheAnswer::No, CacheAnswer::Done];
    assert!(matches!(verify_run(Some(claims(TokenType::ACCESS, live)), &missing), VerifyToken::Done(Err(()))));
    // deletion failed
    let undeleted = [CacheAnswer::No, CacheAnswer::Yes, CacheAnswer::Failed];
    assert!(matches!(verify_run(Some(claims(TokenType::ACCESS, live)), &undeleted), VerifyToken::Done(Err(()))));
    // a refresh token is no access token
    assert!(matches!(verify_run(Some(claims(TokenType::REFRESH, live)), &ok), VerifyToken::Done(Err(()))));
    // expired: ten whole seconds past the expiry
    assert!(matches!(verify_run(Some(claims(TokenType::ACCESS, live - 10)), &ok), VerifyToken::Done(Err(()))));
    assert!(matches!(verify_run(Some(claims(TokenType::ACCESS, live - 9)), &ok), VerifyToken::Done(Ok(_))));
    // undecodable
    assert!(matches!(verify_run(None, &ok), VerifyToken::Done(Err(()))));
    // the clock-reading start agrees on an obviously live token
    let far = chrono::Utc::now().timestamp() + 1000;
    assert!(matches!(
        verify_token_start("tok".to_string(), Some(claims(TokenType::ACCESS, far))),
        VerifyToken::AwaitRevocation { .. }
    ));
}

#[test]
fn refresh_token_exchange_runs() {
    let live = now().secs;
    let s = refresh_token_start_at("ref".to_string(), Some(claims(TokenType::REFRESH, live)), now());
    match s.request() {
        Some(CacheRequest::TokenExists(m)) => assert_eq!(m.token, "ref"),
        other => panic!("unexpected {:?}", other),
    }
    let s = refresh_token_step(s, CacheAnswer::Yes);
    match s.request() {
        Some(CacheRequest::TokenPairExists(m)) => assert_eq!(m.token, "ref"),
        other => panic!("unexpected {:?}", other),
    }
    let s = refresh_token_step(s, CacheAnswer::No);
    match s.request() {
        Some(CacheRequest::DelToken(m)) => assert_eq!(m.token, "ref"),
        other => panic!("unexpected {:?}", other),
    }
    let s = refresh_token_step(s, CacheAnswer::Done);
    assert!(s.request().is_none());
    match s {
        RefreshToken::Reissue { user_id, level } => assert_eq!((user_id.as_str(), level), (USER, 7)),
        other => panic!("unexpected {:?}", other),
    }
}

#[test]
fn refresh_token_refusal_codes() {
    let live = now().secs;
    let c = || Some(claims(TokenType::REFRESH, live));
    assert!(matches!(refresh_run(c(), &[CacheAnswer::No]), RefreshToken::Done(Err(0))));
    assert!(matches!(refresh_run(c(), &[CacheAnswer::Failed]), RefreshToken::Done(Err(1))));
    assert!(matches!(refresh_run(c(), &[CacheAnswer::Yes, CacheAnswer::Yes]), RefreshToken::Done(Err(2))));
    assert!(matches!(refresh_run(c(), &[CacheAnswer::Yes, CacheAnswer::Undelivered]), RefreshToken::Done(Err(1))));
    assert!(matches!(
        refresh_run(c(), &[CacheAnswer::Yes, CacheAnswer::No, CacheAnswer::Undelivered]),
        RefreshToken::Done(Err(1))
    ));
    // a deletion that the cache refuses still goes on to the new pair
    assert!(matches!(
        refresh_run(c(), &[CacheAnswer::Yes, CacheAnswer::No, CacheAnswer::Failed]),
        RefreshToken::Reissue { .. }
    ));
    assert!(matches!(refresh_run(Some(claims(TokenType::ACCESS, live)), &[]), RefreshToken::Done(Err(0))));
    assert!(matches!(refresh_run(Some(claims(TokenType::REFRESH, live - 86400)), &[]), RefreshToken::Done(Err(0))));
    assert!(matches!(refresh_run(None, &[]), RefreshToken::Done(Err(0))));
    assert_eq!(refresh_token_reissued(Ok(("a".to_string(), "r".to_string()))), Ok(("a".to_string(), "r".to_string())));
    assert_eq!(refresh_token_reissued(Err(())), Err(0));
}

#[test]
fn revocation_outcomes() {
    assert_eq!(revoke_token_request("ref".to_string()).token, "ref");
    assert_eq!(revoke_token_outcome(CacheAnswer::Done), Ok(true));
    assert_eq!(revoke_token_outcome(CacheAnswer::Failed), Ok(false));
    assert_eq!(revoke_token_outcome(CacheAnswer::Undelivered), Err(()));
}

#[test]
fn user_of_access_token() {
    let live = now().secs;
    let id = verify_token_and_get_user_id_at(Some(claims(TokenType::ACCESS, live)), now()).unwrap();
    assert_eq!(id.bytes[0], 0x50);
    assert_eq!(id.bytes[11], 0x11);
    assert!(verify_token_and_get_user_id_at(Some(claims(TokenType::REFRESH, live)), now()).is_err());
    assert!(verify_token_and_get_user_id_at(Some(claims(TokenType::ACCESS, live - 10)), now()).is_err());
    assert!(verify_token_and_get_user_id_at(None, now()).is_err());
}
