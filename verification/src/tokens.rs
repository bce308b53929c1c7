//! Access and refresh tokens: their claims, how a pair is issued, how an
//! access token is verified, how a refresh token is exchanged for a new
//! pair, and how a pair is revoked.
//!
//! Encoding and decoding the signed token text happens where the claims are
//! serialised; the procedures here take the decoded claims (or their
//! absence, for a text that does not decode under the service's secret) and
//! the cache's answers, and decide.

use vstd::prelude::*;
use crate::cache::{
    AddNewPair, CacheAnswer, CacheRequest, DelToken, DelTokenPair, IsTokenOwnerRevoked,
    TokenExists, TokenPairExists, after_command, del_words, get_words, presence, read_value,
    with_pair, law_stored_pair_links_tokens,
};
use crate::clock::{
    Instant, MAX_DURATION_SECS, MAX_TIMESTAMP, MIN_TIMESTAMP, current_time, expired_at,
    is_clock_reading, is_representable, is_token_expired_at, seconds_after,
};
use crate::object_id::{ObjectId, is_object_id_text, object_id_bytes};

verus! {

/// Seconds for which an access token is valid.
pub const ACCESS_TOKEN_LIFETIME: i64 = 10i64;

/// Seconds for which a refresh token is valid.
pub const REFRESH_TOKEN_LIFETIME: i64 = 86400i64;

/// What a token is for.
#[derive(Debug, Clone, Copy, PartialEq, Eq, Structural)]
pub enum TokenType {
    REFRESH,
    ACCESS,
}

/// The claims that a token carries.
#[derive(Debug)]
pub struct Claims {
    pub user_id: String,
    pub user_access_level: i32,
    pub token_use_case: TokenType,
    pub exp: i64,
    pub issued: u32,
}

/// Whether `c` claims exactly the given values.
pub open spec fn claims_are(
    c: Claims,
    user_id: Seq<char>,
    level: i32,
    kind: TokenType,
    exp: int,
    issued: int,
) -> bool {
    &&& c.user_id@ == user_id
    &&& c.user_access_level == level
    &&& c.token_use_case == kind
    &&& c.exp == exp
    &&& c.issued == issued
}

/// Whether `exp` is a second that the calendar can hold.
pub fn expiry_is_representable(exp: i64) -> (r: bool)
    ensures
        r == is_representable(exp as int),
{
    MIN_TIMESTAMP <= exp && exp <= MAX_TIMESTAMP
}

impl Claims {
    /// The claims of a token issued at `now` for `dur` seconds: expiring at
    /// `now + dur` and stamped with the sub-second nanoseconds of `now`;
    /// `None` where the expiry leaves the calendar's range.
    pub fn issued_at(
        user_id: String,
        user_access_level: i32,
        token_use_case: TokenType,
        now: Instant,
        dur: i64,
    ) -> (r: Option<Claims>)
        requires
            is_clock_reading(now),
            -MAX_DURATION_SECS <= dur <= MAX_DURATION_SECS,
        ensures
            r is Some <==> is_representable(now.secs + dur),
            r matches Some(c) ==> claims_are(
                c,
                user_id@,
                user_access_level,
                token_use_case,
                now.secs + dur,
                now.nanos as int,
            ),
    {
        match seconds_after(now, dur) {
            Some(exp) => Some(
                Claims { user_id, user_access_level, token_use_case, exp, issued: now.nanos },
            ),
            None => None,
        }
    }

    /// The claims of a token issued now for `dur` seconds.
    pub fn new(user_id: String, user_access_level: i32, token_use_case: TokenType, dur: i64) -> (r:
        Option<Claims>)
        requires
            -MAX_DURATION_SECS <= dur <= MAX_DURATION_SECS,
        ensures
            exists|t: Instant|
                is_clock_reading(t) && (r is Some <==> is_representable(t.secs + dur)) && (
                r matches Some(c) ==> claims_are(
                    c,
                    user_id@,
                    user_access_level,
                    token_use_case,
                    t.secs + dur,
                    t.nanos as int,
                )),
    {
        let now = current_time();
        let ghost uid = user_id@;
        let r = Claims::issued_at(user_id, user_access_level, token_use_case, now, dur);
        assert(is_clock_reading(now) && (r is Some <==> is_representable(now.secs + dur)) && (
        r matches Some(c) ==> claims_are(
            c,
            uid,
            user_access_level,
            token_use_case,
            now.secs + dur,
            now.nanos as int,
        )));
        r
    }
}

// ---------------------------------------------------------------------------
// Issuing a pair
/// The claims of the pair issued to a user at `now`: an access token valid
/// for `ACCESS_TOKEN_LIFETIME` and a refresh token valid for
/// `REFRESH_TOKEN_LIFETIME` seconds; `None` where an expiry leaves the
/// calendar's range.
pub fn gen_tokens_claims_at(user_id: &str, user_access_level: i32, now: Instant) -> (r: Option<
    (Claims, Claims),
>)
    requires
        is_clock_reading(now),
    ensures
        r is Some <==> is_representable(now.secs + REFRESH_TOKEN_LIFETIME),
        r matches Some((access, refresh)) ==> claims_are(
            access,
            user_id@,
            user_access_level,
            TokenType::ACCESS,
            now.secs + ACCESS_TOKEN_LIFETIME,
            now.nanos as int,
        ) && claims_are(
            refresh,
            user_id@,
            user_access_level,
            TokenType::REFRESH,
            now.secs + REFRESH_TOKEN_LIFETIME,
            now.nanos as int,
        ),
{
    let refresh = Claims::issued_at(
        String::from_str(user_id),
        user_access_level,
        TokenType::REFRESH,
        now,
        REFRESH_TOKEN_LIFETIME,
    );
    let access = Claims::issued_at(
        String::from_str(user_id),
        user_access_level,
        TokenType::ACCESS,
        now,
        ACCESS_TOKEN_LIFETIME,
    );
    match (access, refresh) {
        (Some(a), Some(f)) => Some((a, f)),
        _ => None,
    }
}

/// The claims of the pair issued to a user now.
pub fn gen_tokens_claims(user_id: &str, user_access_level: i32) -> (r: Option<(Claims, Claims)>)
    ensures
        exists|t: Instant|
            is_clock_reading(t) && (r is Some <==> is_representable(
                t.secs + REFRESH_TOKEN_LIFETIME,
            )) && (r matches Some((access, refresh)) ==> claims_are(
                access,
                user_id@,
                user_access_level,
                TokenType::ACCESS,
                t.secs + ACCESS_TOKEN_LIFETIME,
                t.nanos as int,
            ) && claims_are(
                refresh,
                user_id@,
                user_access_level,
                TokenType::REFRESH,
                t.secs + REFRESH_TOKEN_LIFETIME,
                t.nanos as int,
            )),
{
    let now = current_time();
    let r = gen_tokens_claims_at(user_id, user_access_level, now);
    assert(is_clock_reading(now) && (r is Some <==> is_representable(
        now.secs + REFRESH_TOKEN_LIFETIME,
    )));
    r
}

/// The message that stores an encoded pair, each token expiring with its
/// lifetime; an error where either token could not be encoded.
pub fn gen_tokens_store(access_tok: Result<String, ()>, refresh_tok: Result<String, ()>) -> (r:
    Result<AddNewPair, ()>)
    ensures
        r is Ok <==> access_tok is Ok && refresh_tok is Ok,
        r matches Ok(m) ==> Ok::<String, ()>(m.access_tok) == access_tok && Ok::<String, ()>(
            m.refresh_tok,
        ) == refresh_tok && m.access_exp == ACCESS_TOKEN_LIFETIME && m.refresh_exp
            == REFRESH_TOKEN_LIFETIME,
{
    match (access_tok, refresh_tok) {
        (Ok(a), Ok(f)) => Ok(
            AddNewPair {
                access_tok: a,
                refresh_tok: f,
                access_exp: ACCESS_TOKEN_LIFETIME,
                refresh_exp: REFRESH_TOKEN_LIFETIME,
            },
        ),
        _ => Err(()),
    }
}

/// The issued pair (access token, refresh token) once the cache has stored
/// it; an error otherwise.
pub fn gen_tokens_outcome(stored: AddNewPair, answer: CacheAnswer) -> (r: Result<
    (String, String),
    (),
>)
    ensures
        r is Ok <==> answer == CacheAnswer::Done,
        r matches Ok((a, f)) ==> a == stored.access_tok && f == stored.refresh_tok,
{
    match answer {
        CacheAnswer::Done => Ok((stored.access_tok, stored.refresh_tok)),
        _ => Err(()),
    }
}

// ---------------------------------------------------------------------------
// Verifying an access token
/// Where the verification of an access token stands.
#[derive(Debug)]
pub enum VerifyToken {
    /// Waiting for whether the token's owner is banned.
    AwaitRevocation { token: String, user_id: String, level: i32 },
    /// Waiting for whether the token is stored.
    AwaitExistence { token: String, user_id: String, level: i32 },
    /// Waiting for the deletion of the token, which is good for one use.
    AwaitDeletion { token: String, user_id: String, level: i32 },
    /// Finished: the owner's identifier and access level, or a refusal.
    Done(Result<(String, i32), ()>),
}

/// Whether `c` claims an access token that has not expired at `now`.
pub open spec fn live_access_claims(c: Claims, now: Instant) -> bool {
    c.token_use_case == TokenType::ACCESS && !expired_at(
        c.exp as int,
        ACCESS_TOKEN_LIFETIME as int,
        now,
    )
}

/// Where the verification of `token` starts, given its decoded claims.
pub open spec fn verify_token_begin(token: String, decoded: Option<Claims>, now: Instant) -> VerifyToken {
    match decoded {
        Some(c) => if live_access_claims(c, now) {
            VerifyToken::AwaitRevocation { token, user_id: c.user_id, level: c.user_access_level }
        } else {
            VerifyToken::Done(Err(()))
        },
        None => VerifyToken::Done(Err(())),
    }
}

/// The next stand of a verification on the cache's answer: a banned owner
/// stops it (any other answer goes on), the token must be stored, and its
/// deletion must succeed.
pub open spec fn verify_token_next(s: VerifyToken, a: CacheAnswer) -> VerifyToken {
    match s {
        VerifyToken::AwaitRevocation { token, user_id, level } => if a == CacheAnswer::Yes {
            VerifyToken::Done(Err(()))
        } else {
            VerifyToken::AwaitExistence { token, user_id, level }
        },
        VerifyToken::AwaitExistence { token, user_id, level } => if a == CacheAnswer::Yes {
            VerifyToken::AwaitDeletion { token, user_id, level }
        } else {
            VerifyToken::Done(Err(()))
        },
        VerifyToken::AwaitDeletion { token, user_id, level } => if a == CacheAnswer::Done {
            VerifyToken::Done(Ok((user_id, level)))
        } else {
            VerifyToken::Done(Err(()))
        },
        VerifyToken::Done(r) => VerifyToken::Done(r),
    }
}

/// Where a verification stands after a sequence of answers.
pub open spec fn verify_token_run(s: VerifyToken, answers: Seq<CacheAnswer>) -> VerifyToken
    decreases answers.len(),
{
    if answers.len() == 0 {
        s
    } else {
        verify_token_run(verify_token_next(s, answers[0]), answers.drop_first())
    }
}

/// Where the verification of `token` starts at `now`.
pub fn verify_token_start_at(token: String, decoded: Option<Claims>, now: Instant) -> (r:
    VerifyToken)
    requires
        is_clock_reading(now),
        decoded matches Some(c) ==> (c.token_use_case == TokenType::ACCESS ==> is_representable(
            c.exp as int,
        )),
    ensures
        r == verify_token_begin(token, decoded, now),
{
    match decoded {
        Some(c) => {
            if c.token_use_case == TokenType::ACCESS && !is_token_expired_at(
                c.exp,
                ACCESS_TOKEN_LIFETIME,
                now,
            ) {
                VerifyToken::AwaitRevocation { token, user_id: c.user_id, level: c.user_access_level }
            } else {
                VerifyToken::Done(Err(()))
            }
        },
        None => VerifyToken::Done(Err(())),
    }
}

/// Where the verification of `token` starts now.
pub fn verify_token_start(token: String, decoded: Option<Claims>) -> (r: VerifyToken)
    requires
        decoded matches Some(c) ==> (c.token_use_case == TokenType::ACCESS ==> is_representable(
            c.exp as int,
        )),
    ensures
        exists|t: Instant| is_clock_reading(t) && r == verify_token_begin(token, decoded, t),
{
    let now = current_time();
    let r = verify_token_start_at(token, decoded, now);
    assert(is_clock_reading(now) && r == verify_token_begin(token, decoded, now));
    r
}

/// The next stand of a verification on the cache's answer.
pub fn verify_token_step(state: VerifyToken, answer: CacheAnswer) -> (r: VerifyToken)
    ensures
        r == verify_token_next(state, answer),
{
    match state {
        VerifyToken::AwaitRevocation { token, user_id, level } => {
            if answer == CacheAnswer::Yes {
                VerifyToken::Done(Err(()))
            } else {
                VerifyToken::AwaitExistence { token, user_id, level }
            }
        },
        VerifyToken::AwaitExistence { token, user_id, level } => {
            if answer == CacheAnswer::Yes {
                VerifyToken::AwaitDeletion { token, user_id, level }
            } else {
                VerifyToken::Done(Err(()))
            }
        },
        VerifyToken::AwaitDeletion { token, user_id, level } => {
            if answer == CacheAnswer::Done {
                VerifyToken::Done(Ok((user_id, level)))
            } else {
                VerifyToken::Done(Err(()))
            }
        },
        VerifyToken::Done(r) => VerifyToken::Done(r),
    }
}

impl VerifyToken {
    /// The message to send to the cache at this stand; none once finished.
    pub fn request(&self) -> (r: Option<CacheRequest>)
        ensures
            match *self {
                VerifyToken::AwaitRevocation { user_id, .. } => r matches Some(
                    CacheRequest::IsTokenOwnerRevoked(m),
                ) && m.id@ == user_id@,
                VerifyToken::AwaitExistence { token, .. } => r matches Some(
                    CacheRequest::TokenExists(m),
                ) && m.token@ == token@,
                VerifyToken::AwaitDeletion { token, .. } => r matches Some(
                    CacheRequest::DelToken(m),
                ) && m.token@ == token@,
                VerifyToken::Done(_) => r is None,
            },
    {
        match self {
            VerifyToken::AwaitRevocation { user_id, .. } => Some(
                CacheRequest::IsTokenOwnerRevoked(IsTokenOwnerRevoked { id: user_id.clone() }),
            ),
            VerifyToken::AwaitExistence { token, .. } => Some(
                CacheRequest::TokenExists(TokenExists { token: token.clone() }),
            ),
            VerifyToken::AwaitDeletion { token, .. } => Some(
                CacheRequest::DelToken(DelToken { token: token.clone() }),
            ),
            VerifyToken::Done(_) => None,
        }
    }

    /// The outcome, once finished.
    pub fn outcome(self) -> (r: Option<Result<(String, i32), ()>>)
        ensures
            match self {
                VerifyToken::Done(x) => r == Some(x),
                _ => r is None,
            },
    {
        match self {
            VerifyToken::Done(x) => Some(x),
            _ => None,
        }
    }
}

proof fn lemma_verify_done_stays(x: Result<(String, i32), ()>, answers: Seq<CacheAnswer>)
    ensures
        verify_token_run(VerifyToken::Done(x), answers) == VerifyToken::Done(x),
    decreases answers.len(),
{
    if answers.len() > 0 {
        lemma_verify_done_stays(x, answers.drop_first());
    }
}

/// An access token is accepted exactly when its claims are those of an
/// unexpired access token, its owner is not reported banned, the cache
/// reports it stored, and its deletion goes through; the answer is then the
/// owner's identifier and access level from the claims.
pub proof fn law_verify_token_accepts(
    token: String,
    decoded: Option<Claims>,
    now: Instant,
    answers: Seq<CacheAnswer>,
)
    ensures
        (verify_token_run(verify_token_begin(token, decoded, now), answers) is Done
            && verify_token_run(verify_token_begin(token, decoded, now), answers)->Done_0 is Ok)
            <==> (decoded matches Some(c) && live_access_claims(c, now) && answers.len() >= 3
            && answers[0] != CacheAnswer::Yes && answers[1] == CacheAnswer::Yes && answers[2]
            == CacheAnswer::Done),
        verify_token_run(verify_token_begin(token, decoded, now), answers) matches VerifyToken::Done(
            Ok((id, level)),
        ) ==> decoded matches Some(c) && id == c.user_id && level == c.user_access_level,
{
    let s0 = verify_token_begin(token, decoded, now);
    if answers.len() == 0 {
        return;
    }
    let s1 = verify_token_next(s0, answers[0]);
    let t1 = answers.drop_first();
    assert(verify_token_run(s0, answers) == verify_token_run(s1, t1));
    if let VerifyToken::Done(x) = s1 {
        lemma_verify_done_stays(x, t1);
        return;
    }
    if t1.len() == 0 {
        return;
    }
    assert(t1[0] == answers[1]);
    let s2 = verify_token_next(s1, t1[0]);
    let t2 = t1.drop_first();
    assert(verify_token_run(s1, t1) == verify_token_run(s2, t2));
    if let VerifyToken::Done(x) = s2 {
        lemma_verify_done_stays(x, t2);
        return;
    }
    if t2.len() == 0 {
        return;
    }
    assert(t2[0] == answers[2]);
    let s3 = verify_token_next(s2, t2[0]);
    let t3 = t2.drop_first();
    assert(verify_token_run(s2, t2) == verify_token_run(s3, t3));
    if let VerifyToken::Done(x) = s3 {
        lemma_verify_done_stays(x, t3);
    }
}


/// A refresh token is never accepted where an access token is needed: the
/// verification of a token whose claims are those of a refresh token ends
/// refused, whatever the cache answers.
pub proof fn law_refresh_token_is_no_access_token(
    token: String,
    decoded: Option<Claims>,
    now: Instant,
    answers: Seq<CacheAnswer>,
)
    requires
        decoded matches Some(c) && c.token_use_case == TokenType::REFRESH,
    ensures
        verify_token_run(verify_token_begin(token, decoded, now), answers) == VerifyToken::Done(
            Err(()),
        ),
{
    lemma_verify_done_stays(Err(()), answers);
}

/// An access token is good for one verification: a verification that
/// succeeds deletes it from the cache (its last request), and a later
/// verification's existence check then reads nothing under it, so that
/// verification is refused, whatever else the cache answers.
pub proof fn law_access_token_single_use(
    token: String,
    decoded: Option<Claims>,
    now: Instant,
    m: Map<Seq<char>, Seq<char>>,
    first: CacheAnswer,
    rest: Seq<CacheAnswer>,
)
    ensures
        ({
            let used = after_command(m, del_words(token@));
            let answers = seq![first, presence(read_value(used, get_words(token@)))] + rest;
            verify_token_run(verify_token_begin(token, decoded, now), answers) == VerifyToken::Done(
                Err(()),
            )
        }),
{
    let used = after_command(m, del_words(token@));
    assert(!used.contains_key(token@));
    let answers = seq![first, presence(read_value(used, get_words(token@)))] + rest;
    assert(answers[1] == CacheAnswer::No);
    let s0 = verify_token_begin(token, decoded, now);
    if s0 is Done {
        lemma_verify_done_stays(Err(()), answers);
        return;
    }
    let s1 = verify_token_next(s0, answers[0]);
    let t1 = answers.drop_first();
    assert(verify_token_run(s0, answers) == verify_token_run(s1, t1));
    if s1 is Done {
        lemma_verify_done_stays(Err(()), t1);
        return;
    }
    assert(t1[0] == CacheAnswer::No);
    let s2 = verify_token_next(s1, t1[0]);
    assert(s2 == VerifyToken::Done(Err(())));
    assert(verify_token_run(s1, t1) == verify_token_run(s2, t1.drop_first()));
    lemma_verify_done_stays(Err(()), t1.drop_first());
}

/// An issued pair works as issued: less than `ACCESS_TOKEN_LIFETIME`
/// seconds after issuing, the access token of the pair, once stored with its
/// partner, passes verification for its owner (an owner not banned, the
/// deletion going through) with the owner's identifier and level, while the
/// refresh token of the pair is refused as an access token.
pub proof fn law_issued_pair_verifies(
    access_token: String,
    refresh_token: String,
    access: Claims,
    refresh: Claims,
    user_id: Seq<char>,
    level: i32,
    issued: Instant,
    now: Instant,
    m: Map<Seq<char>, Seq<char>>,
    answers: Seq<CacheAnswer>,
)
    requires
        claims_are(
            access,
            user_id,
            level,
            TokenType::ACCESS,
            issued.secs + ACCESS_TOKEN_LIFETIME,
            issued.nanos as int,
        ),
        claims_are(
            refresh,
            user_id,
            level,
            TokenType::REFRESH,
            issued.secs + REFRESH_TOKEN_LIFETIME,
            issued.nanos as int,
        ),
        access_token@ != refresh_token@,
        now.secs < issued.secs + ACCESS_TOKEN_LIFETIME,
    ensures
        ({
            let stored = with_pair(
                m,
                access_token@,
                refresh_token@,
                ACCESS_TOKEN_LIFETIME as int,
                REFRESH_TOKEN_LIFETIME as int,
            );
            let run = seq![
                CacheAnswer::No,
                presence(read_value(stored, get_words(access_token@))),
                CacheAnswer::Done,
            ];
            verify_token_run(verify_token_begin(access_token, Some(access), now), run) matches VerifyToken::Done(
                Ok((id, lvl)),
            ) && id@ == user_id && lvl == level
        }),
        verify_token_run(verify_token_begin(refresh_token, Some(refresh), now), answers)
            == VerifyToken::Done(Err(())),
{
    let stored = with_pair(
        m,
        access_token@,
        refresh_token@,
        ACCESS_TOKEN_LIFETIME as int,
        REFRESH_TOKEN_LIFETIME as int,
    );
    law_stored_pair_links_tokens(
        m,
        access_token@,
        refresh_token@,
        ACCESS_TOKEN_LIFETIME as int,
        REFRESH_TOKEN_LIFETIME as int,
    );
    let run = seq![
        CacheAnswer::No,
        presence(read_value(stored, get_words(access_token@))),
        CacheAnswer::Done,
    ];
    assert(run[1] == CacheAnswer::Yes);
    assert(live_access_claims(access, now));
    let s0 = verify_token_begin(access_token, Some(access), now);
    let s1 = verify_token_next(s0, run[0]);
    let t1 = run.drop_first();
    assert(verify_token_run(s0, run) == verify_token_run(s1, t1));
    let s2 = verify_token_next(s1, t1[0]);
    let t2 = t1.drop_first();
    assert(verify_token_run(s1, t1) == verify_token_run(s2, t2));
    let s3 = verify_token_next(s2, t2[0]);
    let t3 = t2.drop_first();
    assert(verify_token_run(s2, t2) == verify_token_run(s3, t3));
    assert(t3.len() == 0);
    law_refresh_token_is_no_access_token(refresh_token, Some(refresh), now, answers);
}

// ---------------------------------------------------------------------------
// Exchanging a refresh token
/// Where the exchange of a refresh token for a new pair stands.  Refusals
/// carry a code: 0 for a token that is not (or no longer) valid, 1 for a
/// failure of the cache, 2 for a token whose access token is still stored.
#[derive(Debug)]
pub enum RefreshToken {
    /// Waiting for whether the refresh token is stored.
    AwaitExistence { token: String, user_id: String, level: i32 },
    /// Waiting for whether its access token is still stored.
    AwaitPairCheck { token: String, user_id: String, level: i32 },
    /// Waiting for the deletion of the refresh token.
    AwaitDeletion { token: String, user_id: String, level: i32 },
    /// A new pair is to be issued to the user.
    Reissue { user_id: String, level: i32 },
    /// Finished: the new pair, or the refusal code.
    Done(Result<(String, String), u8>),
}

/// Whether `c` claims a refresh token that has not expired at `now`.
pub open spec fn live_refresh_claims(c: Claims, now: Instant) -> bool {
    c.token_use_case == TokenType::REFRESH && !expired_at(
        c.exp as int,
        REFRESH_TOKEN_LIFETIME as int,
        now,
    )
}

/// Where the exchange of `token` starts, given its decoded claims.
pub open spec fn refresh_token_begin(token: String, decoded: Option<Claims>, now: Instant) -> RefreshToken {
    match decoded {
        Some(c) => if live_refresh_claims(c, now) {
            RefreshToken::AwaitExistence { token, user_id: c.user_id, level: c.user_access_level }
        } else {
            RefreshToken::Done(Err(0))
        },
        None => RefreshToken::Done(Err(0)),
    }
}

/// The next stand of an exchange on the cache's answer.
pub open spec fn refresh_token_next(s: RefreshToken, a: CacheAnswer) -> RefreshToken {
    match s {
        RefreshToken::AwaitExistence { token, user_id, level } => if a == CacheAnswer::Yes {
            RefreshToken::AwaitPairCheck { token, user_id, level }
        } else if a == CacheAnswer::No {
            RefreshToken::Done(Err(0))
        } else {
            RefreshToken::Done(Err(1))
        },
        RefreshToken::AwaitPairCheck { token, user_id, level } => if a == CacheAnswer::No {
            RefreshToken::AwaitDeletion { token, user_id, level }
        } else if a == CacheAnswer::Yes {
            RefreshToken::Done(Err(2))
        } else {
            RefreshToken::Done(Err(1))
        },
        RefreshToken::AwaitDeletion { token, user_id, level } => if a
            == CacheAnswer::Undelivered {
            RefreshToken::Done(Err(1))
        } else {
            RefreshToken::Reissue { user_id, level }
        },
        RefreshToken::Reissue { user_id, level } => RefreshToken::Reissue { user_id, level },
        RefreshToken::Done(r) => RefreshToken::Done(r),
    }
}

/// Where an exchange stands after a sequence of answers.
pub open spec fn refresh_token_run(s: RefreshToken, answers: Seq<CacheAnswer>) -> RefreshToken
    decreases answers.len(),
{
    if answers.len() == 0 {
        s
    } else {
        refresh_token_run(refresh_token_next(s, answers[0]), answers.drop_first())
    }
}

/// Where the exchange of `token` starts at `now`.
pub fn refresh_token_start_at(token: String, decoded: Option<Claims>, now: Instant) -> (r:
    RefreshToken)
    requires
        is_clock_reading(now),
        decoded matches Some(c) ==> (c.token_use_case == TokenType::REFRESH ==> is_representable(
            c.exp as int,
        )),
    ensures
        r == refresh_token_begin(token, decoded, now),
{
    match decoded {
        Some(c) => {
            if c.token_use_case == TokenType::REFRESH && !is_token_expired_at(
                c.exp,
                REFRESH_TOKEN_LIFETIME,
                now,
            ) {
                RefreshToken::AwaitExistence {
                    token,
                    user_id: c.user_id,
                    level: c.user_access_level,
                }
            } else {
                RefreshToken::Done(Err(0))
            }
        },
        None => RefreshToken::Done(Err(0)),
    }
}

/// Where the exchange of `token` starts now.
pub fn refresh_token_start(token: String, decoded: Option<Claims>) -> (r: RefreshToken)
    requires
        decoded matches Some(c) ==> (c.token_use_case == TokenType::REFRESH ==> is_representable(
            c.exp as int,
        )),
    ensures
        exists|t: Instant| is_clock_reading(t) && r == refresh_token_begin(token, decoded, t),
{
    let now = current_time();
    let r = refresh_token_start_at(token, decoded, now);
    assert(is_clock_reading(now) && r == refresh_token_begin(token, decoded, now));
    r
}

/// The next stand of an exchange on the cache's answer.
pub fn refresh_token_step(state: RefreshToken, answer: CacheAnswer) -> (r: RefreshToken)
    ensures
        r == refresh_token_next(state, answer),
{
    match state {
        RefreshToken::AwaitExistence { token, user_id, level } => {
            if answer == CacheAnswer::Yes {
                RefreshToken::AwaitPairCheck { token, user_id, level }
            } else if answer == CacheAnswer::No {
                RefreshToken::Done(Err(0))
            } else {
                RefreshToken::Done(Err(1))
            }
        },
        RefreshToken::AwaitPairCheck { token, user_id, level } => {
            if answer == CacheAnswer::No {
                RefreshToken::AwaitDeletion { token, user_id, level }
            } else if answer == CacheAnswer::Yes {
                RefreshToken::Done(Err(2))
            } else {
                RefreshToken::Done(Err(1))
            }
        },
        RefreshToken::AwaitDeletion { token, user_id, level } => {
            if answer == CacheAnswer::Undelivered {
                RefreshToken::Done(Err(1))
            } else {
                RefreshToken::Reissue { user_id, level }
            }
        },
        RefreshToken::Reissue { user_id, level } => RefreshToken::Reissue { user_id, level },
        RefreshToken::Done(r) => RefreshToken::Done(r),
    }
}

/// The outcome of an exchange from the issuing of the new pair: a failure
/// to issue counts as an invalid token (code 0).
pub fn refresh_token_reissued(issued: Result<(String, String), ()>) -> (r: Result<
    (String, String),
    u8,
>)
    ensures
        match issued {
            Ok(p) => r == Ok::<(String, String), u8>(p),
            Err(_) => r == Err::<(String, String), u8>(0),
        },
{
    match issued {
        Ok(p) => Ok(p),
        Err(_) => Err(0),
    }
}

impl RefreshToken {
    /// The message to send to the cache at this stand; none while a pair is
    /// issued or once finished.
    pub fn request(&self) -> (r: Option<CacheRequest>)
        ensures
            match *self {
                RefreshToken::AwaitExistence { token, .. } => r matches Some(
                    CacheRequest::TokenExists(m),
                ) && m.token@ == token@,
                RefreshToken::AwaitPairCheck { token, .. } => r matches Some(
                    CacheRequest::TokenPairExists(m),
                ) && m.token@ == token@,
                RefreshToken::AwaitDeletion { token, .. } => r matches Some(
                    CacheRequest::DelToken(m),
                ) && m.token@ == token@,
                _ => r is None,
            },
    {
        match self {
            RefreshToken::AwaitExistence { token, .. } => Some(
                CacheRequest::TokenExists(TokenExists { token: token.clone() }),
            ),
            RefreshToken::AwaitPairCheck { token, .. } => Some(
                CacheRequest::TokenPairExists(TokenPairExists { token: token.clone() }),
            ),
            RefreshToken::AwaitDeletion { token, .. } => Some(
                CacheRequest::DelToken(DelToken { token: token.clone() }),
            ),
            _ => None,
        }
    }
}

proof fn lemma_refresh_rest_stays(s: RefreshToken, answers: Seq<CacheAnswer>)
    requires
        s is Done || s is Reissue,
    ensures
        refresh_token_run(s, answers) == s,
    decreases answers.len(),
{
    if answers.len() > 0 {
        lemma_refresh_rest_stays(s, answers.drop_first());
    }
}

/// A refresh token leads to a new pair exactly when its claims are those of
/// an unexpired refresh token, the cache reports it stored, reports its
/// access token gone, and takes the deletion of the refresh token; the new
/// pair is for the user and level of the claims.  While the access token is
/// still stored the exchange is refused with code 2.
pub proof fn law_refresh_token_exchange(
    token: String,
    decoded: Option<Claims>,
    now: Instant,
    answers: Seq<CacheAnswer>,
)
    ensures
        refresh_token_run(refresh_token_begin(token, decoded, now), answers) is Reissue <==> (
        decoded matches Some(c) && live_refresh_claims(c, now) && answers.len() >= 3
            && answers[0] == CacheAnswer::Yes && answers[1] == CacheAnswer::No && answers[2]
            != CacheAnswer::Undelivered),
        refresh_token_run(refresh_token_begin(token, decoded, now), answers) matches RefreshToken::Reissue {
            user_id,
            level,
        } ==> decoded matches Some(c) && user_id == c.user_id && level == c.user_access_level,
        refresh_token_run(refresh_token_begin(token, decoded, now), answers) == RefreshToken::Done(
            Err(2),
        ) <==> (decoded matches Some(c) && live_refresh_claims(c, now) && answers.len() >= 2
            && answers[0] == CacheAnswer::Yes && answers[1] == CacheAnswer::Yes),
{
    let s0 = refresh_token_begin(token, decoded, now);
    if s0 is Done {
        lemma_refresh_rest_stays(s0, answers);
        return;
    }
    if answers.len() == 0 {
        return;
    }
    let s1 = refresh_token_next(s0, answers[0]);
    let t1 = answers.drop_first();
    assert(refresh_token_run(s0, answers) == refresh_token_run(s1, t1));
    if s1 is Done {
        lemma_refresh_rest_stays(s1, t1);
        return;
    }
    if t1.len() == 0 {
        return;
    }
    assert(t1[0] == answers[1]);
    let s2 = refresh_token_next(s1, t1[0]);
    let t2 = t1.drop_first();
    assert(refresh_token_run(s1, t1) == refresh_token_run(s2, t2));
    if s2 is Done {
        lemma_refresh_rest_stays(s2, t2);
        return;
    }
    if t2.len() == 0 {
        return;
    }
    assert(t2[0] == answers[2]);
    let s3 = refresh_token_next(s2, t2[0]);
    let t3 = t2.drop_first();
    assert(refresh_token_run(s2, t2) == refresh_token_run(s3, t3));
    lemma_refresh_rest_stays(s3, t3);
}

/// A refresh token can be exchanged once: an exchange that reaches the new
/// pair has deleted the refresh token from the cache, and a later
/// exchange's existence check then reads nothing under it, so that exchange
/// is refused as an invalid token (code 0).
pub proof fn law_refresh_token_single_use(
    token: String,
    decoded: Option<Claims>,
    now: Instant,
    m: Map<Seq<char>, Seq<char>>,
    rest: Seq<CacheAnswer>,
)
    ensures
        ({
            let used = after_command(m, del_words(token@));
            let answers = seq![presence(read_value(used, get_words(token@)))] + rest;
            refresh_token_run(refresh_token_begin(token, decoded, now), answers)
                == RefreshToken::Done(Err(0))
        }),
{
    let used = after_command(m, del_words(token@));
    assert(!used.contains_key(token@));
    let answers = seq![presence(read_value(used, get_words(token@)))] + rest;
    assert(answers[0] == CacheAnswer::No);
    let s0 = refresh_token_begin(token, decoded, now);
    if s0 is Done {
        lemma_refresh_rest_stays(s0, answers);
        return;
    }
    let s1 = refresh_token_next(s0, answers[0]);
    assert(s1 == RefreshToken::Done(Err(0)));
    assert(refresh_token_run(s0, answers) == refresh_token_run(s1, answers.drop_first()));
    lemma_refresh_rest_stays(s1, answers.drop_first());
}

// ---------------------------------------------------------------------------
// Revoking a pair
/// The message that revokes the pair that `token` belongs to.
pub fn revoke_token_request(token: String) -> (r: DelTokenPair)
    ensures
        r.token == token,
{
    DelTokenPair { token }
}

/// Whether the revocation found a pair to delete: `true` once the cache has
/// deleted it, `false` where the cache refused, an error where the message
/// was not delivered.
pub fn revoke_token_outcome(answer: CacheAnswer) -> (r: Result<bool, ()>)
    ensures
        answer == CacheAnswer::Undelivered <==> r is Err,
        answer == CacheAnswer::Failed <==> r == Ok::<bool, ()>(false),
{
    match answer {
        CacheAnswer::Undelivered => Err(()),
        CacheAnswer::Failed => Ok(false),
        _ => Ok(true),
    }
}

// ---------------------------------------------------------------------------
// Reading the user of an access token
/// The identifier of the user that an access token names, where its claims
/// are those of an unexpired access token at `now`.
pub fn verify_token_and_get_user_id_at(decoded: Option<Claims>, now: Instant) -> (r: Result<
    ObjectId,
    (),
>)
    requires
        is_clock_reading(now),
        decoded matches Some(c) ==> (c.token_use_case == TokenType::ACCESS ==> is_representable(
            c.exp as int,
        )),
        decoded matches Some(c) ==> (live_access_claims(c, now) ==> is_object_id_text(
            c.user_id@,
        )),
    ensures
        r is Ok <==> (decoded matches Some(c) && live_access_claims(c, now)),
        r matches Ok(id) ==> decoded matches Some(c) && id.bytes@ == object_id_bytes(c.user_id@),
{
    match decoded {
        Some(c) => {
            if c.token_use_case != TokenType::ACCESS || is_token_expired_at(
                c.exp,
                ACCESS_TOKEN_LIFETIME,
                now,
            ) {
                return Err(());
            }
            match ObjectId::parse_str(c.user_id.as_str()) {
                Some(id) => Ok(id),
                None => Err(()),
            }
        },
        None => Err(()),
    }
}

} // verus!
