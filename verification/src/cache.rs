//! The token cache: the messages it answers, the key-value commands that
//! answer them, and how the command replies become answers.
//!
//! Each issued token is stored under its own text with its partner token as
//! value (access token to refresh token and back), expiring with the token.
//! A banned user's identifier is stored under itself.

use vstd::prelude::*;
use crate::text::decimal;
use crate::text::decimal_text;

verus! {

/// Store a freshly issued pair of tokens, each expiring after its lifetime
/// in seconds.
#[derive(Debug)]
pub struct AddNewPair {
    pub access_tok: String,
    pub refresh_tok: String,
    pub access_exp: i64,
    pub refresh_exp: i64,
}

/// Whether a token is stored.
#[derive(Debug)]
pub struct TokenExists {
    pub token: String,
}

/// Whether a token is stored and its partner token is stored too.
#[derive(Debug)]
pub struct TokenPairExists {
    pub token: String,
}

/// Delete a token.
#[derive(Debug)]
pub struct DelToken {
    pub token: String,
}

/// Delete a token and its partner.
#[derive(Debug)]
pub struct DelTokenPair {
    pub token: String,
}

/// Whether the user with identifier `id` is banned.
#[derive(Debug)]
pub struct IsTokenOwnerRevoked {
    pub id: String,
}

/// Ban the user with identifier `id` for `dur` seconds.
#[derive(Debug)]
pub struct BanUser {
    pub id: String,
    pub dur: i64,
}

/// One command to the key-value store: its name, then its arguments.
#[derive(Debug)]
pub struct CacheCommand {
    pub args: Vec<String>,
}

/// The words of a command.
pub open spec fn words(c: CacheCommand) -> Seq<Seq<char>> {
    c.args@.map_values(|s: String| s@)
}

/// The words of `SET key value EX secs`.
pub open spec fn set_words(key: Seq<char>, value: Seq<char>, secs: int) -> Seq<Seq<char>> {
    seq!["SET"@, key, value, "EX"@, decimal_text(secs)]
}

/// The words of `GET key`.
pub open spec fn get_words(key: Seq<char>) -> Seq<Seq<char>> {
    seq!["GET"@, key]
}

/// The words of `DEL key`.
pub open spec fn del_words(key: Seq<char>) -> Seq<Seq<char>> {
    seq!["DEL"@, key]
}

fn command2(name: &str, arg: &str) -> (r: CacheCommand)
    ensures
        words(r) == seq![name@, arg@],
{
    let mut args: Vec<String> = Vec::new();
    args.push(String::from_str(name));
    args.push(String::from_str(arg));
    let r = CacheCommand { args };
    assert(words(r) =~= seq![name@, arg@]);
    r
}

/// `SET key value EX seconds`.
fn set_with_expiry(key: &str, value: &str, secs: i64) -> (r: CacheCommand)
    ensures
        words(r) == set_words(key@, value@, secs as int),
{
    let mut args: Vec<String> = Vec::new();
    args.push(String::from_str("SET"));
    args.push(String::from_str(key));
    args.push(String::from_str(value));
    args.push(String::from_str("EX"));
    args.push(decimal(secs));
    let r = CacheCommand { args };
    assert(words(r) =~= seq!["SET"@, key@, value@, "EX"@, decimal_text(secs as int)]);
    r
}

/// `GET key`.
pub fn get_command(key: &str) -> (r: CacheCommand)
    ensures
        words(r) == get_words(key@),
{
    command2("GET", key)
}

/// `DEL key`.
pub fn del_command(key: &str) -> (r: CacheCommand)
    ensures
        words(r) == del_words(key@),
{
    command2("DEL", key)
}

/// Whether a value is stored, from the reply to a `GET`.
pub fn present(reply: Result<Option<String>, ()>) -> (r: Result<bool, ()>)
    ensures
        match reply {
            Ok(Some(_)) => r == Ok::<bool, ()>(true),
            Ok(None) => r == Ok::<bool, ()>(false),
            Err(_) => r is Err,
        },
{
    match reply {
        Ok(Some(_)) => Ok(true),
        Ok(None) => Ok(false),
        Err(_) => Err(()),
    }
}

/// Whether exactly one key went, from the reply to a `DEL`.
pub fn deleted_one(reply: Result<Option<i32>, ()>) -> (r: Result<(), ()>)
    ensures
        r is Ok <==> reply == Ok::<Option<i32>, ()>(Some(1i32)),
{
    match reply {
        Ok(Some(i)) if i == 1 => Ok(()),
        _ => Err(()),
    }
}

/// Whether a write went through, from the reply to a `SET` or to a
/// pipeline of them.
pub fn written<T>(reply: Result<T, ()>) -> (r: Result<(), ()>)
    ensures
        r is Ok <==> reply is Ok,
{
    match reply {
        Ok(_) => Ok(()),
        Err(_) => Err(()),
    }
}

/// Two writes that the store applies as one transaction (`MULTI` ..
/// `EXEC`): no reader sees the effect of one without the other.
#[derive(Debug)]
pub struct CacheTransaction {
    pub first: CacheCommand,
    pub second: CacheCommand,
}

impl AddNewPair {
    /// The two writes, as one transaction: the access token with its
    /// partner and lifetime, then the refresh token with its partner and
    /// lifetime.
    pub fn commands(&self) -> (r: CacheTransaction)
        ensures
            words(r.first) == set_words(
                self.access_tok@,
                self.refresh_tok@,
                self.access_exp as int,
            ),
            words(r.second) == set_words(
                self.refresh_tok@,
                self.access_tok@,
                self.refresh_exp as int,
            ),
    {
        CacheTransaction {
            first: set_with_expiry(
                self.access_tok.as_str(),
                self.refresh_tok.as_str(),
                self.access_exp,
            ),
            second: set_with_expiry(
                self.refresh_tok.as_str(),
                self.access_tok.as_str(),
                self.refresh_exp,
            ),
        }
    }
}

impl BanUser {
    /// The write that bans the user: the identifier stored under itself for
    /// the ban's duration.
    pub fn command(&self) -> (r: CacheCommand)
        ensures
            words(r) == set_words(self.id@, self.id@, self.dur as int),
    {
        set_with_expiry(self.id.as_str(), self.id.as_str(), self.dur)
    }
}

impl IsTokenOwnerRevoked {
    /// The read that answers the question.
    pub fn command(&self) -> (r: CacheCommand)
        ensures
            words(r) == get_words(self.id@),
    {
        get_command(self.id.as_str())
    }
}

impl TokenExists {
    /// The read that answers the question.
    pub fn command(&self) -> (r: CacheCommand)
        ensures
            words(r) == get_words(self.token@),
    {
        get_command(self.token.as_str())
    }
}

impl DelToken {
    /// The deletion.
    pub fn command(&self) -> (r: CacheCommand)
        ensures
            words(r) == del_words(self.token@),
    {
        del_command(self.token.as_str())
    }
}

/// What follows the read of a token: the answer, or the read of its
/// partner.
#[derive(Debug)]
pub enum PairLookup {
    Answer(Result<bool, ()>),
    ReadPartner(CacheCommand),
}

impl TokenPairExists {
    /// The first read: the token itself.
    pub fn command(&self) -> (r: CacheCommand)
        ensures
            words(r) == get_words(self.token@),
    {
        get_command(self.token.as_str())
    }

    /// What follows the reply to the first read: no token gives `false`, a
    /// failure an error, and a stored partner the read of that partner,
    /// whose reply goes through `present`.
    pub fn after_token(reply: Result<Option<String>, ()>) -> (r: PairLookup)
        ensures
            match reply {
                Ok(Some(p)) => r matches PairLookup::ReadPartner(c) && words(c) == get_words(p@),
                Ok(None) => r == PairLookup::Answer(Ok(false)),
                Err(_) => r == PairLookup::Answer(Err(())),
            },
    {
        match reply {
            Ok(Some(p)) => PairLookup::ReadPartner(get_command(p.as_str())),
            Ok(None) => PairLookup::Answer(Ok(false)),
            Err(_) => PairLookup::Answer(Err(())),
        }
    }
}

impl DelTokenPair {
    /// The first read: the token itself.
    pub fn command(&self) -> (r: CacheCommand)
        ensures
            words(r) == get_words(self.token@),
    {
        get_command(self.token.as_str())
    }

    /// The deletions that follow the reply to the first read: the partner
    /// (its reply is not consulted) and then the token, whose reply goes
    /// through `deleted_one`.  No token or a failure is an error.
    pub fn after_token(&self, reply: Result<Option<String>, ()>) -> (r: Result<
        (CacheCommand, CacheCommand),
        (),
    >)
        ensures
            match reply {
                Ok(Some(p)) => r matches Ok((a, b)) && words(a) == del_words(p@) && words(b)
                    == del_words(self.token@),
                _ => r is Err,
            },
    {
        match reply {
            Ok(Some(p)) => Ok((del_command(p.as_str()), del_command(self.token.as_str()))),
            _ => Err(()),
        }
    }
}

/// A message to the cache, as the token procedures send them.
#[derive(Debug)]
pub enum CacheRequest {
    AddNewPair(AddNewPair),
    TokenExists(TokenExists),
    TokenPairExists(TokenPairExists),
    DelToken(DelToken),
    DelTokenPair(DelTokenPair),
    IsTokenOwnerRevoked(IsTokenOwnerRevoked),
    BanUser(BanUser),
}

/// The cache's answer to a message: a yes/no answer, a completed action,
/// a reported failure, or no answer because the message was not delivered.
#[derive(Debug, Clone, Copy, PartialEq, Eq, Structural)]
pub enum CacheAnswer {
    Yes,
    No,
    Done,
    Failed,
    Undelivered,
}

// ---------------------------------------------------------------------------
// The commands' effect on the stored values
/// The values held under each key after `SET`, `DEL` and `GET` commands, as
/// the key-value store documents them (expiry aside): `SET` stores the
/// value under the key, `DEL` removes the key, and any other command leaves
/// the contents as they are.
pub open spec fn after_command(m: Map<Seq<char>, Seq<char>>, w: Seq<Seq<char>>) -> Map<
    Seq<char>,
    Seq<char>,
> {
    if w.len() == 5 && w[0] == "SET"@ {
        m.insert(w[1], w[2])
    } else if w.len() == 2 && w[0] == "DEL"@ {
        m.remove(w[1])
    } else {
        m
    }
}

/// What a `GET` command reads from the contents `m`.
pub open spec fn read_value(m: Map<Seq<char>, Seq<char>>, w: Seq<Seq<char>>) -> Option<Seq<char>> {
    if w.len() == 2 && w[0] == "GET"@ && m.contains_key(w[1]) {
        Some(m[w[1]])
    } else {
        None
    }
}

/// The answer that the readings of this module give to a `GET` whose
/// reply holds `v` (see `present`): stored or not.
pub open spec fn presence(v: Option<Seq<char>>) -> CacheAnswer {
    if v is Some {
        CacheAnswer::Yes
    } else {
        CacheAnswer::No
    }
}

/// The contents after the two writes of a stored pair.
pub open spec fn with_pair(
    m: Map<Seq<char>, Seq<char>>,
    access: Seq<char>,
    refresh: Seq<char>,
    access_exp: int,
    refresh_exp: int,
) -> Map<Seq<char>, Seq<char>> {
    after_command(
        after_command(m, set_words(access, refresh, access_exp)),
        set_words(refresh, access, refresh_exp),
    )
}

proof fn lemma_command_names_differ()
    ensures
        "SET"@ != "DEL"@,
        "SET"@ != "GET"@,
        "DEL"@ != "GET"@,
{
    reveal_strlit("SET");
    reveal_strlit("DEL");
    reveal_strlit("GET");
    assert("SET"@[0] != "DEL"@[0]);
    assert("SET"@[0] != "GET"@[0]);
    assert("DEL"@[0] != "GET"@[0]);
}

/// A stored pair links its tokens: reading either token gives its partner,
/// whatever the cache held before.
pub proof fn law_stored_pair_links_tokens(
    m: Map<Seq<char>, Seq<char>>,
    access: Seq<char>,
    refresh: Seq<char>,
    access_exp: int,
    refresh_exp: int,
)
    requires
        access != refresh,
    ensures
        read_value(with_pair(m, access, refresh, access_exp, refresh_exp), get_words(refresh))
            == Some(access),
        read_value(with_pair(m, access, refresh, access_exp, refresh_exp), get_words(access))
            == Some(refresh),
{
    lemma_command_names_differ();
}

/// The pair check of a refresh token reads the refresh token and then its
/// partner: while the access token of the pair is stored the second read
/// finds it, and once the access token is deleted (as its verification
/// does) the second read finds nothing.
pub proof fn law_pair_check_follows_access_token(
    m: Map<Seq<char>, Seq<char>>,
    access: Seq<char>,
    refresh: Seq<char>,
    access_exp: int,
    refresh_exp: int,
)
    requires
        access != refresh,
    ensures
        ({
            let s = with_pair(m, access, refresh, access_exp, refresh_exp);
            let used = after_command(s, del_words(access));
            &&& read_value(s, get_words(refresh)) == Some(access)
            &&& read_value(s, get_words(access)) is Some
            &&& read_value(used, get_words(refresh)) == Some(access)
            &&& read_value(used, get_words(access)) is None
        }),
{
    lemma_command_names_differ();
}

/// Revoking a stored pair through its refresh token (read the partner,
/// delete it, delete the token) leaves neither token stored.
pub proof fn law_revocation_removes_pair(
    m: Map<Seq<char>, Seq<char>>,
    access: Seq<char>,
    refresh: Seq<char>,
    access_exp: int,
    refresh_exp: int,
)
    requires
        access != refresh,
    ensures
        ({
            let s = with_pair(m, access, refresh, access_exp, refresh_exp);
            let partner = read_value(s, get_words(refresh));
            &&& partner == Some(access)
            &&& {
                let revoked = after_command(
                    after_command(s, del_words(partner->Some_0)),
                    del_words(refresh),
                );
                &&& read_value(revoked, get_words(access)) is None
                &&& read_value(revoked, get_words(refresh)) is None
            }
        }),
{
    lemma_command_names_differ();
}

/// A ban writes the key that the revocation check of the same user reads.
pub proof fn law_ban_is_seen_by_revocation_check(m: Map<Seq<char>, Seq<char>>, id: Seq<char>, dur: int)
    ensures
        read_value(after_command(m, set_words(id, id, dur)), get_words(id)) == Some(id),
{
    lemma_command_names_differ();
}

} // verus!
