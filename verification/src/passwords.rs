//! Password hashing with bcrypt, salted with the service's configured salt.

use vstd::prelude::*;

verus! {

/// Whether `c` belongs to bcrypt's base-64 alphabet (`./A-Za-z0-9`).
pub open spec fn is_bcrypt_base64(c: char) -> bool {
    ||| c == '.'
    ||| c == '/'
    ||| (c as u32) >= 0x41 && (c as u32) <= 0x5a
    ||| (c as u32) >= 0x61 && (c as u32) <= 0x7a
    ||| (c as u32) >= 0x30 && (c as u32) <= 0x39
}

/// Characters on which pwhash's base-64 salt decoder fails by arithmetic
/// underflow (below U+0020) or by indexing past its table (U+0080).
pub open spec fn breaks_salt_decoder(c: char) -> bool {
    (c as u32) < 0x20 || (c as u32) == 0x80
}

/// Whether decoding the salt text `s` reaches a character that breaks the
/// decoder.  The decoder reads at most 22 characters and returns an error at
/// the first character outside the alphabet.
pub open spec fn salt_decoding_breaks(s: Seq<char>) -> bool {
    exists|i: int|
        0 <= i < s.len() && i < 22 && #[trigger] breaks_salt_decoder(s[i]) && forall|j: int|
            0 <= j < i ==> is_bcrypt_base64(#[trigger] s[j])
}

/// Number of bytes of the UTF-8 encoding of `c`.
pub open spec fn utf8_width(c: char) -> nat {
    if (c as u32) < 0x80 {
        1
    } else if (c as u32) < 0x800 {
        2
    } else if (c as u32) < 0x10000 {
        3
    } else {
        4
    }
}

/// Number of bytes of the UTF-8 encoding of `s`.
pub open spec fn utf8_size(s: Seq<char>) -> nat
    decreases s.len(),
{
    if s.len() == 0 {
        0
    } else {
        utf8_size(s.drop_last()) + utf8_width(s.last())
    }
}

pub open spec fn is_ascii_digit(c: char) -> bool {
    (c as u32) >= 0x30 && (c as u32) <= 0x39
}

/// The cost written by the two digits of a bcrypt hash.
pub open spec fn cost_of(d1: char, d2: char) -> int {
    ((d1 as u32) - 0x30) * 10 + ((d2 as u32) - 0x30)
}

/// Whether verifying a password against the stored text `hash` makes pwhash
/// decode a salt field that breaks its decoder: the text starts with a
/// bcrypt prefix and an accepted two-digit cost, and its 22 bytes of salt
/// end on a character boundary and hold such a character.
pub open spec fn bcrypt_verify_breaks(hash: Seq<char>) -> bool {
    &&& hash.len() >= 7
    &&& hash[0] == '$'
    &&& hash[1] == '2'
    &&& (hash[2] == 'a' || hash[2] == 'b' || hash[2] == 'y')
    &&& hash[3] == '$'
    &&& is_ascii_digit(hash[4])
    &&& is_ascii_digit(hash[5])
    &&& hash[6] == '$'
    &&& 4 <= cost_of(hash[4], hash[5]) <= 31
    &&& exists|m: int|
        7 <= m <= hash.len() && #[trigger] utf8_size(hash.subrange(7, m)) == 22
            && salt_decoding_breaks(hash.subrange(7, m))
}

/// Whether the salt text is the service's kind of bcrypt salt: exactly 22
/// characters of bcrypt's base-64 alphabet (the encoding of 16 bytes).
pub open spec fn is_service_salt(s: Seq<char>) -> bool {
    &&& s.len() == 22
    &&& forall|i: int| 0 <= i < 22 ==> is_bcrypt_base64(#[trigger] s[i])
}

/// Whether pwhash's salt decoder accepts the text `s`: the characters it
/// reads (at most 22) all belong to the alphabet.
pub open spec fn salt_decodes(s: Seq<char>) -> bool {
    forall|i: int| 0 <= i < s.len() && i < 22 ==> is_bcrypt_base64(#[trigger] s[i])
}

/// Whether `h` has the form of a bcrypt hash with cost 10 and variant 2b:
/// `$2b$10$` followed by 53 characters of bcrypt's base-64 alphabet (22 for
/// the salt, 31 for the digest).
pub open spec fn is_default_bcrypt_text(h: Seq<char>) -> bool {
    &&& h.len() == 60
    &&& h[0] == '$' && h[1] == '2' && h[2] == 'b' && h[3] == '$'
    &&& h[4] == '1' && h[5] == '0' && h[6] == '$'
    &&& forall|i: int| 7 <= i < 60 ==> is_bcrypt_base64(#[trigger] h[i])
}

/// Name for the text that pwhash's `bcrypt::hash_with` produces for a
/// password under a fixed salt with the default cost and variant, `None`
/// where it reports an error.
pub uninterp spec fn bcrypt_salted_hash(salt: Seq<char>, password: Seq<char>) -> Option<Seq<char>>;

/// Name for the answer of pwhash's `bcrypt::verify` for a password and a
/// stored hash text.
pub uninterp spec fn bcrypt_accepts(password: Seq<char>, hash: Seq<char>) -> bool;

/// Hashes `password` under the salt text `salt` (cost 10, variant 2b).
///
/// Trusted: calls `pwhash::bcrypt::hash_with` with a `BcryptSetup` holding the
/// salt and default cost and variant.  The result depends on the salt and the
/// password alone, so it is named.  The source shows: the only error comes
/// from the salt decoder, which rejects a character outside the alphabet
/// among the (at most 22) characters it reads; the text is formatted as
/// `$2b$10$`, the 16 salt bytes and the 23 digest bytes in bcrypt's base 64
/// (22 and 31 characters); and `verify` recomputes `hash_with` from the
/// salt, cost and variant read back out of the hash and compares, so the
/// produced hash is accepted for the same password.  The `requires` leaves
/// out salts on which the salt decoder panics.
#[verifier::external_body]
fn bcrypt_hash_with_salt(salt: &str, password: &str) -> (r: Option<String>)
    requires
        !salt_decoding_breaks(salt@),
    ensures
        r is Some <==> salt_decodes(salt@),
        match r {
            Some(h) => bcrypt_salted_hash(salt@, password@) == Some(h@) && bcrypt_accepts(
                password@,
                h@,
            ) && is_default_bcrypt_text(h@),
            None => bcrypt_salted_hash(salt@, password@) is None,
        },
{
    let setup = pwhash::bcrypt::BcryptSetup { salt: Some(salt), ..Default::default() };
    pwhash::bcrypt::hash_with(setup, password).ok()
}

/// Whether `password` matches the stored bcrypt text `hash`.
///
/// Trusted: calls `pwhash::bcrypt::verify`, which depends on its two
/// arguments alone.  The `requires` leaves out stored texts on which it
/// panics while decoding the salt field.
#[verifier::external_body]
fn bcrypt_verify(password: &str, hash: &str) -> (r: bool)
    requires
        !bcrypt_verify_breaks(hash@),
    ensures
        r == bcrypt_accepts(password@, hash@),
{
    pwhash::bcrypt::verify(password, hash)
}

/// Whether the salt text is the service's kind of salt (and so can be handed
/// to the hasher without breaking its decoder).
pub fn salt_is_usable(salt: &str) -> (r: bool)
    ensures
        r == is_service_salt(salt@),
        r ==> !salt_decoding_breaks(salt@),
{
    let n = salt.unicode_len();
    if n != 22 {
        return false;
    }
    let mut i: usize = 0;
    while i < 22
        invariant
            n == salt@.len(),
            n == 22,
            i <= 22,
            forall|j: int| 0 <= j < i ==> is_bcrypt_base64(#[trigger] salt@[j]),
        decreases 22 - i,
    {
        let c = salt.get_char(i);
        let v = c as u32;
        let in_alphabet = c == '.' || c == '/' || (v >= 0x41 && v <= 0x5a) || (v >= 0x61 && v
            <= 0x7a) || (v >= 0x30 && v <= 0x39);
        if !in_alphabet {
            assert(!is_bcrypt_base64(salt@[i as int]));
            return false;
        }
        i += 1;
    }
    proof {
        lemma_service_salt_decodes(salt@);
    }
    true
}

proof fn lemma_service_salt_decodes(s: Seq<char>)
    requires
        is_service_salt(s),
    ensures
        salt_decodes(s),
        !salt_decoding_breaks(s),
{
    assert forall|i: int| 0 <= i < s.len() && i < 22 implies !#[trigger] breaks_salt_decoder(s[i]) by {
        assert(is_bcrypt_base64(s[i]));
    }
}

/// Whether a hash of this form can be verified without breaking the salt
/// decoder: its salt field holds alphabet characters only.
proof fn lemma_default_text_is_verifiable(h: Seq<char>)
    requires
        is_default_bcrypt_text(h),
    ensures
        !bcrypt_verify_breaks(h),
{
    assert forall|m: int| 7 <= m <= h.len() implies !salt_decoding_breaks(#[trigger] h.subrange(7, m)) by {
        let s = h.subrange(7, m);
        assert forall|i: int| 0 <= i < s.len() && i < 22 implies !#[trigger] breaks_salt_decoder(s[i]) by {
            assert(s[i] == h[7 + i]);
            assert(is_bcrypt_base64(h[7 + i]));
        }
    }
}

/// The hash of a password under the service's salt: bcrypt's, where the
/// salt is of the service's kind, and none otherwise.
pub open spec fn service_hash(salt: Seq<char>, password: Seq<char>) -> Option<Seq<char>> {
    if is_service_salt(salt) {
        bcrypt_salted_hash(salt, password)
    } else {
        None
    }
}

/// Hashes a password with the service's salt; a salt that is not 22
/// characters of bcrypt's alphabet is refused.
pub fn hash_password(salt: &str, input_pass: String) -> (r: Result<String, ()>)
    requires
        !salt_decoding_breaks(salt@),
    ensures
        r is Ok <==> is_service_salt(salt@),
        match r {
            Ok(h) => service_hash(salt@, input_pass@) == Some(h@),
            Err(_) => service_hash(salt@, input_pass@) is None,
        },
        // a password stored this way is accepted by `verify_password`, which
        // can be run on it
        r matches Ok(h) ==> bcrypt_accepts(input_pass@, h@) && !bcrypt_verify_breaks(h@),
{
    if salt.unicode_len() != 22 {
        return Err(());
    }
    match bcrypt_hash_with_salt(salt, input_pass.as_str()) {
        Some(h) => {
            proof {
                lemma_default_text_is_verifiable(h@);
            }
            Ok(h)
        },
        None => {
            assert(!is_service_salt(salt@));
            Err(())
        },
    }
}

/// Whether `input_pass` matches the stored hash `hashed_pass`.
pub fn verify_password(hashed_pass: String, input_pass: String) -> (r: bool)
    requires
        !bcrypt_verify_breaks(hashed_pass@),
    ensures
        r == bcrypt_accepts(input_pass@, hashed_pass@),
{
    bcrypt_verify(input_pass.as_str(), hashed_pass.as_str())
}

proof fn lemma_utf8_size_step(s: Seq<char>, m: int)
    requires
        7 <= m < s.len(),
    ensures
        utf8_size(s.subrange(7, m + 1)) == utf8_size(s.subrange(7, m)) + utf8_width(s[m]),
{
    assert(s.subrange(7, m + 1).drop_last() =~= s.subrange(7, m));
}

proof fn lemma_utf8_size_grows(s: Seq<char>, m1: int, m2: int)
    requires
        7 <= m1 <= m2 <= s.len(),
    ensures
        utf8_size(s.subrange(7, m2)) >= utf8_size(s.subrange(7, m1)) + (m2 - m1),
    decreases m2 - m1,
{
    if m1 < m2 {
        lemma_utf8_size_grows(s, m1, m2 - 1);
        lemma_utf8_size_step(s, m2 - 1);
    }
}

/// The UTF-8 width of a character.
fn char_width(c: char) -> (w: usize)
    ensures
        w == utf8_width(c),
{
    let v = c as u32;
    if v < 0x80 {
        1
    } else if v < 0x800 {
        2
    } else if v < 0x10000 {
        3
    } else {
        4
    }
}

/// Whether `verify_password` can be run on the stored text `hash` without
/// breaking the salt decoder.
pub fn hash_is_verifiable(hash: &str) -> (r: bool)
    ensures
        r == !bcrypt_verify_breaks(hash@),
{
    let n = hash.unicode_len();
    if n < 7 {
        return true;
    }
    let c2 = hash.get_char(2);
    let d1 = hash.get_char(4);
    let d2 = hash.get_char(5);
    if !(hash.get_char(0) == '$' && hash.get_char(1) == '2' && (c2 == 'a' || c2 == 'b' || c2
        == 'y') && hash.get_char(3) == '$' && hash.get_char(6) == '$') {
        return true;
    }
    let v1 = d1 as u32;
    let v2 = d2 as u32;
    if !(v1 >= 0x30 && v1 <= 0x39 && v2 >= 0x30 && v2 <= 0x39) {
        return true;
    }
    let cost = (v1 - 0x30) * 10 + (v2 - 0x30);
    if cost < 4 || cost > 31 {
        return true;
    }
    let ghost s = hash@;
    assert(cost_of(s[4], s[5]) == cost);
    let mut size: usize = 0;
    let mut m: usize = 7;
    while m < n && size < 22
        invariant
            s == hash@,
            n == s.len(),
            7 <= m <= n,
            size == utf8_size(s.subrange(7, m as int)),
            size < 22 + 4,
            m > 7 ==> utf8_size(s.subrange(7, m - 1)) < 22,
        decreases n - m,
    {
        proof {
            lemma_utf8_size_step(s, m as int);
        }
        size = size + char_width(hash.get_char(m));
        m = m + 1;
    }
    if size != 22 {
        proof {
            assert forall|k: int|
                7 <= k <= s.len() implies #[trigger] utf8_size(s.subrange(7, k)) != 22 by {
                if k <= m {
                    lemma_utf8_size_grows(s, k, m as int);
                    if size > 22 && k < m {
                        lemma_utf8_size_grows(s, k, m - 1);
                    }
                } else {
                    lemma_utf8_size_grows(s, m as int, k);
                }
            }
        }
        return true;
    }
    let ghost salt = s.subrange(7, m as int);
    let mut i: usize = 0;
    while i < m - 7 && i < 22
        invariant
            s == hash@,
            salt == s.subrange(7, m as int),
            s[0] == '$' && s[1] == '2' && (s[2] == 'a' || s[2] == 'b' || s[2] == 'y') && s[3] == '$'
                && s[6] == '$' && is_ascii_digit(s[4]) && is_ascii_digit(s[5]),
            cost_of(s[4], s[5]) == cost,
            4 <= cost <= 31,
            7 <= m <= n,
            n == s.len(),
            i <= m - 7,
            utf8_size(salt) == 22,
            forall|j: int| 0 <= j < i ==> is_bcrypt_base64(#[trigger] salt[j]),
        decreases m - 7 - i,
    {
        let c = hash.get_char(7 + i);
        let v = c as u32;
        assert(salt[i as int] == c);
        if v < 0x20 || v == 0x80 {
            assert(breaks_salt_decoder(salt[i as int]));
            assert(salt_decoding_breaks(salt));
            assert(cost_of(s[4], s[5]) == cost);
            assert(7 <= m <= s.len() && utf8_size(s.subrange(7, m as int)) == 22
                && salt_decoding_breaks(s.subrange(7, m as int)));
            return false;
        }
        let in_alphabet = c == '.' || c == '/' || (v >= 0x41 && v <= 0x5a) || (v >= 0x61 && v
            <= 0x7a) || (v >= 0x30 && v <= 0x39);
        if !in_alphabet {
            proof {
                lemma_no_break_after_invalid(salt, i as int);
                lemma_unique_boundary(s, m as int);
            }
            return true;
        }
        i += 1;
    }
    proof {
        assert forall|k: int|
            0 <= k < salt.len() && k < 22 implies !#[trigger] breaks_salt_decoder(salt[k]) by {
            assert(is_bcrypt_base64(salt[k]));
        }
        lemma_unique_boundary(s, m as int);
    }
    true
}

proof fn lemma_no_break_after_invalid(salt: Seq<char>, i: int)
    requires
        0 <= i < salt.len(),
        !is_bcrypt_base64(salt[i]),
        !breaks_salt_decoder(salt[i]),
        forall|j: int| 0 <= j < i ==> is_bcrypt_base64(#[trigger] salt[j]),
    ensures
        !salt_decoding_breaks(salt),
{
    assert forall|k: int|
        0 <= k < salt.len() && k < 22 && #[trigger] breaks_salt_decoder(salt[k]) implies !(
        forall|j: int| 0 <= j < k ==> is_bcrypt_base64(#[trigger] salt[j])) by {
        if k > i {
            assert(!is_bcrypt_base64(salt[i]));
        } else if k < i {
            assert(is_bcrypt_base64(salt[k]));
        }
    }
}

proof fn lemma_unique_boundary(s: Seq<char>, m: int)
    requires
        7 <= m <= s.len(),
        utf8_size(s.subrange(7, m)) == 22,
    ensures
        forall|k: int|
            7 <= k <= s.len() && #[trigger] utf8_size(s.subrange(7, k)) == 22 ==> k == m,
{
    assert forall|k: int|
        7 <= k <= s.len() && #[trigger] utf8_size(s.subrange(7, k)) == 22 implies k == m by {
        if k < m {
            lemma_utf8_size_grows(s, k, m);
        } else if k > m {
            lemma_utf8_size_grows(s, m, k);
        }
    }
}

} // verus!

