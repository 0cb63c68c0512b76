//! Signed session tokens.
//!
//! A token is `body.signature`. The body is the word text (see `codec`) of
//! `[iat, exp, sub, n, role_1 .. role_n, c_1 .. c_m]`, where the `c_i` are the
//! code points of the user name; the signature is the HS256 signature of the
//! body under the process-wide secret.
use vstd::prelude::*;
use crate::codec::{
    decode_word_text, encode_word_text, encode_words, is_word_text, lemma_encode_words_injective,
    lemma_encode_words_len,
};
use crate::text::{
    char_from_code, is_scalar_value, lemma_char_code, lemma_char_code_injective, push_char, str_eq,
};

verus! {

/// What a token says of its holder.
pub struct Claims {
    /// The account id.
    pub sub: u64,
    pub username: String,
    /// The ids of the roles held.
    pub roles: Vec<u64>,
    /// Issued at, in seconds.
    pub iat: u64,
    /// Expires at, in seconds.
    pub exp: u64,
}

/// Why a token was refused.
#[derive(Debug, Clone, Copy, PartialEq, Eq, Structural)]
pub enum TokenError {
    /// Well formed, but its expiry time has passed: log in again.
    Expired,
    /// Not a token of this service.
    Malformed,
    /// Well formed and current, but not signed with the service's secret.
    SignatureInvalid,
}

/// The base64url HMAC-SHA256 signature of `message` under `secret`.
pub uninterp spec fn hs256_signature(message: Seq<char>, secret: Seq<u8>) -> Seq<char>;

/// Relies on `jsonwebtoken::crypto::sign` with `Algorithm::HS256`: the
/// base64url HMAC-SHA256 of the message under the key; for the HMAC
/// algorithms it always returns `Ok`.
#[verifier::external_body]
fn hs256_sign(message: &str, secret: &[u8]) -> (r: String)
    ensures
        r@ == hs256_signature(message@, secret@),
{
    let key = jsonwebtoken::EncodingKey::from_secret(secret);
    match jsonwebtoken::crypto::sign(message.as_bytes(), &key, jsonwebtoken::Algorithm::HS256) {
        Ok(sig) => sig,
        Err(_) => String::new(),
    }
}

pub open spec fn char_codes(s: Seq<char>) -> Seq<u64> {
    s.map_values(|c: char| c as u32 as u64)
}

/// The words that a token body holds for these claims.
pub open spec fn claim_words(sub: u64, username: Seq<char>, roles: Seq<u64>, iat: u64, exp: u64) -> Seq<u64> {
    seq![iat, exp, sub, roles.len() as u64] + roles + char_codes(username)
}

pub open spec fn words_of_claims(c: Claims) -> Seq<u64> {
    claim_words(c.sub, c.username@, c.roles@, c.iat, c.exp)
}

/// The token issued for these claims under `secret`.
pub open spec fn signed_token(words: Seq<u64>, secret: Seq<u8>) -> Seq<char> {
    let body = encode_words(words);
    body + seq!['.'] + hs256_signature(body, secret)
}

/// Whether a word sequence lays out claims: a role count that fits and a
/// code point in each remaining word.
pub open spec fn is_claim_words(ws: Seq<u64>) -> bool {
    &&& ws.len() >= 4
    &&& 4 + ws[3] <= ws.len()
    &&& forall|i: int| 4 + ws[3] <= i < ws.len() ==> is_scalar_value(#[trigger] ws[i] as int)
}

/// The words that a word text holds.
pub open spec fn words_in(body: Seq<char>) -> Seq<u64> {
    choose|ws: Seq<u64>| encode_words(ws) == body
}

pub open spec fn has_dot(t: Seq<char>) -> bool {
    exists|i: int| 0 <= i < t.len() && t[i] == '.'
}

/// The position of the first `.` in `t`.
pub open spec fn first_dot(t: Seq<char>) -> int {
    choose|i: int| 0 <= i < t.len() && t[i] == '.' && forall|j: int| 0 <= j < i ==> t[j] != '.'
}

/// What validating `t` at time `now` yields: the claim words, or the error.
pub open spec fn token_outcome(t: Seq<char>, secret: Seq<u8>, now: u64) -> Result<Seq<u64>, TokenError> {
    if !has_dot(t) {
        Err(TokenError::Malformed)
    } else {
        let body = t.subrange(0, first_dot(t));
        let sig = t.subrange(first_dot(t) + 1, t.len() as int);
        let ws = words_in(body);
        if !is_word_text(body) || !is_claim_words(ws) {
            Err(TokenError::Malformed)
        } else if now >= ws[1] {
            Err(TokenError::Expired)
        } else if sig != hs256_signature(body, secret) {
            Err(TokenError::SignatureInvalid)
        } else {
            Ok(ws)
        }
    }
}

proof fn lemma_first_dot_unique(t: Seq<char>, i: int)
    requires
        0 <= i < t.len(),
        t[i] == '.',
        forall|j: int| 0 <= j < i ==> t[j] != '.',
    ensures
        has_dot(t),
        first_dot(t) == i,
{
    let k = first_dot(t);
    assert(0 <= k < t.len() && t[k] == '.' && forall|j: int| 0 <= j < k ==> t[j] != '.');
    if k < i {
        assert(t[k] != '.');
    }
    if i < k {
        assert(t[i] != '.');
    }
}

proof fn lemma_words_in(ws: Seq<u64>)
    ensures
        words_in(encode_words(ws)) == ws,
{
    let b = encode_words(ws);
    assert(encode_words(ws) == b);
    let w = words_in(b);
    lemma_encode_words_injective(w, ws);
}

pub proof fn lemma_claim_words(sub: u64, username: Seq<char>, roles: Seq<u64>, iat: u64, exp: u64)
    requires
        roles.len() <= u64::MAX,
    ensures
        is_claim_words(claim_words(sub, username, roles, iat, exp)),
        claim_words(sub, username, roles, iat, exp)[0] == iat,
        claim_words(sub, username, roles, iat, exp)[1] == exp,
        claim_words(sub, username, roles, iat, exp)[2] == sub,
        claim_words(sub, username, roles, iat, exp)[3] == roles.len(),
{
    let ws = claim_words(sub, username, roles, iat, exp);
    let k = roles.len();
    assert(ws[0] == iat && ws[1] == exp && ws[2] == sub && ws[3] == k);
    assert forall|i: int| 4 + ws[3] <= i < ws.len() implies is_scalar_value(#[trigger] ws[i] as int) by {
        let c = username[i - 4 - k];
        assert(ws[i] == char_codes(username)[i - 4 - k]);
        lemma_char_code(c);
    }
}

/// Claims with one word layout are equal.
pub proof fn lemma_claim_words_injective(
    a_sub: u64, a_name: Seq<char>, a_roles: Seq<u64>, a_iat: u64, a_exp: u64,
    b_sub: u64, b_name: Seq<char>, b_roles: Seq<u64>, b_iat: u64, b_exp: u64,
)
    requires
        a_roles.len() <= u64::MAX,
        b_roles.len() <= u64::MAX,
        claim_words(a_sub, a_name, a_roles, a_iat, a_exp) == claim_words(b_sub, b_name, b_roles, b_iat, b_exp),
    ensures
        a_sub == b_sub,
        a_name == b_name,
        a_roles == b_roles,
        a_iat == b_iat,
        a_exp == b_exp,
{
    let wa = claim_words(a_sub, a_name, a_roles, a_iat, a_exp);
    let wb = claim_words(b_sub, b_name, b_roles, b_iat, b_exp);
    lemma_claim_words(a_sub, a_name, a_roles, a_iat, a_exp);
    lemma_claim_words(b_sub, b_name, b_roles, b_iat, b_exp);
    let k = a_roles.len() as int;
    assert(a_roles == wa.subrange(4, 4 + k));
    assert(b_roles == wb.subrange(4, 4 + k));
    assert(char_codes(a_name) == wa.subrange(4 + k, wa.len() as int));
    assert(char_codes(b_name) == wb.subrange(4 + k, wb.len() as int));
    assert(a_name.len() == b_name.len());
    assert forall|i: int| 0 <= i < a_name.len() implies a_name[i] == b_name[i] by {
        assert(char_codes(a_name)[i] == char_codes(b_name)[i]);
        lemma_char_code_injective(a_name[i], b_name[i]);
    }
    assert(a_name == b_name);
}

/// Appends the code points of `s` as words.
fn push_codes(out: &mut Vec<u64>, s: &str)
    ensures
        final(out)@ == old(out)@ + char_codes(s@),
{
    let n = s.unicode_len();
    let ghost start = out@;
    let mut i: usize = 0;
    while i < n
        invariant
            n == s@.len(),
            i <= n,
            out@ == start + char_codes(s@.subrange(0, i as int)),
        decreases n - i,
    {
        let c = s.get_char(i);
        out.push(c as u32 as u64);
        assert(char_codes(s@.subrange(0, i + 1)) == char_codes(s@.subrange(0, i as int)).push(
            c as u32 as u64,
        ));
        i = i + 1;
    }
    assert(s@.subrange(0, n as int) == s@);
}

/// Signs a token for `sub`, `username` and `roles`, issued at `now` and
/// expiring `ttl` seconds later.
pub fn issue_token(secret: &[u8], sub: u64, username: &str, roles: &Vec<u64>, now: u64, ttl: u64) -> (r: String)
    requires
        now + ttl <= u64::MAX,
    ensures
        r@ == signed_token(claim_words(sub, username@, roles@, now, (now + ttl) as u64), secret@),
{
    let mut ws: Vec<u64> = Vec::new();
    ws.push(now);
    ws.push(now + ttl);
    ws.push(sub);
    ws.push(roles.len() as u64);
    let mut i: usize = 0;
    while i < roles.len()
        invariant
            i <= roles.len(),
            ws@ == seq![now, (now + ttl) as u64, sub, roles@.len() as u64] + roles@.subrange(0, i as int),
        decreases roles.len() - i,
    {
        ws.push(roles[i]);
        assert(roles@.subrange(0, i + 1) == roles@.subrange(0, i as int).push(roles@[i as int]));
        i = i + 1;
    }
    assert(roles@.subrange(0, roles.len() as int) == roles@);
    push_codes(&mut ws, username);
    let body = encode_word_text(&ws);
    let sig = hs256_sign(body.as_str(), secret);
    let mut token = body.clone();
    push_char(&mut token, '.');
    crate::text::push_str(&mut token, sig.as_str());
    token
}

/// Reads claims out of their words; `None` when the words lay out none.
fn claims_from_words(ws: &Vec<u64>) -> (r: Option<Claims>)
    ensures
        match r {
            Some(c) => words_of_claims(c) == ws@,
            None => !is_claim_words(ws@),
        },
{
    if ws.len() < 4 {
        return None;
    }
    let k = ws[3];
    if k > (ws.len() - 4) as u64 {
        return None;
    }
    let start: usize = 4 + k as usize;
    let mut roles: Vec<u64> = Vec::new();
    let mut i: usize = 4;
    while i < start
        invariant
            4 <= i <= start <= ws.len(),
            roles@ == ws@.subrange(4, i as int),
        decreases start - i,
    {
        roles.push(ws[i]);
        assert(ws@.subrange(4, i + 1) == ws@.subrange(4, i as int).push(ws@[i as int]));
        i = i + 1;
    }
    let mut username = String::new();
    let mut j: usize = start;
    while j < ws.len()
        invariant
            start <= j <= ws.len(),
            start == 4 + ws@[3],
            char_codes(username@) == ws@.subrange(start as int, j as int),
            forall|m: int| start <= m < j ==> is_scalar_value(#[trigger] ws@[m] as int),
        decreases ws.len() - j,
    {
        let w = ws[j];
        if w > 0xFFFF_FFFF {
            assert(!is_scalar_value(ws@[j as int] as int));
            return None;
        }
        match char_from_code(w as u32) {
            None => {
                assert(!is_scalar_value(ws@[j as int] as int));
                return None;
            },
            Some(c) => {
                proof {
                    lemma_char_code(c);
                }
                let ghost before = username@;
                push_char(&mut username, c);
                assert(username@ == before.push(c));
                assert(char_codes(username@) == char_codes(before).push(c as u32 as u64));
                assert(ws@.subrange(start as int, j + 1) == ws@.subrange(start as int, j as int).push(w));
            },
        }
        j = j + 1;
    }
    let c = Claims { sub: ws[2], username, roles, iat: ws[0], exp: ws[1] };
    assert(words_of_claims(c) == ws@) by {
        assert(ws@ == ws@.subrange(0, 4) + ws@.subrange(4, start as int) + ws@.subrange(start as int, ws@.len() as int));
        assert(ws@.subrange(0, 4) == seq![ws@[0], ws@[1], ws@[2], ws@[3]]);
    }
    Some(c)
}

/// Checks a token at time `now`: its form, then its expiry, then its signature.
pub fn validate_token(secret: &[u8], token: &str, now: u64) -> (r: Result<Claims, TokenError>)
    ensures
        match r {
            Ok(c) => token_outcome(token@, secret@, now) == Ok::<Seq<u64>, TokenError>(words_of_claims(c)),
            Err(e) => token_outcome(token@, secret@, now) == Err::<Seq<u64>, TokenError>(e),
        },
{
    let n = token.unicode_len();
    let mut i: usize = 0;
    loop
        invariant
            n == token@.len(),
            i <= n,
            forall|j: int| 0 <= j < i ==> token@[j] != '.',
        ensures
            i <= n,
            forall|j: int| 0 <= j < i ==> token@[j] != '.',
            i == n || token@[i as int] == '.',
        decreases n - i,
    {
        if i == n {
            break;
        }
        if token.get_char(i) == '.' {
            break;
        }
        i = i + 1;
    }
    if i == n {
        assert(!has_dot(token@));
        return Err(TokenError::Malformed);
    }
    proof {
        lemma_first_dot_unique(token@, i as int);
    }
    let body = token.substring_char(0, i);
    let sig = token.substring_char(i + 1, n);
    match decode_word_text(body) {
        None => Err(TokenError::Malformed),
        Some(ws) => {
            proof {
                lemma_words_in(ws@);
                lemma_encode_words_len(ws@);
            }
            match claims_from_words(&ws) {
                None => Err(TokenError::Malformed),
                Some(c) => {
                    proof {
                        lemma_claim_words(c.sub, c.username@, c.roles@, c.iat, c.exp);
                        assert(body@ == token@.subrange(0, first_dot(token@)));
                        assert(words_in(body@) == ws@);
                    }
                    if now >= c.exp {
                        return Err(TokenError::Expired);
                    }
                    let expected = hs256_sign(body, secret);
                    if !str_eq(sig, expected.as_str()) {
                        return Err(TokenError::SignatureInvalid);
                    }
                    Ok(c)
                },
            }
        },
    }
}

proof fn lemma_signed_token_parts(words: Seq<u64>, secret: Seq<u8>)
    ensures
        has_dot(signed_token(words, secret)),
        first_dot(signed_token(words, secret)) == encode_words(words).len(),
        signed_token(words, secret).subrange(0, encode_words(words).len() as int) == encode_words(words),
        signed_token(words, secret).subrange(
            encode_words(words).len() as int + 1,
            signed_token(words, secret).len() as int,
        ) == hs256_signature(encode_words(words), secret),
        words_in(encode_words(words)) == words,
        is_word_text(encode_words(words)),
{
    let body = encode_words(words);
    let t = signed_token(words, secret);
    lemma_encode_words_len(words);
    lemma_words_in(words);
    assert forall|j: int| 0 <= j < body.len() implies t[j] != '.' by {
        assert(t[j] == body[j]);
        assert(crate::text::is_hex_digit(body[j]));
    }
    assert(t[body.len() as int] == '.');
    lemma_first_dot_unique(t, body.len() as int);
    assert(t.subrange(0, body.len() as int) == body);
    assert(t.subrange(body.len() as int + 1, t.len() as int) == hs256_signature(body, secret));
}

proof fn lemma_claims_of_words(sub: u64, username: Seq<char>, roles: Seq<u64>, iat: u64, exp: u64)
    requires
        roles.len() <= u64::MAX,
    ensures
        forall|c: Claims|
            c.roles@.len() <= u64::MAX && words_of_claims(c) == claim_words(sub, username, roles, iat, exp) ==> {
                &&& c.sub == sub
                &&& c.username@ == username
                &&& c.roles@ == roles
                &&& c.iat == iat
                &&& c.exp == exp
            },
{
    assert forall|c: Claims|
        c.roles@.len() <= u64::MAX && words_of_claims(c) == claim_words(sub, username, roles, iat, exp) implies {
        &&& c.sub == sub
        &&& c.username@ == username
        &&& c.roles@ == roles
        &&& c.iat == iat
        &&& c.exp == exp
    } by {
        lemma_claim_words_injective(c.sub, c.username@, c.roles@, c.iat, c.exp, sub, username, roles, iat, exp);
    }
}

/// A token validated before its expiry time, with the secret it was signed
/// with, gives back exactly the claims it was issued for.
pub proof fn lemma_validate_issued(
    secret: Seq<u8>,
    sub: u64,
    username: Seq<char>,
    roles: Seq<u64>,
    iat: u64,
    exp: u64,
    now: u64,
)
    requires
        roles.len() <= u64::MAX,
        now < exp,
    ensures
        token_outcome(signed_token(claim_words(sub, username, roles, iat, exp), secret), secret, now)
            == Ok::<Seq<u64>, TokenError>(claim_words(sub, username, roles, iat, exp)),
        forall|c: Claims|
            c.roles@.len() <= u64::MAX && words_of_claims(c) == claim_words(sub, username, roles, iat, exp) ==> {
                &&& c.sub == sub
                &&& c.username@ == username
                &&& c.roles@ == roles
                &&& c.iat == iat
                &&& c.exp == exp
            },
{
    let ws = claim_words(sub, username, roles, iat, exp);
    let t = signed_token(ws, secret);
    lemma_signed_token_parts(ws, secret);
    lemma_claim_words(sub, username, roles, iat, exp);
    let body = t.subrange(0, first_dot(t));
    assert(body == encode_words(ws));
    assert(words_in(body) == ws);
    assert(t.subrange(first_dot(t) + 1, t.len() as int) == hs256_signature(body, secret));
    assert(token_outcome(t, secret, now) == Ok::<Seq<u64>, TokenError>(ws));
    lemma_claims_of_words(sub, username, roles, iat, exp);
}

/// A token validated at or after its expiry time is refused as expired,
/// whatever secret it is checked against: never as badly signed.
pub proof fn lemma_validate_expired(
    signing_secret: Seq<u8>,
    checking_secret: Seq<u8>,
    sub: u64,
    username: Seq<char>,
    roles: Seq<u64>,
    iat: u64,
    exp: u64,
    now: u64,
)
    requires
        roles.len() <= u64::MAX,
        now >= exp,
    ensures
        token_outcome(
            signed_token(claim_words(sub, username, roles, iat, exp), signing_secret),
            checking_secret,
            now,
        ) == Err::<Seq<u64>, TokenError>(TokenError::Expired),
{
    let ws = claim_words(sub, username, roles, iat, exp);
    lemma_signed_token_parts(ws, signing_secret);
    lemma_claim_words(sub, username, roles, iat, exp);
}

} // verus!
