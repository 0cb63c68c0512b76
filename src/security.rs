//! Random identifiers and codes, and the password check.
use vstd::prelude::*;
use crate::text::push_char;

verus! {

/// Relies on `rand::Rng::gen_range` over `0..n` on the thread's generator:
/// a number below `n`; it panics on an empty range, which `n > 0` rules out.
#[verifier::external_body]
pub(crate) fn random_below(n: usize) -> (r: usize)
    requires
        n > 0,
    ensures
        r < n,
{
    rand::Rng::gen_range(&mut rand::thread_rng(), 0..n)
}

/// Relies on `uuid::Uuid::new_v4` and its `Display`: a random version 4 id in
/// the hyphenated form, 36 characters.
#[verifier::external_body]
fn random_uuid() -> (r: String)
    ensures
        r@.len() == 36,
{
    uuid::Uuid::new_v4().to_string()
}

/// The MD5 digest of the UTF-8 bytes of `s`, in lowercase hexadecimal.
pub uninterp spec fn md5_hex(s: Seq<char>) -> Seq<char>;

/// Relies on `md5::Md5` (RustCrypto) and the `LowerHex` form of its
/// sixteen-byte output: two digits a byte.
#[verifier::external_body]
fn md5_digest_hex(input: &str) -> (r: String)
    ensures
        r@ == md5_hex(input@),
        r@.len() == 32,
{
    format!("{:x}", <md5::Md5 as md5::Digest>::digest(input.as_bytes()))
}

/// The SHA-256 digest of the UTF-8 bytes of `s`, in lowercase hexadecimal.
pub uninterp spec fn sha256_hex(s: Seq<char>) -> Seq<char>;

/// Relies on `sha2::Sha256` and the `LowerHex` form of its 32-byte output:
/// two digits a byte.
#[verifier::external_body]
fn sha256_digest_hex(input: &str) -> (r: String)
    ensures
        r@ == sha256_hex(input@),
        r@.len() == 64,
{
    format!("{:x}", <sha2::Sha256 as sha2::Digest>::digest(input.as_bytes()))
}

/// Whether `password` matches the stored PHC hash string `phc`.
pub uninterp spec fn argon2_accepts(password: Seq<char>, phc: Seq<char>) -> bool;

/// Relies on `argon2::PasswordHash::new`, which parses the self-describing
/// stored hash (algorithm, parameters, salt, digest), and on
/// `Argon2::verify_password`, which hashes the password with those and
/// compares in constant time. A hash that does not parse matches nothing.
#[verifier::external_body]
fn argon2_verify(password: &str, phc: &str) -> (r: bool)
    ensures
        r == argon2_accepts(password@, phc@),
{
    match argon2::PasswordHash::new(phc) {
        Ok(parsed) => argon2::PasswordVerifier::verify_password(
            &argon2::Argon2::default(),
            password.as_bytes(),
            &parsed,
        ).is_ok(),
        Err(_) => false,
    }
}

/// `length` characters drawn at random from `charset`.
fn random_text(charset: &str, length: usize) -> (r: String)
    requires
        charset@.len() > 0,
    ensures
        r@.len() == length,
        forall|j: int| 0 <= j < length ==> charset@.contains(#[trigger] r@[j]),
{
    let n = charset.unicode_len();
    let mut out = String::new();
    let mut i: usize = 0;
    while i < length
        invariant
            n == charset@.len(),
            n > 0,
            i <= length,
            out@.len() == i,
            forall|j: int| 0 <= j < i ==> charset@.contains(#[trigger] out@[j]),
        decreases length - i,
    {
        let k = random_below(n);
        let c = charset.get_char(k);
        let ghost before = out@;
        push_char(&mut out, c);
        assert(out@[i as int] == c);
        assert forall|j: int| 0 <= j < i + 1 implies charset@.contains(#[trigger] out@[j]) by {
            if j < i {
                assert(out@[j] == before[j]);
            } else {
                assert(charset@[k as int] == c);
            }
        }
        i = i + 1;
    }
    out
}

/// Random strings, codes and ids, and the password check.
pub struct SecurityUtils;

impl SecurityUtils {
    /// `length` random letters and digits.
    pub fn generate_random_string(length: usize) -> (r: String)
        ensures
            r@.len() == length,
            forall|j: int|
                0 <= j < length ==> "ABCDEFGHIJKLMNOPQRSTUVWXYZabcdefghijklmnopqrstuvwxyz0123456789"@.contains(
                    #[trigger] r@[j],
                ),
    {
        proof {
            reveal_strlit("ABCDEFGHIJKLMNOPQRSTUVWXYZabcdefghijklmnopqrstuvwxyz0123456789");
        }
        random_text("ABCDEFGHIJKLMNOPQRSTUVWXYZabcdefghijklmnopqrstuvwxyz0123456789", length)
    }

    /// A captcha code of `length` random digits and letters.
    pub fn generate_captcha(length: usize) -> (r: String)
        ensures
            r@.len() == length,
            forall|j: int|
                0 <= j < length ==> "0123456789ABCDEFGHIJKLMNOPQRSTUVWXYZabcdefghijklmnopqrstuvwxyz"@.contains(
                    #[trigger] r@[j],
                ),
    {
        proof {
            reveal_strlit("0123456789ABCDEFGHIJKLMNOPQRSTUVWXYZabcdefghijklmnopqrstuvwxyz");
        }
        random_text("0123456789ABCDEFGHIJKLMNOPQRSTUVWXYZabcdefghijklmnopqrstuvwxyz", length)
    }

    /// A captcha code of `length` random digits.
    pub fn generate_numeric_captcha(length: usize) -> (r: String)
        ensures
            r@.len() == length,
            forall|j: int| 0 <= j < length ==> "0123456789"@.contains(#[trigger] r@[j]),
    {
        proof {
            reveal_strlit("0123456789");
        }
        random_text("0123456789", length)
    }

    /// A random version 4 UUID, hyphenated.
    pub fn generate_uuid() -> (r: String)
        ensures
            r@.len() == 36,
    {
        random_uuid()
    }

    /// A random version 4 UUID without its hyphens.
    pub fn generate_short_uuid() -> (r: String)
        ensures
            r@.len() <= 36,
            forall|j: int| 0 <= j < r@.len() ==> #[trigger] r@[j] != '-',
    {
        let id = random_uuid();
        let n = id.as_str().unicode_len();
        let mut out = String::new();
        let mut i: usize = 0;
        while i < n
            invariant
                n == id@.len(),
                i <= n,
                out@.len() <= i,
                forall|j: int| 0 <= j < out@.len() ==> #[trigger] out@[j] != '-',
            decreases n - i,
        {
            let c = id.as_str().get_char(i);
            if c != '-' {
                push_char(&mut out, c);
            }
            i = i + 1;
        }
        out
    }

    /// The MD5 digest of `input`, in hexadecimal.
    pub fn md5_hash(input: &str) -> (r: String)
        ensures
            r@ == md5_hex(input@),
            r@.len() == 32,
    {
        md5_digest_hex(input)
    }

    /// The SHA-256 digest of `input`, in hexadecimal.
    pub fn sha256_hash(input: &str) -> (r: String)
        ensures
            r@ == sha256_hex(input@),
            r@.len() == 64,
    {
        sha256_digest_hex(input)
    }

    /// Whether `password` matches the stored hash `hash`, whose salt and
    /// parameters it carries itself.
    pub fn verify_password(password: &str, hash: &str) -> (r: bool)
        ensures
            r == argon2_accepts(password@, hash@),
    {
        argon2_verify(password, hash)
    }
}

} // verus!
