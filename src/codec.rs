//! A fixed-width hexadecimal encoding of a sequence of 64-bit words: each word
//! becomes sixteen lowercase digits, most significant first.
use vstd::prelude::*;
use crate::text::{
    hex_digit, hex_value, is_hex_digit, lemma_hex_digit, lemma_hex_value, push_char, hex_digit_char,
    hex_char_value,
};

verus! {

pub open spec fn pow16(n: nat) -> nat
    decreases n,
{
    if n == 0 {
        1
    } else {
        16 * pow16((n - 1) as nat)
    }
}

/// The `n` least significant hexadecimal digits of `w`, most significant first.
pub open spec fn hex_digits(w: nat, n: nat) -> Seq<char>
    decreases n,
{
    if n == 0 {
        Seq::empty()
    } else {
        hex_digits(w / 16, (n - 1) as nat).push(hex_digit(w % 16))
    }
}

/// The number written by a string of hexadecimal digits.
pub open spec fn hex_number(s: Seq<char>) -> nat
    decreases s.len(),
{
    if s.len() == 0 {
        0
    } else {
        hex_number(s.drop_last()) * 16 + hex_value(s.last())
    }
}

pub open spec fn all_hex(s: Seq<char>) -> bool {
    forall|i: int| 0 <= i < s.len() ==> is_hex_digit(#[trigger] s[i])
}

/// The encoding of a word sequence.
pub open spec fn encode_words(ws: Seq<u64>) -> Seq<char>
    decreases ws.len(),
{
    if ws.len() == 0 {
        Seq::empty()
    } else {
        encode_words(ws.drop_last()) + hex_digits(ws.last() as nat, 16)
    }
}

/// What a string must be to decode: whole words of hexadecimal digits.
pub open spec fn is_word_text(s: Seq<char>) -> bool {
    s.len() % 16 == 0 && all_hex(s)
}

proof fn lemma_pow16_64()
    ensures
        pow16(16) == 0x1_0000_0000_0000_0000,
{
    reveal_with_fuel(pow16, 17);
}

pub proof fn lemma_hex_digits_number(w: nat, n: nat)
    requires
        w < pow16(n),
    ensures
        hex_digits(w, n).len() == n,
        all_hex(hex_digits(w, n)),
        hex_number(hex_digits(w, n)) == w,
    decreases n,
{
    if n > 0 {
        let q = w / 16;
        let r = w % 16;
        let p = pow16((n - 1) as nat);
        assert(q < p) by (nonlinear_arith)
            requires
                w == 16 * q + r,
                r < 16,
                w < 16 * p,
        ;
        lemma_hex_digits_number(q, (n - 1) as nat);
        lemma_hex_digit(r);
        let s = hex_digits(w, n);
        assert(s.drop_last() == hex_digits(q, (n - 1) as nat));
        assert forall|i: int| 0 <= i < s.len() implies is_hex_digit(#[trigger] s[i]) by {
            if i < s.len() - 1 {
                assert(s[i] == hex_digits(q, (n - 1) as nat)[i]);
            }
        }
    }
}

pub proof fn lemma_number_hex_digits(s: Seq<char>)
    requires
        all_hex(s),
    ensures
        hex_number(s) < pow16(s.len()),
        hex_digits(hex_number(s), s.len()) == s,
    decreases s.len(),
{
    if s.len() > 0 {
        let t = s.drop_last();
        assert(all_hex(t)) by {
            assert forall|i: int| 0 <= i < t.len() implies is_hex_digit(#[trigger] t[i]) by {
                assert(t[i] == s[i]);
            }
        }
        lemma_number_hex_digits(t);
        let q = hex_number(t);
        let d = hex_value(s.last());
        assert(is_hex_digit(s[s.len() - 1]));
        lemma_hex_value(s.last());
        let p = pow16(t.len());
        assert(q * 16 + d < 16 * p) by (nonlinear_arith)
            requires
                q < p,
                d < 16,
        ;
        let w = q * 16 + d;
        assert(w / 16 == q && w % 16 == d) by (nonlinear_arith)
            requires
                w == q * 16 + d,
                d < 16,
        ;
        assert(hex_digits(w, s.len()) == t.push(s.last()));
        assert(t.push(s.last()) == s);
    }
}

pub proof fn lemma_encode_words_len(ws: Seq<u64>)
    ensures
        encode_words(ws).len() == 16 * ws.len(),
        is_word_text(encode_words(ws)),
    decreases ws.len(),
{
    if ws.len() > 0 {
        lemma_encode_words_len(ws.drop_last());
        lemma_pow16_64();
        lemma_hex_digits_number(ws.last() as nat, 16);
        let a = encode_words(ws.drop_last());
        let b = hex_digits(ws.last() as nat, 16);
        assert forall|i: int| 0 <= i < a.len() + b.len() implies is_hex_digit(#[trigger] (a + b)[i]) by {
            if i < a.len() {
                assert((a + b)[i] == a[i]);
            } else {
                assert((a + b)[i] == b[i - a.len()]);
            }
        }
        assert((16 * ws.drop_last().len() + 16) % 16 == 0) by (nonlinear_arith);
    }
}

/// Two word sequences with one encoding are equal.
pub proof fn lemma_encode_words_injective(a: Seq<u64>, b: Seq<u64>)
    requires
        encode_words(a) == encode_words(b),
    ensures
        a == b,
    decreases a.len(),
{
    lemma_encode_words_len(a);
    lemma_encode_words_len(b);
    if a.len() > 0 {
        lemma_encode_words_len(a.drop_last());
        lemma_encode_words_len(b.drop_last());
        lemma_pow16_64();
        lemma_hex_digits_number(a.last() as nat, 16);
        lemma_hex_digits_number(b.last() as nat, 16);
        let ea = encode_words(a);
        let n = ea.len() - 16;
        let m = ea.len() as int;
        assert(ea.subrange(n, m) == hex_digits(a.last() as nat, 16));
        assert(encode_words(b).subrange(n, m) == hex_digits(b.last() as nat, 16));
        assert(ea.subrange(0, n) == encode_words(a.drop_last()));
        assert(encode_words(b).subrange(0, n) == encode_words(b.drop_last()));
        lemma_encode_words_injective(a.drop_last(), b.drop_last());
        assert(a == a.drop_last().push(a.last()));
        assert(b == b.drop_last().push(b.last()));
    }
}

/// Appends the `n` least significant digits of `w`.
fn push_hex(out: &mut String, w: u64, n: u8)
    ensures
        final(out)@ == old(out)@ + hex_digits(w as nat, n as nat),
    decreases n,
{
    if n > 0 {
        let ghost start = out@;
        push_hex(out, w / 16, n - 1);
        let c = hex_digit_char((w % 16) as u8);
        push_char(out, c);
        assert(out@ == start + hex_digits(w as nat, n as nat));
    }
}

/// The encoding of `ws`.
pub fn encode_word_text(ws: &Vec<u64>) -> (r: String)
    ensures
        r@ == encode_words(ws@),
{
    let mut out = String::new();
    let mut i: usize = 0;
    while i < ws.len()
        invariant
            i <= ws.len(),
            out@ == encode_words(ws@.subrange(0, i as int)),
        decreases ws.len() - i,
    {
        push_hex(&mut out, ws[i], 16);
        assert(ws@.subrange(0, i + 1).drop_last() == ws@.subrange(0, i as int));
        i = i + 1;
    }
    assert(ws@.subrange(0, ws.len() as int) == ws@);
    out
}

proof fn lemma_pow16_mono(a: nat, b: nat)
    requires
        a <= b,
    ensures
        pow16(a) <= pow16(b),
    decreases b,
{
    if a < b {
        lemma_pow16_mono(a, (b - 1) as nat);
    }
}

/// Reads a word text back into its words; `None` when `s` is no word text.
pub fn decode_word_text(s: &str) -> (r: Option<Vec<u64>>)
    ensures
        match r {
            Some(ws) => encode_words(ws@) == s@,
            None => !is_word_text(s@),
        },
{
    let n = s.unicode_len();
    if n % 16 != 0 {
        return None;
    }
    let mut ws: Vec<u64> = Vec::new();
    let mut k: usize = 0;
    while k < n
        invariant
            n == s@.len(),
            n % 16 == 0,
            k % 16 == 0,
            k <= n,
            encode_words(ws@) == s@.subrange(0, k as int),
        decreases n - k,
    {
        let mut v: u64 = 0;
        let mut j: usize = 0;
        while j < 16
            invariant
                n == s@.len(),
                n % 16 == 0,
                k % 16 == 0,
                k < n,
                j <= 16,
                v as nat == hex_number(s@.subrange(k as int, k + j)),
                v < pow16(j as nat),
                all_hex(s@.subrange(k as int, k + j)),
            decreases 16 - j,
        {
            let c = s.get_char(k + j);
            match hex_char_value(c) {
                None => {
                    assert(!all_hex(s@)) by {
                        assert(!is_hex_digit(s@[k + j]));
                    }
                    return None;
                },
                Some(d) => {
                    proof {
                        lemma_pow16_mono((j + 1) as nat, 16);
                        lemma_pow16_64();
                        assert(v * 16 + d < 16 * pow16(j as nat)) by (nonlinear_arith)
                            requires
                                v < pow16(j as nat),
                                d < 16,
                        ;
                        let t = s@.subrange(k as int, k + j + 1);
                        assert(t.drop_last() == s@.subrange(k as int, k + j));
                        assert(t.last() == c);
                        assert forall|i: int| 0 <= i < t.len() implies is_hex_digit(#[trigger] t[i]) by {
                            if i < j {
                                assert(t[i] == s@.subrange(k as int, k + j)[i]);
                            }
                        }
                    }
                    v = v * 16 + d as u64;
                },
            }
            j = j + 1;
        }
        proof {
            let chunk = s@.subrange(k as int, k + 16);
            lemma_number_hex_digits(chunk);
            assert(s@.subrange(0, k + 16) == s@.subrange(0, k as int) + chunk);
        }
        let ghost before = ws@;
        ws.push(v);
        assert(ws@.drop_last() == before);
        k = k + 16;
    }
    assert(s@.subrange(0, n as int) == s@);
    Some(ws)
}

} // verus!
