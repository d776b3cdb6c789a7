//! The URL-safe base64 alphabet without padding (RFC 7515, section 2).
use vstd::prelude::*;

verus! {

/// The character of the URL-safe alphabet that stands for the six-bit value `v`.
pub open spec fn symbol(v: int) -> char {
    if v < 26 {
        (65 + v) as char
    } else if v < 52 {
        (97 + (v - 26)) as char
    } else if v < 62 {
        (48 + (v - 52)) as char
    } else if v == 62 {
        '-'
    } else {
        '_'
    }
}

/// The characters of the URL-safe alphabet.
pub open spec fn is_url_safe_char(c: char) -> bool {
    ||| 'A' <= c <= 'Z'
    ||| 'a' <= c <= 'z'
    ||| '0' <= c <= '9'
    ||| c == '-'
    ||| c == '_'
}

/// Every character of `s` is in the URL-safe alphabet.
pub open spec fn is_url_safe(s: Seq<char>) -> bool {
    forall|i: int| 0 <= i < s.len() ==> is_url_safe_char(#[trigger] s[i])
}

/// Base64url of `b`: each group of three bytes becomes four characters; a final
/// group of one or two bytes becomes two or three characters, with no `=`.
pub open spec fn encode(b: Seq<u8>) -> Seq<char>
    decreases b.len(),
{
    if b.len() == 0 {
        Seq::empty()
    } else if b.len() == 1 {
        seq![symbol((b[0] as int) / 4), symbol(((b[0] as int) % 4) * 16)]
    } else if b.len() == 2 {
        seq![
            symbol((b[0] as int) / 4),
            symbol(((b[0] as int) % 4) * 16 + (b[1] as int) / 16),
            symbol(((b[1] as int) % 16) * 4),
        ]
    } else {
        group(b[0] as int, b[1] as int, b[2] as int) + encode(b.subrange(3, b.len() as int))
    }
}

/// The four characters that stand for the three bytes `x`, `y`, `z`.
pub open spec fn group(x: int, y: int, z: int) -> Seq<char> {
    seq![
        symbol(x / 4),
        symbol((x % 4) * 16 + y / 16),
        symbol((y % 16) * 4 + z / 64),
        symbol(z % 64),
    ]
}

/// The length of the encoding of `n` bytes.
pub open spec fn encoded_len(n: nat) -> nat {
    (4 * n + 2) / 3
}

proof fn lemma_symbol_url_safe(v: int)
    requires
        0 <= v < 64,
    ensures
        is_url_safe_char(symbol(v)),
        (symbol(v) as u32) < 128,
{
}

/// What the encoding of `b` is made of: characters of the URL-safe alphabet,
/// `encoded_len` of them.
pub proof fn lemma_encode_shape(b: Seq<u8>)
    ensures
        is_url_safe(encode(b)),
        encode(b).len() == encoded_len(b.len()),
        vstd::utf8::is_ascii_chars(encode(b)),
    decreases b.len(),
{
    if b.len() == 0 {
    } else if b.len() == 1 {
        lemma_symbol_url_safe((b[0] as int) / 4);
        lemma_symbol_url_safe(((b[0] as int) % 4) * 16);
    } else if b.len() == 2 {
        lemma_symbol_url_safe((b[0] as int) / 4);
        lemma_symbol_url_safe(((b[0] as int) % 4) * 16 + (b[1] as int) / 16);
        lemma_symbol_url_safe(((b[1] as int) % 16) * 4);
    } else {
        let rest = b.subrange(3, b.len() as int);
        lemma_encode_shape(rest);
        lemma_symbol_url_safe((b[0] as int) / 4);
        lemma_symbol_url_safe(((b[0] as int) % 4) * 16 + (b[1] as int) / 16);
        lemma_symbol_url_safe(((b[1] as int) % 16) * 4 + (b[2] as int) / 64);
        lemma_symbol_url_safe((b[2] as int) % 64);
        let head = group(b[0] as int, b[1] as int, b[2] as int);
        assert(encode(b) == head + encode(rest));
        assert forall|i: int| 0 <= i < encode(b).len() implies is_url_safe_char(
            #[trigger] encode(b)[i],
        ) && '\0' <= encode(b)[i] <= '\u{7f}' by {
            if i >= 4 {
                assert(encode(b)[i] == encode(rest)[i - 4]);
            }
        }
    }
}

/// The base64url encoding never holds `+`, `/` or `=`.
pub proof fn law_no_plus_slash_or_padding(x: Seq<u8>)
    ensures
        forall|i: int|
            0 <= i < encode(x).len() ==> {
                let c = #[trigger] encode(x)[i];
                c != '+' && c != '/' && c != '='
            },
{
    lemma_encode_shape(x);
}

/// Relies on base64::encode_config with the URL_SAFE_NO_PAD configuration:
/// the URL-safe alphabet, with the padding left out. It panics only where the
/// size of the output overflows `usize`, which no slice (at most `isize::MAX`
/// bytes) can cause.
#[verifier::external_body]
pub fn base64_encode(payload: &[u8]) -> (r: String)
    ensures
        r@ == encode(payload@),
{
    base64::encode_config(payload, base64::URL_SAFE_NO_PAD)
}

} // verus!
