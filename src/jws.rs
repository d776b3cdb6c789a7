//! The ES512 header, the signing input, and the compact and detached
//! serializations of a JWS (RFC 7515, section 7.1 and appendix F).
use crate::base64url::{base64_encode, encode, is_url_safe, is_url_safe_char, lemma_encode_shape};
use crate::error::JwsError;
use crate::signature::{fixed_width, is_signature_text, scalars_fit, sign_es512};
use openssl::ec::EcKey;
use openssl::pkey::Private;
use vstd::prelude::*;

verus! {

#[verifier::external_type_specification]
#[verifier::external_body]
pub struct ExJsonError(serde_json::Error);

/// The lowercase hexadecimal digit of `v`, for `0 <= v < 16`.
pub open spec fn hex_digit(v: int) -> char {
    if v < 10 {
        (48 + v) as char
    } else {
        (97 + (v - 10)) as char
    }
}

/// How `c` stands inside a JSON string literal: quote and backslash take a
/// backslash, five control characters have short escapes, the other control
/// characters below U+0020 become `\u00XX`, and every other character stands
/// as it is.
pub open spec fn json_escaped_char(c: char) -> Seq<char> {
    if c == '"' {
        seq!['\\', '"']
    } else if c == '\\' {
        seq!['\\', '\\']
    } else if c == '\u{8}' {
        seq!['\\', 'b']
    } else if c == '\t' {
        seq!['\\', 't']
    } else if c == '\n' {
        seq!['\\', 'n']
    } else if c == '\u{c}' {
        seq!['\\', 'f']
    } else if c == '\r' {
        seq!['\\', 'r']
    } else if (c as u32) < 0x20 {
        seq!['\\', 'u', '0', '0', hex_digit((c as int) / 16), hex_digit((c as int) % 16)]
    } else {
        seq![c]
    }
}

/// The characters of `s`, each escaped for a JSON string literal.
pub open spec fn json_escaped(s: Seq<char>) -> Seq<char>
    decreases s.len(),
{
    if s.len() == 0 {
        Seq::empty()
    } else {
        json_escaped_char(s[0]) + json_escaped(s.drop_first())
    }
}

/// The JSON string literal that stands for `s`.
pub open spec fn json_string_of(s: Seq<char>) -> Seq<char> {
    seq!['"'] + json_escaped(s) + seq!['"']
}

/// Relies on serde_json::to_string on a `str`: a JSON string literal in
/// quotes, escaped by serde_json's table (ser.rs, `ESCAPE` and
/// `write_char_escape`). It writes into a `Vec`, so it never fails.
#[verifier::external_body]
fn json_string(s: &str) -> (r: Result<String, serde_json::Error>)
    ensures
        r is Ok,
        r is Ok ==> r->Ok_0@ == json_string_of(s@),
{
    serde_json::to_string(s)
}

/// The JSON text of the header whose `kid` member is the JSON literal `kid_json`.
pub open spec fn header_around(kid_json: Seq<char>) -> Seq<char> {
    "{\"alg\":\"ES512\",\"kid\":"@ + kid_json + "}"@
}

/// The JSON text of the header with key identifier `kid`.
pub open spec fn header_text(kid: Seq<char>) -> Seq<char> {
    header_around(json_string_of(kid))
}

/// `base64url(header) "." base64url(payload)`, for the JSON text `header`.
pub open spec fn signing_text(header: Seq<char>, payload: Seq<u8>) -> Seq<char> {
    encode(vstd::utf8::encode_utf8(header)) + seq!['.'] + encode(payload)
}

/// The compact serialization: the signing input, a dot, the signature.
pub open spec fn compact_text(header: Seq<char>, payload: Seq<u8>, sig: Seq<char>) -> Seq<char> {
    signing_text(header, payload) + seq!['.'] + sig
}

/// The detached serialization: the payload segment is left empty.
pub open spec fn detached_text(header: Seq<char>, sig: Seq<char>) -> Seq<char> {
    encode(vstd::utf8::encode_utf8(header)) + seq!['.', '.'] + sig
}

/// The ES512 header of a JWS: `{"alg":"ES512","kid":<kid>}`.
pub struct JwsHeader {
    /// The identifier of the registered certificate that matches the key.
    pub kid: String,
}

/// The header text around `kid_json`, a JSON string literal.
pub fn header_with_kid_literal(kid_json: &str) -> (r: String)
    ensures
        r@ == header_around(kid_json@),
{
    let mut out = String::from_str("{\"alg\":\"ES512\",\"kid\":");
    out.append(kid_json);
    out.append("}");
    out
}

impl JwsHeader {
    /// The JSON text of the header; the members come in this order always.
    /// Serializing the kid cannot fail, so neither can this.
    pub fn to_json(&self) -> (r: Result<String, JwsError>)
        ensures
            r is Ok,
            r is Ok ==> r->Ok_0@ == header_text(self.kid@),
    {
        match json_string(self.kid.as_str()) {
            Ok(kid_json) => Ok(header_with_kid_literal(kid_json.as_str())),
            Err(_) => Err(JwsError::SerializationError),
        }
    }
}

/// The signing input: `base64url(header_json) "." base64url(payload)`.
pub fn signing_input(header_json: &str, payload: &[u8]) -> (r: String)
    ensures
        r@ == signing_text(header_json@, payload@),
{
    let mut out = base64_encode(header_json.as_bytes());
    out.append(".");
    let segment = base64_encode(payload);
    out.append(segment.as_str());
    proof {
        reveal_strlit(".");
    }
    out
}

/// `s` is made of exactly three segments: it holds a dot at `i` and at `j`,
/// and at no other place.
pub open spec fn splits_at(s: Seq<char>, i: int, j: int) -> bool {
    &&& 0 <= i < j < s.len()
    &&& s[i] == '.'
    &&& s[j] == '.'
    &&& forall|k: int| 0 <= k < s.len() && k != i && k != j ==> #[trigger] s[k] != '.'
}

/// The first and the last of the three segments of `s`, with two dots between.
pub open spec fn rejoined(s: Seq<char>, i: int, j: int) -> Seq<char> {
    s.subrange(0, i) + seq!['.', '.'] + s.subrange(j + 1, s.len() as int)
}

/// Splits a compact JWS on `.` into its three segments and joins the first and
/// the last with `..`, leaving the payload segment out. Text that is not ASCII,
/// or that does not have exactly three segments, gives `None`.
pub fn detach_payload(jws: &str) -> (r: Option<String>)
    ensures
        r is Some <==> vstd::utf8::is_ascii_chars(jws@) && exists|i: int, j: int|
            splits_at(jws@, i, j),
        forall|i: int, j: int|
            splits_at(jws@, i, j) && r is Some ==> r->Some_0@ == rejoined(jws@, i, j),
{
    if !jws.is_ascii() {
        return None;
    }
    let n: usize = jws.unicode_len();
    let ghost s = jws@;
    let mut first: Option<usize> = None;
    let mut second: Option<usize> = None;
    let mut k: usize = 0;
    while k < n
        invariant
            n == s.len(),
            s == jws@,
            k <= n,
            vstd::utf8::is_ascii_chars(s),
            first is None ==> second is None && forall|m: int| 0 <= m < k ==> s[m] != '.',
            first is Some ==> first->Some_0 < k && s[first->Some_0 as int] == '.' && forall|m: int|
                0 <= m < first->Some_0 ==> s[m] != '.',
            first is Some && second is None ==> forall|m: int|
                first->Some_0 < m < k ==> s[m] != '.',
            second is Some ==> first is Some && first->Some_0 < second->Some_0 < k
                && s[second->Some_0 as int] == '.' && (forall|m: int|
                first->Some_0 < m < second->Some_0 ==> s[m] != '.') && (forall|m: int|
                second->Some_0 < m < k ==> s[m] != '.'),
        decreases n - k,
    {
        let b = jws.get_ascii(k);
        assert('\0' <= s[k as int] <= '\u{7f}');
        if b == 46u8 {
            assert(s[k as int] == '.');
            match (first, second) {
                (None, _) => {
                    first = Some(k);
                },
                (Some(_), None) => {
                    second = Some(k);
                },
                (Some(f), Some(g)) => {
                    assert forall|i: int, j: int| !splits_at(s, i, j) by {
                        if splits_at(s, i, j) {
                            if f != i && f != j {
                                assert(s[f as int] != '.');
                            } else if g != i && g != j {
                                assert(s[g as int] != '.');
                            } else {
                                assert(s[k as int] != '.');
                            }
                        }
                    }
                    return None;
                },
            }
        } else {
            assert(s[k as int] != '.');
        }
        k = k + 1;
    }
    match (first, second) {
        (Some(i), Some(j)) => {
            assert(splits_at(s, i as int, j as int));
            assert forall|i2: int, j2: int| splits_at(s, i2, j2) implies i2 == i && j2 == j by {
                if i2 != i as int && j2 != i as int {
                    assert(s[i as int] != '.');
                }
                if i2 != j as int && j2 != j as int {
                    assert(s[j as int] != '.');
                }
            }
            let mut out = String::from_str(jws.substring_ascii(0, i));
            out.append("..");
            out.append(jws.substring_ascii(j + 1, n));
            proof {
                reveal_strlit("..");
                assert(out@ =~= rejoined(s, i as int, j as int));
            }
            Some(out)
        },
        _ => {
            assert forall|i: int, j: int| !splits_at(s, i, j) by {
                if splits_at(s, i, j) {
                    assert(s[i] == '.' && s[j] == '.');
                }
            }
            None
        },
    }
}

/// The errors that signing a JWS can end in: the header always serializes,
/// so only the signer can fail.
pub open spec fn is_signing_error(e: JwsError) -> bool {
    ||| e == JwsError::CurveMismatch
    ||| e == JwsError::SigningFailure
    ||| e == JwsError::OversizedScalar
}

/// Signs `jws_payload` under `jws_header` with ES512 and returns the compact
/// JWS `base64url(header) "." base64url(payload) "." base64url(signature)`.
pub fn get_jws(jws_header: &JwsHeader, jws_payload: &[u8], pkey: EcKey<Private>) -> (r: Result<
    String,
    JwsError,
>)
    ensures
        r is Ok ==> exists|sig: Seq<char>|
            is_signature_text(sig) && r->Ok_0@ == compact_text(
                header_text(jws_header.kid@),
                jws_payload@,
                sig,
            ),
        r is Err ==> is_signing_error(r->Err_0),
{
    let header_json = match jws_header.to_json() {
        Ok(h) => h,
        Err(e) => return Err(e),
    };
    let input = signing_input(header_json.as_str(), jws_payload);
    let signature = match sign_es512(input.as_str().as_bytes(), pkey) {
        Ok(sig) => sig,
        Err(e) => return Err(e),
    };
    let mut jws = input;
    jws.append(".");
    jws.append(signature.as_str());
    proof {
        reveal_strlit(".");
        assert(jws@ =~= compact_text(header_text(jws_header.kid@), jws_payload@, signature@));
    }
    Ok(jws)
}

proof fn lemma_url_safe_has_no_dot(t: Seq<char>)
    requires
        is_url_safe(t),
    ensures
        forall|k: int| 0 <= k < t.len() ==> #[trigger] t[k] != '.',
{
    assert forall|k: int| 0 <= k < t.len() implies #[trigger] t[k] != '.' by {
        assert(is_url_safe_char(t[k]));
    }
}

/// A signature text is ASCII text of the URL-safe alphabet, and not empty.
proof fn lemma_signature_text_shape(sig: Seq<char>)
    requires
        is_signature_text(sig),
    ensures
        is_url_safe(sig),
        vstd::utf8::is_ascii_chars(sig),
        sig.len() > 0,
{
    let (r, s) = choose|r: Seq<u8>, s: Seq<u8>|
        scalars_fit(r, s) && sig == encode(fixed_width(r, s));
    lemma_encode_shape(fixed_width(r, s));
}

/// The compact text is ASCII and splits into exactly three segments, and
/// rejoining its outer segments gives the detached text.
proof fn lemma_compact_detaches(header: Seq<char>, payload: Seq<u8>, sig: Seq<char>)
    requires
        is_signature_text(sig),
    ensures
        ({
            let t = compact_text(header, payload, sig);
            let i = encode(vstd::utf8::encode_utf8(header)).len() as int;
            let j = i + 1 + encode(payload).len();
            &&& vstd::utf8::is_ascii_chars(t)
            &&& splits_at(t, i, j)
            &&& rejoined(t, i, j) == detached_text(header, sig)
        }),
{
    let a = encode(vstd::utf8::encode_utf8(header));
    let b = encode(payload);
    let t = compact_text(header, payload, sig);
    let i = a.len() as int;
    let j = i + 1 + b.len();
    lemma_encode_shape(vstd::utf8::encode_utf8(header));
    lemma_encode_shape(payload);
    lemma_signature_text_shape(sig);
    lemma_url_safe_has_no_dot(a);
    lemma_url_safe_has_no_dot(b);
    lemma_url_safe_has_no_dot(sig);
    assert(t =~= a + seq!['.'] + b + seq!['.'] + sig);
    assert forall|k: int| 0 <= k < t.len() implies '\0' <= #[trigger] t[k] <= '\u{7f}' && (k != i
        && k != j ==> t[k] != '.') by {
        if k < i {
            assert(t[k] == a[k]);
        } else if k == i {
        } else if k < j {
            assert(t[k] == b[k - i - 1]);
        } else if k == j {
        } else {
            assert(t[k] == sig[k - j - 1]);
        }
    }
    assert(t.subrange(0, i) =~= a);
    assert(t.subrange(j + 1, t.len() as int) =~= sig);
    assert(rejoined(t, i, j) =~= detached_text(header, sig));
}

/// Signs `jws_payload` under `jws_header` with ES512 and returns the detached
/// JWS `base64url(header) ".." base64url(signature)`: the compact form with its
/// payload segment left out.
pub fn sign_detached(jws_header: &JwsHeader, jws_payload: &[u8], pkey: EcKey<Private>) -> (r:
    Result<String, JwsError>)
    ensures
        r is Ok ==> exists|sig: Seq<char>|
            is_signature_text(sig) && r->Ok_0@ == detached_text(header_text(jws_header.kid@), sig),
        r is Err ==> is_signing_error(r->Err_0),
{
    let jws = match get_jws(jws_header, jws_payload, pkey) {
        Ok(t) => t,
        Err(e) => return Err(e),
    };
    let ghost header = header_text(jws_header.kid@);
    let ghost sig = choose|sig: Seq<char>|
        is_signature_text(sig) && jws@ == compact_text(header, jws_payload@, sig);
    proof {
        lemma_compact_detaches(header, jws_payload@, sig);
    }
    match detach_payload(jws.as_str()) {
        Some(d) => Ok(d),
        None => {
            proof {
                let i = encode(vstd::utf8::encode_utf8(header)).len() as int;
                let j = i + 1 + encode(jws_payload@).len();
                assert(splits_at(jws@, i, j));
            }
            Err(JwsError::SigningFailure)
        },
    }
}

/// `t` is `A..B`, where `A` and `B` are non-empty base64url text.
pub open spec fn is_detached_shape(t: Seq<char>) -> bool {
    exists|a: Seq<char>, b: Seq<char>|
        a.len() > 0 && b.len() > 0 && is_url_safe(a) && is_url_safe(b) && t == a + seq!['.', '.']
            + b
}

/// Every detached JWS is `A..B`, with `A` and `B` non-empty base64url text and
/// nothing between the two dots.
pub proof fn law_detached_shape(kid: Seq<char>, sig: Seq<char>)
    requires
        is_signature_text(sig),
    ensures
        is_detached_shape(detached_text(header_text(kid), sig)),
{
    let header = header_text(kid);
    reveal_strlit("}");
    assert(header.len() > 0);
    let bytes = vstd::utf8::encode_utf8(header);
    assert(bytes.len() > 0);
    lemma_encode_shape(bytes);
    lemma_signature_text_shape(sig);
    let a = encode(bytes);
    assert(detached_text(header, sig) == a + seq!['.', '.'] + sig);
}

} // verus!
