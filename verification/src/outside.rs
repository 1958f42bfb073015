//! Trusted wrappers: calls into std and into the outside crates whose results the
//! library computes with. Verus believes each contract below without proof.

use vstd::prelude::*;

verus! {

/// Collects characters into a `String` (std's `FromIterator<&char> for String`).
/// Claimed: the string holds exactly the given characters, in order.
#[verifier::external_body]
pub(crate) fn string_from_chars(chars: &Vec<char>) -> (s: String)
    ensures
        s@ == chars@,
{
    chars.iter().collect()
}


/// What `String::from_utf8_lossy` makes of a byte string.
pub uninterp spec fn utf8_lossy(bytes: Seq<u8>) -> Seq<char>;

/// Decodes bytes as UTF-8, with U+FFFD in place of each invalid sequence
/// (std's `String::from_utf8_lossy`). Claimed: the result is a function of the bytes
/// alone, and valid UTF-8 decodes to exactly the characters that it encodes, as std's
/// documentation says. What is made of invalid sequences is left to the name.
#[verifier::external_body]
pub(crate) fn decode_utf8_lossy(bytes: &[u8]) -> (s: String)
    ensures
        s@ == utf8_lossy(bytes@),
        vstd::utf8::valid_utf8(bytes@) ==> s@ == vstd::utf8::decode_utf8(bytes@),
{
    String::from_utf8_lossy(bytes).into_owned()
}


/// What `str::to_lowercase` makes of a string.
pub uninterp spec fn unicode_lowercase(s: Seq<char>) -> Seq<char>;

/// Lower-cases a string by Unicode's rules (std's `str::to_lowercase`). Claimed: the
/// result is a function of the characters alone; what it is is left to the name.
#[verifier::external_body]
pub(crate) fn to_lowercase(s: &str) -> (r: String)
    ensures
        r@ == unicode_lowercase(s@),
{
    s.to_lowercase()
}


/// The character of a 6-bit value in the standard base64 alphabet (RFC 4648, table 1).
pub open spec fn base64_digit(v: nat) -> char {
    if v < 26 {
        (65 + v) as char
    } else if v < 52 {
        (97 + (v - 26)) as char
    } else if v < 62 {
        (48 + (v - 52)) as char
    } else if v == 62 {
        '+'
    } else {
        '/'
    }
}

/// Standard base64 with padding (RFC 4648, section 4): each group of three bytes becomes
/// four characters; a last group of one or two bytes is padded with `=` to four.
pub open spec fn base64_standard(b: Seq<u8>) -> Seq<char>
    decreases b.len(),
{
    if b.len() == 0 {
        Seq::empty()
    } else if b.len() == 1 {
        let n = b[0] as nat * 65536;
        seq![base64_digit(n / 262144), base64_digit((n / 4096) % 64), '=', '=']
    } else if b.len() == 2 {
        let n = b[0] as nat * 65536 + b[1] as nat * 256;
        seq![base64_digit(n / 262144), base64_digit((n / 4096) % 64), base64_digit((n / 64) % 64), '=']
    } else {
        let n = b[0] as nat * 65536 + b[1] as nat * 256 + b[2] as nat;
        seq![
            base64_digit(n / 262144),
            base64_digit((n / 4096) % 64),
            base64_digit((n / 64) % 64),
            base64_digit(n % 64),
        ] + base64_standard(b.skip(3))
    }
}

/// Encodes bytes in base64 (base64's `STANDARD` engine, `Engine::encode`). Claimed: the
/// result is the standard encoding with padding that the crate documents. The encoder
/// panics when the length of the result overflows `usize`; `requires` leaves that out.
#[verifier::external_body]
pub(crate) fn encode_base64(bytes: &[u8]) -> (s: String)
    requires
        4 * ((bytes@.len() + 2) / 3) <= usize::MAX,
    ensures
        s@ == base64_standard(bytes@),
{
    base64::Engine::encode(&base64::engine::general_purpose::STANDARD, bytes)
}

/// The characters of string pairs.
pub open spec fn pairs_view(pairs: Seq<(String, String)>) -> Seq<(Seq<char>, Seq<char>)> {
    pairs.map_values(|p: (String, String)| (p.0@, p.1@))
}

/// What serde_json writes for a JSON object whose members are the given string pairs.
pub uninterp spec fn json_object_text(members: Seq<(Seq<char>, Seq<char>)>) -> Seq<char>;

/// Writes a JSON object of string members (serde_json: a `Map` of `Value::String`s,
/// written by `Value`'s `Display`). Claimed: the text is a function of the members alone;
/// the order of the members and the escaping are left to the name.
#[verifier::external_body]
pub(crate) fn json_object(members: &Vec<(String, String)>) -> (s: String)
    ensures
        s@ == json_object_text(pairs_view(members@)),
{
    let map: serde_json::Map<String, serde_json::Value> = members.iter().map(
        |(k, v)| (k.clone(), serde_json::Value::String(v.clone())),
    ).collect();
    serde_json::Value::Object(map).to_string()
}

/// What `reqwest::Url::parse_with_params` gives, serialized: `None` when the base does
/// not parse.
pub uninterp spec fn url_with_query(base: Seq<char>, params: Seq<(Seq<char>, Seq<char>)>) -> Option<
    Seq<char>,
>;

/// A bound on the bytes that form-urlencoding adds for the parameters: each byte of a
/// name or a value becomes at most three, and each pair adds at most a `&` and a `=`.
pub open spec fn form_bound(params: Seq<(Seq<char>, Seq<char>)>) -> nat
    decreases params.len(),
{
    if params.len() == 0 {
        0
    } else {
        let (k, v) = params.last();
        form_bound(params.drop_last()) + 2 + 3 * (vstd::utf8::encode_utf8(k).len()
            + vstd::utf8::encode_utf8(v).len())
    }
}

/// The URL built from `base` and `params` stays below 4 GiB, the most that the url crate
/// can index (it keeps offsets as `u32`, and panics past them): the base is ASCII, and
/// three bytes for each of its bytes (percent-encoding), a slack of 64 for what parsing
/// adds (a normalized IPv4 host, a `/` path, a `?`) and the encoded parameters fit.
pub open spec fn url_fits(base: Seq<char>, params: Seq<(Seq<char>, Seq<char>)>) -> bool {
    &&& vstd::utf8::is_ascii_chars(base)
    &&& 3 * base.len() + 64 + form_bound(params) <= u32::MAX
}

/// Parses a URL and appends query parameters to it, form-urlencoded
/// (`reqwest::Url::parse_with_params`), then serializes it. Claimed: the result is a
/// function of the base and the parameters alone; what it is is left to the name. The
/// url crate panics when the URL grows past `u32::MAX` bytes; `requires` keeps the URL
/// well below that and admits ASCII bases only, where parsing grows a base at most by
/// percent-encoding (IDNA mapping of other hosts is left out).
#[verifier::external_body]
pub(crate) fn url_with_params(base: &str, params: &Vec<(String, String)>) -> (r: Option<String>)
    requires
        url_fits(base@, pairs_view(params@)),
    ensures
        crate::text::opt_chars(r) == url_with_query(base@, pairs_view(params@)),
{
    match reqwest::Url::parse_with_params(base, params.iter()) {
        Ok(u) => Some(u.as_str().to_owned()),
        Err(_) => None,
    }
}

/// A lower-case hexadecimal digit.
pub open spec fn is_lower_hex(c: char) -> bool {
    ('0' <= c <= '9') || ('a' <= c <= 'f')
}

/// The text of a random (version 4) UUID, hyphenated and in lower case: 36 characters,
/// hyphens at 8, 13, 18 and 23, lower-case hex digits elsewhere, `4` for the version at
/// 14 and `8`, `9`, `a` or `b` for the variant at 19.
pub open spec fn is_v4_uuid_text(s: Seq<char>) -> bool {
    &&& s.len() == 36
    &&& forall|i: int|
        0 <= i < 36 ==> (if i == 8 || i == 13 || i == 18 || i == 23 {
            #[trigger] s[i] == '-'
        } else {
            is_lower_hex(s[i])
        })
    &&& s[14] == '4'
    &&& (s[19] == '8' || s[19] == '9' || s[19] == 'a' || s[19] == 'b')
}

/// A fresh random UUID, as text (uuid's `Uuid::new_v4`, written by its `Display`, which is
/// the hyphenated lower-case form). Claimed: only the shape of the text; the digits are
/// random, and two calls may give anything.
#[verifier::external_body]
pub(crate) fn random_uuid() -> (s: String)
    ensures
        is_v4_uuid_text(s@),
{
    uuid::Uuid::new_v4().to_string()
}

} // verus!
