//! Locating and decoding the base64 payload of an image data URL.
use vstd::prelude::*;
use base64::engine::general_purpose::STANDARD;
use base64::Engine;
use vstd::std_specs::iter::IteratorSpec;

verus! {

broadcast use {vstd::string::axiom_spec_iter, vstd::string::next_postcondition};

/// What the decoder reads before the payload of a JPEG data URL.
pub const JPEG_PREFIX: &'static str = "data:image/jpeg;base64,";

/// What the decoder reads before the payload of a PNG data URL.
pub const PNG_PREFIX: &'static str = "data:image/png;base64,";

/// Why no image bytes could be had from a string.
#[derive(Debug, PartialEq, Eq)]
pub enum DataUrlError {
    /// Neither a known data URL prefix nor a comma: no payload to decode.
    Format,
    /// The payload is not standard, padded base64; the text says why.
    Base64(String),
}

/// The bytes that standard, padded base64 decoding gives for `s`, or `None`
/// where `s` is not valid base64 of that kind.
pub uninterp spec fn standard_decoded(s: Seq<char>) -> Option<Seq<u8>>;

pub open spec fn has_prefix(s: Seq<char>, p: Seq<char>) -> bool {
    p.len() <= s.len() && s.subrange(0, p.len() as int) == p
}

/// `i` is the position of the first comma of `s`.
pub open spec fn is_first_comma(s: Seq<char>, i: int) -> bool {
    &&& 0 <= i < s.len()
    &&& s[i] == ','
    &&& forall|j: int| 0 <= j < i ==> s[j] != ','
}

pub open spec fn has_comma(s: Seq<char>) -> bool {
    exists|i: int| 0 <= i < s.len() && s[i] == ','
}

/// The base64 text that the decoder reads from `s`: what follows the JPEG
/// prefix, else what follows the PNG prefix, else what follows the first
/// comma; `None` where none of the three applies.
pub open spec fn payload_of(s: Seq<char>) -> Option<Seq<char>> {
    if has_prefix(s, JPEG_PREFIX@) {
        Some(s.skip(JPEG_PREFIX@.len() as int))
    } else if has_prefix(s, PNG_PREFIX@) {
        Some(s.skip(PNG_PREFIX@.len() as int))
    } else if has_comma(s) {
        let i = choose|i: int| is_first_comma(s, i);
        Some(s.skip(i + 1))
    } else {
        None
    }
}

/// `r` is what decoding the image data `s` gives: a format error where no
/// payload is found, a base64 error where the payload does not decode, and
/// otherwise the decoded bytes.
pub open spec fn decodes_to(s: Seq<char>, r: Result<Vec<u8>, DataUrlError>) -> bool {
    match payload_of(s) {
        None => r == Err::<Vec<u8>, DataUrlError>(DataUrlError::Format),
        Some(p) => match standard_decoded(p) {
            Some(bytes) => r is Ok && r->Ok_0@ == bytes,
            None => r is Err && r->Err_0 is Base64,
        },
    }
}

/// Relies on base64's `STANDARD.decode`: it is a function of the text alone,
/// and fails exactly where the text is not standard, padded base64. The
/// error is handed on as its display text.
#[verifier::external_body]
fn decode_standard(s: &str) -> (r: Result<Vec<u8>, String>)
    ensures
        match r {
            Ok(bytes) => standard_decoded(s@) == Some(bytes@),
            Err(_) => standard_decoded(s@) is None,
        },
{
    STANDARD.decode(s).map_err(|e| e.to_string())
}

/// Whether `s` starts with `p`.
pub fn starts_with(s: &str, p: &str) -> (r: bool)
    ensures
        r == has_prefix(s@, p@),
{
    let n = s.unicode_len();
    let m = p.unicode_len();
    if m > n {
        return false;
    }
    let mut i: usize = 0;
    while i < m
        invariant
            m == p@.len(),
            m <= n == s@.len(),
            i <= m,
            forall|j: int| 0 <= j < i ==> s@[j] == p@[j],
        decreases m - i,
    {
        if s.get_char(i) != p.get_char(i) {
            assert(s@.subrange(0, m as int)[i as int] != p@[i as int]);
            return false;
        }
        i = i + 1;
    }
    assert(s@.subrange(0, m as int) =~= p@);
    true
}

/// The position of the first comma of `s`, if it has one.
pub fn find_comma(s: &str) -> (r: Option<usize>)
    ensures
        match r {
            Some(i) => is_first_comma(s@, i as int),
            None => !has_comma(s@),
        },
{
    let mut chars = s.chars();
    let mut i: usize = 0;
    let n = s.unicode_len();
    loop
        invariant
            n == s@.len(),
            i <= n,
            chars.obeys_prophetic_iter_laws(),
            chars.remaining() == s@.skip(i as int),
            forall|j: int| 0 <= j < i ==> s@[j] != ',',
        decreases n - i,
    {
        match chars.next() {
            Some(c) => {
                assert(s@.skip(i as int)[0] == s@[i as int]);
                if c == ',' {
                    return Some(i);
                }
                assert(s@.skip(i as int).drop_first() =~= s@.skip(i + 1));
                i = i + 1;
            },
            None => {
                return None;
            },
        }
    }
}

/// The base64 text of the image data `s`: what follows the JPEG prefix,
/// else what follows the PNG prefix, else what follows the first comma.
pub fn extract_payload(s: &str) -> (r: Option<&str>)
    ensures
        match r {
            Some(p) => payload_of(s@) == Some(p@),
            None => payload_of(s@) is None,
        },
{
    let n = s.unicode_len();
    if starts_with(s, JPEG_PREFIX) {
        let k = JPEG_PREFIX.unicode_len();
        return Some(s.substring_char(k, n));
    }
    if starts_with(s, PNG_PREFIX) {
        let k = PNG_PREFIX.unicode_len();
        return Some(s.substring_char(k, n));
    }
    match find_comma(s) {
        Some(i) => {
            proof {
                let c = choose|c: int| is_first_comma(s@, c);
                assert(c == i as int);
            }
            Some(s.substring_char(i + 1, n))
        },
        None => None,
    }
}

/// Decodes image data given as a JPEG or PNG data URL, or as any text whose
/// payload follows its first comma, into the image's bytes.
pub fn decode_image_data(image_data: &str) -> (r: Result<Vec<u8>, DataUrlError>)
    ensures
        decodes_to(image_data@, r),
{
    match extract_payload(image_data) {
        None => Err(DataUrlError::Format),
        Some(payload) => match decode_standard(payload) {
            Ok(bytes) => Ok(bytes),
            Err(e) => Err(DataUrlError::Base64(e)),
        },
    }
}

/// Whatever text follows the JPEG prefix is exactly the payload, and the
/// decoder returns what base64 decoding of that text gives.
pub proof fn lemma_jpeg_payload(payload: Seq<char>, r: Result<Vec<u8>, DataUrlError>)
    requires
        decodes_to(JPEG_PREFIX@ + payload, r),
    ensures
        payload_of(JPEG_PREFIX@ + payload) == Some(payload),
        forall|bytes: Seq<u8>|
            standard_decoded(payload) == Some(bytes) ==> (r is Ok && r->Ok_0@ == bytes),
{
    let s = JPEG_PREFIX@ + payload;
    assert(s.subrange(0, JPEG_PREFIX@.len() as int) =~= JPEG_PREFIX@);
    assert(s.skip(JPEG_PREFIX@.len() as int) =~= payload);
}

/// Whatever text follows the PNG prefix is exactly the payload, and the
/// decoder returns what base64 decoding of that text gives.
pub proof fn lemma_png_payload(payload: Seq<char>, r: Result<Vec<u8>, DataUrlError>)
    requires
        decodes_to(PNG_PREFIX@ + payload, r),
    ensures
        payload_of(PNG_PREFIX@ + payload) == Some(payload),
        forall|bytes: Seq<u8>|
            standard_decoded(payload) == Some(bytes) ==> (r is Ok && r->Ok_0@ == bytes),
{
    reveal_strlit("data:image/jpeg;base64,");
    reveal_strlit("data:image/png;base64,");
    let s = PNG_PREFIX@ + payload;
    assert(JPEG_PREFIX@.len() == 23 && PNG_PREFIX@.len() == 22);
    assert(JPEG_PREFIX@[11] == 'j' && PNG_PREFIX@[11] == 'p');
    assert(s[11] == 'p');
    if s.len() >= 23 {
        assert(s.subrange(0, 23)[11] != JPEG_PREFIX@[11]);
    }
    assert(s.subrange(0, PNG_PREFIX@.len() as int) =~= PNG_PREFIX@);
    assert(s.skip(PNG_PREFIX@.len() as int) =~= payload);
}

/// Without a known prefix, the payload is the text after the first comma.
pub proof fn lemma_payload_after_first_comma(s: Seq<char>, i: int)
    requires
        !has_prefix(s, JPEG_PREFIX@),
        !has_prefix(s, PNG_PREFIX@),
        is_first_comma(s, i),
    ensures
        payload_of(s) == Some(s.skip(i + 1)),
{
    let c = choose|c: int| is_first_comma(s, c);
    assert(c == i);
}

/// Text with neither a known prefix nor a comma is a format error.
pub proof fn lemma_no_comma_is_format_error(s: Seq<char>, r: Result<Vec<u8>, DataUrlError>)
    requires
        !has_prefix(s, JPEG_PREFIX@),
        !has_prefix(s, PNG_PREFIX@),
        forall|i: int| 0 <= i < s.len() ==> s[i] != ',',
        decodes_to(s, r),
    ensures
        r == Err::<Vec<u8>, DataUrlError>(DataUrlError::Format),
{
}

/// A known prefix followed by text that is not base64 is a base64 error.
pub proof fn lemma_bad_payload_is_base64_error(
    payload: Seq<char>,
    r_jpeg: Result<Vec<u8>, DataUrlError>,
    r_png: Result<Vec<u8>, DataUrlError>,
)
    requires
        standard_decoded(payload) is None,
        decodes_to(JPEG_PREFIX@ + payload, r_jpeg),
        decodes_to(PNG_PREFIX@ + payload, r_png),
    ensures
        r_jpeg is Err && r_jpeg->Err_0 is Base64,
        r_png is Err && r_png->Err_0 is Base64,
{
    lemma_jpeg_payload(payload, r_jpeg);
    lemma_png_payload(payload, r_png);
}

} // verus!
