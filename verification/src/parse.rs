//! Field-level decode transforms, and the typed shapes of the JSON
//! envelopes the portal wraps its list payloads in.
//!
//! Each transform is independently specified: the two boolean encodings,
//! the integer-as-flag encoding, the empty-means-absent text fields, and
//! the base64-wrapped HTML content field.

use vstd::prelude::*;
use vstd::string::StrSliceExecFns;
use vstd::utf8::decode_utf8;
use vstd::utf8::valid_utf8;
use crate::strutil;

verus! {

/// The `{resultList: [...]}` envelope, as a typed shape.
#[allow(non_snake_case)]
pub struct JsonWrapper1<T> {
    pub resultList: Vec<T>,
}

/// The `{object: ...}` envelope, as a typed shape.
pub struct JsonWrapper2<T> {
    pub object: T,
}

/// The `{aaData: [...]}` inner wrapper, as a typed shape.
#[allow(non_snake_case)]
pub struct JsonWrapper20<T> {
    pub aaData: Vec<T>,
}

/// The `{resultsList: [...]}` inner wrapper, as a typed shape.
#[allow(non_snake_case)]
pub struct JsonWrapper21<T> {
    pub resultsList: Vec<T>,
}

/// The non-ASCII yes-token some boolean fields carry.
pub open spec fn yes_token() -> Seq<char> {
    seq!['\u{662f}']
}

/// Decode the yes-token boolean encoding: exactly the yes-token is true,
/// any other text is false.
pub fn str_to_bool1(s: &str) -> (r: bool)
    ensures
        r == (s@ == yes_token()),
{
    if s.unicode_len() == 1 && s.get_char(0) == '\u{662f}' {
        proof {
            assert(s@ =~= yes_token());
        }
        true
    } else {
        false
    }
}

/// Decode the textual-digit boolean encoding: the text `"1"` is true, any
/// other text is false.
pub fn str_to_bool2(s: &str) -> (r: bool)
    ensures
        r == (s@ == "1"@),
{
    strutil::str_eq(s, "1")
}

/// Decode the integer boolean encoding: non-zero is true, zero is false.
pub fn int_to_bool(i: u32) -> (r: bool)
    ensures
        r == (i != 0),
{
    i != 0
}

/// Treat an empty or missing text field as absent and keep any other text.
pub fn nonempty_string(s: Option<String>) -> (r: Option<String>)
    ensures
        match s {
            None => r is None,
            Some(t) => if t@.len() == 0 {
                r is None
            } else {
                r == Some(t)
            },
        },
{
    match s {
        None => None,
        Some(t) => {
            if t.as_str().unicode_len() == 0 {
                None
            } else {
                Some(t)
            }
        },
    }
}

/// What the standard-alphabet base64 decoding of a piece of text yields:
/// the decoded bytes, or nothing where the text is not valid base64.
pub uninterp spec fn b64_decode_of(s: Seq<char>) -> Option<Seq<u8>>;

/// Relies on base64's `Engine::decode` with the standard alphabet: success
/// and result are a function of the input text alone, and the empty text
/// decodes to no bytes.
#[verifier::external_body]
fn b64_decode(s: &str) -> (r: Option<Vec<u8>>)
    ensures
        match r {
            Some(bytes) => b64_decode_of(s@) == Some(bytes@),
            None => b64_decode_of(s@) is None,
        },
{
    base64::Engine::decode(&base64::engine::general_purpose::STANDARD, s).ok()
}

/// Relies on `String::from_utf8`: it succeeds exactly on valid UTF-8 and
/// yields the text those bytes encode.
#[verifier::external_body]
fn utf8_to_string(b: Vec<u8>) -> (r: Option<String>)
    ensures
        match r {
            Some(t) => valid_utf8(b@) && t@ == decode_utf8(b@),
            None => !valid_utf8(b@),
        },
{
    String::from_utf8(b).ok()
}

/// What the base64 content transform yields: a missing field stands for
/// the empty text, the text is base64-decoded, and the decoded bytes must
/// be valid UTF-8.
pub open spec fn spec_base64_string(s: Option<Seq<char>>) -> Result<Seq<char>, ()> {
    let t = match s {
        None => Seq::<char>::empty(),
        Some(x) => x,
    };
    match b64_decode_of(t) {
        None => Err(()),
        Some(bytes) => if valid_utf8(bytes) {
            Ok(decode_utf8(bytes))
        } else {
            Err(())
        },
    }
}

/// Decode a base64-wrapped UTF-8 text field; a missing field decodes as
/// the empty text.
pub fn base64_string(s: Option<&str>) -> (r: Result<String, ()>)
    ensures
        ({
            let gs = match s {
                None => None,
                Some(t) => Some(t@),
            };
            match r {
                Ok(x) => spec_base64_string(gs) == Ok::<Seq<char>, ()>(x@),
                Err(_) => spec_base64_string(gs) is Err,
            }
        }),
{
    let t: &str = match s {
        None => "",
        Some(x) => x,
    };
    proof {
        reveal_strlit("");
        assert(""@ =~= Seq::<char>::empty());
    }
    match b64_decode(t) {
        None => Err(()),
        Some(bytes) => match utf8_to_string(bytes) {
            None => Err(()),
            Some(text) => Ok(text),
        },
    }
}

} // verus!
