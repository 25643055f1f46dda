//! Text conversions the library trusts: UTF-8 decoding from std and the HTML
//! entity handling of the `html_escape` crate, which the wire protocol's
//! HTML-escaped message bodies need.

use vstd::prelude::*;

verus! {

use vstd::utf8::{valid_utf8, decode_utf8};

pub assume_specification[ String::push ](s: &mut String, ch: char)
    ensures
        final(s)@ == old(s)@.push(ch),
;

/// Relies on String::from_utf8: `Ok` exactly on valid UTF-8, returning the
/// string those bytes spell.
#[verifier::external_body]
pub fn bytes_to_string(v: &[u8]) -> (r: Option<String>)
    ensures
        r is Some <==> valid_utf8(v@),
        r matches Some(s) ==> s@ == decode_utf8(v@),
{
    match String::from_utf8(v.to_vec()) {
        Ok(s) => Some(s),
        Err(_) => None,
    }
}

/// How one character is HTML-escaped for the wire: the three characters that
/// carry markup become entities, everything else stays itself.
pub open spec fn escape_char(c: char) -> Seq<char> {
    if c == '&' {
        seq!['&', 'a', 'm', 'p', ';']
    } else if c == '<' {
        seq!['&', 'l', 't', ';']
    } else if c == '>' {
        seq!['&', 'g', 't', ';']
    } else {
        seq![c]
    }
}

/// The HTML-escaped form of a text: each character escaped in turn.
pub open spec fn html_encoded(s: Seq<char>) -> Seq<char>
    decreases s.len(),
{
    if s.len() == 0 {
        Seq::empty()
    } else {
        escape_char(s[0]) + html_encoded(s.skip(1))
    }
}

/// Relies on html_escape::encode_text, which escapes exactly `&`, `<` and `>`
/// as `&amp;`, `&lt;` and `&gt;`.
#[verifier::external_body]
pub fn encode_text(s: &str) -> (r: String)
    ensures
        r@ == html_encoded(s@),
{
    html_escape::encode_text(s).into_owned()
}

/// What decoding the HTML entities of a text yields; it depends on the
/// characters alone. The entity table is the `html_escape` crate's.
pub uninterp spec fn html_decoded(s: Seq<char>) -> Seq<char>;

/// Relies on html_escape::decode_html_entities: entities become the characters
/// they name; the result depends on the input characters alone.
#[verifier::external_body]
pub fn decode_html_entities(s: &str) -> (r: String)
    ensures
        r@ == html_decoded(s@),
{
    html_escape::decode_html_entities(s).into_owned()
}

} // verus!
