//! A small parser for the HTML-like markup the voice-chat protocol allows in
//! message bodies: tag delimiters are checked for balance, and tag contents
//! are split into attributes.

use vstd::prelude::*;

verus! {

use vstd::string::StrSliceExecFns;
use crate::parser_types::{Document, Element};

/// Why an input is not valid markup.
#[derive(Debug, Clone, Copy, PartialEq, Eq)]
pub enum ParseError {
    BadAttributes,
    UnclosedQuotes,
    UnclosedTag,
    UnopenedTag,
    UnsupportedTag,
}

// --- Attribute scanning ---------------------------------------------------

/// The scanner state while attributes are read: inside quotes, whether the
/// current token already has a `name=` part, the pieces gathered so far, and
/// whether a second `=` made the token malformed.
pub struct AttrScan {
    pub in_quotes: bool,
    pub has_value: bool,
    pub param: Seq<char>,
    pub current: Seq<char>,
    pub attrs: Seq<(Seq<char>, Option<Seq<char>>)>,
    pub bad: bool,
}

pub open spec fn attr_scan_init() -> AttrScan {
    AttrScan {
        in_quotes: false,
        has_value: false,
        param: Seq::empty(),
        current: Seq::empty(),
        attrs: Seq::empty(),
        bad: false,
    }
}

/// One scanner step: quotes toggle quoting, an unquoted `=` ends the name, an
/// unquoted space ends the attribute, everything else joins the current
/// piece.
pub open spec fn attr_step(st: AttrScan, c: char) -> AttrScan {
    if st.bad {
        st
    } else if c == '"' {
        AttrScan { in_quotes: !st.in_quotes, current: st.current.push(c), ..st }
    } else if c == '=' && !st.in_quotes {
        if st.has_value {
            AttrScan { bad: true, ..st }
        } else {
            AttrScan { has_value: true, param: st.current, current: Seq::empty(), ..st }
        }
    } else if c == ' ' && !st.in_quotes {
        AttrScan {
            has_value: false,
            param: Seq::empty(),
            current: Seq::empty(),
            attrs: st.attrs.push(
                if st.has_value {
                    (st.param, Some(st.current))
                } else {
                    (st.current, None)
                },
            ),
            ..st
        }
    } else {
        AttrScan { current: st.current.push(c), ..st }
    }
}

pub open spec fn attr_fold(st: AttrScan, s: Seq<char>) -> AttrScan
    decreases s.len(),
{
    if s.len() == 0 {
        st
    } else {
        attr_fold(attr_step(st, s[0]), s.skip(1))
    }
}

/// A scan that has gone bad stays bad whatever follows.
pub proof fn lemma_attr_fold_bad(st: AttrScan, s: Seq<char>)
    requires
        st.bad,
    ensures
        attr_fold(st, s) == st,
    decreases s.len(),
{
    if s.len() > 0 {
        lemma_attr_fold_bad(st, s.skip(1));
    }
}

/// What parsing an attribute list yields: the scanned attributes plus the
/// trailing token; a doubled `=` or an unclosed quote is an error.
pub open spec fn spec_parse_attributes(s: Seq<char>) -> Result<
    Seq<(Seq<char>, Option<Seq<char>>)>,
    ParseError,
> {
    let st = attr_fold(attr_scan_init(), s);
    if st.bad {
        Err(ParseError::BadAttributes)
    } else if st.in_quotes {
        Err(ParseError::UnclosedQuotes)
    } else {
        Ok(
            st.attrs.push(
                if st.has_value {
                    (st.param, Some(st.current))
                } else {
                    (st.current, None)
                },
            ),
        )
    }
}

/// The spec-level contents of a parsed attribute vector.
pub open spec fn attrs_view(s: Seq<(String, Option<String>)>) -> Seq<
    (Seq<char>, Option<Seq<char>>),
> {
    s.map_values(
        |p: (String, Option<String>)|
            (
                p.0@,
                match p.1 {
                    Some(v) => Some(v@),
                    None => None,
                },
            ),
    )
}

/// Split an attribute list into `name` and `name=value` pairs; spaces
/// separate attributes, quotes protect spaces and `=` inside values.
pub fn parse_attributes(input: &str) -> (r: Result<Vec<(String, Option<String>)>, ParseError>)
    ensures
        match spec_parse_attributes(input@) {
            Ok(attrs) => r matches Ok(v) && attrs_view(v@) == attrs,
            Err(e) => r == Err::<Vec<(String, Option<String>)>, ParseError>(e),
        },
{
    let ghost whole = input@;
    let mut in_quotes = false;
    let mut has_value = false;
    let mut param = String::new();
    let mut current = String::new();
    let mut attrs: Vec<(String, Option<String>)> = Vec::new();
    let len = input.unicode_len();
    let mut i: usize = 0;
    proof {
        assert(whole.skip(0) =~= whole);
        assert(attrs_view(attrs@) =~= Seq::<(Seq<char>, Option<Seq<char>>)>::empty());
    }
    while i < len
        invariant
            i <= len,
            len == whole.len(),
            whole == input@,
            attr_fold(attr_scan_init(), whole) == attr_fold(
                AttrScan {
                    in_quotes,
                    has_value,
                    param: param@,
                    current: current@,
                    attrs: attrs_view(attrs@),
                    bad: false,
                },
                whole.skip(i as int),
            ),
        decreases len - i,
    {
        let ghost st = AttrScan {
            in_quotes,
            has_value,
            param: param@,
            current: current@,
            attrs: attrs_view(attrs@),
            bad: false,
        };
        let ghost rest = whole.skip(i as int);
        proof {
            assert(rest[0] == whole[i as int]);
            assert(rest.skip(1) =~= whole.skip(i + 1));
            assert(attr_fold(st, rest) == attr_fold(attr_step(st, rest[0]), rest.skip(1)));
        }
        let c = input.get_char(i);
        if c == '"' {
            in_quotes = !in_quotes;
            current.push(c);
        } else if c == '=' && !in_quotes {
            if has_value {
                proof {
                    lemma_attr_fold_bad(attr_step(st, rest[0]), rest.skip(1));
                }
                return Err(ParseError::BadAttributes);
            }
            has_value = true;
            param = current;
            current = String::new();
        } else if c == ' ' && !in_quotes {
            let v = current;
            current = String::new();
            if has_value {
                let p = param;
                param = String::new();
                has_value = false;
                attrs.push((p, Some(v)));
            } else {
                param = String::new();
                attrs.push((v, None));
            }
            proof {
                assert(attrs_view(attrs@) =~= attr_step(st, rest[0]).attrs);
            }
        } else {
            current.push(c);
        }
        proof {
            let stepped = attr_step(st, rest[0]);
            assert(AttrScan {
                in_quotes,
                has_value,
                param: param@,
                current: current@,
                attrs: attrs_view(attrs@),
                bad: false,
            } == stepped);
        }
        i = i + 1;
    }
    proof {
        assert(whole.skip(i as int) =~= Seq::<char>::empty());
    }
    if in_quotes {
        return Err(ParseError::UnclosedQuotes);
    }
    let done = if has_value {
        (param, Some(current))
    } else {
        (current, None)
    };
    attrs.push(done);
    proof {
        let st = attr_fold(attr_scan_init(), whole);
        assert(attrs_view(attrs@) =~= st.attrs.push(
            if st.has_value {
                (st.param, Some(st.current))
            } else {
                (st.current, None)
            },
        ));
    }
    Ok(attrs)
}

// --- Tags ------------------------------------------------------------------

/// The tag name: everything up to the first space, or the whole content.
pub open spec fn spec_tag_name(s: Seq<char>) -> Seq<char>
    decreases s.len(),
{
    if s.len() == 0 {
        Seq::empty()
    } else if s[0] == ' ' {
        Seq::empty()
    } else {
        seq![s[0]] + spec_tag_name(s.skip(1))
    }
}

/// The attribute text after the tag name: empty when there is no space.
pub open spec fn spec_tag_rest(s: Seq<char>) -> Seq<char>
    decreases s.len(),
{
    if s.len() == 0 {
        Seq::empty()
    } else if s[0] == ' ' {
        s.skip(1)
    } else {
        spec_tag_rest(s.skip(1))
    }
}

/// Parse one tag's content (the text between `<` and `>`): only `span` is
/// understood, and its attribute list must scan cleanly. The style block
/// itself is not interpreted, so the span starts bare.
#[verifier::rlimit(50)]
pub fn parse_tag(input: &str) -> (r: Result<Element, ParseError>)
    ensures
        spec_tag_name(input@) == "span"@ ==> match spec_parse_attributes(spec_tag_rest(input@)) {
            Ok(_) => r matches Ok(e) && e matches Element::Span { style, elements } && style
                is None && elements@ == Seq::<Element>::empty(),
            Err(e) => r == Err::<Element, ParseError>(e),
        },
        spec_tag_name(input@) != "span"@ ==> r == Err::<Element, ParseError>(
            ParseError::UnsupportedTag,
        ),
{
    let ghost whole = input@;
    let len = input.unicode_len();
    let mut name = String::new();
    let mut i: usize = 0;
    proof {
        assert(whole.skip(0) =~= whole);
    }
    while i < len && input.get_char(i) != ' '
        invariant
            i <= len,
            len == whole.len(),
            whole == input@,
            name@ + spec_tag_name(whole.skip(i as int)) == spec_tag_name(whole),
            spec_tag_rest(whole) == spec_tag_rest(whole.skip(i as int)),
            forall|j: int| 0 <= j < i ==> whole[j] != ' ',
        decreases len - i,
    {
        let ghost rest = whole.skip(i as int);
        proof {
            assert(rest[0] == whole[i as int]);
            assert(rest.skip(1) =~= whole.skip(i + 1));
        }
        let c = input.get_char(i);
        name.push(c);
        proof {
            assert(name@ + spec_tag_name(whole.skip(i + 1)) =~= spec_tag_name(whole));
        }
        i = i + 1;
    }
    let rest_text = if i < len {
        proof {
            assert(whole.skip(i as int)[0] == whole[i as int]);
            assert(spec_tag_name(whole.skip(i as int)) =~= Seq::<char>::empty());
            assert(name@ + Seq::<char>::empty() =~= name@);
            assert(whole.skip(i as int).skip(1) =~= whole.skip(i + 1));
        }
        input.substring_char(i + 1, len)
    } else {
        proof {
            assert(whole.skip(i as int) =~= Seq::<char>::empty());
            assert(name@ + Seq::<char>::empty() =~= name@);
        }
        input.substring_char(len, len)
    };
    proof {
        assert(rest_text@ =~= spec_tag_rest(whole));
    }
    if name == "span".to_owned() {
        match parse_attributes(rest_text) {
            Ok(_) => Ok(Element::Span { style: None, elements: Vec::new() }),
            Err(e) => Err(e),
        }
    } else {
        Err(ParseError::UnsupportedTag)
    }
}

// --- Whole documents -------------------------------------------------------

/// The first misuse of the tag delimiters, scanning left to right: a `<`
/// inside a tag, or a `>` outside one.
pub open spec fn tag_balance(s: Seq<char>, in_tag: bool) -> Option<ParseError>
    decreases s.len(),
{
    if s.len() == 0 {
        None
    } else if s[0] == '<' {
        if in_tag {
            Some(ParseError::UnclosedTag)
        } else {
            tag_balance(s.skip(1), true)
        }
    } else if s[0] == '>' {
        if in_tag {
            tag_balance(s.skip(1), false)
        } else {
            Some(ParseError::UnopenedTag)
        }
    } else {
        tag_balance(s.skip(1), in_tag)
    }
}

/// Check a message body's markup: tag delimiters must be used in balance. No
/// element tree is built; the document comes back empty.
pub fn parse_mumble_html(input: &str) -> (r: Result<Document, ParseError>)
    ensures
        match tag_balance(input@, false) {
            None => r matches Ok(d) && d.elements@ == Seq::<Element>::empty(),
            Some(e) => r == Err::<Document, ParseError>(e),
        },
{
    let ghost whole = input@;
    let len = input.unicode_len();
    let mut in_tag = false;
    let mut i: usize = 0;
    proof {
        assert(whole.skip(0) =~= whole);
    }
    while i < len
        invariant
            i <= len,
            len == whole.len(),
            whole == input@,
            tag_balance(whole, false) == tag_balance(whole.skip(i as int), in_tag),
        decreases len - i,
    {
        let ghost rest = whole.skip(i as int);
        proof {
            assert(rest[0] == whole[i as int]);
            assert(rest.skip(1) =~= whole.skip(i + 1));
        }
        let c = input.get_char(i);
        if c == '<' {
            if in_tag {
                return Err(ParseError::UnclosedTag);
            }
            in_tag = true;
        } else if c == '>' {
            if !in_tag {
                return Err(ParseError::UnopenedTag);
            }
            in_tag = false;
        }
        i = i + 1;
    }
    proof {
        assert(whole.skip(i as int) =~= Seq::<char>::empty());
    }
    Ok(Document::new())
}

} // verus!
