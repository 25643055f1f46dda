use pipo::parser::{parse_attributes, parse_mumble_html, parse_tag, ParseError};
use pipo::parser_types::{Document, Element};

#[test]
fn it_works() {
    let result = 2 + 2;
    assert_eq!(result, 4);
}

#[test]
fn attributes_split_names_and_values() {
    let attrs = parse_attributes("style=\"color: red\" hidden").unwrap();
    assert_eq!(attrs.len(), 2);
    assert_eq!(attrs[0].0, "style");
    assert_eq!(attrs[0].1.as_deref(), Some("\"color: red\""));
    assert_eq!(attrs[1].0, "hidden");
    assert_eq!(attrs[1].1, None);
}

#[test]
fn attributes_unclosed_quote_is_an_error() {
    assert_eq!(parse_attributes("style=\"oops"), Err(ParseError::UnclosedQuotes));
}

#[test]
fn attributes_doubled_equals_is_an_error() {
    assert_eq!(parse_attributes("a=b=c"), Err(ParseError::BadAttributes));
}

#[test]
fn attributes_quotes_protect_spaces_and_equals() {
    let attrs = parse_attributes("a=\"x = y\"").unwrap();
    assert_eq!(attrs.len(), 1);
    assert_eq!(attrs[0].0, "a");
    assert_eq!(attrs[0].1.as_deref(), Some("\"x = y\""));
}

#[test]
fn empty_attribute_text_yields_one_empty_name() {
    let attrs = parse_attributes("").unwrap();
    assert_eq!(attrs.len(), 1);
    assert_eq!(attrs[0].0, "");
    assert_eq!(attrs[0].1, None);
}

#[test]
fn span_tags_parse_and_others_do_not() {
    match parse_tag("span style=\"x\"") {
        Ok(Element::Span { style, elements }) => {
            assert!(style.is_none());
            assert_eq!(elements.len(), 0);
        }
        other => panic!("expected a span, got {:?}", other),
    }
    assert!(matches!(parse_tag("blink"), Err(ParseError::UnsupportedTag)));
}

#[test]
fn markup_balance_is_checked() {
    let doc: Document = parse_mumble_html("hello <span>world</span>").unwrap();
    assert_eq!(doc.elements.len(), 0);
    assert!(matches!(parse_mumble_html("a <b <c"), Err(ParseError::UnclosedTag)));
    assert!(matches!(parse_mumble_html("a > b"), Err(ParseError::UnopenedTag)));
}

#[test]
fn documents_collect_pushed_elements() {
    let mut doc = Document::new();
    assert_eq!(doc.elements.len(), 0);
    doc.push(Element::Text { text: String::from("hi") });
    doc.push(Element::Image { source: String::from("a.png") });
    assert_eq!(doc.elements.len(), 2);
}
