//! Tests of the markup tree: attribute handling and rendering.

use dsntk_logo::element::Element;
use dsntk_logo::render::{render_document, render_elem};

fn render_str(e: &Element) -> String {
    let mut buf = String::new();
    render_elem(e, 0, &mut buf);
    buf
}

#[test]
fn new_element_is_empty() {
    let e = Element::new("p");
    assert_eq!(e.tag, "p");
    assert!(e.attrs.is_empty());
    assert!(e.content.is_none());
    assert!(e.children.is_empty());
}

#[test]
fn set_attr_appends_new_names_in_order() {
    let mut e = Element::new("rect");
    e.set_attr("x", "0.0");
    e.set_attr("y", "1.5");
    assert_eq!(e.attrs.len(), 2);
    assert_eq!(e.attrs[0], ("x".to_string(), "0.0".to_string()));
    assert_eq!(e.attrs[1], ("y".to_string(), "1.5".to_string()));
}

#[test]
fn set_attr_overwrite_keeps_first_position() {
    let mut e = Element::new("rect");
    e.set_attr("x", "1");
    e.set_attr("y", "2");
    e.set_attr("x", "9");
    assert_eq!(e.attrs.len(), 2);
    assert_eq!(e.attrs[0], ("x".to_string(), "9".to_string()));
    assert_eq!(e.attrs[1], ("y".to_string(), "2".to_string()));
}

#[test]
fn render_self_closing_leaf() {
    let mut e = Element::new("line");
    e.set_attr("x1", "0.0");
    assert_eq!(render_str(&e), "<line x1=\"0.0\"/>");
}

#[test]
fn render_void_leaf_has_no_closing_tag() {
    let mut e = Element::new("meta");
    e.set_attr("charset", "UTF-8");
    e.void = true;
    assert_eq!(render_str(&e), "<meta charset=\"UTF-8\">");
}

#[test]
fn render_content_leaf() {
    let mut e = Element::new("title");
    e.set_content("DSNTK LOGO");
    assert_eq!(render_str(&e), "<title>DSNTK LOGO</title>");
}

#[test]
fn render_children_are_indented() {
    let mut parent = Element::new("svg");
    parent.add_child(Element::new("rect"));
    parent.add_child(Element::new("line"));
    assert_eq!(render_str(&parent), "<svg>\n  <rect/>\n  <line/>\n</svg>");
}

#[test]
fn render_no_indent_child_is_pulled_back() {
    let mut parent = Element::new("html");
    let mut child = Element::new("head");
    child.no_indent = true;
    child.add_child(Element::new("meta"));
    parent.add_child(child);
    assert_eq!(
        render_str(&parent),
        "<html>\n<head>\n  <meta/>\n</head>\n</html>"
    );
}

#[test]
fn document_has_one_title_and_one_lang() {
    let mut html = Element::new("html");
    html.no_indent = true;
    html.set_attr("lang", "en");
    let mut head = Element::new("head");
    head.no_indent = true;
    let mut title = Element::new("title");
    title.set_content("DSNTK LOGO");
    head.add_child(title);
    let mut body = Element::new("body");
    body.no_indent = true;
    html.add_child(head);
    html.add_child(body);
    let out = render_document(&html);
    assert_eq!(out.matches("<title>DSNTK LOGO</title>").count(), 1);
    assert_eq!(out.matches("lang=\"en\"").count(), 1);
    assert!(out.starts_with("<!DOCTYPE html>\n<html lang=\"en\">"));
    assert!(out.ends_with("</html>\n"));
}
