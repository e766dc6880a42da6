//! Tests of the fixed-point formatting, the SVG builders and the
//! assembled logo page, including a comparison against the rendering of
//! the same tree by the domrs crate.

use dsntk_logo::logo::{logo_page, LogoParams};
use dsntk_logo::svg::{svg_path, svg_root, Point, Segment};
use dsntk_logo::tenths::format_tenths;
use std::f64::consts::PI;

/// Converts degrees into radians, as the logo geometry does.
fn deg_to_rad(deg: f64) -> f64 {
    deg * 2.0 * PI / 360.0
}

/// The six hexagon vertices around `(x, y)` at radius `r`, clockwise
/// from the upper right.
fn hexagon_vertices(x: f64, y: f64, r: f64) -> Vec<(f64, f64)> {
    let a = r * deg_to_rad(30.0).cos();
    let b = r * deg_to_rad(30.0).sin();
    vec![
        (x + a, y - b),
        (x, y - r),
        (x - a, y - b),
        (x - a, y + b),
        (x, y + r),
        (x + a, y + b),
    ]
}

/// The value of `x` in tenths, rounded exactly as `{:.1}` formatting
/// rounds it.
fn tenths(x: f64) -> i64 {
    let s = format!("{:.1}", x);
    let (neg, digits) = match s.strip_prefix('-') {
        Some(rest) => (true, rest),
        None => (false, s.as_str()),
    };
    let (int_part, frac_part) = digits.split_once('.').unwrap();
    let v = int_part.parse::<i64>().unwrap() * 10 + frac_part.parse::<i64>().unwrap();
    if neg {
        -v
    } else {
        v
    }
}

fn point(p: (f64, f64)) -> Point {
    Point {
        x: tenths(p.0),
        y: tenths(p.1),
    }
}

fn segment(x1: f64, y1: f64, x2: f64, y2: f64) -> Segment {
    Segment {
        x1: tenths(x1),
        y1: tenths(y1),
        x2: tenths(x2),
        y2: tenths(y2),
    }
}

/// The parameters of one logo block, computed as the logo geometry
/// defines them: radius is eight tenths of the half extent, the five
/// decorative lines are fixed fractions of the left-side vertical span.
fn block(width: f64, height: f64, line_width: f64) -> LogoParams {
    let w_2 = width / 2.0;
    let h_2 = height / 2.0;
    let radius = (if w_2 < h_2 { w_2 } else { h_2 }) * 0.8;
    let p = hexagon_vertices(w_2, h_2, radius);
    let coeff = p[3].1 - p[2].1;
    LogoParams {
        width: tenths(width),
        height: tenths(height),
        line_width: tenths(line_width),
        vertices: p.iter().map(|q| point(*q)).collect(),
        lines: vec![
            segment(p[2].0, p[2].1 + 0.15 * coeff, p[4].0 + 0.35 * coeff, p[4].1),
            segment(p[1].0 - 0.23 * coeff, p[1].1, p[5].0, p[5].1 + 0.12 * coeff),
            segment(p[1].0 + 0.11 * coeff, p[1].1, p[3].0, p[4].1),
            segment(p[1].0 + 0.65 * coeff, p[1].1, p[3].0 + 0.35 * coeff, p[4].1),
            segment(p[0].0 + 2.0, p[5].1 - 0.45 * coeff, p[4].0 + 0.35 * coeff, p[4].1),
        ],
    }
}

#[test]
fn format_tenths_values() {
    assert_eq!(format_tenths(5926), "592.6");
    assert_eq!(format_tenths(700), "70.0");
    assert_eq!(format_tenths(0), "0.0");
    assert_eq!(format_tenths(-5), "-0.5");
    assert_eq!(format_tenths(-1234), "-123.4");
    assert_eq!(format_tenths(9000), "900.0");
}

#[test]
fn format_tenths_extremes() {
    assert_eq!(format_tenths(i64::MAX), "922337203685477580.7");
    assert_eq!(format_tenths(i64::MIN), "-922337203685477580.8");
}

#[test]
fn svg_root_has_width_then_height() {
    let e = svg_root(4000, 4000);
    assert_eq!(e.tag, "svg");
    assert_eq!(e.attrs.len(), 2);
    assert_eq!(e.attrs[0], ("width".to_string(), "400.0".to_string()));
    assert_eq!(e.attrs[1], ("height".to_string(), "400.0".to_string()));
}

#[test]
fn hexagon_vertices_largest_block() {
    let p = hexagon_vertices(350.0, 350.0, 280.0);
    // the top and bottom vertices sit exactly above and below the center
    assert_eq!(tenths(p[1].0), 3500);
    assert_eq!(tenths(p[1].1), 700);
    assert_eq!(tenths(p[4].0), 3500);
    assert_eq!(tenths(p[4].1), 6300);
    // the left-side vertices span the coefficient of the decorative lines
    assert_eq!(tenths(p[3].1) - tenths(p[2].1), 2800);
}

#[test]
fn path_d_of_largest_block() {
    let p = hexagon_vertices(350.0, 350.0, 280.0);
    let pts: Vec<Point> = p.iter().map(|q| point(*q)).collect();
    let e = svg_path(&pts, "#99CC00");
    assert_eq!(e.tag, "path");
    assert_eq!(e.attrs[0].0, "d");
    let d = &e.attrs[0].1;
    assert!(d.starts_with("M 592.5,210.0"));
    assert!(d.ends_with("Z"));
    assert_eq!(e.attrs[1], ("stroke".to_string(), "none".to_string()));
    assert_eq!(e.attrs[2], ("fill".to_string(), "#99CC00".to_string()));
}

#[test]
fn page_holds_three_svg_blocks_with_breaks() {
    let page = logo_page(
        &block(700.0, 700.0, 9.0),
        &block(400.0, 400.0, 7.0),
        &block(100.0, 100.0, 3.0),
    );
    assert_eq!(page.matches("<svg").count(), 3);
    assert_eq!(page.matches("<br/>").count(), 2);
    assert_eq!(page.matches("<title>DSNTK LOGO</title>").count(), 1);
    assert!(page.starts_with("<!DOCTYPE html>\n"));
    let first = page.find("</svg>").unwrap();
    let second = page[first..].find("<br/>").unwrap();
    assert!(second > 0);
}

#[test]
fn page_matches_domrs_rendering() {
    let blocks = [
        block(700.0, 700.0, 9.0),
        block(400.0, 400.0, 7.0),
        block(100.0, 100.0, 3.0),
    ];
    let page = logo_page(&blocks[0], &blocks[1], &blocks[2]);

    let head = domrs::HtmlHeadElement::default()
        .charset("UTF-8")
        .title("DSNTK LOGO");
    let mut body = domrs::HtmlBodyElement::new();
    for (i, b) in blocks.iter().enumerate() {
        if i > 0 {
            body.add_child(domrs::HtmlElement::br());
        }
        let mut svg = domrs::HtmlElement::new("svg");
        svg.set_attribute("width", format_tenths(b.width));
        svg.set_attribute("height", format_tenths(b.height));
        let mut rect = domrs::HtmlElement::new("rect");
        rect.set_attribute("x", "0.0");
        rect.set_attribute("y", "0.0");
        rect.set_attribute("width", format_tenths(b.width));
        rect.set_attribute("height", format_tenths(b.height));
        rect.set_attribute("stroke", "none");
        rect.set_attribute("fill", "#336633");
        svg.add_child(rect);
        let mut d = String::new();
        for (i, v) in b.vertices.iter().enumerate() {
            let prefix = if i == 0 { "M " } else { " L " };
            d.push_str(prefix);
            d.push_str(&format_tenths(v.x));
            d.push(',');
            d.push_str(&format_tenths(v.y));
        }
        d.push_str(" Z");
        let mut path = domrs::HtmlElement::new("path");
        path.set_attribute("d", d);
        path.set_attribute("stroke", "none");
        path.set_attribute("fill", "#99CC00");
        svg.add_child(path);
        for l in &b.lines {
            let mut line = domrs::HtmlElement::new("line");
            line.set_attribute("x1", format_tenths(l.x1));
            line.set_attribute("y1", format_tenths(l.y1));
            line.set_attribute("x2", format_tenths(l.x2));
            line.set_attribute("y2", format_tenths(l.y2));
            line.set_attribute("stroke", "#336633");
            line.set_attribute("stroke-width", format_tenths(b.line_width));
            line.set_attribute("stroke-linecap", "square");
            svg.add_child(line);
        }
        body.add_child(svg);
    }
    let doc = domrs::HtmlDocument::new()
        .default_doctype()
        .language("en")
        .head(head)
        .body(body);
    assert_eq!(page, doc.to_string());
}
