//! Builders for the SVG shapes of the logo: rectangle, path, line.
//!
//! All coordinates are fixed-point values in tenths of a unit (see
//! [`crate::tenths`]), so every numeric attribute carries exactly one
//! decimal digit.

use crate::element::{Element, ElemModel};
use crate::tenths::{format_tenths, spec_tenths};
use vstd::prelude::*;
use vstd::string::StringExecFns;

verus! {

/// A point, both coordinates in tenths of a unit.
#[derive(Clone, Copy, PartialEq, Eq, Structural, Debug)]
pub struct Point {
    pub x: i64,
    pub y: i64,
}

/// A line segment, all coordinates in tenths of a unit.
#[derive(Clone, Copy, PartialEq, Eq, Structural, Debug)]
pub struct Segment {
    pub x1: i64,
    pub y1: i64,
    pub x2: i64,
    pub y2: i64,
}

/// An `x,y` pair preceded by `prefix`, all numbers with one decimal.
pub open spec fn spec_point_part(prefix: Seq<char>, p: Point) -> Seq<char> {
    prefix + spec_tenths(p.x as int) + ","@ + spec_tenths(p.y as int)
}

/// The `d` attribute of the logo path: a move to the first of the six
/// points, a line to each of the five others, and a closing `Z`.
pub open spec fn spec_path_d(pts: Seq<Point>) -> Seq<char>
    recommends
        pts.len() == 6,
{
    spec_point_part("M "@, pts[0]) + spec_point_part(" L "@, pts[1]) + spec_point_part(
        " L "@,
        pts[2],
    ) + spec_point_part(" L "@, pts[3]) + spec_point_part(" L "@, pts[4]) + spec_point_part(
        " L "@,
        pts[5],
    ) + " Z"@
}

/// The model of a `rect` element: position, size, no stroke, a fill.
pub open spec fn spec_svg_rect(x: int, y: int, w: int, h: int, fill: Seq<char>) -> ElemModel {
    ElemModel {
        tag: "rect"@,
        attrs: seq![
            ("x"@, spec_tenths(x)),
            ("y"@, spec_tenths(y)),
            ("width"@, spec_tenths(w)),
            ("height"@, spec_tenths(h)),
            ("stroke"@, "none"@),
            ("fill"@, fill),
        ],
        content: Option::None,
        children: Seq::<ElemModel>::empty(),
        no_indent: false,
        void: false,
    }
}

/// The model of the `path` element over the six given points.
pub open spec fn spec_svg_path(pts: Seq<Point>, fill: Seq<char>) -> ElemModel
    recommends
        pts.len() == 6,
{
    ElemModel {
        tag: "path"@,
        attrs: seq![("d"@, spec_path_d(pts)), ("stroke"@, "none"@), ("fill"@, fill)],
        content: Option::None,
        children: Seq::<ElemModel>::empty(),
        no_indent: false,
        void: false,
    }
}

/// The model of a `line` element: endpoints, stroke color and width,
/// square line caps.
pub open spec fn spec_svg_line(s: Segment, stroke: Seq<char>, stroke_width: int) -> ElemModel {
    ElemModel {
        tag: "line"@,
        attrs: seq![
            ("x1"@, spec_tenths(s.x1 as int)),
            ("y1"@, spec_tenths(s.y1 as int)),
            ("x2"@, spec_tenths(s.x2 as int)),
            ("y2"@, spec_tenths(s.y2 as int)),
            ("stroke"@, stroke),
            ("stroke-width"@, spec_tenths(stroke_width)),
            ("stroke-linecap"@, "square"@),
        ],
        content: Option::None,
        children: Seq::<ElemModel>::empty(),
        no_indent: false,
        void: false,
    }
}

/// The model of an `svg` root element of the given displayed size.
pub open spec fn spec_svg_root(w: int, h: int) -> ElemModel {
    ElemModel {
        tag: "svg"@,
        attrs: seq![("width"@, spec_tenths(w)), ("height"@, spec_tenths(h))],
        content: Option::None,
        children: Seq::<ElemModel>::empty(),
        no_indent: false,
        void: false,
    }
}

/// Builds the background `rect` of the logo.
pub fn svg_rect(x: i64, y: i64, width: i64, height: i64, fill: &str) -> (e: Element)
    ensures
        e.model() == spec_svg_rect(x as int, y as int, width as int, height as int, fill@),
{
    let mut attrs: Vec<(String, String)> = Vec::new();
    attrs.push(("x".to_owned(), format_tenths(x)));
    attrs.push(("y".to_owned(), format_tenths(y)));
    attrs.push(("width".to_owned(), format_tenths(width)));
    attrs.push(("height".to_owned(), format_tenths(height)));
    attrs.push(("stroke".to_owned(), "none".to_owned()));
    attrs.push(("fill".to_owned(), fill.to_owned()));
    let e = Element {
        tag: "rect".to_owned(),
        attrs,
        content: Option::None,
        children: Vec::new(),
        no_indent: false,
        void: false,
    };
    proof {
        assert(e.model() =~= spec_svg_rect(
            x as int,
            y as int,
            width as int,
            height as int,
            fill@,
        ));
    }
    e
}

/// Appends `prefix`, then `x,y` with one decimal each, to `d`.
fn push_point_part(d: &mut String, prefix: &str, p: Point)
    ensures
        final(d)@ == old(d)@ + spec_point_part(prefix@, p),
{
    d.append(prefix);
    let tx = format_tenths(p.x);
    d.append(tx.as_str());
    d.append(",");
    let ty = format_tenths(p.y);
    d.append(ty.as_str());
    proof {
        assert(d@ =~= old(d)@ + spec_point_part(prefix@, p));
    }
}

/// Builds the logo `path` element over the six given points.
pub fn svg_path(points: &Vec<Point>, fill: &str) -> (e: Element)
    requires
        points@.len() == 6,
    ensures
        e.model() == spec_svg_path(points@, fill@),
{
    let mut d = String::new();
    push_point_part(&mut d, "M ", points[0]);
    proof {
        assert(d@ =~= spec_point_part("M "@, points@[0]));
    }
    push_point_part(&mut d, " L ", points[1]);
    push_point_part(&mut d, " L ", points[2]);
    push_point_part(&mut d, " L ", points[3]);
    push_point_part(&mut d, " L ", points[4]);
    push_point_part(&mut d, " L ", points[5]);
    d.append(" Z");
    let mut attrs: Vec<(String, String)> = Vec::new();
    attrs.push(("d".to_owned(), d));
    attrs.push(("stroke".to_owned(), "none".to_owned()));
    attrs.push(("fill".to_owned(), fill.to_owned()));
    let e = Element {
        tag: "path".to_owned(),
        attrs,
        content: Option::None,
        children: Vec::new(),
        no_indent: false,
        void: false,
    };
    proof {
        assert(e.model() =~= spec_svg_path(points@, fill@));
    }
    e
}

/// Builds one decorative `line` element of the logo.
pub fn svg_line(s: Segment, stroke: &str, stroke_width: i64) -> (e: Element)
    ensures
        e.model() == spec_svg_line(s, stroke@, stroke_width as int),
{
    let mut attrs: Vec<(String, String)> = Vec::new();
    attrs.push(("x1".to_owned(), format_tenths(s.x1)));
    attrs.push(("y1".to_owned(), format_tenths(s.y1)));
    attrs.push(("x2".to_owned(), format_tenths(s.x2)));
    attrs.push(("y2".to_owned(), format_tenths(s.y2)));
    attrs.push(("stroke".to_owned(), stroke.to_owned()));
    attrs.push(("stroke-width".to_owned(), format_tenths(stroke_width)));
    attrs.push(("stroke-linecap".to_owned(), "square".to_owned()));
    let e = Element {
        tag: "line".to_owned(),
        attrs,
        content: Option::None,
        children: Vec::new(),
        no_indent: false,
        void: false,
    };
    proof {
        assert(e.model() =~= spec_svg_line(s, stroke@, stroke_width as int));
    }
    e
}

/// Builds an `svg` root element of the given displayed size.
pub fn svg_root(width: i64, height: i64) -> (e: Element)
    ensures
        e.model() == spec_svg_root(width as int, height as int),
{
    let mut attrs: Vec<(String, String)> = Vec::new();
    attrs.push(("width".to_owned(), format_tenths(width)));
    attrs.push(("height".to_owned(), format_tenths(height)));
    let e = Element {
        tag: "svg".to_owned(),
        attrs,
        content: Option::None,
        children: Vec::new(),
        no_indent: false,
        void: false,
    };
    proof {
        assert(e.model() =~= spec_svg_root(width as int, height as int));
    }
    e
}

} // verus!
