//! Assembly of the logo document: one `svg` block per requested size,
//! three blocks nested in an HTML page.
//!
//! Every block holds a background rectangle, the hexagonal path, and
//! five decorative lines, all in the two fixed logo colors.

use crate::element::{Element, ElemModel};
use crate::render::{render_document, spec_render_document};
use crate::svg::{
    spec_svg_line, spec_svg_path, spec_svg_rect, spec_svg_root, svg_line, svg_path, svg_rect,
    svg_root, Point, Segment,
};
use vstd::prelude::*;

verus! {

/// The background color of the logo.
pub open spec fn spec_bg_color() -> Seq<char> {
    "#336633"@
}

/// The foreground color of the logo.
pub open spec fn spec_fg_color() -> Seq<char> {
    "#99CC00"@
}

/// The model of one logo `svg` block: the root of the given displayed
/// size holding the background rectangle, the hexagon path over the six
/// vertices, and the five decorative lines drawn in the background color
/// with the given stroke width.
pub open spec fn spec_logo_svg(
    w: int,
    h: int,
    line_width: int,
    vertices: Seq<Point>,
    lines: Seq<Segment>,
) -> ElemModel
    recommends
        vertices.len() == 6,
        lines.len() == 5,
{
    ElemModel {
        children: seq![
            spec_svg_rect(0, 0, w, h, spec_bg_color()),
            spec_svg_path(vertices, spec_fg_color()),
            spec_svg_line(lines[0], spec_bg_color(), line_width),
            spec_svg_line(lines[1], spec_bg_color(), line_width),
            spec_svg_line(lines[2], spec_bg_color(), line_width),
            spec_svg_line(lines[3], spec_bg_color(), line_width),
            spec_svg_line(lines[4], spec_bg_color(), line_width),
        ],
        ..spec_svg_root(w, h)
    }
}

/// The model of a plain `<br/>` element.
pub open spec fn spec_br() -> ElemModel {
    ElemModel {
        tag: "br"@,
        attrs: Seq::<(Seq<char>, Seq<char>)>::empty(),
        content: Option::None,
        children: Seq::<ElemModel>::empty(),
        no_indent: false,
        void: false,
    }
}

/// The model of the document head: a `UTF-8` charset meta element and
/// the fixed title.
pub open spec fn spec_head() -> ElemModel {
    ElemModel {
        tag: "head"@,
        attrs: Seq::<(Seq<char>, Seq<char>)>::empty(),
        content: Option::None,
        children: seq![
            ElemModel {
                tag: "meta"@,
                attrs: seq![("charset"@, "UTF-8"@)],
                content: Option::None,
                children: Seq::<ElemModel>::empty(),
                no_indent: false,
                void: true,
            },
            ElemModel {
                tag: "title"@,
                attrs: Seq::<(Seq<char>, Seq<char>)>::empty(),
                content: Option::Some("DSNTK LOGO"@),
                children: Seq::<ElemModel>::empty(),
                no_indent: false,
                void: false,
            },
        ],
        no_indent: true,
        void: false,
    }
}

/// The model of the whole page: an `html` root in English holding the
/// head and a body with the three given blocks separated by line breaks.
pub open spec fn spec_logo_document(a: ElemModel, b: ElemModel, c: ElemModel) -> ElemModel {
    ElemModel {
        tag: "html"@,
        attrs: seq![("lang"@, "en"@)],
        content: Option::None,
        children: seq![
            spec_head(),
            ElemModel {
                tag: "body"@,
                attrs: Seq::<(Seq<char>, Seq<char>)>::empty(),
                content: Option::None,
                children: seq![a, spec_br(), b, spec_br(), c],
                no_indent: true,
                void: false,
            },
        ],
        no_indent: true,
        void: false,
    }
}

/// Builds one logo `svg` block of the given displayed size, stroke
/// width, hexagon vertices and decorative lines.
pub fn logo_svg(
    width: i64,
    height: i64,
    line_width: i64,
    vertices: &Vec<Point>,
    lines: &Vec<Segment>,
) -> (e: Element)
    requires
        vertices@.len() == 6,
        lines@.len() == 5,
    ensures
        e.model() == spec_logo_svg(
            width as int,
            height as int,
            line_width as int,
            vertices@,
            lines@,
        ),
{
    let mut svg = svg_root(width, height);
    svg.add_child(svg_rect(0, 0, width, height, "#336633"));
    svg.add_child(svg_path(vertices, "#99CC00"));
    svg.add_child(svg_line(lines[0], "#336633", line_width));
    svg.add_child(svg_line(lines[1], "#336633", line_width));
    svg.add_child(svg_line(lines[2], "#336633", line_width));
    svg.add_child(svg_line(lines[3], "#336633", line_width));
    svg.add_child(svg_line(lines[4], "#336633", line_width));
    proof {
        let target = spec_logo_svg(
            width as int,
            height as int,
            line_width as int,
            vertices@,
            lines@,
        );
        assert(svg.model().tag =~~= target.tag);
        assert(svg.model().attrs =~~= target.attrs);
        assert(svg.model().content =~~= target.content);
        assert(svg.model().children =~~= target.children);
        assert(svg.model() =~~= target);
    }
    svg
}

/// Builds a plain `<br/>` element.
fn br_element() -> (e: Element)
    ensures
        e.model() == spec_br(),
{
    let e = Element {
        tag: "br".to_owned(),
        attrs: Vec::new(),
        content: Option::None,
        children: Vec::new(),
        no_indent: false,
        void: false,
    };
    proof {
        assert(e.model() =~~= spec_br());
    }
    e
}

/// Builds the whole page around the three given `svg` blocks, in body
/// order, separated by line breaks.
pub fn logo_document(svg_a: Element, svg_b: Element, svg_c: Element) -> (doc: Element)
    ensures
        doc.model() == spec_logo_document(svg_a.model(), svg_b.model(), svg_c.model()),
{
    let mut meta_attrs: Vec<(String, String)> = Vec::new();
    meta_attrs.push(("charset".to_owned(), "UTF-8".to_owned()));
    let meta = Element {
        tag: "meta".to_owned(),
        attrs: meta_attrs,
        content: Option::None,
        children: Vec::new(),
        no_indent: false,
        void: true,
    };
    let title = Element {
        tag: "title".to_owned(),
        attrs: Vec::new(),
        content: Option::Some("DSNTK LOGO".to_owned()),
        children: Vec::new(),
        no_indent: false,
        void: false,
    };
    proof {
        assert(meta.model() =~~= spec_head().children[0]);
        assert(title.model() =~~= spec_head().children[1]);
    }
    let mut head = Element {
        tag: "head".to_owned(),
        attrs: Vec::new(),
        content: Option::None,
        children: Vec::new(),
        no_indent: true,
        void: false,
    };
    head.add_child(meta);
    head.add_child(title);
    proof {
        assert(head.model().tag =~~= spec_head().tag);
        assert(head.model().attrs =~~= spec_head().attrs);
        assert(head.model().content =~~= spec_head().content);
        assert(head.model().children =~~= spec_head().children);
        assert(head.model() =~~= spec_head());
    }
    let mut body = Element {
        tag: "body".to_owned(),
        attrs: Vec::new(),
        content: Option::None,
        children: Vec::new(),
        no_indent: true,
        void: false,
    };
    let ghost model_a = svg_a.model();
    let ghost model_b = svg_b.model();
    let ghost model_c = svg_c.model();
    body.add_child(svg_a);
    body.add_child(br_element());
    body.add_child(svg_b);
    body.add_child(br_element());
    body.add_child(svg_c);
    proof {
        let target = spec_logo_document(model_a, model_b, model_c);
        assert(body.model().children =~~= target.children[1].children);
        assert(body.model().attrs =~~= target.children[1].attrs);
        assert(body.model() =~~= target.children[1]);
    }
    let mut html_attrs: Vec<(String, String)> = Vec::new();
    html_attrs.push(("lang".to_owned(), "en".to_owned()));
    let mut doc = Element {
        tag: "html".to_owned(),
        attrs: html_attrs,
        content: Option::None,
        children: Vec::new(),
        no_indent: true,
        void: false,
    };
    doc.add_child(head);
    doc.add_child(body);
    proof {
        let target = spec_logo_document(model_a, model_b, model_c);
        assert(doc.model().tag =~~= target.tag);
        assert(doc.model().attrs =~~= target.attrs);
        assert(doc.model().content =~~= target.content);
        assert(doc.model().children =~~= target.children);
        assert(doc.model() =~~= target);
    }
    doc
}

/// The data of one logo block: its displayed size, the stroke width of
/// the decorative lines, the six hexagon vertices, and the five
/// decorative line segments, all coordinates in tenths of a unit.
pub struct LogoParams {
    pub width: i64,
    pub height: i64,
    pub line_width: i64,
    pub vertices: Vec<Point>,
    pub lines: Vec<Segment>,
}

impl LogoParams {
    /// A well-formed block holds exactly six vertices and five lines.
    pub open spec fn wf(&self) -> bool {
        self.vertices@.len() == 6 && self.lines@.len() == 5
    }

    /// The model of the `svg` block these parameters describe.
    pub open spec fn spec_svg(&self) -> ElemModel {
        spec_logo_svg(
            self.width as int,
            self.height as int,
            self.line_width as int,
            self.vertices@,
            self.lines@,
        )
    }
}

/// Renders the complete logo page for three blocks: the HTML document
/// holding the three `svg` blocks, serialized to text.
pub fn logo_page(a: &LogoParams, b: &LogoParams, c: &LogoParams) -> (s: String)
    requires
        a.wf(),
        b.wf(),
        c.wf(),
    ensures
        s@ == spec_render_document(spec_logo_document(a.spec_svg(), b.spec_svg(), c.spec_svg())),
{
    let svg_a = logo_svg(a.width, a.height, a.line_width, &a.vertices, &a.lines);
    let svg_b = logo_svg(b.width, b.height, b.line_width, &b.vertices, &b.lines);
    let svg_c = logo_svg(c.width, c.height, c.line_width, &c.vertices, &c.lines);
    let doc = logo_document(svg_a, svg_b, svg_c);
    render_document(&doc)
}

} // verus!
