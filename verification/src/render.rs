//! Rendering of the markup tree to text.
//!
//! An element is rendered as `<tag a="v" ...>` followed by its content or
//! its children and a closing tag.  Children are indented two columns
//! deeper than their parent and separated by line breaks; an element
//! marked `no_indent` drops its own indentation and pulls its subtree two
//! columns back.  A document is the root element preceded by the HTML5
//! doctype line.

use crate::element::{
    lemma_seq_models_index, lemma_seq_models_len, pairs_model, seq_models, Element, ElemModel,
};
use vstd::prelude::*;
use vstd::string::StringExecFns;

verus! {

/// `n` space characters.
pub open spec fn spec_spaces(n: int) -> Seq<char> {
    Seq::new(if n >= 0 { n as nat } else { 0 }, |i: int| ' ')
}

/// The rendering of the attributes from position `i` on: each attribute
/// appears as ` name="value"`.
pub open spec fn spec_render_attrs_from(attrs: Seq<(Seq<char>, Seq<char>)>, i: int) -> Seq<char>
    decreases attrs.len() - i,
{
    if i < 0 || i >= attrs.len() {
        Seq::<char>::empty()
    } else {
        " "@ + attrs[i].0 + "=\""@ + attrs[i].1 + "\""@ + spec_render_attrs_from(attrs, i + 1)
    }
}

/// The column at which the children of an element at column `offset` are
/// rendered; it saturates at the pointer-size limit, which no tree that
/// fits in memory reaches.
pub open spec fn spec_child_offset(offset: int) -> int {
    if offset + 2 <= usize::MAX as int {
        offset + 2
    } else {
        usize::MAX as int
    }
}

/// The rendering of one element at the given column.
pub open spec fn spec_render_elem(e: ElemModel, offset: int) -> Seq<char>
    decreases e, 0int,
{
    let off = if e.no_indent && offset >= 2 {
        offset - 2
    } else {
        offset
    };
    let indent = if e.no_indent {
        Seq::<char>::empty()
    } else {
        spec_spaces(off)
    };
    indent + "<"@ + e.tag + spec_render_attrs_from(e.attrs, 0) + (if e.children.len() == 0 {
        match e.content {
            Option::Some(c) => ">"@ + c + "</"@ + e.tag + ">"@,
            Option::None => if e.void {
                ">"@
            } else {
                "/>"@
            },
        }
    } else {
        ">\n"@ + spec_render_children_from(e.children, 0, spec_child_offset(off)) + "\n"@
            + indent + "</"@ + e.tag + ">"@
    })
}

/// The rendering of the children from position `i` on, separated by line
/// breaks.
pub open spec fn spec_render_children_from(cs: Seq<ElemModel>, i: int, offset: int) -> Seq<char>
    decreases cs, cs.len() - i,
{
    if i < 0 || i >= cs.len() {
        Seq::<char>::empty()
    } else if i == cs.len() - 1 {
        spec_render_elem(cs[i], offset)
    } else {
        spec_render_elem(cs[i], offset) + "\n"@ + spec_render_children_from(cs, i + 1, offset)
    }
}

/// The rendering of a whole document: the doctype line, the root element,
/// and a final line break.
pub open spec fn spec_render_document(root: ElemModel) -> Seq<char> {
    "<!DOCTYPE html>\n"@ + spec_render_elem(root, 0) + "\n"@
}

/// Appends `n` spaces to `buf`.
fn push_spaces(n: usize, buf: &mut String)
    ensures
        final(buf)@ == old(buf)@ + spec_spaces(n as int),
{
    let mut k: usize = 0;
    while k < n
        invariant
            k <= n,
            buf@ == old(buf)@ + spec_spaces(k as int),
        decreases n - k,
    {
        buf.append(" ");
        k += 1;
        proof {
            reveal_strlit(" ");
            assert(buf@ =~= old(buf)@ + spec_spaces(k as int));
        }
    }
    proof {
        assert(buf@ =~= old(buf)@ + spec_spaces(n as int));
    }
}

/// Appends the attributes from position `i` on to `buf`.
fn render_attrs_from(attrs: &Vec<(String, String)>, i: usize, buf: &mut String)
    ensures
        final(buf)@ == old(buf)@ + spec_render_attrs_from(pairs_model(attrs@), i as int),
    decreases attrs@.len() - i,
{
    if i < attrs.len() {
        buf.append(" ");
        buf.append(attrs[i].0.as_str());
        buf.append("=\"");
        buf.append(attrs[i].1.as_str());
        buf.append("\"");
        render_attrs_from(attrs, i + 1, buf);
        proof {
            assert(buf@ =~= old(buf)@ + spec_render_attrs_from(
                pairs_model(attrs@),
                i as int,
            ));
        }
    }
}

/// Concatenation of character sequences associates.
proof fn lemma_assoc(a: Seq<char>, x: Seq<char>, b: Seq<char>)
    ensures
        (a + x) + b == a + (x + b),
{
    assert((a + x) + b =~= a + (x + b));
}

/// Appends the rendering of `e` at the given column to `buf`.
#[verifier::rlimit(100)]
pub fn render_elem(e: &Element, offset: usize, buf: &mut String)
    ensures
        final(buf)@ == old(buf)@ + spec_render_elem(e.model(), offset as int),
    decreases *e, e.children@.len() + 1,
{
    let ghost base = buf@;
    let off = if e.no_indent && offset >= 2 {
        offset - 2
    } else {
        offset
    };
    let ghost indent: Seq<char> = if e.no_indent {
        Seq::<char>::empty()
    } else {
        spec_spaces(off as int)
    };
    let ghost mut done: Seq<char> = indent;
    if !e.no_indent {
        push_spaces(off, buf);
    } else {
        proof {
            assert(buf@ =~= base + done);
        }
    }
    buf.append("<");
    proof {
        lemma_assoc(base, done, "<"@);
        done = done + "<"@;
    }
    buf.append(e.tag.as_str());
    proof {
        lemma_assoc(base, done, e.model().tag);
        done = done + e.model().tag;
    }
    render_attrs_from(&e.attrs, 0, buf);
    proof {
        lemma_assoc(base, done, spec_render_attrs_from(e.model().attrs, 0));
        done = done + spec_render_attrs_from(e.model().attrs, 0);
    }
    if e.children.len() == 0 {
        match &e.content {
            Option::Some(c) => {
                buf.append(">");
                proof {
                    lemma_assoc(base, done, ">"@);
                    done = done + ">"@;
                }
                buf.append(c.as_str());
                proof {
                    lemma_assoc(base, done, c@);
                    done = done + c@;
                }
                buf.append("</");
                proof {
                    lemma_assoc(base, done, "</"@);
                    done = done + "</"@;
                }
                buf.append(e.tag.as_str());
                proof {
                    lemma_assoc(base, done, e.model().tag);
                    done = done + e.model().tag;
                }
                buf.append(">");
                proof {
                    lemma_assoc(base, done, ">"@);
                    done = done + ">"@;
                }
            },
            Option::None => {
                if e.void {
                    buf.append(">");
                    proof {
                        lemma_assoc(base, done, ">"@);
                        done = done + ">"@;
                    }
                } else {
                    buf.append("/>");
                    proof {
                        lemma_assoc(base, done, "/>"@);
                        done = done + "/>"@;
                    }
                }
            },
        }
    } else {
        buf.append(">\n");
        proof {
            lemma_assoc(base, done, ">\n"@);
            done = done + ">\n"@;
        }
        let child_off = if off <= usize::MAX - 2 {
            off + 2
        } else {
            usize::MAX
        };
        render_children_from(e, 0, child_off, buf);
        proof {
            let piece = spec_render_children_from(
                seq_models(e.children@),
                0,
                child_off as int,
            );
            lemma_assoc(base, done, piece);
            done = done + piece;
        }
        buf.append("\n");
        proof {
            lemma_assoc(base, done, "\n"@);
            done = done + "\n"@;
        }
        if !e.no_indent {
            push_spaces(off, buf);
            proof {
                lemma_assoc(base, done, spec_spaces(off as int));
                done = done + spec_spaces(off as int);
            }
        } else {
            proof {
                assert(buf@ =~= base + (done + indent));
                done = done + indent;
            }
        }
        buf.append("</");
        proof {
            lemma_assoc(base, done, "</"@);
            done = done + "</"@;
        }
        buf.append(e.tag.as_str());
        proof {
            lemma_assoc(base, done, e.model().tag);
            done = done + e.model().tag;
        }
        buf.append(">");
        proof {
            lemma_assoc(base, done, ">"@);
            done = done + ">"@;
        }
    }
    proof {
        assert(done == spec_render_elem(e.model(), offset as int));
    }
}

/// Appends the renderings of the children of `e` from position `i` on,
/// separated by line breaks, to `buf`.
fn render_children_from(e: &Element, i: usize, offset: usize, buf: &mut String)
    ensures
        final(buf)@ == old(buf)@ + spec_render_children_from(
            seq_models(e.children@),
            i as int,
            offset as int,
        ),
    decreases *e, e.children@.len() - i,
{
    if i < e.children.len() {
        proof {
            lemma_seq_models_index(e.children@, i as int);
        }
        render_elem(&e.children[i], offset, buf);
        if i + 1 < e.children.len() {
            buf.append("\n");
            render_children_from(e, i + 1, offset, buf);
            proof {
                assert(buf@ =~= old(buf)@ + spec_render_children_from(
                    seq_models(e.children@),
                    i as int,
                    offset as int,
                ));
            }
        } else {
            proof {
                assert(buf@ =~= old(buf)@ + spec_render_children_from(
                    seq_models(e.children@),
                    i as int,
                    offset as int,
                ));
            }
        }
    } else {
        proof {
            lemma_seq_models_len(e.children@);
            assert(buf@ =~= old(buf)@ + spec_render_children_from(
                seq_models(e.children@),
                i as int,
                offset as int,
            ));
        }
    }
}

/// Renders a whole document: the doctype line, the root element, and a
/// final line break.
pub fn render_document(root: &Element) -> (s: String)
    ensures
        s@ == spec_render_document(root.model()),
{
    let mut buf = String::new();
    buf.append("<!DOCTYPE html>\n");
    render_elem(root, 0, &mut buf);
    buf.append("\n");
    proof {
        assert(buf@ =~= spec_render_document(root.model()));
    }
    buf
}

} // verus!
