//! The markup tree: elements with ordered attributes and ordered children.

use vstd::pervasive::VecAdditionalExecFns;
use vstd::prelude::*;

verus! {

/// A node of the markup tree.
///
/// An element carries a tag name, its attributes in insertion order, an
/// optional single-line text content (rendered only when the element has
/// no children), and its child elements in insertion order.  The two
/// flags control rendering: `no_indent` suppresses the indentation of
/// this element's own tags, and `void` renders the element as a bare
/// `<tag ...>` without a closing tag.
pub struct Element {
    pub tag: String,
    pub attrs: Vec<(String, String)>,
    pub content: Option<String>,
    pub children: Vec<Element>,
    pub no_indent: bool,
    pub void: bool,
}

/// The mathematical model of an [`Element`]: the same tree with every
/// string replaced by its character sequence.
#[verifier::ext_equal]
pub ghost struct ElemModel {
    pub tag: Seq<char>,
    pub attrs: Seq<(Seq<char>, Seq<char>)>,
    pub content: Option<Seq<char>>,
    pub children: Seq<ElemModel>,
    pub no_indent: bool,
    pub void: bool,
}

/// The views of a list of attribute pairs, in order.
pub open spec fn pairs_model(s: Seq<(String, String)>) -> Seq<(Seq<char>, Seq<char>)> {
    Seq::new(s.len(), |i: int| (s[i].0@, s[i].1@))
}

/// The models of a sequence of elements, in order.
pub open spec fn seq_models(s: Seq<Element>) -> Seq<ElemModel>
    decreases s,
{
    if s.len() == 0 {
        Seq::<ElemModel>::empty()
    } else {
        seq_models(s.drop_last()).push(s.last().model())
    }
}

/// `seq_models` maps each element to its model and keeps the length.
pub proof fn lemma_seq_models_index(s: Seq<Element>, i: int)
    requires
        0 <= i < s.len(),
    ensures
        seq_models(s).len() == s.len(),
        seq_models(s)[i] == s[i].model(),
    decreases s,
{
    lemma_seq_models_len(s);
    if i < s.len() - 1 {
        lemma_seq_models_index(s.drop_last(), i);
    }
}

/// `seq_models` keeps the length of the sequence.
pub proof fn lemma_seq_models_len(s: Seq<Element>)
    ensures
        seq_models(s).len() == s.len(),
    decreases s,
{
    if s.len() > 0 {
        lemma_seq_models_len(s.drop_last());
    }
}

impl Element {
    /// The model of this element, computed recursively over the tree.
    pub open spec fn model(&self) -> ElemModel
        decreases *self,
    {
        ElemModel {
            tag: self.tag@,
            attrs: pairs_model(self.attrs@),
            content: match self.content {
                Option::Some(s) => Option::Some(s@),
                Option::None => Option::None,
            },
            children: seq_models(self.children@),
            no_indent: self.no_indent,
            void: self.void,
        }
    }

    /// Creates an element with the given tag name and no attributes,
    /// content or children.
    pub fn new(tag: &str) -> (e: Element)
        ensures
            e.model() == (ElemModel {
                tag: tag@,
                attrs: Seq::<(Seq<char>, Seq<char>)>::empty(),
                content: Option::<Seq<char>>::None,
                children: Seq::<ElemModel>::empty(),
                no_indent: false,
                void: false,
            }),
    {
        let e = Element {
            tag: tag.to_owned(),
            attrs: Vec::new(),
            content: Option::None,
            children: Vec::new(),
            no_indent: false,
            void: false,
        };
        proof {
            assert(e.model() =~= (ElemModel {
                tag: tag@,
                attrs: Seq::<(Seq<char>, Seq<char>)>::empty(),
                content: Option::<Seq<char>>::None,
                children: Seq::<ElemModel>::empty(),
                no_indent: false,
                void: false,
            }));
        }
        e
    }

    /// Inserts or overwrites an attribute.  A new name is appended at the
    /// end; an existing name keeps the position of its first insertion and
    /// only its value is replaced.
    pub fn set_attr(&mut self, name: &str, value: &str)
        ensures
            final(self).model() == (ElemModel {
                attrs: spec_set_attr(old(self).model().attrs, name@, value@),
                ..old(self).model()
            }),
    {
        let name_string = name.to_owned();
        let value_string = value.to_owned();
        let ghost old_attrs = self.model().attrs;
        let mut i: usize = 0;
        while i < self.attrs.len()
            invariant
                *self == *old(self),
                old_attrs == old(self).model().attrs,
                i <= self.attrs@.len(),
                forall|j: int| 0 <= j < i ==> self.attrs@[j].0@ != name@,
                name_string@ == name@,
                value_string@ == value@,
            decreases self.attrs@.len() - i,
        {
            if self.attrs[i].0 == name_string {
                proof {
                    assert(old_attrs.len() == self.attrs@.len());
                    assert forall|j: int| 0 <= j < old_attrs.len() implies old_attrs[j]
                        == (self.attrs@[j].0@, self.attrs@[j].1@) by {}
                    lemma_attr_index_found(old_attrs, name@, i as int);
                }
                self.attrs.set(i, (name_string, value_string));
                proof {
                    assert(self.model().attrs =~= old_attrs.update(i as int, (name@, value@)));
                    assert(self.model() =~= (ElemModel {
                        attrs: spec_set_attr(old(self).model().attrs, name@, value@),
                        ..old(self).model()
                    }));
                }
                return;
            }
            i += 1;
        }
        proof {
            assert(old_attrs.len() == self.attrs@.len());
            assert forall|j: int| 0 <= j < old_attrs.len() implies old_attrs[j]
                == (self.attrs@[j].0@, self.attrs@[j].1@) by {}
            lemma_attr_index_absent(old_attrs, name@);
        }
        self.attrs.push((name_string, value_string));
        proof {
            assert(self.model().attrs =~= old_attrs.push((name@, value@)));
            assert(self.model() =~= (ElemModel {
                attrs: spec_set_attr(old(self).model().attrs, name@, value@),
                ..old(self).model()
            }));
        }
    }

    /// Appends a child element at the end of the child list.
    pub fn add_child(&mut self, child: Element)
        ensures
            final(self).model() == (ElemModel {
                children: old(self).model().children.push(child.model()),
                ..old(self).model()
            }),
    {
        let ghost old_children = self.children@;
        self.children.push(child);
        proof {
            assert(self.children@.drop_last() =~= old_children);
            assert(self.model() =~= (ElemModel {
                children: old(self).model().children.push(child.model()),
                ..old(self).model()
            }));
        }
    }

    /// Sets the single-line text content of the element.
    pub fn set_content(&mut self, content: &str)
        ensures
            final(self).model() == (ElemModel {
                content: Option::Some(content@),
                ..old(self).model()
            }),
    {
        self.content = Option::Some(content.to_owned());
        proof {
            assert(self.model() =~= (ElemModel {
                content: Option::Some(content@),
                ..old(self).model()
            }));
        }
    }
}

/// The position of the first attribute named `name`, or `-1` if there is
/// none.
pub open spec fn attr_index(attrs: Seq<(Seq<char>, Seq<char>)>, name: Seq<char>) -> int
    decreases attrs,
{
    if attrs.len() == 0 {
        -1
    } else if attrs[0].0 == name {
        0
    } else {
        let rest = attr_index(attrs.drop_first(), name);
        if rest == -1 {
            -1
        } else {
            rest + 1
        }
    }
}

/// The attribute list after inserting or overwriting `name`: a new name
/// is appended, an existing one keeps its first position and takes the
/// new value.
pub open spec fn spec_set_attr(
    attrs: Seq<(Seq<char>, Seq<char>)>,
    name: Seq<char>,
    value: Seq<char>,
) -> Seq<(Seq<char>, Seq<char>)> {
    let i = attr_index(attrs, name);
    if i == -1 {
        attrs.push((name, value))
    } else {
        attrs.update(i, (name, value))
    }
}

/// If `name` first occurs at position `i`, then `attr_index` returns `i`.
proof fn lemma_attr_index_found(attrs: Seq<(Seq<char>, Seq<char>)>, name: Seq<char>, i: int)
    requires
        0 <= i < attrs.len(),
        attrs[i].0 == name,
        forall|j: int| 0 <= j < i ==> attrs[j].0 != name,
    ensures
        attr_index(attrs, name) == i,
    decreases attrs,
{
    if i > 0 {
        lemma_attr_index_found(attrs.drop_first(), name, i - 1);
    }
}

/// If no attribute is named `name`, then `attr_index` returns `-1`.
proof fn lemma_attr_index_absent(attrs: Seq<(Seq<char>, Seq<char>)>, name: Seq<char>)
    requires
        forall|j: int| 0 <= j < attrs.len() ==> attrs[j].0 != name,
    ensures
        attr_index(attrs, name) == -1,
    decreases attrs,
{
    if attrs.len() > 0 {
        lemma_attr_index_absent(attrs.drop_first(), name);
    }
}

} // verus!
