//! The element tree that the parsers consume: a tag name, an attribute
//! mapping, an ordered sequence of child elements, and text content.
//!
//! The tree itself comes from an XML reader outside this crate; the library
//! only ever reads it through this model. This module also holds the
//! specification vocabulary shared by every parser: what the first child with
//! a given tag is, what the first offending child of a pass is, and what an
//! ordered collection gathered from tagged children contains.

use crate::error::ErrorView;
use vstd::prelude::*;

verus! {

/// One attribute of an element: a name and a value.
pub struct Attribute {
    pub name: String,
    pub value: String,
}

/// One element of the tree. `text` holds the element's text content;
/// `children` holds its child elements in document order.
pub struct Element {
    pub tag: String,
    pub attributes: Vec<Attribute>,
    pub children: Vec<Element>,
    pub text: String,
}

/// The value of the first attribute named `name` at or after index `i`.
pub open spec fn attr_from(attrs: Seq<Attribute>, name: Seq<char>, i: int) -> Option<Seq<char>>
    decreases attrs.len() - i,
{
    if i < 0 || i >= attrs.len() {
        None
    } else if attrs[i].name@ == name {
        Some(attrs[i].value@)
    } else {
        attr_from(attrs, name, i + 1)
    }
}

/// The value of the attribute named `name` (attribute names are unique in a
/// well-formed document; the first occurrence is authoritative).
pub open spec fn attr_of(attrs: Seq<Attribute>, name: Seq<char>) -> Option<Seq<char>> {
    attr_from(attrs, name, 0)
}

/// The text of the first child tagged `tag` at or after index `i`.
pub open spec fn text_from(cs: Seq<Element>, tag: Seq<char>, i: int) -> Option<Seq<char>>
    decreases cs.len() - i,
{
    if i < 0 || i >= cs.len() {
        None
    } else if cs[i].tag@ == tag {
        Some(cs[i].text@)
    } else {
        text_from(cs, tag, i + 1)
    }
}

/// The text of the first child tagged `tag`: the value a scalar field takes
/// (the first occurrence wins; later occurrences are ignored).
pub open spec fn first_text(cs: Seq<Element>, tag: Seq<char>) -> Option<Seq<char>> {
    text_from(cs, tag, 0)
}

/// The first child tagged `tag` at or after index `i`.
pub open spec fn elem_from(cs: Seq<Element>, tag: Seq<char>, i: int) -> Option<Element>
    decreases cs.len() - i,
{
    if i < 0 || i >= cs.len() {
        None
    } else if cs[i].tag@ == tag {
        Some(cs[i])
    } else {
        elem_from(cs, tag, i + 1)
    }
}

/// The first child tagged `tag`: the element a nested singleton field is
/// parsed from (the first occurrence wins).
pub open spec fn first_elem(cs: Seq<Element>, tag: Seq<char>) -> Option<Element> {
    elem_from(cs, tag, 0)
}

/// The first error that the per-child classification `f` raises at or after
/// index `i`.
pub open spec fn err_from(
    cs: Seq<Element>,
    f: spec_fn(Element) -> Option<ErrorView>,
    i: int,
) -> Option<ErrorView>
    decreases cs.len() - i,
{
    if i < 0 || i >= cs.len() {
        None
    } else if f(cs[i]) is Some {
        f(cs[i])
    } else {
        err_from(cs, f, i + 1)
    }
}

/// The first error raised by one pass over the children in document order:
/// parsing is fail-fast, so this error, if any, is the parse's outcome.
pub open spec fn first_err(
    cs: Seq<Element>,
    f: spec_fn(Element) -> Option<ErrorView>,
) -> Option<ErrorView> {
    err_from(cs, f, 0)
}

/// The values `p` extracted from the children tagged `tag` at or after index
/// `i`, in document order.
pub open spec fn list_from<T>(
    cs: Seq<Element>,
    tag: Seq<char>,
    p: spec_fn(Element) -> T,
    i: int,
) -> Seq<T>
    decreases cs.len() - i,
{
    if i < 0 || i >= cs.len() {
        Seq::empty()
    } else if cs[i].tag@ == tag {
        seq![p(cs[i])] + list_from(cs, tag, p, i + 1)
    } else {
        list_from(cs, tag, p, i + 1)
    }
}

/// The ordered collection a repeatable field gathers: one value per child
/// tagged `tag`, duplicates allowed, document order preserved.
pub open spec fn tagged_list<T>(cs: Seq<Element>, tag: Seq<char>, p: spec_fn(Element) -> T) -> Seq<
    T,
> {
    list_from(cs, tag, p, 0)
}

/// The values `p` extracted from every member at or after index `j`.
pub open spec fn all_from<T>(ms: Seq<Element>, p: spec_fn(Element) -> T, j: int) -> Seq<T>
    decreases ms.len() - j,
{
    if j < 0 || j >= ms.len() {
        Seq::empty()
    } else {
        seq![p(ms[j])] + all_from(ms, p, j + 1)
    }
}

/// The values `p` extracted from the members (the child elements) of every
/// group child tagged `tag` at or after index `i`, in document order.
pub open spec fn group_from<T>(
    cs: Seq<Element>,
    tag: Seq<char>,
    p: spec_fn(Element) -> T,
    i: int,
) -> Seq<T>
    decreases cs.len() - i,
{
    if i < 0 || i >= cs.len() {
        Seq::empty()
    } else if cs[i].tag@ == tag {
        all_from(cs[i].children@, p, 0) + group_from(cs, tag, p, i + 1)
    } else {
        group_from(cs, tag, p, i + 1)
    }
}

/// The ordered collection a catalogue group gathers: one value per member of
/// every group child tagged `tag`, in document order.
pub open spec fn group_list<T>(cs: Seq<Element>, tag: Seq<char>, p: spec_fn(Element) -> T) -> Seq<
    T,
> {
    group_from(cs, tag, p, 0)
}

/// The text one child contributes to a collection of plain strings.
pub open spec fn text_val_fn() -> spec_fn(Element) -> Seq<char> {
    |c: Element| c.text@
}

/// The element-wise mathematical values of a sequence.
pub open spec fn seq_deep_view<T: DeepView>(s: Seq<T>) -> Seq<T::V> {
    Seq::new(s.len(), |i: int| s[i].deep_view())
}

/// Appending to a collection appends to its mathematical value.
pub broadcast proof fn lemma_seq_deep_view_push<T: DeepView>(s: Seq<T>, x: T)
    ensures
        #[trigger] seq_deep_view(s.push(x)) == seq_deep_view(s).push(x.deep_view()),
{
    assert(seq_deep_view(s.push(x)) =~= seq_deep_view(s).push(x.deep_view()));
}

/// Moving one gathered value from the pending tail into the accumulator.
pub broadcast proof fn lemma_acc_step<T>(a: Seq<T>, x: T, r: Seq<T>)
    ensures
        a + (seq![x] + r) == #[trigger] (a.push(x) + r),
{
    assert(a + (seq![x] + r) =~= a.push(x) + r);
}

/// An accumulator with nothing pending holds the whole collection.
pub broadcast proof fn lemma_acc_done<T>(a: Seq<T>)
    ensures
        #[trigger] (a + Seq::<T>::empty()) == a,
{
    assert(a + Seq::<T>::empty() =~= a);
}

/// The first offending child of a pass is the first child the
/// classification rejects: if every child before `j` passes and child `j`
/// does not, the pass's error is exactly child `j`'s.
pub proof fn lemma_err_from_at(
    cs: Seq<Element>,
    f: spec_fn(Element) -> Option<ErrorView>,
    i: int,
    j: int,
)
    requires
        0 <= i <= j < cs.len(),
        f(cs[j]) is Some,
        forall|k: int| i <= k < j ==> f(#[trigger] cs[k]) is None,
    ensures
        err_from(cs, f, i) == f(cs[j]),
    decreases j - i,
{
    if i < j {
        lemma_err_from_at(cs, f, i + 1, j);
    }
}

/// Order preservation: a child appended after the others lands at the end
/// of the gathered collection, so the collection lists the tagged children
/// exactly in document order.
pub proof fn lemma_tagged_list_snoc<T>(
    cs: Seq<Element>,
    c: Element,
    tag: Seq<char>,
    p: spec_fn(Element) -> T,
)
    ensures
        tagged_list(cs.push(c), tag, p) == (if c.tag@ == tag {
            tagged_list(cs, tag, p).push(p(c))
        } else {
            tagged_list(cs, tag, p)
        }),
{
    lemma_list_from_snoc(cs, c, tag, p, 0);
}

proof fn lemma_list_from_snoc<T>(
    cs: Seq<Element>,
    c: Element,
    tag: Seq<char>,
    p: spec_fn(Element) -> T,
    i: int,
)
    requires
        0 <= i <= cs.len(),
    ensures
        list_from(cs.push(c), tag, p, i) == (if c.tag@ == tag {
            list_from(cs, tag, p, i).push(p(c))
        } else {
            list_from(cs, tag, p, i)
        }),
    decreases cs.len() - i,
{
    let ext = cs.push(c);
    assert(ext.len() == cs.len() + 1);
    if i == cs.len() {
        assert(ext[i] == c);
        if c.tag@ == tag {
            assert(list_from(ext, tag, p, i) == seq![p(c)] + list_from(ext, tag, p, i + 1));
            assert(list_from(ext, tag, p, i + 1) =~= Seq::<T>::empty());
            assert(seq![p(c)] + Seq::<T>::empty() =~= Seq::<T>::empty().push(p(c)));
            assert(list_from(cs, tag, p, i) =~= Seq::<T>::empty());
        } else {
            assert(list_from(ext, tag, p, i) == list_from(ext, tag, p, i + 1));
            assert(list_from(ext, tag, p, i + 1) =~= Seq::<T>::empty());
            assert(list_from(cs, tag, p, i) =~= Seq::<T>::empty());
        }
    } else {
        assert(ext[i] == cs[i]);
        lemma_list_from_snoc(cs, c, tag, p, i + 1);
        if cs[i].tag@ == tag {
            if c.tag@ == tag {
                assert(seq![p(cs[i])] + list_from(cs, tag, p, i + 1).push(p(c)) =~= (seq![p(cs[i])]
                    + list_from(cs, tag, p, i + 1)).push(p(c)));
            }
        }
    }
}

/// Whether an element carries the tag `tag`.
pub open spec fn tag_is(tag: Seq<char>) -> spec_fn(Element) -> bool {
    |c: Element| c.tag@ == tag
}

/// The children tagged `tag`, in document order: what is left of a child
/// sequence once every child a lenient reader would skip is removed.
pub open spec fn with_tag(cs: Seq<Element>, tag: Seq<char>) -> Seq<Element> {
    cs.filter(tag_is(tag))
}

/// Appending one child to a pass: the pass's first error is the old one, or
/// the new child's where the old pass was clean.
proof fn lemma_err_from_snoc(cs: Seq<Element>, c: Element, f: spec_fn(Element) -> Option<ErrorView>, i: int)
    requires
        0 <= i <= cs.len(),
    ensures
        err_from(cs.push(c), f, i) == (if err_from(cs, f, i) is Some {
            err_from(cs, f, i)
        } else {
            f(c)
        }),
    decreases cs.len() - i,
{
    let ext = cs.push(c);
    if i == cs.len() {
        assert(ext[i] == c);
    } else {
        assert(ext[i] == cs[i]);
        lemma_err_from_snoc(cs, c, f, i + 1);
    }
}

/// Appending one child to a pass: the gathered groups gain the new child's
/// members at the end where its tag matches, and nothing otherwise.
proof fn lemma_group_from_snoc<T>(
    cs: Seq<Element>,
    c: Element,
    tag: Seq<char>,
    p: spec_fn(Element) -> T,
    i: int,
)
    requires
        0 <= i <= cs.len(),
    ensures
        group_from(cs.push(c), tag, p, i) == (if c.tag@ == tag {
            group_from(cs, tag, p, i) + all_from(c.children@, p, 0)
        } else {
            group_from(cs, tag, p, i)
        }),
    decreases cs.len() - i,
{
    let ext = cs.push(c);
    if i == cs.len() {
        assert(ext[i] == c);
        if c.tag@ == tag {
            assert(group_from(ext, tag, p, i + 1) =~= Seq::<T>::empty());
            assert(all_from(c.children@, p, 0) + Seq::<T>::empty() =~= Seq::<T>::empty()
                + all_from(c.children@, p, 0));
            assert(group_from(cs, tag, p, i) =~= Seq::<T>::empty());
        } else {
            assert(group_from(ext, tag, p, i + 1) =~= Seq::<T>::empty());
            assert(group_from(cs, tag, p, i) =~= Seq::<T>::empty());
        }
    } else {
        assert(ext[i] == cs[i]);
        lemma_group_from_snoc(cs, c, tag, p, i + 1);
        if cs[i].tag@ == tag && c.tag@ == tag {
            assert(all_from(cs[i].children@, p, 0) + (group_from(cs, tag, p, i + 1) + all_from(
                c.children@,
                p,
                0,
            )) =~= (all_from(cs[i].children@, p, 0) + group_from(cs, tag, p, i + 1)) + all_from(
                c.children@,
                p,
                0,
            ));
        }
    }
}

/// A lenient pass sees only the children tagged `tag`: where every other
/// tag is classified clean, removing those children changes neither the
/// pass's first error nor the collection its groups gather.
pub proof fn lemma_skip_unmatched<T>(
    cs: Seq<Element>,
    tag: Seq<char>,
    f: spec_fn(Element) -> Option<ErrorView>,
    p: spec_fn(Element) -> T,
)
    requires
        forall|c: Element| c.tag@ != tag ==> (#[trigger] f(c)) is None,
    ensures
        first_err(with_tag(cs, tag), f) == first_err(cs, f),
        group_list(with_tag(cs, tag), tag, p) == group_list(cs, tag, p),
    decreases cs.len(),
{
    reveal(Seq::<Element>::filter);
    if cs.len() == 0 {
        assert(with_tag(cs, tag) =~= cs);
    } else {
        let s = cs.drop_last();
        let c = cs.last();
        assert(cs =~= s.push(c));
        lemma_skip_unmatched(s, tag, f, p);
        lemma_err_from_snoc(s, c, f, 0);
        lemma_group_from_snoc(s, c, tag, p, 0);
        if tag_is(tag)(c) {
            assert(with_tag(cs, tag) == with_tag(s, tag).push(c));
            lemma_err_from_snoc(with_tag(s, tag), c, f, 0);
            lemma_group_from_snoc(with_tag(s, tag), c, tag, p, 0);
        } else {
            assert(with_tag(cs, tag) == with_tag(s, tag));
            assert(f(c) is None);
            assert(group_list(cs, tag, p) =~= group_list(s, tag, p));
        }
    }
}

impl Element {
    /// Looks up an attribute by name.
    pub fn attribute(&self, name: &str) -> (r: Option<&String>)
        ensures
            match r {
                Some(v) => attr_of(self.attributes@, name@) == Some(v@),
                None => attr_of(self.attributes@, name@) is None,
            },
    {
        let mut i: usize = 0;
        while i < self.attributes.len()
            invariant
                0 <= i <= self.attributes@.len(),
                attr_of(self.attributes@, name@) == attr_from(self.attributes@, name@, i as int),
            decreases self.attributes@.len() - i,
        {
            if crate::str_eq(self.attributes[i].name.as_str(), name) {
                return Some(&self.attributes[i].value);
            }
            i = i + 1;
        }
        None
    }
}

} // verus!
