//! A multilingual description of a catalogue item: a name, a descriptive
//! text, and the language they are written in.

use crate::error::{reflects, ErrorView, S100Error};
use crate::xml::{err_from, first_err, first_text, text_from, Element};
use vstd::prelude::*;

verus! {

/// One `description` child of a catalogue item.
#[derive(Clone, Debug)]
pub struct Description {
    name: String,
    description: String,
    language: String,
}

/// The mathematical value of a [`Description`].
pub ghost struct DescriptionView {
    pub name: Seq<char>,
    pub description: Seq<char>,
    pub language: Seq<char>,
}

impl View for Description {
    type V = DescriptionView;

    closed spec fn view(&self) -> DescriptionView {
        DescriptionView { name: self.name@, description: self.description@, language: self.language@ }
    }
}

impl DeepView for Description {
    type V = DescriptionView;

    open spec fn deep_view(&self) -> DescriptionView {
        self.view()
    }
}

/// Classifies one child of a `description` element. The parser is strict:
/// any tag outside its table is an error.
pub open spec fn description_child_err(c: Element) -> Option<ErrorView> {
    if c.tag@ == "name"@ || c.tag@ == "description"@ || c.tag@ == "language"@ {
        None
    } else {
        Some(ErrorView::InvalidChild { parent: "description"@, child: c.tag@ })
    }
}

/// The child classification of `description`, as one reusable value.
pub open spec fn description_child_fn() -> spec_fn(Element) -> Option<ErrorView> {
    |c: Element| description_child_err(c)
}

/// The record one parsed `description` child contributes to its owner's
/// collection.
pub open spec fn description_val_fn() -> spec_fn(Element) -> DescriptionView {
    |c: Element| spec_parse_description(c)->Ok_0
}

/// What parsing a `description` element yields: on success a record whose
/// fields are the texts of the first `name`, `description` and `language`
/// children; otherwise the first error of the pass, or the first missing
/// required child in declared order.
pub open spec fn spec_parse_description(e: Element) -> Result<DescriptionView, ErrorView> {
    let cs = e.children@;
    if e.tag@ != "description"@ {
        Err(ErrorView::UnexpectedNodeName { expected: "description"@, actual: e.tag@ })
    } else if first_err(cs, description_child_fn()) is Some {
        Err(first_err(cs, description_child_fn())->Some_0)
    } else if first_text(cs, "name"@) is None {
        Err(ErrorView::MissingChild { node: "description"@, child: "name"@ })
    } else if first_text(cs, "description"@) is None {
        Err(ErrorView::MissingChild { node: "description"@, child: "description"@ })
    } else if first_text(cs, "language"@) is None {
        Err(ErrorView::MissingChild { node: "description"@, child: "language"@ })
    } else {
        Ok(
            DescriptionView {
                name: first_text(cs, "name"@)->Some_0,
                description: first_text(cs, "description"@)->Some_0,
                language: first_text(cs, "language"@)->Some_0,
            },
        )
    }
}

impl Description {
    /// Parses one `description` element in a single pass over its children.
    #[verifier::loop_isolation(false)]
    pub fn parse(node: &Element) -> (r: Result<Description, S100Error>)
        ensures
            reflects::<Description>(r, spec_parse_description(*node)),
    {
        proof {
            reveal_strlit("name");
            reveal_strlit("description");
            reveal_strlit("language");
            assert("name"@.len() == 4);
            assert("description"@.len() == 11);
            assert("language"@.len() == 8);
        }
        if !crate::str_eq(node.tag.as_str(), "description") {
            return Err(S100Error::unexpected_node_name("description", &node.tag));
        }
        let ghost cs = node.children@;
        let mut name: Option<String> = None;
        let mut description: Option<String> = None;
        let mut language: Option<String> = None;
        let mut i: usize = 0;
        while i < node.children.len()
            invariant
                0 <= i <= cs.len(),
                cs == node.children@,
                node.tag@ == "description"@,
                first_err(cs, description_child_fn()) == err_from(
                    cs,
                    description_child_fn(),
                    i as int,
                ),
                first_text(cs, "name"@) == (if name is Some {
                    Some(name->Some_0@)
                } else {
                    text_from(cs, "name"@, i as int)
                }),
                first_text(cs, "description"@) == (if description is Some {
                    Some(description->Some_0@)
                } else {
                    text_from(cs, "description"@, i as int)
                }),
                first_text(cs, "language"@) == (if language is Some {
                    Some(language->Some_0@)
                } else {
                    text_from(cs, "language"@, i as int)
                }),
            decreases cs.len() - i,
        {
            let c = &node.children[i];
            if crate::str_eq(c.tag.as_str(), "name") {
                if name.is_none() {
                    name = Some(c.text.clone());
                }
            } else if crate::str_eq(c.tag.as_str(), "description") {
                if description.is_none() {
                    description = Some(c.text.clone());
                }
            } else if crate::str_eq(c.tag.as_str(), "language") {
                if language.is_none() {
                    language = Some(c.text.clone());
                }
            } else {
                return Err(S100Error::invalid_child(&node.tag, &c.tag));
            }
            i = i + 1;
        }
        let name = match name {
            Some(v) => v,
            None => {
                return Err(S100Error::missing_child(&node.tag, "name"));
            },
        };
        let description = match description {
            Some(v) => v,
            None => {
                return Err(S100Error::missing_child(&node.tag, "description"));
            },
        };
        let language = match language {
            Some(v) => v,
            None => {
                return Err(S100Error::missing_child(&node.tag, "language"));
            },
        };
        Ok(Description { name, description, language })
    }

    /// The name being described.
    pub fn name(&self) -> (r: &str)
        ensures
            r@ == self@.name,
    {
        self.name.as_str()
    }

    /// The descriptive text.
    pub fn description(&self) -> (r: &str)
        ensures
            r@ == self@.description,
    {
        self.description.as_str()
    }

    /// The language the description is written in.
    pub fn language(&self) -> (r: &str)
        ensures
            r@ == self@.language,
    {
        self.language.as_str()
    }
}


/// An unrecognized child tag under this strict parser is rejected, naming
/// both the parent tag and the offending child tag: the first child outside
/// the table decides the outcome.
pub proof fn lemma_description_rejects_unknown_child(e: Element, j: int)
    requires
        e.tag@ == "description"@,
        0 <= j < e.children@.len(),
        !(e.children@[j].tag@ == "name"@ || e.children@[j].tag@ == "description"@ || e.children@[j].tag@ == "language"@),
        forall|k: int| 0 <= k < j ==> description_child_err(#[trigger] e.children@[k]) is None,
    ensures
        spec_parse_description(e) == Err::<DescriptionView, ErrorView>(
            ErrorView::InvalidChild { parent: "description"@, child: e.children@[j].tag@ },
        ),
{
    crate::xml::lemma_err_from_at(e.children@, description_child_fn(), 0, j);
}

/// Omitting a required child from an otherwise error-free input yields
/// `MissingChild` naming the parent tag and the exact missing child tag;
/// the required fields are checked in declared order, and with all of them
/// present the parse succeeds.
pub proof fn lemma_description_missing_child(e: Element)
    requires
        e.tag@ == "description"@,
        first_err(e.children@, description_child_fn()) is None,
    ensures
        (first_text(e.children@, "name"@) is None) ==> spec_parse_description(e) == Err::<DescriptionView, ErrorView>(
            (ErrorView::MissingChild { node: "description"@, child: "name"@ }),
        ),
        (first_text(e.children@, "name"@) is Some && first_text(e.children@, "description"@) is None) ==> spec_parse_description(e) == Err::<DescriptionView, ErrorView>(
            (ErrorView::MissingChild { node: "description"@, child: "description"@ }),
        ),
        (first_text(e.children@, "name"@) is Some && first_text(e.children@, "description"@) is Some && first_text(e.children@, "language"@) is None) ==> spec_parse_description(e) == Err::<DescriptionView, ErrorView>(
            (ErrorView::MissingChild { node: "description"@, child: "language"@ }),
        ),
        (first_text(e.children@, "name"@) is Some && first_text(e.children@, "description"@) is Some && first_text(e.children@, "language"@) is Some) ==> spec_parse_description(e) is Ok,
{
}

} // verus!
