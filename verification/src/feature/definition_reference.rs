//! A reference into an external definition source: which register defines a
//! term, and under which identifier.

use crate::error::{reflects, ErrorView, S100Error};
use crate::xml::{attr_of, elem_from, err_from, first_elem, first_err, first_text, text_from, Element};
use vstd::prelude::*;

verus! {

/// A `definitionReference` child: a source identifier plus the register it
/// points into (read from the `ref` attribute of `definitionSource`).
#[derive(Clone, Debug)]
pub struct DefinitionReference {
    source_identifier: String,
    definition_source: String,
}

/// The mathematical value of a [`DefinitionReference`].
pub ghost struct DefinitionReferenceView {
    pub source_identifier: Seq<char>,
    pub definition_source: Seq<char>,
}

impl View for DefinitionReference {
    type V = DefinitionReferenceView;

    closed spec fn view(&self) -> DefinitionReferenceView {
        DefinitionReferenceView {
            source_identifier: self.source_identifier@,
            definition_source: self.definition_source@,
        }
    }
}

impl DeepView for DefinitionReference {
    type V = DefinitionReferenceView;

    open spec fn deep_view(&self) -> DefinitionReferenceView {
        self.view()
    }
}

/// Classifies one child of a `definitionReference` element. The parser is
/// strict; a `definitionSource` child must carry a `ref` attribute.
pub open spec fn definition_reference_child_err(c: Element) -> Option<ErrorView> {
    if c.tag@ == "sourceIdentifier"@ {
        None
    } else if c.tag@ == "definitionSource"@ {
        if attr_of(c.attributes@, "ref"@) is Some {
            None
        } else {
            Some(ErrorView::MissingAttribute { node: "definitionSource"@, attribute: "ref"@ })
        }
    } else {
        Some(ErrorView::InvalidChild { parent: "definitionReference"@, child: c.tag@ })
    }
}

/// The child classification of `definitionReference`, as one reusable value.
pub open spec fn definition_reference_child_fn() -> spec_fn(Element) -> Option<ErrorView> {
    |c: Element| definition_reference_child_err(c)
}

/// What parsing a `definitionReference` element yields: the text of the
/// first `sourceIdentifier` child and the `ref` attribute of the first
/// `definitionSource` child; otherwise the first error of the pass, or the
/// first missing required child in declared order.
pub open spec fn spec_parse_definition_reference(e: Element) -> Result<
    DefinitionReferenceView,
    ErrorView,
> {
    let cs = e.children@;
    if e.tag@ != "definitionReference"@ {
        Err(ErrorView::UnexpectedNodeName { expected: "definitionReference"@, actual: e.tag@ })
    } else if first_err(cs, definition_reference_child_fn()) is Some {
        Err(first_err(cs, definition_reference_child_fn())->Some_0)
    } else if first_text(cs, "sourceIdentifier"@) is None {
        Err(ErrorView::MissingChild { node: "definitionReference"@, child: "sourceIdentifier"@ })
    } else if first_elem(cs, "definitionSource"@) is None {
        Err(ErrorView::MissingChild { node: "definitionReference"@, child: "definitionSource"@ })
    } else {
        Ok(
            DefinitionReferenceView {
                source_identifier: first_text(cs, "sourceIdentifier"@)->Some_0,
                definition_source: attr_of(
                    first_elem(cs, "definitionSource"@)->Some_0.attributes@,
                    "ref"@,
                )->Some_0,
            },
        )
    }
}

impl DefinitionReference {
    /// Parses one `definitionReference` element in a single pass over its
    /// children.
    #[verifier::loop_isolation(false)]
    pub fn parse(node: &Element) -> (r: Result<DefinitionReference, S100Error>)
        ensures
            reflects::<DefinitionReference>(r, spec_parse_definition_reference(*node)),
    {
        proof {
            reveal_strlit("sourceIdentifier");
            reveal_strlit("definitionSource");
            assert("sourceIdentifier"@.len() == 16);
            assert("definitionSource"@.len() == 16);
            assert("sourceIdentifier"@[0] == 's');
            assert("definitionSource"@[0] == 'd');
        }
        if !crate::str_eq(node.tag.as_str(), "definitionReference") {
            return Err(S100Error::unexpected_node_name("definitionReference", &node.tag));
        }
        let ghost cs = node.children@;
        let mut source_identifier: Option<String> = None;
        let mut definition_source: Option<String> = None;
        let mut i: usize = 0;
        while i < node.children.len()
            invariant
                0 <= i <= cs.len(),
                first_err(cs, definition_reference_child_fn()) == err_from(
                    cs,
                    definition_reference_child_fn(),
                    i as int,
                ),
                first_text(cs, "sourceIdentifier"@) == (if source_identifier is Some {
                    Some(source_identifier->Some_0@)
                } else {
                    text_from(cs, "sourceIdentifier"@, i as int)
                }),
                match definition_source {
                    Some(v) => first_elem(cs, "definitionSource"@) is Some && attr_of(
                        first_elem(cs, "definitionSource"@)->Some_0.attributes@,
                        "ref"@,
                    ) == Some(v@),
                    None => first_elem(cs, "definitionSource"@) == elem_from(
                        cs,
                        "definitionSource"@,
                        i as int,
                    ),
                },
            decreases cs.len() - i,
        {
            let c = &node.children[i];
            if crate::str_eq(c.tag.as_str(), "sourceIdentifier") {
                if source_identifier.is_none() {
                    source_identifier = Some(c.text.clone());
                }
            } else if crate::str_eq(c.tag.as_str(), "definitionSource") {
                match c.attribute("ref") {
                    Some(v) => {
                        if definition_source.is_none() {
                            definition_source = Some(v.clone());
                        }
                    },
                    None => {
                        return Err(S100Error::missing_attribute(&c.tag, "ref"));
                    },
                }
            } else {
                return Err(S100Error::invalid_child(&node.tag, &c.tag));
            }
            i = i + 1;
        }
        let source_identifier = match source_identifier {
            Some(v) => v,
            None => {
                return Err(S100Error::missing_child(&node.tag, "sourceIdentifier"));
            },
        };
        let definition_source = match definition_source {
            Some(v) => v,
            None => {
                return Err(S100Error::missing_child(&node.tag, "definitionSource"));
            },
        };
        Ok(DefinitionReference { source_identifier, definition_source })
    }

    /// The identifier of the referenced definition within its source.
    pub fn source_identifier(&self) -> (r: &str)
        ensures
            r@ == self@.source_identifier,
    {
        self.source_identifier.as_str()
    }

    /// The register that holds the referenced definition.
    pub fn definition_source(&self) -> (r: &str)
        ensures
            r@ == self@.definition_source,
    {
        self.definition_source.as_str()
    }
}


/// An unrecognized child tag under this strict parser is rejected, naming
/// both the parent tag and the offending child tag: the first child outside
/// the table decides the outcome.
pub proof fn lemma_definition_reference_rejects_unknown_child(e: Element, j: int)
    requires
        e.tag@ == "definitionReference"@,
        0 <= j < e.children@.len(),
        !(e.children@[j].tag@ == "sourceIdentifier"@ || e.children@[j].tag@ == "definitionSource"@),
        forall|k: int| 0 <= k < j ==> definition_reference_child_err(#[trigger] e.children@[k]) is None,
    ensures
        spec_parse_definition_reference(e) == Err::<DefinitionReferenceView, ErrorView>(
            ErrorView::InvalidChild { parent: "definitionReference"@, child: e.children@[j].tag@ },
        ),
{
    crate::xml::lemma_err_from_at(e.children@, definition_reference_child_fn(), 0, j);
}

/// Omitting a required child from an otherwise error-free input yields
/// `MissingChild` naming the parent tag and the exact missing child tag;
/// the required fields are checked in declared order, and with all of them
/// present the parse succeeds.
pub proof fn lemma_definition_reference_missing_child(e: Element)
    requires
        e.tag@ == "definitionReference"@,
        first_err(e.children@, definition_reference_child_fn()) is None,
    ensures
        (first_text(e.children@, "sourceIdentifier"@) is None) ==> spec_parse_definition_reference(e) == Err::<DefinitionReferenceView, ErrorView>(
            (ErrorView::MissingChild { node: "definitionReference"@, child: "sourceIdentifier"@ }),
        ),
        (first_text(e.children@, "sourceIdentifier"@) is Some && first_elem(e.children@, "definitionSource"@) is None) ==> spec_parse_definition_reference(e) == Err::<DefinitionReferenceView, ErrorView>(
            (ErrorView::MissingChild { node: "definitionReference"@, child: "definitionSource"@ }),
        ),
        (first_text(e.children@, "sourceIdentifier"@) is Some && first_elem(e.children@, "definitionSource"@) is Some) ==> spec_parse_definition_reference(e) is Ok,
{
}

} // verus!
