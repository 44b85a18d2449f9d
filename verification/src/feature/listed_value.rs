//! One entry of a closed enumeration used by an attribute: a label, a
//! definition, a numeric code, and an optional definition reference.

use crate::error::{reflects, ErrorView, S100Error};
use crate::feature::definition_reference::{
    spec_parse_definition_reference, DefinitionReference, DefinitionReferenceView,
};
use crate::num::{parse_u64, spec_parse_u64};
use crate::xml::{elem_from, err_from, first_elem, first_err, first_text, text_from, Element};
use vstd::prelude::*;

verus! {

/// One `listedValue` child of a simple attribute.
pub struct ListedValue {
    label: String,
    definition: String,
    code: u64,
    definition_reference: Option<DefinitionReference>,
}

/// The mathematical value of a [`ListedValue`].
pub ghost struct ListedValueView {
    pub label: Seq<char>,
    pub definition: Seq<char>,
    pub code: u64,
    pub definition_reference: Option<DefinitionReferenceView>,
}

impl View for ListedValue {
    type V = ListedValueView;

    closed spec fn view(&self) -> ListedValueView {
        ListedValueView {
            label: self.label@,
            definition: self.definition@,
            code: self.code,
            definition_reference: self.definition_reference.deep_view(),
        }
    }
}

impl DeepView for ListedValue {
    type V = ListedValueView;

    open spec fn deep_view(&self) -> ListedValueView {
        self.view()
    }
}

/// Classifies one child of a `listedValue` element. The parser is strict;
/// a `code` child must hold decimal text, and a nested definition
/// reference's own error is propagated unchanged.
pub open spec fn listed_value_child_err(c: Element) -> Option<ErrorView> {
    if c.tag@ == "label"@ || c.tag@ == "definition"@ {
        None
    } else if c.tag@ == "code"@ {
        if spec_parse_u64(c.text@) is Some {
            None
        } else {
            Some(ErrorView::InvalidValue { node: "code"@, content: c.text@ })
        }
    } else if c.tag@ == "definitionReference"@ {
        match spec_parse_definition_reference(c) {
            Ok(_) => None,
            Err(e) => Some(e),
        }
    } else {
        Some(ErrorView::InvalidChild { parent: "listedValue"@, child: c.tag@ })
    }
}

/// The child classification of `listedValue`, as one reusable value.
pub open spec fn listed_value_child_fn() -> spec_fn(Element) -> Option<ErrorView> {
    |c: Element| listed_value_child_err(c)
}

/// What parsing a `listedValue` element yields: the texts of the first
/// `label` and `definition` children, the decimal value of the first `code`
/// child, and the first `definitionReference` child if there is one;
/// otherwise the first error of the pass, or the first missing required
/// child in declared order.
pub open spec fn spec_parse_listed_value(e: Element) -> Result<ListedValueView, ErrorView> {
    let cs = e.children@;
    if e.tag@ != "listedValue"@ {
        Err(ErrorView::UnexpectedNodeName { expected: "listedValue"@, actual: e.tag@ })
    } else if first_err(cs, listed_value_child_fn()) is Some {
        Err(first_err(cs, listed_value_child_fn())->Some_0)
    } else if first_text(cs, "label"@) is None {
        Err(ErrorView::MissingChild { node: "listedValue"@, child: "label"@ })
    } else if first_text(cs, "definition"@) is None {
        Err(ErrorView::MissingChild { node: "listedValue"@, child: "definition"@ })
    } else if first_text(cs, "code"@) is None {
        Err(ErrorView::MissingChild { node: "listedValue"@, child: "code"@ })
    } else {
        Ok(
            ListedValueView {
                label: first_text(cs, "label"@)->Some_0,
                definition: first_text(cs, "definition"@)->Some_0,
                code: spec_parse_u64(first_text(cs, "code"@)->Some_0)->Some_0,
                definition_reference: match first_elem(cs, "definitionReference"@) {
                    Some(el) => Some(spec_parse_definition_reference(el)->Ok_0),
                    None => None,
                },
            },
        )
    }
}

impl ListedValue {
    /// Parses one `listedValue` element in a single pass over its children.
    #[verifier::loop_isolation(false)]
    pub fn parse(node: &Element) -> (r: Result<ListedValue, S100Error>)
        ensures
            reflects::<ListedValue>(r, spec_parse_listed_value(*node)),
    {
        proof {
            reveal_strlit("label");
            reveal_strlit("definition");
            reveal_strlit("code");
            reveal_strlit("definitionReference");
            assert("label"@.len() == 5);
            assert("definition"@.len() == 10);
            assert("code"@.len() == 4);
            assert("definitionReference"@.len() == 19);
        }
        if !crate::str_eq(node.tag.as_str(), "listedValue") {
            return Err(S100Error::unexpected_node_name("listedValue", &node.tag));
        }
        let ghost cs = node.children@;
        let mut label: Option<String> = None;
        let mut definition: Option<String> = None;
        let mut code: Option<u64> = None;
        let mut definition_reference: Option<DefinitionReference> = None;
        let mut i: usize = 0;
        while i < node.children.len()
            invariant
                0 <= i <= cs.len(),
                first_err(cs, listed_value_child_fn()) == err_from(
                    cs,
                    listed_value_child_fn(),
                    i as int,
                ),
                first_text(cs, "label"@) == (if label is Some {
                    Some(label->Some_0@)
                } else {
                    text_from(cs, "label"@, i as int)
                }),
                first_text(cs, "definition"@) == (if definition is Some {
                    Some(definition->Some_0@)
                } else {
                    text_from(cs, "definition"@, i as int)
                }),
                match code {
                    Some(v) => first_text(cs, "code"@) is Some && spec_parse_u64(
                        first_text(cs, "code"@)->Some_0,
                    ) == Some(v),
                    None => text_from(cs, "code"@, i as int) == first_text(cs, "code"@),
                },
                match definition_reference {
                    Some(d) => first_elem(cs, "definitionReference"@) is Some
                        && spec_parse_definition_reference(
                        first_elem(cs, "definitionReference"@)->Some_0,
                    ) == Ok::<DefinitionReferenceView, ErrorView>(d@),
                    None => elem_from(cs, "definitionReference"@, i as int) == first_elem(
                        cs,
                        "definitionReference"@,
                    ),
                },
            decreases cs.len() - i,
        {
            let c = &node.children[i];
            if crate::str_eq(c.tag.as_str(), "label") {
                if label.is_none() {
                    label = Some(c.text.clone());
                }
            } else if crate::str_eq(c.tag.as_str(), "definition") {
                if definition.is_none() {
                    definition = Some(c.text.clone());
                }
            } else if crate::str_eq(c.tag.as_str(), "code") {
                match parse_u64(c.text.as_str()) {
                    Some(v) => {
                        if code.is_none() {
                            code = Some(v);
                        }
                    },
                    None => {
                        return Err(S100Error::invalid_value(&c.tag, &c.text));
                    },
                }
            } else if crate::str_eq(c.tag.as_str(), "definitionReference") {
                match DefinitionReference::parse(c) {
                    Ok(d) => {
                        if definition_reference.is_none() {
                            definition_reference = Some(d);
                        }
                    },
                    Err(e) => {
                        return Err(e);
                    },
                }
            } else {
                return Err(S100Error::invalid_child(&node.tag, &c.tag));
            }
            i = i + 1;
        }
        let label = match label {
            Some(v) => v,
            None => {
                return Err(S100Error::missing_child(&node.tag, "label"));
            },
        };
        let definition = match definition {
            Some(v) => v,
            None => {
                return Err(S100Error::missing_child(&node.tag, "definition"));
            },
        };
        let code = match code {
            Some(v) => v,
            None => {
                return Err(S100Error::missing_child(&node.tag, "code"));
            },
        };
        Ok(ListedValue { label, definition, code, definition_reference })
    }

    /// The label of this listed value.
    pub fn label(&self) -> (r: &str)
        ensures
            r@ == self@.label,
    {
        self.label.as_str()
    }

    /// The definition of this listed value.
    pub fn definition(&self) -> (r: &str)
        ensures
            r@ == self@.definition,
    {
        self.definition.as_str()
    }

    /// The numeric code of this listed value.
    pub fn code(&self) -> (r: u64)
        ensures
            r == self@.code,
    {
        self.code
    }

    /// The definition reference of this listed value, if it carries one.
    pub fn definition_reference(&self) -> (r: Option<&DefinitionReference>)
        ensures
            match r {
                Some(d) => self@.definition_reference == Some(d@),
                None => self@.definition_reference is None,
            },
    {
        match self.definition_reference.as_ref() {
            Some(val) => Some(val),
            None => None,
        }
    }
}


/// An unrecognized child tag under this strict parser is rejected, naming
/// both the parent tag and the offending child tag: the first child outside
/// the table decides the outcome.
pub proof fn lemma_listed_value_rejects_unknown_child(e: Element, j: int)
    requires
        e.tag@ == "listedValue"@,
        0 <= j < e.children@.len(),
        !(e.children@[j].tag@ == "label"@ || e.children@[j].tag@ == "definition"@ || e.children@[j].tag@ == "code"@ || e.children@[j].tag@ == "definitionReference"@),
        forall|k: int| 0 <= k < j ==> listed_value_child_err(#[trigger] e.children@[k]) is None,
    ensures
        spec_parse_listed_value(e) == Err::<ListedValueView, ErrorView>(
            ErrorView::InvalidChild { parent: "listedValue"@, child: e.children@[j].tag@ },
        ),
{
    crate::xml::lemma_err_from_at(e.children@, listed_value_child_fn(), 0, j);
}

/// Omitting a required child from an otherwise error-free input yields
/// `MissingChild` naming the parent tag and the exact missing child tag;
/// the required fields are checked in declared order, and with all of them
/// present the parse succeeds.
pub proof fn lemma_listed_value_missing_child(e: Element)
    requires
        e.tag@ == "listedValue"@,
        first_err(e.children@, listed_value_child_fn()) is None,
    ensures
        (first_text(e.children@, "label"@) is None) ==> spec_parse_listed_value(e) == Err::<ListedValueView, ErrorView>(
            (ErrorView::MissingChild { node: "listedValue"@, child: "label"@ }),
        ),
        (first_text(e.children@, "label"@) is Some && first_text(e.children@, "definition"@) is None) ==> spec_parse_listed_value(e) == Err::<ListedValueView, ErrorView>(
            (ErrorView::MissingChild { node: "listedValue"@, child: "definition"@ }),
        ),
        (first_text(e.children@, "label"@) is Some && first_text(e.children@, "definition"@) is Some && first_text(e.children@, "code"@) is None) ==> spec_parse_listed_value(e) == Err::<ListedValueView, ErrorView>(
            (ErrorView::MissingChild { node: "listedValue"@, child: "code"@ }),
        ),
        (first_text(e.children@, "label"@) is Some && first_text(e.children@, "definition"@) is Some && first_text(e.children@, "code"@) is Some) ==> spec_parse_listed_value(e) is Ok,
{
}

} // verus!
