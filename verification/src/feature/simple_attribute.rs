//! A simple attribute of the feature catalogue: name, definition, code, a
//! closed value type, optional remarks and alias, optional listed values,
//! and optional definition reference and quantity specification.

use crate::error::{reflects, ErrorView, S100Error};
use crate::feature::attribute_value_type::{spec_decode_value_type, AttributeValueType};
use crate::feature::definition_reference::{
    spec_parse_definition_reference, DefinitionReference, DefinitionReferenceView,
};
use crate::feature::item::Item;
use crate::feature::listed_value::{spec_parse_listed_value, ListedValue, ListedValueView};
use crate::feature::quantity_specification::{spec_decode_quantity, QuantitySpecification};
use crate::xml::{
    elem_from, err_from, first_elem, first_err, first_text, group_from, group_list,
    seq_deep_view, text_from, all_from, Element,
};
use vstd::prelude::*;

verus! {

broadcast use {
    crate::xml::lemma_acc_step,
    crate::xml::lemma_acc_done,
    crate::xml::lemma_seq_deep_view_push,
};

/// One `S100_FC_SimpleAttribute` entry of a feature catalogue.
pub struct SimpleAttribute {
    name: String,
    definition: String,
    code: String,
    remarks: Option<String>,
    alias: Option<String>,
    value_type: AttributeValueType,
    listed_values: Vec<ListedValue>,
    definition_reference: Option<DefinitionReference>,
    quality_specification: Option<QuantitySpecification>,
}

/// The mathematical value of a [`SimpleAttribute`].
pub ghost struct SimpleAttributeView {
    pub name: Seq<char>,
    pub definition: Seq<char>,
    pub code: Seq<char>,
    pub remarks: Option<Seq<char>>,
    pub alias: Option<Seq<char>>,
    pub value_type: AttributeValueType,
    pub listed_values: Seq<ListedValueView>,
    pub definition_reference: Option<DefinitionReferenceView>,
    pub quality_specification: Option<QuantitySpecification>,
}

impl View for SimpleAttribute {
    type V = SimpleAttributeView;

    closed spec fn view(&self) -> SimpleAttributeView {
        SimpleAttributeView {
            name: self.name@,
            definition: self.definition@,
            code: self.code@,
            remarks: self.remarks.deep_view(),
            alias: self.alias.deep_view(),
            value_type: self.value_type,
            listed_values: seq_deep_view(self.listed_values@),
            definition_reference: self.definition_reference.deep_view(),
            quality_specification: self.quality_specification.deep_view(),
        }
    }
}

impl DeepView for SimpleAttribute {
    type V = SimpleAttributeView;

    open spec fn deep_view(&self) -> SimpleAttributeView {
        self.view()
    }
}

/// The error, if any, of parsing one member of a `listedValues` group.
pub open spec fn listed_member_err(c: Element) -> Option<ErrorView> {
    match spec_parse_listed_value(c) {
        Ok(_) => None,
        Err(e) => Some(e),
    }
}

/// The member classification of `listedValues`, as one reusable value.
pub open spec fn listed_member_fn() -> spec_fn(Element) -> Option<ErrorView> {
    |c: Element| listed_member_err(c)
}

/// The record one member of a `listedValues` group contributes.
pub open spec fn listed_value_val_fn() -> spec_fn(Element) -> ListedValueView {
    |c: Element| spec_parse_listed_value(c)->Ok_0
}

/// Classifies one child of an `S100_FC_SimpleAttribute` element. The parser
/// is lenient: a tag outside its table is ignored. Code-list and nested
/// children are validated in place and their errors propagate unchanged.
pub open spec fn simple_attribute_child_err(c: Element) -> Option<ErrorView> {
    if c.tag@ == "name"@ || c.tag@ == "definition"@ || c.tag@ == "code"@ || c.tag@ == "remarks"@
        || c.tag@ == "alias"@ {
        None
    } else if c.tag@ == "valueType"@ {
        match spec_decode_value_type(c.text@) {
            Ok(_) => None,
            Err(e) => Some(e),
        }
    } else if c.tag@ == "listedValues"@ {
        first_err(c.children@, listed_member_fn())
    } else if c.tag@ == "definitionReference"@ {
        match spec_parse_definition_reference(c) {
            Ok(_) => None,
            Err(e) => Some(e),
        }
    } else if c.tag@ == "quantitySpecification"@ {
        match spec_decode_quantity(c.text@) {
            Ok(_) => None,
            Err(e) => Some(e),
        }
    } else {
        None
    }
}

/// The child classification of `S100_FC_SimpleAttribute`, as one reusable
/// value.
pub open spec fn simple_attribute_child_fn() -> spec_fn(Element) -> Option<ErrorView> {
    |c: Element| simple_attribute_child_err(c)
}

/// What parsing an `S100_FC_SimpleAttribute` element yields. Scalar fields
/// take the first occurrence of their tag; the listed values are the parsed
/// members of every `listedValues` group in document order; otherwise the
/// first error of the pass, or the first missing required child in declared
/// order.
pub open spec fn spec_parse_simple_attribute(e: Element) -> Result<SimpleAttributeView, ErrorView> {
    let cs = e.children@;
    if e.tag@ != "S100_FC_SimpleAttribute"@ {
        Err(
            ErrorView::UnexpectedNodeName {
                expected: "S100_FC_SimpleAttribute"@,
                actual: e.tag@,
            },
        )
    } else if first_err(cs, simple_attribute_child_fn()) is Some {
        Err(first_err(cs, simple_attribute_child_fn())->Some_0)
    } else if first_text(cs, "name"@) is None {
        Err(ErrorView::MissingChild { node: "S100_FC_SimpleAttribute"@, child: "name"@ })
    } else if first_text(cs, "definition"@) is None {
        Err(ErrorView::MissingChild { node: "S100_FC_SimpleAttribute"@, child: "definition"@ })
    } else if first_text(cs, "code"@) is None {
        Err(ErrorView::MissingChild { node: "S100_FC_SimpleAttribute"@, child: "code"@ })
    } else if first_text(cs, "valueType"@) is None {
        Err(ErrorView::MissingChild { node: "S100_FC_SimpleAttribute"@, child: "valueType"@ })
    } else {
        Ok(
            SimpleAttributeView {
                name: first_text(cs, "name"@)->Some_0,
                definition: first_text(cs, "definition"@)->Some_0,
                code: first_text(cs, "code"@)->Some_0,
                remarks: first_text(cs, "remarks"@),
                alias: first_text(cs, "alias"@),
                value_type: spec_decode_value_type(first_text(cs, "valueType"@)->Some_0)->Ok_0,
                listed_values: group_list(cs, "listedValues"@, listed_value_val_fn()),
                definition_reference: match first_elem(cs, "definitionReference"@) {
                    Some(el) => Some(spec_parse_definition_reference(el)->Ok_0),
                    None => None,
                },
                quality_specification: match first_text(cs, "quantitySpecification"@) {
                    Some(t) => Some(spec_decode_quantity(t)->Ok_0),
                    None => None,
                },
            },
        )
    }
}

impl SimpleAttribute {
    /// Parses one `S100_FC_SimpleAttribute` element in a single pass over
    /// its children.
    #[verifier::loop_isolation(false)]
    pub fn parse(node: &Element) -> (r: Result<SimpleAttribute, S100Error>)
        ensures
            reflects::<SimpleAttribute>(r, spec_parse_simple_attribute(*node)),
    {
        proof {
            reveal_strlit("name");
            reveal_strlit("definition");
            reveal_strlit("code");
            reveal_strlit("remarks");
            reveal_strlit("alias");
            reveal_strlit("valueType");
            reveal_strlit("listedValues");
            reveal_strlit("definitionReference");
            reveal_strlit("quantitySpecification");
            assert("name"@.len() == 4);
            assert("definition"@.len() == 10);
            assert("code"@.len() == 4);
            assert("remarks"@.len() == 7);
            assert("alias"@.len() == 5);
            assert("valueType"@.len() == 9);
            assert("listedValues"@.len() == 12);
            assert("definitionReference"@.len() == 19);
            assert("quantitySpecification"@.len() == 21);
            assert("name"@[0] == 'n');
            assert("code"@[0] == 'c');
        }
        if !crate::str_eq(node.tag.as_str(), "S100_FC_SimpleAttribute") {
            return Err(S100Error::unexpected_node_name("S100_FC_SimpleAttribute", &node.tag));
        }
        let ghost cs = node.children@;
        let mut name: Option<String> = None;
        let mut definition: Option<String> = None;
        let mut code: Option<String> = None;
        let mut remarks: Option<String> = None;
        let mut alias: Option<String> = None;
        let mut value_type: Option<AttributeValueType> = None;
        let mut listed_values: Vec<ListedValue> = Vec::new();
        let mut definition_reference: Option<DefinitionReference> = None;
        let mut quality_specification: Option<QuantitySpecification> = None;
        let mut i: usize = 0;
        while i < node.children.len()
            invariant
                0 <= i <= cs.len(),
                first_err(cs, simple_attribute_child_fn()) == err_from(
                    cs,
                    simple_attribute_child_fn(),
                    i as int,
                ),
                first_text(cs, "name"@) == (if name is Some {
                    Some(name->Some_0@)
                } else {
                    text_from(cs, "name"@, i as int)
                }),
                first_text(cs, "definition"@) == (if definition is Some {
                    Some(definition->Some_0@)
                } else {
                    text_from(cs, "definition"@, i as int)
                }),
                first_text(cs, "code"@) == (if code is Some {
                    Some(code->Some_0@)
                } else {
                    text_from(cs, "code"@, i as int)
                }),
                first_text(cs, "remarks"@) == (if remarks is Some {
                    Some(remarks->Some_0@)
                } else {
                    text_from(cs, "remarks"@, i as int)
                }),
                first_text(cs, "alias"@) == (if alias is Some {
                    Some(alias->Some_0@)
                } else {
                    text_from(cs, "alias"@, i as int)
                }),
                match value_type {
                    Some(v) => first_text(cs, "valueType"@) is Some && spec_decode_value_type(
                        first_text(cs, "valueType"@)->Some_0,
                    ) == Ok::<AttributeValueType, ErrorView>(v),
                    None => text_from(cs, "valueType"@, i as int) == first_text(cs, "valueType"@),
                },
                group_list(cs, "listedValues"@, listed_value_val_fn()) == seq_deep_view(
                    listed_values@,
                ) + group_from(cs, "listedValues"@, listed_value_val_fn(), i as int),
                match definition_reference {
                    Some(d) => first_elem(cs, "definitionReference"@) is Some
                        && spec_parse_definition_reference(
                        first_elem(cs, "definitionReference"@)->Some_0,
                    ) == Ok::<DefinitionReferenceView, ErrorView>(d@),
                    None => elem_from(cs, "definitionReference"@, i as int) == first_elem(
                        cs,
                        "definitionReference"@,
                    ),
                },
                match quality_specification {
                    Some(q) => first_text(cs, "quantitySpecification"@) is Some
                        && spec_decode_quantity(first_text(cs, "quantitySpecification"@)->Some_0)
                        == Ok::<QuantitySpecification, ErrorView>(q),
                    None => text_from(cs, "quantitySpecification"@, i as int) == first_text(
                        cs,
                        "quantitySpecification"@,
                    ),
                },
            decreases cs.len() - i,
        {
            let c = &node.children[i];
            if crate::str_eq(c.tag.as_str(), "name") {
                if name.is_none() {
                    name = Some(c.text.clone());
                }
            } else if crate::str_eq(c.tag.as_str(), "definition") {
                if definition.is_none() {
                    definition = Some(c.text.clone());
                }
            } else if crate::str_eq(c.tag.as_str(), "code") {
                if code.is_none() {
                    code = Some(c.text.clone());
                }
            } else if crate::str_eq(c.tag.as_str(), "remarks") {
                if remarks.is_none() {
                    remarks = Some(c.text.clone());
                }
            } else if crate::str_eq(c.tag.as_str(), "alias") {
                if alias.is_none() {
                    alias = Some(c.text.clone());
                }
            } else if crate::str_eq(c.tag.as_str(), "valueType") {
                match AttributeValueType::from_str(c.text.as_str()) {
                    Ok(v) => {
                        if value_type.is_none() {
                            value_type = Some(v);
                        }
                    },
                    Err(e) => {
                        return Err(e);
                    },
                }
            } else if crate::str_eq(c.tag.as_str(), "listedValues") {
                let mut j: usize = 0;
                while j < c.children.len()
                    invariant
                        0 <= j <= c.children@.len(),
                        first_err(c.children@, listed_member_fn()) == err_from(
                            c.children@,
                            listed_member_fn(),
                            j as int,
                        ),
                        group_list(cs, "listedValues"@, listed_value_val_fn()) == seq_deep_view(
                            listed_values@,
                        ) + all_from(c.children@, listed_value_val_fn(), j as int) + group_from(
                            cs,
                            "listedValues"@,
                            listed_value_val_fn(),
                            i as int + 1,
                        ),
                    decreases c.children@.len() - j,
                {
                    let m = &c.children[j];
                    match ListedValue::parse(m) {
                        Ok(lv) => {
                            listed_values.push(lv);
                        },
                        Err(e) => {
                            return Err(e);
                        },
                    }
                    j = j + 1;
                }
            } else if crate::str_eq(c.tag.as_str(), "definitionReference") {
                match DefinitionReference::parse(c) {
                    Ok(d) => {
                        if definition_reference.is_none() {
                            definition_reference = Some(d);
                        }
                    },
                    Err(e) => {
                        return Err(e);
                    },
                }
            } else if crate::str_eq(c.tag.as_str(), "quantitySpecification") {
                match QuantitySpecification::from_str(c.text.as_str()) {
                    Ok(q) => {
                        if quality_specification.is_none() {
                            quality_specification = Some(q);
                        }
                    },
                    Err(e) => {
                        return Err(e);
                    },
                }
            } else {
                // This parser is lenient: an unrecognized child is skipped.
            }
            i = i + 1;
        }
        let name = match name {
            Some(v) => v,
            None => {
                return Err(S100Error::missing_child(&node.tag, "name"));
            },
        };
        let definition = match definition {
            Some(v) => v,
            None => {
                return Err(S100Error::missing_child(&node.tag, "definition"));
            },
        };
        let code = match code {
            Some(v) => v,
            None => {
                return Err(S100Error::missing_child(&node.tag, "code"));
            },
        };
        let value_type = match value_type {
            Some(v) => v,
            None => {
                return Err(S100Error::missing_child(&node.tag, "valueType"));
            },
        };
        Ok(
            SimpleAttribute {
                name,
                definition,
                code,
                remarks,
                alias,
                value_type,
                listed_values,
                definition_reference,
                quality_specification,
            },
        )
    }

    /// The remarks on this attribute, if any.
    pub fn remarks(&self) -> (r: Option<&str>)
        ensures
            match r {
                Some(v) => self@.remarks == Some(v@),
                None => self@.remarks is None,
            },
    {
        match self.remarks.as_ref() {
            Some(val) => Some(val.as_str()),
            None => None,
        }
    }

    /// The alias of this attribute, if any.
    pub fn alias(&self) -> (r: Option<&str>)
        ensures
            match r {
                Some(v) => self@.alias == Some(v@),
                None => self@.alias is None,
            },
    {
        match self.alias.as_ref() {
            Some(val) => Some(val.as_str()),
            None => None,
        }
    }

    /// The closed value type of this attribute.
    pub fn value_type(&self) -> (r: AttributeValueType)
        ensures
            r == self@.value_type,
    {
        self.value_type
    }

    /// The listed values of this attribute, in document order.
    pub fn listed_values(&self) -> (r: &[ListedValue])
        ensures
            seq_deep_view(r@) == self@.listed_values,
    {
        self.listed_values.as_slice()
    }

    /// The definition reference of this attribute, if it carries one.
    pub fn definition_reference(&self) -> (r: Option<&DefinitionReference>)
        ensures
            match r {
                Some(d) => self@.definition_reference == Some(d@),
                None => self@.definition_reference is None,
            },
    {
        match self.definition_reference.as_ref() {
            Some(val) => Some(val),
            None => None,
        }
    }

    /// The quantity specification of this attribute, if it carries one.
    pub fn quality_specification(&self) -> (r: Option<QuantitySpecification>)
        ensures
            r == self@.quality_specification,
    {
        self.quality_specification
    }
}

impl Item for SimpleAttribute {
    open spec fn spec_name(&self) -> Seq<char> {
        self@.name
    }

    open spec fn spec_definition(&self) -> Seq<char> {
        self@.definition
    }

    open spec fn spec_code(&self) -> Seq<char> {
        self@.code
    }

    fn name(&self) -> (r: &str) {
        self.name.as_str()
    }

    fn definition(&self) -> (r: &str) {
        self.definition.as_str()
    }

    fn code(&self) -> (r: &str) {
        self.code.as_str()
    }
}


/// An unrecognized child under this lenient parser raises no error: the
/// input is accepted and the unrecognized child is ignored.
pub proof fn lemma_simple_attribute_ignores_unknown_child(c: Element)
    requires
        !(c.tag@ == "name"@ || c.tag@ == "definition"@ || c.tag@ == "code"@ || c.tag@ == "remarks"@ || c.tag@ == "alias"@ || c.tag@ == "valueType"@ || c.tag@ == "listedValues"@ || c.tag@ == "definitionReference"@ || c.tag@ == "quantitySpecification"@),
    ensures
        simple_attribute_child_err(c) is None,
{
}

/// Omitting a required child from an otherwise error-free input yields
/// `MissingChild` naming the parent tag and the exact missing child tag;
/// the required fields are checked in declared order, and with all of them
/// present the parse succeeds.
pub proof fn lemma_simple_attribute_missing_child(e: Element)
    requires
        e.tag@ == "S100_FC_SimpleAttribute"@,
        first_err(e.children@, simple_attribute_child_fn()) is None,
    ensures
        (first_text(e.children@, "name"@) is None) ==> spec_parse_simple_attribute(e) == Err::<SimpleAttributeView, ErrorView>(
            (ErrorView::MissingChild { node: "S100_FC_SimpleAttribute"@, child: "name"@ }),
        ),
        (first_text(e.children@, "name"@) is Some && first_text(e.children@, "definition"@) is None) ==> spec_parse_simple_attribute(e) == Err::<SimpleAttributeView, ErrorView>(
            (ErrorView::MissingChild { node: "S100_FC_SimpleAttribute"@, child: "definition"@ }),
        ),
        (first_text(e.children@, "name"@) is Some && first_text(e.children@, "definition"@) is Some && first_text(e.children@, "code"@) is None) ==> spec_parse_simple_attribute(e) == Err::<SimpleAttributeView, ErrorView>(
            (ErrorView::MissingChild { node: "S100_FC_SimpleAttribute"@, child: "code"@ }),
        ),
        (first_text(e.children@, "name"@) is Some && first_text(e.children@, "definition"@) is Some && first_text(e.children@, "code"@) is Some && first_text(e.children@, "valueType"@) is None) ==> spec_parse_simple_attribute(e) == Err::<SimpleAttributeView, ErrorView>(
            (ErrorView::MissingChild { node: "S100_FC_SimpleAttribute"@, child: "valueType"@ }),
        ),
        (first_text(e.children@, "name"@) is Some && first_text(e.children@, "definition"@) is Some && first_text(e.children@, "code"@) is Some && first_text(e.children@, "valueType"@) is Some) ==> spec_parse_simple_attribute(e) is Ok,
{
}

} // verus!
