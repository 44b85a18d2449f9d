//! A portrayal parameter: an identifier, multilingual descriptions, a value
//! type, a default value, and an optional validation rule.

use crate::error::{reflects, ErrorView, S100Error};
use crate::portrayal::catalog_item::CatalogItem;
use crate::portrayal::description::{
    description_val_fn, spec_parse_description, Description, DescriptionView,
};
use crate::portrayal::parameter_type::{spec_decode_parameter_type, ParameterType};
use crate::portrayal::validate::{spec_parse_validate, Validate, ValidateView};
use crate::xml::{
    attr_of, elem_from, err_from, first_elem, first_err, first_text, list_from, seq_deep_view,
    tagged_list, text_from, Element,
};
use vstd::prelude::*;

verus! {

broadcast use {
    crate::xml::lemma_acc_step,
    crate::xml::lemma_acc_done,
    crate::xml::lemma_seq_deep_view_push,
};

/// A `parameter` item of the portrayal catalogue.
#[derive(Clone, Debug)]
pub struct Parameter {
    id: String,
    descriptions: Vec<Description>,
    parameter_type: ParameterType,
    default: String,
    validate: Option<Validate>,
}

/// The mathematical value of a [`Parameter`].
pub ghost struct ParameterView {
    pub id: Seq<char>,
    pub descriptions: Seq<DescriptionView>,
    pub parameter_type: ParameterType,
    pub default: Seq<char>,
    pub validate: Option<ValidateView>,
}

impl View for Parameter {
    type V = ParameterView;

    closed spec fn view(&self) -> ParameterView {
        ParameterView {
            id: self.id@,
            descriptions: seq_deep_view(self.descriptions@),
            parameter_type: self.parameter_type,
            default: self.default@,
            validate: self.validate.deep_view(),
        }
    }
}

impl DeepView for Parameter {
    type V = ParameterView;

    open spec fn deep_view(&self) -> ParameterView {
        self.view()
    }
}

/// Classifies one child of a `parameter` element. The parser is strict;
/// nested descriptions, the `type` code-list and a nested `validate` are
/// validated in place and their errors propagate unchanged.
pub open spec fn parameter_child_err(c: Element) -> Option<ErrorView> {
    if c.tag@ == "description"@ {
        match spec_parse_description(c) {
            Ok(_) => None,
            Err(e) => Some(e),
        }
    } else if c.tag@ == "default"@ {
        None
    } else if c.tag@ == "type"@ {
        match spec_decode_parameter_type(c.text@) {
            Ok(_) => None,
            Err(e) => Some(e),
        }
    } else if c.tag@ == "validate"@ {
        match spec_parse_validate(c) {
            Ok(_) => None,
            Err(e) => Some(e),
        }
    } else {
        Some(ErrorView::InvalidChild { parent: "parameter"@, child: c.tag@ })
    }
}

/// The child classification of `parameter`, as one reusable value.
pub open spec fn parameter_child_fn() -> spec_fn(Element) -> Option<ErrorView> {
    |c: Element| parameter_child_err(c)
}

/// What parsing a `parameter` element yields: the `id` attribute, the parsed
/// `description` children in document order, the decoded first `type` child,
/// the text of the first `default` child, and the first `validate` child if
/// there is one; otherwise the first error, with a missing `id` reported
/// before the pass and missing required children after it, in declared
/// order.
pub open spec fn spec_parse_parameter(e: Element) -> Result<ParameterView, ErrorView> {
    let cs = e.children@;
    if e.tag@ != "parameter"@ {
        Err(ErrorView::UnexpectedNodeName { expected: "parameter"@, actual: e.tag@ })
    } else if attr_of(e.attributes@, "id"@) is None {
        Err(ErrorView::MissingAttribute { node: "parameter"@, attribute: "id"@ })
    } else if first_err(cs, parameter_child_fn()) is Some {
        Err(first_err(cs, parameter_child_fn())->Some_0)
    } else if first_text(cs, "type"@) is None {
        Err(ErrorView::MissingChild { node: "parameter"@, child: "type"@ })
    } else if first_text(cs, "default"@) is None {
        Err(ErrorView::MissingChild { node: "parameter"@, child: "default"@ })
    } else {
        Ok(
            ParameterView {
                id: attr_of(e.attributes@, "id"@)->Some_0,
                descriptions: tagged_list(cs, "description"@, description_val_fn()),
                parameter_type: spec_decode_parameter_type(first_text(cs, "type"@)->Some_0)->Ok_0,
                default: first_text(cs, "default"@)->Some_0,
                validate: match first_elem(cs, "validate"@) {
                    Some(el) => Some(spec_parse_validate(el)->Ok_0),
                    None => None,
                },
            },
        )
    }
}

impl Parameter {
    /// Parses one `parameter` element in a single pass over its children.
    #[verifier::loop_isolation(false)]
    pub fn parse(node: &Element) -> (r: Result<Parameter, S100Error>)
        ensures
            reflects::<Parameter>(r, spec_parse_parameter(*node)),
    {
        proof {
            reveal_strlit("description");
            reveal_strlit("default");
            reveal_strlit("type");
            reveal_strlit("validate");
            assert("description"@.len() == 11);
            assert("default"@.len() == 7);
            assert("type"@.len() == 4);
            assert("validate"@.len() == 8);
        }
        if !crate::str_eq(node.tag.as_str(), "parameter") {
            return Err(S100Error::unexpected_node_name("parameter", &node.tag));
        }
        let id = match node.attribute("id") {
            Some(v) => v.clone(),
            None => {
                return Err(S100Error::missing_attribute(&node.tag, "id"));
            },
        };
        let ghost cs = node.children@;
        let mut descriptions: Vec<Description> = Vec::new();
        let mut parameter_type: Option<ParameterType> = None;
        let mut default: Option<String> = None;
        let mut validate: Option<Validate> = None;
        let mut i: usize = 0;
        while i < node.children.len()
            invariant
                0 <= i <= cs.len(),
                first_err(cs, parameter_child_fn()) == err_from(
                    cs,
                    parameter_child_fn(),
                    i as int,
                ),
                tagged_list(cs, "description"@, description_val_fn()) == seq_deep_view(
                    descriptions@,
                ) + list_from(cs, "description"@, description_val_fn(), i as int),
                match parameter_type {
                    Some(v) => first_text(cs, "type"@) is Some && spec_decode_parameter_type(
                        first_text(cs, "type"@)->Some_0,
                    ) == Ok::<ParameterType, ErrorView>(v),
                    None => text_from(cs, "type"@, i as int) == first_text(cs, "type"@),
                },
                first_text(cs, "default"@) == (if default is Some {
                    Some(default->Some_0@)
                } else {
                    text_from(cs, "default"@, i as int)
                }),
                match validate {
                    Some(v) => first_elem(cs, "validate"@) is Some && spec_parse_validate(
                        first_elem(cs, "validate"@)->Some_0,
                    ) == Ok::<ValidateView, ErrorView>(v@),
                    None => elem_from(cs, "validate"@, i as int) == first_elem(cs, "validate"@),
                },
            decreases cs.len() - i,
        {
            let c = &node.children[i];
            if crate::str_eq(c.tag.as_str(), "description") {
                match Description::parse(c) {
                    Ok(d) => {
                        descriptions.push(d);
                    },
                    Err(e) => {
                        return Err(e);
                    },
                }
            } else if crate::str_eq(c.tag.as_str(), "default") {
                if default.is_none() {
                    default = Some(c.text.clone());
                }
            } else if crate::str_eq(c.tag.as_str(), "type") {
                match ParameterType::from_str(c.text.as_str()) {
                    Ok(v) => {
                        if parameter_type.is_none() {
                            parameter_type = Some(v);
                        }
                    },
                    Err(e) => {
                        return Err(e);
                    },
                }
            } else if crate::str_eq(c.tag.as_str(), "validate") {
                match Validate::parse(c) {
                    Ok(v) => {
                        if validate.is_none() {
                            validate = Some(v);
                        }
                    },
                    Err(e) => {
                        return Err(e);
                    },
                }
            } else {
                return Err(S100Error::invalid_child(&node.tag, &c.tag));
            }
            i = i + 1;
        }
        let parameter_type = match parameter_type {
            Some(v) => v,
            None => {
                return Err(S100Error::missing_child(&node.tag, "type"));
            },
        };
        let default = match default {
            Some(v) => v,
            None => {
                return Err(S100Error::missing_child(&node.tag, "default"));
            },
        };
        Ok(Parameter { id, descriptions, parameter_type, default, validate })
    }

    /// The value type of this parameter.
    pub fn parameter_type(&self) -> (r: ParameterType)
        ensures
            r == self@.parameter_type,
    {
        self.parameter_type
    }

    /// The default value of this parameter.
    pub fn default(&self) -> (r: &str)
        ensures
            r@ == self@.default,
    {
        self.default.as_str()
    }

    /// The validation rule of this parameter, if it carries one.
    pub fn validate(&self) -> (r: Option<&Validate>)
        ensures
            match r {
                Some(v) => self@.validate == Some(v@),
                None => self@.validate is None,
            },
    {
        match self.validate.as_ref() {
            Some(val) => Some(val),
            None => None,
        }
    }
}

impl CatalogItem for Parameter {
    open spec fn spec_id(&self) -> Seq<char> {
        self@.id
    }

    open spec fn spec_descriptions(&self) -> Seq<DescriptionView> {
        self@.descriptions
    }

    fn id(&self) -> (r: &str) {
        self.id.as_str()
    }

    fn descriptions(&self) -> (r: &[Description]) {
        self.descriptions.as_slice()
    }
}


/// An unrecognized child tag under this strict parser is rejected, naming
/// both the parent tag and the offending child tag: the first child outside
/// the table decides the outcome.
pub proof fn lemma_parameter_rejects_unknown_child(e: Element, j: int)
    requires
        e.tag@ == "parameter"@,
        attr_of(e.attributes@, "id"@) is Some,
        0 <= j < e.children@.len(),
        !(e.children@[j].tag@ == "description"@ || e.children@[j].tag@ == "default"@ || e.children@[j].tag@ == "type"@ || e.children@[j].tag@ == "validate"@),
        forall|k: int| 0 <= k < j ==> parameter_child_err(#[trigger] e.children@[k]) is None,
    ensures
        spec_parse_parameter(e) == Err::<ParameterView, ErrorView>(
            ErrorView::InvalidChild { parent: "parameter"@, child: e.children@[j].tag@ },
        ),
{
    crate::xml::lemma_err_from_at(e.children@, parameter_child_fn(), 0, j);
}

/// Omitting a required child from an otherwise error-free input yields
/// `MissingChild` naming the parent tag and the exact missing child tag;
/// the required fields are checked in declared order, and with all of them
/// present the parse succeeds.
pub proof fn lemma_parameter_missing_child(e: Element)
    requires
        e.tag@ == "parameter"@,
        attr_of(e.attributes@, "id"@) is Some,
        first_err(e.children@, parameter_child_fn()) is None,
    ensures
        (first_text(e.children@, "type"@) is None) ==> spec_parse_parameter(e) == Err::<ParameterView, ErrorView>(
            (ErrorView::MissingChild { node: "parameter"@, child: "type"@ }),
        ),
        (first_text(e.children@, "type"@) is Some && first_text(e.children@, "default"@) is None) ==> spec_parse_parameter(e) == Err::<ParameterView, ErrorView>(
            (ErrorView::MissingChild { node: "parameter"@, child: "default"@ }),
        ),
        (first_text(e.children@, "type"@) is Some && first_text(e.children@, "default"@) is Some) ==> spec_parse_parameter(e) is Ok,
{
}

} // verus!
