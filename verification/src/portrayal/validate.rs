//! A validation rule of a portrayal parameter: an optional regular
//! expression, an optional xpath, and the error message to report.

use crate::error::{reflects, ErrorView, S100Error};
use crate::portrayal::error_message::{
    spec_parse_error_message, ErrorMessage, ErrorMessageView,
};
use crate::xml::{elem_from, err_from, first_elem, first_err, first_text, text_from, Element};
use vstd::prelude::*;

verus! {

/// A `validate` child of a parameter.
#[derive(Clone, Debug)]
pub struct Validate {
    regex: Option<String>,
    xpath: Option<String>,
    error_message: ErrorMessage,
}

/// The mathematical value of a [`Validate`].
pub ghost struct ValidateView {
    pub regex: Option<Seq<char>>,
    pub xpath: Option<Seq<char>>,
    pub error_message: ErrorMessageView,
}

impl View for Validate {
    type V = ValidateView;

    closed spec fn view(&self) -> ValidateView {
        ValidateView {
            regex: self.regex.deep_view(),
            xpath: self.xpath.deep_view(),
            error_message: self.error_message@,
        }
    }
}

impl DeepView for Validate {
    type V = ValidateView;

    open spec fn deep_view(&self) -> ValidateView {
        self.view()
    }
}

/// Classifies one child of a `validate` element. The parser is strict; a
/// nested error message's own error propagates unchanged.
pub open spec fn validate_child_err(c: Element) -> Option<ErrorView> {
    if c.tag@ == "regex"@ || c.tag@ == "xpath"@ {
        None
    } else if c.tag@ == "errorMessage"@ {
        match spec_parse_error_message(c) {
            Ok(_) => None,
            Err(e) => Some(e),
        }
    } else {
        Some(ErrorView::InvalidChild { parent: "validate"@, child: c.tag@ })
    }
}

/// The child classification of `validate`, as one reusable value.
pub open spec fn validate_child_fn() -> spec_fn(Element) -> Option<ErrorView> {
    |c: Element| validate_child_err(c)
}

/// What parsing a `validate` element yields: the texts of the first `regex`
/// and `xpath` children if present, and the first `errorMessage` child,
/// which is required.
pub open spec fn spec_parse_validate(e: Element) -> Result<ValidateView, ErrorView> {
    let cs = e.children@;
    if e.tag@ != "validate"@ {
        Err(ErrorView::UnexpectedNodeName { expected: "validate"@, actual: e.tag@ })
    } else if first_err(cs, validate_child_fn()) is Some {
        Err(first_err(cs, validate_child_fn())->Some_0)
    } else if first_elem(cs, "errorMessage"@) is None {
        Err(ErrorView::MissingChild { node: "validate"@, child: "errorMessage"@ })
    } else {
        Ok(
            ValidateView {
                regex: first_text(cs, "regex"@),
                xpath: first_text(cs, "xpath"@),
                error_message: spec_parse_error_message(first_elem(cs, "errorMessage"@)->Some_0)->Ok_0,
            },
        )
    }
}

impl Validate {
    /// Parses one `validate` element in a single pass over its children.
    #[verifier::loop_isolation(false)]
    pub fn parse(node: &Element) -> (r: Result<Validate, S100Error>)
        ensures
            reflects::<Validate>(r, spec_parse_validate(*node)),
    {
        proof {
            reveal_strlit("regex");
            reveal_strlit("xpath");
            reveal_strlit("errorMessage");
            assert("regex"@.len() == 5);
            assert("xpath"@.len() == 5);
            assert("errorMessage"@.len() == 12);
            assert("regex"@[0] == 'r');
            assert("xpath"@[0] == 'x');
        }
        if !crate::str_eq(node.tag.as_str(), "validate") {
            return Err(S100Error::unexpected_node_name("validate", &node.tag));
        }
        let ghost cs = node.children@;
        let mut regex: Option<String> = None;
        let mut xpath: Option<String> = None;
        let mut error_message: Option<ErrorMessage> = None;
        let mut i: usize = 0;
        while i < node.children.len()
            invariant
                0 <= i <= cs.len(),
                first_err(cs, validate_child_fn()) == err_from(cs, validate_child_fn(), i as int),
                first_text(cs, "regex"@) == (if regex is Some {
                    Some(regex->Some_0@)
                } else {
                    text_from(cs, "regex"@, i as int)
                }),
                first_text(cs, "xpath"@) == (if xpath is Some {
                    Some(xpath->Some_0@)
                } else {
                    text_from(cs, "xpath"@, i as int)
                }),
                match error_message {
                    Some(m) => first_elem(cs, "errorMessage"@) is Some && spec_parse_error_message(
                        first_elem(cs, "errorMessage"@)->Some_0,
                    ) == Ok::<ErrorMessageView, ErrorView>(m@),
                    None => elem_from(cs, "errorMessage"@, i as int) == first_elem(
                        cs,
                        "errorMessage"@,
                    ),
                },
            decreases cs.len() - i,
        {
            let c = &node.children[i];
            if crate::str_eq(c.tag.as_str(), "regex") {
                if regex.is_none() {
                    regex = Some(c.text.clone());
                }
            } else if crate::str_eq(c.tag.as_str(), "xpath") {
                if xpath.is_none() {
                    xpath = Some(c.text.clone());
                }
            } else if crate::str_eq(c.tag.as_str(), "errorMessage") {
                match ErrorMessage::parse(c) {
                    Ok(m) => {
                        if error_message.is_none() {
                            error_message = Some(m);
                        }
                    },
                    Err(e) => {
                        return Err(e);
                    },
                }
            } else {
                return Err(S100Error::invalid_child(&node.tag, &c.tag));
            }
            i = i + 1;
        }
        let error_message = match error_message {
            Some(m) => m,
            None => {
                return Err(S100Error::missing_child(&node.tag, "errorMessage"));
            },
        };
        Ok(Validate { regex, xpath, error_message })
    }

    /// The regular expression a value must match, if any.
    pub fn regex(&self) -> (r: Option<&str>)
        ensures
            match r {
                Some(v) => self@.regex == Some(v@),
                None => self@.regex is None,
            },
    {
        match self.regex.as_ref() {
            Some(val) => Some(val.as_str()),
            None => None,
        }
    }

    /// The xpath expression a value must satisfy, if any.
    pub fn xpath(&self) -> (r: Option<&str>)
        ensures
            match r {
                Some(v) => self@.xpath == Some(v@),
                None => self@.xpath is None,
            },
    {
        match self.xpath.as_ref() {
            Some(val) => Some(val.as_str()),
            None => None,
        }
    }

    /// The message to report when validation fails.
    pub fn error_message(&self) -> (r: &ErrorMessage)
        ensures
            r@ == self@.error_message,
    {
        &self.error_message
    }
}


/// An unrecognized child tag under this strict parser is rejected, naming
/// both the parent tag and the offending child tag: the first child outside
/// the table decides the outcome.
pub proof fn lemma_validate_rejects_unknown_child(e: Element, j: int)
    requires
        e.tag@ == "validate"@,
        0 <= j < e.children@.len(),
        !(e.children@[j].tag@ == "regex"@ || e.children@[j].tag@ == "xpath"@ || e.children@[j].tag@ == "errorMessage"@),
        forall|k: int| 0 <= k < j ==> validate_child_err(#[trigger] e.children@[k]) is None,
    ensures
        spec_parse_validate(e) == Err::<ValidateView, ErrorView>(
            ErrorView::InvalidChild { parent: "validate"@, child: e.children@[j].tag@ },
        ),
{
    crate::xml::lemma_err_from_at(e.children@, validate_child_fn(), 0, j);
}

/// Omitting a required child from an otherwise error-free input yields
/// `MissingChild` naming the parent tag and the exact missing child tag;
/// the required fields are checked in declared order, and with all of them
/// present the parse succeeds.
pub proof fn lemma_validate_missing_child(e: Element)
    requires
        e.tag@ == "validate"@,
        first_err(e.children@, validate_child_fn()) is None,
    ensures
        (first_elem(e.children@, "errorMessage"@) is None) ==> spec_parse_validate(e) == Err::<ValidateView, ErrorView>(
            (ErrorView::MissingChild { node: "validate"@, child: "errorMessage"@ }),
        ),
        (first_elem(e.children@, "errorMessage"@) is Some) ==> spec_parse_validate(e) is Ok,
{
}

} // verus!
