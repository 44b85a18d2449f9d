//! The closed code-list of rule kinds a rule file may hold.

use crate::error::{reflects, ErrorView, S100Error};
use vstd::prelude::*;

verus! {

/// The kind of template a rule file holds.
#[derive(Clone, Copy, Debug, Eq, PartialEq, Structural)]
pub enum RuleType {
    SubTemplate,
    TopLevelTemplate,
}

impl View for RuleType {
    type V = RuleType;

    open spec fn view(&self) -> RuleType {
        *self
    }
}

impl DeepView for RuleType {
    type V = RuleType;

    open spec fn deep_view(&self) -> RuleType {
        *self
    }
}

/// The decoding table of the `ruleType` code-list: exact, case-sensitive
/// matches only; any other string is rejected as `InvalidEnum`.
pub open spec fn spec_decode_rule_type(s: Seq<char>) -> Result<RuleType, ErrorView> {
    if s == "SubTemplate"@ {
        Ok(RuleType::SubTemplate)
    } else if s == "TopLevelTemplate"@ {
        Ok(RuleType::TopLevelTemplate)
    } else {
        Err(ErrorView::InvalidEnum { field: "ruleType"@, value: s })
    }
}

/// Decoding fails exactly on the strings outside the table, and the error
/// names the field and the received string.
pub proof fn lemma_decode_rule_type_total(s: Seq<char>)
    ensures
        spec_decode_rule_type(s) is Err <==> !(s == "SubTemplate"@ || s == "TopLevelTemplate"@),
        spec_decode_rule_type(s) is Err ==> spec_decode_rule_type(s) == Err::<
            RuleType,
            ErrorView,
        >(ErrorView::InvalidEnum { field: "ruleType"@, value: s }),
{
}

impl RuleType {
    /// Decodes one string of the `ruleType` code-list.
    pub fn from_str(input: &str) -> (r: Result<RuleType, S100Error>)
        ensures
            reflects::<RuleType>(r, spec_decode_rule_type(input@)),
    {
        if crate::str_eq(input, "SubTemplate") {
            Ok(RuleType::SubTemplate)
        } else if crate::str_eq(input, "TopLevelTemplate") {
            Ok(RuleType::TopLevelTemplate)
        } else {
            Err(S100Error::InvalidEnum { field: "ruleType".to_owned(), value: input.to_owned() })
        }
    }
}

} // verus!
