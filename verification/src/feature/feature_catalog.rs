//! The feature catalogue document: the root reader that collects every
//! simple attribute defined by a product specification.

use crate::error::{reflects, ErrorView, S100Error};
use crate::feature::simple_attribute::{
    spec_parse_simple_attribute, SimpleAttribute, SimpleAttributeView,
};
use crate::xml::{
    all_from, err_from, first_err, group_from, group_list, lemma_skip_unmatched, seq_deep_view,
    with_tag, Element,
};
use vstd::prelude::*;

verus! {

broadcast use {
    crate::xml::lemma_acc_step,
    crate::xml::lemma_acc_done,
    crate::xml::lemma_seq_deep_view_push,
};

/// An `S100_FC_FeatureCatalogue` document, reduced to its simple attributes.
pub struct FeatureCatalog {
    simple_attributes: Vec<SimpleAttribute>,
}

/// The mathematical value of a [`FeatureCatalog`].
pub ghost struct FeatureCatalogView {
    pub simple_attributes: Seq<SimpleAttributeView>,
}

impl View for FeatureCatalog {
    type V = FeatureCatalogView;

    closed spec fn view(&self) -> FeatureCatalogView {
        FeatureCatalogView { simple_attributes: seq_deep_view(self.simple_attributes@) }
    }
}

impl DeepView for FeatureCatalog {
    type V = FeatureCatalogView;

    open spec fn deep_view(&self) -> FeatureCatalogView {
        self.view()
    }
}

/// The error, if any, of parsing one member of an
/// `S100_FC_SimpleAttributes` group.
pub open spec fn feature_member_err(c: Element) -> Option<ErrorView> {
    match spec_parse_simple_attribute(c) {
        Ok(_) => None,
        Err(e) => Some(e),
    }
}

/// The member classification of `S100_FC_SimpleAttributes`, as one reusable
/// value.
pub open spec fn feature_member_fn() -> spec_fn(Element) -> Option<ErrorView> {
    |c: Element| feature_member_err(c)
}

/// The record one member of an `S100_FC_SimpleAttributes` group contributes.
pub open spec fn simple_attribute_val_fn() -> spec_fn(Element) -> SimpleAttributeView {
    |c: Element| spec_parse_simple_attribute(c)->Ok_0
}

/// Classifies one child of the root. This aggregator is lenient: a group
/// tag outside its table is ignored; the members of a recognized group are
/// parsed and their errors propagate unchanged.
pub open spec fn feature_catalog_child_err(c: Element) -> Option<ErrorView> {
    if c.tag@ == "S100_FC_SimpleAttributes"@ {
        first_err(c.children@, feature_member_fn())
    } else {
        None
    }
}

/// The child classification of the feature catalogue root, as one reusable
/// value.
pub open spec fn feature_catalog_child_fn() -> spec_fn(Element) -> Option<ErrorView> {
    |c: Element| feature_catalog_child_err(c)
}

/// What parsing an `S100_FC_FeatureCatalogue` root yields: every member of
/// every `S100_FC_SimpleAttributes` group, parsed in document order; or the
/// first error any member raises, unchanged.
pub open spec fn spec_parse_feature_catalog(e: Element) -> Result<FeatureCatalogView, ErrorView> {
    let cs = e.children@;
    if e.tag@ != "S100_FC_FeatureCatalogue"@ {
        Err(
            ErrorView::UnexpectedNodeName {
                expected: "S100_FC_FeatureCatalogue"@,
                actual: e.tag@,
            },
        )
    } else if first_err(cs, feature_catalog_child_fn()) is Some {
        Err(first_err(cs, feature_catalog_child_fn())->Some_0)
    } else {
        Ok(
            FeatureCatalogView {
                simple_attributes: group_list(
                    cs,
                    "S100_FC_SimpleAttributes"@,
                    simple_attribute_val_fn(),
                ),
            },
        )
    }
}

/// Parsing is a pure function of the element tree: two equal trees yield
/// field-for-field equal catalogues (or the same error).
pub proof fn lemma_feature_catalog_deterministic(e1: Element, e2: Element)
    requires
        e1 == e2,
    ensures
        spec_parse_feature_catalog(e1) == spec_parse_feature_catalog(e2),
{
}

impl FeatureCatalog {
    /// Parses an `S100_FC_FeatureCatalogue` root element.
    #[verifier::loop_isolation(false)]
    pub fn parse(node: &Element) -> (r: Result<FeatureCatalog, S100Error>)
        ensures
            reflects::<FeatureCatalog>(r, spec_parse_feature_catalog(*node)),
    {
        if !crate::str_eq(node.tag.as_str(), "S100_FC_FeatureCatalogue") {
            return Err(S100Error::unexpected_node_name("S100_FC_FeatureCatalogue", &node.tag));
        }
        let ghost cs = node.children@;
        let mut simple_attributes: Vec<SimpleAttribute> = Vec::new();
        let mut i: usize = 0;
        while i < node.children.len()
            invariant
                0 <= i <= cs.len(),
                first_err(cs, feature_catalog_child_fn()) == err_from(
                    cs,
                    feature_catalog_child_fn(),
                    i as int,
                ),
                group_list(cs, "S100_FC_SimpleAttributes"@, simple_attribute_val_fn())
                    == seq_deep_view(simple_attributes@) + group_from(
                    cs,
                    "S100_FC_SimpleAttributes"@,
                    simple_attribute_val_fn(),
                    i as int,
                ),
            decreases cs.len() - i,
        {
            let c = &node.children[i];
            if crate::str_eq(c.tag.as_str(), "S100_FC_SimpleAttributes") {
                let mut j: usize = 0;
                while j < c.children.len()
                    invariant
                        0 <= j <= c.children@.len(),
                        first_err(c.children@, feature_member_fn()) == err_from(
                            c.children@,
                            feature_member_fn(),
                            j as int,
                        ),
                        group_list(cs, "S100_FC_SimpleAttributes"@, simple_attribute_val_fn())
                            == seq_deep_view(simple_attributes@) + all_from(
                            c.children@,
                            simple_attribute_val_fn(),
                            j as int,
                        ) + group_from(
                            cs,
                            "S100_FC_SimpleAttributes"@,
                            simple_attribute_val_fn(),
                            i as int + 1,
                        ),
                    decreases c.children@.len() - j,
                {
                    let m = &c.children[j];
                    match SimpleAttribute::parse(m) {
                        Ok(sa) => {
                            simple_attributes.push(sa);
                        },
                        Err(e) => {
                            return Err(e);
                        },
                    }
                    j = j + 1;
                }
            } else {
                // This aggregator is lenient: an unrecognized group is skipped.
            }
            i = i + 1;
        }
        Ok(FeatureCatalog { simple_attributes })
    }

    /// The simple attributes of the catalogue, in document order.
    pub fn simple_attributes(&self) -> (r: &[SimpleAttribute])
        ensures
            seq_deep_view(r@) == self@.simple_attributes,
    {
        self.simple_attributes.as_slice()
    }
}


/// An unrecognized child under this lenient aggregator raises no error: the
/// input is accepted and the unrecognized child is ignored.
pub proof fn lemma_feature_catalog_ignores_unknown_child(c: Element)
    requires
        !(c.tag@ == "S100_FC_SimpleAttributes"@),
    ensures
        feature_catalog_child_err(c) is None,
{
}


/// The lenient side of strictness: a feature catalogue parses to the very
/// same value as the same document with every unrecognized root child
/// removed — unknown groups are accepted and ignored, never an error.
pub proof fn lemma_feature_catalog_skips_unknown_groups(e1: Element, e2: Element)
    requires
        e1.tag@ == "S100_FC_FeatureCatalogue"@,
        e2.tag@ == "S100_FC_FeatureCatalogue"@,
        e2.children@ == with_tag(e1.children@, "S100_FC_SimpleAttributes"@),
    ensures
        spec_parse_feature_catalog(e1) == spec_parse_feature_catalog(e2),
{
    lemma_skip_unmatched(
        e1.children@,
        "S100_FC_SimpleAttributes"@,
        feature_catalog_child_fn(),
        simple_attribute_val_fn(),
    );
}

} // verus!
