//! The exchange catalogue document: the root reader that collects the
//! discovery metadata of every dataset in an exchange set.

use crate::error::{reflects, ErrorView, S100Error};
use crate::metadata::dataset_discovery_metadata::{
    spec_parse_dataset_discovery, DatasetDiscoveryMetadata, DatasetDiscoveryMetadataView,
};
use crate::xml::{
    all_from, err_from, first_err, group_from, group_list, lemma_skip_unmatched, seq_deep_view,
    with_tag, Element,
};
use vstd::prelude::*;

verus! {

broadcast use {
    crate::xml::lemma_acc_step,
    crate::xml::lemma_acc_done,
    crate::xml::lemma_seq_deep_view_push,
};

/// An `S100_ExchangeCatalogue` document, reduced to its dataset discovery
/// metadata.
pub struct ExchangeCatalog {
    dataset_discovery_metadata: Vec<DatasetDiscoveryMetadata>,
}

/// The mathematical value of an [`ExchangeCatalog`].
pub ghost struct ExchangeCatalogView {
    pub dataset_discovery_metadata: Seq<DatasetDiscoveryMetadataView>,
}

impl View for ExchangeCatalog {
    type V = ExchangeCatalogView;

    closed spec fn view(&self) -> ExchangeCatalogView {
        ExchangeCatalogView {
            dataset_discovery_metadata: seq_deep_view(self.dataset_discovery_metadata@),
        }
    }
}

impl DeepView for ExchangeCatalog {
    type V = ExchangeCatalogView;

    open spec fn deep_view(&self) -> ExchangeCatalogView {
        self.view()
    }
}

/// The error, if any, of parsing one member of a `datasetDiscoveryMetadata`
/// group.
pub open spec fn exchange_member_err(c: Element) -> Option<ErrorView> {
    match spec_parse_dataset_discovery(c) {
        Ok(_) => None,
        Err(e) => Some(e),
    }
}

/// The member classification of `datasetDiscoveryMetadata`, as one reusable
/// value.
pub open spec fn exchange_member_fn() -> spec_fn(Element) -> Option<ErrorView> {
    |c: Element| exchange_member_err(c)
}

/// The record one member of a `datasetDiscoveryMetadata` group contributes.
pub open spec fn dataset_discovery_val_fn() -> spec_fn(Element) -> DatasetDiscoveryMetadataView {
    |c: Element| spec_parse_dataset_discovery(c)->Ok_0
}

/// Classifies one child of the root. This aggregator is lenient: a group
/// tag outside its table is ignored; the members of a recognized group are
/// parsed and their errors propagate unchanged.
pub open spec fn exchange_catalog_child_err(c: Element) -> Option<ErrorView> {
    if c.tag@ == "datasetDiscoveryMetadata"@ {
        first_err(c.children@, exchange_member_fn())
    } else {
        None
    }
}

/// The child classification of the exchange catalogue root, as one reusable
/// value.
pub open spec fn exchange_catalog_child_fn() -> spec_fn(Element) -> Option<ErrorView> {
    |c: Element| exchange_catalog_child_err(c)
}

/// What parsing an `S100_ExchangeCatalogue` root yields: every member of
/// every `datasetDiscoveryMetadata` group, parsed in document order; or the
/// first error any member raises, unchanged.
pub open spec fn spec_parse_exchange_catalog(e: Element) -> Result<ExchangeCatalogView, ErrorView> {
    let cs = e.children@;
    if e.tag@ != "S100_ExchangeCatalogue"@ {
        Err(
            ErrorView::UnexpectedNodeName { expected: "S100_ExchangeCatalogue"@, actual: e.tag@ },
        )
    } else if first_err(cs, exchange_catalog_child_fn()) is Some {
        Err(first_err(cs, exchange_catalog_child_fn())->Some_0)
    } else {
        Ok(
            ExchangeCatalogView {
                dataset_discovery_metadata: group_list(
                    cs,
                    "datasetDiscoveryMetadata"@,
                    dataset_discovery_val_fn(),
                ),
            },
        )
    }
}

/// Parsing is a pure function of the element tree: two equal trees yield
/// field-for-field equal catalogues (or the same error).
pub proof fn lemma_exchange_catalog_deterministic(e1: Element, e2: Element)
    requires
        e1 == e2,
    ensures
        spec_parse_exchange_catalog(e1) == spec_parse_exchange_catalog(e2),
{
}

impl ExchangeCatalog {
    /// Parses an `S100_ExchangeCatalogue` root element.
    #[verifier::loop_isolation(false)]
    pub fn parse(node: &Element) -> (r: Result<ExchangeCatalog, S100Error>)
        ensures
            reflects::<ExchangeCatalog>(r, spec_parse_exchange_catalog(*node)),
    {
        if !crate::str_eq(node.tag.as_str(), "S100_ExchangeCatalogue") {
            return Err(S100Error::unexpected_node_name("S100_ExchangeCatalogue", &node.tag));
        }
        let ghost cs = node.children@;
        let mut dataset_discovery_metadata: Vec<DatasetDiscoveryMetadata> = Vec::new();
        let mut i: usize = 0;
        while i < node.children.len()
            invariant
                0 <= i <= cs.len(),
                first_err(cs, exchange_catalog_child_fn()) == err_from(
                    cs,
                    exchange_catalog_child_fn(),
                    i as int,
                ),
                group_list(cs, "datasetDiscoveryMetadata"@, dataset_discovery_val_fn())
                    == seq_deep_view(dataset_discovery_metadata@) + group_from(
                    cs,
                    "datasetDiscoveryMetadata"@,
                    dataset_discovery_val_fn(),
                    i as int,
                ),
            decreases cs.len() - i,
        {
            let c = &node.children[i];
            if crate::str_eq(c.tag.as_str(), "datasetDiscoveryMetadata") {
                let mut j: usize = 0;
                while j < c.children.len()
                    invariant
                        0 <= j <= c.children@.len(),
                        first_err(c.children@, exchange_member_fn()) == err_from(
                            c.children@,
                            exchange_member_fn(),
                            j as int,
                        ),
                        group_list(cs, "datasetDiscoveryMetadata"@, dataset_discovery_val_fn())
                            == seq_deep_view(dataset_discovery_metadata@) + all_from(
                            c.children@,
                            dataset_discovery_val_fn(),
                            j as int,
                        ) + group_from(
                            cs,
                            "datasetDiscoveryMetadata"@,
                            dataset_discovery_val_fn(),
                            i as int + 1,
                        ),
                    decreases c.children@.len() - j,
                {
                    let m = &c.children[j];
                    match DatasetDiscoveryMetadata::parse(m) {
                        Ok(d) => {
                            dataset_discovery_metadata.push(d);
                        },
                        Err(e) => {
                            return Err(e);
                        },
                    }
                    j = j + 1;
                }
            } else {
                // This aggregator is lenient: an unrecognized group is skipped.
            }
            i = i + 1;
        }
        Ok(ExchangeCatalog { dataset_discovery_metadata })
    }

    /// The discovery metadata of the catalogue, in document order.
    pub fn dataset_discovery_metadata(&self) -> (r: &[DatasetDiscoveryMetadata])
        ensures
            seq_deep_view(r@) == self@.dataset_discovery_metadata,
    {
        self.dataset_discovery_metadata.as_slice()
    }
}


/// An unrecognized child under this lenient aggregator raises no error: the
/// input is accepted and the unrecognized child is ignored.
pub proof fn lemma_exchange_catalog_ignores_unknown_child(c: Element)
    requires
        !(c.tag@ == "datasetDiscoveryMetadata"@),
    ensures
        exchange_catalog_child_err(c) is None,
{
}


/// The lenient side of strictness: an exchange catalogue parses to the very
/// same value as the same document with every unrecognized root child
/// removed — unknown groups are accepted and ignored, never an error.
pub proof fn lemma_exchange_catalog_skips_unknown_groups(e1: Element, e2: Element)
    requires
        e1.tag@ == "S100_ExchangeCatalogue"@,
        e2.tag@ == "S100_ExchangeCatalogue"@,
        e2.children@ == with_tag(e1.children@, "datasetDiscoveryMetadata"@),
    ensures
        spec_parse_exchange_catalog(e1) == spec_parse_exchange_catalog(e2),
{
    lemma_skip_unmatched(
        e1.children@,
        "datasetDiscoveryMetadata"@,
        exchange_catalog_child_fn(),
        dataset_discovery_val_fn(),
    );
}

} // verus!
