//! A viewing group layer of the portrayal catalogue: a named bundle of viewing groups.

use crate::error::{reflects, ErrorView, S100Error};
use crate::portrayal::catalog_item::CatalogItem;
use crate::portrayal::description::{
    description_val_fn, spec_parse_description, Description, DescriptionView,
};
use crate::xml::{
    attr_of, err_from, first_err, list_from, seq_deep_view, tagged_list, text_val_fn, Element,
};
use vstd::prelude::*;

verus! {

broadcast use {
    crate::xml::lemma_acc_step,
    crate::xml::lemma_acc_done,
    crate::xml::lemma_seq_deep_view_push,
};

/// A `viewingGroupLayer` item of the portrayal catalogue: an identifier, multilingual
/// descriptions, and the references it gathers under `viewingGroup` children.
#[derive(Clone, Debug)]
pub struct ViewingGroupLayer {
    id: String,
    descriptions: Vec<Description>,
    viewing_groups: Vec<String>,
}

/// The mathematical value of a [`ViewingGroupLayer`].
pub ghost struct ViewingGroupLayerView {
    pub id: Seq<char>,
    pub descriptions: Seq<DescriptionView>,
    pub viewing_groups: Seq<Seq<char>>,
}

impl View for ViewingGroupLayer {
    type V = ViewingGroupLayerView;

    closed spec fn view(&self) -> ViewingGroupLayerView {
        ViewingGroupLayerView {
            id: self.id@,
            descriptions: seq_deep_view(self.descriptions@),
            viewing_groups: seq_deep_view(self.viewing_groups@),
        }
    }
}

impl DeepView for ViewingGroupLayer {
    type V = ViewingGroupLayerView;

    open spec fn deep_view(&self) -> ViewingGroupLayerView {
        self.view()
    }
}

/// Classifies one child of a `viewingGroupLayer` element. The parser is strict; a nested
/// description's own error propagates unchanged.
pub open spec fn viewing_group_layer_child_err(c: Element) -> Option<ErrorView> {
    if c.tag@ == "description"@ {
        match spec_parse_description(c) {
            Ok(_) => None,
            Err(e) => Some(e),
        }
    } else if c.tag@ == "viewingGroup"@ {
        None
    } else {
        Some(ErrorView::InvalidChild { parent: "viewingGroupLayer"@, child: c.tag@ })
    }
}

/// The child classification of `viewingGroupLayer`, as one reusable value.
pub open spec fn viewing_group_layer_child_fn() -> spec_fn(Element) -> Option<ErrorView> {
    |c: Element| viewing_group_layer_child_err(c)
}

/// What parsing a `viewingGroupLayer` element yields: the `id` attribute, the parsed
/// `description` children, and the texts of the `viewingGroup` children, both in
/// document order; otherwise the first error, with a missing `id` reported
/// before the pass.
pub open spec fn spec_parse_viewing_group_layer(e: Element) -> Result<ViewingGroupLayerView, ErrorView> {
    let cs = e.children@;
    if e.tag@ != "viewingGroupLayer"@ {
        Err(ErrorView::UnexpectedNodeName { expected: "viewingGroupLayer"@, actual: e.tag@ })
    } else if attr_of(e.attributes@, "id"@) is None {
        Err(ErrorView::MissingAttribute { node: "viewingGroupLayer"@, attribute: "id"@ })
    } else if first_err(cs, viewing_group_layer_child_fn()) is Some {
        Err(first_err(cs, viewing_group_layer_child_fn())->Some_0)
    } else {
        Ok(
            ViewingGroupLayerView {
                id: attr_of(e.attributes@, "id"@)->Some_0,
                descriptions: tagged_list(cs, "description"@, description_val_fn()),
                viewing_groups: tagged_list(cs, "viewingGroup"@, text_val_fn()),
            },
        )
    }
}

impl ViewingGroupLayer {
    /// Parses one `viewingGroupLayer` element in a single pass over its children.
    #[verifier::loop_isolation(false)]
    pub fn parse(node: &Element) -> (r: Result<ViewingGroupLayer, S100Error>)
        ensures
            reflects::<ViewingGroupLayer>(r, spec_parse_viewing_group_layer(*node)),
    {
        proof {
            reveal_strlit("description");
            reveal_strlit("viewingGroup");
            assert("description"@.len() == 11);
            assert("viewingGroup"@.len() == 12);
        }
        if !crate::str_eq(node.tag.as_str(), "viewingGroupLayer") {
            return Err(S100Error::unexpected_node_name("viewingGroupLayer", &node.tag));
        }
        let id = match node.attribute("id") {
            Some(v) => v.clone(),
            None => {
                return Err(S100Error::missing_attribute(&node.tag, "id"));
            },
        };
        let ghost cs = node.children@;
        let mut descriptions: Vec<Description> = Vec::new();
        let mut viewing_groups: Vec<String> = Vec::new();
        let mut i: usize = 0;
        while i < node.children.len()
            invariant
                0 <= i <= cs.len(),
                first_err(cs, viewing_group_layer_child_fn()) == err_from(cs, viewing_group_layer_child_fn(), i as int),
                tagged_list(cs, "description"@, description_val_fn()) == seq_deep_view(
                    descriptions@,
                ) + list_from(cs, "description"@, description_val_fn(), i as int),
                tagged_list(cs, "viewingGroup"@, text_val_fn()) == seq_deep_view(viewing_groups@)
                    + list_from(cs, "viewingGroup"@, text_val_fn(), i as int),
            decreases cs.len() - i,
        {
            let c = &node.children[i];
            if crate::str_eq(c.tag.as_str(), "description") {
                match Description::parse(c) {
                    Ok(d) => {
                        descriptions.push(d);
                    },
                    Err(e) => {
                        return Err(e);
                    },
                }
            } else if crate::str_eq(c.tag.as_str(), "viewingGroup") {
                viewing_groups.push(c.text.clone());
            } else {
                return Err(S100Error::invalid_child(&node.tag, &c.tag));
            }
            i = i + 1;
        }
        Ok(ViewingGroupLayer { id, descriptions, viewing_groups })
    }

    /// The viewing groups the layer bundles, in document order.
    pub fn viewing_groups(&self) -> (r: &[String])
        ensures
            seq_deep_view(r@) == self@.viewing_groups,
    {
        self.viewing_groups.as_slice()
    }
}

impl CatalogItem for ViewingGroupLayer {
    open spec fn spec_id(&self) -> Seq<char> {
        self@.id
    }

    open spec fn spec_descriptions(&self) -> Seq<DescriptionView> {
        self@.descriptions
    }

    fn id(&self) -> (r: &str) {
        self.id.as_str()
    }

    fn descriptions(&self) -> (r: &[Description]) {
        self.descriptions.as_slice()
    }
}


/// An unrecognized child tag under this strict parser is rejected, naming
/// both the parent tag and the offending child tag: the first child outside
/// the table decides the outcome.
pub proof fn lemma_viewing_group_layer_rejects_unknown_child(e: Element, j: int)
    requires
        e.tag@ == "viewingGroupLayer"@,
        attr_of(e.attributes@, "id"@) is Some,
        0 <= j < e.children@.len(),
        !(e.children@[j].tag@ == "description"@ || e.children@[j].tag@ == "viewingGroup"@),
        forall|k: int| 0 <= k < j ==> viewing_group_layer_child_err(#[trigger] e.children@[k]) is None,
    ensures
        spec_parse_viewing_group_layer(e) == Err::<ViewingGroupLayerView, ErrorView>(
            ErrorView::InvalidChild { parent: "viewingGroupLayer"@, child: e.children@[j].tag@ },
        ),
{
    crate::xml::lemma_err_from_at(e.children@, viewing_group_layer_child_fn(), 0, j);
}

} // verus!
