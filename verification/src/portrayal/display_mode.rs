//! A display mode of the portrayal catalogue: a named bundle of viewing group layers.

use crate::error::{reflects, ErrorView, S100Error};
use crate::portrayal::catalog_item::CatalogItem;
use crate::portrayal::description::{
    description_val_fn, spec_parse_description, Description, DescriptionView,
};
use crate::xml::{
    attr_of, err_from, first_err, list_from, seq_deep_view, tagged_list, text_val_fn, Element,
};
use vstd::prelude::*;

verus! {

broadcast use {
    crate::xml::lemma_acc_step,
    crate::xml::lemma_acc_done,
    crate::xml::lemma_seq_deep_view_push,
};

/// A `displayMode` item of the portrayal catalogue: an identifier, multilingual
/// descriptions, and the references it gathers under `viewingGroupLayer` children.
#[derive(Clone, Debug)]
pub struct DisplayMode {
    id: String,
    descriptions: Vec<Description>,
    viewing_group_layers: Vec<String>,
}

/// The mathematical value of a [`DisplayMode`].
pub ghost struct DisplayModeView {
    pub id: Seq<char>,
    pub descriptions: Seq<DescriptionView>,
    pub viewing_group_layers: Seq<Seq<char>>,
}

impl View for DisplayMode {
    type V = DisplayModeView;

    closed spec fn view(&self) -> DisplayModeView {
        DisplayModeView {
            id: self.id@,
            descriptions: seq_deep_view(self.descriptions@),
            viewing_group_layers: seq_deep_view(self.viewing_group_layers@),
        }
    }
}

impl DeepView for DisplayMode {
    type V = DisplayModeView;

    open spec fn deep_view(&self) -> DisplayModeView {
        self.view()
    }
}

/// Classifies one child of a `displayMode` element. The parser is strict; a nested
/// description's own error propagates unchanged.
pub open spec fn display_mode_child_err(c: Element) -> Option<ErrorView> {
    if c.tag@ == "description"@ {
        match spec_parse_description(c) {
            Ok(_) => None,
            Err(e) => Some(e),
        }
    } else if c.tag@ == "viewingGroupLayer"@ {
        None
    } else {
        Some(ErrorView::InvalidChild { parent: "displayMode"@, child: c.tag@ })
    }
}

/// The child classification of `displayMode`, as one reusable value.
pub open spec fn display_mode_child_fn() -> spec_fn(Element) -> Option<ErrorView> {
    |c: Element| display_mode_child_err(c)
}

/// What parsing a `displayMode` element yields: the `id` attribute, the parsed
/// `description` children, and the texts of the `viewingGroupLayer` children, both in
/// document order; otherwise the first error, with a missing `id` reported
/// before the pass.
pub open spec fn spec_parse_display_mode(e: Element) -> Result<DisplayModeView, ErrorView> {
    let cs = e.children@;
    if e.tag@ != "displayMode"@ {
        Err(ErrorView::UnexpectedNodeName { expected: "displayMode"@, actual: e.tag@ })
    } else if attr_of(e.attributes@, "id"@) is None {
        Err(ErrorView::MissingAttribute { node: "displayMode"@, attribute: "id"@ })
    } else if first_err(cs, display_mode_child_fn()) is Some {
        Err(first_err(cs, display_mode_child_fn())->Some_0)
    } else {
        Ok(
            DisplayModeView {
                id: attr_of(e.attributes@, "id"@)->Some_0,
                descriptions: tagged_list(cs, "description"@, description_val_fn()),
                viewing_group_layers: tagged_list(cs, "viewingGroupLayer"@, text_val_fn()),
            },
        )
    }
}

impl DisplayMode {
    /// Parses one `displayMode` element in a single pass over its children.
    #[verifier::loop_isolation(false)]
    pub fn parse(node: &Element) -> (r: Result<DisplayMode, S100Error>)
        ensures
            reflects::<DisplayMode>(r, spec_parse_display_mode(*node)),
    {
        proof {
            reveal_strlit("description");
            reveal_strlit("viewingGroupLayer");
            assert("description"@.len() == 11);
            assert("viewingGroupLayer"@.len() == 17);
        }
        if !crate::str_eq(node.tag.as_str(), "displayMode") {
            return Err(S100Error::unexpected_node_name("displayMode", &node.tag));
        }
        let id = match node.attribute("id") {
            Some(v) => v.clone(),
            None => {
                return Err(S100Error::missing_attribute(&node.tag, "id"));
            },
        };
        let ghost cs = node.children@;
        let mut descriptions: Vec<Description> = Vec::new();
        let mut viewing_group_layers: Vec<String> = Vec::new();
        let mut i: usize = 0;
        while i < node.children.len()
            invariant
                0 <= i <= cs.len(),
                first_err(cs, display_mode_child_fn()) == err_from(cs, display_mode_child_fn(), i as int),
                tagged_list(cs, "description"@, description_val_fn()) == seq_deep_view(
                    descriptions@,
                ) + list_from(cs, "description"@, description_val_fn(), i as int),
                tagged_list(cs, "viewingGroupLayer"@, text_val_fn()) == seq_deep_view(viewing_group_layers@)
                    + list_from(cs, "viewingGroupLayer"@, text_val_fn(), i as int),
            decreases cs.len() - i,
        {
            let c = &node.children[i];
            if crate::str_eq(c.tag.as_str(), "description") {
                match Description::parse(c) {
                    Ok(d) => {
                        descriptions.push(d);
                    },
                    Err(e) => {
                        return Err(e);
                    },
                }
            } else if crate::str_eq(c.tag.as_str(), "viewingGroupLayer") {
                viewing_group_layers.push(c.text.clone());
            } else {
                return Err(S100Error::invalid_child(&node.tag, &c.tag));
            }
            i = i + 1;
        }
        Ok(DisplayMode { id, descriptions, viewing_group_layers })
    }

    /// The viewing group layers the mode switches on, in document order.
    pub fn viewing_group_layers(&self) -> (r: &[String])
        ensures
            seq_deep_view(r@) == self@.viewing_group_layers,
    {
        self.viewing_group_layers.as_slice()
    }
}

impl CatalogItem for DisplayMode {
    open spec fn spec_id(&self) -> Seq<char> {
        self@.id
    }

    open spec fn spec_descriptions(&self) -> Seq<DescriptionView> {
        self@.descriptions
    }

    fn id(&self) -> (r: &str) {
        self.id.as_str()
    }

    fn descriptions(&self) -> (r: &[Description]) {
        self.descriptions.as_slice()
    }
}


/// An unrecognized child tag under this strict parser is rejected, naming
/// both the parent tag and the offending child tag: the first child outside
/// the table decides the outcome.
pub proof fn lemma_display_mode_rejects_unknown_child(e: Element, j: int)
    requires
        e.tag@ == "displayMode"@,
        attr_of(e.attributes@, "id"@) is Some,
        0 <= j < e.children@.len(),
        !(e.children@[j].tag@ == "description"@ || e.children@[j].tag@ == "viewingGroupLayer"@),
        forall|k: int| 0 <= k < j ==> display_mode_child_err(#[trigger] e.children@[k]) is None,
    ensures
        spec_parse_display_mode(e) == Err::<DisplayModeView, ErrorView>(
            ErrorView::InvalidChild { parent: "displayMode"@, child: e.children@[j].tag@ },
        ),
{
    crate::xml::lemma_err_from_at(e.children@, display_mode_child_fn(), 0, j);
}

} // verus!
