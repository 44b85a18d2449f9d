//! A viewing group of the portrayal catalogue: a switchable set of displayed features.

use crate::error::{reflects, ErrorView, S100Error};
use crate::portrayal::catalog_item::CatalogItem;
use crate::portrayal::description::{
    description_val_fn, spec_parse_description, Description, DescriptionView,
};
use crate::xml::{
    attr_of, err_from, first_err, list_from, seq_deep_view, tagged_list, Element,
};
use vstd::prelude::*;

verus! {

broadcast use {
    crate::xml::lemma_acc_step,
    crate::xml::lemma_acc_done,
    crate::xml::lemma_seq_deep_view_push,
};

/// A `viewingGroup` item of the portrayal catalogue: an identifier plus multilingual
/// descriptions.
#[derive(Clone, Debug)]
pub struct ViewingGroup {
    id: String,
    descriptions: Vec<Description>,
}

/// The mathematical value of a [`ViewingGroup`].
pub ghost struct ViewingGroupView {
    pub id: Seq<char>,
    pub descriptions: Seq<DescriptionView>,
}

impl View for ViewingGroup {
    type V = ViewingGroupView;

    closed spec fn view(&self) -> ViewingGroupView {
        ViewingGroupView { id: self.id@, descriptions: seq_deep_view(self.descriptions@) }
    }
}

impl DeepView for ViewingGroup {
    type V = ViewingGroupView;

    open spec fn deep_view(&self) -> ViewingGroupView {
        self.view()
    }
}

/// Classifies one child of a `viewingGroup` element. The parser is strict; a nested
/// description's own error propagates unchanged.
pub open spec fn viewing_group_child_err(c: Element) -> Option<ErrorView> {
    if c.tag@ == "description"@ {
        match spec_parse_description(c) {
            Ok(_) => None,
            Err(e) => Some(e),
        }
    } else {
        Some(ErrorView::InvalidChild { parent: "viewingGroup"@, child: c.tag@ })
    }
}

/// The child classification of `viewingGroup`, as one reusable value.
pub open spec fn viewing_group_child_fn() -> spec_fn(Element) -> Option<ErrorView> {
    |c: Element| viewing_group_child_err(c)
}

/// What parsing a `viewingGroup` element yields: the `id` attribute and the parsed
/// `description` children in document order; otherwise the first error,
/// with a missing `id` reported before the pass.
pub open spec fn spec_parse_viewing_group(e: Element) -> Result<ViewingGroupView, ErrorView> {
    let cs = e.children@;
    if e.tag@ != "viewingGroup"@ {
        Err(ErrorView::UnexpectedNodeName { expected: "viewingGroup"@, actual: e.tag@ })
    } else if attr_of(e.attributes@, "id"@) is None {
        Err(ErrorView::MissingAttribute { node: "viewingGroup"@, attribute: "id"@ })
    } else if first_err(cs, viewing_group_child_fn()) is Some {
        Err(first_err(cs, viewing_group_child_fn())->Some_0)
    } else {
        Ok(
            ViewingGroupView {
                id: attr_of(e.attributes@, "id"@)->Some_0,
                descriptions: tagged_list(cs, "description"@, description_val_fn()),
            },
        )
    }
}

impl ViewingGroup {
    /// Parses one `viewingGroup` element in a single pass over its children.
    #[verifier::loop_isolation(false)]
    pub fn parse(node: &Element) -> (r: Result<ViewingGroup, S100Error>)
        ensures
            reflects::<ViewingGroup>(r, spec_parse_viewing_group(*node)),
    {
        if !crate::str_eq(node.tag.as_str(), "viewingGroup") {
            return Err(S100Error::unexpected_node_name("viewingGroup", &node.tag));
        }
        let id = match node.attribute("id") {
            Some(v) => v.clone(),
            None => {
                return Err(S100Error::missing_attribute(&node.tag, "id"));
            },
        };
        let ghost cs = node.children@;
        let mut descriptions: Vec<Description> = Vec::new();
        let mut i: usize = 0;
        while i < node.children.len()
            invariant
                0 <= i <= cs.len(),
                first_err(cs, viewing_group_child_fn()) == err_from(cs, viewing_group_child_fn(), i as int),
                tagged_list(cs, "description"@, description_val_fn()) == seq_deep_view(
                    descriptions@,
                ) + list_from(cs, "description"@, description_val_fn(), i as int),
            decreases cs.len() - i,
        {
            let c = &node.children[i];
            if crate::str_eq(c.tag.as_str(), "description") {
                match Description::parse(c) {
                    Ok(d) => {
                        descriptions.push(d);
                    },
                    Err(e) => {
                        return Err(e);
                    },
                }
            } else {
                return Err(S100Error::invalid_child(&node.tag, &c.tag));
            }
            i = i + 1;
        }
        Ok(ViewingGroup { id, descriptions })
    }
}

impl CatalogItem for ViewingGroup {
    open spec fn spec_id(&self) -> Seq<char> {
        self@.id
    }

    open spec fn spec_descriptions(&self) -> Seq<DescriptionView> {
        self@.descriptions
    }

    fn id(&self) -> (r: &str) {
        self.id.as_str()
    }

    fn descriptions(&self) -> (r: &[Description]) {
        self.descriptions.as_slice()
    }
}


/// An unrecognized child tag under this strict parser is rejected, naming
/// both the parent tag and the offending child tag: the first child outside
/// the table decides the outcome.
pub proof fn lemma_viewing_group_rejects_unknown_child(e: Element, j: int)
    requires
        e.tag@ == "viewingGroup"@,
        attr_of(e.attributes@, "id"@) is Some,
        0 <= j < e.children@.len(),
        !(e.children@[j].tag@ == "description"@),
        forall|k: int| 0 <= k < j ==> viewing_group_child_err(#[trigger] e.children@[k]) is None,
    ensures
        spec_parse_viewing_group(e) == Err::<ViewingGroupView, ErrorView>(
            ErrorView::InvalidChild { parent: "viewingGroup"@, child: e.children@[j].tag@ },
        ),
{
    crate::xml::lemma_err_from_at(e.children@, viewing_group_child_fn(), 0, j);
}

} // verus!
