//! An area fill of the portrayal catalogue.

use crate::error::{reflects, ErrorView, S100Error};
use crate::portrayal::catalog_item::{CatalogItem, ExternalFile};
use crate::portrayal::description::{
    description_val_fn, spec_parse_description, Description, DescriptionView,
};
use crate::portrayal::file_format::{spec_decode_file_format, FileFormat};
use crate::portrayal::file_type::{spec_decode_file_type, FileType};
use crate::xml::{
    attr_of, err_from, first_err, first_text, list_from, seq_deep_view, tagged_list, text_from,
    Element,
};
use vstd::prelude::*;

verus! {

broadcast use {
    crate::xml::lemma_acc_step,
    crate::xml::lemma_acc_done,
    crate::xml::lemma_seq_deep_view_push,
};

/// A `areaFill` item of the portrayal catalogue: an identifier, multilingual
/// descriptions, and the external file it references.
#[derive(Clone, Debug)]
pub struct AreaFill {
    id: String,
    descriptions: Vec<Description>,
    file_name: String,
    file_type: FileType,
    file_format: FileFormat,
}

/// The mathematical value of a [`AreaFill`].
pub ghost struct AreaFillView {
    pub id: Seq<char>,
    pub descriptions: Seq<DescriptionView>,
    pub file_name: Seq<char>,
    pub file_type: FileType,
    pub file_format: FileFormat,
}

impl View for AreaFill {
    type V = AreaFillView;

    closed spec fn view(&self) -> AreaFillView {
        AreaFillView {
            id: self.id@,
            descriptions: seq_deep_view(self.descriptions@),
            file_name: self.file_name@,
            file_type: self.file_type,
            file_format: self.file_format,
        }
    }
}

impl DeepView for AreaFill {
    type V = AreaFillView;

    open spec fn deep_view(&self) -> AreaFillView {
        self.view()
    }
}

/// Classifies one child of a `areaFill` element. The parser is strict; nested
/// descriptions and code-list children are validated in place and their
/// errors propagate unchanged.
pub open spec fn area_fill_child_err(c: Element) -> Option<ErrorView> {
    if c.tag@ == "description"@ {
        match spec_parse_description(c) {
            Ok(_) => None,
            Err(e) => Some(e),
        }
    } else if c.tag@ == "fileName"@ {
        None
    } else if c.tag@ == "fileType"@ {
        match spec_decode_file_type(c.text@) {
            Ok(_) => None,
            Err(e) => Some(e),
        }
    } else if c.tag@ == "fileFormat"@ {
        match spec_decode_file_format(c.text@) {
            Ok(_) => None,
            Err(e) => Some(e),
        }
    } else {
        Some(ErrorView::InvalidChild { parent: "areaFill"@, child: c.tag@ })
    }
}

/// The child classification of `areaFill`, as one reusable value.
pub open spec fn area_fill_child_fn() -> spec_fn(Element) -> Option<ErrorView> {
    |c: Element| area_fill_child_err(c)
}

/// What parsing a `areaFill` element yields: the `id` attribute, the parsed
/// `description` children in document order, the text of the first
/// `fileName` child, and the decoded first `fileType` and `fileFormat`
/// children; otherwise the first error, with a missing `id` reported before
/// the pass and missing required children after it, in declared order.
pub open spec fn spec_parse_area_fill(e: Element) -> Result<AreaFillView, ErrorView> {
    let cs = e.children@;
    if e.tag@ != "areaFill"@ {
        Err(ErrorView::UnexpectedNodeName { expected: "areaFill"@, actual: e.tag@ })
    } else if attr_of(e.attributes@, "id"@) is None {
        Err(ErrorView::MissingAttribute { node: "areaFill"@, attribute: "id"@ })
    } else if first_err(cs, area_fill_child_fn()) is Some {
        Err(first_err(cs, area_fill_child_fn())->Some_0)
    } else if first_text(cs, "fileName"@) is None {
        Err(ErrorView::MissingChild { node: "areaFill"@, child: "fileName"@ })
    } else if first_text(cs, "fileType"@) is None {
        Err(ErrorView::MissingChild { node: "areaFill"@, child: "fileType"@ })
    } else if first_text(cs, "fileFormat"@) is None {
        Err(ErrorView::MissingChild { node: "areaFill"@, child: "fileFormat"@ })
    } else {
        Ok(
            AreaFillView {
                id: attr_of(e.attributes@, "id"@)->Some_0,
                descriptions: tagged_list(cs, "description"@, description_val_fn()),
                file_name: first_text(cs, "fileName"@)->Some_0,
                file_type: spec_decode_file_type(first_text(cs, "fileType"@)->Some_0)->Ok_0,
                file_format: spec_decode_file_format(
                    first_text(cs, "fileFormat"@)->Some_0,
                )->Ok_0,
            },
        )
    }
}

impl AreaFill {
    /// Parses one `areaFill` element in a single pass over its children.
    #[verifier::loop_isolation(false)]
    pub fn parse(node: &Element) -> (r: Result<AreaFill, S100Error>)
        ensures
            reflects::<AreaFill>(r, spec_parse_area_fill(*node)),
    {
        proof {
            reveal_strlit("description");
            reveal_strlit("fileName");
            reveal_strlit("fileType");
            reveal_strlit("fileFormat");
            assert("description"@.len() == 11);
            assert("fileName"@.len() == 8);
            assert("fileType"@.len() == 8);
            assert("fileFormat"@.len() == 10);
            assert("fileName"@[4] == 'N');
            assert("fileType"@[4] == 'T');
        }
        if !crate::str_eq(node.tag.as_str(), "areaFill") {
            return Err(S100Error::unexpected_node_name("areaFill", &node.tag));
        }
        let id = match node.attribute("id") {
            Some(v) => v.clone(),
            None => {
                return Err(S100Error::missing_attribute(&node.tag, "id"));
            },
        };
        let ghost cs = node.children@;
        let mut descriptions: Vec<Description> = Vec::new();
        let mut file_name: Option<String> = None;
        let mut file_type: Option<FileType> = None;
        let mut file_format: Option<FileFormat> = None;
        let mut i: usize = 0;
        while i < node.children.len()
            invariant
                0 <= i <= cs.len(),
                first_err(cs, area_fill_child_fn()) == err_from(cs, area_fill_child_fn(), i as int),
                tagged_list(cs, "description"@, description_val_fn()) == seq_deep_view(
                    descriptions@,
                ) + list_from(cs, "description"@, description_val_fn(), i as int),
                first_text(cs, "fileName"@) == (if file_name is Some {
                    Some(file_name->Some_0@)
                } else {
                    text_from(cs, "fileName"@, i as int)
                }),
                match file_type {
                    Some(v) => first_text(cs, "fileType"@) is Some && spec_decode_file_type(
                        first_text(cs, "fileType"@)->Some_0,
                    ) == Ok::<FileType, ErrorView>(v),
                    None => text_from(cs, "fileType"@, i as int) == first_text(cs, "fileType"@),
                },
                match file_format {
                    Some(v) => first_text(cs, "fileFormat"@) is Some && spec_decode_file_format(
                        first_text(cs, "fileFormat"@)->Some_0,
                    ) == Ok::<FileFormat, ErrorView>(v),
                    None => text_from(cs, "fileFormat"@, i as int) == first_text(
                        cs,
                        "fileFormat"@,
                    ),
                },
            decreases cs.len() - i,
        {
            let c = &node.children[i];
            if crate::str_eq(c.tag.as_str(), "description") {
                match Description::parse(c) {
                    Ok(d) => {
                        descriptions.push(d);
                    },
                    Err(e) => {
                        return Err(e);
                    },
                }
            } else if crate::str_eq(c.tag.as_str(), "fileName") {
                if file_name.is_none() {
                    file_name = Some(c.text.clone());
                }
            } else if crate::str_eq(c.tag.as_str(), "fileType") {
                match FileType::from_str(c.text.as_str()) {
                    Ok(v) => {
                        if file_type.is_none() {
                            file_type = Some(v);
                        }
                    },
                    Err(e) => {
                        return Err(e);
                    },
                }
            } else if crate::str_eq(c.tag.as_str(), "fileFormat") {
                match FileFormat::from_str(c.text.as_str()) {
                    Ok(v) => {
                        if file_format.is_none() {
                            file_format = Some(v);
                        }
                    },
                    Err(e) => {
                        return Err(e);
                    },
                }
            } else {
                return Err(S100Error::invalid_child(&node.tag, &c.tag));
            }
            i = i + 1;
        }
        let file_name = match file_name {
            Some(v) => v,
            None => {
                return Err(S100Error::missing_child(&node.tag, "fileName"));
            },
        };
        let file_type = match file_type {
            Some(v) => v,
            None => {
                return Err(S100Error::missing_child(&node.tag, "fileType"));
            },
        };
        let file_format = match file_format {
            Some(v) => v,
            None => {
                return Err(S100Error::missing_child(&node.tag, "fileFormat"));
            },
        };
        Ok(AreaFill { id, descriptions, file_name, file_type, file_format })
    }
}

impl CatalogItem for AreaFill {
    open spec fn spec_id(&self) -> Seq<char> {
        self@.id
    }

    open spec fn spec_descriptions(&self) -> Seq<DescriptionView> {
        self@.descriptions
    }

    fn id(&self) -> (r: &str) {
        self.id.as_str()
    }

    fn descriptions(&self) -> (r: &[Description]) {
        self.descriptions.as_slice()
    }
}

impl ExternalFile for AreaFill {
    open spec fn spec_file_name(&self) -> Seq<char> {
        self@.file_name
    }

    open spec fn spec_file_type(&self) -> FileType {
        self@.file_type
    }

    open spec fn spec_file_format(&self) -> FileFormat {
        self@.file_format
    }

    fn file_name(&self) -> (r: &str) {
        self.file_name.as_str()
    }

    fn file_type(&self) -> (r: FileType) {
        self.file_type
    }

    fn file_format(&self) -> (r: FileFormat) {
        self.file_format
    }
}


/// An unrecognized child tag under this strict parser is rejected, naming
/// both the parent tag and the offending child tag: the first child outside
/// the table decides the outcome.
pub proof fn lemma_area_fill_rejects_unknown_child(e: Element, j: int)
    requires
        e.tag@ == "areaFill"@,
        attr_of(e.attributes@, "id"@) is Some,
        0 <= j < e.children@.len(),
        !(e.children@[j].tag@ == "description"@ || e.children@[j].tag@ == "fileName"@ || e.children@[j].tag@ == "fileType"@ || e.children@[j].tag@ == "fileFormat"@),
        forall|k: int| 0 <= k < j ==> area_fill_child_err(#[trigger] e.children@[k]) is None,
    ensures
        spec_parse_area_fill(e) == Err::<AreaFillView, ErrorView>(
            ErrorView::InvalidChild { parent: "areaFill"@, child: e.children@[j].tag@ },
        ),
{
    crate::xml::lemma_err_from_at(e.children@, area_fill_child_fn(), 0, j);
}

/// Omitting a required child from an otherwise error-free input yields
/// `MissingChild` naming the parent tag and the exact missing child tag;
/// the required fields are checked in declared order, and with all of them
/// present the parse succeeds.
pub proof fn lemma_area_fill_missing_child(e: Element)
    requires
        e.tag@ == "areaFill"@,
        attr_of(e.attributes@, "id"@) is Some,
        first_err(e.children@, area_fill_child_fn()) is None,
    ensures
        (first_text(e.children@, "fileName"@) is None) ==> spec_parse_area_fill(e) == Err::<AreaFillView, ErrorView>(
            (ErrorView::MissingChild { node: "areaFill"@, child: "fileName"@ }),
        ),
        (first_text(e.children@, "fileName"@) is Some && first_text(e.children@, "fileType"@) is None) ==> spec_parse_area_fill(e) == Err::<AreaFillView, ErrorView>(
            (ErrorView::MissingChild { node: "areaFill"@, child: "fileType"@ }),
        ),
        (first_text(e.children@, "fileName"@) is Some && first_text(e.children@, "fileType"@) is Some && first_text(e.children@, "fileFormat"@) is None) ==> spec_parse_area_fill(e) == Err::<AreaFillView, ErrorView>(
            (ErrorView::MissingChild { node: "areaFill"@, child: "fileFormat"@ }),
        ),
        (first_text(e.children@, "fileName"@) is Some && first_text(e.children@, "fileType"@) is Some && first_text(e.children@, "fileFormat"@) is Some) ==> spec_parse_area_fill(e) is Ok,
{
}

} // verus!
