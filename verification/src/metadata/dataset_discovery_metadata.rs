//! Discovery metadata for one dataset file of an exchange set: its file
//! name and path, a description, and the data format it is encoded in.

use crate::error::{reflects, ErrorView, S100Error};
use crate::metadata::data_format::{spec_decode_data_format, DataFormat};
use crate::xml::{err_from, first_err, first_text, text_from, Element};
use vstd::prelude::*;

verus! {

/// One `S100_DatasetDiscoveryMetadata` record.
pub struct DatasetDiscoveryMetadata {
    file_name: String,
    file_path: String,
    description: String,
    data_type: DataFormat,
    data_type_version: String,
}

/// The mathematical value of a [`DatasetDiscoveryMetadata`].
pub ghost struct DatasetDiscoveryMetadataView {
    pub file_name: Seq<char>,
    pub file_path: Seq<char>,
    pub description: Seq<char>,
    pub data_type: DataFormat,
    pub data_type_version: Seq<char>,
}

impl View for DatasetDiscoveryMetadata {
    type V = DatasetDiscoveryMetadataView;

    closed spec fn view(&self) -> DatasetDiscoveryMetadataView {
        DatasetDiscoveryMetadataView {
            file_name: self.file_name@,
            file_path: self.file_path@,
            description: self.description@,
            data_type: self.data_type,
            data_type_version: self.data_type_version@,
        }
    }
}

impl DeepView for DatasetDiscoveryMetadata {
    type V = DatasetDiscoveryMetadataView;

    open spec fn deep_view(&self) -> DatasetDiscoveryMetadataView {
        self.view()
    }
}

/// Classifies one child of an `S100_DatasetDiscoveryMetadata` element. The
/// parser is lenient: the many metadata children it does not model are
/// skipped; a `dataType` child must decode.
pub open spec fn dataset_discovery_child_err(c: Element) -> Option<ErrorView> {
    if c.tag@ == "dataType"@ {
        match spec_decode_data_format(c.text@) {
            Ok(_) => None,
            Err(e) => Some(e),
        }
    } else {
        None
    }
}

/// The child classification of `S100_DatasetDiscoveryMetadata`, as one
/// reusable value.
pub open spec fn dataset_discovery_child_fn() -> spec_fn(Element) -> Option<ErrorView> {
    |c: Element| dataset_discovery_child_err(c)
}

/// What parsing an `S100_DatasetDiscoveryMetadata` element yields: the texts
/// of the first `fileName`, `filePath`, `description` and `dataTypeVersion`
/// children and the decoded format of the first `dataType` child; otherwise
/// the first error of the pass, or the first missing required child in
/// declared order.
pub open spec fn spec_parse_dataset_discovery(e: Element) -> Result<
    DatasetDiscoveryMetadataView,
    ErrorView,
> {
    let cs = e.children@;
    if e.tag@ != "S100_DatasetDiscoveryMetadata"@ {
        Err(
            ErrorView::UnexpectedNodeName {
                expected: "S100_DatasetDiscoveryMetadata"@,
                actual: e.tag@,
            },
        )
    } else if first_err(cs, dataset_discovery_child_fn()) is Some {
        Err(first_err(cs, dataset_discovery_child_fn())->Some_0)
    } else if first_text(cs, "fileName"@) is None {
        Err(ErrorView::MissingChild { node: "S100_DatasetDiscoveryMetadata"@, child: "fileName"@ })
    } else if first_text(cs, "filePath"@) is None {
        Err(ErrorView::MissingChild { node: "S100_DatasetDiscoveryMetadata"@, child: "filePath"@ })
    } else if first_text(cs, "description"@) is None {
        Err(
            ErrorView::MissingChild {
                node: "S100_DatasetDiscoveryMetadata"@,
                child: "description"@,
            },
        )
    } else if first_text(cs, "dataType"@) is None {
        Err(ErrorView::MissingChild { node: "S100_DatasetDiscoveryMetadata"@, child: "dataType"@ })
    } else if first_text(cs, "dataTypeVersion"@) is None {
        Err(
            ErrorView::MissingChild {
                node: "S100_DatasetDiscoveryMetadata"@,
                child: "dataTypeVersion"@,
            },
        )
    } else {
        Ok(
            DatasetDiscoveryMetadataView {
                file_name: first_text(cs, "fileName"@)->Some_0,
                file_path: first_text(cs, "filePath"@)->Some_0,
                description: first_text(cs, "description"@)->Some_0,
                data_type: spec_decode_data_format(first_text(cs, "dataType"@)->Some_0)->Ok_0,
                data_type_version: first_text(cs, "dataTypeVersion"@)->Some_0,
            },
        )
    }
}

impl DatasetDiscoveryMetadata {
    /// Parses one `S100_DatasetDiscoveryMetadata` element in a single pass
    /// over its children.
    #[verifier::loop_isolation(false)]
    pub fn parse(node: &Element) -> (r: Result<DatasetDiscoveryMetadata, S100Error>)
        ensures
            reflects::<DatasetDiscoveryMetadata>(r, spec_parse_dataset_discovery(*node)),
    {
        proof {
            reveal_strlit("fileName");
            reveal_strlit("filePath");
            reveal_strlit("description");
            reveal_strlit("dataType");
            reveal_strlit("dataTypeVersion");
            assert("fileName"@.len() == 8);
            assert("filePath"@.len() == 8);
            assert("description"@.len() == 11);
            assert("dataType"@.len() == 8);
            assert("dataTypeVersion"@.len() == 15);
            assert("fileName"@[0] == 'f');
            assert("filePath"@[4] == 'P');
            assert("fileName"@[4] == 'N');
            assert("dataType"@[0] == 'd');
        }
        if !crate::str_eq(node.tag.as_str(), "S100_DatasetDiscoveryMetadata") {
            return Err(
                S100Error::unexpected_node_name("S100_DatasetDiscoveryMetadata", &node.tag),
            );
        }
        let ghost cs = node.children@;
        let mut file_name: Option<String> = None;
        let mut file_path: Option<String> = None;
        let mut description: Option<String> = None;
        let mut data_type: Option<DataFormat> = None;
        let mut data_type_version: Option<String> = None;
        let mut i: usize = 0;
        while i < node.children.len()
            invariant
                0 <= i <= cs.len(),
                first_err(cs, dataset_discovery_child_fn()) == err_from(
                    cs,
                    dataset_discovery_child_fn(),
                    i as int,
                ),
                first_text(cs, "fileName"@) == (if file_name is Some {
                    Some(file_name->Some_0@)
                } else {
                    text_from(cs, "fileName"@, i as int)
                }),
                first_text(cs, "filePath"@) == (if file_path is Some {
                    Some(file_path->Some_0@)
                } else {
                    text_from(cs, "filePath"@, i as int)
                }),
                first_text(cs, "description"@) == (if description is Some {
                    Some(description->Some_0@)
                } else {
                    text_from(cs, "description"@, i as int)
                }),
                match data_type {
                    Some(v) => first_text(cs, "dataType"@) is Some && spec_decode_data_format(
                        first_text(cs, "dataType"@)->Some_0,
                    ) == Ok::<DataFormat, ErrorView>(v),
                    None => text_from(cs, "dataType"@, i as int) == first_text(cs, "dataType"@),
                },
                first_text(cs, "dataTypeVersion"@) == (if data_type_version is Some {
                    Some(data_type_version->Some_0@)
                } else {
                    text_from(cs, "dataTypeVersion"@, i as int)
                }),
            decreases cs.len() - i,
        {
            let c = &node.children[i];
            if crate::str_eq(c.tag.as_str(), "fileName") {
                if file_name.is_none() {
                    file_name = Some(c.text.clone());
                }
            } else if crate::str_eq(c.tag.as_str(), "filePath") {
                if file_path.is_none() {
                    file_path = Some(c.text.clone());
                }
            } else if crate::str_eq(c.tag.as_str(), "description") {
                if description.is_none() {
                    description = Some(c.text.clone());
                }
            } else if crate::str_eq(c.tag.as_str(), "dataType") {
                match DataFormat::from_str(c.text.as_str()) {
                    Ok(v) => {
                        if data_type.is_none() {
                            data_type = Some(v);
                        }
                    },
                    Err(e) => {
                        return Err(e);
                    },
                }
            } else if crate::str_eq(c.tag.as_str(), "dataTypeVersion") {
                if data_type_version.is_none() {
                    data_type_version = Some(c.text.clone());
                }
            } else {
                // This parser is lenient: an unrecognized child is skipped.
            }
            i = i + 1;
        }
        let file_name = match file_name {
            Some(v) => v,
            None => {
                return Err(S100Error::missing_child(&node.tag, "fileName"));
            },
        };
        let file_path = match file_path {
            Some(v) => v,
            None => {
                return Err(S100Error::missing_child(&node.tag, "filePath"));
            },
        };
        let description = match description {
            Some(v) => v,
            None => {
                return Err(S100Error::missing_child(&node.tag, "description"));
            },
        };
        let data_type = match data_type {
            Some(v) => v,
            None => {
                return Err(S100Error::missing_child(&node.tag, "dataType"));
            },
        };
        let data_type_version = match data_type_version {
            Some(v) => v,
            None => {
                return Err(S100Error::missing_child(&node.tag, "dataTypeVersion"));
            },
        };
        Ok(DatasetDiscoveryMetadata { file_name, file_path, description, data_type, data_type_version })
    }

    /// The dataset's file name.
    pub fn file_name(&self) -> (r: &str)
        ensures
            r@ == self@.file_name,
    {
        self.file_name.as_str()
    }

    /// The dataset's path within the exchange set.
    pub fn file_path(&self) -> (r: &str)
        ensures
            r@ == self@.file_path,
    {
        self.file_path.as_str()
    }

    /// The dataset's description.
    pub fn description(&self) -> (r: &str)
        ensures
            r@ == self@.description,
    {
        self.description.as_str()
    }

    /// The dataset's encoding format.
    pub fn data_type(&self) -> (r: DataFormat)
        ensures
            r == self@.data_type,
    {
        self.data_type
    }

    /// The version of the dataset's encoding format.
    pub fn data_type_version(&self) -> (r: &str)
        ensures
            r@ == self@.data_type_version,
    {
        self.data_type_version.as_str()
    }
}


/// An unrecognized child under this lenient parser raises no error: the
/// input is accepted and the unrecognized child is ignored.
pub proof fn lemma_dataset_discovery_ignores_unknown_child(c: Element)
    requires
        !(c.tag@ == "fileName"@ || c.tag@ == "filePath"@ || c.tag@ == "description"@ || c.tag@ == "dataType"@ || c.tag@ == "dataTypeVersion"@),
    ensures
        dataset_discovery_child_err(c) is None,
{
}

/// Omitting a required child from an otherwise error-free input yields
/// `MissingChild` naming the parent tag and the exact missing child tag;
/// the required fields are checked in declared order, and with all of them
/// present the parse succeeds.
pub proof fn lemma_dataset_discovery_missing_child(e: Element)
    requires
        e.tag@ == "S100_DatasetDiscoveryMetadata"@,
        first_err(e.children@, dataset_discovery_child_fn()) is None,
    ensures
        (first_text(e.children@, "fileName"@) is None) ==> spec_parse_dataset_discovery(e) == Err::<DatasetDiscoveryMetadataView, ErrorView>(
            (ErrorView::MissingChild { node: "S100_DatasetDiscoveryMetadata"@, child: "fileName"@ }),
        ),
        (first_text(e.children@, "fileName"@) is Some && first_text(e.children@, "filePath"@) is None) ==> spec_parse_dataset_discovery(e) == Err::<DatasetDiscoveryMetadataView, ErrorView>(
            (ErrorView::MissingChild { node: "S100_DatasetDiscoveryMetadata"@, child: "filePath"@ }),
        ),
        (first_text(e.children@, "fileName"@) is Some && first_text(e.children@, "filePath"@) is Some && first_text(e.children@, "description"@) is None) ==> spec_parse_dataset_discovery(e) == Err::<DatasetDiscoveryMetadataView, ErrorView>(
            (ErrorView::MissingChild { node: "S100_DatasetDiscoveryMetadata"@, child: "description"@ }),
        ),
        (first_text(e.children@, "fileName"@) is Some && first_text(e.children@, "filePath"@) is Some && first_text(e.children@, "description"@) is Some && first_text(e.children@, "dataType"@) is None) ==> spec_parse_dataset_discovery(e) == Err::<DatasetDiscoveryMetadataView, ErrorView>(
            (ErrorView::MissingChild { node: "S100_DatasetDiscoveryMetadata"@, child: "dataType"@ }),
        ),
        (first_text(e.children@, "fileName"@) is Some && first_text(e.children@, "filePath"@) is Some && first_text(e.children@, "description"@) is Some && first_text(e.children@, "dataType"@) is Some && first_text(e.children@, "dataTypeVersion"@) is None) ==> spec_parse_dataset_discovery(e) == Err::<DatasetDiscoveryMetadataView, ErrorView>(
            (ErrorView::MissingChild { node: "S100_DatasetDiscoveryMetadata"@, child: "dataTypeVersion"@ }),
        ),
        (first_text(e.children@, "fileName"@) is Some && first_text(e.children@, "filePath"@) is Some && first_text(e.children@, "description"@) is Some && first_text(e.children@, "dataType"@) is Some && first_text(e.children@, "dataTypeVersion"@) is Some) ==> spec_parse_dataset_discovery(e) is Ok,
{
}

} // verus!
