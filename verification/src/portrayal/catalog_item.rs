//! The capabilities shared by portrayal catalogue items: every item has an
//! identifier and multilingual descriptions, and the file-backed items also
//! reference one external file.

use crate::portrayal::description::{Description, DescriptionView};
use crate::portrayal::file_format::FileFormat;
use crate::portrayal::file_type::FileType;
use crate::xml::seq_deep_view;
use vstd::prelude::*;

verus! {

/// An item of a portrayal catalogue: an identifier plus any number of
/// multilingual descriptions.
pub trait CatalogItem {
    /// The item's identifier.
    spec fn spec_id(&self) -> Seq<char>;

    /// The item's descriptions, in document order.
    spec fn spec_descriptions(&self) -> Seq<DescriptionView>;

    /// The item's identifier.
    fn id(&self) -> (r: &str)
        ensures
            r@ == self.spec_id(),
    ;

    /// The item's descriptions, in document order.
    fn descriptions(&self) -> (r: &[Description])
        ensures
            seq_deep_view(r@) == self.spec_descriptions(),
    ;
}

/// A catalogue item that references one external file by name, kind and
/// format.
pub trait ExternalFile: CatalogItem {
    /// The name of the referenced file.
    spec fn spec_file_name(&self) -> Seq<char>;

    /// The kind of the referenced file.
    spec fn spec_file_type(&self) -> FileType;

    /// The format of the referenced file.
    spec fn spec_file_format(&self) -> FileFormat;

    /// The name of the referenced file.
    fn file_name(&self) -> (r: &str)
        ensures
            r@ == self.spec_file_name(),
    ;

    /// The kind of the referenced file.
    fn file_type(&self) -> (r: FileType)
        ensures
            r == self.spec_file_type(),
    ;

    /// The format of the referenced file.
    fn file_format(&self) -> (r: FileFormat)
        ensures
            r == self.spec_file_format(),
    ;
}

} // verus!
