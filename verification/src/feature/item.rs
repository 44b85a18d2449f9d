//! The capability shared by every entry of a feature catalogue: a name, a
//! definition, and a camel-case code.

use vstd::prelude::*;

verus! {

/// An entry of a feature catalogue.
pub trait Item {
    /// The item's human-readable name.
    spec fn spec_name(&self) -> Seq<char>;

    /// The item's definition.
    spec fn spec_definition(&self) -> Seq<char>;

    /// The item's machine-readable code.
    spec fn spec_code(&self) -> Seq<char>;

    /// The item's human-readable name.
    fn name(&self) -> (r: &str)
        ensures
            r@ == self.spec_name(),
    ;

    /// The item's definition.
    fn definition(&self) -> (r: &str)
        ensures
            r@ == self.spec_definition(),
    ;

    /// The item's machine-readable code.
    fn code(&self) -> (r: &str)
        ensures
            r@ == self.spec_code(),
    ;
}

} // verus!
