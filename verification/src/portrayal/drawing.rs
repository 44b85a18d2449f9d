//! Value objects shared by drawing instructions: references into the data
//! set, symbol placement, and the coordinate reference systems a rotation
//! may be expressed in.

use vstd::prelude::*;

verus! {

/// The coordinate reference system a rotation or placement is expressed in.
#[derive(Clone, Copy, Debug, Eq, PartialEq, Structural)]
pub enum CrsType {
    Geographic,
    Portrayal,
    Local,
    Line,
}

/// How a symbol is placed along a line: relative to the line's own
/// geometry, or at an absolute position.
#[derive(Clone, Copy, Debug, Eq, PartialEq, Structural)]
pub enum LinePlacementMode {
    Relative,
    Absolute,
}

/// A reference to the feature a drawing instruction portrays.
#[derive(Clone, Debug, Eq, PartialEq)]
pub struct FeatureReference {
    reference: String,
}

impl FeatureReference {
    /// Wraps the identifier of the referenced feature.
    pub fn new(reference: String) -> (r: FeatureReference)
        ensures
            r.spec_reference() == reference@,
    {
        FeatureReference { reference }
    }

    /// The identifier of the referenced feature.
    pub closed spec fn spec_reference(&self) -> Seq<char> {
        self.reference@
    }

    /// The identifier of the referenced feature.
    pub fn reference(&self) -> (r: &str)
        ensures
            r@ == self.spec_reference(),
    {
        self.reference.as_str()
    }
}

/// A reference to the spatial primitive a drawing instruction draws on,
/// with the direction it is traversed in.
#[derive(Clone, Debug, Eq, PartialEq)]
pub struct SpatialReference {
    forward: bool,
    reference: String,
}

impl SpatialReference {
    /// Wraps the identifier of the referenced spatial primitive.
    pub fn new(forward: bool, reference: String) -> (r: SpatialReference)
        ensures
            r.spec_forward() == forward,
            r.spec_reference() == reference@,
    {
        SpatialReference { forward, reference }
    }

    /// Whether the primitive is traversed in its own direction.
    pub closed spec fn spec_forward(&self) -> bool {
        self.forward
    }

    /// The identifier of the referenced spatial primitive.
    pub closed spec fn spec_reference(&self) -> Seq<char> {
        self.reference@
    }

    /// Whether the primitive is traversed in its own direction.
    pub fn forward(&self) -> (r: bool)
        ensures
            r == self.spec_forward(),
    {
        self.forward
    }

    /// The identifier of the referenced spatial primitive.
    pub fn reference(&self) -> (r: &str)
        ensures
            r@ == self.spec_reference(),
    {
        self.reference.as_str()
    }
}

/// How a symbol is placed over an area.
#[derive(Clone, Copy, Debug, Eq, PartialEq, Structural)]
pub struct AreaSymbolPlacement {
    placement_mode: LinePlacementMode,
}

impl AreaSymbolPlacement {
    /// Wraps a placement mode.
    pub fn new(placement_mode: LinePlacementMode) -> (r: AreaSymbolPlacement)
        ensures
            r.spec_placement_mode() == placement_mode,
    {
        AreaSymbolPlacement { placement_mode }
    }

    /// The placement mode of the symbol.
    pub closed spec fn spec_placement_mode(&self) -> LinePlacementMode {
        self.placement_mode
    }

    /// The placement mode of the symbol.
    pub fn placement_mode(&self) -> (r: LinePlacementMode)
        ensures
            r == self.spec_placement_mode(),
    {
        self.placement_mode
    }
}

/// A drawing instruction: what to draw, where, and with what priority and
/// visibility. Concrete instruction kinds (point, line, area) implement it;
/// the placed-symbol records they carry hold continuous geometry and live
/// with the renderer, outside this crate.
pub trait DrawingInstruction {
    /// The viewing group the instruction belongs to.
    fn viewing_group(&self) -> &str;

    /// The display plane the instruction draws on.
    fn display_plane(&self) -> &str;

    /// The instruction's drawing priority.
    fn drawing_priority(&self) -> i64;

    /// The smallest scale the instruction is visible at, if bounded.
    fn scale_minimum(&self) -> Option<i64>;

    /// The largest scale the instruction is visible at, if bounded.
    fn scale_maximum(&self) -> Option<i64>;

    /// The feature the instruction portrays.
    fn feature_reference(&self) -> &FeatureReference;

    /// The spatial primitives the instruction draws on.
    fn spatial_reference(&self) -> &[SpatialReference];
}

} // verus!
