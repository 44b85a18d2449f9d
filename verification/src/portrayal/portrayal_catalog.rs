//! The portrayal catalogue document: the strict root reader that gathers
//! every item family — symbols, line styles, colour profiles, rules, fonts,
//! pixmaps, style sheets, area fills, parameters, display modes and planes,
//! viewing groups and layers — plus the alert catalogue reference and the
//! foundation mode.

use crate::error::{reflects, ErrorView, S100Error};
use crate::portrayal::alert_catalog::{spec_parse_alert_catalog, AlertCatalog, AlertCatalogView};
use crate::portrayal::area_fill::{spec_parse_area_fill, AreaFill, AreaFillView};
use crate::portrayal::color_profile::{spec_parse_color_profile, ColorProfile, ColorProfileView};
use crate::portrayal::display_mode::{spec_parse_display_mode, DisplayMode, DisplayModeView};
use crate::portrayal::display_plane::{spec_parse_display_plane, DisplayPlane, DisplayPlaneView};
use crate::portrayal::font::{spec_parse_font, Font, FontView};
use crate::portrayal::line_style::{spec_parse_line_style, LineStyle, LineStyleView};
use crate::portrayal::parameter::{spec_parse_parameter, Parameter, ParameterView};
use crate::portrayal::pixmap::{spec_parse_pixmap, Pixmap, PixmapView};
use crate::portrayal::rule_file::{spec_parse_rule_file, RuleFile, RuleFileView};
use crate::portrayal::style_sheet::{spec_parse_style_sheet, StyleSheet, StyleSheetView};
use crate::portrayal::symbol::{spec_parse_symbol, Symbol, SymbolView};
use crate::portrayal::viewing_group::{spec_parse_viewing_group, ViewingGroup, ViewingGroupView};
use crate::portrayal::viewing_group_layer::{spec_parse_viewing_group_layer, ViewingGroupLayer, ViewingGroupLayerView};
use crate::xml::{
    all_from, elem_from, err_from, first_elem, first_err, group_from, group_list, seq_deep_view,
    text_val_fn, Element,
};
use vstd::prelude::*;

verus! {

broadcast use {
    crate::xml::lemma_acc_step,
    crate::xml::lemma_acc_done,
    crate::xml::lemma_seq_deep_view_push,
};

/// A `portrayalCatalog` document, reduced to its item collections.
pub struct PortrayalCatalog {
    alert_catalog: Option<AlertCatalog>,
    area_fills: Vec<AreaFill>,
    color_profiles: Vec<ColorProfile>,
    context: Vec<Parameter>,
    display_modes: Vec<DisplayMode>,
    display_planes: Vec<DisplayPlane>,
    fonts: Vec<Font>,
    foundation_mode: Vec<String>,
    line_styles: Vec<LineStyle>,
    pixmaps: Vec<Pixmap>,
    rules: Vec<RuleFile>,
    style_sheets: Vec<StyleSheet>,
    symbols: Vec<Symbol>,
    viewing_groups: Vec<ViewingGroup>,
    viewing_group_layers: Vec<ViewingGroupLayer>,
}

/// The mathematical value of a [`PortrayalCatalog`].
pub ghost struct PortrayalCatalogView {
    pub alert_catalog: Option<AlertCatalogView>,
    pub area_fills: Seq<AreaFillView>,
    pub color_profiles: Seq<ColorProfileView>,
    pub context: Seq<ParameterView>,
    pub display_modes: Seq<DisplayModeView>,
    pub display_planes: Seq<DisplayPlaneView>,
    pub fonts: Seq<FontView>,
    pub foundation_mode: Seq<Seq<char>>,
    pub line_styles: Seq<LineStyleView>,
    pub pixmaps: Seq<PixmapView>,
    pub rules: Seq<RuleFileView>,
    pub style_sheets: Seq<StyleSheetView>,
    pub symbols: Seq<SymbolView>,
    pub viewing_groups: Seq<ViewingGroupView>,
    pub viewing_group_layers: Seq<ViewingGroupLayerView>,
}

impl View for PortrayalCatalog {
    type V = PortrayalCatalogView;

    closed spec fn view(&self) -> PortrayalCatalogView {
        PortrayalCatalogView {
            alert_catalog: self.alert_catalog.deep_view(),
                area_fills: seq_deep_view(self.area_fills@),
                color_profiles: seq_deep_view(self.color_profiles@),
                context: seq_deep_view(self.context@),
                display_modes: seq_deep_view(self.display_modes@),
                display_planes: seq_deep_view(self.display_planes@),
                fonts: seq_deep_view(self.fonts@),
                foundation_mode: seq_deep_view(self.foundation_mode@),
                line_styles: seq_deep_view(self.line_styles@),
                pixmaps: seq_deep_view(self.pixmaps@),
                rules: seq_deep_view(self.rules@),
                style_sheets: seq_deep_view(self.style_sheets@),
                symbols: seq_deep_view(self.symbols@),
                viewing_groups: seq_deep_view(self.viewing_groups@),
                viewing_group_layers: seq_deep_view(self.viewing_group_layers@),
        }
    }
}

impl DeepView for PortrayalCatalog {
    type V = PortrayalCatalogView;

    open spec fn deep_view(&self) -> PortrayalCatalogView {
        self.view()
    }
}

/// The error, if any, of parsing one member of a `areaFills` group.
pub open spec fn area_fill_member_err(c: Element) -> Option<ErrorView> {
    match spec_parse_area_fill(c) {
        Ok(_) => None,
        Err(e) => Some(e),
    }
}

/// The member classification of `areaFills`, as one reusable value.
pub open spec fn area_fill_member_fn() -> spec_fn(Element) -> Option<ErrorView> {
    |c: Element| area_fill_member_err(c)
}

/// The record one member of a `areaFills` group contributes.
pub open spec fn area_fill_val_fn() -> spec_fn(Element) -> AreaFillView {
    |c: Element| spec_parse_area_fill(c)->Ok_0
}

/// The error, if any, of parsing one member of a `colorProfiles` group.
pub open spec fn color_profile_member_err(c: Element) -> Option<ErrorView> {
    match spec_parse_color_profile(c) {
        Ok(_) => None,
        Err(e) => Some(e),
    }
}

/// The member classification of `colorProfiles`, as one reusable value.
pub open spec fn color_profile_member_fn() -> spec_fn(Element) -> Option<ErrorView> {
    |c: Element| color_profile_member_err(c)
}

/// The record one member of a `colorProfiles` group contributes.
pub open spec fn color_profile_val_fn() -> spec_fn(Element) -> ColorProfileView {
    |c: Element| spec_parse_color_profile(c)->Ok_0
}

/// The error, if any, of parsing one member of a `context` group.
pub open spec fn parameter_member_err(c: Element) -> Option<ErrorView> {
    match spec_parse_parameter(c) {
        Ok(_) => None,
        Err(e) => Some(e),
    }
}

/// The member classification of `context`, as one reusable value.
pub open spec fn parameter_member_fn() -> spec_fn(Element) -> Option<ErrorView> {
    |c: Element| parameter_member_err(c)
}

/// The record one member of a `context` group contributes.
pub open spec fn parameter_val_fn() -> spec_fn(Element) -> ParameterView {
    |c: Element| spec_parse_parameter(c)->Ok_0
}

/// The error, if any, of parsing one member of a `displayModes` group.
pub open spec fn display_mode_member_err(c: Element) -> Option<ErrorView> {
    match spec_parse_display_mode(c) {
        Ok(_) => None,
        Err(e) => Some(e),
    }
}

/// The member classification of `displayModes`, as one reusable value.
pub open spec fn display_mode_member_fn() -> spec_fn(Element) -> Option<ErrorView> {
    |c: Element| display_mode_member_err(c)
}

/// The record one member of a `displayModes` group contributes.
pub open spec fn display_mode_val_fn() -> spec_fn(Element) -> DisplayModeView {
    |c: Element| spec_parse_display_mode(c)->Ok_0
}

/// The error, if any, of parsing one member of a `displayPlanes` group.
pub open spec fn display_plane_member_err(c: Element) -> Option<ErrorView> {
    match spec_parse_display_plane(c) {
        Ok(_) => None,
        Err(e) => Some(e),
    }
}

/// The member classification of `displayPlanes`, as one reusable value.
pub open spec fn display_plane_member_fn() -> spec_fn(Element) -> Option<ErrorView> {
    |c: Element| display_plane_member_err(c)
}

/// The record one member of a `displayPlanes` group contributes.
pub open spec fn display_plane_val_fn() -> spec_fn(Element) -> DisplayPlaneView {
    |c: Element| spec_parse_display_plane(c)->Ok_0
}

/// The error, if any, of parsing one member of a `fonts` group.
pub open spec fn font_member_err(c: Element) -> Option<ErrorView> {
    match spec_parse_font(c) {
        Ok(_) => None,
        Err(e) => Some(e),
    }
}

/// The member classification of `fonts`, as one reusable value.
pub open spec fn font_member_fn() -> spec_fn(Element) -> Option<ErrorView> {
    |c: Element| font_member_err(c)
}

/// The record one member of a `fonts` group contributes.
pub open spec fn font_val_fn() -> spec_fn(Element) -> FontView {
    |c: Element| spec_parse_font(c)->Ok_0
}

/// The error, if any, of parsing one member of a `lineStyles` group.
pub open spec fn line_style_member_err(c: Element) -> Option<ErrorView> {
    match spec_parse_line_style(c) {
        Ok(_) => None,
        Err(e) => Some(e),
    }
}

/// The member classification of `lineStyles`, as one reusable value.
pub open spec fn line_style_member_fn() -> spec_fn(Element) -> Option<ErrorView> {
    |c: Element| line_style_member_err(c)
}

/// The record one member of a `lineStyles` group contributes.
pub open spec fn line_style_val_fn() -> spec_fn(Element) -> LineStyleView {
    |c: Element| spec_parse_line_style(c)->Ok_0
}

/// The error, if any, of parsing one member of a `pixmaps` group.
pub open spec fn pixmap_member_err(c: Element) -> Option<ErrorView> {
    match spec_parse_pixmap(c) {
        Ok(_) => None,
        Err(e) => Some(e),
    }
}

/// The member classification of `pixmaps`, as one reusable value.
pub open spec fn pixmap_member_fn() -> spec_fn(Element) -> Option<ErrorView> {
    |c: Element| pixmap_member_err(c)
}

/// The record one member of a `pixmaps` group contributes.
pub open spec fn pixmap_val_fn() -> spec_fn(Element) -> PixmapView {
    |c: Element| spec_parse_pixmap(c)->Ok_0
}

/// The error, if any, of parsing one member of a `rules` group.
pub open spec fn rule_file_member_err(c: Element) -> Option<ErrorView> {
    match spec_parse_rule_file(c) {
        Ok(_) => None,
        Err(e) => Some(e),
    }
}

/// The member classification of `rules`, as one reusable value.
pub open spec fn rule_file_member_fn() -> spec_fn(Element) -> Option<ErrorView> {
    |c: Element| rule_file_member_err(c)
}

/// The record one member of a `rules` group contributes.
pub open spec fn rule_file_val_fn() -> spec_fn(Element) -> RuleFileView {
    |c: Element| spec_parse_rule_file(c)->Ok_0
}

/// The error, if any, of parsing one member of a `styleSheets` group.
pub open spec fn style_sheet_member_err(c: Element) -> Option<ErrorView> {
    match spec_parse_style_sheet(c) {
        Ok(_) => None,
        Err(e) => Some(e),
    }
}

/// The member classification of `styleSheets`, as one reusable value.
pub open spec fn style_sheet_member_fn() -> spec_fn(Element) -> Option<ErrorView> {
    |c: Element| style_sheet_member_err(c)
}

/// The record one member of a `styleSheets` group contributes.
pub open spec fn style_sheet_val_fn() -> spec_fn(Element) -> StyleSheetView {
    |c: Element| spec_parse_style_sheet(c)->Ok_0
}

/// The error, if any, of parsing one member of a `symbols` group.
pub open spec fn symbol_member_err(c: Element) -> Option<ErrorView> {
    match spec_parse_symbol(c) {
        Ok(_) => None,
        Err(e) => Some(e),
    }
}

/// The member classification of `symbols`, as one reusable value.
pub open spec fn symbol_member_fn() -> spec_fn(Element) -> Option<ErrorView> {
    |c: Element| symbol_member_err(c)
}

/// The record one member of a `symbols` group contributes.
pub open spec fn symbol_val_fn() -> spec_fn(Element) -> SymbolView {
    |c: Element| spec_parse_symbol(c)->Ok_0
}

/// The error, if any, of parsing one member of a `viewingGroups` group.
pub open spec fn viewing_group_member_err(c: Element) -> Option<ErrorView> {
    match spec_parse_viewing_group(c) {
        Ok(_) => None,
        Err(e) => Some(e),
    }
}

/// The member classification of `viewingGroups`, as one reusable value.
pub open spec fn viewing_group_member_fn() -> spec_fn(Element) -> Option<ErrorView> {
    |c: Element| viewing_group_member_err(c)
}

/// The record one member of a `viewingGroups` group contributes.
pub open spec fn viewing_group_val_fn() -> spec_fn(Element) -> ViewingGroupView {
    |c: Element| spec_parse_viewing_group(c)->Ok_0
}

/// The error, if any, of parsing one member of a `viewingGroupLayers` group.
pub open spec fn viewing_group_layer_member_err(c: Element) -> Option<ErrorView> {
    match spec_parse_viewing_group_layer(c) {
        Ok(_) => None,
        Err(e) => Some(e),
    }
}

/// The member classification of `viewingGroupLayers`, as one reusable value.
pub open spec fn viewing_group_layer_member_fn() -> spec_fn(Element) -> Option<ErrorView> {
    |c: Element| viewing_group_layer_member_err(c)
}

/// The record one member of a `viewingGroupLayers` group contributes.
pub open spec fn viewing_group_layer_val_fn() -> spec_fn(Element) -> ViewingGroupLayerView {
    |c: Element| spec_parse_viewing_group_layer(c)->Ok_0
}

/// Classifies one child of the root. This aggregator is strict: a group tag
/// outside its table is an error; the members of a recognized group are
/// parsed and their errors propagate unchanged.
pub open spec fn portrayal_catalog_child_err(c: Element) -> Option<ErrorView> {
    if c.tag@ == "alertCatalog"@ {
        match spec_parse_alert_catalog(c) {
            Ok(_) => None,
            Err(e) => Some(e),
        }
    } else if c.tag@ == "areaFills"@ {
        first_err(c.children@, area_fill_member_fn())
    } else if c.tag@ == "colorProfiles"@ {
        first_err(c.children@, color_profile_member_fn())
    } else if c.tag@ == "context"@ {
        first_err(c.children@, parameter_member_fn())
    } else if c.tag@ == "displayModes"@ {
        first_err(c.children@, display_mode_member_fn())
    } else if c.tag@ == "displayPlanes"@ {
        first_err(c.children@, display_plane_member_fn())
    } else if c.tag@ == "fonts"@ {
        first_err(c.children@, font_member_fn())
    } else if c.tag@ == "lineStyles"@ {
        first_err(c.children@, line_style_member_fn())
    } else if c.tag@ == "pixmaps"@ {
        first_err(c.children@, pixmap_member_fn())
    } else if c.tag@ == "rules"@ {
        first_err(c.children@, rule_file_member_fn())
    } else if c.tag@ == "styleSheets"@ {
        first_err(c.children@, style_sheet_member_fn())
    } else if c.tag@ == "symbols"@ {
        first_err(c.children@, symbol_member_fn())
    } else if c.tag@ == "viewingGroups"@ {
        first_err(c.children@, viewing_group_member_fn())
    } else if c.tag@ == "viewingGroupLayers"@ {
        first_err(c.children@, viewing_group_layer_member_fn())
    } else if c.tag@ == "foundationMode"@ {
        None
    } else {
        Some(ErrorView::InvalidChild { parent: "portrayalCatalog"@, child: c.tag@ })
    }
}

/// The child classification of the portrayal catalogue root, as one
/// reusable value.
pub open spec fn portrayal_catalog_child_fn() -> spec_fn(Element) -> Option<ErrorView> {
    |c: Element| portrayal_catalog_child_err(c)
}

/// What parsing a `portrayalCatalog` root yields: every member of every
/// recognized group, parsed in document order into its own collection, the
/// first `alertCatalog` child if there is one, and the member texts of the
/// `foundationMode` groups; or the first error any child raises, unchanged.
pub open spec fn spec_parse_portrayal_catalog(e: Element) -> Result<
    PortrayalCatalogView,
    ErrorView,
> {
    let cs = e.children@;
    if e.tag@ != "portrayalCatalog"@ {
        Err(ErrorView::UnexpectedNodeName { expected: "portrayalCatalog"@, actual: e.tag@ })
    } else if first_err(cs, portrayal_catalog_child_fn()) is Some {
        Err(first_err(cs, portrayal_catalog_child_fn())->Some_0)
    } else {
        Ok(
            PortrayalCatalogView {
                alert_catalog: match first_elem(cs, "alertCatalog"@) {
                    Some(el) => Some(spec_parse_alert_catalog(el)->Ok_0),
                    None => None,
                },
                        area_fills: group_list(cs, "areaFills"@, area_fill_val_fn()),
                        color_profiles: group_list(cs, "colorProfiles"@, color_profile_val_fn()),
                        context: group_list(cs, "context"@, parameter_val_fn()),
                        display_modes: group_list(cs, "displayModes"@, display_mode_val_fn()),
                        display_planes: group_list(cs, "displayPlanes"@, display_plane_val_fn()),
                        fonts: group_list(cs, "fonts"@, font_val_fn()),
                        foundation_mode: group_list(cs, "foundationMode"@, text_val_fn()),
                        line_styles: group_list(cs, "lineStyles"@, line_style_val_fn()),
                        pixmaps: group_list(cs, "pixmaps"@, pixmap_val_fn()),
                        rules: group_list(cs, "rules"@, rule_file_val_fn()),
                        style_sheets: group_list(cs, "styleSheets"@, style_sheet_val_fn()),
                        symbols: group_list(cs, "symbols"@, symbol_val_fn()),
                        viewing_groups: group_list(cs, "viewingGroups"@, viewing_group_val_fn()),
                        viewing_group_layers: group_list(cs, "viewingGroupLayers"@, viewing_group_layer_val_fn()),
            },
        )
    }
}

/// Parsing is a pure function of the element tree: two equal trees yield
/// field-for-field equal catalogues (or the same error).
pub proof fn lemma_portrayal_catalog_deterministic(e1: Element, e2: Element)
    requires
        e1 == e2,
    ensures
        spec_parse_portrayal_catalog(e1) == spec_parse_portrayal_catalog(e2),
{
}

impl PortrayalCatalog {
    /// Parses a `portrayalCatalog` root element.
    #[verifier::loop_isolation(false)]
    pub fn parse(node: &Element) -> (r: Result<PortrayalCatalog, S100Error>)
        ensures
            reflects::<PortrayalCatalog>(r, spec_parse_portrayal_catalog(*node)),
    {
        proof {
            reveal_strlit("alertCatalog");
            reveal_strlit("areaFills");
            reveal_strlit("colorProfiles");
            reveal_strlit("context");
            reveal_strlit("displayModes");
            reveal_strlit("displayPlanes");
            reveal_strlit("fonts");
            reveal_strlit("foundationMode");
            reveal_strlit("lineStyles");
            reveal_strlit("pixmaps");
            reveal_strlit("rules");
            reveal_strlit("styleSheets");
            reveal_strlit("symbols");
            reveal_strlit("viewingGroups");
            reveal_strlit("viewingGroupLayers");
            assert("alertCatalog"@.len() == 12);
            assert("areaFills"@.len() == 9);
            assert("colorProfiles"@.len() == 13);
            assert("context"@.len() == 7);
            assert("displayModes"@.len() == 12);
            assert("displayPlanes"@.len() == 13);
            assert("fonts"@.len() == 5);
            assert("foundationMode"@.len() == 14);
            assert("lineStyles"@.len() == 10);
            assert("pixmaps"@.len() == 7);
            assert("rules"@.len() == 5);
            assert("styleSheets"@.len() == 11);
            assert("symbols"@.len() == 7);
            assert("viewingGroups"@.len() == 13);
            assert("viewingGroupLayers"@.len() == 18);
            assert("alertCatalog"@[0] == 'a');
            assert("displayModes"@[0] == 'd');
            assert("colorProfiles"@[0] == 'c');
            assert("displayPlanes"@[0] == 'd');
            assert("viewingGroups"@[0] == 'v');
            assert("context"@[0] == 'c');
            assert("pixmaps"@[0] == 'p');
            assert("symbols"@[0] == 's');
            assert("fonts"@[0] == 'f');
            assert("rules"@[0] == 'r');
        }
        if !crate::str_eq(node.tag.as_str(), "portrayalCatalog") {
            return Err(S100Error::unexpected_node_name("portrayalCatalog", &node.tag));
        }
        let ghost cs = node.children@;
        let mut alert_catalog: Option<AlertCatalog> = None;
        let mut area_fills: Vec<AreaFill> = Vec::new();
        let mut color_profiles: Vec<ColorProfile> = Vec::new();
        let mut context: Vec<Parameter> = Vec::new();
        let mut display_modes: Vec<DisplayMode> = Vec::new();
        let mut display_planes: Vec<DisplayPlane> = Vec::new();
        let mut fonts: Vec<Font> = Vec::new();
        let mut foundation_mode: Vec<String> = Vec::new();
        let mut line_styles: Vec<LineStyle> = Vec::new();
        let mut pixmaps: Vec<Pixmap> = Vec::new();
        let mut rules: Vec<RuleFile> = Vec::new();
        let mut style_sheets: Vec<StyleSheet> = Vec::new();
        let mut symbols: Vec<Symbol> = Vec::new();
        let mut viewing_groups: Vec<ViewingGroup> = Vec::new();
        let mut viewing_group_layers: Vec<ViewingGroupLayer> = Vec::new();
        let mut i: usize = 0;
        while i < node.children.len()
            invariant
                0 <= i <= cs.len(),
                first_err(cs, portrayal_catalog_child_fn()) == err_from(
                    cs,
                    portrayal_catalog_child_fn(),
                    i as int,
                ),
                match alert_catalog {
                    Some(a) => first_elem(cs, "alertCatalog"@) is Some && spec_parse_alert_catalog(
                        first_elem(cs, "alertCatalog"@)->Some_0,
                    ) == Ok::<AlertCatalogView, ErrorView>(a@),
                    None => elem_from(cs, "alertCatalog"@, i as int) == first_elem(
                        cs,
                        "alertCatalog"@,
                    ),
                },
                group_list(cs, "areaFills"@, area_fill_val_fn()) == seq_deep_view(area_fills@)
                    + group_from(cs, "areaFills"@, area_fill_val_fn(), i as int),
                group_list(cs, "colorProfiles"@, color_profile_val_fn()) == seq_deep_view(color_profiles@)
                    + group_from(cs, "colorProfiles"@, color_profile_val_fn(), i as int),
                group_list(cs, "context"@, parameter_val_fn()) == seq_deep_view(context@)
                    + group_from(cs, "context"@, parameter_val_fn(), i as int),
                group_list(cs, "displayModes"@, display_mode_val_fn()) == seq_deep_view(display_modes@)
                    + group_from(cs, "displayModes"@, display_mode_val_fn(), i as int),
                group_list(cs, "displayPlanes"@, display_plane_val_fn()) == seq_deep_view(display_planes@)
                    + group_from(cs, "displayPlanes"@, display_plane_val_fn(), i as int),
                group_list(cs, "fonts"@, font_val_fn()) == seq_deep_view(fonts@)
                    + group_from(cs, "fonts"@, font_val_fn(), i as int),
                group_list(cs, "foundationMode"@, text_val_fn()) == seq_deep_view(
                    foundation_mode@,
                ) + group_from(cs, "foundationMode"@, text_val_fn(), i as int),
                group_list(cs, "lineStyles"@, line_style_val_fn()) == seq_deep_view(line_styles@)
                    + group_from(cs, "lineStyles"@, line_style_val_fn(), i as int),
                group_list(cs, "pixmaps"@, pixmap_val_fn()) == seq_deep_view(pixmaps@)
                    + group_from(cs, "pixmaps"@, pixmap_val_fn(), i as int),
                group_list(cs, "rules"@, rule_file_val_fn()) == seq_deep_view(rules@)
                    + group_from(cs, "rules"@, rule_file_val_fn(), i as int),
                group_list(cs, "styleSheets"@, style_sheet_val_fn()) == seq_deep_view(style_sheets@)
                    + group_from(cs, "styleSheets"@, style_sheet_val_fn(), i as int),
                group_list(cs, "symbols"@, symbol_val_fn()) == seq_deep_view(symbols@)
                    + group_from(cs, "symbols"@, symbol_val_fn(), i as int),
                group_list(cs, "viewingGroups"@, viewing_group_val_fn()) == seq_deep_view(viewing_groups@)
                    + group_from(cs, "viewingGroups"@, viewing_group_val_fn(), i as int),
                group_list(cs, "viewingGroupLayers"@, viewing_group_layer_val_fn()) == seq_deep_view(viewing_group_layers@)
                    + group_from(cs, "viewingGroupLayers"@, viewing_group_layer_val_fn(), i as int),
            decreases cs.len() - i,
        {
            let c = &node.children[i];
            if crate::str_eq(c.tag.as_str(), "alertCatalog") {
                match AlertCatalog::parse(c) {
                    Ok(a) => {
                        if alert_catalog.is_none() {
                            alert_catalog = Some(a);
                        }
                    },
                    Err(e) => {
                        return Err(e);
                    },
                }
            } else if crate::str_eq(c.tag.as_str(), "areaFills") {
                let mut j: usize = 0;
                while j < c.children.len()
                    invariant
                        0 <= j <= c.children@.len(),
                        first_err(c.children@, area_fill_member_fn()) == err_from(
                            c.children@,
                            area_fill_member_fn(),
                            j as int,
                        ),
                        group_list(cs, "areaFills"@, area_fill_val_fn()) == seq_deep_view(area_fills@)
                            + all_from(c.children@, area_fill_val_fn(), j as int) + group_from(
                            cs,
                            "areaFills"@,
                            area_fill_val_fn(),
                            i as int + 1,
                        ),
                    decreases c.children@.len() - j,
                {
                    let m = &c.children[j];
                    match AreaFill::parse(m) {
                        Ok(v) => {
                            area_fills.push(v);
                        },
                        Err(e) => {
                            return Err(e);
                        },
                    }
                    j = j + 1;
                }
            } else if crate::str_eq(c.tag.as_str(), "colorProfiles") {
                let mut j: usize = 0;
                while j < c.children.len()
                    invariant
                        0 <= j <= c.children@.len(),
                        first_err(c.children@, color_profile_member_fn()) == err_from(
                            c.children@,
                            color_profile_member_fn(),
                            j as int,
                        ),
                        group_list(cs, "colorProfiles"@, color_profile_val_fn()) == seq_deep_view(color_profiles@)
                            + all_from(c.children@, color_profile_val_fn(), j as int) + group_from(
                            cs,
                            "colorProfiles"@,
                            color_profile_val_fn(),
                            i as int + 1,
                        ),
                    decreases c.children@.len() - j,
                {
                    let m = &c.children[j];
                    match ColorProfile::parse(m) {
                        Ok(v) => {
                            color_profiles.push(v);
                        },
                        Err(e) => {
                            return Err(e);
                        },
                    }
                    j = j + 1;
                }
            } else if crate::str_eq(c.tag.as_str(), "context") {
                let mut j: usize = 0;
                while j < c.children.len()
                    invariant
                        0 <= j <= c.children@.len(),
                        first_err(c.children@, parameter_member_fn()) == err_from(
                            c.children@,
                            parameter_member_fn(),
                            j as int,
                        ),
                        group_list(cs, "context"@, parameter_val_fn()) == seq_deep_view(context@)
                            + all_from(c.children@, parameter_val_fn(), j as int) + group_from(
                            cs,
                            "context"@,
                            parameter_val_fn(),
                            i as int + 1,
                        ),
                    decreases c.children@.len() - j,
                {
                    let m = &c.children[j];
                    match Parameter::parse(m) {
                        Ok(v) => {
                            context.push(v);
                        },
                        Err(e) => {
                            return Err(e);
                        },
                    }
                    j = j + 1;
                }
            } else if crate::str_eq(c.tag.as_str(), "displayModes") {
                let mut j: usize = 0;
                while j < c.children.len()
                    invariant
                        0 <= j <= c.children@.len(),
                        first_err(c.children@, display_mode_member_fn()) == err_from(
                            c.children@,
                            display_mode_member_fn(),
                            j as int,
                        ),
                        group_list(cs, "displayModes"@, display_mode_val_fn()) == seq_deep_view(display_modes@)
                            + all_from(c.children@, display_mode_val_fn(), j as int) + group_from(
                            cs,
                            "displayModes"@,
                            display_mode_val_fn(),
                            i as int + 1,
                        ),
                    decreases c.children@.len() - j,
                {
                    let m = &c.children[j];
                    match DisplayMode::parse(m) {
                        Ok(v) => {
                            display_modes.push(v);
                        },
                        Err(e) => {
                            return Err(e);
                        },
                    }
                    j = j + 1;
                }
            } else if crate::str_eq(c.tag.as_str(), "displayPlanes") {
                let mut j: usize = 0;
                while j < c.children.len()
                    invariant
                        0 <= j <= c.children@.len(),
                        first_err(c.children@, display_plane_member_fn()) == err_from(
                            c.children@,
                            display_plane_member_fn(),
                            j as int,
                        ),
                        group_list(cs, "displayPlanes"@, display_plane_val_fn()) == seq_deep_view(display_planes@)
                            + all_from(c.children@, display_plane_val_fn(), j as int) + group_from(
                            cs,
                            "displayPlanes"@,
                            display_plane_val_fn(),
                            i as int + 1,
                        ),
                    decreases c.children@.len() - j,
                {
                    let m = &c.children[j];
                    match DisplayPlane::parse(m) {
                        Ok(v) => {
                            display_planes.push(v);
                        },
                        Err(e) => {
                            return Err(e);
                        },
                    }
                    j = j + 1;
                }
            } else if crate::str_eq(c.tag.as_str(), "fonts") {
                let mut j: usize = 0;
                while j < c.children.len()
                    invariant
                        0 <= j <= c.children@.len(),
                        first_err(c.children@, font_member_fn()) == err_from(
                            c.children@,
                            font_member_fn(),
                            j as int,
                        ),
                        group_list(cs, "fonts"@, font_val_fn()) == seq_deep_view(fonts@)
                            + all_from(c.children@, font_val_fn(), j as int) + group_from(
                            cs,
                            "fonts"@,
                            font_val_fn(),
                            i as int + 1,
                        ),
                    decreases c.children@.len() - j,
                {
                    let m = &c.children[j];
                    match Font::parse(m) {
                        Ok(v) => {
                            fonts.push(v);
                        },
                        Err(e) => {
                            return Err(e);
                        },
                    }
                    j = j + 1;
                }
            } else if crate::str_eq(c.tag.as_str(), "foundationMode") {
                let mut j: usize = 0;
                while j < c.children.len()
                    invariant
                        0 <= j <= c.children@.len(),
                        group_list(cs, "foundationMode"@, text_val_fn()) == seq_deep_view(
                            foundation_mode@,
                        ) + all_from(c.children@, text_val_fn(), j as int) + group_from(
                            cs,
                            "foundationMode"@,
                            text_val_fn(),
                            i as int + 1,
                        ),
                    decreases c.children@.len() - j,
                {
                    let m = &c.children[j];
                    foundation_mode.push(m.text.clone());
                    j = j + 1;
                }
            } else if crate::str_eq(c.tag.as_str(), "lineStyles") {
                let mut j: usize = 0;
                while j < c.children.len()
                    invariant
                        0 <= j <= c.children@.len(),
                        first_err(c.children@, line_style_member_fn()) == err_from(
                            c.children@,
                            line_style_member_fn(),
                            j as int,
                        ),
                        group_list(cs, "lineStyles"@, line_style_val_fn()) == seq_deep_view(line_styles@)
                            + all_from(c.children@, line_style_val_fn(), j as int) + group_from(
                            cs,
                            "lineStyles"@,
                            line_style_val_fn(),
                            i as int + 1,
                        ),
                    decreases c.children@.len() - j,
                {
                    let m = &c.children[j];
                    match LineStyle::parse(m) {
                        Ok(v) => {
                            line_styles.push(v);
                        },
                        Err(e) => {
                            return Err(e);
                        },
                    }
                    j = j + 1;
                }
            } else if crate::str_eq(c.tag.as_str(), "pixmaps") {
                let mut j: usize = 0;
                while j < c.children.len()
                    invariant
                        0 <= j <= c.children@.len(),
                        first_err(c.children@, pixmap_member_fn()) == err_from(
                            c.children@,
                            pixmap_member_fn(),
                            j as int,
                        ),
                        group_list(cs, "pixmaps"@, pixmap_val_fn()) == seq_deep_view(pixmaps@)
                            + all_from(c.children@, pixmap_val_fn(), j as int) + group_from(
                            cs,
                            "pixmaps"@,
                            pixmap_val_fn(),
                            i as int + 1,
                        ),
                    decreases c.children@.len() - j,
                {
                    let m = &c.children[j];
                    match Pixmap::parse(m) {
                        Ok(v) => {
                            pixmaps.push(v);
                        },
                        Err(e) => {
                            return Err(e);
                        },
                    }
                    j = j + 1;
                }
            } else if crate::str_eq(c.tag.as_str(), "rules") {
                let mut j: usize = 0;
                while j < c.children.len()
                    invariant
                        0 <= j <= c.children@.len(),
                        first_err(c.children@, rule_file_member_fn()) == err_from(
                            c.children@,
                            rule_file_member_fn(),
                            j as int,
                        ),
                        group_list(cs, "rules"@, rule_file_val_fn()) == seq_deep_view(rules@)
                            + all_from(c.children@, rule_file_val_fn(), j as int) + group_from(
                            cs,
                            "rules"@,
                            rule_file_val_fn(),
                            i as int + 1,
                        ),
                    decreases c.children@.len() - j,
                {
                    let m = &c.children[j];
                    match RuleFile::parse(m) {
                        Ok(v) => {
                            rules.push(v);
                        },
                        Err(e) => {
                            return Err(e);
                        },
                    }
                    j = j + 1;
                }
            } else if crate::str_eq(c.tag.as_str(), "styleSheets") {
                let mut j: usize = 0;
                while j < c.children.len()
                    invariant
                        0 <= j <= c.children@.len(),
                        first_err(c.children@, style_sheet_member_fn()) == err_from(
                            c.children@,
                            style_sheet_member_fn(),
                            j as int,
                        ),
                        group_list(cs, "styleSheets"@, style_sheet_val_fn()) == seq_deep_view(style_sheets@)
                            + all_from(c.children@, style_sheet_val_fn(), j as int) + group_from(
                            cs,
                            "styleSheets"@,
                            style_sheet_val_fn(),
                            i as int + 1,
                        ),
                    decreases c.children@.len() - j,
                {
                    let m = &c.children[j];
                    match StyleSheet::parse(m) {
                        Ok(v) => {
                            style_sheets.push(v);
                        },
                        Err(e) => {
                            return Err(e);
                        },
                    }
                    j = j + 1;
                }
            } else if crate::str_eq(c.tag.as_str(), "symbols") {
                let mut j: usize = 0;
                while j < c.children.len()
                    invariant
                        0 <= j <= c.children@.len(),
                        first_err(c.children@, symbol_member_fn()) == err_from(
                            c.children@,
                            symbol_member_fn(),
                            j as int,
                        ),
                        group_list(cs, "symbols"@, symbol_val_fn()) == seq_deep_view(symbols@)
                            + all_from(c.children@, symbol_val_fn(), j as int) + group_from(
                            cs,
                            "symbols"@,
                            symbol_val_fn(),
                            i as int + 1,
                        ),
                    decreases c.children@.len() - j,
                {
                    let m = &c.children[j];
                    match Symbol::parse(m) {
                        Ok(v) => {
                            symbols.push(v);
                        },
                        Err(e) => {
                            return Err(e);
                        },
                    }
                    j = j + 1;
                }
            } else if crate::str_eq(c.tag.as_str(), "viewingGroups") {
                let mut j: usize = 0;
                while j < c.children.len()
                    invariant
                        0 <= j <= c.children@.len(),
                        first_err(c.children@, viewing_group_member_fn()) == err_from(
                            c.children@,
                            viewing_group_member_fn(),
                            j as int,
                        ),
                        group_list(cs, "viewingGroups"@, viewing_group_val_fn()) == seq_deep_view(viewing_groups@)
                            + all_from(c.children@, viewing_group_val_fn(), j as int) + group_from(
                            cs,
                            "viewingGroups"@,
                            viewing_group_val_fn(),
                            i as int + 1,
                        ),
                    decreases c.children@.len() - j,
                {
                    let m = &c.children[j];
                    match ViewingGroup::parse(m) {
                        Ok(v) => {
                            viewing_groups.push(v);
                        },
                        Err(e) => {
                            return Err(e);
                        },
                    }
                    j = j + 1;
                }
            } else if crate::str_eq(c.tag.as_str(), "viewingGroupLayers") {
                let mut j: usize = 0;
                while j < c.children.len()
                    invariant
                        0 <= j <= c.children@.len(),
                        first_err(c.children@, viewing_group_layer_member_fn()) == err_from(
                            c.children@,
                            viewing_group_layer_member_fn(),
                            j as int,
                        ),
                        group_list(cs, "viewingGroupLayers"@, viewing_group_layer_val_fn()) == seq_deep_view(viewing_group_layers@)
                            + all_from(c.children@, viewing_group_layer_val_fn(), j as int) + group_from(
                            cs,
                            "viewingGroupLayers"@,
                            viewing_group_layer_val_fn(),
                            i as int + 1,
                        ),
                    decreases c.children@.len() - j,
                {
                    let m = &c.children[j];
                    match ViewingGroupLayer::parse(m) {
                        Ok(v) => {
                            viewing_group_layers.push(v);
                        },
                        Err(e) => {
                            return Err(e);
                        },
                    }
                    j = j + 1;
                }
            } else {
                return Err(S100Error::invalid_child(&node.tag, &c.tag));
            }
            i = i + 1;
        }
        Ok(PortrayalCatalog { alert_catalog, area_fills, color_profiles, context, display_modes, display_planes, fonts, foundation_mode, line_styles, pixmaps, rules, style_sheets, symbols, viewing_groups, viewing_group_layers })
    }

    /// The alert catalogue reference, if the document carries one.
    pub fn alert_catalog(&self) -> (r: Option<&AlertCatalog>)
        ensures
            match r {
                Some(a) => self@.alert_catalog == Some(a@),
                None => self@.alert_catalog is None,
            },
    {
        match self.alert_catalog.as_ref() {
            Some(val) => Some(val),
            None => None,
        }
    }

    /// The area fills of the catalogue, in document order.
    pub fn area_fills(&self) -> (r: &[AreaFill])
        ensures
            seq_deep_view(r@) == self@.area_fills,
    {
        self.area_fills.as_slice()
    }

    /// The color profiles of the catalogue, in document order.
    pub fn color_profiles(&self) -> (r: &[ColorProfile])
        ensures
            seq_deep_view(r@) == self@.color_profiles,
    {
        self.color_profiles.as_slice()
    }

    /// The context of the catalogue, in document order.
    pub fn context(&self) -> (r: &[Parameter])
        ensures
            seq_deep_view(r@) == self@.context,
    {
        self.context.as_slice()
    }

    /// The display modes of the catalogue, in document order.
    pub fn display_modes(&self) -> (r: &[DisplayMode])
        ensures
            seq_deep_view(r@) == self@.display_modes,
    {
        self.display_modes.as_slice()
    }

    /// The display planes of the catalogue, in document order.
    pub fn display_planes(&self) -> (r: &[DisplayPlane])
        ensures
            seq_deep_view(r@) == self@.display_planes,
    {
        self.display_planes.as_slice()
    }

    /// The fonts of the catalogue, in document order.
    pub fn fonts(&self) -> (r: &[Font])
        ensures
            seq_deep_view(r@) == self@.fonts,
    {
        self.fonts.as_slice()
    }

    /// The viewing-group references of the foundation mode, in document
    /// order.
    pub fn foundation_mode(&self) -> (r: &[String])
        ensures
            seq_deep_view(r@) == self@.foundation_mode,
    {
        self.foundation_mode.as_slice()
    }

    /// The line styles of the catalogue, in document order.
    pub fn line_styles(&self) -> (r: &[LineStyle])
        ensures
            seq_deep_view(r@) == self@.line_styles,
    {
        self.line_styles.as_slice()
    }

    /// The pixmaps of the catalogue, in document order.
    pub fn pixmaps(&self) -> (r: &[Pixmap])
        ensures
            seq_deep_view(r@) == self@.pixmaps,
    {
        self.pixmaps.as_slice()
    }

    /// The rules of the catalogue, in document order.
    pub fn rules(&self) -> (r: &[RuleFile])
        ensures
            seq_deep_view(r@) == self@.rules,
    {
        self.rules.as_slice()
    }

    /// The style sheets of the catalogue, in document order.
    pub fn style_sheets(&self) -> (r: &[StyleSheet])
        ensures
            seq_deep_view(r@) == self@.style_sheets,
    {
        self.style_sheets.as_slice()
    }

    /// The symbols of the catalogue, in document order.
    pub fn symbols(&self) -> (r: &[Symbol])
        ensures
            seq_deep_view(r@) == self@.symbols,
    {
        self.symbols.as_slice()
    }

    /// The viewing groups of the catalogue, in document order.
    pub fn viewing_groups(&self) -> (r: &[ViewingGroup])
        ensures
            seq_deep_view(r@) == self@.viewing_groups,
    {
        self.viewing_groups.as_slice()
    }

    /// The viewing group layers of the catalogue, in document order.
    pub fn viewing_group_layers(&self) -> (r: &[ViewingGroupLayer])
        ensures
            seq_deep_view(r@) == self@.viewing_group_layers,
    {
        self.viewing_group_layers.as_slice()
    }
}


/// An unrecognized child tag under this strict parser is rejected, naming
/// both the parent tag and the offending child tag: the first child outside
/// the table decides the outcome.
pub proof fn lemma_portrayal_catalog_rejects_unknown_child(e: Element, j: int)
    requires
        e.tag@ == "portrayalCatalog"@,
        0 <= j < e.children@.len(),
        !(e.children@[j].tag@ == "alertCatalog"@ || e.children@[j].tag@ == "areaFills"@ || e.children@[j].tag@ == "colorProfiles"@ || e.children@[j].tag@ == "context"@ || e.children@[j].tag@ == "displayModes"@ || e.children@[j].tag@ == "displayPlanes"@ || e.children@[j].tag@ == "fonts"@ || e.children@[j].tag@ == "foundationMode"@ || e.children@[j].tag@ == "lineStyles"@ || e.children@[j].tag@ == "pixmaps"@ || e.children@[j].tag@ == "rules"@ || e.children@[j].tag@ == "styleSheets"@ || e.children@[j].tag@ == "symbols"@ || e.children@[j].tag@ == "viewingGroups"@ || e.children@[j].tag@ == "viewingGroupLayers"@),
        forall|k: int| 0 <= k < j ==> portrayal_catalog_child_err(#[trigger] e.children@[k]) is None,
    ensures
        spec_parse_portrayal_catalog(e) == Err::<PortrayalCatalogView, ErrorView>(
            ErrorView::InvalidChild { parent: "portrayalCatalog"@, child: e.children@[j].tag@ },
        ),
{
    crate::xml::lemma_err_from_at(e.children@, portrayal_catalog_child_fn(), 0, j);
}

} // verus!
