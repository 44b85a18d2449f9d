//! The portrayal catalogue: the polymorphic family of catalogue items
//! (symbols, line styles, colour profiles, rules, viewing groups, display
//! modes and planes, parameters), each with an identifier and multilingual
//! descriptions, gathered under one strict root document.

pub mod alert_catalog;
pub mod area_fill;
pub mod catalog_item;
pub mod color_profile;
pub mod description;
pub mod display_mode;
pub mod display_plane;
pub mod drawing;
pub mod error_message;
pub mod file_format;
pub mod file_type;
pub mod font;
pub mod line_style;
pub mod parameter;
pub mod parameter_type;
pub mod pixmap;
pub mod portrayal_catalog;
pub mod rule_file;
pub mod rule_type;
pub mod style_sheet;
pub mod symbol;
pub mod validate;
pub mod viewing_group;
pub mod viewing_group_layer;
