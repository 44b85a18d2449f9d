//! The feature catalogue: the vocabulary of simple attributes a product may
//! carry, each with its closed value type and optional listed values.

pub mod attribute_value_type;
pub mod definition_reference;
pub mod feature_catalog;
pub mod item;
pub mod listed_value;
pub mod quantity_specification;
pub mod simple_attribute;
