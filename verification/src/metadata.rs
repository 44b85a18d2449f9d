//! The exchange catalogue: discovery metadata for every dataset file
//! delivered in a data exchange set.

pub mod data_format;
pub mod dataset_discovery_metadata;
pub mod exchange_catalog;
