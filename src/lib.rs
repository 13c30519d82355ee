//! Ingestion of environmental sensor beacon broadcasts into tagged, multi-field
//! time-series data points.
pub mod address;
pub mod alias;
pub mod readings;
pub mod measurement;
pub mod fields;
pub mod point;
pub mod dispatch;
