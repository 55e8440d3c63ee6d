//! Tagged value sets over native compiler values.
//!
//! A native value is seen through [`handle::ValueRef`]: its identity, the type it has and the
//! kind of that type. The concrete wrappers of [`values`] each accept the values of one kind,
//! and the sets of [`enums`] classify a value into the wrapper its type kind calls for.
pub mod handle;
pub mod types;
pub mod values;
pub mod enums;
pub mod laws;
