//! The sections of a configuration fragment.
//!
//! Every field of a section is optional: a fragment sets only the fields that it
//! has an opinion on. Beside each section stands its view, and an impl of
//! [`Merge`](crate::strategy::Merge) that names the strategy of each field.

pub mod general;
pub mod system;
pub mod tools;
