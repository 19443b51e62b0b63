//! Uniform-binding descriptors for application-defined structs.
//!
//! From the declaration of a struct, its fields with the `uniform`
//! annotations written on them, and a table of what is known of the fields'
//! types, [`derive_uniforms`] generates a descriptor: the table of the
//! struct's bindable fields, the dispatch from names to fields, the templates
//! of its shader defines and its vertex layout. [`derive_uniform`] describes
//! a struct that is bound as one value. What a descriptor reads at run time
//! comes from the values of one instance, handed to its accessors.

pub mod artifact;
pub mod attributes;
pub mod classify;
pub mod derive;
pub mod error;
pub mod formats;
pub mod laws;
pub mod layout;
pub mod naming;
pub mod search;
pub mod shape;

pub use crate::derive::{derive_uniform, derive_uniforms};
