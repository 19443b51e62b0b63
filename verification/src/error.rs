//! Why a descriptor could not be generated.

use vstd::prelude::*;

verus! {

/// A failure of generation. Each is final: no partial descriptor is handed out.
#[derive(Clone, Copy, Debug, PartialEq, Eq, Structural)]
pub enum GenerationError {
    /// What was declared is not a struct with named fields.
    NotNamedStruct,
    /// A field is marked `buffer`, and its type does not bind as a plain
    /// uniform that a buffer could take the size of.
    IncompatibleBuffer,
    /// A field is vertex input, and the table of types does not list its type.
    MissingVertexFormat,
    /// The vertex layout has more components than a shader location can
    /// number, or more bytes than a stride can hold.
    LayoutOverflow,
}

impl GenerationError {
    /// The failure in words.
    pub fn message(&self) -> (r: &'static str)
        ensures
            r@ == match *self {
                GenerationError::NotNamedStruct => "expected a struct with named fields"@,
                GenerationError::IncompatibleBuffer =>
                    "Uniform field was labeled as a 'buffer', but it does not have a compatible type."@,
                GenerationError::MissingVertexFormat =>
                    "Vertex input field has a type without vertex formats."@,
                GenerationError::LayoutOverflow => "Vertex layout does not fit its integer types."@,
            },
    {
        match self {
            GenerationError::NotNamedStruct => "expected a struct with named fields",
            GenerationError::IncompatibleBuffer =>
                "Uniform field was labeled as a 'buffer', but it does not have a compatible type.",
            GenerationError::MissingVertexFormat => "Vertex input field has a type without vertex formats.",
            GenerationError::LayoutOverflow => "Vertex layout does not fit its integer types.",
        }
    }
}

} // verus!
