//! The shape of the struct that is described: its name, its fields in the
//! order in which they are declared, and the attributes written on each.

use crate::attributes::{attribute_views, Attribute, AttributeView};
use crate::error::GenerationError;
use vstd::prelude::*;

verus! {

/// One declared field: its name, the name of its type, and its attributes.
#[derive(Clone, Debug, PartialEq, Eq)]
pub struct FieldDecl {
    pub name: String,
    pub ty: String,
    pub attrs: Vec<Attribute>,
}

pub struct FieldDeclView {
    pub name: Seq<char>,
    pub ty: Seq<char>,
    pub attrs: Seq<AttributeView>,
}

impl View for FieldDecl {
    type V = FieldDeclView;

    open spec fn view(&self) -> FieldDeclView {
        FieldDeclView { name: self.name@, ty: self.ty@, attrs: attribute_views(self.attrs@) }
    }
}

/// The views of a vector of fields, in order.
pub open spec fn field_views(fields: Seq<FieldDecl>) -> Seq<FieldDeclView> {
    fields.map_values(|field: FieldDecl| field@)
}

/// What was declared. Only a struct with named fields can be described.
#[derive(Clone, Debug, PartialEq, Eq)]
pub enum StructShape {
    /// A struct with named fields, in declared order.
    Named(Vec<FieldDecl>),
    /// A struct with positional fields.
    Tuple,
    /// A struct without fields.
    Unit,
    Enum,
    Union,
}

pub enum StructShapeView {
    Named(Seq<FieldDeclView>),
    Tuple,
    Unit,
    Enum,
    Union,
}

impl View for StructShape {
    type V = StructShapeView;

    open spec fn view(&self) -> StructShapeView {
        match self {
            StructShape::Named(fields) => StructShapeView::Named(field_views(fields@)),
            StructShape::Tuple => StructShapeView::Tuple,
            StructShape::Unit => StructShapeView::Unit,
            StructShape::Enum => StructShapeView::Enum,
            StructShape::Union => StructShapeView::Union,
        }
    }
}

/// The declaration that a descriptor is derived from.
#[derive(Clone, Debug, PartialEq, Eq)]
pub struct StructDecl {
    pub name: String,
    pub shape: StructShape,
}

pub struct StructDeclView {
    pub name: Seq<char>,
    pub shape: StructShapeView,
}

impl View for StructDecl {
    type V = StructDeclView;

    open spec fn view(&self) -> StructDeclView {
        StructDeclView { name: self.name@, shape: self.shape@ }
    }
}

impl StructDecl {
    /// The fields of the declaration in declared order. Only a struct with
    /// named fields has them: every other shape is refused.
    pub fn named_fields(&self) -> (r: Result<&Vec<FieldDecl>, GenerationError>)
        ensures
            match r {
                Ok(fields) => self@.shape == StructShapeView::Named(field_views(fields@)),
                Err(error) => error == GenerationError::NotNamedStruct && !(self@.shape is Named),
            },
    {
        match &self.shape {
            StructShape::Named(fields) => Ok(fields),
            _ => Err(GenerationError::NotNamedStruct),
        }
    }
}

} // verus!
