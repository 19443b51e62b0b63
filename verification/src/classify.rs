//! The field classifier: each field's flags decide which roles the field
//! takes. The roles are independent of one another: a field that is ignored
//! for binding can still be vertex input or the source of a shader define.

use crate::attributes::{attributes_of, UniformAttributes};
use crate::shape::{field_views, FieldDecl, FieldDeclView};
use vstd::prelude::*;

verus! {

/// How a vertex-input field was marked.
#[derive(Clone, Copy, Debug, PartialEq, Eq, Structural)]
pub enum VertexStep {
    Instance,
    Vertex,
}

/// The roles of one field.
#[derive(Clone, Copy, Debug, PartialEq, Eq)]
pub struct FieldRoles {
    /// The field takes part in uniform and texture binding.
    pub bindable: bool,
    /// The field's optional value contributes a shader define.
    pub shader_def: bool,
    /// The field is vertex input, marked in this way.
    pub vertex_input: Option<VertexStep>,
}

/// The roles that a field with the flags `attributes` takes. Where a field
/// is marked both `instance` and `vertex`, `instance` decides.
pub open spec fn roles_of(attributes: UniformAttributes) -> FieldRoles {
    FieldRoles {
        bindable: !attributes.ignore,
        shader_def: attributes.shader_def,
        vertex_input: if attributes.instance {
            Some(VertexStep::Instance)
        } else if attributes.vertex {
            Some(VertexStep::Vertex)
        } else {
            None
        },
    }
}

impl UniformAttributes {
    /// The roles that a field with these flags takes.
    pub fn roles(&self) -> (r: FieldRoles)
        ensures
            r == roles_of(*self),
    {
        FieldRoles {
            bindable: !self.ignore,
            shader_def: self.shader_def,
            vertex_input: if self.instance {
                Some(VertexStep::Instance)
            } else if self.vertex {
                Some(VertexStep::Vertex)
            } else {
                None
            },
        }
    }
}

/// A field as the classifier sees it: its name, the name of its type, and
/// the flags that its annotation sets.
#[derive(Clone, Debug, PartialEq, Eq)]
pub struct UniformField {
    pub name: String,
    pub ty: String,
    pub attributes: UniformAttributes,
}

pub struct UniformFieldView {
    pub name: Seq<char>,
    pub ty: Seq<char>,
    pub attributes: UniformAttributes,
}

impl View for UniformField {
    type V = UniformFieldView;

    open spec fn view(&self) -> UniformFieldView {
        UniformFieldView { name: self.name@, ty: self.ty@, attributes: self.attributes }
    }
}

/// The views of a vector of fields, in order.
pub open spec fn uniform_field_views(fields: Seq<UniformField>) -> Seq<UniformFieldView> {
    fields.map_values(|field: UniformField| field@)
}

/// A declared field with its annotation read.
pub open spec fn uniform_field_of(field: FieldDeclView) -> UniformFieldView {
    UniformFieldView { name: field.name, ty: field.ty, attributes: attributes_of(field.attrs) }
}

/// The declared fields with their annotations read, in declared order.
pub open spec fn uniform_fields_of(fields: Seq<FieldDeclView>) -> Seq<UniformFieldView> {
    fields.map_values(|field: FieldDeclView| uniform_field_of(field))
}

/// The places `0`, `1`, .. of `n` fields.
pub open spec fn positions(n: nat) -> Seq<int> {
    Seq::new(n, |i: int| i)
}

/// Reads the annotation of each declared field. The fields keep their order.
pub fn read_fields(fields: &Vec<FieldDecl>) -> (r: Vec<UniformField>)
    ensures
        uniform_field_views(r@) == uniform_fields_of(field_views(fields@)),
{
    let mut read: Vec<UniformField> = Vec::new();
    let mut i: usize = 0;
    while i < fields.len()
        invariant
            i <= fields.len(),
            read.len() == i,
            forall|j: int| 0 <= j < i ==> (#[trigger] read[j])@ == uniform_field_of(fields[j]@),
        decreases fields.len() - i,
    {
        let field = &fields[i];
        let attributes = UniformAttributes::from_attributes(&field.attrs);
        read.push(UniformField { name: field.name.clone(), ty: field.ty.clone(), attributes });
        i += 1;
    }
    assert(uniform_field_views(read@) =~= uniform_fields_of(field_views(fields@)));
    read
}

} // verus!
