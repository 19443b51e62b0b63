//! The emitter: from a declaration and the table of types to the descriptor.
//!
//! Generation reads the declaration once and is a function of it and of the
//! table alone. It fails as a whole or not at all: a declaration that is no
//! struct with named fields, a `buffer` field whose type does not bind as a
//! plain uniform, a vertex-input field whose type the table does not list,
//! and a layout that does not fit its integers each end it without a
//! descriptor.

use crate::artifact::{
    binding_views, field_info_views, shader_def_views, Binding, BindingView, FieldInfo, FieldInfoView,
    ShaderDef, ShaderDefView, Uniforms, UniformsView,
};
use crate::classify::{
    positions, read_fields, roles_of, uniform_field_views, uniform_fields_of, UniformField,
    UniformFieldView, VertexStep,
};
use crate::error::GenerationError;
use crate::formats::{bind_type_of, formats_of, FieldBindType, GpuFormatTable, TypeEntryView, VertexFormat};
use crate::layout::{
    build_vertex_layout, layout_fits, layout_of, vertex_input_views, VertexInput, VertexInputView,
};
use crate::naming::{
    pascal_case, sampler_name, sampler_name_of, screaming_snake_case, texture_name, texture_name_of,
    to_pascal_case, to_screaming_snake_case, to_uppercase, uniform_name, uniform_name_of, uppercase,
    vertex_attribute_name, vertex_attribute_name_of,
};
use crate::shape::{StructDecl, StructDeclView, StructShapeView};
use vstd::prelude::*;

verus! {

/// The entry of a bindable field in the table of fields.
pub open spec fn field_info_of(struct_name: Seq<char>, field: UniformFieldView) -> FieldInfoView {
    FieldInfoView {
        name: field.name,
        uniform_name: uniform_name_of(struct_name, field.name),
        texture_name: texture_name_of(struct_name, field.name),
        sampler_name: sampler_name_of(uniform_name_of(struct_name, field.name)),
        is_instanceable: field.attributes.instance,
    }
}

/// The entry of a field, where the field is bindable.
pub open spec fn info_for(struct_name: Seq<char>) -> spec_fn(UniformFieldView) -> Option<FieldInfoView> {
    |field: UniformFieldView|
        if roles_of(field.attributes).bindable {
            Some(field_info_of(struct_name, field))
        } else {
            None
        }
}

/// The table of fields: one entry for each bindable field, in declared order.
pub open spec fn field_infos_of(struct_name: Seq<char>, fields: Seq<UniformFieldView>) -> Seq<
    FieldInfoView,
> {
    fields.filter_map(info_for(struct_name))
}

/// The type binds by itself as a plain uniform.
pub open spec fn binds_as_uniform(native: Option<FieldBindType>) -> bool {
    native matches Some(FieldBindType::Uniform { .. })
}

/// The shape in which a field binds whose type binds by itself as `native`:
/// as the type does, or, for a field marked `buffer`, as a buffer of the
/// size of the type's plain uniform.
pub open spec fn bind_type_for(native: Option<FieldBindType>, buffer: bool) -> Option<FieldBindType> {
    if buffer {
        match native {
            Some(FieldBindType::Uniform { size }) => Some(FieldBindType::Buffer { size }),
            _ => None,
        }
    } else {
        native
    }
}

/// The field is not bound as a buffer, or its type can be.
pub open spec fn buffer_fits(table: Seq<TypeEntryView>, field: UniformFieldView) -> bool {
    roles_of(field.attributes).bindable && field.attributes.buffer ==> binds_as_uniform(
        bind_type_of(table, field.ty),
    )
}

/// Every field that is bound as a buffer has a type that can be.
pub open spec fn buffers_fit(table: Seq<TypeEntryView>, fields: Seq<UniformFieldView>) -> bool {
    forall|i: int| 0 <= i < fields.len() ==> buffer_fits(table, #[trigger] fields[i])
}

/// The row of the dispatch table for the bindable field at `place`.
pub open spec fn binding_of(
    struct_name: Seq<char>,
    table: Seq<TypeEntryView>,
    field: UniformFieldView,
    place: int,
) -> BindingView {
    BindingView {
        uniform_name: uniform_name_of(struct_name, field.name),
        texture_name: texture_name_of(struct_name, field.name),
        sampler_name: sampler_name_of(uniform_name_of(struct_name, field.name)),
        textured: true,
        field: place as nat,
        bind_type: bind_type_for(bind_type_of(table, field.ty), field.attributes.buffer),
    }
}

/// The row for the field at a place, where the field is bindable.
pub open spec fn binding_for(
    struct_name: Seq<char>,
    table: Seq<TypeEntryView>,
    fields: Seq<UniformFieldView>,
) -> spec_fn(int) -> Option<BindingView> {
    |i: int|
        if roles_of(fields[i].attributes).bindable {
            Some(binding_of(struct_name, table, fields[i], i))
        } else {
            None
        }
}

/// The dispatch table: one row for each bindable field, in declared order.
pub open spec fn bindings_of(
    struct_name: Seq<char>,
    table: Seq<TypeEntryView>,
    fields: Seq<UniformFieldView>,
) -> Seq<BindingView> {
    positions(fields.len()).filter_map(binding_for(struct_name, table, fields))
}

/// The template for the field at a place, where the field contributes a
/// shader define: its label is the field's name in screaming snake case.
pub open spec fn template_for(fields: Seq<UniformFieldView>) -> spec_fn(int) -> Option<ShaderDefView> {
    |i: int|
        if roles_of(fields[i].attributes).shader_def {
            Some(ShaderDefView { label: screaming_snake_case(fields[i].name), field: i as nat })
        } else {
            None
        }
}

/// The templates of the shader defines, in declared order.
pub open spec fn templates_of(fields: Seq<UniformFieldView>) -> Seq<ShaderDefView> {
    positions(fields.len()).filter_map(template_for(fields))
}

/// The formats of a type that the table may not list.
pub open spec fn formats_or_none(table: Seq<TypeEntryView>, ty: Seq<char>) -> Seq<VertexFormat> {
    match formats_of(table, ty) {
        Some(formats) => formats,
        None => Seq::empty(),
    }
}

/// A field as vertex input, where it is one: its attributes are named after
/// the struct and the field's name in Pascal case, with `I_` in front for a
/// field that is marked `instance`.
pub open spec fn vertex_input_for(struct_name: Seq<char>, table: Seq<TypeEntryView>) -> spec_fn(
    UniformFieldView,
) -> Option<VertexInputView> {
    |field: UniformFieldView|
        match roles_of(field.attributes).vertex_input {
            Some(step) => Some(
                VertexInputView {
                    name: vertex_attribute_name_of(
                        struct_name,
                        pascal_case(field.name),
                        step == VertexStep::Instance,
                    ),
                    formats: formats_or_none(table, field.ty),
                },
            ),
            None => None,
        }
}

/// The vertex inputs, in declared order, whichever way each is marked.
pub open spec fn vertex_inputs_of(
    struct_name: Seq<char>,
    table: Seq<TypeEntryView>,
    fields: Seq<UniformFieldView>,
) -> Seq<VertexInputView> {
    fields.filter_map(vertex_input_for(struct_name, table))
}

/// The field is no vertex input, or the table lists its type.
pub open spec fn vertex_type_listed(table: Seq<TypeEntryView>, field: UniformFieldView) -> bool {
    roles_of(field.attributes).vertex_input is Some ==> formats_of(table, field.ty) is Some
}

/// The table lists the type of every vertex-input field.
pub open spec fn vertex_types_listed(table: Seq<TypeEntryView>, fields: Seq<UniformFieldView>) -> bool {
    forall|i: int| 0 <= i < fields.len() ==> vertex_type_listed(table, #[trigger] fields[i])
}

/// The descriptor of a struct with the fields `fields`, or why there is none.
pub open spec fn generated_from_fields(
    struct_name: Seq<char>,
    fields: Seq<UniformFieldView>,
    table: Seq<TypeEntryView>,
) -> Result<UniformsView, GenerationError> {
    if !buffers_fit(table, fields) {
        Err(GenerationError::IncompatibleBuffer)
    } else if !vertex_types_listed(table, fields) {
        Err(GenerationError::MissingVertexFormat)
    } else if !layout_fits(vertex_inputs_of(struct_name, table, fields)) {
        Err(GenerationError::LayoutOverflow)
    } else {
        Ok(
            UniformsView {
                field_infos: field_infos_of(struct_name, fields),
                bindings: bindings_of(struct_name, table, fields),
                shader_def_prefix: uppercase(struct_name),
                shader_defs: templates_of(fields),
                vertex_buffer_descriptor: layout_of(
                    struct_name,
                    vertex_inputs_of(struct_name, table, fields),
                ),
            },
        )
    }
}

/// The descriptor of the declaration `decl`, or why there is none.
pub open spec fn generated(decl: StructDeclView, table: Seq<TypeEntryView>) -> Result<
    UniformsView,
    GenerationError,
> {
    match decl.shape {
        StructShapeView::Named(fields) => generated_from_fields(
            decl.name,
            uniform_fields_of(fields),
            table,
        ),
        _ => Err(GenerationError::NotNamedStruct),
    }
}

/// The descriptor of the declaration `decl` as one value: one entry and one
/// row under the struct's own name, no textures, no template of a shader
/// define, so that the list of its defines is empty, and no vertex layout.
pub open spec fn generated_single(decl: StructDeclView, table: Seq<TypeEntryView>) -> UniformsView {
    UniformsView {
        field_infos: seq![
            FieldInfoView {
                name: decl.name,
                uniform_name: decl.name,
                texture_name: decl.name,
                sampler_name: decl.name,
                is_instanceable: false,
            },
        ],
        bindings: seq![
            BindingView {
                uniform_name: decl.name,
                texture_name: decl.name,
                sampler_name: decl.name,
                textured: false,
                field: 0,
                bind_type: bind_type_of(table, decl.name),
            },
        ],
        shader_def_prefix: Seq::empty(),
        shader_defs: Seq::empty(),
        vertex_buffer_descriptor: None,
    }
}

/// The view of what generation returns.
pub open spec fn generation_view(result: Result<Uniforms, GenerationError>) -> Result<
    UniformsView,
    GenerationError,
> {
    match result {
        Ok(uniforms) => Ok(uniforms@),
        Err(error) => Err(error),
    }
}

/// The shape in which a field binds whose type binds by itself as `native`.
/// A field marked `buffer` binds as a buffer of the size of its type's plain
/// uniform, and cannot be bound where its type binds in any other way.
pub fn resolve_bind_type(native: Option<FieldBindType>, buffer: bool) -> (r: Result<
    Option<FieldBindType>,
    GenerationError,
>)
    ensures
        match r {
            Ok(bind_type) => {
                &&& buffer ==> binds_as_uniform(native)
                &&& bind_type == bind_type_for(native, buffer)
            },
            Err(error) => {
                &&& error == GenerationError::IncompatibleBuffer
                &&& buffer
                &&& !binds_as_uniform(native)
            },
        },
{
    if buffer {
        match native {
            Some(FieldBindType::Uniform { size }) => Ok(Some(FieldBindType::Buffer { size })),
            _ => Err(GenerationError::IncompatibleBuffer),
        }
    } else {
        Ok(native)
    }
}

/// The table of fields of the struct named `struct_name`.
pub fn build_field_infos(struct_name: &str, fields: &Vec<UniformField>) -> (r: Vec<FieldInfo>)
    ensures
        field_info_views(r@) == field_infos_of(struct_name@, uniform_field_views(fields@)),
{
    let ghost views = uniform_field_views(fields@);
    let ghost info = info_for(struct_name@);
    let mut infos: Vec<FieldInfo> = Vec::new();
    let mut i: usize = 0;
    assert(views.take(0) =~= Seq::<UniformFieldView>::empty());
    while i < fields.len()
        invariant
            i <= fields.len(),
            views == uniform_field_views(fields@),
            info == info_for(struct_name@),
            field_info_views(infos@) == views.take(i as int).filter_map(info),
        decreases fields.len() - i,
    {
        let field = &fields[i];
        assert(views[i as int] == field@);
        proof {
            views.lemma_filter_map_take_succ(info, i as int);
        }
        let ghost before = field_info_views(infos@);
        if field.attributes.roles().bindable {
            let uniform = uniform_name(struct_name, field.name.as_str());
            let texture = texture_name(struct_name, field.name.as_str());
            let sampler = sampler_name(uniform.as_str());
            let entry = FieldInfo {
                name: field.name.clone(),
                uniform_name: uniform,
                texture_name: texture,
                sampler_name: sampler,
                is_instanceable: field.attributes.instance,
            };
            infos.push(entry);
            assert(field_info_views(infos@) =~= before + seq![entry@]);
        } else {
            assert(before + Seq::<FieldInfoView>::empty() =~= before);
        }
        i += 1;
    }
    assert(views.take(fields.len() as int) =~= views);
    infos
}

/// The dispatch table of the struct named `struct_name`. There is none
/// where a field is bound as a buffer and its type cannot be.
pub fn build_bindings(struct_name: &str, fields: &Vec<UniformField>, table: &GpuFormatTable) -> (r:
    Result<Vec<Binding>, GenerationError>)
    ensures
        match r {
            Ok(bindings) => {
                &&& buffers_fit(table@, uniform_field_views(fields@))
                &&& binding_views(bindings@) == bindings_of(
                    struct_name@,
                    table@,
                    uniform_field_views(fields@),
                )
            },
            Err(error) => {
                &&& error == GenerationError::IncompatibleBuffer
                &&& !buffers_fit(table@, uniform_field_views(fields@))
            },
        },
{
    let ghost views = uniform_field_views(fields@);
    let ghost places = positions(views.len());
    let ghost row = binding_for(struct_name@, table@, views);
    let mut bindings: Vec<Binding> = Vec::new();
    let mut i: usize = 0;
    assert(places.take(0) =~= Seq::<int>::empty());
    while i < fields.len()
        invariant
            i <= fields.len(),
            views == uniform_field_views(fields@),
            places == positions(views.len()),
            row == binding_for(struct_name@, table@, views),
            binding_views(bindings@) == places.take(i as int).filter_map(row),
            forall|j: int| 0 <= j < i ==> buffer_fits(table@, #[trigger] views[j]),
        decreases fields.len() - i,
    {
        let field = &fields[i];
        assert(views[i as int] == field@);
        proof {
            places.lemma_filter_map_take_succ(row, i as int);
        }
        let ghost before = binding_views(bindings@);
        if field.attributes.roles().bindable {
            let native = table.bind_type(field.ty.as_str());
            let bind_type = match resolve_bind_type(native, field.attributes.buffer) {
                Ok(bind_type) => bind_type,
                Err(error) => {
                    assert(!buffer_fits(table@, views[i as int]));
                    return Err(error);
                },
            };
            let uniform = uniform_name(struct_name, field.name.as_str());
            let texture = texture_name(struct_name, field.name.as_str());
            let sampler = sampler_name(uniform.as_str());
            let binding = Binding {
                uniform_name: uniform,
                texture_name: texture,
                sampler_name: sampler,
                textured: true,
                field: i,
                bind_type,
            };
            bindings.push(binding);
            assert(binding_views(bindings@) =~= before + seq![binding@]);
        } else {
            assert(before + Seq::<BindingView>::empty() =~= before);
        }
        i += 1;
    }
    assert(places.take(fields.len() as int) =~= places);
    Ok(bindings)
}

/// The templates of the shader defines of the fields `fields`.
pub fn build_shader_defs(fields: &Vec<UniformField>) -> (r: Vec<ShaderDef>)
    ensures
        shader_def_views(r@) == templates_of(uniform_field_views(fields@)),
{
    let ghost views = uniform_field_views(fields@);
    let ghost places = positions(views.len());
    let ghost template = template_for(views);
    let mut defs: Vec<ShaderDef> = Vec::new();
    let mut i: usize = 0;
    assert(places.take(0) =~= Seq::<int>::empty());
    while i < fields.len()
        invariant
            i <= fields.len(),
            views == uniform_field_views(fields@),
            places == positions(views.len()),
            template == template_for(views),
            shader_def_views(defs@) == places.take(i as int).filter_map(template),
        decreases fields.len() - i,
    {
        let field = &fields[i];
        assert(views[i as int] == field@);
        proof {
            places.lemma_filter_map_take_succ(template, i as int);
        }
        let ghost before = shader_def_views(defs@);
        if field.attributes.roles().shader_def {
            let def = ShaderDef { label: to_screaming_snake_case(field.name.as_str()), field: i };
            defs.push(def);
            assert(shader_def_views(defs@) =~= before + seq![def@]);
        } else {
            assert(before + Seq::<ShaderDefView>::empty() =~= before);
        }
        i += 1;
    }
    assert(places.take(fields.len() as int) =~= places);
    defs
}

/// A copy of `formats`.
fn copy_formats(formats: &Vec<VertexFormat>) -> (r: Vec<VertexFormat>)
    ensures
        r@ == formats@,
{
    let mut copy: Vec<VertexFormat> = Vec::new();
    let mut i: usize = 0;
    while i < formats.len()
        invariant
            i <= formats.len(),
            copy@ == formats@.take(i as int),
        decreases formats.len() - i,
    {
        copy.push(formats[i]);
        assert(copy@ =~= formats@.take(i as int + 1));
        i += 1;
    }
    assert(formats@.take(formats.len() as int) =~= formats@);
    copy
}

/// The vertex inputs of the struct named `struct_name`, in declared order.
/// There are none to be had where the table does not list the type of one.
pub fn build_vertex_inputs(struct_name: &str, fields: &Vec<UniformField>, table: &GpuFormatTable) -> (r:
    Result<Vec<VertexInput>, GenerationError>)
    ensures
        match r {
            Ok(inputs) => {
                &&& vertex_types_listed(table@, uniform_field_views(fields@))
                &&& vertex_input_views(inputs@) == vertex_inputs_of(
                    struct_name@,
                    table@,
                    uniform_field_views(fields@),
                )
            },
            Err(error) => {
                &&& error == GenerationError::MissingVertexFormat
                &&& !vertex_types_listed(table@, uniform_field_views(fields@))
            },
        },
{
    let ghost views = uniform_field_views(fields@);
    let ghost input = vertex_input_for(struct_name@, table@);
    let mut inputs: Vec<VertexInput> = Vec::new();
    let mut i: usize = 0;
    assert(views.take(0) =~= Seq::<UniformFieldView>::empty());
    while i < fields.len()
        invariant
            i <= fields.len(),
            views == uniform_field_views(fields@),
            input == vertex_input_for(struct_name@, table@),
            vertex_input_views(inputs@) == views.take(i as int).filter_map(input),
            forall|j: int| 0 <= j < i ==> vertex_type_listed(table@, #[trigger] views[j]),
        decreases fields.len() - i,
    {
        let field = &fields[i];
        assert(views[i as int] == field@);
        proof {
            views.lemma_filter_map_take_succ(input, i as int);
        }
        let ghost before = vertex_input_views(inputs@);
        match field.attributes.roles().vertex_input {
            Some(step) => {
                let formats = match table.formats(field.ty.as_str()) {
                    Some(formats) => copy_formats(formats),
                    None => {
                        assert(!vertex_type_listed(table@, views[i as int]));
                        return Err(GenerationError::MissingVertexFormat);
                    },
                };
                let pascal = to_pascal_case(field.name.as_str());
                let instance = match step {
                    VertexStep::Instance => true,
                    VertexStep::Vertex => false,
                };
                let name = vertex_attribute_name(struct_name, pascal.as_str(), instance);
                let entry = VertexInput { name, formats };
                inputs.push(entry);
                assert(vertex_input_views(inputs@) =~= before + seq![entry@]);
            },
            None => {
                assert(before + Seq::<VertexInputView>::empty() =~= before);
            },
        }
        i += 1;
    }
    assert(views.take(fields.len() as int) =~= views);
    Ok(inputs)
}

/// Generates the descriptor of a struct from its declaration and the table
/// of types.
///
/// The descriptor holds one entry and one dispatch row for each field that
/// is not ignored, one shader-define template for each field marked
/// `shader_def`, and the vertex layout of the fields marked `instance` or
/// `vertex`, all in declared order. Generation fails where `input` is no
/// struct with named fields; where a field bound as a buffer has a type that
/// does not bind as a plain uniform; where the table does not list the type
/// of a vertex-input field; and where the layout overflows. The first of
/// these that holds, in this order, is the error.
pub fn derive_uniforms(input: &StructDecl, table: &GpuFormatTable) -> (r: Result<Uniforms, GenerationError>)
    ensures
        generation_view(r) == generated(input@, table@),
{
    let declared = match input.named_fields() {
        Ok(fields) => fields,
        Err(error) => {
            return Err(error);
        },
    };
    let struct_name: &str = input.name.as_str();
    let fields = read_fields(declared);
    let bindings = match build_bindings(struct_name, &fields, table) {
        Ok(bindings) => bindings,
        Err(error) => {
            return Err(error);
        },
    };
    let inputs = match build_vertex_inputs(struct_name, &fields, table) {
        Ok(inputs) => inputs,
        Err(error) => {
            return Err(error);
        },
    };
    let vertex_buffer_descriptor = match build_vertex_layout(struct_name, &inputs) {
        Ok(descriptor) => descriptor,
        Err(error) => {
            return Err(error);
        },
    };
    let field_infos = build_field_infos(struct_name, &fields);
    let shader_defs = build_shader_defs(&fields);
    let shader_def_prefix = to_uppercase(struct_name);
    Ok(
        Uniforms {
            field_infos,
            bindings,
            shader_def_prefix,
            shader_defs,
            vertex_buffer_descriptor,
        },
    )
}

/// Generates the descriptor of a struct that is bound as one value. The
/// fields of the struct are not read: the descriptor holds one entry and one
/// dispatch row, under the struct's own name in every place, for the value
/// at place 0 of a target, and binds as the struct's own type does. It holds
/// no template of a shader define, so that the list of its shader defines is
/// there and empty for every target; it answers to no texture name and has
/// no vertex layout.
pub fn derive_uniform(input: &StructDecl, table: &GpuFormatTable) -> (r: Uniforms)
    ensures
        r@ == generated_single(input@, table@),
{
    let entry = FieldInfo {
        name: input.name.clone(),
        uniform_name: input.name.clone(),
        texture_name: input.name.clone(),
        sampler_name: input.name.clone(),
        is_instanceable: false,
    };
    let binding = Binding {
        uniform_name: input.name.clone(),
        texture_name: input.name.clone(),
        sampler_name: input.name.clone(),
        textured: false,
        field: 0,
        bind_type: table.bind_type(input.name.as_str()),
    };
    let mut field_infos: Vec<FieldInfo> = Vec::new();
    field_infos.push(entry);
    let mut bindings: Vec<Binding> = Vec::new();
    bindings.push(binding);
    let uniforms = Uniforms {
        field_infos,
        bindings,
        shader_def_prefix: String::new(),
        shader_defs: Vec::new(),
        vertex_buffer_descriptor: None,
    };
    assert(uniforms@.field_infos =~= generated_single(input@, table@).field_infos);
    assert(uniforms@.bindings =~= generated_single(input@, table@).bindings);
    assert(uniforms@.shader_defs =~= generated_single(input@, table@).shader_defs);
    uniforms
}

} // verus!
