//! What holds of every descriptor, stated over the same functions as the
//! contracts of generation and of the accessors.

use crate::artifact::{
    answers_texture, answers_uniform, buffer_after_write, define_for, field_bind_type_of, shader_defs_of,
    uniform_binding, uniform_bytes_of, uniform_texture_of, value_at, vertex_buffer_descriptor_of,
    written_len_of, BindingView, FieldInfoView, FieldValueView, UniformsView,
};
use crate::classify::{positions, roles_of, uniform_field_of, uniform_fields_of, UniformFieldView};
use crate::derive::{
    binding_for, generated, generated_single, info_for, template_for, templates_of, vertex_input_for,
    vertex_inputs_of,
};
use crate::error::GenerationError;
use crate::formats::TypeEntryView;
use crate::layout::{is_contiguous, lemma_layout_contiguous, VertexInputView};
use crate::naming::{screaming_snake_case, shader_def_token_of, uppercase};
use crate::search::{
    is_first, lemma_filter_map_has, lemma_filter_map_len, lemma_filter_map_nothing,
    lemma_first_match_absent, lemma_first_match_is_first, selects,
};
use crate::shape::{FieldDeclView, StructDeclView, StructShapeView};
use vstd::prelude::*;

verus! {

/// No field of `fields` is vertex input.
pub open spec fn no_vertex_input(fields: Seq<FieldDeclView>) -> bool {
    forall|i: int|
        0 <= i < fields.len() ==> roles_of(uniform_field_of(#[trigger] fields[i]).attributes).vertex_input
            is None
}

/// A struct without a vertex-input field has no vertex layout: its
/// descriptor hands out none, never a layout without attributes.
pub proof fn lemma_no_vertex_input_no_layout(decl: StructDeclView, table: Seq<TypeEntryView>)
    requires
        decl.shape matches StructShapeView::Named(fields) && no_vertex_input(fields),
    ensures
        generated(decl, table) matches Ok(uniforms) ==> uniforms.vertex_buffer_descriptor is None
            && vertex_buffer_descriptor_of(uniforms) is None,
{
    let declared = decl.shape->Named_0;
    let fields = uniform_fields_of(declared);
    let input = vertex_input_for(decl.name, table);
    assert forall|i: int| 0 <= i < fields.len() implies input(#[trigger] fields[i]) is None by {
        assert(fields[i] == uniform_field_of(declared[i]));
    }
    lemma_filter_map_nothing(fields, input);
    assert(vertex_inputs_of(decl.name, table, fields) =~= Seq::<VertexInputView>::empty());
}

/// No descriptor hands out a vertex layout without attributes.
pub proof fn lemma_layout_never_empty(uniforms: UniformsView)
    ensures
        vertex_buffer_descriptor_of(uniforms) matches Some(descriptor) ==> descriptor.attributes.len() > 0,
{
}

/// The vertex layout of a generated descriptor is contiguous: over all
/// vertex-input fields in declared order, shader locations run from 0 without
/// a gap or a repeat, each offset is the end of the component before it, so
/// that no offset is below an earlier one, and the last offset and the last
/// size add up to the stride.
pub proof fn lemma_generated_layout_contiguous(decl: StructDeclView, table: Seq<TypeEntryView>)
    ensures
        generated(decl, table) matches Ok(uniforms) ==> (uniforms.vertex_buffer_descriptor matches Some(
            descriptor,
        ) ==> {
            &&& is_contiguous(descriptor.attributes, descriptor.stride)
            &&& forall|k: int, m: int|
                0 <= k <= m < descriptor.attributes.len() ==> (#[trigger] descriptor.attributes[k]).offset
                    <= (#[trigger] descriptor.attributes[m]).offset
        }),
{
    match decl.shape {
        StructShapeView::Named(declared) => {
            let fields = uniform_fields_of(declared);
            lemma_layout_contiguous(vertex_inputs_of(decl.name, table, fields));
        },
        _ => {},
    }
}

/// A write into a buffer that is long enough puts out as many bytes as the
/// length that is reported under the same name.
pub proof fn lemma_written_is_byte_len(
    uniforms: UniformsView,
    target: Seq<FieldValueView>,
    name: Seq<char>,
    capacity: nat,
)
    requires
        uniform_bytes_of(uniforms, target, name).len() <= capacity,
    ensures
        written_len_of(uniforms, target, name, capacity) == uniform_bytes_of(uniforms, target, name).len(),
{
}

/// The shader defines of a target are those of the templates whose field
/// gives a suffix, and no others: each define in the list is the prefix, an
/// underscore, the label and the suffix of such a template; each such
/// template has its define in the list; and the list holds one define for
/// each of them, so that a template whose field gives no suffix adds none.
pub proof fn lemma_shader_defs_are_the_set_ones(uniforms: UniformsView, target: Seq<FieldValueView>)
    ensures
        forall|token: Seq<char>| #[trigger]
            shader_defs_of(uniforms, target).contains(token) ==> exists|k: int|
                0 <= k < uniforms.shader_defs.len() && #[trigger] define_for(
                    uniforms.shader_def_prefix,
                    target,
                )(uniforms.shader_defs[k]) == Some(token),
        forall|k: int|
            0 <= k < uniforms.shader_defs.len() ==> (#[trigger] define_for(
                uniforms.shader_def_prefix,
                target,
            )(uniforms.shader_defs[k]) matches Some(token) ==> shader_defs_of(uniforms, target).contains(
                token,
            )),
        shader_defs_of(uniforms, target).len() == uniforms.shader_defs.filter(
            selects(define_for(uniforms.shader_def_prefix, target)),
        ).len(),
{
    let defs = uniforms.shader_defs;
    let define = define_for(uniforms.shader_def_prefix, target);
    let list = defs.filter_map(define);
    assert forall|token: Seq<char>| #[trigger] list.contains(token) implies exists|k: int|
        0 <= k < defs.len() && #[trigger] define(defs[k]) == Some(token) by {
        defs.lemma_filter_map_contains(define, token);
        let template = choose|template| #[trigger] defs.contains(template) && define(template) == Some(token);
        let k = choose|k: int| 0 <= k < defs.len() && defs[k] == template;
        assert(define(defs[k]) == Some(token));
    }
    assert forall|k: int| 0 <= k < defs.len() implies (#[trigger] define(defs[k]) matches Some(token)
        ==> list.contains(token)) by {
        if define(defs[k]) is Some {
            lemma_filter_map_has(defs, define, k);
        }
    }
    lemma_filter_map_len(defs, define);
}

/// Where no template's field gives a suffix, the list of shader defines is
/// empty.
pub proof fn lemma_no_suffix_no_define(uniforms: UniformsView, target: Seq<FieldValueView>)
    requires
        forall|k: int|
            0 <= k < uniforms.shader_defs.len() ==> define_for(uniforms.shader_def_prefix, target)(
                #[trigger] uniforms.shader_defs[k],
            ) is None,
    ensures
        shader_defs_of(uniforms, target) == Seq::<Seq<char>>::empty(),
{
    lemma_filter_map_nothing(uniforms.shader_defs, define_for(uniforms.shader_def_prefix, target));
    assert(shader_defs_of(uniforms, target) =~= Seq::<Seq<char>>::empty());
}

/// A struct that is described as one value has, whatever its fields, their
/// annotations and their values are, an empty list of shader defines, no
/// texture under its name and no vertex layout.
pub proof fn lemma_single_value_is_bare(
    decl: StructDeclView,
    table: Seq<TypeEntryView>,
    target: Seq<FieldValueView>,
)
    ensures
        shader_defs_of(generated_single(decl, table), target) == Seq::<Seq<char>>::empty(),
        vertex_buffer_descriptor_of(generated_single(decl, table)) is None,
        uniform_texture_of(generated_single(decl, table), target, decl.name) is None,
{
    let single = generated_single(decl, table);
    lemma_no_suffix_no_define(single, target);
    assert forall|k: int| 0 <= k < single.bindings.len() implies !answers_texture(decl.name)(
        #[trigger] single.bindings[k],
    ) by {}
    lemma_first_match_absent(single.bindings, answers_texture(decl.name));
}

/// The shader define of a field of a generated descriptor: where the field
/// is marked `shader_def` and its value gives a suffix, the defines of the
/// target hold the struct's name in upper case, an underscore, the field's
/// name in screaming snake case and the suffix.
pub proof fn lemma_generated_define(
    decl: StructDeclView,
    table: Seq<TypeEntryView>,
    target: Seq<FieldValueView>,
    i: int,
)
    requires
        decl.shape is Named,
        0 <= i < decl.shape->Named_0.len(),
        roles_of(uniform_field_of(decl.shape->Named_0[i]).attributes).shader_def,
        generated(decl, table) is Ok,
        value_at(target, i as nat) matches Some(value) && value.shader_def is Some,
    ensures
        shader_defs_of(generated(decl, table)->Ok_0, target).contains(
            shader_def_token_of(
                uppercase(decl.name),
                screaming_snake_case(decl.shape->Named_0[i].name),
                value_at(target, i as nat)->0.shader_def->0,
            ),
        ),
{
    let declared = decl.shape->Named_0;
    let fields = uniform_fields_of(declared);
    let uniforms = generated(decl, table)->Ok_0;
    let places = positions(fields.len());
    assert(fields[i] == uniform_field_of(declared[i]));
    assert(places[i] == i);
    lemma_filter_map_has(places, template_for(fields), i);
    let template = template_for(fields)(places[i])->0;
    let templates = templates_of(fields);
    let k = choose|k: int| 0 <= k < templates.len() && templates[k] == template;
    lemma_shader_defs_are_the_set_ones(uniforms, target);
    assert(define_for(uniforms.shader_def_prefix, target)(uniforms.shader_defs[k]) is Some);
}

/// A name is dispatched to the first row that answers to it, and to none
/// where no row does.
pub proof fn lemma_dispatch_is_first(uniforms: UniformsView, name: Seq<char>)
    ensures
        match uniform_binding(uniforms, name) {
            Some(row) => exists|k: int|
                is_first(uniforms.bindings, answers_uniform(name), k) && uniforms.bindings[k] == row,
            None => forall|k: int|
                0 <= k < uniforms.bindings.len() ==> (#[trigger] uniforms.bindings[k]).uniform_name
                    != name,
        },
{
    lemma_first_match_is_first(uniforms.bindings, answers_uniform(name));
}

/// A uniform name that no row answers to reads as nothing: no bind type, no
/// bytes, and a write that leaves the buffer as it was.
pub proof fn lemma_unknown_name_reads_nothing(
    uniforms: UniformsView,
    target: Seq<FieldValueView>,
    name: Seq<char>,
    buffer: Seq<u8>,
)
    requires
        forall|k: int|
            0 <= k < uniforms.bindings.len() ==> (#[trigger] uniforms.bindings[k]).uniform_name != name,
    ensures
        field_bind_type_of(uniforms, name) is None,
        uniform_bytes_of(uniforms, target, name).len() == 0,
        written_len_of(uniforms, target, name, buffer.len()) == 0,
        buffer_after_write(uniforms, target, name, buffer) == buffer,
{
    lemma_first_match_absent(uniforms.bindings, answers_uniform(name));
    assert(Seq::<u8>::empty() + buffer.skip(0) =~= buffer);
}

/// A name that no row answers to as the name of a texture or of a sampler
/// reads as no texture.
pub proof fn lemma_unknown_name_holds_no_texture(
    uniforms: UniformsView,
    target: Seq<FieldValueView>,
    name: Seq<char>,
)
    requires
        forall|k: int|
            0 <= k < uniforms.bindings.len() ==> !answers_texture(name)(#[trigger] uniforms.bindings[k]),
    ensures
        uniform_texture_of(uniforms, target, name) is None,
{
    lemma_first_match_absent(uniforms.bindings, answers_texture(name));
}

/// The rows of a dispatch table answer to the names of a table of fields,
/// entry for entry.
pub open spec fn rows_match_infos(infos: Seq<FieldInfoView>, rows: Seq<BindingView>) -> bool {
    &&& infos.len() == rows.len()
    &&& forall|k: int|
        0 <= k < infos.len() ==> {
            &&& (#[trigger] rows[k]).uniform_name == infos[k].uniform_name
            &&& rows[k].texture_name == infos[k].texture_name
            &&& rows[k].sampler_name == infos[k].sampler_name
            &&& rows[k].textured
        }
}

proof fn lemma_tables_parallel(
    struct_name: Seq<char>,
    table: Seq<TypeEntryView>,
    fields: Seq<UniformFieldView>,
    i: int,
)
    requires
        0 <= i <= fields.len(),
    ensures
        rows_match_infos(
            fields.take(i).filter_map(info_for(struct_name)),
            positions(fields.len()).take(i).filter_map(binding_for(struct_name, table, fields)),
        ),
    decreases i,
{
    let places = positions(fields.len());
    if i == 0 {
        assert(fields.take(0) =~= Seq::<UniformFieldView>::empty());
        assert(places.take(0) =~= Seq::<int>::empty());
    } else {
        lemma_tables_parallel(struct_name, table, fields, i - 1);
        fields.lemma_filter_map_take_succ(info_for(struct_name), i - 1);
        places.lemma_filter_map_take_succ(binding_for(struct_name, table, fields), i - 1);
        assert(places[i - 1] == i - 1);
    }
}

/// The names of a generated descriptor are closed: its dispatch table has
/// one row for each entry of its table of fields, in the same order and
/// under the same names, and every row can be asked for a texture.
pub proof fn lemma_generated_tables_parallel(decl: StructDeclView, table: Seq<TypeEntryView>)
    ensures
        generated(decl, table) matches Ok(uniforms) ==> rows_match_infos(
            uniforms.field_infos,
            uniforms.bindings,
        ),
{
    match decl.shape {
        StructShapeView::Named(declared) => {
            let fields = uniform_fields_of(declared);
            lemma_tables_parallel(decl.name, table, fields, fields.len() as int);
            assert(fields.take(fields.len() as int) =~= fields);
            assert(positions(fields.len()).take(fields.len() as int) =~= positions(fields.len()));
        },
        _ => {},
    }
}

/// Generation is a function of the declaration and the table: whatever it
/// returns for one declaration and one table, it returns again, descriptor
/// for descriptor and error for error.
pub proof fn lemma_generation_repeats(
    first: Result<UniformsView, GenerationError>,
    second: Result<UniformsView, GenerationError>,
    decl: StructDeclView,
    table: Seq<TypeEntryView>,
)
    requires
        first == generated(decl, table),
        second == generated(decl, table),
    ensures
        first == second,
{
}

} // verus!
