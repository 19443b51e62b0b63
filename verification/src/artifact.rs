//! The descriptor of one struct: the table of its bindable fields, the
//! tables by which names are dispatched to fields, the templates of its
//! shader defines and its vertex layout. A descriptor is made once for a
//! struct and never changes; what is read through it comes from a
//! [`UniformTarget`], the values of one instance of the struct.
//!
//! No accessor fails on a name that the descriptor does not know: a lookup
//! finds nothing, a length is 0, a write leaves the buffer alone.

use crate::formats::FieldBindType;
use crate::layout::{VertexBufferDescriptor, VertexBufferDescriptorView};
use crate::naming::{shader_def_token, shader_def_token_of};
use crate::search::{first_match, lemma_first_match_absent, lemma_first_match_found};
use vstd::prelude::*;

verus! {

/// A texture that a field holds.
#[derive(Clone, Copy, Debug, PartialEq, Eq, Structural)]
pub struct TextureHandle {
    pub id: u64,
}

/// What is bound for one bindable field, and under which names.
#[derive(Clone, Debug, PartialEq, Eq)]
pub struct FieldInfo {
    pub name: String,
    pub uniform_name: String,
    pub texture_name: String,
    pub sampler_name: String,
    pub is_instanceable: bool,
}

pub struct FieldInfoView {
    pub name: Seq<char>,
    pub uniform_name: Seq<char>,
    pub texture_name: Seq<char>,
    pub sampler_name: Seq<char>,
    pub is_instanceable: bool,
}

impl View for FieldInfo {
    type V = FieldInfoView;

    open spec fn view(&self) -> FieldInfoView {
        FieldInfoView {
            name: self.name@,
            uniform_name: self.uniform_name@,
            texture_name: self.texture_name@,
            sampler_name: self.sampler_name@,
            is_instanceable: self.is_instanceable,
        }
    }
}

/// The views of a vector of field infos, in order.
pub open spec fn field_info_views(infos: Seq<FieldInfo>) -> Seq<FieldInfoView> {
    infos.map_values(|info: FieldInfo| info@)
}

/// One row of the dispatch table: the names under which a field is reached,
/// the place of its value in a target, and the shape in which it binds.
#[derive(Clone, Debug, PartialEq, Eq)]
pub struct Binding {
    pub uniform_name: String,
    pub texture_name: String,
    pub sampler_name: String,
    /// Whether the field can be asked for a texture.
    pub textured: bool,
    /// The place of the field's value in a target.
    pub field: usize,
    pub bind_type: Option<FieldBindType>,
}

pub struct BindingView {
    pub uniform_name: Seq<char>,
    pub texture_name: Seq<char>,
    pub sampler_name: Seq<char>,
    pub textured: bool,
    pub field: nat,
    pub bind_type: Option<FieldBindType>,
}

impl View for Binding {
    type V = BindingView;

    open spec fn view(&self) -> BindingView {
        BindingView {
            uniform_name: self.uniform_name@,
            texture_name: self.texture_name@,
            sampler_name: self.sampler_name@,
            textured: self.textured,
            field: self.field as nat,
            bind_type: self.bind_type,
        }
    }
}

/// The views of a vector of bindings, in order.
pub open spec fn binding_views(bindings: Seq<Binding>) -> Seq<BindingView> {
    bindings.map_values(|binding: Binding| binding@)
}

/// The template of one shader define: its label, and the place of the field
/// whose value decides whether it is defined and with what suffix.
#[derive(Clone, Debug, PartialEq, Eq)]
pub struct ShaderDef {
    pub label: String,
    pub field: usize,
}

pub struct ShaderDefView {
    pub label: Seq<char>,
    pub field: nat,
}

impl View for ShaderDef {
    type V = ShaderDefView;

    open spec fn view(&self) -> ShaderDefView {
        ShaderDefView { label: self.label@, field: self.field as nat }
    }
}

/// The views of a vector of templates, in order.
pub open spec fn shader_def_views(defs: Seq<ShaderDef>) -> Seq<ShaderDefView> {
    defs.map_values(|def: ShaderDef| def@)
}

/// The descriptor of one struct.
#[derive(Clone, Debug, PartialEq, Eq)]
pub struct Uniforms {
    /// One entry for each bindable field, in declared order.
    pub field_infos: Vec<FieldInfo>,
    /// The dispatch table, in declared order. Where two rows answer to one
    /// name, the first does.
    pub bindings: Vec<Binding>,
    /// What every shader define of the struct begins with.
    pub shader_def_prefix: String,
    /// The templates of the shader defines, in declared order; none where
    /// the struct is described as one value.
    pub shader_defs: Vec<ShaderDef>,
    pub vertex_buffer_descriptor: Option<VertexBufferDescriptor>,
}

pub struct UniformsView {
    pub field_infos: Seq<FieldInfoView>,
    pub bindings: Seq<BindingView>,
    pub shader_def_prefix: Seq<char>,
    pub shader_defs: Seq<ShaderDefView>,
    pub vertex_buffer_descriptor: Option<VertexBufferDescriptorView>,
}

impl View for Uniforms {
    type V = UniformsView;

    open spec fn view(&self) -> UniformsView {
        UniformsView {
            field_infos: field_info_views(self.field_infos@),
            bindings: binding_views(self.bindings@),
            shader_def_prefix: self.shader_def_prefix@,
            shader_defs: shader_def_views(self.shader_defs@),
            vertex_buffer_descriptor: match self.vertex_buffer_descriptor {
                Some(descriptor) => Some(descriptor@),
                None => None,
            },
        }
    }
}

/// What one field of an instance holds, as far as binding reads it.
#[derive(Clone, Debug, PartialEq, Eq)]
pub struct FieldValue {
    /// The field's value as it is written into a uniform buffer.
    pub bytes: Vec<u8>,
    /// The texture that the field holds, if it holds one.
    pub texture: Option<TextureHandle>,
    /// The suffix of the field's shader define, if the field's value calls
    /// for the define.
    pub shader_def: Option<String>,
}

pub struct FieldValueView {
    pub bytes: Seq<u8>,
    pub texture: Option<TextureHandle>,
    pub shader_def: Option<Seq<char>>,
}

impl View for FieldValue {
    type V = FieldValueView;

    open spec fn view(&self) -> FieldValueView {
        FieldValueView {
            bytes: self.bytes@,
            texture: self.texture,
            shader_def: match self.shader_def {
                Some(suffix) => Some(suffix@),
                None => None,
            },
        }
    }
}

/// The values of one instance of the struct: one for each declared field, in
/// declared order; the one value of the whole where the struct is described
/// as one value.
#[derive(Clone, Debug, PartialEq, Eq)]
pub struct UniformTarget {
    pub fields: Vec<FieldValue>,
}

impl View for UniformTarget {
    type V = Seq<FieldValueView>;

    open spec fn view(&self) -> Seq<FieldValueView> {
        self.fields@.map_values(|value: FieldValue| value@)
    }
}

/// The views of a vector of texts, in order.
pub open spec fn text_views(texts: Seq<String>) -> Seq<Seq<char>> {
    texts.map_values(|text: String| text@)
}

/// The rows that answer to the uniform name `name`.
pub open spec fn answers_uniform(name: Seq<char>) -> spec_fn(BindingView) -> bool {
    |binding: BindingView| binding.uniform_name == name
}

/// The rows that answer to `name` as the name of a texture or of a sampler.
pub open spec fn answers_texture(name: Seq<char>) -> spec_fn(BindingView) -> bool {
    |binding: BindingView|
        binding.textured && (binding.texture_name == name || binding.sampler_name == name)
}

/// The row that the uniform name `name` is dispatched to.
pub open spec fn uniform_binding(uniforms: UniformsView, name: Seq<char>) -> Option<BindingView> {
    match first_match(uniforms.bindings, answers_uniform(name)) {
        Some(i) => Some(uniforms.bindings[i]),
        None => None,
    }
}

/// The row that `name` is dispatched to as the name of a texture or sampler.
pub open spec fn texture_binding(uniforms: UniformsView, name: Seq<char>) -> Option<BindingView> {
    match first_match(uniforms.bindings, answers_texture(name)) {
        Some(i) => Some(uniforms.bindings[i]),
        None => None,
    }
}

/// The value at the place `field` of a target, where the target has one.
pub open spec fn value_at(target: Seq<FieldValueView>, field: nat) -> Option<FieldValueView> {
    if field < target.len() {
        Some(target[field as int])
    } else {
        None
    }
}

/// The shape in which the field behind the uniform name `name` binds.
pub open spec fn field_bind_type_of(uniforms: UniformsView, name: Seq<char>) -> Option<FieldBindType> {
    match uniform_binding(uniforms, name) {
        Some(binding) => binding.bind_type,
        None => None,
    }
}

/// The texture of the field behind the texture or sampler name `name`.
pub open spec fn uniform_texture_of(
    uniforms: UniformsView,
    target: Seq<FieldValueView>,
    name: Seq<char>,
) -> Option<TextureHandle> {
    match texture_binding(uniforms, name) {
        Some(binding) => match value_at(target, binding.field) {
            Some(value) => value.texture,
            None => None,
        },
        None => None,
    }
}

/// The bytes of the field behind the uniform name `name`: none where the
/// name is not known.
pub open spec fn uniform_bytes_of(
    uniforms: UniformsView,
    target: Seq<FieldValueView>,
    name: Seq<char>,
) -> Seq<u8> {
    match uniform_binding(uniforms, name) {
        Some(binding) => match value_at(target, binding.field) {
            Some(value) => value.bytes,
            None => Seq::empty(),
        },
        None => Seq::empty(),
    }
}

/// The number of bytes that a write under `name` puts into a buffer of
/// `capacity` bytes: all bytes of the field, or none where they do not fit.
pub open spec fn written_len_of(
    uniforms: UniformsView,
    target: Seq<FieldValueView>,
    name: Seq<char>,
    capacity: nat,
) -> nat {
    if uniform_bytes_of(uniforms, target, name).len() <= capacity {
        uniform_bytes_of(uniforms, target, name).len()
    } else {
        0
    }
}

/// The buffer after a write under `name`: the bytes of the field at its
/// start and the rest as it was, or all as it was where they do not fit.
pub open spec fn buffer_after_write(
    uniforms: UniformsView,
    target: Seq<FieldValueView>,
    name: Seq<char>,
    buffer: Seq<u8>,
) -> Seq<u8> {
    let bytes = uniform_bytes_of(uniforms, target, name);
    if bytes.len() <= buffer.len() {
        bytes + buffer.skip(bytes.len() as int)
    } else {
        buffer
    }
}

/// The define that a template gives for the values of `target`: none where
/// the field's value gives no suffix.
pub open spec fn define_for(prefix: Seq<char>, target: Seq<FieldValueView>) -> spec_fn(
    ShaderDefView,
) -> Option<Seq<char>> {
    |def: ShaderDefView|
        match value_at(target, def.field) {
            Some(value) => match value.shader_def {
                Some(suffix) => Some(shader_def_token_of(prefix, def.label, suffix)),
                None => None,
            },
            None => None,
        }
}

/// The shader defines for the values of `target`, in declared order: one
/// for each template whose field gives a suffix. The list is there for every
/// descriptor and every target, and is empty where no template gives one.
pub open spec fn shader_defs_of(uniforms: UniformsView, target: Seq<FieldValueView>) -> Seq<Seq<char>> {
    uniforms.shader_defs.filter_map(define_for(uniforms.shader_def_prefix, target))
}

/// The vertex layout that a descriptor hands out: none rather than a layout
/// without attributes.
pub open spec fn vertex_buffer_descriptor_of(uniforms: UniformsView) -> Option<
    VertexBufferDescriptorView,
> {
    match uniforms.vertex_buffer_descriptor {
        Some(descriptor) => if descriptor.attributes.len() == 0 {
            None
        } else {
            Some(descriptor)
        },
        None => None,
    }
}

/// Two rows answer to one name: they have one uniform name, or the texture
/// or sampler name of one is the texture or sampler name of the other.
pub open spec fn rows_collide(a: BindingView, b: BindingView) -> bool {
    ||| a.uniform_name == b.uniform_name
    ||| a.textured && b.textured && {
        ||| a.texture_name == b.texture_name
        ||| a.texture_name == b.sampler_name
        ||| a.sampler_name == b.texture_name
        ||| a.sampler_name == b.sampler_name
    }
}

/// Some two rows of the dispatch table answer to one name, so that the
/// earlier one hides the later one.
pub open spec fn names_collide(uniforms: UniformsView) -> bool {
    exists|i: int, j: int|
        0 <= i < j < uniforms.bindings.len() && rows_collide(
            #[trigger] uniforms.bindings[i],
            #[trigger] uniforms.bindings[j],
        )
}

/// Where no names collide, every row is reached under each of its own names.
pub proof fn lemma_unique_names_reach_every_row(uniforms: UniformsView, k: int)
    requires
        !names_collide(uniforms),
        0 <= k < uniforms.bindings.len(),
    ensures
        uniform_binding(uniforms, uniforms.bindings[k].uniform_name) == Some(uniforms.bindings[k]),
        uniforms.bindings[k].textured ==> texture_binding(uniforms, uniforms.bindings[k].texture_name)
            == Some(uniforms.bindings[k]),
        uniforms.bindings[k].textured ==> texture_binding(uniforms, uniforms.bindings[k].sampler_name)
            == Some(uniforms.bindings[k]),
{
    let rows = uniforms.bindings;
    let row = rows[k];
    assert forall|j: int| 0 <= j < k implies !rows_collide(#[trigger] rows[j], row) by {
        assert(!rows_collide(rows[j], rows[k]));
    }
    lemma_first_match_found(rows, answers_uniform(row.uniform_name), k);
    if row.textured {
        lemma_first_match_found(rows, answers_texture(row.texture_name), k);
        lemma_first_match_found(rows, answers_texture(row.sampler_name), k);
    }
}

impl Binding {
    /// Whether this row and `other` answer to one name.
    pub fn collides_with(&self, other: &Binding) -> (r: bool)
        ensures
            r == rows_collide(self@, other@),
    {
        self.uniform_name == other.uniform_name || (self.textured && other.textured && (self.texture_name
            == other.texture_name || self.texture_name == other.sampler_name || self.sampler_name
            == other.texture_name || self.sampler_name == other.sampler_name))
    }
}

impl UniformTarget {
    /// The value at the place `field`, where there is one.
    pub fn value(&self, field: usize) -> (r: Option<&FieldValue>)
        ensures
            match r {
                Some(value) => value_at(self@, field as nat) == Some(value@),
                None => value_at(self@, field as nat) is None,
            },
    {
        if field < self.fields.len() {
            Some(&self.fields[field])
        } else {
            None
        }
    }
}

impl Uniforms {
    /// The table of bindable fields.
    pub fn get_field_infos(&self) -> (r: &Vec<FieldInfo>)
        ensures
            field_info_views(r@) == self@.field_infos,
    {
        &self.field_infos
    }

    /// The row that the uniform name `name` is dispatched to.
    pub fn find_uniform(&self, name: &str) -> (r: Option<&Binding>)
        ensures
            match r {
                Some(binding) => uniform_binding(self@, name@) == Some(binding@),
                None => uniform_binding(self@, name@) is None,
            },
    {
        let wanted: String = name.to_owned();
        let ghost rows = self@.bindings;
        let mut i: usize = 0;
        while i < self.bindings.len()
            invariant
                i <= self.bindings.len(),
                rows == self@.bindings,
                wanted@ == name@,
                forall|j: int| 0 <= j < i ==> !answers_uniform(name@)(#[trigger] rows[j]),
            decreases self.bindings.len() - i,
        {
            assert(rows[i as int] == self.bindings[i as int]@);
            if self.bindings[i].uniform_name == wanted {
                proof {
                    lemma_first_match_found(rows, answers_uniform(name@), i as int);
                }
                return Some(&self.bindings[i]);
            }
            i += 1;
        }
        proof {
            lemma_first_match_absent(rows, answers_uniform(name@));
        }
        None
    }

    /// The row that `name` is dispatched to as the name of a texture or of a
    /// sampler.
    pub fn find_texture(&self, name: &str) -> (r: Option<&Binding>)
        ensures
            match r {
                Some(binding) => texture_binding(self@, name@) == Some(binding@),
                None => texture_binding(self@, name@) is None,
            },
    {
        let wanted: String = name.to_owned();
        let ghost rows = self@.bindings;
        let mut i: usize = 0;
        while i < self.bindings.len()
            invariant
                i <= self.bindings.len(),
                rows == self@.bindings,
                wanted@ == name@,
                forall|j: int| 0 <= j < i ==> !answers_texture(name@)(#[trigger] rows[j]),
            decreases self.bindings.len() - i,
        {
            let binding = &self.bindings[i];
            assert(rows[i as int] == binding@);
            if binding.textured && (binding.texture_name == wanted || binding.sampler_name == wanted) {
                proof {
                    lemma_first_match_found(rows, answers_texture(name@), i as int);
                }
                return Some(binding);
            }
            i += 1;
        }
        proof {
            lemma_first_match_absent(rows, answers_texture(name@));
        }
        None
    }

    /// Whether two rows of the dispatch table answer to one name. Generation
    /// does not refuse such a table: the earlier row answers, and the later
    /// one is never reached under that name.
    pub fn has_name_collision(&self) -> (r: bool)
        ensures
            r == names_collide(self@),
    {
        let ghost rows = self@.bindings;
        let count: usize = self.bindings.len();
        let mut j: usize = 0;
        while j < count
            invariant
                j <= count,
                count == self.bindings.len(),
                rows == self@.bindings,
                forall|a: int, b: int|
                    0 <= a < b < j ==> !rows_collide(#[trigger] rows[a], #[trigger] rows[b]),
            decreases count - j,
        {
            let mut i: usize = 0;
            while i < j
                invariant
                    i <= j,
                    j < count,
                    count == self.bindings.len(),
                    rows == self@.bindings,
                    forall|a: int| 0 <= a < i ==> !rows_collide(#[trigger] rows[a], rows[j as int]),
                decreases j - i,
            {
                assert(rows[i as int] == self.bindings[i as int]@);
                assert(rows[j as int] == self.bindings[j as int]@);
                if self.bindings[i].collides_with(&self.bindings[j]) {
                    return true;
                }
                i += 1;
            }
            j += 1;
        }
        false
    }

    /// The shape in which the field behind the uniform name `name` binds;
    /// none where the name is not known or the field does not bind.
    pub fn get_field_bind_type(&self, name: &str) -> (r: Option<FieldBindType>)
        ensures
            r == field_bind_type_of(self@, name@),
    {
        match self.find_uniform(name) {
            Some(binding) => binding.bind_type,
            None => None,
        }
    }

    /// The texture of the field that `name` names as its texture or as its
    /// sampler; none where the name is not known or the field holds none.
    pub fn get_uniform_texture(&self, target: &UniformTarget, name: &str) -> (r: Option<TextureHandle>)
        ensures
            r == uniform_texture_of(self@, target@, name@),
    {
        match self.find_texture(name) {
            Some(binding) => match target.value(binding.field) {
                Some(value) => value.texture,
                None => None,
            },
            None => None,
        }
    }

    /// The number of bytes of the field behind the uniform name `name`; 0
    /// where the name is not known.
    pub fn uniform_byte_len(&self, target: &UniformTarget, name: &str) -> (r: usize)
        ensures
            r == uniform_bytes_of(self@, target@, name@).len(),
    {
        match self.find_uniform(name) {
            Some(binding) => match target.value(binding.field) {
                Some(value) => value.bytes.len(),
                None => 0,
            },
            None => 0,
        }
    }

    /// Writes the bytes of the field behind the uniform name `name` to the
    /// start of `buffer` and returns their number. Where the name is not
    /// known, or the buffer is shorter than the bytes, nothing is written
    /// and 0 is returned.
    pub fn write_uniform_bytes(&self, target: &UniformTarget, name: &str, buffer: &mut [u8]) -> (written:
        usize)
        ensures
            written == written_len_of(self@, target@, name@, old(buffer)@.len()),
            final(buffer)@ == buffer_after_write(self@, target@, name@, old(buffer)@),
    {
        let value = match self.find_uniform(name) {
            Some(binding) => match target.value(binding.field) {
                Some(value) => value,
                None => {
                    assert(Seq::<u8>::empty() + buffer@.skip(0) =~= buffer@);
                    return 0;
                },
            },
            None => {
                assert(Seq::<u8>::empty() + buffer@.skip(0) =~= buffer@);
                return 0;
            },
        };
        let count: usize = value.bytes.len();
        if count > buffer.len() {
            return 0;
        }
        let mut i: usize = 0;
        while i < count
            invariant
                i <= count,
                count == value.bytes.len(),
                count <= buffer.len(),
                buffer.len() == old(buffer).len(),
                buffer@ == value.bytes@.take(i as int) + old(buffer)@.skip(i as int),
            decreases count - i,
        {
            buffer[i] = value.bytes[i];
            i += 1;
        }
        assert(value.bytes@.take(count as int) =~= value.bytes@);
        count
    }

    /// The shader defines that the values of `target` call for, in declared
    /// order: one for each template whose field gives a suffix. The list is
    /// never missing: where nothing calls for a define, and where the struct
    /// is described as one value, it is there and empty.
    pub fn get_shader_defs(&self, target: &UniformTarget) -> (r: Option<Vec<String>>)
        ensures
            r matches Some(defines) && text_views(defines@) == shader_defs_of(self@, target@),
    {
        let defs = &self.shader_defs;
        let ghost templates = shader_def_views(defs@);
        let ghost define = define_for(self.shader_def_prefix@, target@);
        let mut defines: Vec<String> = Vec::new();
        let mut i: usize = 0;
        assert(templates.take(0) =~= Seq::<ShaderDefView>::empty());
        while i < defs.len()
            invariant
                i <= defs.len(),
                templates == shader_def_views(defs@),
                define == define_for(self.shader_def_prefix@, target@),
                text_views(defines@) == templates.take(i as int).filter_map(define),
            decreases defs.len() - i,
        {
            let def = &defs[i];
            assert(templates[i as int] == def@);
            proof {
                templates.lemma_filter_map_take_succ(define, i as int);
            }
            let ghost before = text_views(defines@);
            match target.value(def.field) {
                Some(value) => match &value.shader_def {
                    Some(suffix) => {
                        let token = shader_def_token(
                            self.shader_def_prefix.as_str(),
                            def.label.as_str(),
                            suffix.as_str(),
                        );
                        defines.push(token);
                        assert(text_views(defines@) =~= before + seq![token@]);
                    },
                    None => {
                        assert(before + Seq::<Seq<char>>::empty() =~= before);
                    },
                },
                None => {
                    assert(before + Seq::<Seq<char>>::empty() =~= before);
                },
            }
            i += 1;
        }
        assert(templates.take(defs.len() as int) =~= templates);
        Some(defines)
    }

    /// The vertex layout of the struct; none where the struct has no vertex
    /// input. A layout without attributes is never handed out.
    pub fn get_vertex_buffer_descriptor(&self) -> (r: Option<&VertexBufferDescriptor>)
        ensures
            match r {
                Some(descriptor) => vertex_buffer_descriptor_of(self@) == Some(descriptor@),
                None => vertex_buffer_descriptor_of(self@) is None,
            },
    {
        match &self.vertex_buffer_descriptor {
            Some(descriptor) => {
                if descriptor.attributes.len() == 0 {
                    None
                } else {
                    Some(descriptor)
                }
            },
            None => None,
        }
    }
}

} // verus!
