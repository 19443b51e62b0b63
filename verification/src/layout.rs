//! The vertex layout builder: from the vertex-input fields of a struct, in
//! declared order, to the attributes of one vertex record.
//!
//! Every component of every field takes the next shader location and the next
//! free bytes of the record: locations count up from 0 without a gap, offsets
//! are the running sum of the sizes before them, and the stride is the sum of
//! all sizes.

use crate::error::GenerationError;
use crate::formats::VertexFormat;
use crate::naming::{component_name, component_name_of};
use vstd::prelude::*;

verus! {

/// How often the record advances.
#[derive(Clone, Copy, Debug, PartialEq, Eq, Structural)]
pub enum InputStepMode {
    Vertex,
    Instance,
}

/// One component of the vertex record.
#[derive(Clone, Debug, PartialEq, Eq)]
pub struct VertexAttributeDescriptor {
    pub name: String,
    /// Where the component starts in the record, in bytes.
    pub offset: u64,
    pub format: VertexFormat,
    /// The input slot from which the shader reads the component.
    pub shader_location: u32,
}

pub struct VertexAttributeDescriptorView {
    pub name: Seq<char>,
    pub offset: nat,
    pub format: VertexFormat,
    pub shader_location: nat,
}

impl View for VertexAttributeDescriptor {
    type V = VertexAttributeDescriptorView;

    open spec fn view(&self) -> VertexAttributeDescriptorView {
        VertexAttributeDescriptorView {
            name: self.name@,
            offset: self.offset as nat,
            format: self.format,
            shader_location: self.shader_location as nat,
        }
    }
}

/// The views of a vector of attributes, in order.
pub open spec fn attribute_descriptor_views(attributes: Seq<VertexAttributeDescriptor>) -> Seq<
    VertexAttributeDescriptorView,
> {
    attributes.map_values(|attribute: VertexAttributeDescriptor| attribute@)
}

/// The layout of one vertex record.
#[derive(Clone, Debug, PartialEq, Eq)]
pub struct VertexBufferDescriptor {
    /// The name of the struct that the record is laid out for.
    pub name: String,
    /// The size of one record, in bytes.
    pub stride: u64,
    pub step_mode: InputStepMode,
    pub attributes: Vec<VertexAttributeDescriptor>,
}

pub struct VertexBufferDescriptorView {
    pub name: Seq<char>,
    pub stride: nat,
    pub step_mode: InputStepMode,
    pub attributes: Seq<VertexAttributeDescriptorView>,
}

impl View for VertexBufferDescriptor {
    type V = VertexBufferDescriptorView;

    open spec fn view(&self) -> VertexBufferDescriptorView {
        VertexBufferDescriptorView {
            name: self.name@,
            stride: self.stride as nat,
            step_mode: self.step_mode,
            attributes: attribute_descriptor_views(self.attributes@),
        }
    }
}

/// The view of a layout that may be absent.
pub open spec fn descriptor_view(descriptor: Option<VertexBufferDescriptor>) -> Option<
    VertexBufferDescriptorView,
> {
    match descriptor {
        Some(descriptor) => Some(descriptor@),
        None => None,
    }
}

/// One vertex-input field, ready to be laid out: the base name of its
/// attributes, and the formats of its components in order.
#[derive(Clone, Debug, PartialEq, Eq)]
pub struct VertexInput {
    pub name: String,
    pub formats: Vec<VertexFormat>,
}

pub struct VertexInputView {
    pub name: Seq<char>,
    pub formats: Seq<VertexFormat>,
}

impl View for VertexInput {
    type V = VertexInputView;

    open spec fn view(&self) -> VertexInputView {
        VertexInputView { name: self.name@, formats: self.formats@ }
    }
}

/// The views of a vector of vertex inputs, in order.
pub open spec fn vertex_input_views(inputs: Seq<VertexInput>) -> Seq<VertexInputView> {
    inputs.map_values(|input: VertexInput| input@)
}

/// The bytes that the components `formats` take together.
pub open spec fn formats_size(formats: Seq<VertexFormat>) -> nat
    decreases formats.len(),
{
    if formats.len() == 0 {
        0
    } else {
        formats_size(formats.drop_last()) + formats.last().size as nat
    }
}

/// The number of components of all of `inputs`.
pub open spec fn component_count(inputs: Seq<VertexInputView>) -> nat
    decreases inputs.len(),
{
    if inputs.len() == 0 {
        0
    } else {
        component_count(inputs.drop_last()) + inputs.last().formats.len()
    }
}

/// The bytes that all components of `inputs` take together.
pub open spec fn record_size(inputs: Seq<VertexInputView>) -> nat
    decreases inputs.len(),
{
    if inputs.len() == 0 {
        0
    } else {
        record_size(inputs.drop_last()) + formats_size(inputs.last().formats)
    }
}

/// The attributes of one field whose first component takes the shader
/// location `location` and starts at the byte `offset`.
pub open spec fn input_attributes(input: VertexInputView, location: nat, offset: nat) -> Seq<
    VertexAttributeDescriptorView,
> {
    Seq::new(
        input.formats.len(),
        |j: int|
            VertexAttributeDescriptorView {
                name: component_name_of(input.name, j as nat, input.formats.len()),
                offset: offset + formats_size(input.formats.take(j)),
                format: input.formats[j],
                shader_location: location + j as nat,
            },
    )
}

/// The attributes of all of `inputs`: those of each field after those of the
/// fields before it.
pub open spec fn layout_attributes(inputs: Seq<VertexInputView>) -> Seq<VertexAttributeDescriptorView>
    decreases inputs.len(),
{
    if inputs.len() == 0 {
        Seq::empty()
    } else {
        layout_attributes(inputs.drop_last()) + input_attributes(
            inputs.last(),
            component_count(inputs.drop_last()),
            record_size(inputs.drop_last()),
        )
    }
}

/// Every shader location fits `u32` and the stride fits `u64`.
pub open spec fn layout_fits(inputs: Seq<VertexInputView>) -> bool {
    component_count(inputs) <= u32::MAX && record_size(inputs) <= u64::MAX
}

/// The layout of the struct named `name` with the vertex inputs `inputs`:
/// none where there is no component to lay out; the record steps per instance.
pub open spec fn layout_of(name: Seq<char>, inputs: Seq<VertexInputView>) -> Option<
    VertexBufferDescriptorView,
> {
    if component_count(inputs) == 0 {
        None
    } else {
        Some(
            VertexBufferDescriptorView {
                name,
                stride: record_size(inputs),
                step_mode: InputStepMode::Instance,
                attributes: layout_attributes(inputs),
            },
        )
    }
}

/// Locations are contiguous from 0, each offset is the end of the component
/// before it, and the last component ends at the stride.
pub open spec fn is_contiguous(attributes: Seq<VertexAttributeDescriptorView>, stride: nat) -> bool {
    &&& forall|k: int| 0 <= k < attributes.len() ==> (#[trigger] attributes[k]).shader_location == k
    &&& forall|k: int|
        0 <= k < attributes.len() - 1 ==> (#[trigger] attributes[k + 1]).offset == attributes[k].offset
            + attributes[k].format.size
    &&& attributes.len() > 0 ==> attributes[0].offset == 0
    &&& attributes.len() > 0 ==> attributes.last().offset + attributes.last().format.size == stride
    &&& attributes.len() == 0 ==> stride == 0
}

pub proof fn lemma_formats_size_step(formats: Seq<VertexFormat>, j: int)
    requires
        0 <= j < formats.len(),
    ensures
        formats_size(formats.take(j + 1)) == formats_size(formats.take(j)) + formats[j].size,
{
    assert(formats.take(j + 1).drop_last() =~= formats.take(j));
}

pub proof fn lemma_formats_size_prefix(formats: Seq<VertexFormat>, j: int)
    requires
        0 <= j <= formats.len(),
    ensures
        formats_size(formats.take(j)) <= formats_size(formats),
    decreases formats.len() - j,
{
    if j == formats.len() {
        assert(formats.take(j) =~= formats);
    } else {
        lemma_formats_size_step(formats, j);
        lemma_formats_size_prefix(formats, j + 1);
    }
}

pub proof fn lemma_totals_step(inputs: Seq<VertexInputView>, i: int)
    requires
        0 <= i < inputs.len(),
    ensures
        component_count(inputs.take(i + 1)) == component_count(inputs.take(i)) + inputs[i].formats.len(),
        record_size(inputs.take(i + 1)) == record_size(inputs.take(i)) + formats_size(inputs[i].formats),
        layout_attributes(inputs.take(i + 1)) == layout_attributes(inputs.take(i)) + input_attributes(
            inputs[i],
            component_count(inputs.take(i)),
            record_size(inputs.take(i)),
        ),
{
    assert(inputs.take(i + 1).drop_last() =~= inputs.take(i));
}

pub proof fn lemma_totals_prefix(inputs: Seq<VertexInputView>, i: int)
    requires
        0 <= i <= inputs.len(),
    ensures
        component_count(inputs.take(i)) <= component_count(inputs),
        record_size(inputs.take(i)) <= record_size(inputs),
    decreases inputs.len() - i,
{
    if i == inputs.len() {
        assert(inputs.take(i) =~= inputs);
    } else {
        lemma_totals_step(inputs, i);
        lemma_totals_prefix(inputs, i + 1);
    }
}

/// The number of attributes is the number of components.
pub proof fn lemma_layout_len(inputs: Seq<VertexInputView>)
    ensures
        layout_attributes(inputs).len() == component_count(inputs),
    decreases inputs.len(),
{
    if inputs.len() > 0 {
        lemma_layout_len(inputs.drop_last());
    }
}

/// The layout of any vertex inputs is contiguous: shader locations run from
/// 0 without a gap or a repeat, no offset is below the one before it, and the
/// last offset and the last size add up to the stride.
pub proof fn lemma_layout_contiguous(inputs: Seq<VertexInputView>)
    ensures
        is_contiguous(layout_attributes(inputs), record_size(inputs)),
        layout_attributes(inputs).len() == component_count(inputs),
        forall|k: int, m: int|
            0 <= k <= m < layout_attributes(inputs).len() ==> (#[trigger] layout_attributes(
                inputs,
            )[k]).offset <= (#[trigger] layout_attributes(inputs)[m]).offset,
    decreases inputs.len(),
{
    lemma_layout_len(inputs);
    let all = layout_attributes(inputs);
    if inputs.len() > 0 {
        let head = inputs.drop_last();
        let input = inputs.last();
        lemma_layout_contiguous(head);
        lemma_layout_len(head);
        let before = layout_attributes(head);
        let own = input_attributes(input, component_count(head), record_size(head));
        assert(all == before + own);
        assert forall|j: int| 0 <= j < input.formats.len() implies formats_size(input.formats.take(j + 1))
            == formats_size(input.formats.take(j)) + input.formats[j].size by {
            lemma_formats_size_step(input.formats, j);
        }
        assert(input.formats.take(0) =~= Seq::<VertexFormat>::empty());
        assert(input.formats.take(input.formats.len() as int) =~= input.formats);
        assert forall|k: int| 0 <= k < all.len() - 1 implies (#[trigger] all[k + 1]).offset == all[k].offset
            + all[k].format.size by {
            if k + 1 < before.len() {
                assert(all[k + 1] == before[k + 1]);
                assert(all[k] == before[k]);
            } else if k + 1 == before.len() {
                assert(all[k] == before.last());
                assert(all[k + 1] == own[0]);
            } else {
                assert(all[k] == own[k - before.len()]);
                assert(all[k + 1] == own[k + 1 - before.len()]);
            }
        }
        if own.len() > 0 {
            assert(all.last() == own.last());
        } else {
            assert(all =~= before);
        }
        if before.len() > 0 {
            assert(all[0] == before[0]);
        } else if own.len() > 0 {
            assert(all[0] == own[0]);
        }
    }
    lemma_offsets_ordered(all);
}

/// Offsets that each continue the one before never go down.
proof fn lemma_offsets_ordered(attributes: Seq<VertexAttributeDescriptorView>)
    requires
        forall|k: int|
            0 <= k < attributes.len() - 1 ==> (#[trigger] attributes[k + 1]).offset == attributes[k].offset
                + attributes[k].format.size,
    ensures
        forall|k: int, m: int|
            0 <= k <= m < attributes.len() ==> (#[trigger] attributes[k]).offset <= (
            #[trigger] attributes[m]).offset,
{
    assert forall|k: int, m: int| 0 <= k <= m < attributes.len() implies (#[trigger] attributes[k]).offset <= (
    #[trigger] attributes[m]).offset by {
        lemma_offsets_between(attributes, k, m);
    }
}

proof fn lemma_offsets_between(attributes: Seq<VertexAttributeDescriptorView>, k: int, m: int)
    requires
        0 <= k <= m < attributes.len(),
        forall|k: int|
            0 <= k < attributes.len() - 1 ==> (#[trigger] attributes[k + 1]).offset == attributes[k].offset
                + attributes[k].format.size,
    ensures
        attributes[k].offset <= attributes[m].offset,
    decreases m - k,
{
    if k < m {
        lemma_offsets_between(attributes, k, m - 1);
        assert(attributes[m - 1 + 1].offset == attributes[m - 1].offset + attributes[m - 1].format.size);
    }
}

/// Lays out the vertex record of the struct named `struct_name`. There is
/// no layout where there is no component; the layout does not exist where a
/// location or the stride would not fit its integer type.
pub fn build_vertex_layout(struct_name: &str, inputs: &Vec<VertexInput>) -> (r: Result<
    Option<VertexBufferDescriptor>,
    GenerationError,
>)
    ensures
        match r {
            Ok(descriptor) => {
                &&& layout_fits(vertex_input_views(inputs@))
                &&& descriptor_view(descriptor) == layout_of(struct_name@, vertex_input_views(inputs@))
                &&& descriptor matches Some(d) ==> is_contiguous(d@.attributes, d@.stride)
            },
            Err(error) => {
                &&& error == GenerationError::LayoutOverflow
                &&& !layout_fits(vertex_input_views(inputs@))
            },
        },
{
    let ghost views = vertex_input_views(inputs@);
    let mut attributes: Vec<VertexAttributeDescriptor> = Vec::new();
    let mut offset: u64 = 0;
    let mut location: u32 = 0;
    let mut i: usize = 0;
    assert(views.take(0) =~= Seq::<VertexInputView>::empty());
    while i < inputs.len()
        invariant
            i <= inputs.len(),
            views == vertex_input_views(inputs@),
            attribute_descriptor_views(attributes@) == layout_attributes(views.take(i as int)),
            offset == record_size(views.take(i as int)),
            location == component_count(views.take(i as int)),
        decreases inputs.len() - i,
    {
        let input = &inputs[i];
        let count: usize = input.formats.len();
        let ghost before = layout_attributes(views.take(i as int));
        let ghost first_location = location as nat;
        let ghost first_offset = offset as nat;
        let ghost own = input_attributes(views[i as int], first_location, first_offset);
        assert(views[i as int] == input@);
        proof {
            lemma_totals_step(views, i as int);
            lemma_totals_prefix(views, i as int + 1);
        }
        assert(input.formats@.take(0) =~= Seq::<VertexFormat>::empty());
        let mut j: usize = 0;
        while j < count
            invariant
                j <= count,
                count == input.formats.len(),
                i < inputs.len(),
                views == vertex_input_views(inputs@),
                views[i as int] == input@,
                own == input_attributes(views[i as int], first_location, first_offset),
                attribute_descriptor_views(attributes@) == before + own.take(j as int),
                offset == first_offset + formats_size(input.formats@.take(j as int)),
                location == first_location + j,
                component_count(views.take(i as int + 1)) == first_location + count,
                record_size(views.take(i as int + 1)) == first_offset + formats_size(input.formats@),
                component_count(views.take(i as int + 1)) <= component_count(views),
                record_size(views.take(i as int + 1)) <= record_size(views),
            decreases count - j,
        {
            let format: VertexFormat = input.formats[j];
            proof {
                lemma_formats_size_step(input.formats@, j as int);
                lemma_formats_size_prefix(input.formats@, j as int + 1);
            }
            let next_offset: u64 = match offset.checked_add(format.size) {
                Some(next) => next,
                None => {
                    return Err(GenerationError::LayoutOverflow);
                },
            };
            let next_location: u32 = match location.checked_add(1) {
                Some(next) => next,
                None => {
                    return Err(GenerationError::LayoutOverflow);
                },
            };
            let name: String = component_name(input.name.as_str(), j, count);
            let attribute = VertexAttributeDescriptor { name, offset, format, shader_location: location };
            assert(attribute@ == own[j as int]);
            let ghost laid_out = attribute_descriptor_views(attributes@);
            attributes.push(attribute);
            assert(attribute_descriptor_views(attributes@) =~= laid_out.push(own[j as int]));
            assert(laid_out.push(own[j as int]) =~= before + own.take(j as int + 1));
            offset = next_offset;
            location = next_location;
            j += 1;
        }
        assert(own.take(count as int) =~= own);
        assert(input.formats@.take(count as int) =~= input.formats@);
        i += 1;
    }
    assert(views.take(inputs.len() as int) =~= views);
    proof {
        lemma_layout_contiguous(views);
    }
    if attributes.len() == 0 {
        Ok(None)
    } else {
        Ok(
            Some(
                VertexBufferDescriptor {
                    name: struct_name.to_owned(),
                    stride: offset,
                    step_mode: InputStepMode::Instance,
                    attributes,
                },
            ),
        )
    }
}

} // verus!
