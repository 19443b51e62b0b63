use uniforms::attributes::{Attribute, MetaItem};
use uniforms::derive_uniforms;
use uniforms::error::GenerationError;
use uniforms::formats::{FieldBindType, GpuFormatTable, TypeEntry, VertexFormat};
use uniforms::layout::{build_vertex_layout, InputStepMode, VertexAttributeDescriptor, VertexInput};
use uniforms::shape::{FieldDecl, StructDecl, StructShape};

fn format(tag: u32, size: u64) -> VertexFormat {
    VertexFormat { tag, size }
}

fn input(name: &str, formats: Vec<VertexFormat>) -> VertexInput {
    VertexInput { name: name.to_string(), formats }
}

fn attribute(name: &str, offset: u64, format: VertexFormat, shader_location: u32) -> VertexAttributeDescriptor {
    VertexAttributeDescriptor { name: name.to_string(), offset, format, shader_location }
}

#[test]
fn no_input_no_layout() {
    assert_eq!(build_vertex_layout("S", &vec![]), Ok(None));
}

#[test]
fn inputs_without_components_give_no_layout() {
    assert_eq!(build_vertex_layout("S", &vec![input("S_A", vec![]), input("S_B", vec![])]), Ok(None));
}

#[test]
fn one_component_keeps_the_base_name() {
    let layout = build_vertex_layout("Light", &vec![input("I_Light_Position", vec![format(3, 12)])])
        .unwrap()
        .unwrap();
    assert_eq!(layout.name, "Light");
    assert_eq!(layout.stride, 12);
    assert_eq!(layout.step_mode, InputStepMode::Instance);
    assert_eq!(layout.attributes, vec![attribute("I_Light_Position", 0, format(3, 12), 0)]);
}

#[test]
fn offsets_and_locations_run_across_fields() {
    let inputs = vec![
        input("M_Position", vec![format(3, 12)]),
        input("I_M_Model", vec![format(4, 16), format(4, 16), format(4, 16), format(4, 16)]),
        input("M_Nothing", vec![]),
        input("M_Uv", vec![format(2, 8)]),
    ];
    let layout = build_vertex_layout("M", &inputs).unwrap().unwrap();
    assert_eq!(
        layout.attributes,
        vec![
            attribute("M_Position", 0, format(3, 12), 0),
            attribute("I_M_Model_0", 12, format(4, 16), 1),
            attribute("I_M_Model_1", 28, format(4, 16), 2),
            attribute("I_M_Model_2", 44, format(4, 16), 3),
            attribute("I_M_Model_3", 60, format(4, 16), 4),
            attribute("M_Uv", 76, format(2, 8), 5),
        ]
    );
    assert_eq!(layout.stride, 84);
}

#[test]
fn layout_is_contiguous() {
    let inputs = vec![
        input("A", vec![format(1, 4), format(2, 0), format(3, 7)]),
        input("B", vec![format(4, 1)]),
        input("C", vec![format(5, 100), format(6, 2)]),
    ];
    let layout = build_vertex_layout("S", &inputs).unwrap().unwrap();
    let attributes = &layout.attributes;
    assert_eq!(attributes.len(), 6);
    assert_eq!(attributes[0].offset, 0);
    for k in 0..attributes.len() {
        assert_eq!(attributes[k].shader_location as usize, k);
        if k + 1 < attributes.len() {
            assert_eq!(attributes[k + 1].offset, attributes[k].offset + attributes[k].format.size);
            assert!(attributes[k].offset <= attributes[k + 1].offset);
        }
    }
    let last = &attributes[attributes.len() - 1];
    assert_eq!(last.offset + last.format.size, layout.stride);
    assert_eq!(layout.stride, 114);
}

#[test]
fn stride_that_does_not_fit_is_an_overflow() {
    let inputs = vec![input("A", vec![format(1, u64::MAX), format(1, 1)])];
    assert_eq!(build_vertex_layout("S", &inputs), Err(GenerationError::LayoutOverflow));
    let inputs = vec![input("A", vec![format(1, u64::MAX)]), input("B", vec![format(1, 1)])];
    assert_eq!(build_vertex_layout("S", &inputs), Err(GenerationError::LayoutOverflow));
}

#[test]
fn stride_at_the_limit_fits() {
    let inputs = vec![input("A", vec![format(1, u64::MAX - 1), format(1, 1)])];
    let layout = build_vertex_layout("S", &inputs).unwrap().unwrap();
    assert_eq!(layout.stride, u64::MAX);
    assert_eq!(layout.attributes[1].offset, u64::MAX - 1);
    assert_eq!(layout.attributes[1].name, "A_1");
}

#[test]
fn overflow_is_reported_by_generation() {
    let table = GpuFormatTable {
        entries: vec![TypeEntry {
            ty: "Huge".to_string(),
            bind_type: Some(FieldBindType::Uniform { size: 8 }),
            formats: vec![format(1, u64::MAX)],
        }],
    };
    let vertex = vec![Attribute {
        name: "uniform".to_string(),
        args: Some(vec![MetaItem::Word { name: "vertex".to_string() }]),
    }];
    let decl = StructDecl {
        name: "S".to_string(),
        shape: StructShape::Named(vec![
            FieldDecl { name: "a".to_string(), ty: "Huge".to_string(), attrs: vertex.clone() },
            FieldDecl { name: "b".to_string(), ty: "Huge".to_string(), attrs: vertex },
        ]),
    };
    assert_eq!(derive_uniforms(&decl, &table), Err(GenerationError::LayoutOverflow));
}

#[test]
fn first_entry_of_a_type_counts() {
    let table = GpuFormatTable {
        entries: vec![
            TypeEntry { ty: "T".to_string(), bind_type: Some(FieldBindType::Texture), formats: vec![format(1, 4)] },
            TypeEntry { ty: "T".to_string(), bind_type: None, formats: vec![] },
        ],
    };
    assert_eq!(table.bind_type("T"), Some(FieldBindType::Texture));
    assert_eq!(table.formats("T"), Some(&vec![format(1, 4)]));
    assert_eq!(table.bind_type("U"), None);
    assert_eq!(table.formats("U"), None);
    assert!(table.entry("U").is_none());
}
