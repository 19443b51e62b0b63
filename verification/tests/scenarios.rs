use uniforms::artifact::{FieldInfo, FieldValue, TextureHandle, UniformTarget};
use uniforms::attributes::{Attribute, MetaItem};
use uniforms::error::GenerationError;
use uniforms::formats::{FieldBindType, GpuFormatTable, TypeEntry, VertexFormat};
use uniforms::layout::InputStepMode;
use uniforms::shape::{FieldDecl, StructDecl, StructShape};
use uniforms::{derive_uniform, derive_uniforms};

fn word(name: &str) -> MetaItem {
    MetaItem::Word { name: name.to_string() }
}

fn uniform(items: Vec<MetaItem>) -> Vec<Attribute> {
    vec![Attribute { name: "uniform".to_string(), args: Some(items) }]
}

fn field(name: &str, ty: &str, attrs: Vec<Attribute>) -> FieldDecl {
    FieldDecl { name: name.to_string(), ty: ty.to_string(), attrs }
}

fn named(name: &str, fields: Vec<FieldDecl>) -> StructDecl {
    StructDecl { name: name.to_string(), shape: StructShape::Named(fields) }
}

fn entry(ty: &str, bind_type: Option<FieldBindType>, formats: Vec<VertexFormat>) -> TypeEntry {
    TypeEntry { ty: ty.to_string(), bind_type, formats }
}

const FLOAT3: VertexFormat = VertexFormat { tag: 20, size: 12 };
const FLOAT4: VertexFormat = VertexFormat { tag: 21, size: 16 };

fn table() -> GpuFormatTable {
    GpuFormatTable {
        entries: vec![
            entry("Vec3", Some(FieldBindType::Uniform { size: 12 }), vec![FLOAT3]),
            entry("Vec4", Some(FieldBindType::Uniform { size: 16 }), vec![FLOAT4]),
            entry("Mat4", Some(FieldBindType::Uniform { size: 64 }), vec![FLOAT4, FLOAT4, FLOAT4, FLOAT4]),
            entry("Texture", Some(FieldBindType::Texture), vec![]),
            entry("Flag", None, vec![]),
        ],
    }
}

fn light() -> StructDecl {
    named(
        "Light",
        vec![
            field("color", "Vec4", vec![]),
            field("position", "Vec3", uniform(vec![word("instance")])),
        ],
    )
}

fn value(bytes: Vec<u8>) -> FieldValue {
    FieldValue { bytes, texture: None, shader_def: None }
}

#[test]
fn light_field_infos() {
    let uniforms = derive_uniforms(&light(), &table()).unwrap();
    let infos = uniforms.get_field_infos();
    assert_eq!(
        infos,
        &vec![
            FieldInfo {
                name: "color".to_string(),
                uniform_name: "Light_color".to_string(),
                texture_name: "Light_color".to_string(),
                sampler_name: "Light_color_sampler".to_string(),
                is_instanceable: false,
            },
            FieldInfo {
                name: "position".to_string(),
                uniform_name: "Light_position".to_string(),
                texture_name: "Light_position".to_string(),
                sampler_name: "Light_position_sampler".to_string(),
                is_instanceable: true,
            },
        ]
    );
}

#[test]
fn light_vertex_layout() {
    let uniforms = derive_uniforms(&light(), &table()).unwrap();
    let descriptor = uniforms.get_vertex_buffer_descriptor().unwrap();
    assert_eq!(descriptor.name, "Light");
    assert_eq!(descriptor.stride, 12);
    assert_eq!(descriptor.step_mode, InputStepMode::Instance);
    assert_eq!(descriptor.attributes.len(), 1);
    assert_eq!(descriptor.attributes[0].name, "I_Light_Position");
    assert_eq!(descriptor.attributes[0].offset, 0);
    assert_eq!(descriptor.attributes[0].shader_location, 0);
    assert_eq!(descriptor.attributes[0].format, FLOAT3);
}

#[test]
fn light_bind_types() {
    let uniforms = derive_uniforms(&light(), &table()).unwrap();
    assert_eq!(uniforms.get_field_bind_type("Light_color"), Some(FieldBindType::Uniform { size: 16 }));
    assert_eq!(uniforms.get_field_bind_type("Light_position"), Some(FieldBindType::Uniform { size: 12 }));
    assert_eq!(uniforms.get_field_bind_type("color"), None);
    assert_eq!(uniforms.get_field_bind_type("Light_color_sampler"), None);
}

#[test]
fn ignored_shader_def_without_value() {
    let decl = named("Material", vec![field("flag", "Flag", uniform(vec![word("ignore"), word("shader_def")]))]);
    let uniforms = derive_uniforms(&decl, &table()).unwrap();
    assert!(uniforms.get_field_infos().is_empty());
    assert!(uniforms.bindings.is_empty());
    assert!(uniforms.get_vertex_buffer_descriptor().is_none());
    assert_eq!(uniforms.shader_defs.len(), 1);
    let target = UniformTarget { fields: vec![value(vec![])] };
    assert_eq!(uniforms.get_shader_defs(&target), Some(vec![]));
}

#[test]
fn ignored_shader_def_with_value() {
    let decl = named("Material", vec![field("flag", "Flag", uniform(vec![word("ignore"), word("shader_def")]))]);
    let uniforms = derive_uniforms(&decl, &table()).unwrap();
    let target = UniformTarget {
        fields: vec![FieldValue { bytes: vec![], texture: None, shader_def: Some(String::new()) }],
    };
    assert_eq!(uniforms.get_shader_defs(&target), Some(vec!["MATERIAL_FLAG".to_string()]));
}

#[test]
fn buffer_on_texture_type_fails() {
    let decl = named("Material", vec![field("data", "Texture", uniform(vec![word("buffer")]))]);
    assert_eq!(derive_uniforms(&decl, &table()), Err(GenerationError::IncompatibleBuffer));
}

#[test]
fn buffer_on_unbound_type_fails() {
    let decl = named("Material", vec![field("data", "Flag", uniform(vec![word("buffer")]))]);
    assert_eq!(derive_uniforms(&decl, &table()), Err(GenerationError::IncompatibleBuffer));
    let decl = named("Material", vec![field("data", "Unlisted", uniform(vec![word("buffer")]))]);
    assert_eq!(derive_uniforms(&decl, &table()), Err(GenerationError::IncompatibleBuffer));
}

#[test]
fn buffer_on_uniform_type_binds_as_buffer() {
    let decl = named("Material", vec![field("data", "Vec4", uniform(vec![word("buffer")]))]);
    let uniforms = derive_uniforms(&decl, &table()).unwrap();
    assert_eq!(uniforms.get_field_bind_type("Material_data"), Some(FieldBindType::Buffer { size: 16 }));
}

#[test]
fn ignored_buffer_field_is_not_checked() {
    let decl = named("Material", vec![field("data", "Texture", uniform(vec![word("buffer"), word("ignore")]))]);
    let uniforms = derive_uniforms(&decl, &table()).unwrap();
    assert!(uniforms.get_field_infos().is_empty());
}

#[test]
fn shapes_other_than_named_structs_fail() {
    for shape in [StructShape::Tuple, StructShape::Unit, StructShape::Enum, StructShape::Union] {
        let decl = StructDecl { name: "Thing".to_string(), shape };
        assert_eq!(derive_uniforms(&decl, &table()), Err(GenerationError::NotNamedStruct));
    }
}

#[test]
fn struct_without_fields_has_empty_tables() {
    let uniforms = derive_uniforms(&named("Empty", vec![]), &table()).unwrap();
    assert!(uniforms.get_field_infos().is_empty());
    assert!(uniforms.get_vertex_buffer_descriptor().is_none());
    assert_eq!(uniforms.get_shader_defs(&UniformTarget { fields: vec![] }), Some(vec![]));
}

#[test]
fn vertex_input_of_unlisted_type_fails() {
    let decl = named("Mesh", vec![field("normal", "Unlisted", uniform(vec![word("vertex")]))]);
    assert_eq!(derive_uniforms(&decl, &table()), Err(GenerationError::MissingVertexFormat));
}

#[test]
fn buffer_failure_comes_before_missing_format() {
    let decl = named(
        "Mesh",
        vec![
            field("normal", "Unlisted", uniform(vec![word("vertex")])),
            field("data", "Texture", uniform(vec![word("buffer")])),
        ],
    );
    assert_eq!(derive_uniforms(&decl, &table()), Err(GenerationError::IncompatibleBuffer));
}

#[test]
fn no_vertex_input_means_no_layout() {
    let decl = named("Plain", vec![field("a", "Vec4", vec![]), field("b", "Mat4", uniform(vec![word("shader_def")]))]);
    let uniforms = derive_uniforms(&decl, &table()).unwrap();
    assert!(uniforms.vertex_buffer_descriptor.is_none());
    assert!(uniforms.get_vertex_buffer_descriptor().is_none());
}

#[test]
fn vertex_input_without_components_means_no_layout() {
    let decl = named("Odd", vec![field("t", "Texture", uniform(vec![word("vertex")]))]);
    let uniforms = derive_uniforms(&decl, &table()).unwrap();
    assert!(uniforms.get_vertex_buffer_descriptor().is_none());
}

#[test]
fn generation_twice_gives_the_same_descriptor() {
    let first = derive_uniforms(&light(), &table());
    let second = derive_uniforms(&light(), &table());
    assert_eq!(first, second);
    let decl = named("Material", vec![field("data", "Texture", uniform(vec![word("buffer")]))]);
    assert_eq!(derive_uniforms(&decl, &table()), derive_uniforms(&decl, &table()));
}

#[test]
fn names_go_through_case_conversion() {
    let decl = named(
        "StandardMaterial",
        vec![
            field("base_color", "Vec4", uniform(vec![word("vertex"), word("shader_def")])),
            field("albedoTexture", "Vec3", uniform(vec![word("instance"), word("shader_def")])),
        ],
    );
    let uniforms = derive_uniforms(&decl, &table()).unwrap();
    let descriptor = uniforms.get_vertex_buffer_descriptor().unwrap();
    assert_eq!(descriptor.attributes[0].name, "StandardMaterial_BaseColor");
    assert_eq!(descriptor.attributes[1].name, "I_StandardMaterial_AlbedoTexture");
    assert_eq!(uniforms.shader_def_prefix, "STANDARDMATERIAL");
    let defs = &uniforms.shader_defs;
    assert_eq!(defs[0].label, "BASE_COLOR");
    assert_eq!(defs[1].label, "ALBEDO_TEXTURE");
    let target = UniformTarget {
        fields: vec![
            FieldValue { bytes: vec![], texture: None, shader_def: Some("_ON".to_string()) },
            FieldValue { bytes: vec![], texture: None, shader_def: None },
        ],
    };
    assert_eq!(uniforms.get_shader_defs(&target), Some(vec!["STANDARDMATERIAL_BASE_COLOR_ON".to_string()]));
}

#[test]
fn instance_decides_where_both_marks_are_set() {
    let decl = named("Both", vec![field("offset", "Vec3", uniform(vec![word("vertex"), word("instance")]))]);
    let uniforms = derive_uniforms(&decl, &table()).unwrap();
    let descriptor = uniforms.get_vertex_buffer_descriptor().unwrap();
    assert_eq!(descriptor.attributes[0].name, "I_Both_Offset");
    assert!(uniforms.get_field_infos()[0].is_instanceable);
}

#[test]
fn vertex_mark_alone_is_not_instanceable() {
    let decl = named("Mesh", vec![field("normal", "Vec3", uniform(vec![word("vertex")]))]);
    let uniforms = derive_uniforms(&decl, &table()).unwrap();
    let descriptor = uniforms.get_vertex_buffer_descriptor().unwrap();
    assert_eq!(descriptor.attributes[0].name, "Mesh_Normal");
    assert_eq!(descriptor.step_mode, InputStepMode::Instance);
    assert!(!uniforms.get_field_infos()[0].is_instanceable);
}

#[test]
fn single_value_descriptor() {
    let decl = StructDecl { name: "Vec4".to_string(), shape: StructShape::Tuple };
    let uniforms = derive_uniform(&decl, &table());
    assert_eq!(
        uniforms.get_field_infos(),
        &vec![FieldInfo {
            name: "Vec4".to_string(),
            uniform_name: "Vec4".to_string(),
            texture_name: "Vec4".to_string(),
            sampler_name: "Vec4".to_string(),
            is_instanceable: false,
        }]
    );
    assert_eq!(uniforms.get_field_bind_type("Vec4"), Some(FieldBindType::Uniform { size: 16 }));
    assert_eq!(uniforms.get_field_bind_type("Vec3"), None);
    let target = UniformTarget {
        fields: vec![FieldValue {
            bytes: vec![1, 2, 3, 4],
            texture: Some(TextureHandle { id: 9 }),
            shader_def: Some("X".to_string()),
        }],
    };
    assert_eq!(uniforms.uniform_byte_len(&target, "Vec4"), 4);
    assert_eq!(uniforms.uniform_byte_len(&target, "other"), 0);
    let mut buffer = [0u8; 6];
    assert_eq!(uniforms.write_uniform_bytes(&target, "Vec4", &mut buffer), 4);
    assert_eq!(buffer, [1, 2, 3, 4, 0, 0]);
    assert_eq!(uniforms.get_uniform_texture(&target, "Vec4"), None);
    assert_eq!(uniforms.get_shader_defs(&target), Some(vec![]));
    assert!(uniforms.shader_defs.is_empty());
    assert!(uniforms.get_vertex_buffer_descriptor().is_none());
}

#[test]
fn single_value_descriptor_of_unlisted_type() {
    let decl = named("Custom", vec![field("a", "Vec4", vec![])]);
    let uniforms = derive_uniform(&decl, &table());
    assert_eq!(uniforms.get_field_infos().len(), 1);
    assert_eq!(uniforms.get_field_bind_type("Custom"), None);
}

#[test]
fn declaration_hands_out_its_named_fields() {
    assert_eq!(light().named_fields().map(|fields| fields.len()), Ok(2));
    let decl = StructDecl { name: "T".to_string(), shape: StructShape::Unit };
    assert_eq!(decl.named_fields().err(), Some(GenerationError::NotNamedStruct));
}

#[test]
fn single_value_descriptor_never_has_shader_defs() {
    let marked = vec![
        field("flag", "Flag", uniform(vec![word("shader_def")])),
        field("other", "Vec4", uniform(vec![word("ignore"), word("shader_def")])),
    ];
    let uniforms = derive_uniform(&named("Material", marked), &table());
    for fields in [
        vec![],
        vec![FieldValue { bytes: vec![], texture: None, shader_def: None }],
        vec![
            FieldValue { bytes: vec![1], texture: None, shader_def: Some("_ON".to_string()) },
            FieldValue { bytes: vec![2], texture: None, shader_def: Some(String::new()) },
        ],
    ] {
        assert_eq!(uniforms.get_shader_defs(&UniformTarget { fields }), Some(vec![]));
    }
}
