use uniforms::artifact::{Binding, FieldValue, ShaderDef, TextureHandle, UniformTarget, Uniforms};
use uniforms::attributes::{Attribute, MetaItem};
use uniforms::derive_uniforms;
use uniforms::formats::{FieldBindType, GpuFormatTable, TypeEntry, VertexFormat};
use uniforms::layout::VertexBufferDescriptor;
use uniforms::layout::InputStepMode;
use uniforms::shape::{FieldDecl, StructDecl, StructShape};

fn marks(names: &[&str]) -> Vec<Attribute> {
    vec![Attribute {
        name: "uniform".to_string(),
        args: Some(names.iter().map(|name| MetaItem::Word { name: name.to_string() }).collect()),
    }]
}

fn field(name: &str, ty: &str, attrs: Vec<Attribute>) -> FieldDecl {
    FieldDecl { name: name.to_string(), ty: ty.to_string(), attrs }
}

fn table() -> GpuFormatTable {
    GpuFormatTable {
        entries: vec![
            TypeEntry {
                ty: "Color".to_string(),
                bind_type: Some(FieldBindType::Uniform { size: 16 }),
                formats: vec![VertexFormat { tag: 1, size: 16 }],
            },
            TypeEntry { ty: "Handle".to_string(), bind_type: Some(FieldBindType::Texture), formats: vec![] },
            TypeEntry { ty: "Option".to_string(), bind_type: None, formats: vec![] },
        ],
    }
}

fn material() -> Uniforms {
    let decl = StructDecl {
        name: "Material".to_string(),
        shape: StructShape::Named(vec![
            field("albedo", "Color", vec![]),
            field("hidden", "Color", marks(&["ignore"])),
            field("albedo_texture", "Handle", marks(&["shader_def"])),
            field("shaded", "Option", marks(&["ignore", "shader_def"])),
        ]),
    };
    derive_uniforms(&decl, &table()).unwrap()
}

fn target() -> UniformTarget {
    UniformTarget {
        fields: vec![
            FieldValue { bytes: vec![1, 2, 3, 4], texture: None, shader_def: None },
            FieldValue { bytes: vec![9, 9], texture: Some(TextureHandle { id: 1 }), shader_def: Some("X".to_string()) },
            FieldValue { bytes: vec![], texture: Some(TextureHandle { id: 42 }), shader_def: Some(String::new()) },
            FieldValue { bytes: vec![7], texture: None, shader_def: Some("_LIT".to_string()) },
        ],
    }
}

#[test]
fn byte_len_follows_the_uniform_name() {
    let uniforms = material();
    assert_eq!(uniforms.uniform_byte_len(&target(), "Material_albedo"), 4);
    assert_eq!(uniforms.uniform_byte_len(&target(), "Material_albedo_texture"), 0);
    assert_eq!(uniforms.uniform_byte_len(&target(), "Material_hidden"), 0);
    assert_eq!(uniforms.uniform_byte_len(&target(), "albedo"), 0);
    assert_eq!(uniforms.uniform_byte_len(&target(), ""), 0);
}

#[test]
fn write_puts_the_bytes_at_the_start() {
    let uniforms = material();
    let mut buffer = [0xffu8; 6];
    assert_eq!(uniforms.write_uniform_bytes(&target(), "Material_albedo", &mut buffer), 4);
    assert_eq!(buffer, [1, 2, 3, 4, 0xff, 0xff]);
    let mut exact = [0u8; 4];
    assert_eq!(uniforms.write_uniform_bytes(&target(), "Material_albedo", &mut exact), 4);
    assert_eq!(exact, [1, 2, 3, 4]);
}

#[test]
fn write_under_an_unknown_name_does_nothing() {
    let uniforms = material();
    let mut buffer = [5u8; 6];
    assert_eq!(uniforms.write_uniform_bytes(&target(), "Material_hidden", &mut buffer), 0);
    assert_eq!(uniforms.write_uniform_bytes(&target(), "Material_albedo_sampler", &mut buffer), 0);
    assert_eq!(buffer, [5u8; 6]);
}

#[test]
fn write_into_a_short_buffer_does_nothing() {
    let uniforms = material();
    let mut buffer = [5u8; 3];
    assert_eq!(uniforms.write_uniform_bytes(&target(), "Material_albedo", &mut buffer), 0);
    assert_eq!(buffer, [5u8; 3]);
}

#[test]
fn written_length_is_the_byte_len() {
    let uniforms = material();
    for info in uniforms.get_field_infos() {
        let len = uniforms.uniform_byte_len(&target(), &info.uniform_name);
        let mut buffer = vec![0u8; len + 3];
        assert_eq!(uniforms.write_uniform_bytes(&target(), &info.uniform_name, &mut buffer), len);
    }
}

#[test]
fn target_without_the_value_reads_as_nothing() {
    let uniforms = material();
    let short = UniformTarget { fields: vec![] };
    let mut buffer = [5u8; 6];
    assert_eq!(uniforms.uniform_byte_len(&short, "Material_albedo"), 0);
    assert_eq!(uniforms.write_uniform_bytes(&short, "Material_albedo", &mut buffer), 0);
    assert_eq!(buffer, [5u8; 6]);
    assert_eq!(uniforms.get_uniform_texture(&short, "Material_albedo_texture"), None);
    assert_eq!(uniforms.get_shader_defs(&short), Some(vec![]));
}

#[test]
fn texture_answers_to_texture_and_sampler_name() {
    let uniforms = material();
    let handle = Some(TextureHandle { id: 42 });
    assert_eq!(uniforms.get_uniform_texture(&target(), "Material_albedo_texture"), handle);
    assert_eq!(uniforms.get_uniform_texture(&target(), "Material_albedo_texture_sampler"), handle);
    assert_eq!(uniforms.get_uniform_texture(&target(), "Material_albedo"), None);
    assert_eq!(uniforms.get_uniform_texture(&target(), "Material_albedo_sampler"), None);
    assert_eq!(uniforms.get_uniform_texture(&target(), "Material_hidden"), None);
    assert_eq!(uniforms.get_uniform_texture(&target(), "albedo_texture"), None);
}

#[test]
fn bind_types_follow_the_types() {
    let uniforms = material();
    assert_eq!(uniforms.get_field_bind_type("Material_albedo"), Some(FieldBindType::Uniform { size: 16 }));
    assert_eq!(uniforms.get_field_bind_type("Material_albedo_texture"), Some(FieldBindType::Texture));
    assert_eq!(uniforms.get_field_bind_type("Material_hidden"), None);
    assert_eq!(uniforms.get_field_bind_type("Material_shaded"), None);
}

#[test]
fn shader_defs_in_declared_order() {
    let uniforms = material();
    assert_eq!(
        uniforms.get_shader_defs(&target()),
        Some(vec!["MATERIAL_ALBEDO_TEXTURE".to_string(), "MATERIAL_SHADED_LIT".to_string()])
    );
    let mut unset = target();
    unset.fields[2].shader_def = None;
    assert_eq!(uniforms.get_shader_defs(&unset), Some(vec!["MATERIAL_SHADED_LIT".to_string()]));
    unset.fields[3].shader_def = None;
    assert_eq!(uniforms.get_shader_defs(&unset), Some(vec![]));
}

#[test]
fn first_row_answers_where_names_collide() {
    let decl = StructDecl {
        name: "S".to_string(),
        shape: StructShape::Named(vec![
            field("a", "Handle", vec![]),
            field("a_sampler", "Handle", vec![]),
            field("a", "Color", vec![]),
        ]),
    };
    let uniforms = derive_uniforms(&decl, &table()).unwrap();
    let target = UniformTarget {
        fields: vec![
            FieldValue { bytes: vec![1], texture: Some(TextureHandle { id: 1 }), shader_def: None },
            FieldValue { bytes: vec![2, 2], texture: Some(TextureHandle { id: 2 }), shader_def: None },
            FieldValue { bytes: vec![3, 3, 3], texture: Some(TextureHandle { id: 3 }), shader_def: None },
        ],
    };
    assert_eq!(uniforms.get_uniform_texture(&target, "S_a_sampler"), Some(TextureHandle { id: 1 }));
    assert_eq!(uniforms.get_uniform_texture(&target, "S_a_sampler_sampler"), Some(TextureHandle { id: 2 }));
    assert_eq!(uniforms.uniform_byte_len(&target, "S_a"), 1);
    assert_eq!(uniforms.uniform_byte_len(&target, "S_a_sampler"), 2);
    assert_eq!(uniforms.get_field_bind_type("S_a"), Some(FieldBindType::Texture));
}

#[test]
fn layout_without_attributes_is_never_handed_out() {
    let uniforms = Uniforms {
        field_infos: vec![],
        bindings: vec![],
        shader_def_prefix: "S".to_string(),
        shader_defs: vec![],
        vertex_buffer_descriptor: Some(VertexBufferDescriptor {
            name: "S".to_string(),
            stride: 0,
            step_mode: InputStepMode::Instance,
            attributes: vec![],
        }),
    };
    assert!(uniforms.get_vertex_buffer_descriptor().is_none());
}

#[test]
fn rows_without_texture_support_hold_no_texture() {
    let uniforms = Uniforms {
        field_infos: vec![],
        bindings: vec![Binding {
            uniform_name: "S".to_string(),
            texture_name: "S".to_string(),
            sampler_name: "S".to_string(),
            textured: false,
            field: 0,
            bind_type: None,
        }],
        shader_def_prefix: "P".to_string(),
        shader_defs: vec![ShaderDef { label: "L".to_string(), field: 0 }, ShaderDef { label: "M".to_string(), field: 5 }],
        vertex_buffer_descriptor: None,
    };
    let target = UniformTarget {
        fields: vec![FieldValue { bytes: vec![], texture: Some(TextureHandle { id: 3 }), shader_def: Some("_1".to_string()) }],
    };
    assert_eq!(uniforms.get_uniform_texture(&target, "S"), None);
    assert_eq!(uniforms.get_shader_defs(&target), Some(vec!["P_L_1".to_string()]));
    assert!(uniforms.find_uniform("S").is_some());
    assert!(uniforms.find_texture("S").is_none());
    assert!(target.value(0).is_some());
    assert!(target.value(1).is_none());
}

#[test]
fn collisions_are_found() {
    assert!(!material().has_name_collision());
    let decl = StructDecl {
        name: "S".to_string(),
        shape: StructShape::Named(vec![field("a", "Handle", vec![]), field("a_sampler", "Handle", vec![])]),
    };
    assert!(derive_uniforms(&decl, &table()).unwrap().has_name_collision());
    let decl = StructDecl {
        name: "S".to_string(),
        shape: StructShape::Named(vec![field("a", "Color", vec![]), field("b", "Color", vec![]), field("a", "Color", vec![])]),
    };
    let uniforms = derive_uniforms(&decl, &table()).unwrap();
    assert!(uniforms.has_name_collision());
    assert!(uniforms.bindings[0].collides_with(&uniforms.bindings[2]));
    assert!(!uniforms.bindings[0].collides_with(&uniforms.bindings[1]));
    let decl = StructDecl { name: "S".to_string(), shape: StructShape::Named(vec![]) };
    assert!(!derive_uniforms(&decl, &table()).unwrap().has_name_collision());
}

#[test]
fn every_row_is_reached_where_names_are_unique() {
    let uniforms = material();
    assert!(!uniforms.has_name_collision());
    for row in &uniforms.bindings {
        assert_eq!(uniforms.find_uniform(&row.uniform_name), Some(row));
        assert_eq!(uniforms.find_texture(&row.texture_name), Some(row));
        assert_eq!(uniforms.find_texture(&row.sampler_name), Some(row));
    }
}
