use uniforms::error::GenerationError;
use uniforms::naming::{
    component_name, decimal, sampler_name, shader_def_token, texture_name, uniform_name,
    vertex_attribute_name,
};

#[test]
fn uniform_and_texture_names_are_the_same() {
    assert_eq!(uniform_name("Light", "color"), "Light_color");
    assert_eq!(texture_name("Light", "color"), "Light_color");
    assert_eq!(uniform_name("", ""), "_");
}

#[test]
fn sampler_name_appends_to_the_uniform_name() {
    assert_eq!(sampler_name("Light_color"), "Light_color_sampler");
    assert_eq!(sampler_name(""), "_sampler");
}

#[test]
fn shader_def_token_joins_its_parts() {
    assert_eq!(shader_def_token("LIGHT", "ALBEDO_TEXTURE", ""), "LIGHT_ALBEDO_TEXTURE");
    assert_eq!(shader_def_token("LIGHT", "MODE", "_3"), "LIGHT_MODE_3");
}

#[test]
fn vertex_attribute_names() {
    assert_eq!(vertex_attribute_name("Light", "Position", true), "I_Light_Position");
    assert_eq!(vertex_attribute_name("Light", "Position", false), "Light_Position");
}

#[test]
fn decimal_writes_numbers() {
    assert_eq!(decimal(0), "0");
    assert_eq!(decimal(7), "7");
    assert_eq!(decimal(10), "10");
    assert_eq!(decimal(1234567890), "1234567890");
    assert_eq!(decimal(usize::MAX), usize::MAX.to_string());
}

#[test]
fn component_names() {
    assert_eq!(component_name("I_M_Model", 0, 1), "I_M_Model");
    assert_eq!(component_name("I_M_Model", 0, 4), "I_M_Model_0");
    assert_eq!(component_name("I_M_Model", 3, 4), "I_M_Model_3");
    assert_eq!(component_name("I_M_Model", 11, 12), "I_M_Model_11");
    assert_eq!(component_name("I_M_Model", 0, 0), "I_M_Model");
}

#[test]
fn errors_have_messages() {
    assert_eq!(GenerationError::NotNamedStruct.message(), "expected a struct with named fields");
    assert_eq!(
        GenerationError::IncompatibleBuffer.message(),
        "Uniform field was labeled as a 'buffer', but it does not have a compatible type."
    );
    assert!(!GenerationError::MissingVertexFormat.message().is_empty());
    assert!(!GenerationError::LayoutOverflow.message().is_empty());
}
