use renderer::constants::{FRAGMENT_SHADER, VERTEX_SHADER};
use renderer::mesh::Attribute;
use renderer::shader::{
    ShaderError, ShaderStage, FRAGMENT_SHADER_SOURCE, VERTEX_SHADER_SOURCE,
};
use renderer::text::null_str;
use renderer::uniform::{Axis, Uniform};

#[test]
fn shader_kinds_are_those_of_the_bindings() {
    assert_eq!(VERTEX_SHADER, gl::VERTEX_SHADER);
    assert_eq!(FRAGMENT_SHADER, gl::FRAGMENT_SHADER);
    assert_eq!(ShaderStage::Vertex.kind(), gl::VERTEX_SHADER);
    assert_eq!(ShaderStage::Fragment.kind(), gl::FRAGMENT_SHADER);
}

#[test]
fn each_stage_has_its_source() {
    assert_eq!(ShaderStage::Vertex.source(), VERTEX_SHADER_SOURCE);
    assert_eq!(ShaderStage::Fragment.source(), FRAGMENT_SHADER_SOURCE);
    assert_ne!(VERTEX_SHADER_SOURCE, FRAGMENT_SHADER_SOURCE);
}

#[test]
fn vertex_shader_source_is_exact() {
    assert_eq!(
        VERTEX_SHADER_SOURCE,
        "\n#version 330\nuniform mat4 transform;\nuniform mat4 y_transform;\n\nin vec3 position;\nin vec3 color;\nout vec3 vertexColor;\n\nvoid main() {\n    gl_Position = (transform + y_transform) * vec4(position, 1.0);\n    vertexColor = color;\n}\n"
    );
}

#[test]
fn fragment_shader_source_is_exact() {
    assert_eq!(
        FRAGMENT_SHADER_SOURCE,
        "\n#version 330\nin vec3 vertexColor;\nout vec4 fragColor;\n\nvoid main() {\n    fragColor = vec4(vertexColor, 1.0);\n}\n"
    );
}

#[test]
fn the_vertex_shader_declares_what_is_looked_up() {
    for attribute in [Attribute::Position, Attribute::Color] {
        let declaration = format!("in vec3 {};", attribute.name());
        assert!(VERTEX_SHADER_SOURCE.contains(&declaration));
    }
    for uniform in [Uniform::Transform, Uniform::YTransform] {
        let declaration = format!("uniform mat4 {};", uniform.name());
        assert!(VERTEX_SHADER_SOURCE.contains(&declaration));
    }
}

#[test]
fn sources_hold_no_nul() {
    assert!(!VERTEX_SHADER_SOURCE.contains('\0'));
    assert!(!FRAGMENT_SHADER_SOURCE.contains('\0'));
}

#[test]
fn uniforms_have_their_names_and_axes() {
    assert_eq!(Uniform::Transform.name(), "transform");
    assert_eq!(Uniform::Transform.axis(), Axis::Z);
    assert_eq!(Uniform::YTransform.name(), "y_transform");
    assert_eq!(Uniform::YTransform.axis(), Axis::Y);
}

#[test]
fn null_str_appends_one_nul() {
    assert_eq!(null_str("transform"), "transform\0");
    assert_eq!(null_str("y_transform"), "y_transform\0");
    assert_eq!(null_str(""), "\0");
    assert_eq!(null_str("a\0"), "a\0\0");
    assert_eq!(null_str("transform").len(), 10);
}

#[test]
fn terminated_names_end_at_their_only_nul() {
    for name in [
        Uniform::Transform.name(),
        Uniform::YTransform.name(),
        Attribute::Position.name(),
        Attribute::Color.name(),
    ] {
        let terminated = null_str(name);
        assert_eq!(terminated.find('\0'), Some(name.len()));
        assert_eq!(terminated.len(), name.len() + 1);
    }
}

#[test]
fn shader_errors_compare_by_kind_and_contents() {
    assert_eq!(
        ShaderError::CompilationError(String::from("x")),
        ShaderError::CompilationError(String::from("x"))
    );
    assert_ne!(
        ShaderError::CompilationError(String::from("x")),
        ShaderError::LinkingError(String::from("x"))
    );
    assert_ne!(ShaderError::NulError(1), ShaderError::NulError(2));
}
