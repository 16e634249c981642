//! The two shaders of the renderer and what can go wrong while the driver
//! builds a program from them.

use vstd::prelude::*;
use crate::constants::{FRAGMENT_SHADER, VERTEX_SHADER};
use crate::mesh::Attribute;
use crate::text::{nul_free, occurs_at, occurs_in};
use crate::uniform::Uniform;

verus! {

/// The vertex shader.  It adds the two rotation matrices, applies the sum to
/// the position and passes the colour on.
pub const VERTEX_SHADER_SOURCE: &'static str = r#"
#version 330
uniform mat4 transform;
uniform mat4 y_transform;

in vec3 position;
in vec3 color;
out vec3 vertexColor;

void main() {
    gl_Position = (transform + y_transform) * vec4(position, 1.0);
    vertexColor = color;
}
"#;

/// The fragment shader.  It paints the interpolated vertex colour, opaque.
pub const FRAGMENT_SHADER_SOURCE: &'static str = r#"
#version 330
in vec3 vertexColor;
out vec4 fragColor;

void main() {
    fragColor = vec4(vertexColor, 1.0);
}
"#;

/// A stage of the shader program.
#[derive(Debug, Clone, Copy, PartialEq, Eq)]
pub enum ShaderStage {
    Vertex,
    Fragment,
}

impl ShaderStage {
    /// The enumerant that tells the driver which kind of shader to create.
    pub open spec fn spec_kind(self) -> u32 {
        match self {
            ShaderStage::Vertex => VERTEX_SHADER,
            ShaderStage::Fragment => FRAGMENT_SHADER,
        }
    }

    /// The GLSL text of the stage.
    pub open spec fn spec_source(self) -> Seq<char> {
        match self {
            ShaderStage::Vertex => VERTEX_SHADER_SOURCE@,
            ShaderStage::Fragment => FRAGMENT_SHADER_SOURCE@,
        }
    }

    /// The enumerant that tells the driver which kind of shader to create.
    #[verifier::when_used_as_spec(spec_kind)]
    pub fn kind(self) -> (kind: u32)
        ensures
            kind == self.spec_kind(),
    {
        match self {
            ShaderStage::Vertex => VERTEX_SHADER,
            ShaderStage::Fragment => FRAGMENT_SHADER,
        }
    }

    /// The GLSL text of the stage.
    pub fn source(self) -> (source: &'static str)
        ensures
            source@ == self.spec_source(),
    {
        match self {
            ShaderStage::Vertex => VERTEX_SHADER_SOURCE,
            ShaderStage::Fragment => FRAGMENT_SHADER_SOURCE,
        }
    }
}

/// Why the driver could not build the shader program.
#[derive(Debug, Clone, PartialEq, Eq)]
pub enum ShaderError {
    /// A shader did not compile.  Holds the driver's log.
    CompilationError(String),
    /// The program did not link.  Holds the driver's log.
    LinkingError(String),
    /// A text handed to the driver holds a NUL character, at this byte.
    NulError(usize),
}

/// No source holds a NUL character.
pub proof fn lemma_sources_are_nul_free(stage: ShaderStage)
    ensures
        nul_free(stage.spec_source()),
{
    reveal_strlit(
        r#"
#version 330
uniform mat4 transform;
uniform mat4 y_transform;

in vec3 position;
in vec3 color;
out vec3 vertexColor;

void main() {
    gl_Position = (transform + y_transform) * vec4(position, 1.0);
    vertexColor = color;
}
"#,
    );
    reveal_strlit(
        r#"
#version 330
in vec3 vertexColor;
out vec4 fragColor;

void main() {
    fragColor = vec4(vertexColor, 1.0);
}
"#,
    );
}

/// The vertex shader declares every attribute that is looked up as an
/// input of three components, and every uniform that is looked up as a
/// matrix of four rows and columns, under the names by which they are
/// looked up.
pub proof fn lemma_vertex_shader_declares(attribute: Attribute, uniform: Uniform)
    ensures
        occurs_in("in vec3 "@ + attribute.spec_name() + ";"@, VERTEX_SHADER_SOURCE@),
        occurs_in("uniform mat4 "@ + uniform.spec_name() + ";"@, VERTEX_SHADER_SOURCE@),
{
    reveal_strlit(
        r#"
#version 330
uniform mat4 transform;
uniform mat4 y_transform;

in vec3 position;
in vec3 color;
out vec3 vertexColor;

void main() {
    gl_Position = (transform + y_transform) * vec4(position, 1.0);
    vertexColor = color;
}
"#,
    );
    reveal_strlit("in vec3 ");
    reveal_strlit("uniform mat4 ");
    reveal_strlit(";");
    reveal_strlit("position");
    reveal_strlit("color");
    reveal_strlit("transform");
    reveal_strlit("y_transform");
    let source = VERTEX_SHADER_SOURCE@;

    let input = "in vec3 "@ + attribute.spec_name() + ";"@;
    let at = match attribute {
        Attribute::Position => 65int,
        Attribute::Color => 83int,
    };
    assert(source.subrange(at, at + input.len()) =~= input);
    assert(occurs_at(input, source, at));

    let matrix = "uniform mat4 "@ + uniform.spec_name() + ";"@;
    let at = match uniform {
        Uniform::Transform => 14int,
        Uniform::YTransform => 38int,
    };
    assert(source.subrange(at, at + matrix.len()) =~= matrix);
    assert(occurs_at(matrix, source, at));
}

} // verus!
