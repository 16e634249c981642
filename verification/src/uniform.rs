//! The two uniforms of the vertex shader, each a rotation matrix.

use vstd::prelude::*;
use crate::text::nul_free;

verus! {

/// A coordinate axis to rotate about.
#[derive(Debug, Clone, Copy, PartialEq, Eq)]
pub enum Axis {
    Y,
    Z,
}

/// A uniform of the vertex shader.
#[derive(Debug, Clone, Copy, PartialEq, Eq)]
pub enum Uniform {
    Transform,
    YTransform,
}

impl Uniform {
    /// The name of the uniform in the vertex shader.
    pub open spec fn spec_name(self) -> Seq<char> {
        match self {
            Uniform::Transform => "transform"@,
            Uniform::YTransform => "y_transform"@,
        }
    }

    /// The axis about which the uniform's matrix rotates, by the time that
    /// has passed since the renderer was made.
    pub open spec fn spec_axis(self) -> Axis {
        match self {
            Uniform::Transform => Axis::Z,
            Uniform::YTransform => Axis::Y,
        }
    }

    /// The name of the uniform in the vertex shader.
    pub fn name(self) -> (name: &'static str)
        ensures
            name@ == self.spec_name(),
    {
        match self {
            Uniform::Transform => "transform",
            Uniform::YTransform => "y_transform",
        }
    }

    /// The axis about which the uniform's matrix rotates, by the time that
    /// has passed since the renderer was made.
    #[verifier::when_used_as_spec(spec_axis)]
    pub fn axis(self) -> (axis: Axis)
        ensures
            axis == self.spec_axis(),
    {
        match self {
            Uniform::Transform => Axis::Z,
            Uniform::YTransform => Axis::Y,
        }
    }
}

/// No uniform's name holds a NUL character, and the two names differ.
pub proof fn lemma_uniform_names(uniform: Uniform)
    ensures
        nul_free(uniform.spec_name()),
        Uniform::Transform.spec_name() != Uniform::YTransform.spec_name(),
{
    reveal_strlit("transform");
    reveal_strlit("y_transform");
    assert("transform"@.len() != "y_transform"@.len());
}

} // verus!
