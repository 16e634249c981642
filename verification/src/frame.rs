//! Drawing a frame, one phase at a time.
//!
//! A frame is a fixed row of phases.  In each the driver performs the
//! phase's command and then queries the error flag of the graphics context;
//! [`Renderer::draw`] reports the code and says how the frame goes on.

use vstd::prelude::*;
use crate::uniform::Uniform;

verus! {

/// A phase of a frame, named by the command that is due in it.
#[derive(Debug, Clone, Copy, PartialEq, Eq)]
pub enum FramePhase {
    ClearColor,
    Clear,
    UseProgram,
    LocateUniforms,
    UploadUniforms,
    BindVertexArray,
    DrawElements,
}

/// A command to the graphics context during a frame.
#[derive(Debug, Clone, Copy, PartialEq, Eq)]
pub enum DrawCommand {
    /// Set the colour to clear with.  Each component is the bit pattern of
    /// an IEEE 754 single-precision number.
    ClearColor { red: u32, green: u32, blue: u32, alpha: u32 },
    /// Clear the buffers that `mask` selects.
    Clear { mask: u32 },
    /// Read the time that has passed since the renderer was made, print it,
    /// and from then on use `program` for drawing.
    UseProgram { program: u32 },
    /// Look up the two uniforms in `program`, each by its name closed with
    /// a NUL character.
    LocateUniforms { program: u32, first: Uniform, second: Uniform },
    /// Set each of the two uniforms, at the location found for it, to the
    /// rotation about its axis by the time read: `count` matrices each,
    /// transposed if `transpose`.
    UploadUniforms { first: Uniform, second: Uniform, count: i32, transpose: bool },
    /// Make `vertex_array` the current vertex array object.
    BindVertexArray { vertex_array: u32 },
    /// Draw `count` indices, from the start of the bound index buffer, as
    /// primitives of `mode`; the indices are of `index_type`.
    DrawElements { mode: u32, count: i32, index_type: u32 },
}

/// How a frame goes on after a phase.
#[derive(Debug, Clone, Copy, PartialEq, Eq)]
pub enum FrameNext {
    /// Perform `command`, which is that of `phase`.
    Continue { phase: FramePhase, command: DrawCommand },
    /// The frame is drawn.
    Finished,
    /// End the program with `status`.
    Exit { status: i32 },
}

/// What follows from the error code read after a phase.
#[derive(Debug, Clone, PartialEq, Eq)]
pub struct FrameStep {
    /// The line to print, without a line break.
    pub line: String,
    /// How the frame goes on.
    pub next: FrameNext,
}

/// The phases in the order in which a frame goes through them.
pub open spec fn phases() -> Seq<FramePhase> {
    seq![
        FramePhase::ClearColor,
        FramePhase::Clear,
        FramePhase::UseProgram,
        FramePhase::LocateUniforms,
        FramePhase::UploadUniforms,
        FramePhase::BindVertexArray,
        FramePhase::DrawElements,
    ]
}

impl FramePhase {
    /// The name under which the error code read after the phase is
    /// reported.
    pub open spec fn spec_label(self) -> Seq<char> {
        match self {
            FramePhase::ClearColor => "na clear color"@,
            FramePhase::Clear => "na clear"@,
            FramePhase::UseProgram => "na transform name"@,
            FramePhase::LocateUniforms => "na get uniform location"@,
            FramePhase::UploadUniforms => "na uniform matrix"@,
            FramePhase::BindVertexArray => "na vertex bind"@,
            FramePhase::DrawElements => "na draw elements"@,
        }
    }

    /// How many phases come before this one.
    pub open spec fn position(self) -> int {
        match self {
            FramePhase::ClearColor => 0,
            FramePhase::Clear => 1,
            FramePhase::UseProgram => 2,
            FramePhase::LocateUniforms => 3,
            FramePhase::UploadUniforms => 4,
            FramePhase::BindVertexArray => 5,
            FramePhase::DrawElements => 6,
        }
    }

    /// The phase that follows, if any.
    pub open spec fn spec_successor(self) -> Option<FramePhase> {
        if self.position() + 1 < phases().len() {
            Some(phases()[self.position() + 1])
        } else {
            None
        }
    }

    /// The phase with which every frame starts.
    pub fn first() -> (phase: FramePhase)
        ensures
            phase == phases()[0],
    {
        FramePhase::ClearColor
    }

    /// The name under which the error code read after the phase is
    /// reported.
    pub fn label(self) -> (label: &'static str)
        ensures
            label@ == self.spec_label(),
    {
        match self {
            FramePhase::ClearColor => "na clear color",
            FramePhase::Clear => "na clear",
            FramePhase::UseProgram => "na transform name",
            FramePhase::LocateUniforms => "na get uniform location",
            FramePhase::UploadUniforms => "na uniform matrix",
            FramePhase::BindVertexArray => "na vertex bind",
            FramePhase::DrawElements => "na draw elements",
        }
    }

    /// The phase that follows, if any.
    #[verifier::when_used_as_spec(spec_successor)]
    pub fn successor(self) -> (next: Option<FramePhase>)
        ensures
            next == self.spec_successor(),
    {
        match self {
            FramePhase::ClearColor => Some(FramePhase::Clear),
            FramePhase::Clear => Some(FramePhase::UseProgram),
            FramePhase::UseProgram => Some(FramePhase::LocateUniforms),
            FramePhase::LocateUniforms => Some(FramePhase::UploadUniforms),
            FramePhase::UploadUniforms => Some(FramePhase::BindVertexArray),
            FramePhase::BindVertexArray => Some(FramePhase::DrawElements),
            FramePhase::DrawElements => None,
        }
    }
}

/// Every phase stands in the row of phases, at its position and nowhere
/// else.
pub proof fn lemma_phases_in_order(phase: FramePhase)
    ensures
        0 <= phase.position() < phases().len(),
        phases()[phase.position()] == phase,
        forall|i: int| 0 <= i < phases().len() ==> (#[trigger] phases()[i]).position() == i,
{
}

} // verus!
