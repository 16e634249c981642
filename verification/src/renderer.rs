//! The renderer: the handles of its graphics objects, and the two step
//! functions that set it up and draw with it.

use vstd::prelude::*;
use crate::constants::{COLOR_BUFFER_BIT, NO_ERROR, TRIANGLES, UNSIGNED_INT};
use crate::error::RendererInitError;
use crate::frame::{phases, DrawCommand, FrameNext, FramePhase, FrameStep};
use crate::mesh::{DRAWN_INDICES, HALF, ONE};
use crate::setup::{Progress, Setup};
use crate::shader::ShaderError;
use crate::status::{get_error, report_line, FAILURE_STATUS};
use crate::uniform::Uniform;

verus! {

/// A renderer that is ready to draw.
#[derive(Debug, Clone, Copy, PartialEq, Eq)]
pub struct Renderer {
    /// The handle of the shader program.
    pub program: u32,
    /// The handle of the vertex buffer.
    pub vertex_buffer: u32,
    /// The handle of the index buffer.
    pub index_buffer: u32,
    /// The handle of the vertex array object.
    pub vertex_array: u32,
}

impl Renderer {
    /// The commands of a frame, in the order of its phases.
    pub open spec fn script(self) -> Seq<DrawCommand> {
        seq![
            DrawCommand::ClearColor { red: HALF, green: HALF, blue: HALF, alpha: ONE },
            DrawCommand::Clear { mask: COLOR_BUFFER_BIT },
            DrawCommand::UseProgram { program: self.program },
            DrawCommand::LocateUniforms {
                program: self.program,
                first: Uniform::Transform,
                second: Uniform::YTransform,
            },
            DrawCommand::UploadUniforms {
                first: Uniform::Transform,
                second: Uniform::YTransform,
                count: 1,
                transpose: false,
            },
            DrawCommand::BindVertexArray { vertex_array: self.vertex_array },
            DrawCommand::DrawElements {
                mode: TRIANGLES,
                count: DRAWN_INDICES,
                index_type: UNSIGNED_INT,
            },
        ]
    }

    /// The command of `phase`.
    pub open spec fn spec_command(&self, phase: FramePhase) -> DrawCommand {
        self.script()[phase.position()]
    }

    /// How the frame goes on after `phase`, when the error code read after
    /// it is `error`: any error ends the program, and without one the next
    /// phase is due, or the frame is drawn.
    pub open spec fn spec_next(self, phase: FramePhase, error: u32) -> FrameNext {
        if error != NO_ERROR {
            FrameNext::Exit { status: FAILURE_STATUS }
        } else {
            match phase.spec_successor() {
                Some(next) => FrameNext::Continue { phase: next, command: self.spec_command(next) },
                None => FrameNext::Finished,
            }
        }
    }

    /// Takes the setup one step further.  `outcome` is what the command that
    /// was due in `setup` led to: the value it gave, or why it failed.
    ///
    /// A failure ends the setup with that error.  A value is noted, and the
    /// setup moves on to its next stage; after the last stage the renderer
    /// is ready.
    pub fn new(setup: Setup, outcome: Result<u32, ShaderError>) -> (result: Result<
        Progress,
        RendererInitError,
    >)
        ensures
            result == match outcome {
                Ok(value) => Ok::<Progress, RendererInitError>(setup.spec_advance(value)),
                Err(error) => Err(RendererInitError::ShaderError(error)),
            },
    {
        match outcome {
            Ok(value) => Ok(setup.advance(value)),
            Err(error) => Err(RendererInitError::from(error)),
        }
    }

    /// The command of `phase`.
    #[verifier::when_used_as_spec(spec_command)]
    pub fn command(&self, phase: FramePhase) -> (command: DrawCommand)
        ensures
            command == self.spec_command(phase),
    {
        match phase {
            FramePhase::ClearColor => DrawCommand::ClearColor {
                red: HALF,
                green: HALF,
                blue: HALF,
                alpha: ONE,
            },
            FramePhase::Clear => DrawCommand::Clear { mask: COLOR_BUFFER_BIT },
            FramePhase::UseProgram => DrawCommand::UseProgram { program: self.program },
            FramePhase::LocateUniforms => DrawCommand::LocateUniforms {
                program: self.program,
                first: Uniform::Transform,
                second: Uniform::YTransform,
            },
            FramePhase::UploadUniforms => DrawCommand::UploadUniforms {
                first: Uniform::Transform,
                second: Uniform::YTransform,
                count: 1,
                transpose: false,
            },
            FramePhase::BindVertexArray => DrawCommand::BindVertexArray {
                vertex_array: self.vertex_array,
            },
            FramePhase::DrawElements => DrawCommand::DrawElements {
                mode: TRIANGLES,
                count: DRAWN_INDICES,
                index_type: UNSIGNED_INT,
            },
        }
    }

    /// Takes the frame one step further.  `error` is the code read from the
    /// graphics context after the command of `phase` was performed.
    ///
    /// The code is reported under the label of the phase.  Any error ends
    /// the program; without one the next phase is due, or the frame is
    /// drawn.
    pub fn draw(&self, phase: FramePhase, error: u32) -> (step: FrameStep)
        ensures
            step.line@ == report_line(phase.spec_label(), error),
            step.next == self.spec_next(phase, error),
    {
        let report = get_error(phase.label(), error);
        let next = if report.fatal {
            FrameNext::Exit { status: FAILURE_STATUS }
        } else {
            match phase.successor() {
                Some(next) => FrameNext::Continue { phase: next, command: self.command(next) },
                None => FrameNext::Finished,
            }
        };
        FrameStep { line: report.line, next }
    }
}

/// A frame in which no error is read goes through the phases in order and
/// is drawn after the last.
pub proof fn lemma_frame_without_errors(renderer: Renderer)
    ensures
        forall|k: int|
            0 <= k < phases().len() - 1 ==> #[trigger] renderer.spec_next(phases()[k], NO_ERROR)
                == (FrameNext::Continue {
                phase: phases()[k + 1],
                command: renderer.spec_command(phases()[k + 1]),
            }),
        renderer.spec_next(phases()[phases().len() - 1], NO_ERROR) == FrameNext::Finished,
{
}

/// An error read after any phase ends the program, whatever the phase and
/// whatever the error.
pub proof fn lemma_error_ends_program(renderer: Renderer, phase: FramePhase, error: u32)
    requires
        error != NO_ERROR,
    ensures
        renderer.spec_next(phase, error) == (FrameNext::Exit { status: 1 }),
{
}

} // verus!
