//! Setting a renderer up, one graphics command at a time.
//!
//! A [`Setup`] says where the work stands and which handles the graphics
//! context has given out so far.  The driver performs the command of the
//! current stage and hands the outcome to [`Renderer::new`], which gives the
//! next `Setup`, or the finished renderer, or the error.

use vstd::prelude::*;
use crate::constants::{ARRAY_BUFFER, ELEMENT_ARRAY_BUFFER, STATIC_DRAW};
use crate::mesh::{Attribute, MeshBuffer, VERTEX_STRIDE};
use crate::renderer::Renderer;
use crate::shader::ShaderStage;

verus! {

/// A stage of the setup, named by the command that is due in it.
#[derive(Debug, Clone, Copy, PartialEq, Eq)]
pub enum SetupStage {
    CompileVertexShader,
    CompileFragmentShader,
    LinkProgram,
    CreateVertexArray,
    BindVertexArray,
    CreateVertexBuffer,
    FillVertexBuffer,
    CreateIndexBuffer,
    FillIndexBuffer,
    LocatePosition,
    EnablePosition,
    LocateColor,
    EnableColor,
}

/// A command to the graphics context during setup.
#[derive(Debug, Clone, Copy, PartialEq, Eq)]
pub enum SetupCommand {
    /// Compile the shader of `stage`, from its source and of its kind.
    /// Gives the shader's handle, or fails.
    CompileShader { stage: ShaderStage },
    /// Link the two shaders into a program.  Gives the program's handle, or
    /// fails.
    LinkProgram { vertex_shader: u32, fragment_shader: u32 },
    /// Create a vertex array object.  Gives its handle.
    CreateVertexArray,
    /// Make `vertex_array` the current vertex array object.
    BindVertexArray { vertex_array: u32 },
    /// Create a buffer object that is to hold `contents`, for the binding
    /// point `target`.  Gives its handle.
    CreateBuffer { target: u32, contents: MeshBuffer },
    /// Bind `buffer` to `target` and fill it with the words of `contents`,
    /// which take `size` bytes, with the usage hint `usage`.
    BufferData { buffer: u32, target: u32, size: isize, contents: MeshBuffer, usage: u32 },
    /// Look up the vertex shader input called `attribute.name()` in
    /// `program`.  Gives its location, or fails.
    GetAttribLocation { program: u32, attribute: Attribute },
    /// Feed the input at `location` from the vertex buffer: `components`
    /// numbers per vertex, the first at byte `offset` of each vertex, the
    /// vertices `stride` bytes apart.
    SetAttribute { vertex_array: u32, location: u32, components: i32, offset: i32, stride: i32 },
}

/// Where the setup stands.
#[derive(Debug, Clone, Copy, PartialEq, Eq)]
pub struct Setup {
    /// The stage whose command is due.
    pub stage: SetupStage,
    /// The handle of the vertex shader, once compiled.
    pub vertex_shader: u32,
    /// The handle of the fragment shader, once compiled.
    pub fragment_shader: u32,
    /// The handle of the program, once linked.
    pub program: u32,
    /// The handle of the vertex array object, once created.
    pub vertex_array: u32,
    /// The handle of the vertex buffer, once created.
    pub vertex_buffer: u32,
    /// The handle of the index buffer, once created.
    pub index_buffer: u32,
    /// The location of the attribute that was looked up last.
    pub location: u32,
}

/// How far a successful step has brought the setup.
#[derive(Debug, Clone, Copy, PartialEq, Eq)]
pub enum Progress {
    /// More commands are due.
    Pending(Setup),
    /// The renderer is ready to draw.
    Ready(Renderer),
}

/// The stages in the order in which a setup goes through them.
pub open spec fn stages() -> Seq<SetupStage> {
    seq![
        SetupStage::CompileVertexShader,
        SetupStage::CompileFragmentShader,
        SetupStage::LinkProgram,
        SetupStage::CreateVertexArray,
        SetupStage::BindVertexArray,
        SetupStage::CreateVertexBuffer,
        SetupStage::FillVertexBuffer,
        SetupStage::CreateIndexBuffer,
        SetupStage::FillIndexBuffer,
        SetupStage::LocatePosition,
        SetupStage::EnablePosition,
        SetupStage::LocateColor,
        SetupStage::EnableColor,
    ]
}

impl SetupStage {
    /// How many stages come before this one.
    pub open spec fn position(self) -> int {
        match self {
            SetupStage::CompileVertexShader => 0,
            SetupStage::CompileFragmentShader => 1,
            SetupStage::LinkProgram => 2,
            SetupStage::CreateVertexArray => 3,
            SetupStage::BindVertexArray => 4,
            SetupStage::CreateVertexBuffer => 5,
            SetupStage::FillVertexBuffer => 6,
            SetupStage::CreateIndexBuffer => 7,
            SetupStage::FillIndexBuffer => 8,
            SetupStage::LocatePosition => 9,
            SetupStage::EnablePosition => 10,
            SetupStage::LocateColor => 11,
            SetupStage::EnableColor => 12,
        }
    }

    /// The stage that follows, if any.
    pub open spec fn spec_successor(self) -> Option<SetupStage> {
        if self.position() + 1 < stages().len() {
            Some(stages()[self.position() + 1])
        } else {
            None
        }
    }

    /// The stage that follows, if any.
    #[verifier::when_used_as_spec(spec_successor)]
    pub fn successor(self) -> (next: Option<SetupStage>)
        ensures
            next == self.spec_successor(),
    {
        match self {
            SetupStage::CompileVertexShader => Some(SetupStage::CompileFragmentShader),
            SetupStage::CompileFragmentShader => Some(SetupStage::LinkProgram),
            SetupStage::LinkProgram => Some(SetupStage::CreateVertexArray),
            SetupStage::CreateVertexArray => Some(SetupStage::BindVertexArray),
            SetupStage::BindVertexArray => Some(SetupStage::CreateVertexBuffer),
            SetupStage::CreateVertexBuffer => Some(SetupStage::FillVertexBuffer),
            SetupStage::FillVertexBuffer => Some(SetupStage::CreateIndexBuffer),
            SetupStage::CreateIndexBuffer => Some(SetupStage::FillIndexBuffer),
            SetupStage::FillIndexBuffer => Some(SetupStage::LocatePosition),
            SetupStage::LocatePosition => Some(SetupStage::EnablePosition),
            SetupStage::EnablePosition => Some(SetupStage::LocateColor),
            SetupStage::LocateColor => Some(SetupStage::EnableColor),
            SetupStage::EnableColor => None,
        }
    }
}

impl Setup {
    /// The setup before any command: the first stage, no handle yet.
    pub open spec fn initial() -> Setup {
        Setup {
            stage: SetupStage::CompileVertexShader,
            vertex_shader: 0,
            fragment_shader: 0,
            program: 0,
            vertex_array: 0,
            vertex_buffer: 0,
            index_buffer: 0,
            location: 0,
        }
    }

    /// The commands of a setup, in the order of its stages, with the
    /// handles and the location that are noted in `self`.
    pub open spec fn script(self) -> Seq<SetupCommand> {
        seq![
            SetupCommand::CompileShader { stage: ShaderStage::Vertex },
            SetupCommand::CompileShader { stage: ShaderStage::Fragment },
            SetupCommand::LinkProgram {
                vertex_shader: self.vertex_shader,
                fragment_shader: self.fragment_shader,
            },
            SetupCommand::CreateVertexArray,
            SetupCommand::BindVertexArray { vertex_array: self.vertex_array },
            SetupCommand::CreateBuffer {
                target: MeshBuffer::Vertices.spec_target(),
                contents: MeshBuffer::Vertices,
            },
            SetupCommand::BufferData {
                buffer: self.vertex_buffer,
                target: MeshBuffer::Vertices.spec_target(),
                size: MeshBuffer::Vertices.spec_size(),
                contents: MeshBuffer::Vertices,
                usage: STATIC_DRAW,
            },
            SetupCommand::CreateBuffer {
                target: MeshBuffer::Indices.spec_target(),
                contents: MeshBuffer::Indices,
            },
            SetupCommand::BufferData {
                buffer: self.index_buffer,
                target: MeshBuffer::Indices.spec_target(),
                size: MeshBuffer::Indices.spec_size(),
                contents: MeshBuffer::Indices,
                usage: STATIC_DRAW,
            },
            SetupCommand::GetAttribLocation { program: self.program, attribute: Attribute::Position },
            SetupCommand::SetAttribute {
                vertex_array: self.vertex_array,
                location: self.location,
                components: Attribute::Position.spec_components(),
                offset: Attribute::Position.spec_offset(),
                stride: VERTEX_STRIDE,
            },
            SetupCommand::GetAttribLocation { program: self.program, attribute: Attribute::Color },
            SetupCommand::SetAttribute {
                vertex_array: self.vertex_array,
                location: self.location,
                components: Attribute::Color.spec_components(),
                offset: Attribute::Color.spec_offset(),
                stride: VERTEX_STRIDE,
            },
        ]
    }

    /// The command that is due: the one that the script holds for the
    /// stage.
    pub open spec fn spec_command(&self) -> SetupCommand {
        self.script()[self.stage.position()]
    }

    /// The setup with `value` noted as what the command that is due gave.
    /// A command that creates or looks up something gives a handle or a
    /// location; what the others give is dropped.
    pub open spec fn record(self, value: u32) -> Setup {
        match self.stage {
            SetupStage::CompileVertexShader => Setup { vertex_shader: value, ..self },
            SetupStage::CompileFragmentShader => Setup { fragment_shader: value, ..self },
            SetupStage::LinkProgram => Setup { program: value, ..self },
            SetupStage::CreateVertexArray => Setup { vertex_array: value, ..self },
            SetupStage::CreateVertexBuffer => Setup { vertex_buffer: value, ..self },
            SetupStage::CreateIndexBuffer => Setup { index_buffer: value, ..self },
            SetupStage::LocatePosition => Setup { location: value, ..self },
            SetupStage::LocateColor => Setup { location: value, ..self },
            SetupStage::BindVertexArray => self,
            SetupStage::FillVertexBuffer => self,
            SetupStage::FillIndexBuffer => self,
            SetupStage::EnablePosition => self,
            SetupStage::EnableColor => self,
        }
    }

    /// The renderer that owns the objects created so far.
    pub open spec fn renderer(self) -> Renderer {
        Renderer {
            program: self.program,
            vertex_buffer: self.vertex_buffer,
            index_buffer: self.index_buffer,
            vertex_array: self.vertex_array,
        }
    }

    /// Where the setup stands once the command that is due has succeeded
    /// and given `value`.
    pub open spec fn spec_advance(self, value: u32) -> Progress {
        match self.stage.spec_successor() {
            Some(stage) => Progress::Pending(Setup { stage, ..self.record(value) }),
            None => Progress::Ready(self.record(value).renderer()),
        }
    }

    /// The setup before any command.
    pub fn begin() -> (setup: Setup)
        ensures
            setup == Setup::initial(),
    {
        Setup {
            stage: SetupStage::CompileVertexShader,
            vertex_shader: 0,
            fragment_shader: 0,
            program: 0,
            vertex_array: 0,
            vertex_buffer: 0,
            index_buffer: 0,
            location: 0,
        }
    }

    /// The command that is due.
    #[verifier::when_used_as_spec(spec_command)]
    pub fn command(&self) -> (command: SetupCommand)
        ensures
            command == self.spec_command(),
    {
        match self.stage {
            SetupStage::CompileVertexShader => SetupCommand::CompileShader {
                stage: ShaderStage::Vertex,
            },
            SetupStage::CompileFragmentShader => SetupCommand::CompileShader {
                stage: ShaderStage::Fragment,
            },
            SetupStage::LinkProgram => SetupCommand::LinkProgram {
                vertex_shader: self.vertex_shader,
                fragment_shader: self.fragment_shader,
            },
            SetupStage::CreateVertexArray => SetupCommand::CreateVertexArray,
            SetupStage::BindVertexArray => SetupCommand::BindVertexArray {
                vertex_array: self.vertex_array,
            },
            SetupStage::CreateVertexBuffer => SetupCommand::CreateBuffer {
                target: MeshBuffer::Vertices.target(),
                contents: MeshBuffer::Vertices,
            },
            SetupStage::FillVertexBuffer => SetupCommand::BufferData {
                buffer: self.vertex_buffer,
                target: MeshBuffer::Vertices.target(),
                size: MeshBuffer::Vertices.size(),
                contents: MeshBuffer::Vertices,
                usage: STATIC_DRAW,
            },
            SetupStage::CreateIndexBuffer => SetupCommand::CreateBuffer {
                target: MeshBuffer::Indices.target(),
                contents: MeshBuffer::Indices,
            },
            SetupStage::FillIndexBuffer => SetupCommand::BufferData {
                buffer: self.index_buffer,
                target: MeshBuffer::Indices.target(),
                size: MeshBuffer::Indices.size(),
                contents: MeshBuffer::Indices,
                usage: STATIC_DRAW,
            },
            SetupStage::LocatePosition => SetupCommand::GetAttribLocation {
                program: self.program,
                attribute: Attribute::Position,
            },
            SetupStage::EnablePosition => SetupCommand::SetAttribute {
                vertex_array: self.vertex_array,
                location: self.location,
                components: Attribute::Position.components(),
                offset: Attribute::Position.offset(),
                stride: VERTEX_STRIDE,
            },
            SetupStage::LocateColor => SetupCommand::GetAttribLocation {
                program: self.program,
                attribute: Attribute::Color,
            },
            SetupStage::EnableColor => SetupCommand::SetAttribute {
                vertex_array: self.vertex_array,
                location: self.location,
                components: Attribute::Color.components(),
                offset: Attribute::Color.offset(),
                stride: VERTEX_STRIDE,
            },
        }
    }

    /// Notes `value` as what the command that is due gave, and moves on to
    /// the next stage, or to the finished renderer after the last.
    #[verifier::when_used_as_spec(spec_advance)]
    pub fn advance(self, value: u32) -> (progress: Progress)
        ensures
            progress == self.spec_advance(value),
    {
        let mut recorded = self;
        match self.stage {
            SetupStage::CompileVertexShader => {
                recorded.vertex_shader = value;
            },
            SetupStage::CompileFragmentShader => {
                recorded.fragment_shader = value;
            },
            SetupStage::LinkProgram => {
                recorded.program = value;
            },
            SetupStage::CreateVertexArray => {
                recorded.vertex_array = value;
            },
            SetupStage::CreateVertexBuffer => {
                recorded.vertex_buffer = value;
            },
            SetupStage::CreateIndexBuffer => {
                recorded.index_buffer = value;
            },
            SetupStage::LocatePosition | SetupStage::LocateColor => {
                recorded.location = value;
            },
            _ => {},
        }
        match self.stage.successor() {
            Some(stage) => {
                recorded.stage = stage;
                Progress::Pending(recorded)
            },
            None => Progress::Ready(
                Renderer {
                    program: recorded.program,
                    vertex_buffer: recorded.vertex_buffer,
                    index_buffer: recorded.index_buffer,
                    vertex_array: recorded.vertex_array,
                },
            ),
        }
    }
}

/// Where a setup that starts in `setup` stands after as many commands as
/// `values` has items, each of which succeeded and gave its item.  Once the
/// renderer is ready, further values change nothing.
pub open spec fn run(setup: Setup, values: Seq<u32>) -> Progress
    decreases values.len(),
{
    if values.len() == 0 {
        Progress::Pending(setup)
    } else {
        match run(setup, values.drop_last()) {
            Progress::Pending(before) => before.spec_advance(values.last()),
            Progress::Ready(renderer) => Progress::Ready(renderer),
        }
    }
}

/// The setup in which the first `steps` stages are done and have given
/// `values[0]` to `values[steps - 1]`.
pub open spec fn after(values: Seq<u32>, steps: int) -> Setup {
    Setup {
        stage: stages()[steps],
        vertex_shader: if steps > 0 { values[0] } else { 0 },
        fragment_shader: if steps > 1 { values[1] } else { 0 },
        program: if steps > 2 { values[2] } else { 0 },
        vertex_array: if steps > 3 { values[3] } else { 0 },
        vertex_buffer: if steps > 5 { values[5] } else { 0 },
        index_buffer: if steps > 7 { values[7] } else { 0 },
        location: if steps > 11 { values[11] } else if steps > 9 { values[9] } else { 0 },
    }
}

/// Every stage stands in the row of stages, at its position and nowhere
/// else.
pub proof fn lemma_stages_in_order(stage: SetupStage)
    ensures
        0 <= stage.position() < stages().len(),
        stages()[stage.position()] == stage,
        forall|i: int| 0 <= i < stages().len() ==> (#[trigger] stages()[i]).position() == i,
{
}

/// A setup whose commands all succeed goes through the stages in order,
/// one command each, and keeps the handles it was given.
pub proof fn lemma_run_reaches_stage(values: Seq<u32>, steps: int)
    requires
        values.len() == stages().len(),
        0 <= steps < stages().len(),
    ensures
        run(Setup::initial(), values.take(steps)) == Progress::Pending(after(values, steps)),
    decreases steps,
{
    if steps > 0 {
        lemma_run_reaches_stage(values, steps - 1);
        assert(values.take(steps).drop_last() =~= values.take(steps - 1));
        assert(values.take(steps).last() == values[steps - 1]);
    }
}

/// A setup whose commands all succeed ends, after the last stage, with the
/// renderer of the program, the vertex array and the two buffers that the
/// graphics context gave.
pub proof fn lemma_run_makes_renderer(values: Seq<u32>)
    requires
        values.len() == stages().len(),
    ensures
        run(Setup::initial(), values) == Progress::Ready(
            Renderer {
                program: values[2],
                vertex_buffer: values[5],
                index_buffer: values[7],
                vertex_array: values[3],
            },
        ),
{
    lemma_run_reaches_stage(values, 12);
    assert(values.drop_last() =~= values.take(12));
}

/// The commands of a setup in which all succeed, in order.  The program is
/// linked from the two shaders compiled before; each buffer is filled under
/// the handle it was created with; each attribute is looked up in the
/// linked program and enabled, at the location found for it, in the vertex
/// array that was created.
pub proof fn lemma_run_commands(values: Seq<u32>)
    requires
        values.len() == stages().len(),
    ensures
        after(values, 0).spec_command() == (SetupCommand::CompileShader {
            stage: ShaderStage::Vertex,
        }),
        after(values, 1).spec_command() == (SetupCommand::CompileShader {
            stage: ShaderStage::Fragment,
        }),
        after(values, 2).spec_command() == (SetupCommand::LinkProgram {
            vertex_shader: values[0],
            fragment_shader: values[1],
        }),
        after(values, 3).spec_command() == SetupCommand::CreateVertexArray,
        after(values, 4).spec_command() == (SetupCommand::BindVertexArray {
            vertex_array: values[3],
        }),
        after(values, 5).spec_command() == (SetupCommand::CreateBuffer {
            target: ARRAY_BUFFER,
            contents: MeshBuffer::Vertices,
        }),
        after(values, 6).spec_command() == (SetupCommand::BufferData {
            buffer: values[5],
            target: ARRAY_BUFFER,
            size: 96,
            contents: MeshBuffer::Vertices,
            usage: STATIC_DRAW,
        }),
        after(values, 7).spec_command() == (SetupCommand::CreateBuffer {
            target: ELEMENT_ARRAY_BUFFER,
            contents: MeshBuffer::Indices,
        }),
        after(values, 8).spec_command() == (SetupCommand::BufferData {
            buffer: values[7],
            target: ELEMENT_ARRAY_BUFFER,
            size: 48,
            contents: MeshBuffer::Indices,
            usage: STATIC_DRAW,
        }),
        after(values, 9).spec_command() == (SetupCommand::GetAttribLocation {
            program: values[2],
            attribute: Attribute::Position,
        }),
        after(values, 10).spec_command() == (SetupCommand::SetAttribute {
            vertex_array: values[3],
            location: values[9],
            components: 3,
            offset: 0,
            stride: 24,
        }),
        after(values, 11).spec_command() == (SetupCommand::GetAttribLocation {
            program: values[2],
            attribute: Attribute::Color,
        }),
        after(values, 12).spec_command() == (SetupCommand::SetAttribute {
            vertex_array: values[3],
            location: values[11],
            components: 3,
            offset: 12,
            stride: 24,
        }),
{
}

} // verus!
