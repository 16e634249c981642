use renderer::mesh::{Attribute, MeshBuffer};
use renderer::{
    Progress, Renderer, RendererInitError, Setup, SetupCommand, SetupStage, ShaderError,
    ShaderStage,
};

fn pending(result: Result<Progress, RendererInitError>) -> Setup {
    match result {
        Ok(Progress::Pending(setup)) => setup,
        other => panic!("setup should go on, but gave {:?}", other),
    }
}

#[test]
fn setup_begins_with_the_vertex_shader() {
    let setup = Setup::begin();
    assert_eq!(
        setup,
        Setup {
            stage: SetupStage::CompileVertexShader,
            vertex_shader: 0,
            fragment_shader: 0,
            program: 0,
            vertex_array: 0,
            vertex_buffer: 0,
            index_buffer: 0,
            location: 0,
        }
    );
    assert_eq!(setup.command(), SetupCommand::CompileShader { stage: ShaderStage::Vertex });
}

#[test]
fn a_successful_setup_gives_thirteen_commands_and_a_renderer() {
    let values: [u32; 13] = [11, 12, 13, 14, 0, 16, 0, 18, 0, 1, 0, 0, 0];
    let expected = [
        SetupCommand::CompileShader { stage: ShaderStage::Vertex },
        SetupCommand::CompileShader { stage: ShaderStage::Fragment },
        SetupCommand::LinkProgram { vertex_shader: 11, fragment_shader: 12 },
        SetupCommand::CreateVertexArray,
        SetupCommand::BindVertexArray { vertex_array: 14 },
        SetupCommand::CreateBuffer { target: gl::ARRAY_BUFFER, contents: MeshBuffer::Vertices },
        SetupCommand::BufferData {
            buffer: 16,
            target: gl::ARRAY_BUFFER,
            size: 96,
            contents: MeshBuffer::Vertices,
            usage: gl::STATIC_DRAW,
        },
        SetupCommand::CreateBuffer {
            target: gl::ELEMENT_ARRAY_BUFFER,
            contents: MeshBuffer::Indices,
        },
        SetupCommand::BufferData {
            buffer: 18,
            target: gl::ELEMENT_ARRAY_BUFFER,
            size: 48,
            contents: MeshBuffer::Indices,
            usage: gl::STATIC_DRAW,
        },
        SetupCommand::GetAttribLocation { program: 13, attribute: Attribute::Position },
        SetupCommand::SetAttribute {
            vertex_array: 14,
            location: 1,
            components: 3,
            offset: 0,
            stride: 24,
        },
        SetupCommand::GetAttribLocation { program: 13, attribute: Attribute::Color },
        SetupCommand::SetAttribute {
            vertex_array: 14,
            location: 0,
            components: 3,
            offset: 12,
            stride: 24,
        },
    ];
    let mut setup = Setup::begin();
    for step in 0..13 {
        assert_eq!(setup.command(), expected[step]);
        let result = Renderer::new(setup, Ok(values[step]));
        if step < 12 {
            setup = pending(result);
        } else {
            match result {
                Ok(Progress::Ready(renderer)) => assert_eq!(
                    renderer,
                    Renderer { program: 13, vertex_buffer: 16, index_buffer: 18, vertex_array: 14 }
                ),
                other => panic!("the renderer should be ready, but setup gave {:?}", other),
            }
        }
    }
}

#[test]
fn stages_follow_each_other_in_order() {
    let order = [
        SetupStage::CompileVertexShader,
        SetupStage::CompileFragmentShader,
        SetupStage::LinkProgram,
        SetupStage::CreateVertexArray,
        SetupStage::BindVertexArray,
        SetupStage::CreateVertexBuffer,
        SetupStage::FillVertexBuffer,
        SetupStage::CreateIndexBuffer,
        SetupStage::FillIndexBuffer,
        SetupStage::LocatePosition,
        SetupStage::EnablePosition,
        SetupStage::LocateColor,
        SetupStage::EnableColor,
    ];
    for i in 0..12 {
        assert_eq!(order[i].successor(), Some(order[i + 1]));
    }
    assert_eq!(order[12].successor(), None);
}

#[test]
fn a_compile_failure_ends_the_setup() {
    let error = ShaderError::CompilationError(String::from("0:3: syntax error"));
    let result = Renderer::new(Setup::begin(), Err(error.clone()));
    assert!(matches!(result, Err(RendererInitError::ShaderError(e)) if e == error));
}

#[test]
fn a_link_failure_ends_the_setup() {
    let setup = pending(Renderer::new(Setup::begin(), Ok(1)));
    let setup = pending(Renderer::new(setup, Ok(2)));
    assert_eq!(setup.stage, SetupStage::LinkProgram);
    let error = ShaderError::LinkingError(String::from("unresolved symbol"));
    let result = Renderer::new(setup, Err(error.clone()));
    assert!(matches!(result, Err(RendererInitError::ShaderError(e)) if e == error));
}

#[test]
fn a_failed_lookup_ends_the_setup() {
    let mut setup = Setup::begin();
    for value in 1..=9 {
        setup = pending(Renderer::new(setup, Ok(value)));
    }
    assert_eq!(setup.stage, SetupStage::LocatePosition);
    let result = Renderer::new(setup, Err(ShaderError::NulError(3)));
    assert!(matches!(
        result,
        Err(RendererInitError::ShaderError(ShaderError::NulError(3)))
    ));
}

#[test]
fn a_failure_ends_the_setup_at_any_stage() {
    let mut setup = Setup::begin();
    for value in 0..13 {
        let error = ShaderError::LinkingError(format!("stage {}", value));
        let result = Renderer::new(setup, Err(error.clone()));
        assert!(matches!(result, Err(RendererInitError::ShaderError(e)) if e == error));
        if value < 12 {
            setup = pending(Renderer::new(setup, Ok(value)));
        }
    }
}

#[test]
fn a_value_is_kept_only_where_the_command_gives_one() {
    let mut setup = Setup::begin();
    for value in 100..112 {
        setup = pending(Renderer::new(setup, Ok(value)));
    }
    assert_eq!(
        setup,
        Setup {
            stage: SetupStage::EnableColor,
            vertex_shader: 100,
            fragment_shader: 101,
            program: 102,
            vertex_array: 103,
            vertex_buffer: 105,
            index_buffer: 107,
            location: 111,
        }
    );
}

#[test]
fn advance_and_new_agree() {
    let setup = Setup::begin();
    assert_eq!(Renderer::new(setup, Ok(5)).ok(), Some(setup.advance(5)));
    assert_ne!(setup.advance(5), Progress::Pending(setup));
}

#[test]
fn the_second_attribute_is_enabled_where_it_was_found() {
    let mut setup = Setup::begin();
    for value in [1, 2, 3, 4, 0, 5, 0, 6, 0, 40] {
        setup = pending(Renderer::new(setup, Ok(value)));
    }
    assert_eq!(
        setup.command(),
        SetupCommand::SetAttribute {
            vertex_array: 4,
            location: 40,
            components: 3,
            offset: 0,
            stride: 24,
        }
    );
    setup = pending(Renderer::new(setup, Ok(0)));
    setup = pending(Renderer::new(setup, Ok(41)));
    assert_eq!(
        setup.command(),
        SetupCommand::SetAttribute {
            vertex_array: 4,
            location: 41,
            components: 3,
            offset: 12,
            stride: 24,
        }
    );
}
