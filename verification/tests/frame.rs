use renderer::uniform::Uniform;
use renderer::{DrawCommand, FrameNext, FramePhase, FrameStep, Renderer};

const RENDERER: Renderer =
    Renderer { program: 3, vertex_buffer: 5, index_buffer: 6, vertex_array: 4 };

#[test]
fn a_frame_starts_by_setting_the_clear_color() {
    assert_eq!(FramePhase::first(), FramePhase::ClearColor);
    assert_eq!(
        RENDERER.command(FramePhase::first()),
        DrawCommand::ClearColor {
            red: 0.5f32.to_bits(),
            green: 0.5f32.to_bits(),
            blue: 0.5f32.to_bits(),
            alpha: 1.0f32.to_bits(),
        }
    );
}

#[test]
fn a_frame_without_errors_gives_seven_commands() {
    let expected = [
        (
            "na clear color\tno error",
            FramePhase::Clear,
            DrawCommand::Clear { mask: gl::COLOR_BUFFER_BIT },
        ),
        ("na clear\tno error", FramePhase::UseProgram, DrawCommand::UseProgram { program: 3 }),
        (
            "na transform name\tno error",
            FramePhase::LocateUniforms,
            DrawCommand::LocateUniforms {
                program: 3,
                first: Uniform::Transform,
                second: Uniform::YTransform,
            },
        ),
        (
            "na get uniform location\tno error",
            FramePhase::UploadUniforms,
            DrawCommand::UploadUniforms {
                first: Uniform::Transform,
                second: Uniform::YTransform,
                count: 1,
                transpose: false,
            },
        ),
        (
            "na uniform matrix\tno error",
            FramePhase::BindVertexArray,
            DrawCommand::BindVertexArray { vertex_array: 4 },
        ),
        (
            "na vertex bind\tno error",
            FramePhase::DrawElements,
            DrawCommand::DrawElements {
                mode: gl::TRIANGLES,
                count: 6,
                index_type: gl::UNSIGNED_INT,
            },
        ),
    ];
    let mut phase = FramePhase::first();
    for (line, next_phase, next_command) in expected {
        let step = RENDERER.draw(phase, gl::NO_ERROR);
        assert_eq!(
            step,
            FrameStep {
                line: String::from(line),
                next: FrameNext::Continue { phase: next_phase, command: next_command },
            }
        );
        assert_eq!(RENDERER.command(next_phase), next_command);
        phase = next_phase;
    }
    assert_eq!(
        RENDERER.draw(phase, gl::NO_ERROR),
        FrameStep { line: String::from("na draw elements\tno error"), next: FrameNext::Finished }
    );
}

#[test]
fn an_error_ends_the_program_after_any_phase() {
    let phases = [
        FramePhase::ClearColor,
        FramePhase::Clear,
        FramePhase::UseProgram,
        FramePhase::LocateUniforms,
        FramePhase::UploadUniforms,
        FramePhase::BindVertexArray,
        FramePhase::DrawElements,
    ];
    for phase in phases {
        for error in [gl::INVALID_ENUM, gl::OUT_OF_MEMORY, 0x0507, 1] {
            assert_eq!(RENDERER.draw(phase, error).next, FrameNext::Exit { status: 1 });
        }
    }
}

#[test]
fn an_error_is_reported_under_the_label_of_its_phase() {
    assert_eq!(
        RENDERER.draw(FramePhase::UploadUniforms, gl::INVALID_OPERATION).line,
        "na uniform matrix\tinvalid operation"
    );
    assert_eq!(
        RENDERER.draw(FramePhase::DrawElements, gl::INVALID_FRAMEBUFFER_OPERATION).line,
        "na draw elements\tinvalid framebuffer operation"
    );
    assert_eq!(RENDERER.draw(FramePhase::Clear, 0x0503).line, "na clear\t?");
}

#[test]
fn every_phase_has_its_label() {
    assert_eq!(FramePhase::ClearColor.label(), "na clear color");
    assert_eq!(FramePhase::Clear.label(), "na clear");
    assert_eq!(FramePhase::UseProgram.label(), "na transform name");
    assert_eq!(FramePhase::LocateUniforms.label(), "na get uniform location");
    assert_eq!(FramePhase::UploadUniforms.label(), "na uniform matrix");
    assert_eq!(FramePhase::BindVertexArray.label(), "na vertex bind");
    assert_eq!(FramePhase::DrawElements.label(), "na draw elements");
}

#[test]
fn phases_follow_each_other_in_order() {
    assert_eq!(FramePhase::ClearColor.successor(), Some(FramePhase::Clear));
    assert_eq!(FramePhase::Clear.successor(), Some(FramePhase::UseProgram));
    assert_eq!(FramePhase::UseProgram.successor(), Some(FramePhase::LocateUniforms));
    assert_eq!(FramePhase::LocateUniforms.successor(), Some(FramePhase::UploadUniforms));
    assert_eq!(FramePhase::UploadUniforms.successor(), Some(FramePhase::BindVertexArray));
    assert_eq!(FramePhase::BindVertexArray.successor(), Some(FramePhase::DrawElements));
    assert_eq!(FramePhase::DrawElements.successor(), None);
}

#[test]
fn commands_use_the_handles_of_the_renderer() {
    let other = Renderer { program: 30, vertex_buffer: 50, index_buffer: 60, vertex_array: 40 };
    assert_eq!(other.command(FramePhase::UseProgram), DrawCommand::UseProgram { program: 30 });
    assert_eq!(
        other.command(FramePhase::BindVertexArray),
        DrawCommand::BindVertexArray { vertex_array: 40 }
    );
    assert_eq!(
        other.draw(FramePhase::Clear, 0).next,
        FrameNext::Continue {
            phase: FramePhase::UseProgram,
            command: DrawCommand::UseProgram { program: 30 },
        }
    );
}
