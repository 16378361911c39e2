use paint::canvas::CanvasTarget;
use paint::color::{OPAQUE_WHITE, TRANSPARENT};
use paint::command::{
    BlendFactor, Command, Resource, ResourceKind, ShaderSource, ShaderStage, TextureParameter,
    TextureSetting,
};
use paint::geometry::{NormalizedPoint, Ratio};
use paint::pass::{
    build_program, clear, compile_shaders, draw_canvas, draw_tri, resize, set_gl_capabilities,
};
use paint::shader::{
    compile_shader, link_program, BRUSH_FRAGMENT_SHADER_SRC, BRUSH_VERTEX_SHADER_SRC,
    QUAD_FRAGMENT_SHADER_SRC, QUAD_VERTEX_SHADER_SRC,
};

#[test]
fn compile_shader_creates_sources_compiles() {
    assert_eq!(
        compile_shader(Resource::VertexShader, ShaderStage::Vertex, ShaderSource::QuadVertex),
        vec![
            Command::CreateShader { shader: Resource::VertexShader, stage: ShaderStage::Vertex },
            Command::SetShaderSource {
                shader: Resource::VertexShader,
                source: ShaderSource::QuadVertex
            },
            Command::CompileShader { shader: Resource::VertexShader },
        ]
    );
}

#[test]
fn link_program_creates_attaches_links() {
    assert_eq!(
        link_program(Resource::StrokeProgram, Resource::VertexShader, Resource::FragmentShader),
        vec![
            Command::CreateProgram { program: Resource::StrokeProgram },
            Command::AttachShader {
                program: Resource::StrokeProgram,
                shader: Resource::VertexShader
            },
            Command::AttachShader {
                program: Resource::StrokeProgram,
                shader: Resource::FragmentShader
            },
            Command::LinkProgram { program: Resource::StrokeProgram },
        ]
    );
}

#[test]
fn shader_sources_are_the_shipped_texts() {
    assert_eq!(ShaderSource::BrushVertex.text(), BRUSH_VERTEX_SHADER_SRC);
    assert_eq!(ShaderSource::BrushFragment.text(), BRUSH_FRAGMENT_SHADER_SRC);
    assert_eq!(ShaderSource::QuadVertex.text(), QUAD_VERTEX_SHADER_SRC);
    assert_eq!(ShaderSource::QuadFragment.text(), QUAD_FRAGMENT_SHADER_SRC);
    for source in [
        BRUSH_VERTEX_SHADER_SRC,
        BRUSH_FRAGMENT_SHADER_SRC,
        QUAD_VERTEX_SHADER_SRC,
        QUAD_FRAGMENT_SHADER_SRC,
    ] {
        assert!(source.starts_with("#version 300 es\n"));
        assert!(source.contains("void main()"));
    }
    assert!(BRUSH_VERTEX_SHADER_SRC.contains("in vec4 position;"));
    assert!(BRUSH_FRAGMENT_SHADER_SRC.contains("uniform vec4 color;"));
    assert!(QUAD_VERTEX_SHADER_SRC.contains("layout (location = 1) in vec2 texcoords;"));
    assert!(QUAD_FRAGMENT_SHADER_SRC.contains("uniform sampler2D tex;"));
}

#[test]
fn resource_roles_have_their_kinds() {
    assert_eq!(Resource::CanvasTexture.kind_of(), ResourceKind::Texture);
    assert_eq!(Resource::CanvasFramebuffer.kind_of(), ResourceKind::Framebuffer);
    assert_eq!(Resource::StrokeProgram.kind_of(), ResourceKind::Program);
    assert_eq!(Resource::CompositeProgram.kind_of(), ResourceKind::Program);
    assert_eq!(Resource::VertexShader.kind_of(), ResourceKind::Shader);
    assert_eq!(Resource::FragmentShader.kind_of(), ResourceKind::Shader);
    assert_eq!(Resource::VertexBuffer.kind_of(), ResourceKind::Buffer);
    assert_eq!(Resource::VertexShader.stage_of(), Some(ShaderStage::Vertex));
    assert_eq!(Resource::FragmentShader.stage_of(), Some(ShaderStage::Fragment));
    assert_eq!(Resource::StrokeProgram.stage_of(), None);
    assert_eq!(ShaderSource::BrushVertex.stage_of(), ShaderStage::Vertex);
    assert_eq!(ShaderSource::BrushFragment.stage_of(), ShaderStage::Fragment);
    assert_eq!(ShaderSource::QuadVertex.stage_of(), ShaderStage::Vertex);
    assert_eq!(ShaderSource::QuadFragment.stage_of(), ShaderStage::Fragment);
    assert_eq!(
        Resource::CanvasTexture.delete(),
        Command::DeleteTexture { texture: Resource::CanvasTexture }
    );
    assert_eq!(
        Resource::CanvasFramebuffer.delete(),
        Command::DeleteFramebuffer { framebuffer: Resource::CanvasFramebuffer }
    );
    assert_eq!(
        Resource::VertexBuffer.delete(),
        Command::DeleteBuffer { buffer: Resource::VertexBuffer }
    );
    assert_eq!(
        Resource::FragmentShader.delete(),
        Command::DeleteShader { shader: Resource::FragmentShader }
    );
    assert_eq!(
        Resource::CompositeProgram.delete(),
        Command::DeleteProgram { program: Resource::CompositeProgram }
    );
}

#[test]
fn commands_tell_what_they_create_delete_and_enable() {
    let create = Command::CreateBuffer { buffer: Resource::VertexBuffer };
    assert_eq!(create.creates(), Some(Resource::VertexBuffer));
    assert_eq!(create.deletes(), None);
    assert_eq!(create.enables(), None);
    let delete = Command::DeleteProgram { program: Resource::StrokeProgram };
    assert_eq!(delete.creates(), None);
    assert_eq!(delete.deletes(), Some(Resource::StrokeProgram));
    let enable = Command::EnableVertexAttribArray { index: 7 };
    assert_eq!(enable.enables(), Some(7));
    assert_eq!(Command::DisableVertexAttribArray { index: 7 }.enables(), None);
    assert_eq!(Command::Flush.creates(), None);
    assert_eq!(Command::Flush.deletes(), None);
}

#[test]
fn canvas_target_create_commands() {
    let (target, commands) = CanvasTarget::create(640, 480);
    assert_eq!(target.extent(), (640, 480));
    assert_eq!(
        commands,
        vec![
            Command::CreateTexture { texture: Resource::CanvasTexture },
            Command::BindTexture { texture: Some(Resource::CanvasTexture) },
            Command::TexImage { width: 640, height: 480 },
            Command::TexParameter {
                parameter: TextureParameter::MinFilter,
                value: TextureSetting::Linear
            },
            Command::TexParameter {
                parameter: TextureParameter::WrapS,
                value: TextureSetting::ClampToEdge
            },
            Command::TexParameter {
                parameter: TextureParameter::WrapT,
                value: TextureSetting::ClampToEdge
            },
            Command::CreateFramebuffer { framebuffer: Resource::CanvasFramebuffer },
            Command::BindFramebuffer { framebuffer: Some(Resource::CanvasFramebuffer) },
            Command::AttachTexture { texture: Resource::CanvasTexture },
            Command::Viewport { x: 0, y: 0, width: 640, height: 480 },
            Command::ClearColor { color: OPAQUE_WHITE },
            Command::Clear,
            Command::BindFramebuffer { framebuffer: None },
            Command::BindTexture { texture: None },
        ]
    );
}

#[test]
fn canvas_target_destroy_commands() {
    let (target, _) = CanvasTarget::create(1, 1);
    assert_eq!(
        target.destroy(),
        vec![
            Command::DeleteFramebuffer { framebuffer: Resource::CanvasFramebuffer },
            Command::DeleteTexture { texture: Resource::CanvasTexture },
        ]
    );
}

#[test]
fn capabilities_enable_alpha_blending() {
    assert_eq!(
        set_gl_capabilities(),
        vec![
            Command::EnableBlend,
            Command::BlendFunc {
                source: BlendFactor::SourceAlpha,
                destination: BlendFactor::OneMinusSourceAlpha
            },
        ]
    );
}

#[test]
fn clear_sets_color_then_clears() {
    assert_eq!(
        clear(OPAQUE_WHITE),
        vec![Command::ClearColor { color: OPAQUE_WHITE }, Command::Clear]
    );
    assert_eq!(
        clear(TRANSPARENT),
        vec![Command::ClearColor { color: TRANSPARENT }, Command::Clear]
    );
}

#[test]
fn resize_to_a_new_size_resizes_the_surface() {
    assert_eq!(
        resize(300, 150, 1280, 720),
        vec![
            Command::SetSurfaceSize { width: 1280, height: 720 },
            Command::Viewport { x: 0, y: 0, width: 1280, height: 720 },
        ]
    );
    assert_eq!(
        resize(1280, 150, 1280, 720),
        vec![
            Command::SetSurfaceSize { width: 1280, height: 720 },
            Command::Viewport { x: 0, y: 0, width: 1280, height: 720 },
        ]
    );
}

#[test]
fn resize_to_the_same_size_only_sets_the_viewport() {
    assert_eq!(
        resize(1280, 720, 1280, 720),
        vec![Command::Viewport { x: 0, y: 0, width: 1280, height: 720 }]
    );
}

#[test]
fn build_program_compiles_links_and_discards_the_shaders() {
    let commands = build_program(
        Resource::CompositeProgram,
        ShaderSource::QuadVertex,
        ShaderSource::QuadFragment,
    );
    let mut expected =
        compile_shader(Resource::VertexShader, ShaderStage::Vertex, ShaderSource::QuadVertex);
    expected.extend(compile_shader(
        Resource::FragmentShader,
        ShaderStage::Fragment,
        ShaderSource::QuadFragment,
    ));
    expected.extend(link_program(
        Resource::CompositeProgram,
        Resource::VertexShader,
        Resource::FragmentShader,
    ));
    expected.push(Command::DeleteShader { shader: Resource::VertexShader });
    expected.push(Command::DeleteShader { shader: Resource::FragmentShader });
    assert_eq!(commands, expected);
    assert_eq!(commands.len(), 12);
}

#[test]
fn compile_shaders_builds_stroke_then_composite() {
    let commands = compile_shaders();
    let mut expected = build_program(
        Resource::StrokeProgram,
        ShaderSource::BrushVertex,
        ShaderSource::BrushFragment,
    );
    expected.extend(build_program(
        Resource::CompositeProgram,
        ShaderSource::QuadVertex,
        ShaderSource::QuadFragment,
    ));
    assert_eq!(commands, expected);
    assert_eq!(
        commands[1],
        Command::SetShaderSource {
            shader: Resource::VertexShader,
            source: ShaderSource::BrushVertex
        }
    );
    assert_eq!(
        commands[4],
        Command::SetShaderSource {
            shader: Resource::FragmentShader,
            source: ShaderSource::BrushFragment
        }
    );
    assert_eq!(commands[9], Command::LinkProgram { program: Resource::StrokeProgram });
    assert_eq!(commands[21], Command::LinkProgram { program: Resource::CompositeProgram });
}

#[test]
fn stroke_pass_commands() {
    let center = NormalizedPoint { x: Ratio { num: -1, den: 2 }, y: Ratio { num: 1, den: 4 } };
    let edge = Ratio { num: 1, den: 10 };
    let color = [1, 2, 3, 4];
    assert_eq!(
        draw_tri(edge, center, color, 800, 600),
        vec![
            Command::CreateBuffer { buffer: Resource::VertexBuffer },
            Command::BindBuffer { buffer: Some(Resource::VertexBuffer) },
            Command::BufferTriangle { center, edge },
            Command::VertexAttribPointer { index: 0, size: 3, stride: 0, offset: 0 },
            Command::EnableVertexAttribArray { index: 0 },
            Command::UseProgram { program: Some(Resource::StrokeProgram) },
            Command::UniformColor { program: Resource::StrokeProgram, color },
            Command::BindFramebuffer { framebuffer: Some(Resource::CanvasFramebuffer) },
            Command::Viewport { x: 0, y: 0, width: 800, height: 600 },
            Command::DrawTriangles { first: 0, count: 3 },
            Command::Flush,
            Command::DisableVertexAttribArray { index: 0 },
            Command::BindFramebuffer { framebuffer: None },
            Command::UseProgram { program: None },
            Command::BindBuffer { buffer: None },
            Command::DeleteBuffer { buffer: Resource::VertexBuffer },
        ]
    );
}

#[test]
fn composite_pass_commands() {
    assert_eq!(
        draw_canvas(800, 600),
        vec![
            Command::CreateBuffer { buffer: Resource::VertexBuffer },
            Command::BindBuffer { buffer: Some(Resource::VertexBuffer) },
            Command::BufferQuad,
            Command::VertexAttribPointer { index: 0, size: 2, stride: 16, offset: 0 },
            Command::EnableVertexAttribArray { index: 0 },
            Command::VertexAttribPointer { index: 1, size: 2, stride: 16, offset: 8 },
            Command::EnableVertexAttribArray { index: 1 },
            Command::UseProgram { program: Some(Resource::CompositeProgram) },
            Command::BindFramebuffer { framebuffer: None },
            Command::ClearColor { color: TRANSPARENT },
            Command::Clear,
            Command::Viewport { x: 0, y: 0, width: 800, height: 600 },
            Command::BindTexture { texture: Some(Resource::CanvasTexture) },
            Command::DrawTriangles { first: 0, count: 6 },
            Command::Flush,
            Command::DisableVertexAttribArray { index: 0 },
            Command::DisableVertexAttribArray { index: 1 },
            Command::BindTexture { texture: None },
            Command::UseProgram { program: None },
            Command::BindBuffer { buffer: None },
            Command::DeleteBuffer { buffer: Resource::VertexBuffer },
        ]
    );
}

#[test]
fn only_the_first_command_of_a_pass_can_fail() {
    let center = NormalizedPoint { x: Ratio { num: 0, den: 1 }, y: Ratio { num: 0, den: 1 } };
    let stroke = draw_tri(Ratio { num: 1, den: 10 }, center, [0, 0, 0, 0], 10, 10);
    let composite = draw_canvas(10, 10);
    for pass in [stroke, composite] {
        for (index, command) in pass.iter().enumerate() {
            assert_eq!(command.can_fail(), index == 0, "{:?}", command);
        }
    }
}
