//! The shader pipeline: the sources of the two programs, and the commands
//! that compile a shader and link a program.

use vstd::prelude::*;
use crate::command::Command;
use crate::command::Resource;
use crate::command::ResourceKind;
use crate::command::ShaderSource;
use crate::command::ShaderStage;
use crate::gpu::Gpu;
use crate::gpu::lemma_run_nothing;
use crate::gpu::lemma_run_push;

verus! {

pub const BRUSH_VERTEX_SHADER_SRC: &'static str = r#"#version 300 es

#ifdef GL_FRAGMENT_PRECISION_HIGH
    precision highp float;
#else
    precision mediump float;
#endif

in vec4 position;
void main() {
    gl_Position = position;
}
"#;

pub const BRUSH_FRAGMENT_SHADER_SRC: &'static str = r#"#version 300 es

#ifdef GL_FRAGMENT_PRECISION_HIGH
    precision highp float;
#else
    precision mediump float;
#endif

uniform vec4 color;
out vec4 out_color;
void main() {
    out_color = color;
}
"#;

pub const QUAD_VERTEX_SHADER_SRC: &'static str = r#"#version 300 es

#ifdef GL_FRAGMENT_PRECISION_HIGH
    precision highp float;
#else
    precision mediump float;
#endif

layout (location = 0) in vec2 position;
layout (location = 1) in vec2 texcoords;

out vec2 out_texcoords;

void main() {
    out_texcoords = texcoords;
    gl_Position = vec4(position, 0.0, 1.0);
}
"#;

pub const QUAD_FRAGMENT_SHADER_SRC: &'static str = r#"#version 300 es

#ifdef GL_FRAGMENT_PRECISION_HIGH
    precision highp float;
#else
    precision mediump float;
#endif

in vec2 out_texcoords;
out vec4 out_color;
uniform sampler2D tex;

void main() {
    out_color = vec4(texture(tex, out_texcoords).rgb, 1.0);
}
"#;

impl ShaderSource {
    /// The source text, as a sequence of characters.
    pub open spec fn text_of(self) -> Seq<char> {
        match self {
            ShaderSource::BrushVertex => BRUSH_VERTEX_SHADER_SRC@,
            ShaderSource::BrushFragment => BRUSH_FRAGMENT_SHADER_SRC@,
            ShaderSource::QuadVertex => QUAD_VERTEX_SHADER_SRC@,
            ShaderSource::QuadFragment => QUAD_FRAGMENT_SHADER_SRC@,
        }
    }

    /// The source text that the backend is to compile.
    pub fn text(self) -> (text: &'static str)
        ensures
            text@ == self.text_of(),
    {
        match self {
            ShaderSource::BrushVertex => BRUSH_VERTEX_SHADER_SRC,
            ShaderSource::BrushFragment => BRUSH_FRAGMENT_SHADER_SRC,
            ShaderSource::QuadVertex => QUAD_VERTEX_SHADER_SRC,
            ShaderSource::QuadFragment => QUAD_FRAGMENT_SHADER_SRC,
        }
    }
}

/// The commands that make `shader` a compiled shader of the given stage:
/// create it, give it its source, compile it.
pub open spec fn compile_commands(
    shader: Resource,
    stage: ShaderStage,
    source: ShaderSource,
) -> Seq<Command> {
    Seq::empty()
        .push(Command::CreateShader { shader, stage })
        .push(Command::SetShaderSource { shader, source })
        .push(Command::CompileShader { shader })
}

/// Compiles `source` as a shader of the given stage, under the name
/// `shader`.
///
/// Where the backend cannot create the shader or does not compile it,
/// the host's report of that becomes a compile error that carries the
/// backend's log: see [`crate::report::diagnose`].
pub fn compile_shader(shader: Resource, stage: ShaderStage, source: ShaderSource) -> (commands:
    Vec<Command>)
    ensures
        commands@ == compile_commands(shader, stage, source),
{
    let mut commands = Vec::new();
    commands.push(Command::CreateShader { shader, stage });
    commands.push(Command::SetShaderSource { shader, source });
    commands.push(Command::CompileShader { shader });
    commands
}

/// The commands that make `program` the linked program of two compiled
/// shaders: create it, attach both, link.
pub open spec fn link_commands(program: Resource, vertex: Resource, fragment: Resource) -> Seq<
    Command,
> {
    Seq::empty()
        .push(Command::CreateProgram { program })
        .push(Command::AttachShader { program, shader: vertex })
        .push(Command::AttachShader { program, shader: fragment })
        .push(Command::LinkProgram { program })
}

/// Links the two shaders into a program, under the name `program`.
///
/// Where the backend cannot create the program or does not link it, the
/// host's report of that becomes a link error that carries the backend's
/// log: see [`crate::report::diagnose`].
pub fn link_program(program: Resource, vertex: Resource, fragment: Resource) -> (commands: Vec<
    Command,
>)
    ensures
        commands@ == link_commands(program, vertex, fragment),
{
    let mut commands = Vec::new();
    commands.push(Command::CreateProgram { program });
    commands.push(Command::AttachShader { program, shader: vertex });
    commands.push(Command::AttachShader { program, shader: fragment });
    commands.push(Command::LinkProgram { program });
    commands
}

/// Compiling a source of the right stage as a shader that does not exist
/// yet brings that shader into existence, compiled, and changes nothing
/// else.
pub proof fn lemma_compile_creates(
    gpu: Gpu,
    shader: Resource,
    stage: ShaderStage,
    source: ShaderSource,
)
    requires
        !gpu.fault,
        shader.stage() == Some(stage),
        source.stage() == stage,
        !gpu.live.contains(shader),
    ensures
        gpu.run(compile_commands(shader, stage, source)) == (Gpu {
            live: gpu.live.insert(shader),
            sourced: gpu.sourced.insert(shader),
            compiled: gpu.compiled.remove(shader).insert(shader),
            ..gpu
        }),
        gpu.run(compile_commands(shader, stage, source)).compiled.contains(shader),
{
    broadcast use lemma_run_nothing, lemma_run_push;

}

/// Linking the two compiled shaders into a program that does not exist
/// yet brings a usable program into existence, with both attached, and
/// changes nothing else.
pub proof fn lemma_link_creates(gpu: Gpu, program: Resource)
    requires
        !gpu.fault,
        program.kind() == ResourceKind::Program,
        !gpu.live.contains(program),
        gpu.live.contains(Resource::VertexShader),
        gpu.live.contains(Resource::FragmentShader),
        gpu.compiled.contains(Resource::VertexShader),
        gpu.compiled.contains(Resource::FragmentShader),
    ensures
        gpu.run(link_commands(program, Resource::VertexShader, Resource::FragmentShader)) == (Gpu {
            live: gpu.live.insert(program),
            attached: gpu.attached.insert((program, Resource::VertexShader)).insert(
                (program, Resource::FragmentShader),
            ),
            linked: gpu.linked.insert(program),
            ..gpu
        }),
        gpu.run(
            link_commands(program, Resource::VertexShader, Resource::FragmentShader),
        ).usable(program),
{
    broadcast use lemma_run_nothing, lemma_run_push;

}

} // verus!
