//! What the commands mean: a model of the rendering backend's state.
//!
//! [`Gpu`] holds the part of the backend's state that the engine relies on:
//! the bind points, the objects that exist, and what has been drawn into the
//! canvas target and onto the visible surface. [`Gpu::step`] says what one
//! command does to it and [`Gpu::run`] what a list does. A command that the
//! backend would reject, or that would use an object that is not there,
//! sets [`Gpu::fault`], which nothing clears.
//!
//! The model describes commands that succeed. A command that fails changes
//! nothing, and the host runs no command after it.

use vstd::prelude::*;
use crate::color::Rgba;
use crate::color::TRANSPARENT;
use crate::command::BlendFactor;
use crate::command::Command;
use crate::command::Resource;
use crate::command::ResourceKind;
use crate::geometry::NormalizedPoint;
use crate::geometry::Ratio;

verus! {

/// One triangle that was drawn into the canvas target: where, how large,
/// in which color, and through which viewport rectangle.
pub struct Stroke {
    pub center: NormalizedPoint,
    pub edge: Ratio,
    pub color: Rgba,
    pub viewport: (i32, i32, i32, i32),
}

/// The content of a color buffer: what it was last cleared to and the
/// strokes drawn over that since, oldest first.
pub struct Picture {
    pub background: Rgba,
    pub strokes: Seq<Stroke>,
}

impl Picture {
    /// A buffer freshly cleared to `background`.
    pub open spec fn blank(background: Rgba) -> Picture {
        Picture { background, strokes: Seq::empty() }
    }
}

/// What a vertex buffer holds.
pub enum Vertices {
    Triangle { center: NormalizedPoint, edge: Ratio },
    Quad,
}

/// The state of the rendering backend, as far as the engine relies on it.
pub struct Gpu {
    /// The drawing-buffer size of the surface, if a command has set it.
    /// Setting it blanks what the surface shows.
    pub surface: Option<(u32, u32)>,
    /// Whether blending is switched on.
    pub blending: bool,
    /// The blend factors of source and destination, if a command has set them.
    pub blend: Option<(BlendFactor, BlendFactor)>,
    /// The viewport rectangle `x, y, width, height`, if a command has set it.
    pub viewport: Option<(i32, i32, i32, i32)>,
    /// The color that a clear fills with.
    pub clear_color: Rgba,
    /// The bound framebuffer; `None` is the visible one.
    pub framebuffer: Option<Resource>,
    /// The bound texture.
    pub texture: Option<Resource>,
    /// The bound vertex buffer.
    pub buffer: Option<Resource>,
    /// The current program.
    pub program: Option<Resource>,
    /// The vertex attribute arrays that are switched on.
    pub attributes: Set<u32>,
    /// The objects that exist.
    pub live: Set<Resource>,
    /// The shaders that have been given a source of their stage.
    pub sourced: Set<Resource>,
    /// The shaders that have been compiled.
    pub compiled: Set<Resource>,
    /// The pairs of a program and a shader attached to it.
    pub attached: Set<(Resource, Resource)>,
    /// The programs that have been linked.
    pub linked: Set<Resource>,
    /// The texture attached to the canvas framebuffer.
    pub attachment: Option<Resource>,
    /// The extent of the canvas texture's storage, once allocated.
    pub storage: Option<(i32, i32)>,
    /// The content of the vertex buffer, once filled.
    pub vertices: Option<Vertices>,
    /// The color uniform of the stroke program.
    pub color: Rgba,
    /// What the canvas target holds.
    pub canvas: Picture,
    /// What the visible surface shows.
    pub screen: Picture,
    /// Whether some command so far was not valid where it stood.
    pub fault: bool,
}

impl Gpu {
    /// This state after a command that was not valid here.
    pub open spec fn fail(self) -> Gpu {
        Gpu { fault: true, ..self }
    }

    /// The object `resource` exists and is of the given kind.
    pub open spec fn has(self, resource: Resource, kind: ResourceKind) -> bool {
        self.live.contains(resource) && resource.kind() == kind
    }

    /// Nothing is bound and no program is current.
    pub open spec fn unbound(self) -> bool {
        &&& self.framebuffer is None
        &&& self.texture is None
        &&& self.buffer is None
        &&& self.program is None
    }

    /// Nothing is bound, no program is current and no vertex attribute array
    /// is switched on: the state in which every operation of the engine
    /// starts and ends.
    pub open spec fn at_rest(self) -> bool {
        self.unbound() && self.attributes =~= Set::empty()
    }

    /// The state of a backend that the engine has not touched yet: nothing
    /// exists, nothing is bound, nothing has gone wrong.
    pub open spec fn fresh(self) -> bool {
        &&& !self.fault
        &&& self.at_rest()
        &&& self.live =~= Set::empty()
        &&& self.no_shader_state()
    }

    /// No shader has a source or is compiled, and none is attached to a
    /// program: so it is while no shader exists.
    pub open spec fn no_shader_state(self) -> bool {
        &&& self.sourced =~= Set::empty()
        &&& self.compiled =~= Set::empty()
        &&& self.attached =~= Set::empty()
    }

    /// Blending is on, with the source weighted by its alpha and the
    /// destination by one minus that.
    pub open spec fn blends(self) -> bool {
        self.blending && self.blend == Some(
            (BlendFactor::SourceAlpha, BlendFactor::OneMinusSourceAlpha),
        )
    }

    /// The state of a backend between two operations of a working engine:
    /// blending is set up, the canvas target is complete, both programs
    /// are usable, nothing else exists, nothing is bound, nothing has gone
    /// wrong.
    pub open spec fn ready(self) -> bool {
        &&& !self.fault
        &&& self.at_rest()
        &&& self.blends()
        &&& self.no_shader_state()
        &&& self.canvas_complete()
        &&& self.usable(Resource::StrokeProgram)
        &&& self.usable(Resource::CompositeProgram)
        &&& self.live =~= Set::empty().insert(Resource::CanvasTexture).insert(
            Resource::CanvasFramebuffer,
        ).insert(Resource::StrokeProgram).insert(Resource::CompositeProgram)
    }

    /// The canvas target is complete: texture and framebuffer exist, the
    /// texture has storage and is the framebuffer's color attachment.
    pub open spec fn canvas_complete(self) -> bool {
        &&& self.live.contains(Resource::CanvasTexture)
        &&& self.live.contains(Resource::CanvasFramebuffer)
        &&& self.attachment == Some(Resource::CanvasTexture)
        &&& self.storage is Some
    }

    /// The program `program` exists and has been linked.
    pub open spec fn usable(self, program: Resource) -> bool {
        self.has(program, ResourceKind::Program) && self.linked.contains(program)
    }

    /// The program `program` exists and can be linked: a compiled shader
    /// of each stage is attached to it.
    pub open spec fn linkable(self, program: Resource) -> bool {
        &&& self.has(program, ResourceKind::Program)
        &&& self.attached.contains((program, Resource::VertexShader))
        &&& self.attached.contains((program, Resource::FragmentShader))
        &&& self.compiled.contains(Resource::VertexShader)
        &&& self.compiled.contains(Resource::FragmentShader)
    }

    /// This state after creating `resource` as an object of the given kind.
    pub open spec fn create(self, resource: Resource, kind: ResourceKind) -> Gpu {
        if resource.kind() == kind && !self.live.contains(resource) {
            Gpu { live: self.live.insert(resource), ..self }
        } else {
            self.fail()
        }
    }

    /// Whether `resource` can be bound to a bind point for objects of the
    /// given kind.
    pub open spec fn bindable(self, resource: Option<Resource>, kind: ResourceKind) -> bool {
        match resource {
            Some(r) => self.has(r, kind),
            None => true,
        }
    }

    /// This state after one command.
    pub open spec fn step(self, command: Command) -> Gpu {
        match command {
            Command::SetSurfaceSize { width, height } => Gpu {
                surface: Some((width, height)),
                screen: Picture::blank(TRANSPARENT),
                ..self
            },
            Command::EnableBlend => Gpu { blending: true, ..self },
            Command::BlendFunc { source, destination } => Gpu {
                blend: Some((source, destination)),
                ..self
            },
            Command::Viewport { x, y, width, height } => Gpu {
                viewport: Some((x, y, width, height)),
                ..self
            },
            Command::ClearColor { color } => Gpu { clear_color: color, ..self },
            Command::Clear => match self.framebuffer {
                None => Gpu { screen: Picture::blank(self.clear_color), ..self },
                Some(_) => if self.canvas_complete() {
                    Gpu { canvas: Picture::blank(self.clear_color), ..self }
                } else {
                    self.fail()
                },
            },
            Command::Flush => self,
            Command::CreateTexture { texture } => self.create(texture, ResourceKind::Texture),
            Command::BindTexture { texture } => if self.bindable(texture, ResourceKind::Texture) {
                Gpu { texture, ..self }
            } else {
                self.fail()
            },
            Command::TexImage { width, height } => if self.texture is Some {
                Gpu {
                    storage: Some((width, height)),
                    canvas: Picture::blank(TRANSPARENT),
                    ..self
                }
            } else {
                self.fail()
            },
            Command::TexParameter { parameter, value } => if self.texture is Some {
                self
            } else {
                self.fail()
            },
            Command::DeleteTexture { texture } => if self.has(texture, ResourceKind::Texture)
                && self.texture != Some(texture) {
                Gpu {
                    live: self.live.remove(texture),
                    attachment: if self.attachment == Some(texture) {
                        None
                    } else {
                        self.attachment
                    },
                    storage: None,
                    ..self
                }
            } else {
                self.fail()
            },
            Command::CreateFramebuffer { framebuffer } => self.create(
                framebuffer,
                ResourceKind::Framebuffer,
            ),
            Command::BindFramebuffer { framebuffer } => if self.bindable(
                framebuffer,
                ResourceKind::Framebuffer,
            ) {
                Gpu { framebuffer, ..self }
            } else {
                self.fail()
            },
            Command::AttachTexture { texture } => if self.framebuffer is Some && self.has(
                texture,
                ResourceKind::Texture,
            ) {
                Gpu { attachment: Some(texture), ..self }
            } else {
                self.fail()
            },
            Command::DeleteFramebuffer { framebuffer } => if self.has(
                framebuffer,
                ResourceKind::Framebuffer,
            ) && self.framebuffer != Some(framebuffer) {
                Gpu { live: self.live.remove(framebuffer), attachment: None, ..self }
            } else {
                self.fail()
            },
            Command::CreateBuffer { buffer } => self.create(buffer, ResourceKind::Buffer),
            Command::BindBuffer { buffer } => if self.bindable(buffer, ResourceKind::Buffer) {
                Gpu { buffer, ..self }
            } else {
                self.fail()
            },
            Command::BufferTriangle { center, edge } => if self.buffer is Some {
                Gpu { vertices: Some(Vertices::Triangle { center, edge }), ..self }
            } else {
                self.fail()
            },
            Command::BufferQuad => if self.buffer is Some {
                Gpu { vertices: Some(Vertices::Quad), ..self }
            } else {
                self.fail()
            },
            Command::VertexAttribPointer { index, size, stride, offset } => if self.buffer
                is Some {
                self
            } else {
                self.fail()
            },
            Command::EnableVertexAttribArray { index } => Gpu {
                attributes: self.attributes.insert(index),
                ..self
            },
            Command::DisableVertexAttribArray { index } => Gpu {
                attributes: self.attributes.remove(index),
                ..self
            },
            Command::DeleteBuffer { buffer } => if self.has(buffer, ResourceKind::Buffer)
                && self.buffer != Some(buffer) {
                Gpu { live: self.live.remove(buffer), vertices: None, ..self }
            } else {
                self.fail()
            },
            Command::CreateShader { shader, stage } => if shader.stage() == Some(stage) {
                self.create(shader, ResourceKind::Shader)
            } else {
                self.fail()
            },
            Command::SetShaderSource { shader, source } => if self.has(
                shader,
                ResourceKind::Shader,
            ) && shader.stage() == Some(source.stage()) {
                Gpu {
                    sourced: self.sourced.insert(shader),
                    compiled: self.compiled.remove(shader),
                    ..self
                }
            } else {
                self.fail()
            },
            Command::CompileShader { shader } => if self.has(shader, ResourceKind::Shader)
                && self.sourced.contains(shader) {
                Gpu { compiled: self.compiled.insert(shader), ..self }
            } else {
                self.fail()
            },
            Command::DeleteShader { shader } => if self.has(shader, ResourceKind::Shader) {
                Gpu {
                    live: self.live.remove(shader),
                    sourced: self.sourced.remove(shader),
                    compiled: self.compiled.remove(shader),
                    attached: self.attached.remove((Resource::StrokeProgram, shader)).remove(
                        (Resource::CompositeProgram, shader),
                    ),
                    ..self
                }
            } else {
                self.fail()
            },
            Command::CreateProgram { program } => self.create(program, ResourceKind::Program),
            Command::AttachShader { program, shader } => if self.has(
                program,
                ResourceKind::Program,
            ) && self.has(shader, ResourceKind::Shader) {
                Gpu { attached: self.attached.insert((program, shader)), ..self }
            } else {
                self.fail()
            },
            Command::LinkProgram { program } => if self.linkable(program) {
                Gpu { linked: self.linked.insert(program), ..self }
            } else {
                self.fail()
            },
            Command::UseProgram { program } => match program {
                Some(p) => if self.usable(p) {
                    Gpu { program, ..self }
                } else {
                    self.fail()
                },
                None => Gpu { program, ..self },
            },
            Command::UniformColor { program, color } => if self.program == Some(program) {
                if program == Resource::StrokeProgram {
                    Gpu { color, ..self }
                } else {
                    self
                }
            } else {
                self.fail()
            },
            Command::DeleteProgram { program } => if self.has(program, ResourceKind::Program)
                && self.program != Some(program) {
                Gpu {
                    live: self.live.remove(program),
                    linked: self.linked.remove(program),
                    attached: self.attached.remove((program, Resource::VertexShader)).remove(
                        (program, Resource::FragmentShader),
                    ),
                    ..self
                }
            } else {
                self.fail()
            },
            Command::DrawTriangles { first, count } => if self.draws_stroke(first, count) {
                Gpu {
                    canvas: Picture {
                        strokes: self.canvas.strokes.push(self.pending_stroke()),
                        ..self.canvas
                    },
                    ..self
                }
            } else if self.draws_canvas(first, count) {
                Gpu { screen: self.canvas, ..self }
            } else {
                self.fail()
            },
        }
    }

    /// A draw of `count` vertices from `first` puts a stroke on the canvas
    /// target: the stroke program is current, the canvas framebuffer is
    /// the render target, a viewport is set, and the vertex buffer holds a
    /// triangle that attribute 0 reads.
    pub open spec fn draws_stroke(self, first: i32, count: i32) -> bool {
        &&& self.program == Some(Resource::StrokeProgram)
        &&& self.framebuffer == Some(Resource::CanvasFramebuffer)
        &&& self.canvas_complete()
        &&& self.viewport is Some
        &&& self.vertices matches Some(Vertices::Triangle { center, edge })
        &&& self.attributes.contains(0)
        &&& first == 0
        &&& count == 3
    }

    /// The stroke that a draw would put on the canvas target now.
    pub open spec fn pending_stroke(self) -> Stroke {
        match self.vertices {
            Some(Vertices::Triangle { center, edge }) => Stroke {
                center,
                edge,
                color: self.color,
                viewport: self.viewport.unwrap(),
            },
            _ => arbitrary(),
        }
    }

    /// A draw of `count` vertices from `first` copies the canvas target onto
    /// the visible surface: the composite program is current, the visible
    /// framebuffer is the render target, the canvas texture is bound for
    /// sampling, and the vertex buffer holds the viewport quad that
    /// attributes 0 and 1 read.
    pub open spec fn draws_canvas(self, first: i32, count: i32) -> bool {
        &&& self.program == Some(Resource::CompositeProgram)
        &&& self.framebuffer is None
        &&& self.texture == Some(Resource::CanvasTexture)
        &&& self.storage is Some
        &&& self.vertices == Some(Vertices::Quad)
        &&& self.attributes.contains(0)
        &&& self.attributes.contains(1)
        &&& first == 0
        &&& count == 6
    }

    /// This state after a list of commands, each carried out in turn.
    pub open spec fn run(self, commands: Seq<Command>) -> Gpu
        decreases commands.len(),
    {
        if commands.len() == 0 {
            self
        } else {
            self.run(commands.drop_last()).step(commands.last())
        }
    }
}

/// Running no command changes nothing.
pub broadcast proof fn lemma_run_nothing(gpu: Gpu)
    ensures
        #[trigger] gpu.run(Seq::empty()) == gpu,
{
}

/// Running a list with one more command is running the list, then the
/// command.
pub broadcast proof fn lemma_run_push(gpu: Gpu, commands: Seq<Command>, command: Command)
    ensures
        #[trigger] gpu.run(commands.push(command)) == gpu.run(commands).step(command),
{
    assert(commands.push(command).drop_last() =~= commands);
}

/// Running two lists joined is running the first, then the second.
pub proof fn lemma_run_join(gpu: Gpu, first: Seq<Command>, second: Seq<Command>)
    ensures
        gpu.run(first + second) == gpu.run(first).run(second),
    decreases second.len(),
{
    if second.len() == 0 {
        assert(first + second =~= first);
    } else {
        lemma_run_join(gpu, first, second.drop_last());
        assert((first + second).drop_last() =~= first + second.drop_last());
    }
}

/// A fault is never cleared: where a list ran without fault, so did each
/// of its beginnings.
pub proof fn lemma_fault_stays(gpu: Gpu, commands: Seq<Command>, count: int)
    requires
        0 <= count <= commands.len(),
        !gpu.run(commands).fault,
    ensures
        !gpu.run(commands.take(count)).fault,
    decreases commands.len(),
{
    if count == commands.len() {
        assert(commands.take(count) =~= commands);
    } else {
        assert(commands.drop_last().take(count) =~= commands.take(count));
        lemma_fault_stays(gpu, commands.drop_last(), count);
    }
}

} // verus!
