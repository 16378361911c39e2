//! The vocabulary in which the engine talks to the rendering backend.
//!
//! A [`Command`] is one call on the host's rendering context. The engine
//! names the objects that these calls create and use by their role, a
//! [`Resource`]; the host keeps the backend's handle for each role.

use vstd::prelude::*;
use crate::color::Rgba;
use crate::geometry::NormalizedPoint;
use crate::geometry::Ratio;

verus! {

/// What sort of backend object a resource is.
#[derive(Clone, Copy, Debug, PartialEq, Eq)]
pub enum ResourceKind {
    Texture,
    Framebuffer,
    Buffer,
    Shader,
    Program,
}

/// The backend objects that the engine creates, each named by its role.
#[derive(Clone, Copy, Debug, PartialEq, Eq, Structural)]
pub enum Resource {
    /// The texture that accumulates the strokes.
    CanvasTexture,
    /// The framebuffer whose color attachment is the canvas texture.
    CanvasFramebuffer,
    /// The program that fills a triangle with one color.
    StrokeProgram,
    /// The program that copies the canvas texture onto a quad.
    CompositeProgram,
    /// The vertex shader of the program being built.
    VertexShader,
    /// The fragment shader of the program being built.
    FragmentShader,
    /// The vertex buffer of the pass being drawn.
    VertexBuffer,
}

impl Resource {
    /// The sort of object that fills this role.
    pub open spec fn kind(self) -> ResourceKind {
        match self {
            Resource::CanvasTexture => ResourceKind::Texture,
            Resource::CanvasFramebuffer => ResourceKind::Framebuffer,
            Resource::StrokeProgram => ResourceKind::Program,
            Resource::CompositeProgram => ResourceKind::Program,
            Resource::VertexShader => ResourceKind::Shader,
            Resource::FragmentShader => ResourceKind::Shader,
            Resource::VertexBuffer => ResourceKind::Buffer,
        }
    }

    /// The stage of the shader in this role, if the role is a shader's.
    pub open spec fn stage(self) -> Option<ShaderStage> {
        match self {
            Resource::VertexShader => Some(ShaderStage::Vertex),
            Resource::FragmentShader => Some(ShaderStage::Fragment),
            _ => None,
        }
    }

    /// The command that deletes the object in this role.
    pub open spec fn deletion(self) -> Command {
        match self.kind() {
            ResourceKind::Texture => Command::DeleteTexture { texture: self },
            ResourceKind::Framebuffer => Command::DeleteFramebuffer { framebuffer: self },
            ResourceKind::Buffer => Command::DeleteBuffer { buffer: self },
            ResourceKind::Shader => Command::DeleteShader { shader: self },
            ResourceKind::Program => Command::DeleteProgram { program: self },
        }
    }

    /// The sort of object that fills this role.
    pub fn kind_of(self) -> (kind: ResourceKind)
        ensures
            kind == self.kind(),
    {
        match self {
            Resource::CanvasTexture => ResourceKind::Texture,
            Resource::CanvasFramebuffer => ResourceKind::Framebuffer,
            Resource::StrokeProgram => ResourceKind::Program,
            Resource::CompositeProgram => ResourceKind::Program,
            Resource::VertexShader => ResourceKind::Shader,
            Resource::FragmentShader => ResourceKind::Shader,
            Resource::VertexBuffer => ResourceKind::Buffer,
        }
    }

    /// The stage of the shader in this role, if the role is a shader's.
    pub fn stage_of(self) -> (stage: Option<ShaderStage>)
        ensures
            stage == self.stage(),
    {
        match self {
            Resource::VertexShader => Some(ShaderStage::Vertex),
            Resource::FragmentShader => Some(ShaderStage::Fragment),
            _ => None,
        }
    }

    /// The command that deletes the object in this role.
    pub fn delete(self) -> (command: Command)
        ensures
            command == self.deletion(),
    {
        match self.kind_of() {
            ResourceKind::Texture => Command::DeleteTexture { texture: self },
            ResourceKind::Framebuffer => Command::DeleteFramebuffer { framebuffer: self },
            ResourceKind::Buffer => Command::DeleteBuffer { buffer: self },
            ResourceKind::Shader => Command::DeleteShader { shader: self },
            ResourceKind::Program => Command::DeleteProgram { program: self },
        }
    }
}

/// The two stages of a program.
#[derive(Clone, Copy, Debug, PartialEq, Eq)]
pub enum ShaderStage {
    Vertex,
    Fragment,
}

/// The shader sources that the engine ships.
#[derive(Clone, Copy, Debug, PartialEq, Eq)]
pub enum ShaderSource {
    BrushVertex,
    BrushFragment,
    QuadVertex,
    QuadFragment,
}

impl ShaderSource {
    /// The stage that this source is written for.
    pub open spec fn stage(self) -> ShaderStage {
        match self {
            ShaderSource::BrushVertex => ShaderStage::Vertex,
            ShaderSource::BrushFragment => ShaderStage::Fragment,
            ShaderSource::QuadVertex => ShaderStage::Vertex,
            ShaderSource::QuadFragment => ShaderStage::Fragment,
        }
    }

    /// The stage that this source is written for.
    pub fn stage_of(self) -> (stage: ShaderStage)
        ensures
            stage == self.stage(),
    {
        match self {
            ShaderSource::BrushVertex => ShaderStage::Vertex,
            ShaderSource::BrushFragment => ShaderStage::Fragment,
            ShaderSource::QuadVertex => ShaderStage::Vertex,
            ShaderSource::QuadFragment => ShaderStage::Fragment,
        }
    }
}

/// A factor of the blend equation.
#[derive(Clone, Copy, Debug, PartialEq, Eq)]
pub enum BlendFactor {
    SourceAlpha,
    OneMinusSourceAlpha,
}

/// A sampling parameter of a texture.
#[derive(Clone, Copy, Debug, PartialEq, Eq)]
pub enum TextureParameter {
    MinFilter,
    WrapS,
    WrapT,
}

/// The value of a sampling parameter.
#[derive(Clone, Copy, Debug, PartialEq, Eq)]
pub enum TextureSetting {
    Linear,
    ClampToEdge,
}

/// One call on the rendering context, or on the surface that it draws to.
///
/// The commands that create an object, allocate texture storage, compile a
/// shader or link a program can fail; the others cannot.
#[allow(inconsistent_fields)]
#[derive(Clone, Copy, Debug, PartialEq, Eq)]
pub enum Command {
    /// Sets the surface's drawing-buffer size in device pixels, which
    /// blanks what the surface shows.
    SetSurfaceSize { width: u32, height: u32 },
    /// Switches blending on.
    EnableBlend,
    /// Sets the blend factors of source and destination.
    BlendFunc { source: BlendFactor, destination: BlendFactor },
    /// Sets the viewport rectangle.
    Viewport { x: i32, y: i32, width: i32, height: i32 },
    /// Sets the color that a clear fills with.
    ClearColor { color: Rgba },
    /// Fills the color buffer of the bound framebuffer with the clear color.
    Clear,
    /// Submits everything issued so far.
    Flush,
    /// Creates a texture. Fails when the backend hands out none.
    CreateTexture { texture: Resource },
    /// Binds a texture to the two-dimensional target, or unbinds with `None`.
    BindTexture { texture: Option<Resource> },
    /// Allocates storage for the bound texture: level 0, RGBA, 8 bits per
    /// channel, no border, no initial data. Fails when the backend refuses.
    TexImage { width: i32, height: i32 },
    /// Sets a sampling parameter of the bound texture.
    TexParameter { parameter: TextureParameter, value: TextureSetting },
    /// Deletes a texture.
    DeleteTexture { texture: Resource },
    /// Creates a framebuffer. Fails when the backend hands out none.
    CreateFramebuffer { framebuffer: Resource },
    /// Binds a framebuffer as the render target; `None` is the visible one.
    BindFramebuffer { framebuffer: Option<Resource> },
    /// Attaches level 0 of a texture as color attachment 0 of the bound
    /// framebuffer.
    AttachTexture { texture: Resource },
    /// Deletes a framebuffer.
    DeleteFramebuffer { framebuffer: Resource },
    /// Creates a buffer. Fails when the backend hands out none.
    CreateBuffer { buffer: Resource },
    /// Binds a buffer as the vertex array buffer, or unbinds with `None`.
    BindBuffer { buffer: Option<Resource> },
    /// Fills the bound buffer, as static draw data, with the three corners
    /// of the equilateral triangle with the given edge length around
    /// `center`, each as `x, y, z` with `z = 0`.
    BufferTriangle { center: NormalizedPoint, edge: Ratio },
    /// Fills the bound buffer, as static draw data, with the vertex data of
    /// the viewport quad.
    BufferQuad,
    /// Points a vertex attribute at the bound buffer: `size` floats per
    /// vertex, not normalized, `stride` bytes from one vertex to the next,
    /// starting `offset` bytes into the buffer.
    VertexAttribPointer { index: u32, size: i32, stride: i32, offset: i32 },
    /// Switches a vertex attribute array on.
    EnableVertexAttribArray { index: u32 },
    /// Switches a vertex attribute array off.
    DisableVertexAttribArray { index: u32 },
    /// Deletes a buffer.
    DeleteBuffer { buffer: Resource },
    /// Creates a shader of the given stage, which is the stage of its role.
    /// Fails when the backend hands out none.
    CreateShader { shader: Resource, stage: ShaderStage },
    /// Gives a shader its source text, which is written for its stage.
    SetShaderSource { shader: Resource, source: ShaderSource },
    /// Compiles a shader that has its source. Fails, with the backend's
    /// log, when the shader's compile status is not set afterwards.
    CompileShader { shader: Resource },
    /// Deletes a shader.
    DeleteShader { shader: Resource },
    /// Creates a program. Fails when the backend hands out none.
    CreateProgram { program: Resource },
    /// Attaches a shader to a program.
    AttachShader { program: Resource, shader: Resource },
    /// Links a program to which a compiled shader of each stage is
    /// attached. Fails, with the backend's log, when the program's link
    /// status is not set afterwards.
    LinkProgram { program: Resource },
    /// Makes a program current, or none with `None`.
    UseProgram { program: Option<Resource> },
    /// Sets the four-component uniform named `color` of the current program.
    UniformColor { program: Resource, color: Rgba },
    /// Deletes a program.
    DeleteProgram { program: Resource },
    /// Draws `count` vertices, starting at `first`, as triangles.
    DrawTriangles { first: i32, count: i32 },
}

impl Command {
    /// The object that this command creates, if it is one that creates.
    pub open spec fn created(self) -> Option<Resource> {
        match self {
            Command::CreateTexture { texture } => Some(texture),
            Command::CreateFramebuffer { framebuffer } => Some(framebuffer),
            Command::CreateBuffer { buffer } => Some(buffer),
            Command::CreateShader { shader, stage } => Some(shader),
            Command::CreateProgram { program } => Some(program),
            _ => None,
        }
    }

    /// The object that this command deletes, if it is one that deletes.
    pub open spec fn deleted(self) -> Option<Resource> {
        match self {
            Command::DeleteTexture { texture } => Some(texture),
            Command::DeleteFramebuffer { framebuffer } => Some(framebuffer),
            Command::DeleteBuffer { buffer } => Some(buffer),
            Command::DeleteShader { shader } => Some(shader),
            Command::DeleteProgram { program } => Some(program),
            _ => None,
        }
    }

    /// The vertex attribute array that this command switches on, if any.
    pub open spec fn enabled(self) -> Option<u32> {
        match self {
            Command::EnableVertexAttribArray { index } => Some(index),
            _ => None,
        }
    }

    /// Whether the backend can fail this command.
    pub open spec fn fallible(self) -> bool {
        match self {
            Command::CreateTexture { texture } => true,
            Command::TexImage { width, height } => true,
            Command::CreateFramebuffer { framebuffer } => true,
            Command::CreateBuffer { buffer } => true,
            Command::CreateShader { shader, stage } => true,
            Command::CompileShader { shader } => true,
            Command::CreateProgram { program } => true,
            Command::LinkProgram { program } => true,
            _ => false,
        }
    }

    /// The object that this command creates, if it is one that creates.
    pub fn creates(&self) -> (resource: Option<Resource>)
        ensures
            resource == self.created(),
    {
        match self {
            Command::CreateTexture { texture } => Some(*texture),
            Command::CreateFramebuffer { framebuffer } => Some(*framebuffer),
            Command::CreateBuffer { buffer } => Some(*buffer),
            Command::CreateShader { shader, stage } => Some(*shader),
            Command::CreateProgram { program } => Some(*program),
            _ => None,
        }
    }

    /// The object that this command deletes, if it is one that deletes.
    pub fn deletes(&self) -> (resource: Option<Resource>)
        ensures
            resource == self.deleted(),
    {
        match self {
            Command::DeleteTexture { texture } => Some(*texture),
            Command::DeleteFramebuffer { framebuffer } => Some(*framebuffer),
            Command::DeleteBuffer { buffer } => Some(*buffer),
            Command::DeleteShader { shader } => Some(*shader),
            Command::DeleteProgram { program } => Some(*program),
            _ => None,
        }
    }

    /// The vertex attribute array that this command switches on, if any.
    pub fn enables(&self) -> (index: Option<u32>)
        ensures
            index == self.enabled(),
    {
        match self {
            Command::EnableVertexAttribArray { index } => Some(*index),
            _ => None,
        }
    }

    /// Whether the backend can fail this command.
    pub fn can_fail(&self) -> (fallible: bool)
        ensures
            fallible == self.fallible(),
    {
        match self {
            Command::CreateTexture { texture } => true,
            Command::TexImage { width, height } => true,
            Command::CreateFramebuffer { framebuffer } => true,
            Command::CreateBuffer { buffer } => true,
            Command::CreateShader { shader, stage } => true,
            Command::CompileShader { shader } => true,
            Command::CreateProgram { program } => true,
            Command::LinkProgram { program } => true,
            _ => false,
        }
    }
}

} // verus!
