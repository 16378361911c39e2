//! The render passes and the other command lists of the engine, and what
//! each of them does to the backend.

use vstd::prelude::*;
use crate::canvas::CanvasTarget;
use crate::canvas::lemma_destroy_releases_target;
use crate::color::Rgba;
use crate::color::TRANSPARENT;
use crate::command::BlendFactor;
use crate::command::Command;
use crate::command::Resource;
use crate::command::ShaderSource;
use crate::command::ShaderStage;
use crate::geometry::NormalizedPoint;
use crate::geometry::QUAD_PAIR;
use crate::geometry::QUAD_STRIDE_BYTES;
use crate::geometry::QUAD_TEXCOORD_OFFSET;
use crate::geometry::QUAD_VERTICES;
use crate::geometry::Ratio;
use crate::geometry::TRIANGLE_TRIPLE;
use crate::geometry::TRIANGLE_VERTICES;
use crate::gpu::Gpu;
use crate::gpu::Picture;
use crate::gpu::Stroke;
use crate::gpu::lemma_run_join;
use crate::gpu::lemma_run_nothing;
use crate::gpu::lemma_run_push;
use crate::shader::compile_commands;
use crate::shader::compile_shader;
use crate::shader::lemma_compile_creates;
use crate::shader::lemma_link_creates;
use crate::shader::link_commands;
use crate::shader::link_program;

verus! {

/// The commands that set up blending: switch it on, with the source
/// weighted by its alpha and the destination by one minus that.
pub open spec fn capability_commands() -> Seq<Command> {
    Seq::empty().push(Command::EnableBlend).push(
        Command::BlendFunc {
            source: BlendFactor::SourceAlpha,
            destination: BlendFactor::OneMinusSourceAlpha,
        },
    )
}

/// The commands that clear the bound framebuffer to `color`.
pub open spec fn clear_commands(color: Rgba) -> Seq<Command> {
    Seq::empty().push(Command::ClearColor { color }).push(Command::Clear)
}

/// The commands that fit surface and viewport to a layout size of
/// `client_width` by `client_height`: the surface is resized if its
/// size, `width` by `height`, differs, and the viewport is set in any
/// case.
pub open spec fn resize_commands(
    width: u32,
    height: u32,
    client_width: u32,
    client_height: u32,
) -> Seq<Command> {
    let viewport = Command::Viewport {
        x: 0,
        y: 0,
        width: client_width as i32,
        height: client_height as i32,
    };
    if width != client_width || height != client_height {
        Seq::empty().push(
            Command::SetSurfaceSize { width: client_width, height: client_height },
        ).push(viewport)
    } else {
        Seq::empty().push(viewport)
    }
}

/// The commands that build one program from its two sources: compile
/// both shaders, link them, and delete the shaders, which the linked
/// program no longer needs.
pub open spec fn program_commands(
    program: Resource,
    vertex: ShaderSource,
    fragment: ShaderSource,
) -> Seq<Command> {
    compile_commands(Resource::VertexShader, ShaderStage::Vertex, vertex) + compile_commands(
        Resource::FragmentShader,
        ShaderStage::Fragment,
        fragment,
    ) + link_commands(program, Resource::VertexShader, Resource::FragmentShader)
        + Seq::empty().push(Command::DeleteShader { shader: Resource::VertexShader }).push(
        Command::DeleteShader { shader: Resource::FragmentShader },
    )
}

/// The commands that build both programs: the stroke program, then the
/// composite program.
pub open spec fn shader_commands() -> Seq<Command> {
    program_commands(
        Resource::StrokeProgram,
        ShaderSource::BrushVertex,
        ShaderSource::BrushFragment,
    ) + program_commands(
        Resource::CompositeProgram,
        ShaderSource::QuadVertex,
        ShaderSource::QuadFragment,
    )
}

/// The stroke pass: the commands that draw one triangle of the given
/// edge length around `center`, in `color`, into the canvas target, with
/// the viewport spanning a surface of `width` by `height` pixels.
///
/// The pass uploads the corners to a vertex buffer of its own, draws with
/// the stroke program and submits; then it puts back what it changed:
/// attribute array, render target, program and buffer binding, and
/// deletes its buffer.
pub open spec fn stroke_commands(
    center: NormalizedPoint,
    edge: Ratio,
    color: Rgba,
    width: i32,
    height: i32,
) -> Seq<Command> {
    Seq::empty()
        .push(Command::CreateBuffer { buffer: Resource::VertexBuffer })
        .push(Command::BindBuffer { buffer: Some(Resource::VertexBuffer) })
        .push(Command::BufferTriangle { center, edge })
        .push(Command::VertexAttribPointer { index: 0, size: TRIANGLE_TRIPLE, stride: 0, offset: 0 })
        .push(Command::EnableVertexAttribArray { index: 0 })
        .push(Command::UseProgram { program: Some(Resource::StrokeProgram) })
        .push(Command::UniformColor { program: Resource::StrokeProgram, color })
        .push(Command::BindFramebuffer { framebuffer: Some(Resource::CanvasFramebuffer) })
        .push(Command::Viewport { x: 0, y: 0, width, height })
        .push(Command::DrawTriangles { first: 0, count: TRIANGLE_VERTICES })
        .push(Command::Flush)
        .push(Command::DisableVertexAttribArray { index: 0 })
        .push(Command::BindFramebuffer { framebuffer: None })
        .push(Command::UseProgram { program: None })
        .push(Command::BindBuffer { buffer: None })
        .push(Command::DeleteBuffer { buffer: Resource::VertexBuffer })
}

/// The composite pass: the commands that copy the canvas target onto the
/// visible surface, with the viewport spanning a surface of `width` by
/// `height` pixels.
///
/// The pass uploads the viewport quad to a vertex buffer of its own,
/// clears the visible framebuffer to transparent, draws the quad with the
/// composite program sampling the canvas texture, and submits; then it
/// puts back what it changed: attribute arrays, texture, program and
/// buffer binding, and deletes its buffer.
pub open spec fn composite_commands(width: i32, height: i32) -> Seq<Command> {
    Seq::empty()
        .push(Command::CreateBuffer { buffer: Resource::VertexBuffer })
        .push(Command::BindBuffer { buffer: Some(Resource::VertexBuffer) })
        .push(Command::BufferQuad)
        .push(
            Command::VertexAttribPointer {
                index: 0,
                size: QUAD_PAIR,
                stride: QUAD_STRIDE_BYTES,
                offset: 0,
            },
        )
        .push(Command::EnableVertexAttribArray { index: 0 })
        .push(
            Command::VertexAttribPointer {
                index: 1,
                size: QUAD_PAIR,
                stride: QUAD_STRIDE_BYTES,
                offset: QUAD_TEXCOORD_OFFSET,
            },
        )
        .push(Command::EnableVertexAttribArray { index: 1 })
        .push(Command::UseProgram { program: Some(Resource::CompositeProgram) })
        .push(Command::BindFramebuffer { framebuffer: None })
        .push(Command::ClearColor { color: TRANSPARENT })
        .push(Command::Clear)
        .push(Command::Viewport { x: 0, y: 0, width, height })
        .push(Command::BindTexture { texture: Some(Resource::CanvasTexture) })
        .push(Command::DrawTriangles { first: 0, count: QUAD_VERTICES as i32 })
        .push(Command::Flush)
        .push(Command::DisableVertexAttribArray { index: 0 })
        .push(Command::DisableVertexAttribArray { index: 1 })
        .push(Command::BindTexture { texture: None })
        .push(Command::UseProgram { program: None })
        .push(Command::BindBuffer { buffer: None })
        .push(Command::DeleteBuffer { buffer: Resource::VertexBuffer })
}

/// The commands that release everything the engine owns: both programs,
/// then the canvas target.
pub open spec fn teardown_commands() -> Seq<Command> {
    Seq::empty().push(Command::DeleteProgram { program: Resource::StrokeProgram }).push(
        Command::DeleteProgram { program: Resource::CompositeProgram },
    ) + CanvasTarget::destroy_commands()
}

/// On every working backend, `commands` add exactly `stroke` to what the
/// canvas target holds, leave alone what the surface shows, and leave
/// the backend ready for the next operation.
pub open spec fn paints(commands: Seq<Command>, stroke: Stroke) -> bool {
    forall|gpu: Gpu|
        gpu.ready() ==> {
            &&& (#[trigger] gpu.run(commands)).ready()
            &&& gpu.run(commands).canvas == (Picture {
                strokes: gpu.canvas.strokes.push(stroke),
                ..gpu.canvas
            })
            &&& gpu.run(commands).screen == gpu.screen
        }
}

/// On every working backend, `commands` make the surface show exactly
/// what the canvas target holds, leave the canvas target alone, and leave
/// the backend ready for the next operation.
pub open spec fn shows(commands: Seq<Command>) -> bool {
    forall|gpu: Gpu|
        gpu.ready() ==> {
            &&& (#[trigger] gpu.run(commands)).ready()
            &&& gpu.run(commands).screen == gpu.canvas
            &&& gpu.run(commands).canvas == gpu.canvas
        }
}

/// On every working backend, `commands` delete every object, each once
/// and without fault, and leave nothing bound.
pub open spec fn releases_all(commands: Seq<Command>) -> bool {
    forall|gpu: Gpu|
        gpu.ready() ==> {
            &&& !(#[trigger] gpu.run(commands)).fault
            &&& gpu.run(commands).at_rest()
            &&& gpu.run(commands).live =~= Set::empty()
        }
}

/// On every backend, `commands` set the viewport to span `width` by
/// `height` pixels from the origin and do not touch the canvas target; a
/// backend that was ready for the next operation still is.
pub open spec fn fits_viewport(commands: Seq<Command>, width: i32, height: i32) -> bool {
    forall|gpu: Gpu|
        {
            &&& (#[trigger] gpu.run(commands)).viewport == Some((0i32, 0i32, width, height))
            &&& gpu.run(commands).canvas == gpu.canvas
            &&& gpu.ready() ==> gpu.run(commands).ready()
        }
}

/// The commands that set up blending.
pub fn set_gl_capabilities() -> (commands: Vec<Command>)
    ensures
        commands@ == capability_commands(),
{
    let mut commands = Vec::new();
    commands.push(Command::EnableBlend);
    commands.push(
        Command::BlendFunc {
            source: BlendFactor::SourceAlpha,
            destination: BlendFactor::OneMinusSourceAlpha,
        },
    );
    commands
}

/// The commands that clear the bound framebuffer to `color`.
pub fn clear(color: Rgba) -> (commands: Vec<Command>)
    ensures
        commands@ == clear_commands(color),
{
    let mut commands = Vec::new();
    commands.push(Command::ClearColor { color });
    commands.push(Command::Clear);
    commands
}

/// The commands that fit a surface of `width` by `height` pixels, and the
/// viewport, to a layout size of `client_width` by `client_height`.
pub fn resize(width: u32, height: u32, client_width: u32, client_height: u32) -> (commands: Vec<
    Command,
>)
    ensures
        commands@ == resize_commands(width, height, client_width, client_height),
        fits_viewport(commands@, client_width as i32, client_height as i32),
{
    proof {
        let ghost plan = resize_commands(width, height, client_width, client_height);
        assert forall|gpu: Gpu|
            {
                &&& (#[trigger] gpu.run(plan)).viewport == Some(
                    (0i32, 0i32, client_width as i32, client_height as i32),
                )
                &&& gpu.run(plan).canvas == gpu.canvas
                &&& gpu.ready() ==> gpu.run(plan).ready()
            } by {
            lemma_resize_sets_viewport(gpu, width, height, client_width, client_height);
        }
    }
    let mut commands = Vec::new();
    if width != client_width || height != client_height {
        commands.push(Command::SetSurfaceSize { width: client_width, height: client_height });
    }
    commands.push(
        Command::Viewport {
            x: 0,
            y: 0,
            width: client_width as i32,
            height: client_height as i32,
        },
    );
    commands
}

/// The commands that build one program from its two sources.
pub fn build_program(program: Resource, vertex: ShaderSource, fragment: ShaderSource) -> (commands:
    Vec<Command>)
    ensures
        commands@ == program_commands(program, vertex, fragment),
{
    let mut commands = compile_shader(Resource::VertexShader, ShaderStage::Vertex, vertex);
    let mut fragment_shader = compile_shader(
        Resource::FragmentShader,
        ShaderStage::Fragment,
        fragment,
    );
    commands.append(&mut fragment_shader);
    let mut linked = link_program(program, Resource::VertexShader, Resource::FragmentShader);
    commands.append(&mut linked);
    let mut discard = Vec::new();
    discard.push(Command::DeleteShader { shader: Resource::VertexShader });
    discard.push(Command::DeleteShader { shader: Resource::FragmentShader });
    commands.append(&mut discard);
    commands
}

/// The commands that build the stroke program and the composite program.
pub fn compile_shaders() -> (commands: Vec<Command>)
    ensures
        commands@ == shader_commands(),
{
    let mut commands = build_program(
        Resource::StrokeProgram,
        ShaderSource::BrushVertex,
        ShaderSource::BrushFragment,
    );
    let mut composite = build_program(
        Resource::CompositeProgram,
        ShaderSource::QuadVertex,
        ShaderSource::QuadFragment,
    );
    commands.append(&mut composite);
    commands
}

/// The stroke pass for a triangle of the given edge length around
/// `center`, in `color`, on a surface of `width` by `height` pixels.
pub fn draw_tri(edge: Ratio, center: NormalizedPoint, color: Rgba, width: i32, height: i32) -> (
    commands: Vec<Command>)
    ensures
        commands@ == stroke_commands(center, edge, color, width, height),
        paints(commands@, Stroke { center, edge, color, viewport: (0i32, 0i32, width, height) }),
{
    proof {
        assert forall|gpu: Gpu| gpu.ready() implies {
            &&& (#[trigger] gpu.run(
                stroke_commands(center, edge, color, width, height),
            )).ready()
            &&& gpu.run(stroke_commands(center, edge, color, width, height)).canvas == (Picture {
                strokes: gpu.canvas.strokes.push(
                    Stroke { center, edge, color, viewport: (0i32, 0i32, width, height) },
                ),
                ..gpu.canvas
            })
            &&& gpu.run(stroke_commands(center, edge, color, width, height)).screen == gpu.screen
        } by {
            lemma_stroke_paints(gpu, center, edge, color, width, height);
        }
    }
    let mut commands = Vec::new();
    commands.push(Command::CreateBuffer { buffer: Resource::VertexBuffer });
    commands.push(Command::BindBuffer { buffer: Some(Resource::VertexBuffer) });
    commands.push(Command::BufferTriangle { center, edge });
    commands.push(
        Command::VertexAttribPointer { index: 0, size: TRIANGLE_TRIPLE, stride: 0, offset: 0 },
    );
    commands.push(Command::EnableVertexAttribArray { index: 0 });
    commands.push(Command::UseProgram { program: Some(Resource::StrokeProgram) });
    commands.push(Command::UniformColor { program: Resource::StrokeProgram, color });
    commands.push(Command::BindFramebuffer { framebuffer: Some(Resource::CanvasFramebuffer) });
    commands.push(Command::Viewport { x: 0, y: 0, width, height });
    commands.push(Command::DrawTriangles { first: 0, count: TRIANGLE_VERTICES });
    commands.push(Command::Flush);
    commands.push(Command::DisableVertexAttribArray { index: 0 });
    commands.push(Command::BindFramebuffer { framebuffer: None });
    commands.push(Command::UseProgram { program: None });
    commands.push(Command::BindBuffer { buffer: None });
    commands.push(Command::DeleteBuffer { buffer: Resource::VertexBuffer });
    commands
}

/// The composite pass on a surface of `width` by `height` pixels.
pub fn draw_canvas(width: i32, height: i32) -> (commands: Vec<Command>)
    ensures
        commands@ == composite_commands(width, height),
        shows(commands@),
{
    proof {
        assert forall|gpu: Gpu| gpu.ready() implies {
            &&& (#[trigger] gpu.run(composite_commands(width, height))).ready()
            &&& gpu.run(composite_commands(width, height)).screen == gpu.canvas
            &&& gpu.run(composite_commands(width, height)).canvas == gpu.canvas
        } by {
            lemma_composite_shows(gpu, width, height);
        }
    }
    let mut commands = Vec::new();
    commands.push(Command::CreateBuffer { buffer: Resource::VertexBuffer });
    commands.push(Command::BindBuffer { buffer: Some(Resource::VertexBuffer) });
    commands.push(Command::BufferQuad);
    commands.push(
        Command::VertexAttribPointer {
            index: 0,
            size: QUAD_PAIR,
            stride: QUAD_STRIDE_BYTES,
            offset: 0,
        },
    );
    commands.push(Command::EnableVertexAttribArray { index: 0 });
    commands.push(
        Command::VertexAttribPointer {
            index: 1,
            size: QUAD_PAIR,
            stride: QUAD_STRIDE_BYTES,
            offset: QUAD_TEXCOORD_OFFSET,
        },
    );
    commands.push(Command::EnableVertexAttribArray { index: 1 });
    commands.push(Command::UseProgram { program: Some(Resource::CompositeProgram) });
    commands.push(Command::BindFramebuffer { framebuffer: None });
    commands.push(Command::ClearColor { color: TRANSPARENT });
    commands.push(Command::Clear);
    commands.push(Command::Viewport { x: 0, y: 0, width, height });
    commands.push(Command::BindTexture { texture: Some(Resource::CanvasTexture) });
    commands.push(Command::DrawTriangles { first: 0, count: QUAD_VERTICES as i32 });
    commands.push(Command::Flush);
    commands.push(Command::DisableVertexAttribArray { index: 0 });
    commands.push(Command::DisableVertexAttribArray { index: 1 });
    commands.push(Command::BindTexture { texture: None });
    commands.push(Command::UseProgram { program: None });
    commands.push(Command::BindBuffer { buffer: None });
    commands.push(Command::DeleteBuffer { buffer: Resource::VertexBuffer });
    commands
}

/// Setting up blending switches it on with the two factors, and changes
/// nothing else.
pub proof fn lemma_capabilities_set(gpu: Gpu)
    ensures
        gpu.run(capability_commands()) == (Gpu {
            blending: true,
            blend: Some((BlendFactor::SourceAlpha, BlendFactor::OneMinusSourceAlpha)),
            ..gpu
        }),
{
    broadcast use lemma_run_nothing, lemma_run_push;

}

/// Resizing sets the viewport to the layout size and changes nothing
/// else where the surface has that size already. Where it has not, the
/// surface is given that size, which blanks what it shows until the next
/// composite pass; the canvas target is not touched either way.
pub proof fn lemma_resize_sets_viewport(
    gpu: Gpu,
    width: u32,
    height: u32,
    client_width: u32,
    client_height: u32,
)
    ensures
        gpu.run(resize_commands(width, height, client_width, client_height)) == (Gpu {
            viewport: Some((0i32, 0i32, client_width as i32, client_height as i32)),
            surface: if width != client_width || height != client_height {
                Some((client_width, client_height))
            } else {
                gpu.surface
            },
            screen: if width != client_width || height != client_height {
                Picture::blank(TRANSPARENT)
            } else {
                gpu.screen
            },
            ..gpu
        }),
{
    broadcast use lemma_run_nothing, lemma_run_push;

}

/// Clearing with the visible framebuffer bound blanks the surface to
/// `color`, and changes nothing else but the clear color.
pub proof fn lemma_clear_blanks_surface(gpu: Gpu, color: Rgba)
    requires
        gpu.framebuffer is None,
    ensures
        gpu.run(clear_commands(color)) == (Gpu {
            clear_color: color,
            screen: Picture::blank(color),
            ..gpu
        }),
{
    broadcast use lemma_run_nothing, lemma_run_push;

}

/// Building a program from sources of the right stages, where neither
/// it nor a shader exists, yields a usable program, leaves no shader
/// behind, and changes nothing else. The linked program outlives its
/// shaders.
#[verifier::rlimit(40)]
pub proof fn lemma_program_built(
    gpu: Gpu,
    program: Resource,
    vertex: ShaderSource,
    fragment: ShaderSource,
)
    requires
        !gpu.fault,
        gpu.no_shader_state(),
        program == Resource::StrokeProgram || program == Resource::CompositeProgram,
        vertex.stage() == ShaderStage::Vertex,
        fragment.stage() == ShaderStage::Fragment,
        !gpu.live.contains(program),
        !gpu.live.contains(Resource::VertexShader),
        !gpu.live.contains(Resource::FragmentShader),
    ensures
        gpu.run(program_commands(program, vertex, fragment)) == (Gpu {
            live: gpu.live.insert(program),
            linked: gpu.linked.insert(program),
            ..gpu
        }),
        gpu.run(program_commands(program, vertex, fragment)).usable(program),
{
    broadcast use lemma_run_nothing, lemma_run_push;

    let vs = compile_commands(Resource::VertexShader, ShaderStage::Vertex, vertex);
    let fs = compile_commands(Resource::FragmentShader, ShaderStage::Fragment, fragment);
    let link = link_commands(program, Resource::VertexShader, Resource::FragmentShader);
    let discard = Seq::empty().push(Command::DeleteShader { shader: Resource::VertexShader }).push(
        Command::DeleteShader { shader: Resource::FragmentShader },
    );
    lemma_run_join(gpu, vs + fs + link, discard);
    lemma_run_join(gpu, vs + fs, link);
    lemma_run_join(gpu, vs, fs);
    lemma_compile_creates(gpu, Resource::VertexShader, ShaderStage::Vertex, vertex);
    let g1 = gpu.run(vs);
    lemma_compile_creates(g1, Resource::FragmentShader, ShaderStage::Fragment, fragment);
    let g2 = g1.run(fs);
    lemma_link_creates(g2, program);
    let g3 = g2.run(link);
    let g4 = g3.run(discard);
    assert(g4.live =~= gpu.live.insert(program));
    assert(g4.sourced =~= gpu.sourced);
    assert(g4.compiled =~= gpu.compiled);
    assert(g4.attached =~= gpu.attached);
}

/// The stroke pass, run on a working engine's backend, adds exactly one
/// stroke to the canvas target: the triangle asked for, in the color
/// asked for, drawn through a viewport that spans the surface. It leaves the backend ready for the next operation, and
/// does not touch what the surface shows.
#[verifier::rlimit(40)]
pub proof fn lemma_stroke_paints(
    gpu: Gpu,
    center: NormalizedPoint,
    edge: Ratio,
    color: Rgba,
    width: i32,
    height: i32,
)
    requires
        gpu.ready(),
    ensures
        gpu.run(stroke_commands(center, edge, color, width, height)) == (Gpu {
            canvas: Picture {
                strokes: gpu.canvas.strokes.push(
                    Stroke { center, edge, color, viewport: (0i32, 0i32, width, height) },
                ),
                ..gpu.canvas
            },
            color,
            viewport: Some((0i32, 0i32, width, height)),
            vertices: None,
            ..gpu
        }),
        gpu.run(stroke_commands(center, edge, color, width, height)).ready(),
{
    broadcast use lemma_run_nothing, lemma_run_push;

    let after = gpu.run(stroke_commands(center, edge, color, width, height));
    assert(after.attributes =~= gpu.attributes);
    assert(after.live =~= gpu.live);
}

/// The composite pass, run on a working engine's backend, makes the
/// surface show exactly what the canvas target holds. It leaves the
/// backend ready for the next operation, and does not touch the canvas
/// target.
#[verifier::rlimit(40)]
pub proof fn lemma_composite_shows(gpu: Gpu, width: i32, height: i32)
    requires
        gpu.ready(),
    ensures
        gpu.run(composite_commands(width, height)) == (Gpu {
            screen: gpu.canvas,
            clear_color: TRANSPARENT,
            viewport: Some((0i32, 0i32, width, height)),
            vertices: None,
            ..gpu
        }),
        gpu.run(composite_commands(width, height)).ready(),
{
    broadcast use lemma_run_nothing, lemma_run_push;

    let after = gpu.run(composite_commands(width, height));
    assert(after.attributes =~= gpu.attributes);
    assert(after.live =~= gpu.live);
}

/// Tearing down a working engine's backend deletes every object, each
/// once and without fault, and leaves nothing bound. None of its commands
/// can fail.
#[verifier::rlimit(40)]
pub proof fn lemma_teardown_releases(gpu: Gpu)
    requires
        gpu.ready(),
    ensures
        !gpu.run(teardown_commands()).fault,
        gpu.run(teardown_commands()).at_rest(),
        gpu.run(teardown_commands()).live =~= Set::empty(),
        forall|at: int|
            0 <= at < teardown_commands().len() ==> !(#[trigger] teardown_commands()[at]).fallible(),
{
    broadcast use lemma_run_nothing, lemma_run_push;

    let programs = Seq::empty().push(
        Command::DeleteProgram { program: Resource::StrokeProgram },
    ).push(Command::DeleteProgram { program: Resource::CompositeProgram });
    lemma_run_join(gpu, programs, CanvasTarget::destroy_commands());
    lemma_destroy_releases_target(gpu.run(programs));
}

} // verus!
