//! The paint engine: what the host's notifications do to the engine's
//! state, and which commands they ask of the backend.

use vstd::prelude::*;
use crate::brush::Brush;
use crate::brush::color_fault;
use crate::canvas::CanvasTarget;
use crate::canvas::lemma_create_builds_target;
use crate::color::DEFAULT_COLOR;
use crate::color::OPAQUE_WHITE;
use crate::color::Rgba;
use crate::color::is_color;
use crate::command::Command;
use crate::command::Resource;
use crate::command::ShaderSource;
use crate::error::EngineError;
use crate::geometry::NormalizedPoint;
use crate::geometry::Ratio;
use crate::geometry::normalized;
use crate::gpu::Gpu;
use crate::gpu::Picture;
use crate::gpu::Stroke;
use crate::gpu::lemma_fault_stays;
use crate::gpu::lemma_run_join;
use crate::pass::capability_commands;
use crate::pass::clear;
use crate::pass::clear_commands;
use crate::pass::compile_shaders;
use crate::pass::composite_commands;
use crate::pass::draw_canvas;
use crate::pass::draw_tri;
use crate::pass::fits_viewport;
use crate::pass::lemma_capabilities_set;
use crate::pass::lemma_clear_blanks_surface;
use crate::pass::lemma_composite_shows;
use crate::pass::lemma_program_built;
use crate::pass::lemma_resize_sets_viewport;
use crate::pass::lemma_stroke_paints;
use crate::pass::lemma_teardown_releases;
use crate::pass::paints;
use crate::pass::program_commands;
use crate::pass::releases_all;
use crate::pass::resize;
use crate::pass::resize_commands;
use crate::pass::set_gl_capabilities;
use crate::pass::shader_commands;
use crate::pass::shows;
use crate::pass::stroke_commands;
use crate::pass::teardown_commands;
use crate::pointer_state::PointerEvent;
use crate::pointer_state::PointerState;
use crate::recovery::carried_out;
use crate::recovery::lemma_recovery_tidies;
use crate::recovery::lemma_unbinding_runs;
use crate::recovery::recover;
use crate::recovery::recovery;
use crate::recovery::unbinding;
use crate::report::Failure;
use crate::report::Report;
use crate::report::command_at;
use crate::report::diagnose;
use crate::report::explains;

verus! {

/// The edge length of a stroke's triangle in normalized units is one
/// tenth: this is the numerator.
pub const STROKE_EDGE_NUM: i64 = 1;

/// The denominator of the edge length of a stroke's triangle.
pub const STROKE_EDGE_DEN: i64 = 10;

/// The edge length of a stroke's triangle.
pub open spec fn stroke_edge() -> Ratio {
    Ratio { num: STROKE_EDGE_NUM, den: STROKE_EDGE_DEN }
}

/// What an engine is at a given moment.
pub struct EngineState {
    /// The width of the surface in device pixels.
    pub width: u32,
    /// The height of the surface in device pixels.
    pub height: u32,
    /// Whether the pointer is held down.
    pub pressed: bool,
    /// The color of the brush.
    pub color: Rgba,
    /// The extent of the canvas target, width first; `None` once the
    /// engine has been torn down.
    pub canvas: Option<(i32, i32)>,
}

impl EngineState {
    /// The engine has not been torn down.
    pub open spec fn is_live(self) -> bool {
        self.canvas is Some
    }

    /// The brush holds a color: four channels, each from 0 to 1. This is
    /// so for a new engine, and no operation changes it.
    pub open spec fn wf(self) -> bool {
        is_color(self.color@)
    }

    /// The state of a new engine on a surface whose layout size is
    /// `client_width` by `client_height`.
    pub open spec fn initial(client_width: u32, client_height: u32) -> EngineState {
        EngineState {
            width: client_width,
            height: client_height,
            pressed: false,
            color: DEFAULT_COLOR,
            canvas: Some((client_width as i32, client_height as i32)),
        }
    }

    /// The stroke pass for a pointer sample at the pixel `(x, y)`.
    pub open spec fn stroke_at(self, x: i32, y: i32) -> Seq<Command> {
        stroke_commands(
            normalized(x, y, self.width, self.height),
            stroke_edge(),
            self.color,
            self.width as i32,
            self.height as i32,
        )
    }

    /// The stroke that a pointer sample at the pixel `(x, y)` paints: a
    /// triangle of the fixed edge length around the normalized position
    /// of the pixel, in the brush color, through a viewport that spans
    /// the surface.
    pub open spec fn stroke_for(self, x: i32, y: i32) -> Stroke {
        Stroke {
            center: normalized(x, y, self.width, self.height),
            edge: stroke_edge(),
            color: self.color,
            viewport: (0i32, 0i32, self.width as i32, self.height as i32),
        }
    }

    /// The composite pass.
    pub open spec fn composite(self) -> Seq<Command> {
        composite_commands(self.width as i32, self.height as i32)
    }

    /// The commands of a teardown: all of them for an engine that is
    /// live, none for one that has been torn down already.
    pub open spec fn teardown_plan(self) -> Seq<Command> {
        if self.is_live() {
            teardown_commands()
        } else {
            Seq::empty()
        }
    }

    /// The commands of a resize to the layout size `client_width` by
    /// `client_height`: none for an engine that has been torn down.
    pub open spec fn resize_plan(self, client_width: u32, client_height: u32) -> Seq<Command> {
        if self.is_live() {
            resize_commands(self.width, self.height, client_width, client_height)
        } else {
            Seq::empty()
        }
    }

    /// This state after a resize to the layout size `client_width` by
    /// `client_height`. The canvas target keeps the extent it was created
    /// with.
    pub open spec fn resized(self, client_width: u32, client_height: u32) -> EngineState {
        if self.is_live() {
            EngineState { width: client_width, height: client_height, ..self }
        } else {
            self
        }
    }
}

/// The commands that initialize the backend for a surface of `width` by
/// `height` pixels whose layout size is `client_width` by
/// `client_height`: set up blending; fit surface and viewport to the
/// layout size; create the canvas target, as large as the surface then
/// is; build both programs; clear the visible framebuffer to opaque
/// white.
pub open spec fn init_plan(width: u32, height: u32, client_width: u32, client_height: u32) -> Seq<
    Command,
> {
    capability_commands() + resize_commands(width, height, client_width, client_height)
        + CanvasTarget::create_commands(client_width as i32, client_height as i32)
        + shader_commands() + clear_commands(OPAQUE_WHITE)
}

/// On every backend that nothing has touched, `commands` set up all that
/// a working engine needs for a surface laid out at `client_width` by
/// `client_height`: blending, a viewport that spans the layout size, a
/// complete canvas target of that size, both programs, and a canvas
/// target and a surface that are blank, opaque white.
pub open spec fn initializes(commands: Seq<Command>, client_width: u32, client_height: u32) -> bool {
    forall|gpu: Gpu|
        gpu.fresh() ==> {
            &&& (#[trigger] gpu.run(commands)).ready()
            &&& gpu.run(commands).viewport == Some(
                (0i32, 0i32, client_width as i32, client_height as i32),
            )
            &&& gpu.run(commands).storage == Some((client_width as i32, client_height as i32))
            &&& gpu.run(commands).canvas == Picture::blank(OPAQUE_WHITE)
            &&& gpu.run(commands).screen == Picture::blank(OPAQUE_WHITE)
        }
}

/// On every backend that nothing had touched before `done` ran on it,
/// `cleanup` leaves no object behind, nothing bound and nothing gone
/// wrong.
pub open spec fn leaves_nothing(done: Seq<Command>, cleanup: Seq<Command>) -> bool {
    forall|gpu: Gpu|
        gpu.fresh() ==> {
            &&& !(#[trigger] gpu.run(done + cleanup)).fault
            &&& gpu.run(done + cleanup).at_rest()
            &&& gpu.run(done + cleanup).live =~= Set::empty()
        }
}

/// What the host reports to its diagnostic sink when a stroke pass fails.
pub const STROKE_FAILED: &'static str = "engine.draw_tri error";

/// What the host reports to its diagnostic sink when a composite pass
/// fails.
pub const COMPOSITE_FAILED: &'static str = "engine.draw_canvas error";

/// What one pointer sample asks of the backend: the stroke pass, and the
/// composite pass that is to follow it at once, whether or not the stroke
/// pass went through.
#[derive(Debug, PartialEq, Eq)]
pub struct Frame {
    pub stroke: Vec<Command>,
    pub composite: Vec<Command>,
}

/// The paint engine.
#[derive(Debug)]
pub struct Engine {
    width: u32,
    height: u32,
    pointer_state: PointerState,
    brush: Brush,
    canvas: Option<CanvasTarget>,
}

impl View for Engine {
    type V = EngineState;

    closed spec fn view(&self) -> EngineState {
        EngineState {
            width: self.width,
            height: self.height,
            pressed: self.pointer_state.is_pressed(),
            color: self.brush.color,
            canvas: match self.canvas {
                Some(target) => Some((target.width(), target.height())),
                None => None,
            },
        }
    }
}

/// The initialization commands, together with the canvas target that
/// they create.
fn plan_init(width: u32, height: u32, client_width: u32, client_height: u32) -> (planned: (
    CanvasTarget,
    Vec<Command>,
))
    ensures
        planned.0.width() == client_width as i32,
        planned.0.height() == client_height as i32,
        planned.1@ == init_plan(width, height, client_width, client_height),
        initializes(planned.1@, client_width, client_height),
{
    proof {
        let ghost plan = init_plan(width, height, client_width, client_height);
        assert forall|gpu: Gpu| gpu.fresh() implies {
            &&& (#[trigger] gpu.run(plan)).ready()
            &&& gpu.run(plan).viewport == Some(
                (0i32, 0i32, client_width as i32, client_height as i32),
            )
            &&& gpu.run(plan).storage == Some((client_width as i32, client_height as i32))
            &&& gpu.run(plan).canvas == Picture::blank(OPAQUE_WHITE)
            &&& gpu.run(plan).screen == Picture::blank(OPAQUE_WHITE)
        } by {
            lemma_init_makes_ready(gpu, width, height, client_width, client_height);
        }
    }
    let mut commands = set_gl_capabilities();
    let mut fit = resize(width, height, client_width, client_height);
    commands.append(&mut fit);
    let (target, mut create) = CanvasTarget::create(client_width as i32, client_height as i32);
    commands.append(&mut create);
    let mut programs = compile_shaders();
    commands.append(&mut programs);
    let mut blank = clear(OPAQUE_WHITE);
    commands.append(&mut blank);
    (target, commands)
}

impl Engine {
    /// The commands that the host has to carry out before it asks for an
    /// engine with [`Engine::new`], for a surface of `width` by `height`
    /// pixels whose layout size is `client_width` by `client_height`.
    pub fn init_commands(width: u32, height: u32, client_width: u32, client_height: u32) -> (commands:
        Vec<Command>)
        ensures
            commands@ == init_plan(width, height, client_width, client_height),
            initializes(commands@, client_width, client_height),
    {
        plan_init(width, height, client_width, client_height).1
    }

    /// The engine for a surface on which the host has run the
    /// initialization commands, given the host's report of that.
    ///
    /// Where every command was carried out, the engine is returned: the
    /// pointer released, the brush a medium gray, surface and canvas
    /// target of the layout size. Where one failed there is no engine:
    /// the failure says why, and holds the commands that undo what the
    /// host had carried out.
    pub fn new(
        width: u32,
        height: u32,
        client_width: u32,
        client_height: u32,
        report: Report,
    ) -> (made: Result<Engine, Failure>)
        ensures
            report is Completed ==> made is Ok,
            made matches Ok(engine) ==> report is Completed && engine@ == EngineState::initial(
                client_width,
                client_height,
            ) && engine@.wf(),
            made matches Err(failure) ==> report matches Report::Failed { at, log } && explains(
                failure.error,
                command_at(init_plan(width, height, client_width, client_height), at),
                log,
            ) && failure.cleanup@ == recovery(
                carried_out(init_plan(width, height, client_width, client_height), at),
            ) && leaves_nothing(
                carried_out(init_plan(width, height, client_width, client_height), at),
                failure.cleanup@,
            ),
    {
        let (target, plan) = plan_init(width, height, client_width, client_height);
        match report {
            Report::Completed => {
                let brush = Brush { color: DEFAULT_COLOR };
                Ok(
                    Engine {
                        width: client_width,
                        height: client_height,
                        pointer_state: PointerState::new(),
                        brush,
                        canvas: Some(target),
                    },
                )
            },
            Report::Failed { at, log } => {
                proof {
                    let ghost done = carried_out(
                        init_plan(width, height, client_width, client_height),
                        at,
                    );
                    assert forall|gpu: Gpu| gpu.fresh() implies {
                        &&& !(#[trigger] gpu.run(done + recovery(done))).fault
                        &&& gpu.run(done + recovery(done)).at_rest()
                        &&& gpu.run(done + recovery(done)).live =~= Set::empty()
                    } by {
                        lemma_failed_init_leaves_nothing(
                            gpu,
                            width,
                            height,
                            client_width,
                            client_height,
                            at,
                        );
                    }
                }
                let cleanup = recover(&plan, at);
                let error = diagnose(&plan, at, log);
                Err(Failure { error, cleanup })
            },
        }
    }

    /// Replaces the brush by one of the given color, which must have
    /// exactly four channels, each from 0 to 1. On any other input the
    /// brush stays as it is.
    pub fn change_color(&mut self, color: &[u32]) -> (changed: Result<(), EngineError>)
        ensures
            is_color(color@) ==> changed is Ok,
            changed is Ok ==> is_color(color@) && final(self)@.color@ == color@ && final(self)@
                == (EngineState { color: final(self)@.color, ..old(self)@ }),
            changed matches Err(error) ==> error == EngineError::Configuration(
                color_fault(color@),
            ) && final(self)@ == old(self)@,
            old(self)@.wf() ==> final(self)@.wf(),
    {
        match Brush::new(color) {
            Ok(brush) => {
                self.brush = brush;
                Ok(())
            },
            Err(error) => Err(error),
        }
    }

    /// The size of the surface in device pixels, width first.
    pub fn get_canvas_size(&self) -> (size: (u32, u32))
        ensures
            size == (self@.width, self@.height),
    {
        (self.width, self.height)
    }

    /// The brush.
    pub fn brush(&self) -> (brush: Brush)
        ensures
            brush.color == self@.color,
    {
        self.brush
    }

    /// Whether the pointer is held down.
    pub fn pressed(&self) -> (pressed: bool)
        ensures
            pressed == self@.pressed,
    {
        self.pointer_state.pressed()
    }

    /// Whether the engine still owns its objects on the backend.
    pub fn is_live(&self) -> (live: bool)
        ensures
            live == self@.is_live(),
    {
        self.canvas.is_some()
    }

    /// Takes note of a new layout size of the surface: the surface is
    /// resized if its size differs, and the viewport is set in any case.
    /// The canvas target is not reallocated. An engine that has been torn
    /// down does nothing.
    pub fn resize_canvas(&mut self, client_width: u32, client_height: u32) -> (commands: Vec<
        Command,
    >)
        ensures
            commands@ == old(self)@.resize_plan(client_width, client_height),
            final(self)@ == old(self)@.resized(client_width, client_height),
            old(self)@.is_live() ==> fits_viewport(
                commands@,
                client_width as i32,
                client_height as i32,
            ),
    {
        if self.canvas.is_none() {
            return Vec::new();
        }
        let commands = resize(self.width, self.height, client_width, client_height);
        self.width = client_width;
        self.height = client_height;
        commands
    }

    /// The frame for a pointer sample at the pixel `(x, y)`.
    fn frame(&self, x: i32, y: i32) -> (frame: Frame)
        ensures
            frame.stroke@ == self@.stroke_at(x, y),
            frame.composite@ == self@.composite(),
            paints(frame.stroke@, self@.stroke_for(x, y)),
            shows(frame.composite@),
    {
        let center = NormalizedPoint::from_pixel(x, y, self.width, self.height);
        let edge = Ratio { num: STROKE_EDGE_NUM, den: STROKE_EDGE_DEN };
        let stroke = draw_tri(
            edge,
            center,
            self.brush.color,
            self.width as i32,
            self.height as i32,
        );
        let composite = draw_canvas(self.width as i32, self.height as i32);
        Frame { stroke, composite }
    }

    /// Takes one event of the pointer, which is at the pixel `(x, y)`.
    ///
    /// The pointer is pressed after a down, released after an up, and as
    /// it was after a move. A down, and a move of the pressed pointer,
    /// paint one stroke at the pixel and show it: the frame returned is
    /// for the host to carry out. An up paints nothing, nor does a move of
    /// the released pointer, nor an engine that has been torn down.
    pub fn on_pointer(&mut self, event: PointerEvent, x: i32, y: i32) -> (frame: Option<Frame>)
        ensures
            final(self)@ == (EngineState {
                pressed: event.leaves_pressed(old(self)@.pressed),
                ..old(self)@
            }),
            frame is Some <==> event.paints(old(self)@.pressed) && old(self)@.is_live(),
            frame matches Some(f) ==> f.stroke@ == old(self)@.stroke_at(x, y) && f.composite@
                == old(self)@.composite() && paints(f.stroke@, old(self)@.stroke_for(x, y))
                && shows(f.composite@),
    {
        let paints = match event {
            PointerEvent::Down => {
                self.pointer_state.set_pressed(true);
                true
            },
            PointerEvent::Move => self.pointer_state.pressed(),
            PointerEvent::Up => {
                self.pointer_state.set_pressed(false);
                false
            },
        };
        if paints && self.canvas.is_some() {
            Some(self.frame(x, y))
        } else {
            None
        }
    }

    /// The pointer went down at the pixel `(x, y)`: it is pressed from now
    /// on, and one stroke is painted there and shown. An engine that has
    /// been torn down paints nothing.
    pub fn on_pointer_down(&mut self, x: i32, y: i32) -> (frame: Option<Frame>)
        ensures
            final(self)@ == (EngineState { pressed: true, ..old(self)@ }),
            frame is Some <==> old(self)@.is_live(),
            frame matches Some(f) ==> f.stroke@ == old(self)@.stroke_at(x, y) && f.composite@
                == old(self)@.composite() && paints(f.stroke@, old(self)@.stroke_for(x, y))
                && shows(f.composite@),
    {
        self.on_pointer(PointerEvent::Down, x, y)
    }

    /// The pointer moved to the pixel `(x, y)`: if it is pressed, one
    /// stroke is painted there and shown; if not, nothing happens. An
    /// engine that has been torn down paints nothing.
    pub fn on_pointer_move(&mut self, x: i32, y: i32) -> (frame: Option<Frame>)
        ensures
            final(self)@ == old(self)@,
            frame is Some <==> old(self)@.pressed && old(self)@.is_live(),
            frame matches Some(f) ==> f.stroke@ == old(self)@.stroke_at(x, y) && f.composite@
                == old(self)@.composite() && paints(f.stroke@, old(self)@.stroke_for(x, y))
                && shows(f.composite@),
    {
        self.on_pointer(PointerEvent::Move, x, y)
    }

    /// The pointer went up: it is released from now on. Nothing is
    /// painted.
    pub fn on_pointer_up(&mut self)
        ensures
            final(self)@ == (EngineState { pressed: false, ..old(self)@ }),
    {
        let _ = self.on_pointer(PointerEvent::Up, 0, 0);
    }

    /// Releases what the engine owns on the backend: both programs and
    /// the canvas target. A second teardown finds nothing left to
    /// release and asks nothing of the backend.
    pub fn teardown(&mut self) -> (commands: Vec<Command>)
        ensures
            commands@ == old(self)@.teardown_plan(),
            final(self)@ == (EngineState { canvas: None, ..old(self)@ }),
            old(self)@.is_live() ==> releases_all(commands@),
            !old(self)@.is_live() ==> commands@ == Seq::<Command>::empty(),
    {
        proof {
            assert forall|gpu: Gpu| gpu.ready() implies {
                &&& !(#[trigger] gpu.run(teardown_commands())).fault
                &&& gpu.run(teardown_commands()).at_rest()
                &&& gpu.run(teardown_commands()).live =~= Set::empty()
            } by {
                lemma_teardown_releases(gpu);
            }
        }
        match self.canvas.take() {
            Some(target) => {
                let mut commands = Vec::new();
                commands.push(Command::DeleteProgram { program: Resource::StrokeProgram });
                commands.push(
                    Command::DeleteProgram { program: Resource::CompositeProgram },
                );
                let mut release = target.destroy();
                commands.append(&mut release);
                commands
            },
            None => Vec::new(),
        }
    }
}

/// A new engine's brush holds a color.
pub proof fn lemma_initial_state_is_wf(client_width: u32, client_height: u32)
    ensures
        EngineState::initial(client_width, client_height).wf(),
{
}

/// Initialization, carried out in full on a backend that nothing has
/// touched, leaves it ready for a working engine: blending is on with the
/// two factors, the viewport spans the layout size, the canvas target is
/// of the layout size, and both the canvas target and the visible
/// surface are blank, opaque white.
#[verifier::rlimit(40)]
pub proof fn lemma_init_makes_ready(
    gpu: Gpu,
    width: u32,
    height: u32,
    client_width: u32,
    client_height: u32,
)
    requires
        gpu.fresh(),
    ensures
        ({
            let after = gpu.run(init_plan(width, height, client_width, client_height));
            &&& after.ready()
            &&& after.blends()
            &&& after.viewport == Some((0i32, 0i32, client_width as i32, client_height as i32))
            &&& width != client_width || height != client_height ==> after.surface == Some(
                (client_width, client_height),
            )
            &&& after.storage == Some((client_width as i32, client_height as i32))
            &&& after.canvas == Picture::blank(OPAQUE_WHITE)
            &&& after.screen == Picture::blank(OPAQUE_WHITE)
        }),
{
    let capabilities = capability_commands();
    let fit = resize_commands(width, height, client_width, client_height);
    let create = CanvasTarget::create_commands(client_width as i32, client_height as i32);
    let stroke = program_commands(
        Resource::StrokeProgram,
        ShaderSource::BrushVertex,
        ShaderSource::BrushFragment,
    );
    let composite = program_commands(
        Resource::CompositeProgram,
        ShaderSource::QuadVertex,
        ShaderSource::QuadFragment,
    );
    let blank = clear_commands(OPAQUE_WHITE);
    lemma_run_join(gpu, capabilities + fit + create + shader_commands(), blank);
    lemma_run_join(gpu, capabilities + fit + create, shader_commands());
    lemma_run_join(gpu, capabilities + fit, create);
    lemma_run_join(gpu, capabilities, fit);
    lemma_capabilities_set(gpu);
    let g1 = gpu.run(capabilities);
    lemma_resize_sets_viewport(g1, width, height, client_width, client_height);
    let g2 = g1.run(fit);
    lemma_create_builds_target(g2, client_width as i32, client_height as i32);
    let g3 = g2.run(create);
    lemma_run_join(g3, stroke, composite);
    lemma_program_built(
        g3,
        Resource::StrokeProgram,
        ShaderSource::BrushVertex,
        ShaderSource::BrushFragment,
    );
    let g4 = g3.run(stroke);
    lemma_program_built(
        g4,
        Resource::CompositeProgram,
        ShaderSource::QuadVertex,
        ShaderSource::QuadFragment,
    );
    let g5 = g4.run(composite);
    lemma_clear_blanks_surface(g5, OPAQUE_WHITE);
    let g6 = g5.run(blank);
    assert(g6 == gpu.run(init_plan(width, height, client_width, client_height)));
}

/// A failed initialization leaves nothing behind. Wherever among its
/// commands the host was stopped, once it has also carried out the
/// cleanup that the failure holds, a backend that nothing had touched
/// before is again without any object, with nothing bound and nothing
/// gone wrong.
pub proof fn lemma_failed_init_leaves_nothing(
    gpu: Gpu,
    width: u32,
    height: u32,
    client_width: u32,
    client_height: u32,
    at: usize,
)
    requires
        gpu.fresh(),
    ensures
        ({
            let done = carried_out(init_plan(width, height, client_width, client_height), at);
            let after = gpu.run(done + recovery(done));
            &&& !after.fault
            &&& after.at_rest()
            &&& after.live =~= Set::empty()
        }),
{
    let plan = init_plan(width, height, client_width, client_height);
    let done = carried_out(plan, at);
    lemma_init_makes_ready(gpu, width, height, client_width, client_height);
    if at <= plan.len() {
        lemma_fault_stays(gpu, plan, at as int);
    }
    lemma_recovery_tidies(gpu, done);
}

/// A color that was accepted is the color of the next stroke, channel
/// for channel. In a live engine whose brush holds `color`, as it does
/// after a successful change to that color, the stroke pass for any
/// pointer sample adds one stroke to the canvas target, at the
/// normalized position of the sample, and that stroke has `color`.
pub proof fn lemma_brush_color_is_painted(
    state: EngineState,
    color: Seq<u32>,
    gpu: Gpu,
    x: i32,
    y: i32,
)
    requires
        state.color@ == color,
        gpu.ready(),
    ensures
        ({
            let after = gpu.run(state.stroke_at(x, y));
            &&& after.canvas.strokes.len() == gpu.canvas.strokes.len() + 1
            &&& after.canvas.strokes.drop_last() == gpu.canvas.strokes
            &&& after.canvas.strokes.last().color@ == color
            &&& after.canvas.strokes.last().center == normalized(x, y, state.width, state.height)
            &&& after.canvas.strokes.last().edge == stroke_edge()
            &&& after.canvas.strokes.last().viewport == (
                0i32,
                0i32,
                state.width as i32,
                state.height as i32,
            )
        }),
{
    lemma_stroke_paints(
        gpu,
        normalized(x, y, state.width, state.height),
        stroke_edge(),
        state.color,
        state.width as i32,
        state.height as i32,
    );
    let after = gpu.run(state.stroke_at(x, y));
    assert(after.canvas.strokes.drop_last() =~= gpu.canvas.strokes);
}

/// After a frame the surface shows all that was painted. Once stroke
/// pass and composite pass of one pointer sample have both run, the
/// canvas target holds one stroke more than before, and the surface
/// shows exactly what the canvas target holds; the backend is ready for
/// the next operation.
pub proof fn lemma_frame_shows_canvas(state: EngineState, gpu: Gpu, x: i32, y: i32)
    requires
        gpu.ready(),
    ensures
        ({
            let after = gpu.run(state.stroke_at(x, y) + state.composite());
            &&& after.ready()
            &&& after.screen == after.canvas
            &&& after.canvas.strokes == gpu.canvas.strokes.push(
                Stroke {
                    center: normalized(x, y, state.width, state.height),
                    edge: stroke_edge(),
                    color: state.color,
                    viewport: (0i32, 0i32, state.width as i32, state.height as i32),
                },
            )
        }),
{
    lemma_run_join(gpu, state.stroke_at(x, y), state.composite());
    lemma_stroke_paints(
        gpu,
        normalized(x, y, state.width, state.height),
        stroke_edge(),
        state.color,
        state.width as i32,
        state.height as i32,
    );
    lemma_composite_shows(
        gpu.run(state.stroke_at(x, y)),
        state.width as i32,
        state.height as i32,
    );
}

/// A pass can fail only at its first command, the creation of its
/// vertex buffer.
pub proof fn lemma_pass_fails_only_at_start(state: EngineState, x: i32, y: i32, at: int)
    ensures
        0 <= at < state.stroke_at(x, y).len() && state.stroke_at(x, y)[at].fallible() ==> at == 0,
        0 <= at < state.composite().len() && state.composite()[at].fallible() ==> at == 0,
{
}

/// A pass that failed at its first command is as good as one that never
/// began: after the cleanup a backend that was at rest is exactly as it
/// was. The stroke is skipped; the engine goes on.
pub proof fn lemma_failed_pass_is_skipped(gpu: Gpu, pass: Seq<Command>)
    requires
        gpu.at_rest(),
    ensures
        ({
            let done = carried_out(pass, 0);
            gpu.run(done + recovery(done)) == gpu
        }),
{
    let done = carried_out(pass, 0);
    assert(done =~= Seq::empty());
    assert(recovery(done) =~= unbinding());
    assert(done + recovery(done) =~= unbinding());
    lemma_unbinding_runs(gpu);
}

/// Tearing down twice is tearing down once. The second teardown asks
/// nothing of the backend, so that after both every object of a working
/// engine has been deleted exactly once, without fault.
pub proof fn lemma_teardown_twice(state: EngineState, gpu: Gpu)
    requires
        state.is_live(),
        gpu.ready(),
    ensures
        ({
            let once = EngineState { canvas: None, ..state };
            let twice = EngineState { canvas: None, ..once };
            let after = gpu.run(state.teardown_plan() + once.teardown_plan());
            &&& once.teardown_plan() == Seq::<Command>::empty()
            &&& twice == once
            &&& !after.fault
            &&& after.at_rest()
            &&& after.live =~= Set::empty()
        }),
{
    let once = EngineState { canvas: None, ..state };
    assert(state.teardown_plan() + once.teardown_plan() =~= teardown_commands());
    lemma_teardown_releases(gpu);
}

} // verus!
