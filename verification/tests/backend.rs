use std::collections::BTreeSet;

use paint::color::{OPAQUE_WHITE, TRANSPARENT};
use paint::command::{BlendFactor, Command, Resource, ResourceKind};
use paint::engine::{Engine, Frame};
use paint::error::EngineError;
use paint::geometry::{NormalizedPoint, Ratio};
use paint::pointer_state::PointerEvent::{Down, Move, Up};
use paint::recovery::recover;
use paint::report::{diagnose, Report};

/// What a vertex buffer holds.
#[derive(Clone, Copy, Debug, PartialEq)]
enum Uploaded {
    Triangle(NormalizedPoint, Ratio),
    Quad,
}

/// A stand-in for the rendering context that checks every command.
#[derive(Debug, Default)]
struct Backend {
    surface: Option<(u32, u32)>,
    blending: bool,
    blend: Option<(BlendFactor, BlendFactor)>,
    viewport: Option<(i32, i32, i32, i32)>,
    clear_color: [u32; 4],
    framebuffer: Option<Resource>,
    texture: Option<Resource>,
    buffer: Option<Resource>,
    program: Option<Resource>,
    attributes: BTreeSet<u32>,
    live: Vec<Resource>,
    sourced: Vec<Resource>,
    compiled: Vec<Resource>,
    attached: Vec<(Resource, Resource)>,
    linked: Vec<Resource>,
    attachment: Option<Resource>,
    storage: Option<(i32, i32)>,
    vertices: Option<Uploaded>,
    color: [u32; 4],
    canvas_background: [u32; 4],
    canvas: Vec<(NormalizedPoint, Ratio, [u32; 4], (i32, i32, i32, i32))>,
    screen_background: [u32; 4],
    screen: Vec<(NormalizedPoint, Ratio, [u32; 4], (i32, i32, i32, i32))>,
    deleted: Vec<Resource>,
    flushes: usize,
}

impl Backend {
    fn has(&self, resource: Resource, kind: ResourceKind) -> bool {
        self.live.contains(&resource) && resource.kind_of() == kind
    }

    fn create(&mut self, resource: Resource, kind: ResourceKind) {
        assert_eq!(resource.kind_of(), kind);
        assert!(!self.live.contains(&resource), "{:?} created twice", resource);
        self.live.push(resource);
    }

    fn delete(&mut self, resource: Resource, kind: ResourceKind) {
        assert!(self.has(resource, kind), "{:?} deleted but not there", resource);
        self.live.retain(|r| *r != resource);
        self.deleted.push(resource);
    }

    fn apply(&mut self, command: Command) {
        match command {
            Command::SetSurfaceSize { width, height } => {
                self.surface = Some((width, height));
                self.screen_background = TRANSPARENT;
                self.screen.clear();
            }
            Command::EnableBlend => self.blending = true,
            Command::BlendFunc { source, destination } => self.blend = Some((source, destination)),
            Command::Viewport { x, y, width, height } => {
                self.viewport = Some((x, y, width, height))
            }
            Command::ClearColor { color } => self.clear_color = color,
            Command::Clear => match self.framebuffer {
                None => {
                    self.screen_background = self.clear_color;
                    self.screen.clear();
                }
                Some(_) => {
                    assert_eq!(self.attachment, Some(Resource::CanvasTexture));
                    assert!(self.storage.is_some());
                    self.canvas_background = self.clear_color;
                    self.canvas.clear();
                }
            },
            Command::Flush => self.flushes += 1,
            Command::CreateTexture { texture } => self.create(texture, ResourceKind::Texture),
            Command::BindTexture { texture } => {
                if let Some(t) = texture {
                    assert!(self.has(t, ResourceKind::Texture));
                }
                self.texture = texture;
            }
            Command::TexImage { width, height } => {
                assert!(self.texture.is_some());
                self.storage = Some((width, height));
                self.canvas_background = TRANSPARENT;
                self.canvas.clear();
            }
            Command::TexParameter { .. } => assert!(self.texture.is_some()),
            Command::DeleteTexture { texture } => {
                assert_ne!(self.texture, Some(texture));
                self.delete(texture, ResourceKind::Texture);
                if self.attachment == Some(texture) {
                    self.attachment = None;
                }
                self.storage = None;
            }
            Command::CreateFramebuffer { framebuffer } => {
                self.create(framebuffer, ResourceKind::Framebuffer)
            }
            Command::BindFramebuffer { framebuffer } => {
                if let Some(f) = framebuffer {
                    assert!(self.has(f, ResourceKind::Framebuffer));
                }
                self.framebuffer = framebuffer;
            }
            Command::AttachTexture { texture } => {
                assert!(self.framebuffer.is_some());
                assert!(self.has(texture, ResourceKind::Texture));
                self.attachment = Some(texture);
            }
            Command::DeleteFramebuffer { framebuffer } => {
                assert_ne!(self.framebuffer, Some(framebuffer));
                self.delete(framebuffer, ResourceKind::Framebuffer);
                self.attachment = None;
            }
            Command::CreateBuffer { buffer } => self.create(buffer, ResourceKind::Buffer),
            Command::BindBuffer { buffer } => {
                if let Some(b) = buffer {
                    assert!(self.has(b, ResourceKind::Buffer));
                }
                self.buffer = buffer;
            }
            Command::BufferTriangle { center, edge } => {
                assert!(self.buffer.is_some());
                self.vertices = Some(Uploaded::Triangle(center, edge));
            }
            Command::BufferQuad => {
                assert!(self.buffer.is_some());
                self.vertices = Some(Uploaded::Quad);
            }
            Command::VertexAttribPointer { .. } => assert!(self.buffer.is_some()),
            Command::EnableVertexAttribArray { index } => {
                self.attributes.insert(index);
            }
            Command::DisableVertexAttribArray { index } => {
                self.attributes.remove(&index);
            }
            Command::DeleteBuffer { buffer } => {
                assert_ne!(self.buffer, Some(buffer));
                self.delete(buffer, ResourceKind::Buffer);
                self.vertices = None;
            }
            Command::CreateShader { shader, stage } => {
                assert_eq!(shader.stage_of(), Some(stage));
                self.create(shader, ResourceKind::Shader);
            }
            Command::SetShaderSource { shader, source } => {
                assert!(self.has(shader, ResourceKind::Shader));
                assert_eq!(shader.stage_of(), Some(source.stage_of()));
                assert!(!source.text().is_empty());
                self.sourced.push(shader);
                self.compiled.retain(|s| *s != shader);
            }
            Command::CompileShader { shader } => {
                assert!(self.has(shader, ResourceKind::Shader));
                assert!(self.sourced.contains(&shader));
                self.compiled.push(shader);
            }
            Command::DeleteShader { shader } => {
                self.delete(shader, ResourceKind::Shader);
                self.sourced.retain(|s| *s != shader);
                self.compiled.retain(|s| *s != shader);
                self.attached.retain(|pair| pair.1 != shader);
            }
            Command::CreateProgram { program } => self.create(program, ResourceKind::Program),
            Command::AttachShader { program, shader } => {
                assert!(self.has(program, ResourceKind::Program));
                assert!(self.has(shader, ResourceKind::Shader));
                self.attached.push((program, shader));
            }
            Command::LinkProgram { program } => {
                assert!(self.has(program, ResourceKind::Program));
                for shader in [Resource::VertexShader, Resource::FragmentShader] {
                    assert!(self.attached.contains(&(program, shader)));
                    assert!(self.compiled.contains(&shader));
                }
                self.linked.push(program);
            }
            Command::UseProgram { program } => {
                if let Some(p) = program {
                    assert!(self.has(p, ResourceKind::Program));
                    assert!(self.linked.contains(&p));
                }
                self.program = program;
            }
            Command::UniformColor { program, color } => {
                assert_eq!(self.program, Some(program));
                if program == Resource::StrokeProgram {
                    self.color = color;
                }
            }
            Command::DeleteProgram { program } => {
                assert_ne!(self.program, Some(program));
                self.delete(program, ResourceKind::Program);
                self.linked.retain(|p| *p != program);
                self.attached.retain(|pair| pair.0 != program);
            }
            Command::DrawTriangles { first, count } => {
                assert_eq!(first, 0);
                match self.program {
                    Some(Resource::StrokeProgram) => {
                        assert_eq!(self.framebuffer, Some(Resource::CanvasFramebuffer));
                        assert_eq!(self.attachment, Some(Resource::CanvasTexture));
                        assert!(self.storage.is_some());
                        assert!(self.attributes.contains(&0));
                        assert_eq!(count, 3);
                        match self.vertices {
                            Some(Uploaded::Triangle(center, edge)) => {
                                self.canvas.push((center, edge, self.color, self.viewport.unwrap()))
                            }
                            other => panic!("stroke drawn from {:?}", other),
                        }
                    }
                    Some(Resource::CompositeProgram) => {
                        assert_eq!(self.framebuffer, None);
                        assert_eq!(self.texture, Some(Resource::CanvasTexture));
                        assert!(self.storage.is_some());
                        assert_eq!(self.vertices, Some(Uploaded::Quad));
                        assert!(self.attributes.contains(&0));
                        assert!(self.attributes.contains(&1));
                        assert_eq!(count, 6);
                        self.screen_background = self.canvas_background;
                        self.screen = self.canvas.clone();
                    }
                    other => panic!("draw with program {:?}", other),
                }
            }
        }
    }

    /// Carries the commands out in order; the command at `refuse`, if any,
    /// fails and ends the run.
    fn run(&mut self, commands: &[Command], refuse: Option<usize>) -> Report {
        for (index, command) in commands.iter().enumerate() {
            if refuse == Some(index) {
                assert!(command.can_fail(), "{:?} cannot fail", command);
                return Report::Failed { at: index, log: Some(format!("refused #{}", index)) };
            }
            self.apply(*command);
        }
        Report::Completed
    }

    fn at_rest(&self) -> bool {
        self.framebuffer.is_none()
            && self.texture.is_none()
            && self.buffer.is_none()
            && self.program.is_none()
            && self.attributes.is_empty()
    }

    fn owns(&self, resources: &[Resource]) -> bool {
        let mut live = self.live.clone();
        let mut expected = resources.to_vec();
        live.sort_by_key(|r| format!("{:?}", r));
        expected.sort_by_key(|r| format!("{:?}", r));
        live == expected
    }
}

const ENGINE_OBJECTS: [Resource; 4] = [
    Resource::CanvasTexture,
    Resource::CanvasFramebuffer,
    Resource::StrokeProgram,
    Resource::CompositeProgram,
];

fn started(backend: &mut Backend, width: u32, height: u32) -> Engine {
    let plan = Engine::init_commands(300, 150, width, height);
    let report = backend.run(&plan, None);
    Engine::new(300, 150, width, height, report).unwrap()
}

/// Runs one pass the way a host does: on a failure, clean up and go on.
fn run_pass(backend: &mut Backend, pass: &[Command], refuse: Option<usize>) -> bool {
    match backend.run(pass, refuse) {
        Report::Completed => true,
        Report::Failed { at, .. } => {
            let cleanup = recover(&pass.to_vec(), at);
            assert_eq!(backend.run(&cleanup, None), Report::Completed);
            false
        }
    }
}

fn show(backend: &mut Backend, frame: &Frame) {
    assert!(run_pass(backend, &frame.stroke, None));
    assert!(run_pass(backend, &frame.composite, None));
}

#[test]
fn initialization_leaves_the_backend_ready() {
    let mut backend = Backend::default();
    let engine = started(&mut backend, 640, 480);
    assert!(engine.is_live());
    assert!(backend.at_rest());
    assert!(backend.owns(&ENGINE_OBJECTS));
    assert!(backend.blending);
    assert_eq!(
        backend.blend,
        Some((BlendFactor::SourceAlpha, BlendFactor::OneMinusSourceAlpha))
    );
    assert_eq!(backend.surface, Some((640, 480)));
    assert_eq!(backend.viewport, Some((0, 0, 640, 480)));
    assert_eq!(backend.storage, Some((640, 480)));
    assert_eq!(backend.attachment, Some(Resource::CanvasTexture));
    assert_eq!(backend.canvas_background, OPAQUE_WHITE);
    assert_eq!(backend.screen_background, OPAQUE_WHITE);
    assert!(backend.canvas.is_empty());
    assert!(backend.screen.is_empty());
    assert_eq!(backend.deleted.len(), 4);
    assert!(backend.sourced.is_empty());
    assert!(backend.compiled.is_empty());
    assert!(backend.attached.is_empty());
    assert_eq!(backend.linked, vec![Resource::StrokeProgram, Resource::CompositeProgram]);
}

#[test]
fn every_frame_shows_the_whole_canvas() {
    let mut backend = Backend::default();
    let mut engine = started(&mut backend, 640, 480);
    let samples = [(0, 0), (320, 240), (640, 480), (17, 401), (-3, 900)];
    let mut painted = 0;
    let frame = engine.on_pointer_down(samples[0].0, samples[0].1).unwrap();
    show(&mut backend, &frame);
    painted += 1;
    assert_eq!(backend.canvas.len(), painted);
    assert_eq!(backend.screen, backend.canvas);
    for (x, y) in &samples[1..] {
        let frame = engine.on_pointer_move(*x, *y).unwrap();
        show(&mut backend, &frame);
        painted += 1;
        assert_eq!(backend.canvas.len(), painted);
        assert_eq!(backend.screen, backend.canvas);
        assert_eq!(backend.screen_background, OPAQUE_WHITE);
        assert!(backend.at_rest());
        assert!(backend.owns(&ENGINE_OBJECTS));
        let last = backend.canvas.last().unwrap();
        assert_eq!(last.0, NormalizedPoint::from_pixel(*x, *y, 640, 480));
        assert_eq!(last.1, Ratio { num: 1, den: 10 });
        assert_eq!(last.3, (0, 0, 640, 480));
    }
    assert_eq!(backend.flushes, 2 * samples.len());
}

#[test]
fn strokes_carry_the_brush_color_of_their_time() {
    let mut backend = Backend::default();
    let mut engine = started(&mut backend, 100, 100);
    let red: Vec<u32> = [1.0f32, 0.0, 0.0, 1.0].iter().map(|c| c.to_bits()).collect();
    let faint: Vec<u32> = [0.0f32, 0.5, 1.0, 0.125].iter().map(|c| c.to_bits()).collect();
    let frame = engine.on_pointer_down(1, 1).unwrap();
    show(&mut backend, &frame);
    engine.change_color(&red).unwrap();
    let frame = engine.on_pointer_move(2, 2).unwrap();
    show(&mut backend, &frame);
    assert!(engine.change_color(&red[..3]).is_err());
    let frame = engine.on_pointer_move(3, 3).unwrap();
    show(&mut backend, &frame);
    engine.change_color(&faint).unwrap();
    let frame = engine.on_pointer_move(4, 4).unwrap();
    show(&mut backend, &frame);
    let colors: Vec<Vec<f32>> = backend
        .screen
        .iter()
        .map(|stroke| stroke.2.iter().map(|c| f32::from_bits(*c)).collect())
        .collect();
    assert_eq!(
        colors,
        vec![
            vec![0.5, 0.5, 0.5, 1.0],
            vec![1.0, 0.0, 0.0, 1.0],
            vec![1.0, 0.0, 0.0, 1.0],
            vec![0.0, 0.5, 1.0, 0.125],
        ]
    );
}

#[test]
fn a_failed_stroke_is_skipped_and_the_engine_goes_on() {
    let mut backend = Backend::default();
    let mut engine = started(&mut backend, 100, 100);
    let frame = engine.on_pointer_down(10, 10).unwrap();
    show(&mut backend, &frame);
    // the buffer of the next stroke cannot be created
    let frame = engine.on_pointer_move(20, 20).unwrap();
    assert!(!run_pass(&mut backend, &frame.stroke, Some(0)));
    assert!(run_pass(&mut backend, &frame.composite, None));
    assert_eq!(backend.canvas.len(), 1);
    assert_eq!(backend.screen, backend.canvas);
    assert!(backend.at_rest());
    assert!(backend.owns(&ENGINE_OBJECTS));
    assert_eq!(
        diagnose(&frame.stroke, 0, None),
        EngineError::Resource(ResourceKind::Buffer)
    );
    // the composite pass of the one after fails instead
    let frame = engine.on_pointer_move(30, 30).unwrap();
    assert!(run_pass(&mut backend, &frame.stroke, None));
    assert!(!run_pass(&mut backend, &frame.composite, Some(0)));
    assert_eq!(backend.canvas.len(), 2);
    assert_eq!(backend.screen.len(), 1);
    assert!(backend.at_rest());
    assert!(backend.owns(&ENGINE_OBJECTS));
    // and the next frame shows everything again
    let frame = engine.on_pointer_move(40, 40).unwrap();
    show(&mut backend, &frame);
    assert_eq!(backend.canvas.len(), 3);
    assert_eq!(backend.screen, backend.canvas);
}

#[test]
fn initialization_that_fails_anywhere_leaves_nothing() {
    let plan = Engine::init_commands(300, 150, 64, 64);
    let mut tried = 0;
    for (index, command) in plan.iter().enumerate() {
        if !command.can_fail() {
            continue;
        }
        tried += 1;
        let mut backend = Backend::default();
        let report = backend.run(&plan, Some(index));
        assert_eq!(
            report,
            Report::Failed { at: index, log: Some(format!("refused #{}", index)) }
        );
        let failure = Engine::new(300, 150, 64, 64, report).unwrap_err();
        assert_ne!(failure.error, EngineError::Context);
        assert_eq!(backend.run(&failure.cleanup, None), Report::Completed);
        assert!(backend.at_rest(), "stopped at {}", index);
        assert!(backend.owns(&[]), "stopped at {}: {:?}", index, backend.live);
    }
    // texture, storage, framebuffer, and create/compile/link of two programs
    assert_eq!(tried, 3 + 2 * 6);
}

#[test]
fn initialization_stopped_at_any_command_can_be_undone() {
    let plan = Engine::init_commands(64, 64, 64, 64);
    for done in 0..=plan.len() {
        let mut backend = Backend::default();
        assert_eq!(backend.run(&plan[..done], None), Report::Completed);
        let cleanup = recover(&plan, done);
        assert_eq!(backend.run(&cleanup, None), Report::Completed);
        assert!(backend.at_rest(), "stopped after {}", done);
        assert!(backend.owns(&[]), "stopped after {}: {:?}", done, backend.live);
    }
}

#[test]
fn teardown_releases_each_object_once() {
    let mut backend = Backend::default();
    let mut engine = started(&mut backend, 64, 64);
    let frame = engine.on_pointer_down(1, 1).unwrap();
    show(&mut backend, &frame);
    backend.deleted.clear();
    let first = engine.teardown();
    assert_eq!(backend.run(&first, None), Report::Completed);
    let second = engine.teardown();
    assert_eq!(backend.run(&second, None), Report::Completed);
    assert!(backend.owns(&[]));
    assert!(backend.at_rest());
    let mut deleted = backend.deleted.clone();
    deleted.sort_by_key(|r| format!("{:?}", r));
    let mut expected = ENGINE_OBJECTS.to_vec();
    expected.sort_by_key(|r| format!("{:?}", r));
    assert_eq!(deleted, expected);
}

#[test]
fn resize_moves_the_viewport_and_keeps_the_canvas_target() {
    let mut backend = Backend::default();
    let mut engine = started(&mut backend, 640, 480);
    let frame = engine.on_pointer_down(1, 1).unwrap();
    show(&mut backend, &frame);
    let commands = engine.resize_canvas(800, 600);
    assert_eq!(backend.run(&commands, None), Report::Completed);
    assert_eq!(backend.surface, Some((800, 600)));
    assert_eq!(backend.viewport, Some((0, 0, 800, 600)));
    assert_eq!(backend.storage, Some((640, 480)));
    assert_eq!(backend.canvas.len(), 1);
    assert_eq!(backend.canvas_background, OPAQUE_WHITE);
    assert!(backend.screen.is_empty());
    assert_eq!(backend.screen_background, TRANSPARENT);
    let frame = engine.on_pointer_move(400, 300).unwrap();
    show(&mut backend, &frame);
    assert_eq!(backend.canvas.len(), 2);
    assert_eq!(backend.screen, backend.canvas);
    assert_eq!(backend.viewport, Some((0, 0, 800, 600)));
    assert_eq!(
        backend.canvas[1].0,
        NormalizedPoint { x: Ratio { num: 0, den: 800 }, y: Ratio { num: 0, den: 600 } }
    );
}

#[test]
fn a_session_paints_one_stroke_per_painting_event() {
    let mut backend = Backend::default();
    let mut engine = started(&mut backend, 200, 100);
    let blue: Vec<u32> = [0.0f32, 0.0, 1.0, 1.0].iter().map(|c| c.to_bits()).collect();
    let events = [
        (Move, 1, 1),
        (Down, 2, 2),
        (Move, 3, 3),
        (Up, 4, 4),
        (Move, 5, 5),
        (Up, 6, 6),
        (Down, 7, 7),
        (Down, 8, 8),
        (Move, 9, 9),
    ];
    let mut expected = Vec::new();
    let mut pressed = false;
    for (index, (event, x, y)) in events.iter().enumerate() {
        if index == 3 {
            engine.change_color(&blue).unwrap();
        }
        if index == 6 {
            let commands = engine.resize_canvas(400, 300);
            assert_eq!(backend.run(&commands, None), Report::Completed);
        }
        let paints = match event {
            Down => true,
            Move => pressed,
            Up => false,
        };
        pressed = match event {
            Down => true,
            Move => pressed,
            Up => false,
        };
        let (width, height) = engine.get_canvas_size();
        let color = engine.brush().color;
        let frame = engine.on_pointer(*event, *x, *y);
        assert_eq!(frame.is_some(), paints, "event {}", index);
        if let Some(frame) = frame {
            show(&mut backend, &frame);
            expected.push((
                NormalizedPoint::from_pixel(*x, *y, width, height),
                Ratio { num: 1, den: 10 },
                color,
                (0, 0, width as i32, height as i32),
            ));
            assert_eq!(backend.screen, backend.canvas);
        }
        assert_eq!(backend.canvas, expected);
        assert!(backend.at_rest());
        assert!(backend.owns(&ENGINE_OBJECTS));
    }
    assert_eq!(expected.len(), 5);
    assert_eq!(expected[2].2.to_vec(), blue);
    assert_eq!(expected[4].3, (0, 0, 400, 300));
}
