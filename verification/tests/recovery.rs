use paint::command::{Command, Resource, ResourceKind, ShaderStage};
use paint::engine::Engine;
use paint::error::{ColorFault, EngineError, Listener};
use paint::pass::draw_canvas;
use paint::recovery::recover;
use paint::report::diagnose;

fn unbind_all() -> Vec<Command> {
    vec![
        Command::BindFramebuffer { framebuffer: None },
        Command::BindTexture { texture: None },
        Command::BindBuffer { buffer: None },
        Command::UseProgram { program: None },
    ]
}

#[test]
fn recover_after_nothing_only_unbinds() {
    let plan = draw_canvas(100, 100);
    assert_eq!(recover(&plan, 0), unbind_all());
    assert_eq!(recover(&Vec::new(), 0), unbind_all());
    assert_eq!(recover(&Vec::new(), 5), unbind_all());
}

#[test]
fn recover_mid_pass_disables_and_deletes() {
    let plan = draw_canvas(100, 100);
    // stopped before the draw: buffer created, both attribute arrays on
    let mut expected = unbind_all();
    expected.push(Command::DisableVertexAttribArray { index: 0 });
    expected.push(Command::DisableVertexAttribArray { index: 1 });
    expected.push(Command::DeleteBuffer { buffer: Resource::VertexBuffer });
    assert_eq!(recover(&plan, 13), expected);
    // stopped after the first attribute array only
    let mut expected = unbind_all();
    expected.push(Command::DisableVertexAttribArray { index: 0 });
    expected.push(Command::DeleteBuffer { buffer: Resource::VertexBuffer });
    assert_eq!(recover(&plan, 5), expected);
}

#[test]
fn recover_after_a_whole_pass_deletes_nothing() {
    let plan = draw_canvas(100, 100);
    let mut expected = unbind_all();
    expected.push(Command::DisableVertexAttribArray { index: 0 });
    expected.push(Command::DisableVertexAttribArray { index: 1 });
    assert_eq!(recover(&plan, plan.len()), expected);
    assert_eq!(recover(&plan, plan.len() + 1), expected);
    assert_eq!(recover(&plan, usize::MAX), expected);
}

#[test]
fn recover_releases_in_order() {
    let plan = vec![
        Command::CreateTexture { texture: Resource::CanvasTexture },
        Command::CreateProgram { program: Resource::CompositeProgram },
        Command::CreateFramebuffer { framebuffer: Resource::CanvasFramebuffer },
        Command::CreateShader { shader: Resource::FragmentShader, stage: ShaderStage::Fragment },
        Command::CreateProgram { program: Resource::StrokeProgram },
        Command::CreateShader { shader: Resource::VertexShader, stage: ShaderStage::Vertex },
        Command::CreateBuffer { buffer: Resource::VertexBuffer },
    ];
    let mut expected = unbind_all();
    expected.extend(vec![
        Command::DeleteBuffer { buffer: Resource::VertexBuffer },
        Command::DeleteShader { shader: Resource::VertexShader },
        Command::DeleteShader { shader: Resource::FragmentShader },
        Command::DeleteProgram { program: Resource::StrokeProgram },
        Command::DeleteProgram { program: Resource::CompositeProgram },
        Command::DeleteFramebuffer { framebuffer: Resource::CanvasFramebuffer },
        Command::DeleteTexture { texture: Resource::CanvasTexture },
    ]);
    assert_eq!(recover(&plan, 7), expected);
}

#[test]
fn recover_follows_the_last_mention() {
    let create = Command::CreateBuffer { buffer: Resource::VertexBuffer };
    let delete = Command::DeleteBuffer { buffer: Resource::VertexBuffer };
    let plan = vec![create, delete, create, delete, create];
    let mut held = unbind_all();
    held.push(delete);
    assert_eq!(recover(&plan, 1), held);
    assert_eq!(recover(&plan, 2), unbind_all());
    assert_eq!(recover(&plan, 3), held);
    assert_eq!(recover(&plan, 4), unbind_all());
    assert_eq!(recover(&plan, 5), held);
}

#[test]
fn recover_init_stopped_at_second_program() {
    let plan = Engine::init_commands(300, 150, 640, 480);
    let at = plan
        .iter()
        .position(|c| *c == Command::LinkProgram { program: Resource::CompositeProgram })
        .unwrap();
    let mut expected = unbind_all();
    expected.extend(vec![
        Command::DeleteShader { shader: Resource::VertexShader },
        Command::DeleteShader { shader: Resource::FragmentShader },
        Command::DeleteProgram { program: Resource::StrokeProgram },
        Command::DeleteProgram { program: Resource::CompositeProgram },
        Command::DeleteFramebuffer { framebuffer: Resource::CanvasFramebuffer },
        Command::DeleteTexture { texture: Resource::CanvasTexture },
    ]);
    assert_eq!(recover(&plan, at), expected);
}

#[test]
fn diagnose_resource_failures() {
    let plan = vec![
        Command::CreateTexture { texture: Resource::CanvasTexture },
        Command::TexImage { width: 4, height: 4 },
        Command::CreateFramebuffer { framebuffer: Resource::CanvasFramebuffer },
        Command::CreateBuffer { buffer: Resource::VertexBuffer },
    ];
    assert_eq!(diagnose(&plan, 0, None), EngineError::Resource(ResourceKind::Texture));
    assert_eq!(diagnose(&plan, 1, None), EngineError::Resource(ResourceKind::Texture));
    assert_eq!(diagnose(&plan, 2, None), EngineError::Resource(ResourceKind::Framebuffer));
    assert_eq!(diagnose(&plan, 3, None), EngineError::Resource(ResourceKind::Buffer));
    assert_eq!(
        diagnose(&plan, 3, Some(String::from("ignored"))),
        EngineError::Resource(ResourceKind::Buffer)
    );
}

#[test]
fn diagnose_shader_failures_keep_the_log() {
    let plan = vec![
        Command::CreateShader { shader: Resource::VertexShader, stage: ShaderStage::Vertex },
        Command::CompileShader { shader: Resource::VertexShader },
        Command::CreateShader { shader: Resource::FragmentShader, stage: ShaderStage::Fragment },
        Command::CompileShader { shader: Resource::FragmentShader },
    ];
    assert_eq!(
        diagnose(&plan, 0, None),
        EngineError::Compile {
            stage: ShaderStage::Vertex,
            log: String::from("Unable to create shader object")
        }
    );
    assert_eq!(
        diagnose(&plan, 1, Some(String::from("ERROR: 0:3: 'foo' : undeclared identifier\n"))),
        EngineError::Compile {
            stage: ShaderStage::Vertex,
            log: String::from("ERROR: 0:3: 'foo' : undeclared identifier\n")
        }
    );
    assert_eq!(
        diagnose(&plan, 1, None),
        EngineError::Compile {
            stage: ShaderStage::Vertex,
            log: String::from("Unknown error creating shader")
        }
    );
    assert_eq!(
        diagnose(&plan, 2, Some(String::from("ignored"))),
        EngineError::Compile {
            stage: ShaderStage::Fragment,
            log: String::from("Unable to create shader object")
        }
    );
    assert_eq!(
        diagnose(&plan, 3, Some(String::new())),
        EngineError::Compile { stage: ShaderStage::Fragment, log: String::new() }
    );
}

#[test]
fn diagnose_program_failures_keep_the_log() {
    let plan = vec![
        Command::CreateProgram { program: Resource::StrokeProgram },
        Command::LinkProgram { program: Resource::StrokeProgram },
    ];
    assert_eq!(
        diagnose(&plan, 0, None),
        EngineError::Link { log: String::from("Unable to create shader object") }
    );
    assert_eq!(
        diagnose(&plan, 1, Some(String::from("varying mismatch"))),
        EngineError::Link { log: String::from("varying mismatch") }
    );
    assert_eq!(
        diagnose(&plan, 1, None),
        EngineError::Link { log: String::from("Unknown error creating program object") }
    );
}

#[test]
fn diagnose_anything_else_blames_the_context() {
    let plan = vec![
        Command::Flush,
        Command::CompileShader { shader: Resource::CanvasTexture },
        Command::Clear,
    ];
    assert_eq!(diagnose(&plan, 0, None), EngineError::Context);
    assert_eq!(diagnose(&plan, 1, Some(String::from("log"))), EngineError::Context);
    assert_eq!(diagnose(&plan, 2, None), EngineError::Context);
    assert_eq!(diagnose(&plan, 3, None), EngineError::Context);
    assert_eq!(diagnose(&plan, usize::MAX, None), EngineError::Context);
}

#[test]
fn error_messages() {
    assert_eq!(
        EngineError::Configuration(ColorFault::Length).message(),
        "Invalid color length"
    );
    assert_eq!(
        EngineError::Configuration(ColorFault::Channel).message(),
        "Invalid color channel"
    );
    assert_eq!(EngineError::Context.message(), "WebGl2 not supported");
    assert_eq!(
        EngineError::Compile { stage: ShaderStage::Vertex, log: String::from("bad\nline") }
            .message(),
        "Unable to compile vertex shader:\nbad\nline"
    );
    assert_eq!(
        EngineError::Compile { stage: ShaderStage::Fragment, log: String::from("x") }.message(),
        "Unable to compile fragment shader:\nx"
    );
    assert_eq!(
        EngineError::Link { log: String::from("y") }.message(),
        "Unable to link shader program:\ny"
    );
    assert_eq!(
        EngineError::Resource(ResourceKind::Texture).message(),
        "Failed to create texture"
    );
    assert_eq!(
        EngineError::Resource(ResourceKind::Framebuffer).message(),
        "Failed to create framebuffer"
    );
    assert_eq!(EngineError::Resource(ResourceKind::Buffer).message(), "Failed to create buffer");
    assert_eq!(EngineError::Resource(ResourceKind::Shader).message(), "Failed to create shader");
    assert_eq!(
        EngineError::Resource(ResourceKind::Program).message(),
        "Failed to create program"
    );
    assert_eq!(
        EngineError::Listener(Listener::Resize).message(),
        "Error adding window onresize listener"
    );
    assert_eq!(
        EngineError::Listener(Listener::PointerMove).message(),
        "Error adding mousemove listener"
    );
    assert_eq!(
        EngineError::Listener(Listener::PointerDown).message(),
        "Error adding mousedown listener"
    );
    assert_eq!(
        EngineError::Listener(Listener::PointerUp).message(),
        "Error adding mouseup listener"
    );
}
