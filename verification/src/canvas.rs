//! The canvas target: the off-screen texture and framebuffer pair that
//! accumulates the strokes.

use vstd::prelude::*;
use crate::color::OPAQUE_WHITE;
use crate::command::Command;
use crate::command::Resource;
use crate::command::TextureParameter;
use crate::command::TextureSetting;
use crate::gpu::Gpu;
use crate::gpu::Picture;
use crate::gpu::lemma_run_nothing;
use crate::gpu::lemma_run_push;

verus! {

/// The canvas target. Texture and framebuffer share the one extent held
/// here, so they cannot disagree about it.
///
/// The value stands for the pair on the backend. It cannot be copied, and
/// [`CanvasTarget::destroy`] uses it up: a target is destroyed at most once.
#[derive(Debug)]
pub struct CanvasTarget {
    width: i32,
    height: i32,
}

impl CanvasTarget {
    /// The width of texture and framebuffer, in pixels.
    pub closed spec fn width(self) -> i32 {
        self.width
    }

    /// The height of texture and framebuffer, in pixels.
    pub closed spec fn height(self) -> i32 {
        self.height
    }

    /// The commands that create a canvas target of the given extent:
    /// allocate an RGBA texture with 8 bits per channel, sampled linearly
    /// when minified and clamped to its edge on both axes; attach it to a
    /// new framebuffer; clear that framebuffer to opaque white; then
    /// unbind both.
    pub open spec fn create_commands(width: i32, height: i32) -> Seq<Command> {
        Seq::empty()
            .push(Command::CreateTexture { texture: Resource::CanvasTexture })
            .push(Command::BindTexture { texture: Some(Resource::CanvasTexture) })
            .push(Command::TexImage { width, height })
            .push(Command::TexParameter {
                parameter: TextureParameter::MinFilter,
                value: TextureSetting::Linear,
            })
            .push(Command::TexParameter {
                parameter: TextureParameter::WrapS,
                value: TextureSetting::ClampToEdge,
            })
            .push(Command::TexParameter {
                parameter: TextureParameter::WrapT,
                value: TextureSetting::ClampToEdge,
            })
            .push(Command::CreateFramebuffer { framebuffer: Resource::CanvasFramebuffer })
            .push(Command::BindFramebuffer { framebuffer: Some(Resource::CanvasFramebuffer) })
            .push(Command::AttachTexture { texture: Resource::CanvasTexture })
            .push(Command::Viewport { x: 0, y: 0, width, height })
            .push(Command::ClearColor { color: OPAQUE_WHITE })
            .push(Command::Clear)
            .push(Command::BindFramebuffer { framebuffer: None })
            .push(Command::BindTexture { texture: None })
    }

    /// The commands that destroy the canvas target: delete the framebuffer,
    /// then the texture.
    pub open spec fn destroy_commands() -> Seq<Command> {
        Seq::empty()
            .push(Command::DeleteFramebuffer { framebuffer: Resource::CanvasFramebuffer })
            .push(Command::DeleteTexture { texture: Resource::CanvasTexture })
    }

    /// Wherever there is no canvas target yet, `commands` build a
    /// complete one of the given extent, cleared to opaque white, and
    /// leave neither a texture nor a framebuffer bound. Of what the
    /// caller had set they change only the viewport and the clear color.
    pub open spec fn builds(commands: Seq<Command>, width: i32, height: i32) -> bool {
        forall|gpu: Gpu|
            !gpu.fault && !gpu.live.contains(Resource::CanvasTexture) && !gpu.live.contains(
                Resource::CanvasFramebuffer,
            ) ==> #[trigger] gpu.run(commands) == (Gpu {
                live: gpu.live.insert(Resource::CanvasTexture).insert(Resource::CanvasFramebuffer),
                attachment: Some(Resource::CanvasTexture),
                storage: Some((width, height)),
                canvas: Picture::blank(OPAQUE_WHITE),
                viewport: Some((0i32, 0i32, width, height)),
                clear_color: OPAQUE_WHITE,
                framebuffer: None,
                texture: None,
                ..gpu
            })
    }

    /// Wherever a complete canvas target is not bound, `commands` delete
    /// both of its objects, without fault, and touch no other object.
    pub open spec fn releases(commands: Seq<Command>) -> bool {
        forall|gpu: Gpu|
            !gpu.fault && gpu.canvas_complete() && gpu.framebuffer != Some(
                Resource::CanvasFramebuffer,
            ) && gpu.texture != Some(Resource::CanvasTexture) ==> #[trigger] gpu.run(commands)
                == (Gpu {
                live: gpu.live.remove(Resource::CanvasFramebuffer).remove(Resource::CanvasTexture),
                attachment: None,
                storage: None,
                ..gpu
            })
    }

    /// Creates a canvas target of `width` by `height` pixels.
    pub fn create(width: i32, height: i32) -> (made: (CanvasTarget, Vec<Command>))
        ensures
            made.0.width() == width,
            made.0.height() == height,
            made.1@ == Self::create_commands(width, height),
            Self::builds(made.1@, width, height),
    {
        proof {
            assert forall|gpu: Gpu|
                !gpu.fault && !gpu.live.contains(Resource::CanvasTexture) && !gpu.live.contains(
                    Resource::CanvasFramebuffer,
                ) implies #[trigger] gpu.run(Self::create_commands(width, height)) == (Gpu {
                live: gpu.live.insert(Resource::CanvasTexture).insert(Resource::CanvasFramebuffer),
                attachment: Some(Resource::CanvasTexture),
                storage: Some((width, height)),
                canvas: Picture::blank(OPAQUE_WHITE),
                viewport: Some((0i32, 0i32, width, height)),
                clear_color: OPAQUE_WHITE,
                framebuffer: None,
                texture: None,
                ..gpu
            }) by {
                lemma_create_builds_target(gpu, width, height);
            }
        }
        let mut commands = Vec::new();
        commands.push(Command::CreateTexture { texture: Resource::CanvasTexture });
        commands.push(Command::BindTexture { texture: Some(Resource::CanvasTexture) });
        commands.push(Command::TexImage { width, height });
        commands.push(
            Command::TexParameter {
                parameter: TextureParameter::MinFilter,
                value: TextureSetting::Linear,
            },
        );
        commands.push(
            Command::TexParameter {
                parameter: TextureParameter::WrapS,
                value: TextureSetting::ClampToEdge,
            },
        );
        commands.push(
            Command::TexParameter {
                parameter: TextureParameter::WrapT,
                value: TextureSetting::ClampToEdge,
            },
        );
        commands.push(Command::CreateFramebuffer { framebuffer: Resource::CanvasFramebuffer });
        commands.push(Command::BindFramebuffer { framebuffer: Some(Resource::CanvasFramebuffer) });
        commands.push(Command::AttachTexture { texture: Resource::CanvasTexture });
        commands.push(Command::Viewport { x: 0, y: 0, width, height });
        commands.push(Command::ClearColor { color: OPAQUE_WHITE });
        commands.push(Command::Clear);
        commands.push(Command::BindFramebuffer { framebuffer: None });
        commands.push(Command::BindTexture { texture: None });
        (CanvasTarget { width, height }, commands)
    }

    /// The extent of the target, width first.
    pub fn extent(&self) -> (extent: (i32, i32))
        ensures
            extent == (self.width(), self.height()),
    {
        (self.width, self.height)
    }

    /// Destroys the canvas target, releasing both of its objects.
    pub fn destroy(self) -> (commands: Vec<Command>)
        ensures
            commands@ == Self::destroy_commands(),
            Self::releases(commands@),
    {
        proof {
            assert forall|gpu: Gpu|
                !gpu.fault && gpu.canvas_complete() && gpu.framebuffer != Some(
                    Resource::CanvasFramebuffer,
                ) && gpu.texture != Some(Resource::CanvasTexture) implies #[trigger] gpu.run(
                Self::destroy_commands(),
            ) == (Gpu {
                live: gpu.live.remove(Resource::CanvasFramebuffer).remove(Resource::CanvasTexture),
                attachment: None,
                storage: None,
                ..gpu
            }) by {
                lemma_destroy_releases_target(gpu);
            }
        }
        let mut commands = Vec::new();
        commands.push(Command::DeleteFramebuffer { framebuffer: Resource::CanvasFramebuffer });
        commands.push(Command::DeleteTexture { texture: Resource::CanvasTexture });
        commands
    }
}

/// Creating the canvas target where there is none yields a complete
/// target of the extent asked for, cleared to opaque white, and leaves
/// neither a texture nor a framebuffer bound, whatever was bound before.
/// Besides that it touches only the viewport and the clear color.
#[verifier::rlimit(40)]
pub proof fn lemma_create_builds_target(gpu: Gpu, width: i32, height: i32)
    requires
        !gpu.fault,
        !gpu.live.contains(Resource::CanvasTexture),
        !gpu.live.contains(Resource::CanvasFramebuffer),
    ensures
        gpu.run(CanvasTarget::create_commands(width, height)) == (Gpu {
            live: gpu.live.insert(Resource::CanvasTexture).insert(Resource::CanvasFramebuffer),
            attachment: Some(Resource::CanvasTexture),
            storage: Some((width, height)),
            canvas: Picture::blank(OPAQUE_WHITE),
            viewport: Some((0i32, 0i32, width, height)),
            clear_color: OPAQUE_WHITE,
            framebuffer: None,
            texture: None,
            ..gpu
        }),
        gpu.run(CanvasTarget::create_commands(width, height)).canvas_complete(),
{
    broadcast use lemma_run_nothing, lemma_run_push;
}

/// Destroying a complete canvas target that is not bound removes both of
/// its objects, without fault, and touches nothing else that exists.
pub proof fn lemma_destroy_releases_target(gpu: Gpu)
    requires
        !gpu.fault,
        gpu.canvas_complete(),
        gpu.framebuffer != Some(Resource::CanvasFramebuffer),
        gpu.texture != Some(Resource::CanvasTexture),
    ensures
        gpu.run(CanvasTarget::destroy_commands()) == (Gpu {
            live: gpu.live.remove(Resource::CanvasFramebuffer).remove(Resource::CanvasTexture),
            attachment: None,
            storage: None,
            ..gpu
        }),
{
    broadcast use lemma_run_nothing, lemma_run_push;
}

} // verus!
