//! What the host says after running a list of commands, and what the
//! engine makes of a failure.

use vstd::prelude::*;
use vstd::string::StringExecFns;
use crate::command::Command;
use crate::command::ResourceKind;
use crate::error::EngineError;

verus! {

/// The host's account of running a list of commands in order.
#[derive(Debug, PartialEq, Eq)]
pub enum Report {
    /// Every command was carried out.
    Completed,
    /// The commands before index `at` were carried out, the one at `at`
    /// failed, and none after it was tried. `log` is what the backend had
    /// to say about a shader that did not compile or a program that did
    /// not link, if it said anything.
    Failed { at: usize, log: Option<String> },
}

/// A failed operation: why it failed, and the commands that tidy up the
/// backend after it.
#[derive(Debug, PartialEq, Eq)]
pub struct Failure {
    pub error: EngineError,
    pub cleanup: Vec<Command>,
}

/// What the backend logged about a shader, or the text that stands in
/// where it logged nothing.
pub open spec fn shader_log(log: Option<String>) -> Seq<char> {
    match log {
        Some(text) => text@,
        None => "Unknown error creating shader"@,
    }
}

/// What the backend logged about a program, or the text that stands in
/// where it logged nothing.
pub open spec fn program_log(log: Option<String>) -> Seq<char> {
    match log {
        Some(text) => text@,
        None => "Unknown error creating program object"@,
    }
}

/// `error` is the error that the failure of `command` amounts to, given
/// what the backend logged.
///
/// A texture, framebuffer or buffer that cannot be created, and texture
/// storage that cannot be allocated, are resource errors. A shader that
/// cannot be created or does not compile is a compile error of its stage,
/// and a program that cannot be created or does not link is a link error;
/// both carry the backend's log unchanged, or a fixed text where there is
/// none. A failure of any other command, or of none, means that the
/// context does not do what the engine needs.
pub open spec fn explains(error: EngineError, command: Option<Command>, log: Option<String>) -> bool {
    match command {
        Some(Command::CreateTexture { texture }) => error == EngineError::Resource(
            ResourceKind::Texture,
        ),
        Some(Command::TexImage { width, height }) => error == EngineError::Resource(
            ResourceKind::Texture,
        ),
        Some(Command::CreateFramebuffer { framebuffer }) => error == EngineError::Resource(
            ResourceKind::Framebuffer,
        ),
        Some(Command::CreateBuffer { buffer }) => error == EngineError::Resource(
            ResourceKind::Buffer,
        ),
        Some(Command::CreateShader { shader, stage }) => {
            &&& error matches EngineError::Compile { stage: failed, log: text }
            &&& failed == stage
            &&& text@ == "Unable to create shader object"@
        },
        Some(Command::CompileShader { shader }) => match shader.stage() {
            Some(stage) => {
                &&& error matches EngineError::Compile { stage: failed, log: text }
                &&& failed == stage
                &&& text@ == shader_log(log)
            },
            None => error == EngineError::Context,
        },
        Some(Command::CreateProgram { program }) => {
            &&& error matches EngineError::Link { log: text }
            &&& text@ == "Unable to create shader object"@
        },
        Some(Command::LinkProgram { program }) => {
            &&& error matches EngineError::Link { log: text }
            &&& text@ == program_log(log)
        },
        _ => error == EngineError::Context,
    }
}

/// The command at index `at`, if there is one.
pub open spec fn command_at(commands: Seq<Command>, at: usize) -> Option<Command> {
    if at < commands.len() {
        Some(commands[at as int])
    } else {
        None
    }
}

/// The error that the failure of the command at index `at` of `plan`
/// amounts to, given what the backend logged about it.
pub fn diagnose(plan: &Vec<Command>, at: usize, log: Option<String>) -> (error: EngineError)
    ensures
        explains(error, command_at(plan@, at), log),
{
    if at >= plan.len() {
        return EngineError::Context;
    }
    match plan[at] {
        Command::CreateTexture { texture } => EngineError::Resource(ResourceKind::Texture),
        Command::TexImage { width, height } => EngineError::Resource(ResourceKind::Texture),
        Command::CreateFramebuffer { framebuffer } => EngineError::Resource(
            ResourceKind::Framebuffer,
        ),
        Command::CreateBuffer { buffer } => EngineError::Resource(ResourceKind::Buffer),
        Command::CreateShader { shader, stage } => EngineError::Compile {
            stage,
            log: String::from_str("Unable to create shader object"),
        },
        Command::CompileShader { shader } => match shader.stage_of() {
            Some(stage) => EngineError::Compile {
                stage,
                log: match log {
                    Some(text) => text,
                    None => String::from_str("Unknown error creating shader"),
                },
            },
            None => EngineError::Context,
        },
        Command::CreateProgram { program } => EngineError::Link {
            log: String::from_str("Unable to create shader object"),
        },
        Command::LinkProgram { program } => EngineError::Link {
            log: match log {
                Some(text) => text,
                None => String::from_str("Unknown error creating program object"),
            },
        },
        _ => EngineError::Context,
    }
}

} // verus!
