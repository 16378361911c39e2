//! The ways in which the engine, or the host on its behalf, can fail.

use vstd::prelude::*;
use vstd::string::StringExecFns;
use crate::command::ResourceKind;
use crate::command::ShaderStage;

verus! {

/// What is wrong with a brush color.
#[derive(Clone, Copy, Debug, PartialEq, Eq)]
pub enum ColorFault {
    /// It does not have exactly four channels.
    Length,
    /// One of its channels is not a number from 0 to 1.
    Channel,
}

/// The notifications that the host subscribes the engine to.
#[derive(Clone, Copy, Debug, PartialEq, Eq)]
pub enum Listener {
    Resize,
    PointerMove,
    PointerDown,
    PointerUp,
}

/// Why an operation of the engine did not go through.
#[derive(Debug, PartialEq, Eq)]
pub enum EngineError {
    /// The brush color offered is malformed.
    Configuration(ColorFault),
    /// The rendering context is missing or cannot do what the engine needs.
    Context,
    /// A shader of the given stage did not compile; `log` is what the
    /// backend said about it.
    Compile { stage: ShaderStage, log: String },
    /// A program did not link; `log` is what the backend said about it.
    Link { log: String },
    /// The backend could not allocate an object of the given kind.
    Resource(ResourceKind),
    /// The host could not subscribe to a notification.
    Listener(Listener),
}

impl EngineError {
    /// The text of this error.
    pub open spec fn text(self) -> Seq<char> {
        match self {
            EngineError::Configuration(ColorFault::Length) => "Invalid color length"@,
            EngineError::Configuration(ColorFault::Channel) => "Invalid color channel"@,
            EngineError::Context => "WebGl2 not supported"@,
            EngineError::Compile { stage: ShaderStage::Vertex, log } => {
                "Unable to compile vertex shader:\n"@ + log@
            },
            EngineError::Compile { stage: ShaderStage::Fragment, log } => {
                "Unable to compile fragment shader:\n"@ + log@
            },
            EngineError::Link { log } => "Unable to link shader program:\n"@ + log@,
            EngineError::Resource(ResourceKind::Texture) => "Failed to create texture"@,
            EngineError::Resource(ResourceKind::Framebuffer) => "Failed to create framebuffer"@,
            EngineError::Resource(ResourceKind::Buffer) => "Failed to create buffer"@,
            EngineError::Resource(ResourceKind::Shader) => "Failed to create shader"@,
            EngineError::Resource(ResourceKind::Program) => "Failed to create program"@,
            EngineError::Listener(Listener::Resize) => "Error adding window onresize listener"@,
            EngineError::Listener(Listener::PointerMove) => "Error adding mousemove listener"@,
            EngineError::Listener(Listener::PointerDown) => "Error adding mousedown listener"@,
            EngineError::Listener(Listener::PointerUp) => "Error adding mouseup listener"@,
        }
    }

    /// The text of this error, for the host to report. What the backend
    /// logged about a shader or a program is part of it, unchanged.
    pub fn message(&self) -> (text: String)
        ensures
            text@ == self.text(),
    {
        match self {
            EngineError::Configuration(ColorFault::Length) => String::from_str(
                "Invalid color length",
            ),
            EngineError::Configuration(ColorFault::Channel) => String::from_str(
                "Invalid color channel",
            ),
            EngineError::Context => String::from_str("WebGl2 not supported"),
            EngineError::Compile { stage: ShaderStage::Vertex, log } => String::from_str(
                "Unable to compile vertex shader:\n",
            ).concat(log.as_str()),
            EngineError::Compile { stage: ShaderStage::Fragment, log } => String::from_str(
                "Unable to compile fragment shader:\n",
            ).concat(log.as_str()),
            EngineError::Link { log } => String::from_str(
                "Unable to link shader program:\n",
            ).concat(log.as_str()),
            EngineError::Resource(ResourceKind::Texture) => String::from_str(
                "Failed to create texture",
            ),
            EngineError::Resource(ResourceKind::Framebuffer) => String::from_str(
                "Failed to create framebuffer",
            ),
            EngineError::Resource(ResourceKind::Buffer) => String::from_str(
                "Failed to create buffer",
            ),
            EngineError::Resource(ResourceKind::Shader) => String::from_str(
                "Failed to create shader",
            ),
            EngineError::Resource(ResourceKind::Program) => String::from_str(
                "Failed to create program",
            ),
            EngineError::Listener(Listener::Resize) => String::from_str(
                "Error adding window onresize listener",
            ),
            EngineError::Listener(Listener::PointerMove) => String::from_str(
                "Error adding mousemove listener",
            ),
            EngineError::Listener(Listener::PointerDown) => String::from_str(
                "Error adding mousedown listener",
            ),
            EngineError::Listener(Listener::PointerUp) => String::from_str(
                "Error adding mouseup listener",
            ),
        }
    }
}

} // verus!
