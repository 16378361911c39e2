//! The options with which the host asks for its rendering context.

use vstd::prelude::*;

verus! {

/// The attributes of a rendering context, under the names that the
/// backend knows them by.
#[allow(non_snake_case)]
#[derive(Clone, Copy, Debug, PartialEq, Eq)]
pub struct ContextOptions {
    pub alpha: bool,
    pub antialias: bool,
    pub depth: bool,
    pub powerPreference: &'static str,
    pub preserveDrawingBuffer: bool,
    pub premultipliedAlpha: bool,
}

impl ContextOptions {
    /// The options that the paint engine wants its context created with:
    /// an alpha channel with premultiplied alpha, antialiasing, a depth
    /// buffer, the high-performance GPU, and a drawing buffer that need
    /// not be preserved, since every frame is composited anew.
    pub fn for_painting() -> (options: ContextOptions)
        ensures
            options.alpha,
            options.antialias,
            options.depth,
            options.powerPreference@ == "high-performance"@,
            !options.preserveDrawingBuffer,
            options.premultipliedAlpha,
    {
        ContextOptions {
            alpha: true,
            antialias: true,
            depth: true,
            powerPreference: "high-performance",
            preserveDrawingBuffer: false,
            premultipliedAlpha: true,
        }
    }
}

} // verus!
