//! The brush: the color that strokes are painted in.

use vstd::prelude::*;
use crate::color::Rgba;
use crate::color::channel_in_range;
use crate::color::is_color;
use crate::color::is_unit_channel;
use crate::error::ColorFault;
use crate::error::EngineError;

verus! {

/// What is wrong with a sequence that is not a color. A wrong length is
/// reported before a wrong channel.
pub open spec fn color_fault(channels: Seq<u32>) -> ColorFault {
    if channels.len() != 4 {
        ColorFault::Length
    } else {
        ColorFault::Channel
    }
}

/// The paint color. A brush is never changed; a new color is a new brush.
#[derive(Clone, Copy, Debug, PartialEq, Eq)]
pub struct Brush {
    pub color: Rgba,
}

impl Brush {
    /// The brush holds a color: each of its channels is from 0 to 1.
    pub open spec fn wf(self) -> bool {
        is_color(self.color@)
    }

    /// A brush of the given color, which must have exactly four channels,
    /// red, green, blue and alpha, each from 0 to 1.
    pub fn new(color: &[u32]) -> (made: Result<Brush, EngineError>)
        ensures
            is_color(color@) ==> made is Ok,
            made matches Ok(brush) ==> is_color(color@) && brush.color@ == color@ && brush.wf(),
            made matches Err(error) ==> error == EngineError::Configuration(color_fault(color@)),
    {
        if color.len() != 4 {
            return Err(EngineError::Configuration(ColorFault::Length));
        }
        let mut channel: usize = 0;
        while channel < 4
            invariant
                color@.len() == 4,
                0 <= channel <= 4,
                forall|i: int| 0 <= i < channel ==> is_unit_channel(#[trigger] color@[i]),
            decreases 4 - channel,
        {
            if !channel_in_range(color[channel]) {
                return Err(EngineError::Configuration(ColorFault::Channel));
            }
            channel += 1;
        }
        let brush = Brush { color: [color[0], color[1], color[2], color[3]] };
        assert(brush.color@ =~= color@);
        Ok(brush)
    }
}

} // verus!
