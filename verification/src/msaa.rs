//! The intermediate texture of multisampling.
use crate::antialiasing::MSAA;
use vstd::prelude::*;

verus! {

/// Draws to a multisampled texture, and the result from there to the frame.
#[derive(Clone, Copy, Debug, PartialEq, Eq)]
pub struct Blit {
    /// The format of the textures.
    pub format: wgpu::TextureFormat,
    /// The strategy it samples with.
    pub strategy: MSAA,
}

impl Blit {
    /// Describes a blit of the given format that samples with the given strategy.
    pub fn new(format: wgpu::TextureFormat, strategy: MSAA) -> (blit: Self)
        ensures
            blit == (Blit { format, strategy }),
    {
        Blit { format, strategy }
    }

    /// Returns the strategy it samples with.
    pub fn strategy(&self) -> (strategy: MSAA)
        ensures
            strategy == self.strategy,
    {
        self.strategy
    }
}

} // verus!
