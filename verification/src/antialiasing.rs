//! Multisample antialiasing.
use vstd::prelude::*;

verus! {

/// A multisampling strategy.
#[derive(Clone, Copy, Debug, PartialEq, Eq, Structural)]
pub enum MSAA {
    /// Multisample with two samples per pixel.
    X2,
    /// Multisample with four samples per pixel.
    X4,
    /// Multisample with eight samples per pixel.
    X8,
    /// Multisample with sixteen samples per pixel.
    X16,
}

impl MSAA {
    /// The number of samples per pixel.
    pub open spec fn samples(self) -> u32 {
        match self {
            MSAA::X2 => 2,
            MSAA::X4 => 4,
            MSAA::X8 => 8,
            MSAA::X16 => 16,
        }
    }

    /// Returns the number of samples per pixel.
    pub fn sample_count(self) -> (count: u32)
        ensures
            count == self.samples(),
    {
        match self {
            MSAA::X2 => 2,
            MSAA::X4 => 4,
            MSAA::X8 => 8,
            MSAA::X16 => 16,
        }
    }
}

/// What the user asks for.
#[derive(Clone, Copy, Debug, PartialEq, Eq, Structural)]
pub enum Antialiasing {
    /// Draw one sample per pixel.
    Disabled,
    /// Use the given strategy.
    MSAA(MSAA),
    /// Pick a strategy that suits the density of the screen.
    Automatic,
}

/// The bit pattern of the double-precision number 1.5.
pub const ONE_AND_A_HALF: u64 = 0x3ff8_0000_0000_0000;

/// The bit pattern of the double-precision number 2.
pub const TWO: u64 = 0x4000_0000_0000_0000;

/// The bit pattern of positive infinity in double precision.
pub const INFINITY: u64 = 0x7ff0_0000_0000_0000;

/// The scale factor of a screen, as the bit pattern of a double-precision number.
///
/// Read as integers, the patterns of the numbers from zero to infinity are in
/// numeric order. Above them come the patterns that are not a number, and above
/// those the negative numbers.
#[derive(Clone, Copy, Debug, PartialEq, Eq, Structural)]
pub struct ScaleFactor {
    /// The bit pattern.
    pub bits: u64,
}

impl ScaleFactor {
    /// The scale factor is a number greater than 2.
    pub open spec fn above_two(self) -> bool {
        TWO < self.bits <= INFINITY
    }

    /// The scale factor is a number no less than 1.5.
    pub open spec fn from_one_and_a_half(self) -> bool {
        ONE_AND_A_HALF <= self.bits <= INFINITY
    }

    /// Tells whether the scale factor is greater than 2.
    pub fn exceeds_two(self) -> (result: bool)
        ensures
            result == self.above_two(),
    {
        TWO < self.bits && self.bits <= INFINITY
    }

    /// Tells whether the scale factor is at least 1.5.
    pub fn reaches_one_and_a_half(self) -> (result: bool)
        ensures
            result == self.from_one_and_a_half(),
    {
        ONE_AND_A_HALF <= self.bits && self.bits <= INFINITY
    }
}

/// The strategy that is asked for, before the device has its say.
pub open spec fn requested(
    antialiasing: Antialiasing,
    scale_factor: ScaleFactor,
    macos: bool,
) -> Option<MSAA> {
    match antialiasing {
        Antialiasing::Disabled => None,
        Antialiasing::MSAA(msaa) => Some(msaa),
        Antialiasing::Automatic => if scale_factor.above_two() {
            None
        } else if macos && scale_factor.from_one_and_a_half() {
            Some(MSAA::X2)
        } else {
            Some(MSAA::X4)
        },
    }
}

/// The texture format with these feature flags can have `count` samples per pixel.
///
/// One sample is always possible. Two, four, eight and sixteen have a flag each.
pub open spec fn supports(flags: u32, count: u32) -> bool {
    ||| count == 1
    ||| count == 2 && flags & 0x02 == 0x02
    ||| count == 4 && flags & 0x04 == 0x04
    ||| count == 8 && flags & 0x08 == 0x08
    ||| count == 16 && flags & 0x10 == 0x10
}

/// The strategy that is used: the one asked for if the format supports it, and
/// four samples per pixel otherwise.
pub open spec fn chosen(
    antialiasing: Antialiasing,
    scale_factor: ScaleFactor,
    macos: bool,
    flags: u32,
) -> Option<MSAA> {
    match requested(antialiasing, scale_factor, macos) {
        None => None,
        Some(msaa) => if supports(flags, msaa.samples()) {
            Some(msaa)
        } else {
            Some(MSAA::X4)
        },
    }
}

/// Calls `wgpu::TextureFormatFeatureFlags::sample_count_supported` on the flags
/// with the given bits.
///
/// It is believed to answer `true` for one sample, to look at the flags
/// `MULTISAMPLE_X2`, `MULTISAMPLE_X4`, `MULTISAMPLE_X8` and `MULTISAMPLE_X16` for
/// two, four, eight and sixteen samples, and to answer `false` for any other count.
#[verifier::external_body]
fn sample_count_supported(flags: u32, count: u32) -> (supported: bool)
    ensures
        supported == supports(flags, count),
{
    wgpu::TextureFormatFeatureFlags::from_bits_retain(flags).sample_count_supported(count)
}

/// Picks the multisampling strategy for a texture format with the given feature
/// flags.
pub fn choose_strategy(
    antialiasing: Antialiasing,
    scale_factor: ScaleFactor,
    macos: bool,
    flags: u32,
) -> (msaa: Option<MSAA>)
    ensures
        msaa == chosen(antialiasing, scale_factor, macos, flags),
{
    let requested: Option<MSAA> = match antialiasing {
        Antialiasing::Disabled => None,
        Antialiasing::MSAA(msaa) => Some(msaa),
        Antialiasing::Automatic => {
            if scale_factor.exceeds_two() {
                None
            } else if macos && scale_factor.reaches_one_and_a_half() {
                Some(MSAA::X2)
            } else {
                Some(MSAA::X4)
            }
        },
    };

    match requested {
        None => None,
        Some(msaa) => {
            if sample_count_supported(flags, msaa.sample_count()) {
                Some(msaa)
            } else {
                Some(MSAA::X4)
            }
        },
    }
}

/// Tells whether two settings are the same.
pub fn same_strategy(a: Option<MSAA>, b: Option<MSAA>) -> (same: bool)
    ensures
        same == (a == b),
{
    match (a, b) {
        (None, None) => true,
        (Some(x), Some(y)) => x == y,
        _ => false,
    }
}

} // verus!
