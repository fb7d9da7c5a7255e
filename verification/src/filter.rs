//! Errors of the GPU filter pipeline, and its checks on the textures of a
//! Dual Kawase blur.

use vstd::prelude::*;
use vstd::string::StringExecFns;
use crate::texture_pool::{half_extent, half_extent_of};

verus! {

/// Filter error types.
#[derive(Debug, Clone)]
pub enum FilterError {
    DeviceNotInitialized,
    ShaderCompilationFailed(String),
    InvalidFilterParameters(String),
    OutOfMemory,
}

/// The message of a filter error.
pub open spec fn filter_error_text(e: FilterError) -> Seq<char> {
    match e {
        FilterError::DeviceNotInitialized => "GPU device not initialized"@,
        FilterError::ShaderCompilationFailed(msg) => "Shader compilation failed: "@ + msg@,
        FilterError::InvalidFilterParameters(msg) => "Invalid filter parameters: "@ + msg@,
        FilterError::OutOfMemory => "Out of GPU memory"@,
    }
}

impl FilterError {
    /// The human-readable message of the error.
    pub fn message(&self) -> (r: String)
        ensures
            r@ == filter_error_text(*self),
    {
        let mut s = String::new();
        match self {
            FilterError::DeviceNotInitialized => s.append("GPU device not initialized"),
            FilterError::ShaderCompilationFailed(msg) => {
                s.append("Shader compilation failed: ");
                s.append(msg.as_str());
            },
            FilterError::InvalidFilterParameters(msg) => {
                s.append("Invalid filter parameters: ");
                s.append(msg.as_str());
            },
            FilterError::OutOfMemory => s.append("Out of GPU memory"),
        }
        s
    }
}

/// A quarter of an extent, at least 1.
pub open spec fn quarter_extent(n: u32) -> u32 {
    if n / 4 == 0 {
        1
    } else {
        (n / 4) as u32
    }
}

/// Whether a Kawase texture set has the sizes the blur expects for a
/// `full_width` x `full_height` input: the downsample texture at half
/// resolution, and the quarter downsample and both ping-pong textures at
/// quarter resolution.
pub open spec fn kawase_sizes_expected(
    full_width: u32,
    full_height: u32,
    half: (u32, u32),
    quarter: (u32, u32),
    ping: (u32, u32),
    pong: (u32, u32),
) -> bool {
    let q = (quarter_extent(full_width), quarter_extent(full_height));
    &&& half == (half_extent(full_width), half_extent(full_height))
    &&& quarter == q
    &&& ping == q
    &&& pong == q
}

/// Checks the sizes of a Kawase texture set handed in from outside; a set
/// that fails is not used, and the blur falls back to its own textures.
pub fn kawase_set_matches(
    full_width: u32,
    full_height: u32,
    half: (u32, u32),
    quarter: (u32, u32),
    ping: (u32, u32),
    pong: (u32, u32),
) -> (r: bool)
    ensures
        r == kawase_sizes_expected(full_width, full_height, half, quarter, ping, pong),
{
    let hw = half_extent_of(full_width);
    let hh = half_extent_of(full_height);
    let qw = if full_width / 4 == 0 {
        1
    } else {
        full_width / 4
    };
    let qh = if full_height / 4 == 0 {
        1
    } else {
        full_height / 4
    };
    half.0 == hw && half.1 == hh && quarter.0 == qw && quarter.1 == qh && ping.0 == qw && ping.1 == qh
        && pong.0 == qw && pong.1 == qh
}

/// Whether the blur's own Kawase textures, made for `built_for` (none yet
/// when `None`), must be made again for a `full_width` x `full_height`
/// input: they must unless they were made for exactly that size.
pub fn kawase_pool_needs_rebuild(built_for: Option<(u32, u32)>, full_width: u32, full_height: u32) -> (r:
    bool)
    ensures
        r == (built_for != Some((full_width, full_height))),
{
    match built_for {
        Some(size) => !(size.0 == full_width && size.1 == full_height),
        None => true,
    }
}

} // verus!
