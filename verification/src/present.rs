//! How a finished frame reaches the screen. A frame drawn into an offscreen
//! texture goes through the platform's native presenter when it is enabled
//! and there is one for the surface; otherwise, and when that fails, the
//! surface texture is acquired late and the offscreen texture is copied or
//! drawn into it. A frame drawn straight into the surface texture is
//! presented as it is.

use vstd::prelude::*;

verus! {

/// The way a frame is presented.
#[derive(Debug, Clone, Copy, PartialEq, Eq, Structural)]
pub enum PresentPath {
    /// Hand the offscreen texture to the native presenter.
    Native,
    /// Copy the offscreen texture into a late-acquired surface texture.
    LateCopy,
    /// Draw the offscreen texture into a late-acquired surface texture with
    /// a full-screen blit.
    LateBlit,
    /// Present the surface texture the frame was drawn into.
    Direct,
    /// Nothing to present: no offscreen rendering and no surface texture.
    Nothing,
}

/// What the frame's flags call for, before anything is tried.
#[derive(Debug, Clone, Copy, PartialEq, Eq, Structural)]
pub struct PresentFlags {
    /// The frame was drawn into an offscreen texture.
    pub render_to_offscreen: bool,
    /// Native presentation of whole frames is switched on.
    pub native_frames_enabled: bool,
    /// A native presenter exists for the frame's surface.
    pub has_native_presenter: bool,
    /// Late presentation copies rather than blits.
    pub copy_present_enabled: bool,
    /// The frame holds the surface texture it was drawn into.
    pub has_surface_texture: bool,
}

/// The late path for an offscreen frame: a copy when copying is switched
/// on, a blit otherwise.
pub open spec fn late_path(copy_present_enabled: bool) -> PresentPath {
    if copy_present_enabled {
        PresentPath::LateCopy
    } else {
        PresentPath::LateBlit
    }
}

/// The first path to try for a frame with `flags`.
pub open spec fn first_present_path(flags: PresentFlags) -> PresentPath {
    if flags.render_to_offscreen {
        if flags.native_frames_enabled && flags.has_native_presenter {
            PresentPath::Native
        } else {
            late_path(flags.copy_present_enabled)
        }
    } else if flags.has_surface_texture {
        PresentPath::Direct
    } else {
        PresentPath::Nothing
    }
}

/// The path to try first for a frame with `flags`.
pub fn choose_present_path(flags: &PresentFlags) -> (r: PresentPath)
    ensures
        r == first_present_path(*flags),
{
    if flags.render_to_offscreen {
        if flags.native_frames_enabled && flags.has_native_presenter {
            PresentPath::Native
        } else if flags.copy_present_enabled {
            PresentPath::LateCopy
        } else {
            PresentPath::LateBlit
        }
    } else if flags.has_surface_texture {
        PresentPath::Direct
    } else {
        PresentPath::Nothing
    }
}

/// The path to take after `path` failed: a failed native presentation
/// falls back to the late path; the other paths have no fallback.
pub fn fallback_present_path(path: PresentPath, flags: &PresentFlags) -> (r: Option<PresentPath>)
    ensures
        r == (if path == PresentPath::Native {
            Some(late_path(flags.copy_present_enabled))
        } else {
            None
        }),
{
    match path {
        PresentPath::Native => {
            if flags.copy_present_enabled {
                Some(PresentPath::LateCopy)
            } else {
                Some(PresentPath::LateBlit)
            }
        },
        _ => None,
    }
}

/// An offscreen frame always reaches a late path, first or after a failed
/// native presentation, and a frame drawn into the surface texture never
/// takes one.
pub proof fn lemma_offscreen_frames_reach_the_surface(flags: PresentFlags)
    ensures
        flags.render_to_offscreen ==> (first_present_path(flags) == late_path(
            flags.copy_present_enabled,
        ) || first_present_path(flags) == PresentPath::Native),
        !flags.render_to_offscreen ==> first_present_path(flags) != PresentPath::LateCopy
            && first_present_path(flags) != PresentPath::LateBlit && first_present_path(flags)
            != PresentPath::Native,
{
}

} // verus!
