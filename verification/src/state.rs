//! The decisions of the single-window triangle renderer: which pipeline
//! draws, when the surface is (re)configured, how a failed frame is
//! answered and which surface format is used.

use vstd::prelude::*;

use crate::event::{KeyCode, KEY_ESCAPE, KEY_SPACE};

verus! {

/// The pipeline that draws the triangle.
#[derive(Clone, Copy, PartialEq, Eq, Debug, Structural)]
pub enum Pipeline {
    WhiteTriangle,
    ColorTriangle,
}

impl Pipeline {
    pub open spec fn spec_toggled(self) -> Pipeline {
        match self {
            Pipeline::WhiteTriangle => Pipeline::ColorTriangle,
            Pipeline::ColorTriangle => Pipeline::WhiteTriangle,
        }
    }

    /// The other pipeline.
    pub fn toggled(self) -> (next: Pipeline)
        ensures
            next == self.spec_toggled(),
    {
        match self {
            Pipeline::WhiteTriangle => Pipeline::ColorTriangle,
            Pipeline::ColorTriangle => Pipeline::WhiteTriangle,
        }
    }
}

/// Switching the pipeline twice gives the one we started with.
pub proof fn law_toggle_twice(p: Pipeline)
    ensures
        p.spec_toggled().spec_toggled() == p,
        p.spec_toggled() != p,
{
}

/// The answer to a key event: whether to leave, and the pipeline after it.
#[derive(Clone, Copy, PartialEq, Eq, Debug, Structural)]
pub struct KeyResponse {
    pub exit: bool,
    pub pipeline: Pipeline,
}

/// Escape pressed leaves; Space pressed switches the pipeline; anything
/// else changes nothing.
pub open spec fn spec_key_response(pipeline: Pipeline, code: KeyCode, is_pressed: bool) -> KeyResponse {
    if is_pressed && code == KEY_ESCAPE {
        KeyResponse { exit: true, pipeline }
    } else if is_pressed && code == KEY_SPACE {
        KeyResponse { exit: false, pipeline: pipeline.spec_toggled() }
    } else {
        KeyResponse { exit: false, pipeline }
    }
}

/// The answer to a key going down (`is_pressed`) or up.
pub fn key_response(pipeline: Pipeline, code: KeyCode, is_pressed: bool) -> (response: KeyResponse)
    ensures
        response == spec_key_response(pipeline, code, is_pressed),
{
    if is_pressed && code == KEY_ESCAPE {
        KeyResponse { exit: true, pipeline }
    } else if is_pressed && code == KEY_SPACE {
        KeyResponse { exit: false, pipeline: pipeline.toggled() }
    } else {
        KeyResponse { exit: false, pipeline }
    }
}

/// Pressing Space twice brings back the pipeline we started with, and
/// releasing a key never changes the pipeline nor leaves.
pub proof fn law_space_twice(pipeline: Pipeline, code: KeyCode)
    ensures
        spec_key_response(spec_key_response(pipeline, KEY_SPACE, true).pipeline, KEY_SPACE, true).pipeline
            == pipeline,
        spec_key_response(pipeline, code, false) == (KeyResponse { exit: false, pipeline }),
{
}

/// The size the surface is configured with, and whether it has been
/// configured at all.
#[derive(Clone, Copy, PartialEq, Eq, Debug, Structural)]
pub struct SurfaceState {
    pub width: u32,
    pub height: u32,
    pub configured: bool,
}

impl SurfaceState {
    /// A surface of the window's initial size, not configured yet.
    pub fn new(width: u32, height: u32) -> (s: Self)
        ensures
            s == (SurfaceState { width, height, configured: false }),
    {
        SurfaceState { width, height, configured: false }
    }

    /// Takes a new window size. A size with a zero side is ignored;
    /// otherwise the surface takes it and is configured. Returns whether
    /// the surface has to be configured again.
    pub fn resize(&mut self, width: u32, height: u32) -> (reconfigure: bool)
        ensures
            reconfigure == (width > 0 && height > 0),
            reconfigure ==> *final(self) == (SurfaceState { width, height, configured: true }),
            !reconfigure ==> *final(self) == *old(self),
    {
        if width > 0 && height > 0 {
            self.width = width;
            self.height = height;
            self.configured = true;
            true
        } else {
            false
        }
    }

    /// Whether a frame can be drawn: only on a configured surface.
    pub fn can_render(&self) -> (ready: bool)
        ensures
            ready == self.configured,
    {
        self.configured
    }
}

/// Why the surface gave no texture to draw into.
#[derive(Clone, Copy, PartialEq, Eq, Debug, Structural)]
pub enum SurfaceError {
    Outdated,
    OutOfMemory,
    Timeout,
    Lost,
    Other,
}

/// How a frame without a surface texture is answered.
#[derive(Clone, Copy, PartialEq, Eq, Debug, Structural)]
pub enum SurfaceErrorResponse {
    /// Configure the surface again and skip the frame.
    Reconfigure,
    /// Skip the frame.
    SkipFrame,
    /// Give up rendering with an error: the device is lost.
    LostDevice,
    /// Give up rendering with an error: some other surface failure.
    OtherFailure,
}

/// Outdated: configure again. Out of memory, timeout: skip the frame.
/// Lost, other: fail.
pub open spec fn spec_surface_error_response(error: SurfaceError) -> SurfaceErrorResponse {
    match error {
        SurfaceError::Outdated => SurfaceErrorResponse::Reconfigure,
        SurfaceError::OutOfMemory => SurfaceErrorResponse::SkipFrame,
        SurfaceError::Timeout => SurfaceErrorResponse::SkipFrame,
        SurfaceError::Lost => SurfaceErrorResponse::LostDevice,
        SurfaceError::Other => SurfaceErrorResponse::OtherFailure,
    }
}

/// How the renderer answers a surface that gave no texture.
pub fn surface_error_response(error: SurfaceError) -> (response: SurfaceErrorResponse)
    ensures
        response == spec_surface_error_response(error),
{
    match error {
        SurfaceError::Outdated => SurfaceErrorResponse::Reconfigure,
        SurfaceError::OutOfMemory => SurfaceErrorResponse::SkipFrame,
        SurfaceError::Timeout => SurfaceErrorResponse::SkipFrame,
        SurfaceError::Lost => SurfaceErrorResponse::LostDevice,
        SurfaceError::Other => SurfaceErrorResponse::OtherFailure,
    }
}

/// The first position whose flag is set, or 0 when none is.
pub fn first_srgb_index(is_srgb: &Vec<bool>) -> (index: usize)
    ensures
        (exists|i: int| 0 <= i < is_srgb@.len() && is_srgb@[i]) ==> {
            &&& index < is_srgb@.len()
            &&& is_srgb@[index as int]
            &&& forall|j: int| 0 <= j < index ==> !is_srgb@[j]
        },
        (forall|i: int| 0 <= i < is_srgb@.len() ==> !is_srgb@[i]) ==> index == 0,
{
    let n = is_srgb.len();
    let mut i: usize = 0;
    while i < n
        invariant
            n == is_srgb@.len(),
            i <= n,
            forall|j: int| 0 <= j < i ==> !is_srgb@[j],
        decreases n - i,
    {
        if is_srgb[i] {
            return i;
        }
        i += 1;
    }
    0
}

/// `wgpu::TextureFormat`, held opaquely: surface formats are compared and
/// chosen between, never looked into.
#[verifier::external_type_specification]
#[verifier::external_body]
pub struct ExTextureFormat(wgpu::TextureFormat);

/// Name for what `wgpu::TextureFormat::is_srgb` gives: whether the format
/// stores colours in sRGB encoding.
pub uninterp spec fn texture_format_is_srgb(format: wgpu::TextureFormat) -> bool;

/// `wgpu::TextureFormat::is_srgb`. Claimed: the result is
/// `texture_format_is_srgb` of the format.
#[verifier::external_body]
fn format_is_srgb(format: &wgpu::TextureFormat) -> (srgb: bool)
    ensures
        srgb == texture_format_is_srgb(*format),
{
    format.is_srgb()
}

/// The surface format to render to: the first sRGB format the surface
/// supports, else the first format it supports.
pub fn choose_surface_format(formats: &Vec<wgpu::TextureFormat>) -> (format: wgpu::TextureFormat)
    requires
        formats@.len() > 0,
    ensures
        (exists|i: int| 0 <= i < formats@.len() && texture_format_is_srgb(#[trigger] formats@[i]))
            ==> exists|i: int|
            0 <= i < formats@.len() && format == formats@[i] && texture_format_is_srgb(formats@[i])
                && forall|j: int| 0 <= j < i ==> !texture_format_is_srgb(#[trigger] formats@[j]),
        (forall|i: int| 0 <= i < formats@.len() ==> !texture_format_is_srgb(#[trigger] formats@[i]))
            ==> format == formats@[0],
{
    let mut flags: Vec<bool> = Vec::new();
    let n = formats.len();
    let mut i: usize = 0;
    while i < n
        invariant
            n == formats@.len(),
            i <= n,
            flags@.len() == i,
            forall|j: int| 0 <= j < i ==> flags@[j] == texture_format_is_srgb(#[trigger] formats@[j]),
        decreases n - i,
    {
        flags.push(format_is_srgb(&formats[i]));
        i += 1;
    }
    let index = first_srgb_index(&flags);
    proof {
        if exists|k: int| 0 <= k < formats@.len() && texture_format_is_srgb(#[trigger] formats@[k]) {
            let k = choose|k: int| 0 <= k < formats@.len() && texture_format_is_srgb(#[trigger] formats@[k]);
            assert(flags@[k]);
            assert forall|j: int| 0 <= j < index implies !texture_format_is_srgb(#[trigger] formats@[j]) by {
                assert(!flags@[j]);
            }
        } else {
            assert forall|k: int| 0 <= k < flags@.len() implies !flags@[k] by {
                assert(!texture_format_is_srgb(formats@[k]));
            }
        }
    }
    formats[index]
}

/// Escape pressed leaves whatever the pipeline, and keeps it; no other key,
/// and no key going up, ever leaves. Space pressed switches between the two
/// pipelines; every other key leaves the pipeline as it is.
pub proof fn law_key_response(p: Pipeline, code: KeyCode, is_pressed: bool)
    ensures
        spec_key_response(p, KEY_ESCAPE, true) == (KeyResponse { exit: true, pipeline: p }),
        (code != KEY_ESCAPE || !is_pressed) ==> !spec_key_response(p, code, is_pressed).exit,
        spec_key_response(Pipeline::WhiteTriangle, KEY_SPACE, true).pipeline == Pipeline::ColorTriangle,
        spec_key_response(Pipeline::ColorTriangle, KEY_SPACE, true).pipeline == Pipeline::WhiteTriangle,
        (code != KEY_SPACE || !is_pressed) ==> spec_key_response(p, code, is_pressed).pipeline == p,
{
}

/// An outdated surface is configured again; running out of memory or
/// timing out skips the frame; a lost surface and any other failure end
/// rendering, each with its own error.
pub proof fn law_surface_errors()
    ensures
        spec_surface_error_response(SurfaceError::Outdated) == SurfaceErrorResponse::Reconfigure,
        spec_surface_error_response(SurfaceError::OutOfMemory) == SurfaceErrorResponse::SkipFrame,
        spec_surface_error_response(SurfaceError::Timeout) == SurfaceErrorResponse::SkipFrame,
        spec_surface_error_response(SurfaceError::Lost) == SurfaceErrorResponse::LostDevice,
        spec_surface_error_response(SurfaceError::Other) == SurfaceErrorResponse::OtherFailure,
{
}

} // verus!
