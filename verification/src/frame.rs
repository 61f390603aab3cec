use vstd::prelude::*;
use crate::format::{
    bytes_per_row, pixel_buffer_len, spec_buffer_len, spec_bytes_per_row, TexelFormat,
};
use crate::geometry::{Fraction, LogicalSize, SurfaceSize};
use crate::scaling::ScalingMatrix;

verus! {

// The framebuffer facade: the CPU pixel buffer, the configuration it was
// built with, and the scaling transform kept in step with the surface.

/// How finished frames reach the screen. The default is vsynced FIFO.
#[derive(Clone, Copy, PartialEq, Eq, Structural, Debug)]
pub enum PresentMode {
    AutoVsync,
    AutoNoVsync,
    Fifo,
    FifoRelaxed,
    Immediate,
    Mailbox,
}

/// How the upscaled image blends into the render target. The default blends
/// by alpha, so partially transparent pixels mix with what is already there.
#[derive(Clone, Copy, PartialEq, Eq, Structural, Debug)]
pub enum BlendMode {
    Replace,
    AlphaBlending,
    PremultipliedAlphaBlending,
}

/// Which kind of adapter to ask the backend for. The default defers to the
/// system.
#[derive(Clone, Copy, PartialEq, Eq, Structural, Debug)]
pub enum PowerPreference {
    NoPreference,
    LowPower,
    HighPerformance,
}

/// A color with 8-bit channels, as the clear color of the render pass.
#[derive(Clone, Copy, PartialEq, Eq, Structural, Debug)]
pub struct Color {
    pub r: u8,
    pub g: u8,
    pub b: u8,
    pub a: u8,
}

/// Construction-time configuration of a framebuffer: the logical size is
/// required and positive, everything else carries a documented default.
/// Nothing here changes after construction.
#[derive(Clone, Copy, PartialEq, Eq, Structural, Debug)]
pub struct FrameConfig {
    /// Logical buffer width in texels; positive.
    pub width: u32,
    /// Logical buffer height in texels; positive.
    pub height: u32,
    /// Format of the backing texture and so of the CPU pixel buffer.
    pub texture_format: TexelFormat,
    /// Format of the render target the upscaled image is drawn into.
    pub render_texture_format: TexelFormat,
    pub present_mode: PresentMode,
    pub blend_mode: BlendMode,
    /// What the render pass clears the target to before the blit; the
    /// letterbox shows this color.
    pub clear_color: Color,
    pub power_preference: PowerPreference,
}

impl FrameConfig {
    pub open spec fn positive(self) -> bool {
        self.width > 0 && self.height > 0
    }

    /// A configuration with the defaults: 8-bit sRGB RGBA textures, vsynced
    /// FIFO presentation, alpha blending, a white clear color and no adapter
    /// preference. Rejects a degenerate logical size, and nothing else.
    pub fn new(width: u32, height: u32) -> (r: Option<FrameConfig>)
        ensures
            match r {
                Some(c) => width > 0 && height > 0 && c == (FrameConfig {
                    width,
                    height,
                    texture_format: TexelFormat::Rgba8UnormSrgb,
                    render_texture_format: TexelFormat::Rgba8UnormSrgb,
                    present_mode: PresentMode::Fifo,
                    blend_mode: BlendMode::AlphaBlending,
                    clear_color: Color { r: 255, g: 255, b: 255, a: 255 },
                    power_preference: PowerPreference::NoPreference,
                }),
                None => width == 0 || height == 0,
            },
    {
        if width == 0 || height == 0 {
            return None;
        }
        Some(
            FrameConfig {
                width,
                height,
                texture_format: TexelFormat::Rgba8UnormSrgb,
                render_texture_format: TexelFormat::Rgba8UnormSrgb,
                present_mode: PresentMode::Fifo,
                blend_mode: BlendMode::AlphaBlending,
                clear_color: Color { r: 255, g: 255, b: 255, a: 255 },
                power_preference: PowerPreference::NoPreference,
            },
        )
    }
}

/// The framebuffer facade: owns the CPU pixel buffer and keeps the scaling
/// transform consistent with the current surface size. The backing texture,
/// queue and surface live with the caller; this type owns every decision
/// about sizes, strides, scaling and clipping.
pub struct Framebuffer {
    /// The CPU pixel buffer: row-major, top-to-bottom, texels in the
    /// configured format's byte layout.
    pub pixels: Vec<u8>,
    pub config: FrameConfig,
    pub surface: SurfaceSize,
    pub matrix: ScalingMatrix,
}

impl Framebuffer {
    /// The pixel buffer has exactly the configured byte length and the
    /// scaling transform belongs to the configured logical size and the
    /// current surface size.
    pub open spec fn wf(self) -> bool {
        &&& self.config.positive()
        &&& self.surface.positive()
        &&& self.pixels@.len() == spec_buffer_len(
            self.config.width as int,
            self.config.height as int,
            self.config.texture_format,
        )
        &&& self.matrix.wf()
        &&& self.matrix.logical_width == self.config.width
        &&& self.matrix.logical_height == self.config.height
        &&& self.matrix.surface_width == self.surface.width
        &&& self.matrix.surface_height == self.surface.height
    }

    /// Builds the framebuffer: allocates the zeroed pixel buffer and computes
    /// the scaling transform for the initial surface. The surface must not be
    /// degenerate and the buffer must fit in memory.
    pub fn new(config: FrameConfig, surface: SurfaceSize) -> (r: Framebuffer)
        requires
            config.positive(),
            surface.width > 0,
            surface.height > 0,
            spec_buffer_len(config.width as int, config.height as int, config.texture_format)
                <= usize::MAX,
        ensures
            r.wf(),
            r.config == config,
            r.surface == surface,
            forall|i: int| 0 <= i < r.pixels@.len() ==> r.pixels@[i] == 0,
    {
        let len: usize = pixel_buffer_len(config.width, config.height, config.texture_format);
        let mut pixels: Vec<u8> = Vec::new();
        let mut i: usize = 0;
        while i < len
            invariant
                i <= len,
                pixels@.len() == i,
                forall|j: int| 0 <= j < i ==> pixels@[j] == 0,
            decreases len - i,
        {
            pixels.push(0);
            i = i + 1;
        }
        let matrix = ScalingMatrix::new(
            (config.width, config.height),
            (surface.width, surface.height),
        );
        Framebuffer { pixels, config, surface, matrix }
    }

    /// The logical size of the pixel buffer: the texel grid of the backing
    /// texture. Fixed at construction.
    pub fn logical_size(&self) -> (s: LogicalSize)
        ensures
            s.width == self.config.width,
            s.height == self.config.height,
    {
        LogicalSize { width: self.config.width, height: self.config.height }
    }

    /// The pixel buffer, read-only.
    pub fn frame(&self) -> (r: &Vec<u8>)
        ensures
            r@ == self.pixels@,
    {
        &self.pixels
    }

    /// The pixel buffer, writable. The caller draws into it; the next upload
    /// shows the writes. Keeping the buffer's length is the caller's duty —
    /// the contract ties the facade's buffer to whatever the caller leaves in
    /// the borrow.
    pub fn frame_mut(&mut self) -> (r: &mut Vec<u8>)
        ensures
            r@ == old(self).pixels@,
            final(self).pixels@ == final(r)@,
            final(self).config == old(self).config,
            final(self).surface == old(self).surface,
            final(self).matrix == old(self).matrix,
    {
        &mut self.pixels
    }

    /// Takes a surface resize: a degenerate size (a minimized window) is
    /// skipped whole, any other size replaces the surface and recomputes the
    /// scaling transform with it. The pixel buffer and the configuration
    /// never change here.
    pub fn resize(&mut self, width: u32, height: u32)
        requires
            old(self).wf(),
        ensures
            final(self).wf(),
            final(self).pixels@ == old(self).pixels@,
            final(self).config == old(self).config,
            width > 0 && height > 0 ==> final(self).surface == (SurfaceSize { width, height }),
            !(width > 0 && height > 0) ==> *final(self) == *old(self),
    {
        if width > 0 && height > 0 {
            self.surface = SurfaceSize { width, height };
            self.matrix = ScalingMatrix::new(
                (self.config.width, self.config.height),
                (width, height),
            );
        }
    }

    /// The scissor rectangle for the render pass; see
    /// `ScalingMatrix::clip_rect`.
    pub fn clip_rect(&self) -> (r: (u32, u32, u32, u32))
        requires
            self.wf(),
        ensures
            r == self.matrix.clip,
    {
        self.matrix.clip_rect()
    }

    /// The integer upscale factor currently in use.
    pub fn scale(&self) -> (s: u32)
        requires
            self.wf(),
        ensures
            s == self.matrix.scale,
            s >= 1,
    {
        self.matrix.scale()
    }

    /// The scaling transform's sixteen entries; see
    /// `ScalingMatrix::transform`.
    pub fn transform(&self) -> (t: Vec<Fraction>)
        requires
            self.wf(),
        ensures
            t@ == self.matrix.spec_transform_seq(),
    {
        self.matrix.transform()
    }

    /// The inverse transform's sixteen entries; see
    /// `ScalingMatrix::inverse_transform`.
    pub fn inverse_transform(&self) -> (t: Vec<Fraction>)
        requires
            self.wf(),
        ensures
            t@ == self.matrix.spec_inverse_seq(),
    {
        self.matrix.inverse_transform()
    }

    /// Maps a surface position to the logical texel shown there; see
    /// `ScalingMatrix::surface_to_logical`.
    pub fn surface_to_logical(&self, x: u32, y: u32) -> (r: Option<(u32, u32)>)
        requires
            self.wf(),
        ensures
            match (r, self.matrix.spec_pick(x as int, y as int)) {
                (Some(t), Some(s)) => t.0 == s.0 && t.1 == s.1,
                (None, None) => true,
                _ => false,
            },
    {
        self.matrix.surface_to_logical(x, y)
    }

    /// The row stride for the full-texture upload of the pixel buffer. It is
    /// computed from the same configuration as the buffer's length, in one
    /// place, so the two cannot drift apart; see
    /// `lemma_buffer_len_is_rows_times_stride`.
    pub fn upload_stride(&self) -> (r: u64)
        requires
            self.wf(),
        ensures
            r == spec_bytes_per_row(self.config.width as int, self.config.texture_format),
    {
        bytes_per_row(self.config.width, self.config.texture_format)
    }
}

/// Whether a surface size is degenerate. Rendering and resizing skip such a
/// size — a minimized window — rather than feed it to the scaling transform,
/// which rules it out.
pub fn degenerate_surface(width: u32, height: u32) -> (r: bool)
    ensures
        r == (width == 0 || height == 0),
{
    width == 0 || height == 0
}

/// Whether one more acquisition of the surface frame may be attempted after
/// `failed_attempts` failures in a row: a transient failure — common in the
/// middle of a resize — is retried exactly once, and a second consecutive
/// failure is escalated as fatal instead.
pub fn may_attempt_acquire(failed_attempts: u32) -> (r: bool)
    ensures
        r == (failed_attempts < 2),
{
    failed_attempts < 2
}

/// The three vertices of the oversized full-screen triangle, in normalized
/// device coordinates: it covers the whole clip-space square (and more), so
/// one draw of three vertices blits the texture; the scissor rectangle cuts
/// it to the centered image.
pub fn fullscreen_triangle() -> (v: Vec<(i32, i32)>)
    ensures
        v@.len() == 3,
        v@[0] == (-1i32, -1i32),
        v@[1] == (3i32, -1i32),
        v@[2] == (-1i32, 3i32),
{
    let v: Vec<(i32, i32)> = vec![(-1, -1), (3, -1), (-1, 3)];
    v
}

} // verus!
