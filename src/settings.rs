//! Render settings and the pixel grid they describe: image size, samples
//! per pixel and bounce budget; pixel order and the image-to-screen row flip.
use vstd::prelude::*;

verus! {

/// Image width when a scene does not choose one.
pub const DEFAULT_WIDTH: u32 = 640;

/// Image height when a scene does not choose one.
pub const DEFAULT_HEIGHT: u32 = 360;

/// Samples per pixel when a scene does not choose a count.
pub const DEFAULT_SAMPLES_PER_PIXEL: usize = 32;

/// Bounces allowed to each path.
pub const DEFAULT_MAX_BOUNCES: usize = 50;

/// Why a set of render settings was refused.
#[derive(Clone, Copy, Debug, PartialEq, Eq, Structural)]
pub enum SettingsError {
    ZeroWidth,
    ZeroHeight,
    ZeroSamples,
    /// The frame's samples (three per pixel) would not fit in memory.
    TooLarge,
}

/// Image size, samples per pixel and bounce budget of one render.
#[derive(Clone, Copy, Debug, PartialEq, Eq, Structural)]
pub struct RenderSettings {
    pub width: u32,
    pub height: u32,
    pub samples_per_pixel: usize,
    pub max_bounces: usize,
}

/// The error that settings with these values get, if any (checked in
/// this order).
pub open spec fn settings_error(width: nat, height: nat, spp: nat) -> Option<SettingsError> {
    if width == 0 {
        Some(SettingsError::ZeroWidth)
    } else if height == 0 {
        Some(SettingsError::ZeroHeight)
    } else if spp == 0 {
        Some(SettingsError::ZeroSamples)
    } else if 3 * width * height > usize::MAX {
        Some(SettingsError::TooLarge)
    } else {
        None
    }
}

impl RenderSettings {
    /// A non-empty image whose samples fit in memory, at least one sample.
    pub open spec fn wf(&self) -> bool {
        settings_error(self.width as nat, self.height as nat, self.samples_per_pixel as nat)
            is None
    }

    /// Settings for a render, refused when the image would be empty, no
    /// sample would be taken, or the frame would not fit in memory.
    pub fn new(width: u32, height: u32, samples_per_pixel: usize, max_bounces: usize) -> (r:
        Result<RenderSettings, SettingsError>)
        ensures
            match settings_error(width as nat, height as nat, samples_per_pixel as nat) {
                Some(e) => r == Err::<RenderSettings, SettingsError>(e),
                None => r == Ok::<RenderSettings, SettingsError>(
                    (RenderSettings { width, height, samples_per_pixel, max_bounces }),
                ),
            },
    {
        if width == 0 {
            return Err(SettingsError::ZeroWidth);
        }
        if height == 0 {
            return Err(SettingsError::ZeroHeight);
        }
        if samples_per_pixel == 0 {
            return Err(SettingsError::ZeroSamples);
        }
        let samples = match (width as usize).checked_mul(height as usize) {
            Some(pixels) => pixels.checked_mul(3),
            None => None,
        };
        if samples.is_none() {
            proof {
                if (width as usize) * (height as usize) <= usize::MAX {
                    assert(3 * width * height == (width * height) * 3) by (nonlinear_arith);
                } else {
                    assert(3 * width * height >= width * height) by (nonlinear_arith);
                }
            }
            return Err(SettingsError::TooLarge);
        }
        assert(3 * width * height == (width * height) * 3) by (nonlinear_arith);
        Ok(RenderSettings { width, height, samples_per_pixel, max_bounces })
    }

    /// The settings that a scene gets unless it chooses its own.
    pub fn standard() -> (r: RenderSettings)
        ensures
            r.width == DEFAULT_WIDTH,
            r.height == DEFAULT_HEIGHT,
            r.samples_per_pixel == DEFAULT_SAMPLES_PER_PIXEL,
            r.max_bounces == DEFAULT_MAX_BOUNCES,
            r.wf(),
    {
        RenderSettings {
            width: DEFAULT_WIDTH,
            height: DEFAULT_HEIGHT,
            samples_per_pixel: DEFAULT_SAMPLES_PER_PIXEL,
            max_bounces: DEFAULT_MAX_BOUNCES,
        }
    }

    /// Number of pixels of the image.
    pub fn pixel_count(&self) -> (r: usize)
        requires
            self.wf(),
        ensures
            r == self.width * self.height,
    {
        assert(self.width * self.height <= 3 * self.width * self.height) by (nonlinear_arith);
        self.width as usize * self.height as usize
    }

    /// Column and row (row 0 on top) of the `i`-th pixel in row-major order.
    pub fn pixel_position(&self, i: usize) -> (r: (u32, u32))
        requires
            self.wf(),
            i < self.width * self.height,
        ensures
            r.0 < self.width,
            r.1 < self.height,
            i == r.1 * self.width + r.0,
    {
        let w = self.width as usize;
        let x = i % w;
        let y = i / w;
        assert(i == y * w + x && x < w) by (nonlinear_arith)
            requires
                w > 0,
                x == i % w,
                y == i / w,
        ;
        assert(y < self.height) by (nonlinear_arith)
            requires
                i == y * w + x,
                x < w,
                i < w * self.height,
                w > 0,
        ;
        (x as u32, y as u32)
    }

    /// The screen row of image row `y`: rows are counted from the top in
    /// the image and from the bottom on the screen.
    pub fn screen_row(&self, y: u32) -> (r: u32)
        requires
            y < self.height,
        ensures
            r == self.height - 1 - y,
    {
        self.height - 1 - y
    }
}

} // verus!
