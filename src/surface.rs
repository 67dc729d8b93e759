use vstd::prelude::*;

verus! {

#[verifier::external_type_specification]
#[verifier::external_body]
pub struct ExTextureFormat(wgpu::TextureFormat);

#[verifier::external_type_specification]
#[verifier::external_body]
pub struct ExPresentMode(wgpu::PresentMode);

#[verifier::external_type_specification]
#[verifier::external_body]
pub struct ExCompositeAlphaMode(wgpu::CompositeAlphaMode);

/// Whether wgpu counts a pixel format as standard gamma-corrected.
pub uninterp spec fn srgb_of(f: wgpu::TextureFormat) -> bool;

/// Relies on wgpu::TextureFormat::is_srgb, which tells whether a format is a
/// standard gamma-corrected one; its answer depends on the format alone.
pub assume_specification[ wgpu::TextureFormat::is_srgb ](f: &wgpu::TextureFormat) -> (r: bool)
    ensures
        r == srgb_of(*f),
;

/// `f` is the format to use among `formats`: the first gamma-corrected one,
/// else the first one.
pub open spec fn is_preferred_format(formats: Seq<wgpu::TextureFormat>, f: wgpu::TextureFormat) -> bool {
    exists|k: int|
        0 <= k < formats.len() && f == formats[k] && (forall|j: int| 0 <= j < k ==> !srgb_of(#[trigger] formats[j]))
            && (srgb_of(formats[k]) || (k == 0 && forall|j: int| 0 <= j < formats.len() ==> !srgb_of(#[trigger] formats[j])))
}

/// Why a surface configuration could not be made.
#[derive(Clone, Copy, Debug, PartialEq, Eq, Structural)]
pub enum SurfaceSetupError {
    /// The window has a zero width or height.
    ZeroSize,
    /// The surface reports no pixel format.
    NoFormat,
    /// The surface reports no presentation mode.
    NoPresentMode,
    /// The surface reports no alpha compositing mode.
    NoAlphaMode,
}

/// What the surface's images are used for.
#[derive(Clone, Copy, Debug, PartialEq, Eq, Structural)]
pub enum SurfaceUsage {
    /// Color target of a render pass.
    RenderAttachment,
}

/// Frames the presentation engine may queue ahead.
pub const MAX_FRAME_LATENCY: u32 = 2;

/// The configuration of the presentation surface: size in pixels (never zero),
/// pixel format, presentation mode and alpha compositing mode.
#[derive(Clone, Copy, Debug)]
pub struct SurfaceConfig {
    width: u32,
    height: u32,
    format: wgpu::TextureFormat,
    present_mode: wgpu::PresentMode,
    alpha_mode: wgpu::CompositeAlphaMode,
    usage: SurfaceUsage,
    max_frame_latency: u32,
}

/// The index of the format to use, given for each reported format whether it
/// is gamma-corrected: the first one that is, else the first one; `None` when
/// there is none.
pub fn preferred_index(srgb: &Vec<bool>) -> (r: Option<usize>)
    ensures
        r.is_none() == (srgb@.len() == 0),
        r matches Some(i) ==> i < srgb@.len() && (forall|j: int| 0 <= j < i ==> !#[trigger] srgb@[j])
            && (srgb@[i as int] || (i == 0 && forall|j: int| 0 <= j < srgb@.len() ==> !#[trigger] srgb@[j])),
{
    if srgb.len() == 0 {
        return None;
    }
    let mut i: usize = 0;
    while i < srgb.len()
        invariant
            i <= srgb@.len(),
            forall|j: int| 0 <= j < i ==> !#[trigger] srgb@[j],
        decreases srgb@.len() - i,
    {
        if srgb[i] {
            return Some(i);
        }
        i = i + 1;
    }
    Some(0)
}

/// The pixel format to configure the surface with: the first reported format
/// that is gamma-corrected, else the first one; `None` when none is reported.
pub fn choose_format(formats: &Vec<wgpu::TextureFormat>) -> (r: Option<wgpu::TextureFormat>)
    ensures
        r.is_none() == (formats@.len() == 0),
        r matches Some(f) ==> is_preferred_format(formats@, f),
{
    let mut srgb: Vec<bool> = Vec::new();
    let mut i: usize = 0;
    while i < formats.len()
        invariant
            i <= formats@.len(),
            srgb@.len() == i,
            forall|j: int| 0 <= j < i ==> srgb@[j] == srgb_of(#[trigger] formats@[j]),
        decreases formats@.len() - i,
    {
        srgb.push(formats[i].is_srgb());
        i = i + 1;
    }
    match preferred_index(&srgb) {
        Some(k) => {
            let f = formats[k];
            assert(formats@[k as int] == f);
            Some(f)
        },
        None => None,
    }
}

impl SurfaceConfig {
    /// The configuration is usable: its size has no zero dimension.
    pub open spec fn wf(&self) -> bool {
        self.spec_width() > 0 && self.spec_height() > 0
    }

    /// The same configuration with another size.
    pub closed spec fn resized(&self, width: u32, height: u32) -> SurfaceConfig {
        SurfaceConfig { width, height, ..*self }
    }

    pub closed spec fn spec_width(&self) -> u32 {
        self.width
    }

    pub closed spec fn spec_height(&self) -> u32 {
        self.height
    }

    pub closed spec fn spec_format(&self) -> wgpu::TextureFormat {
        self.format
    }

    pub closed spec fn spec_present_mode(&self) -> wgpu::PresentMode {
        self.present_mode
    }

    pub closed spec fn spec_alpha_mode(&self) -> wgpu::CompositeAlphaMode {
        self.alpha_mode
    }

    pub closed spec fn spec_usage(&self) -> SurfaceUsage {
        self.usage
    }

    pub closed spec fn spec_max_frame_latency(&self) -> u32 {
        self.max_frame_latency
    }

    /// The configuration for a window of the given size, from what the surface
    /// reports: the preferred format (see `choose_format`), the first
    /// presentation mode and the first alpha compositing mode.
    pub fn new(
        width: u32,
        height: u32,
        formats: &Vec<wgpu::TextureFormat>,
        present_modes: &Vec<wgpu::PresentMode>,
        alpha_modes: &Vec<wgpu::CompositeAlphaMode>,
    ) -> (r: Result<SurfaceConfig, SurfaceSetupError>)
        ensures
            (r == Err::<SurfaceConfig, _>(SurfaceSetupError::ZeroSize)) == (width == 0 || height == 0),
            (r == Err::<SurfaceConfig, _>(SurfaceSetupError::NoFormat)) == (width > 0 && height > 0
                && formats@.len() == 0),
            (r == Err::<SurfaceConfig, _>(SurfaceSetupError::NoPresentMode)) == (width > 0 && height > 0
                && formats@.len() > 0 && present_modes@.len() == 0),
            (r == Err::<SurfaceConfig, _>(SurfaceSetupError::NoAlphaMode)) == (width > 0 && height > 0
                && formats@.len() > 0 && present_modes@.len() > 0 && alpha_modes@.len() == 0),
            r matches Ok(c) ==> c.wf() && c.spec_width() == width && c.spec_height() == height
                && is_preferred_format(formats@, c.spec_format()) && c.spec_present_mode() == present_modes@[0]
                && c.spec_alpha_mode() == alpha_modes@[0] && c.spec_usage() == SurfaceUsage::RenderAttachment
                && c.spec_max_frame_latency() == MAX_FRAME_LATENCY,
    {
        if width == 0 || height == 0 {
            return Err(SurfaceSetupError::ZeroSize);
        }
        let format = match choose_format(formats) {
            Some(f) => f,
            None => {
                return Err(SurfaceSetupError::NoFormat);
            },
        };
        if present_modes.len() == 0 {
            return Err(SurfaceSetupError::NoPresentMode);
        }
        if alpha_modes.len() == 0 {
            return Err(SurfaceSetupError::NoAlphaMode);
        }
        Ok(SurfaceConfig {
            width,
            height,
            format,
            present_mode: present_modes[0],
            alpha_mode: alpha_modes[0],
            usage: SurfaceUsage::RenderAttachment,
            max_frame_latency: MAX_FRAME_LATENCY,
        })
    }

    /// Applies a new window size. A size with a zero dimension is ignored and
    /// leaves the configuration as it was; otherwise the size is stored. Returns
    /// whether the surface must be reconfigured.
    pub fn resize(&mut self, width: u32, height: u32) -> (r: bool)
        ensures
            r == (width > 0 && height > 0),
            r ==> *final(self) == old(self).resized(width, height),
            r ==> final(self).spec_width() == width && final(self).spec_height() == height
                && final(self).spec_format() == old(self).spec_format()
                && final(self).spec_present_mode() == old(self).spec_present_mode()
                && final(self).spec_alpha_mode() == old(self).spec_alpha_mode()
                && final(self).spec_usage() == old(self).spec_usage()
                && final(self).spec_max_frame_latency() == old(self).spec_max_frame_latency(),
            !r ==> *final(self) == *old(self),
    {
        if width > 0 && height > 0 {
            self.width = width;
            self.height = height;
            true
        } else {
            false
        }
    }

    /// What a resize keeps and what it changes.
    pub proof fn lemma_resized(&self, width: u32, height: u32)
        ensures
            self.resized(width, height).spec_width() == width,
            self.resized(width, height).spec_height() == height,
            self.resized(width, height).spec_format() == self.spec_format(),
            self.resized(width, height).spec_present_mode() == self.spec_present_mode(),
            self.resized(width, height).spec_alpha_mode() == self.spec_alpha_mode(),
            self.resized(width, height).spec_usage() == self.spec_usage(),
            self.resized(width, height).spec_max_frame_latency() == self.spec_max_frame_latency(),
            self.resized(self.spec_width(), self.spec_height()) == *self,
    {
    }

    pub fn width(&self) -> (r: u32)
        ensures
            r == self.spec_width(),
    {
        self.width
    }

    pub fn height(&self) -> (r: u32)
        ensures
            r == self.spec_height(),
    {
        self.height
    }

    pub fn format(&self) -> (r: wgpu::TextureFormat)
        ensures
            r == self.spec_format(),
    {
        self.format
    }

    pub fn present_mode(&self) -> (r: wgpu::PresentMode)
        ensures
            r == self.spec_present_mode(),
    {
        self.present_mode
    }

    pub fn alpha_mode(&self) -> (r: wgpu::CompositeAlphaMode)
        ensures
            r == self.spec_alpha_mode(),
    {
        self.alpha_mode
    }

    pub fn usage(&self) -> (r: SurfaceUsage)
        ensures
            r == self.spec_usage(),
    {
        self.usage
    }

    pub fn max_frame_latency(&self) -> (r: u32)
        ensures
            r == self.spec_max_frame_latency(),
    {
        self.max_frame_latency
    }
}

} // verus!
