//! The negotiated configuration of the presentable surface.

use vstd::prelude::*;

verus! {

/// How presented frames are synchronised with the display.
#[derive(Clone, Copy, Debug, PartialEq, Eq, Structural)]
pub enum PresentMode {
    AutoVsync,
    AutoNoVsync,
    Fifo,
    FifoRelaxed,
    Immediate,
    Mailbox,
}

/// How the alpha channel of presented frames is composited.
#[derive(Clone, Copy, Debug, PartialEq, Eq, Structural)]
pub enum AlphaMode {
    Auto,
    Opaque,
    PreMultiplied,
    PostMultiplied,
    Inherit,
}

/// Size and presentation settings of the surface. The pixel format is chosen
/// by the device at bring-up and kept by the embedding program.
#[derive(Clone, Copy, Debug, PartialEq, Eq, Structural)]
pub struct SurfaceConfig {
    pub width: u32,
    pub height: u32,
    pub present_mode: PresentMode,
    pub alpha_mode: AlphaMode,
}

/// A size that a surface can be configured to: neither side is zero.
pub open spec fn is_drawable_size(width: u32, height: u32) -> bool {
    width > 0 && height > 0
}

impl SurfaceConfig {
    /// The configuration after a request to resize to `width` x `height`:
    /// a degenerate size leaves it as it is.
    pub open spec fn resized(self, width: u32, height: u32) -> SurfaceConfig {
        if is_drawable_size(width, height) {
            SurfaceConfig { width, height, ..self }
        } else {
            self
        }
    }

    /// The first configuration of a surface, with automatic alpha compositing.
    pub fn new(width: u32, height: u32, present_mode: PresentMode) -> (r: SurfaceConfig)
        ensures
            r.width == width,
            r.height == height,
            r.present_mode == present_mode,
            r.alpha_mode == AlphaMode::Auto,
    {
        SurfaceConfig { width, height, present_mode, alpha_mode: AlphaMode::Auto }
    }

    /// Requests the size `width` x `height`. A zero side (a minimised window)
    /// is ignored; otherwise the size is taken and the surface must be
    /// configured again, which the result says.
    pub fn reconfigure(&mut self, width: u32, height: u32) -> (applied: bool)
        ensures
            applied == is_drawable_size(width, height),
            *final(self) == old(self).resized(width, height),
            applied ==> final(self).width == width && final(self).height == height,
            !applied ==> *final(self) == *old(self),
            final(self).present_mode == old(self).present_mode,
            final(self).alpha_mode == old(self).alpha_mode,
    {
        if width == 0 || height == 0 {
            return false;
        }
        self.width = width;
        self.height = height;
        true
    }
}

/// Reconfiguring twice to one size gives the configuration that
/// reconfiguring once gives.
pub proof fn lemma_reconfigure_idempotent(config: SurfaceConfig, width: u32, height: u32)
    ensures
        config.resized(width, height).resized(width, height) == config.resized(width, height),
{
}

/// A request with a zero width or a zero height leaves the configuration
/// unchanged, whatever the other side is.
pub proof fn lemma_degenerate_size_ignored(config: SurfaceConfig, width: u32, height: u32)
    requires
        width == 0 || height == 0,
    ensures
        config.resized(width, height) == config,
{
}

} // verus!
