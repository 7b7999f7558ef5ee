use vstd::prelude::*;

verus! {

/// How the window background lets the desktop through.
#[derive(Clone, Copy, Debug, PartialEq, Eq, Structural)]
pub enum WindowBackdrop {
    /// An opaque background.
    Opaque,
    Transparent,
    Acrylic,
}

impl WindowBackdrop {
    /// Every backdrop but `Opaque` needs a transparent window.
    pub fn is_transparent(self) -> (transparent: bool)
        ensures
            transparent == !(self is Opaque),
    {
        !matches!(self, WindowBackdrop::Opaque)
    }
}

/// Fixed settings of the window renderer.
pub struct RendererConfig;

impl RendererConfig {
    pub const WINDOW_BACKDROP: WindowBackdrop = WindowBackdrop::Acrylic;
    pub const WINDOW_ACRYLIC_TINT: (u8, u8, u8, u8) = (18, 18, 18, 190);
}

} // verus!
