use vstd::prelude::*;

verus! {

/// The palette of the window chrome, as 8-bit RGBA.
pub struct ThemeColor;

impl ThemeColor {
    pub const BLACK: [u8; 4] = [0, 0, 0, 255];
    pub const WHITE: [u8; 4] = [255, 255, 255, 255];
    pub const BLUE_GRAY_400: [u8; 4] = [140, 148, 160, 255];
    pub const BLUE_GRAY_700: [u8; 4] = [80, 88, 100, 255];
}

} // verus!
