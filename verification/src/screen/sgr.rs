//! Apply ANSI Select Graphic Rendition (SGR) parameters to a cell style.
use vstd::prelude::*;
use crate::screen::cell::{CellStyle, Rgba};

verus! {

/// The 16-color palette, the index saturated at 15.
pub open spec fn spec_ansi_16(index: int) -> Rgba {
    if index <= 0 { [12u8, 12u8, 12u8, 255u8] }
    else if index == 1 { [197u8, 15u8, 31u8, 255u8] }
    else if index == 2 { [19u8, 161u8, 14u8, 255u8] }
    else if index == 3 { [193u8, 156u8, 0u8, 255u8] }
    else if index == 4 { [0u8, 55u8, 218u8, 255u8] }
    else if index == 5 { [136u8, 23u8, 152u8, 255u8] }
    else if index == 6 { [58u8, 150u8, 221u8, 255u8] }
    else if index == 7 { [204u8, 204u8, 204u8, 255u8] }
    else if index == 8 { [118u8, 118u8, 118u8, 255u8] }
    else if index == 9 { [231u8, 72u8, 86u8, 255u8] }
    else if index == 10 { [22u8, 198u8, 12u8, 255u8] }
    else if index == 11 { [249u8, 241u8, 165u8, 255u8] }
    else if index == 12 { [59u8, 120u8, 255u8, 255u8] }
    else if index == 13 { [180u8, 0u8, 158u8, 255u8] }
    else if index == 14 { [97u8, 214u8, 214u8, 255u8] }
    else { [242u8, 242u8, 242u8, 255u8] }
}

/// One channel of the 6x6x6 color cube.
pub open spec fn spec_cube_component(level: int) -> u8 {
    if level == 0 { 0 } else if 55 + level * 40 >= 255 { 255 } else { (55 + level * 40) as u8 }
}

/// The 256-color palette: 16 base colors, a 6x6x6 cube and a gray ramp.
pub open spec fn spec_ansi_256(index: int) -> Rgba {
    if index <= 15 {
        spec_ansi_16(index)
    } else if index <= 231 {
        let c = index - 16;
        [spec_cube_component(c / 36), spec_cube_component((c % 36) / 6), spec_cube_component(c % 6), 255u8]
    } else if index <= 255 {
        let gray = 8 + (index - 232) * 10;
        let g: u8 = if gray >= 255 { 255u8 } else { gray as u8 };
        [g, g, g, 255u8]
    } else {
        spec_ansi_16(7)
    }
}

/// How many parameters an extended color (38, 48 or 58) starting at `i` occupies.
pub open spec fn spec_extended_count(params: Seq<u16>, i: int) -> int {
    if i + 1 < params.len() && params[i + 1] == 5 { 3 }
    else if i + 1 < params.len() && params[i + 1] == 2 { 5 }
    else { 1 }
}

/// One channel of a true color, zero where it is missing and saturated at 255.
pub open spec fn spec_channel(params: Seq<u16>, i: int) -> u8 {
    if i < params.len() { if params[i] >= 255 { 255u8 } else { params[i] as u8 } } else { 0u8 }
}

/// The color that an extended color selection at `i` names, if it names one.
pub open spec fn spec_extended_color(params: Seq<u16>, i: int) -> Option<Rgba> {
    if i + 1 < params.len() && params[i + 1] == 5 {
        if i + 2 < params.len() { Some(spec_ansi_256(params[i + 2] as int)) } else { None }
    } else if i + 1 < params.len() && params[i + 1] == 2 {
        Some([spec_channel(params, i + 2), spec_channel(params, i + 3), spec_channel(params, i + 4), 255u8])
    } else {
        None
    }
}

/// The index `count` parameters after `i`, stopping at the end of the list.
pub open spec fn spec_skip(params: Seq<u16>, i: int, count: int) -> int {
    if i + count >= params.len() { params.len() as int } else { i + count }
}

/// The style after applying the parameters from index `i` on.
pub open spec fn spec_apply_from(style: CellStyle, params: Seq<u16>, i: int) -> CellStyle
    decreases params.len() - i,
{
    if i < 0 || i >= params.len() {
        style
    } else {
        let code = params[i];
        if code == 38 || code == 48 {
            let next = match spec_extended_color(params, i) {
                Some(c) => if code == 38 { CellStyle { fg_rgba: Some(c), ..style } } else { CellStyle { bg_rgba: Some(c), ..style } },
                None => style,
            };
            spec_apply_from(next, params, spec_skip(params, i, spec_extended_count(params, i)))
        } else if code == 58 {
            spec_apply_from(style, params, spec_skip(params, i, spec_extended_count(params, i)))
        } else {
            spec_apply_from(spec_apply_code(style, code), params, i + 1)
        }
    }
}

/// The effect of one SGR code that takes no further parameters.
pub open spec fn spec_apply_code(style: CellStyle, code: u16) -> CellStyle {
    if code == 0 { CellStyle::spec_plain() }
    else if code == 2 { CellStyle { faint: true, ..style } }
    else if code == 22 { CellStyle { faint: false, ..style } }
    else if 30 <= code <= 37 { CellStyle { fg_rgba: Some(spec_ansi_16(code - 30)), ..style } }
    else if 90 <= code <= 97 { CellStyle { fg_rgba: Some(spec_ansi_16(code - 90 + 8)), ..style } }
    else if code == 39 { CellStyle { fg_rgba: None, ..style } }
    else if 40 <= code <= 47 { CellStyle { bg_rgba: Some(spec_ansi_16(code - 40)), ..style } }
    else if 100 <= code <= 107 { CellStyle { bg_rgba: Some(spec_ansi_16(code - 100 + 8)), ..style } }
    else if code == 49 { CellStyle { bg_rgba: None, ..style } }
    else { style }
}

/// SGR 90 to 97 pick the bright foreground colors, entries 8 to 15 of the palette: each
/// differs from the normal color that the code 60 below it (30 to 37) picks, and nothing
/// but the foreground changes.
pub proof fn lemma_bright_foregrounds(style: CellStyle, code: u16)
    requires
        90 <= code <= 97,
    ensures
        spec_apply_from(style, seq![code], 0) == (CellStyle { fg_rgba: Some(spec_ansi_16(code - 82)), ..style }),
        spec_apply_from(style, seq![code], 0).fg_rgba != spec_apply_from(style, seq![(code - 60) as u16], 0).fg_rgba,
        spec_apply_from(style, seq![(code - 60) as u16], 0).fg_rgba == Some(spec_ansi_16(code - 90)),
{
    reveal_with_fuel(spec_apply_from, 2);
    let bright = seq![code];
    let normal = seq![(code - 60) as u16];
    assert(bright[0] == code);
    assert(normal[0] == code - 60);
}

/// The sixteen-color SGR codes, for `i` from 0 to 7: 30 + i and 90 + i set the foreground
/// to palette entry i and its bright entry 8 + i, 40 + i and 100 + i do the same for the
/// background, each keeping the other color and the attributes; a bright entry never equals
/// its normal one. 39 and 49 reset the foreground and the background alone, and 0 resets all.
pub proof fn lemma_sixteen_color_codes(style: CellStyle, i: u16)
    requires
        i < 8,
    ensures
        spec_apply_from(style, seq![(30 + i) as u16], 0) == (CellStyle { fg_rgba: Some(spec_ansi_16(i as int)), ..style }),
        spec_apply_from(style, seq![(90 + i) as u16], 0) == (CellStyle { fg_rgba: Some(spec_ansi_16(i + 8)), ..style }),
        spec_apply_from(style, seq![(40 + i) as u16], 0) == (CellStyle { bg_rgba: Some(spec_ansi_16(i as int)), ..style }),
        spec_apply_from(style, seq![(100 + i) as u16], 0) == (CellStyle { bg_rgba: Some(spec_ansi_16(i + 8)), ..style }),
        spec_ansi_16(i as int) != spec_ansi_16(i + 8),
        spec_apply_from(style, seq![39u16], 0) == (CellStyle { fg_rgba: None, ..style }),
        spec_apply_from(style, seq![49u16], 0) == (CellStyle { bg_rgba: None, ..style }),
        spec_apply_from(style, seq![0u16], 0) == CellStyle::spec_plain(),
{
    reveal_with_fuel(spec_apply_from, 2);
    assert(seq![(30 + i) as u16][0] == 30 + i);
    assert(seq![(90 + i) as u16][0] == 90 + i);
    assert(seq![(40 + i) as u16][0] == 40 + i);
    assert(seq![(100 + i) as u16][0] == 100 + i);
    assert(seq![39u16][0] == 39);
    assert(seq![49u16][0] == 49);
    assert(seq![0u16][0] == 0);
}

/// Applies every parameter of one SGR sequence, in order.
pub fn apply(style: &mut CellStyle, params: &[u16])
    ensures
        *final(style) == spec_apply_from(*old(style), params@, 0),
{
    let mut index: usize = 0;
    while index < params.len()
        invariant
            index <= params.len(),
            spec_apply_from(*style, params@, index as int) == spec_apply_from(*old(style), params@, 0),
        decreases params.len() - index,
    {
        let code = params[index];
        if code == 38 || code == 48 {
            let color = extended_color(params, index);
            if let Some(c) = color {
                if code == 38 { style.fg_rgba = Some(c); } else { style.bg_rgba = Some(c); }
            }
            index = advance(params, index, extended_color_param_count(params, index));
        } else if code == 58 {
            index = advance(params, index, extended_color_param_count(params, index));
        } else {
            apply_code(style, code);
            index = index + 1;
        }
    }
}

/// Moves past `count` parameters, stopping at the end of the list.
fn advance(params: &[u16], index: usize, count: usize) -> (next: usize)
    requires
        index < params@.len(),
    ensures
        next == spec_skip(params@, index as int, count as int),
{
    if params.len() - index <= count { params.len() } else { index + count }
}

fn apply_code(style: &mut CellStyle, code: u16)
    ensures
        *final(style) == spec_apply_code(*old(style), code),
{
    if code == 0 {
        *style = CellStyle::plain();
    } else if code == 2 {
        style.faint = true;
    } else if code == 22 {
        style.faint = false;
    } else if 30 <= code && code <= 37 {
        style.fg_rgba = Some(ansi_16_color((code - 30) as usize));
    } else if 90 <= code && code <= 97 {
        style.fg_rgba = Some(ansi_16_color((code - 90 + 8) as usize));
    } else if code == 39 {
        style.fg_rgba = None;
    } else if 40 <= code && code <= 47 {
        style.bg_rgba = Some(ansi_16_color((code - 40) as usize));
    } else if 100 <= code && code <= 107 {
        style.bg_rgba = Some(ansi_16_color((code - 100 + 8) as usize));
    } else if code == 49 {
        style.bg_rgba = None;
    }
}

/// How many parameters the extended color selection at `index` occupies.
pub fn extended_color_param_count(params: &[u16], index: usize) -> (count: usize)
    requires
        index < params@.len(),
    ensures
        count == spec_extended_count(params@, index as int),
{
    if params.len() - index > 1 && params[index + 1] == 5 {
        3
    } else if params.len() - index > 1 && params[index + 1] == 2 {
        5
    } else {
        1
    }
}

fn channel(params: &[u16], index: usize, offset: usize) -> (c: u8)
    requires
        index < params@.len(),
    ensures
        c == spec_channel(params@, index + offset),
{
    if params.len() - index > offset {
        let v = params[index + offset];
        if v >= 255 { 255 } else { v as u8 }
    } else {
        0
    }
}

/// The color that the extended selection at `index` names (`38;5;n` or `38;2;r;g;b`).
pub fn extended_color(params: &[u16], index: usize) -> (color: Option<Rgba>)
    requires
        index < params@.len(),
    ensures
        color == spec_extended_color(params@, index as int),
{
    if params.len() - index > 1 && params[index + 1] == 5 {
        if params.len() - index > 2 {
            Some(ansi_256_color(params[index + 2] as usize))
        } else {
            None
        }
    } else if params.len() - index > 1 && params[index + 1] == 2 {
        Some([channel(params, index, 2), channel(params, index, 3), channel(params, index, 4), 255])
    } else {
        None
    }
}

/// A color of the 16-color palette.
pub fn ansi_16_color(index: usize) -> (color: Rgba)
    ensures
        color == spec_ansi_16(index as int),
{
    match index {
        0 => [12, 12, 12, 255],
        1 => [197, 15, 31, 255],
        2 => [19, 161, 14, 255],
        3 => [193, 156, 0, 255],
        4 => [0, 55, 218, 255],
        5 => [136, 23, 152, 255],
        6 => [58, 150, 221, 255],
        7 => [204, 204, 204, 255],
        8 => [118, 118, 118, 255],
        9 => [231, 72, 86, 255],
        10 => [22, 198, 12, 255],
        11 => [249, 241, 165, 255],
        12 => [59, 120, 255, 255],
        13 => [180, 0, 158, 255],
        14 => [97, 214, 214, 255],
        _ => [242, 242, 242, 255],
    }
}

/// A color of the 256-color palette.
pub fn ansi_256_color(index: usize) -> (color: Rgba)
    ensures
        color == spec_ansi_256(index as int),
{
    if index <= 15 {
        ansi_16_color(index)
    } else if index <= 231 {
        let cube_index = index - 16;
        let red = cube_index / 36;
        let green = (cube_index % 36) / 6;
        let blue = cube_index % 6;
        [cube_component(red), cube_component(green), cube_component(blue), 255]
    } else if index <= 255 {
        let gray_wide = 8 + (index - 232) * 10;
        let gray: u8 = if gray_wide >= 255 { 255 } else { gray_wide as u8 };
        [gray, gray, gray, 255]
    } else {
        ansi_16_color(7)
    }
}

/// One channel of the color cube for a level between 0 and 5.
pub fn cube_component(level: usize) -> (c: u8)
    requires
        level <= 5,
    ensures
        c == spec_cube_component(level as int),
{
    if level == 0 {
        0
    } else if 55 + level * 40 >= 255 {
        255
    } else {
        (55 + level * 40) as u8
    }
}

} // verus!
