use vstd::prelude::*;
use crate::ppu::PPU;

verus! {

/// Where the background map entry for column `pixel` of screen line `line` sits, with
/// no scroll: the map row of the line's eighth, and the map column of the pixel's
/// (both of the 32 in the 256-pixel map).
pub open spec fn unscrolled_map_offset(base: int, line: int, pixel: int) -> int {
    base + (line / 8 % 32) * 32 + pixel % 256 / 8
}

/// Vertical scroll: the background drawn at line `line` with SCY = s is what is
/// drawn at line (line + s) mod 256 with SCY = 0: the same map entry (map row
/// ((line + s) / 8) mod 32), the same tile row ((line + s) mod 8), the same colour.
/// Horizontal scroll is the same on columns. With no scroll at all, the map entry
/// of (line, pixel) is row line / 8 and column pixel / 8 of the map.
pub proof fn law_background_scroll(p: PPU, line: u32, pixel: int)
    requires
        0 <= pixel,
    ensures
        p.bg_map_offset(line, pixel) == (PPU { scroll_y: 0, ..p }).bg_map_offset(
            ((line + p.scroll_y) % 256) as u32,
            pixel,
        ),
        p.bg_color(line, pixel) == (PPU { scroll_y: 0, ..p }).bg_color(
            ((line + p.scroll_y) % 256) as u32,
            pixel,
        ),
        p.bg_map_offset(line, pixel) == (PPU { scroll_x: 0, ..p }).bg_map_offset(
            line,
            pixel + p.scroll_x,
        ),
        p.bg_color(line, pixel) == (PPU { scroll_x: 0, ..p }).bg_color(line, pixel + p.scroll_x),
        (PPU { scroll_x: 0, scroll_y: 0, ..p }).bg_map_offset(line, pixel) == unscrolled_map_offset(
            p.bg_map_base(),
            line as int,
            pixel,
        ),
{
    let t = line + p.scroll_y;
    let w = (t % 256) as u32;
    assert(t / 8 % 32 == (t % 256) / 8 % 32 && t % 8 == (t % 256) % 8) by (nonlinear_arith)
        requires
            t >= 0,
    ;
    let q = PPU { scroll_y: 0, ..p };
    assert(q.bg_map_offset(w, pixel) == p.bg_map_offset(line, pixel));
    assert(q.bg_tile_index(w, pixel) == p.bg_tile_index(line, pixel));
}


} // verus!
