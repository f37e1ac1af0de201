//! Random color selection: pick a palette entry from one random draw and
//! halve its brightness when a second draw is even.

use vstd::prelude::*;
use crate::color::MyColor;

verus! {

/// The fixed palette the demo cycles through.
pub open spec fn default_palette_spec() -> Seq<MyColor> {
    seq![
        MyColor(12, 24, 12),
        MyColor(48, 0, 0),
        MyColor(0, 48, 0),
        MyColor(0, 0, 48),
        MyColor(24, 24, 0),
        MyColor(24, 0, 24),
        MyColor(0, 24, 24),
    ]
}

/// Build the fixed seven-entry palette: white, red, green, blue, yellow,
/// magenta, cyan, each well below full intensity.
pub fn default_palette() -> (p: Vec<MyColor>)
    ensures
        p@ == default_palette_spec(),
        p@.len() == 7,
{
    let mut p: Vec<MyColor> = Vec::new();
    p.push(MyColor(12, 24, 12));
    p.push(MyColor(48, 0, 0));
    p.push(MyColor(0, 48, 0));
    p.push(MyColor(0, 0, 48));
    p.push(MyColor(24, 24, 0));
    p.push(MyColor(24, 0, 24));
    p.push(MyColor(0, 24, 24));
    proof {
        assert(p@ =~= default_palette_spec());
    }
    p
}

/// What the selector returns: the entry at `draw_index` modulo the palette
/// length, halved in brightness exactly when `draw_half` is even.
pub open spec fn select_spec(palette: Seq<MyColor>, draw_index: u32, draw_half: u32) -> MyColor
    recommends
        palette.len() > 0,
{
    let c = palette[draw_index as int % palette.len() as int];
    if draw_half % 2 == 0 {
        c.half_spec()
    } else {
        c
    }
}

/// Select one palette entry from two random draws. The index is the first
/// draw modulo the palette length (slightly biased when the length does not
/// divide the draw's range evenly — kept as the documented behavior); the
/// entry's brightness is halved exactly when the second draw is even.
pub fn select_color(palette: &Vec<MyColor>, draw_index: u32, draw_half: u32) -> (c: MyColor)
    requires
        palette@.len() > 0,
    ensures
        c == select_spec(palette@, draw_index, draw_half),
        exists|i: int|
            0 <= i < palette@.len() && (c == palette@[i] || c == palette@[i].half_spec()),
{
    let i: usize = (draw_index as usize) % palette.len();
    let c = palette[i];
    proof {
        assert(c == palette@[draw_index as int % palette@.len() as int]);
    }
    if draw_half % 2 == 0 {
        c.half_brightness()
    } else {
        c
    }
}

/// With a one-entry palette the selector always lands on that entry: the
/// index draw is irrelevant, and only the evenness of the second draw decides
/// whether the entry comes back as it is or halved in brightness.
pub proof fn lemma_singleton_palette(palette: Seq<MyColor>, draw_index: u32, draw_half: u32)
    requires
        palette.len() == 1,
    ensures
        draw_half % 2 != 0 ==> select_spec(palette, draw_index, draw_half) == palette[0],
        draw_half % 2 == 0 ==> select_spec(palette, draw_index, draw_half) == palette[0].half_spec(),
{
    assert(draw_index as int % 1int == 0);
}

/// Halving any palette entry divides each of its channels by two, rounding
/// down.
pub proof fn lemma_half_brightness_channels(palette: Seq<MyColor>, i: int)
    requires
        0 <= i < palette.len(),
    ensures
        palette[i].half_spec().0 == palette[i].0 / 2,
        palette[i].half_spec().1 == palette[i].1 / 2,
        palette[i].half_spec().2 == palette[i].2 / 2,
{
}

} // verus!
