//! The sky's palette and the day/night cycle's clock.
use vstd::prelude::*;
use crate::random::gen_range_u32;

verus! {

/// Entries in the game's palette.
pub const PALETTE_SIZE: usize = 16;

/// An 8-bit RGBA color.
#[derive(Clone, Copy, Debug, PartialEq, Eq, Structural)]
pub struct Rgba {
    pub r: u8,
    pub g: u8,
    pub b: u8,
    pub a: u8,
}

/// The game's sixteen opaque colors, darkest first.
pub open spec fn spec_palette(index: int) -> Rgba {
    let (r, g, b): (u8, u8, u8) = if index == 0 {
        (29, 24, 25)
    } else if index == 1 {
        (72, 38, 50)
    } else if index == 2 {
        (39, 54, 53)
    } else if index == 3 {
        (77, 61, 47)
    } else if index == 4 {
        (147, 54, 51)
    } else if index == 5 {
        (49, 100, 54)
    } else if index == 6 {
        (130, 92, 58)
    } else if index == 7 {
        (185, 83, 88)
    } else if index == 8 {
        (199, 115, 49)
    } else if index == 9 {
        (97, 122, 111)
    } else if index == 10 {
        (127, 165, 51)
    } else if index == 11 {
        (202, 152, 100)
    } else if index == 12 {
        (175, 170, 148)
    } else if index == 13 {
        (125, 207, 168)
    } else if index == 14 {
        (231, 220, 88)
    } else {
        (247, 246, 219)
    };
    Rgba { r, g, b, a: 255 }
}

/// Entry `index` of the palette.
pub fn palette(index: usize) -> (c: Rgba)
    requires
        index < PALETTE_SIZE,
    ensures
        c == spec_palette(index as int),
{
    let (r, g, b): (u8, u8, u8) = match index {
        0 => (29, 24, 25),
        1 => (72, 38, 50),
        2 => (39, 54, 53),
        3 => (77, 61, 47),
        4 => (147, 54, 51),
        5 => (49, 100, 54),
        6 => (130, 92, 58),
        7 => (185, 83, 88),
        8 => (199, 115, 49),
        9 => (97, 122, 111),
        10 => (127, 165, 51),
        11 => (202, 152, 100),
        12 => (175, 170, 148),
        13 => (125, 207, 168),
        14 => (231, 220, 88),
        _ => (247, 246, 219),
    };
    Rgba { r, g, b, a: 255 }
}

/// A vertical sky gradient, from `start` to `end`.
#[derive(Clone, Copy, Debug, PartialEq, Eq, Structural)]
pub struct Sky {
    pub start: Rgba,
    pub end: Rgba,
}

impl Sky {
    /// Full daylight.
    pub fn day() -> (s: Sky)
        ensures
            s == (Sky { start: spec_palette(13), end: spec_palette(15) }),
    {
        Sky { start: palette(13), end: palette(15) }
    }

    /// Sunset and sunrise.
    pub fn sun_set_rise() -> (s: Sky)
        ensures
            s == (Sky { start: spec_palette(8), end: spec_palette(4) }),
    {
        Sky { start: palette(8), end: palette(4) }
    }

    /// Night: one flat dark color.
    pub fn night() -> (s: Sky)
        ensures
            s == (Sky { start: spec_palette(0), end: spec_palette(0) }),
    {
        Sky { start: palette(0), end: palette(0) }
    }
}

impl Default for Sky {
    fn default() -> (s: Sky)
        ensures
            s == (Sky { start: spec_palette(8), end: spec_palette(4) }),
    {
        Sky::sun_set_rise()
    }
}

/// How far `world_time` is into the current day/night cycle.
pub fn cycle_phase(world_time: u64, cycle_time: u64) -> (r: u64)
    requires
        cycle_time > 0,
    ensures
        r == world_time % cycle_time,
        r < cycle_time,
{
    world_time % cycle_time
}

/// The point of the cycle half a cycle before `world_time`: where the body
/// that shines at night stands while the sun is below the horizon.
pub fn opposite_phase(world_time: u64, cycle_time: u64) -> (r: u64)
    requires
        cycle_time > 0,
    ensures
        r == (world_time - cycle_time / 2) % (cycle_time as int),
        r < cycle_time,
{
    let phase = world_time % cycle_time;
    let half = cycle_time / 2;
    proof {
        let c = cycle_time as int;
        let t = world_time as int;
        vstd::arithmetic::div_mod::lemma_fundamental_div_mod(t, c);
        if phase >= half {
            vstd::arithmetic::div_mod::lemma_mod_multiples_vanish(t / c, phase - half, c);
            vstd::arithmetic::div_mod::lemma_small_mod((phase - half) as nat, c as nat);
        } else {
            vstd::arithmetic::div_mod::lemma_mod_multiples_vanish(t / c - 1, phase + (c - half), c);
            vstd::arithmetic::div_mod::lemma_small_mod((phase + (c - half)) as nat, c as nat);
            assert(t - half == c * (t / c - 1) + (phase + (c - half))) by (nonlinear_arith)
                requires
                    t == c * (t / c) + phase,
            ;
        }
    }
    if phase >= half {
        phase - half
    } else {
        phase + (cycle_time - half)
    }
}

/// The bytes of a `width` by `height` RGBA noise texture: four random bytes
/// per pixel, each below 255.
pub fn rgba_noise(width: u16, height: u16) -> (bytes: Vec<u8>)
    requires
        width * height * 4 <= usize::MAX,
    ensures
        bytes@.len() == width * height * 4,
        forall|i: int| 0 <= i < bytes@.len() ==> bytes@[i] < 255,
{
    assert(0 <= width * height <= width * height * 4) by (nonlinear_arith);
    let n: usize = width as usize * height as usize * 4;
    let mut bytes: Vec<u8> = Vec::with_capacity(n);
    let mut i: usize = 0;
    while i < n
        invariant
            i <= n,
            bytes@.len() == i,
            forall|j: int| 0 <= j < i ==> bytes@[j] < 255,
        decreases n - i,
    {
        let b = gen_range_u32(0, 255);
        bytes.push(b as u8);
        i = i + 1;
    }
    bytes
}

} // verus!
