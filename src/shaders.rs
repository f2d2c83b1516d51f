use vstd::prelude::*;
use crate::color::{Color, rgb};

verus! {

/// Largest bit pattern of a binary64 value that compares above zero: positive
/// infinity. Patterns above it with a clear sign bit are NaNs.
pub const POSITIVE_INFINITY_BITS: u64 = 0x7ff0_0000_0000_0000;

/// Whether the binary64 value with these bits compares greater than `0.0`:
/// its sign bit is clear, it is not a zero, and it is not a NaN.
pub open spec fn sample_above_zero(bits: u64) -> bool {
    0 < bits <= POSITIVE_INFINITY_BITS
}

/// The factor by which each coordinate of a fragment's position is scaled
/// before the noise field is sampled, for the planets whose colour depends on
/// noise; `None` for the others.
pub open spec fn noise_scale_of(planet_type: u32) -> Option<u32> {
    if planet_type == 4 {
        Some(10)
    } else if planet_type == 6 {
        Some(5)
    } else {
        None
    }
}

/// The colour of a fragment of the planet `planet_type`, where
/// `noise_positive` tells whether the noise sample at the scaled position is
/// above zero (it matters only where `noise_scale_of` gives a factor).
pub open spec fn planet_color(planet_type: u32, noise_positive: bool) -> Color {
    if planet_type == 0 {
        rgb(255, 223, 0)
    } else if planet_type == 1 {
        rgb(169, 169, 169)
    } else if planet_type == 2 {
        rgb(205, 133, 63)
    } else if planet_type == 3 {
        rgb(0, 102, 204)
    } else if planet_type == 4 {
        if noise_positive { rgb(178, 34, 34) } else { rgb(139, 69, 19) }
    } else if planet_type == 5 {
        rgb(255, 165, 0)
    } else if planet_type == 6 {
        if noise_positive { rgb(210, 180, 140) } else { rgb(189, 183, 107) }
    } else if planet_type == 7 {
        rgb(173, 216, 230)
    } else if planet_type == 8 {
        rgb(0, 0, 255)
    } else {
        rgb(255, 255, 255)
    }
}

/// Tells whether a noise sample, given by its binary64 bits
/// (`f64::to_bits`), is strictly above zero. Zeros of either sign, negative
/// values and NaNs are not.
pub fn noise_above_zero(sample_bits: u64) -> (r: bool)
    ensures
        r == sample_above_zero(sample_bits),
        sample_bits == 0 ==> !r,
        sample_bits >= 0x8000_0000_0000_0000 ==> !r,
{
    0 < sample_bits && sample_bits <= POSITIVE_INFINITY_BITS
}

/// The scale factor at which the planet's surface samples the noise field,
/// the same on all three axes; `None` where its colour is constant.
pub fn noise_scale(planet_type: u32) -> (r: Option<u32>)
    ensures
        r == noise_scale_of(planet_type),
        planet_type == 4 ==> r == Some(10u32),
        planet_type == 6 ==> r == Some(5u32),
{
    match planet_type {
        4 => Some(10),
        6 => Some(5),
        _ => None,
    }
}

/// The colour of a fragment: one rule per planet type, white for any
/// type outside `0..=8`.
pub fn fragment_shader(planet_type: u32, noise_positive: bool) -> (c: Color)
    ensures
        c == planet_color(planet_type, noise_positive),
        planet_type == 0 ==> c == rgb(255, 223, 0),
        planet_type > 8 ==> c == rgb(255, 255, 255),
{
    match planet_type {
        0 => sun_shader(),
        1 => mercury_shader(),
        2 => venus_shader(),
        3 => earth_shader(),
        4 => mars_shader(noise_positive),
        5 => jupiter_shader(),
        6 => saturn_shader(noise_positive),
        7 => uranus_shader(),
        8 => neptune_shader(),
        _ => Color::new(255, 255, 255),
    }
}

/// Bright yellow.
pub fn sun_shader() -> (c: Color)
    ensures
        c == planet_color(0, false),
{
    Color::new(255, 223, 0)
}

/// Dark grey.
pub fn mercury_shader() -> (c: Color)
    ensures
        c == planet_color(1, false),
{
    Color::new(169, 169, 169)
}

/// Orange-brown.
pub fn venus_shader() -> (c: Color)
    ensures
        c == planet_color(2, false),
{
    Color::new(205, 133, 63)
}

/// Blue.
pub fn earth_shader() -> (c: Color)
    ensures
        c == planet_color(3, false),
{
    Color::new(0, 102, 204)
}

/// Intense red where the noise is above zero, reddish brown elsewhere.
pub fn mars_shader(noise_positive: bool) -> (c: Color)
    ensures
        c == planet_color(4, noise_positive),
        noise_positive ==> c == rgb(178, 34, 34),
        !noise_positive ==> c == rgb(139, 69, 19),
{
    if noise_positive {
        Color::new(178, 34, 34)
    } else {
        Color::new(139, 69, 19)
    }
}

/// Orange.
pub fn jupiter_shader() -> (c: Color)
    ensures
        c == planet_color(5, false),
{
    Color::new(255, 165, 0)
}

/// Light beige where the noise is above zero, greyish yellow elsewhere.
pub fn saturn_shader(noise_positive: bool) -> (c: Color)
    ensures
        c == planet_color(6, noise_positive),
        noise_positive ==> c == rgb(210, 180, 140),
        !noise_positive ==> c == rgb(189, 183, 107),
{
    if noise_positive {
        Color::new(210, 180, 140)
    } else {
        Color::new(189, 183, 107)
    }
}

/// Light blue.
pub fn uranus_shader() -> (c: Color)
    ensures
        c == planet_color(7, false),
{
    Color::new(173, 216, 230)
}

/// Deep blue.
pub fn neptune_shader() -> (c: Color)
    ensures
        c == planet_color(8, false),
{
    Color::new(0, 0, 255)
}

/// A planet that samples no noise has one colour: what the noise would say
/// at a fragment, and so the fragment's position, does not change it.
pub proof fn lemma_constant_planets_ignore_noise(planet_type: u32, a: bool, b: bool)
    requires
        noise_scale_of(planet_type) is None,
    ensures
        planet_color(planet_type, a) == planet_color(planet_type, b),
{
}

/// The planets that sample noise are exactly those whose colour can change
/// with the sample.
pub proof fn lemma_noise_matters_exactly_where_sampled(planet_type: u32)
    ensures
        noise_scale_of(planet_type) is Some <==> planet_color(planet_type, true)
            != planet_color(planet_type, false),
{
}

} // verus!
