//! The optional tone curve: a table from input level to output level.

use vstd::prelude::*;
use crate::raster::Rgb;

verus! {

/// Number of entries of a curve table: one per level.
pub const CURVE_LEN: usize = 256;

/// A table is a curve exactly when it has one entry per level.
pub open spec fn is_curve(table: Seq<u8>) -> bool {
    table.len() == CURVE_LEN
}

/// Whether a curve is in effect: a table was supplied and it is a curve.
pub open spec fn curve_in_effect(lut: Option<&[u8]>) -> bool {
    match lut {
        Some(table) => is_curve(table@),
        None => false,
    }
}

/// What a curve makes of a pixel: each channel is looked up on its own, in
/// the same table.
pub open spec fn curved(table: Seq<u8>, p: Rgb) -> Rgb {
    Rgb { r: table[p.r as int], g: table[p.g as int], b: table[p.b as int] }
}

/// Keeps a supplied table only if it is a curve. A table of any other
/// length is dropped without complaint, as if none had been supplied.
pub fn usable_curve<'a>(lut: Option<&'a [u8]>) -> (r: Option<&'a [u8]>)
    ensures
        r == if curve_in_effect(lut) {
            lut
        } else {
            None
        },
{
    match lut {
        Some(table) => {
            if table.len() == CURVE_LEN {
                Some(table)
            } else {
                None
            }
        },
        None => None,
    }
}

/// Looks one level up in a curve.
pub fn curve_level(table: &[u8], level: u8) -> (r: u8)
    requires
        is_curve(table@),
    ensures
        r == table@[level as int],
{
    table[level as usize]
}

/// Sends a pixel through a curve, channel by channel.
pub fn apply_curve(table: &[u8], p: Rgb) -> (r: Rgb)
    requires
        is_curve(table@),
    ensures
        r == curved(table@, p),
{
    Rgb { r: curve_level(table, p.r), g: curve_level(table, p.g), b: curve_level(table, p.b) }
}

} // verus!
