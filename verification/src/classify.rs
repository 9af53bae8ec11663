//! Pulse-width classification: the tolerance predicate and the mapping from
//! a measured high-time in milliseconds to a symbol.

use vstd::prelude::*;
use crate::symbol::BitWidth;

verus! {

/// `elapsed` lies strictly within 20% of `nominal`:
/// `nominal * 0.8 < elapsed < nominal * 1.2`, stated over integers as
/// `4 * nominal < 5 * elapsed < 6 * nominal`, which is exact at this tolerance.
pub open spec fn in_width(elapsed: u32, nominal: u32) -> bool {
    4 * (nominal as int) < 5 * (elapsed as int) < 6 * (nominal as int)
}

/// The symbol a pulse of `elapsed` milliseconds classifies as: `Marker` near
/// 200 ms, `Short` near 500 ms, `Long` near 800 ms, `Unknown` elsewhere.
pub open spec fn classify_spec(elapsed: u32) -> BitWidth {
    if in_width(elapsed, 200) {
        BitWidth::Marker
    } else if in_width(elapsed, 500) {
        BitWidth::Short
    } else if in_width(elapsed, 800) {
        BitWidth::Long
    } else {
        BitWidth::Unknown
    }
}

/// The strict ±20% window around `right_hand`, checked on integers.
pub fn is_in_width(left_hand: u32, right_hand: u32) -> (r: bool)
    ensures
        r == in_width(left_hand, right_hand),
{
    let scaled: u64 = 5 * (left_hand as u64);
    4 * (right_hand as u64) < scaled && scaled < 6 * (right_hand as u64)
}

/// Classify a pulse width. The three accepting windows are strict and
/// pairwise disjoint: `Marker` on (160, 240), `Short` on (400, 600),
/// `Long` on (640, 960), `Unknown` everywhere else, boundaries included.
pub fn classify(elapsed_ms: u32) -> (r: BitWidth)
    ensures
        r == classify_spec(elapsed_ms),
        r is Marker <==> 160 < elapsed_ms < 240,
        r is Short <==> 400 < elapsed_ms < 600,
        r is Long <==> 640 < elapsed_ms < 960,
        r is Unknown <==> !(160 < elapsed_ms < 240 || 400 < elapsed_ms < 600 || 640 < elapsed_ms
            < 960),
{
    if is_in_width(elapsed_ms, 200) {
        BitWidth::Marker
    } else if is_in_width(elapsed_ms, 500) {
        BitWidth::Short
    } else if is_in_width(elapsed_ms, 800) {
        BitWidth::Long
    } else {
        BitWidth::Unknown
    }
}

/// For every nominal width and every measurement strictly inside its 20%
/// window, classification recovers the matching symbol; a measurement on
/// either boundary of a window classifies as no symbol of that window.
pub proof fn lemma_classifier_tolerance(nominal: u32, elapsed: u32)
    requires
        nominal == 200 || nominal == 500 || nominal == 800,
    ensures
        in_width(elapsed, nominal) && nominal == 200 ==> classify_spec(elapsed) is Marker,
        in_width(elapsed, nominal) && nominal == 500 ==> classify_spec(elapsed) is Short,
        in_width(elapsed, nominal) && nominal == 800 ==> classify_spec(elapsed) is Long,
        5 * (elapsed as int) == 4 * (nominal as int) ==> classify_spec(elapsed) is Unknown,
        5 * (elapsed as int) == 6 * (nominal as int) ==> classify_spec(elapsed) is Unknown,
{
}

/// The classifier is total and its image partitions `[0, 2000]` (indeed all
/// of `u32`) into the four labels; the accepting regions do not overlap.
pub proof fn lemma_classify_partition(elapsed: u32)
    ensures
        classify_spec(elapsed) is Marker <==> 160 < elapsed < 240,
        classify_spec(elapsed) is Short <==> 400 < elapsed < 600,
        classify_spec(elapsed) is Long <==> 640 < elapsed < 960,
        classify_spec(elapsed) is Unknown <==> !(160 < elapsed < 240 || 400 < elapsed < 600 || 640
            < elapsed < 960),
        !(160 < elapsed < 240 && 400 < elapsed < 600),
        !(400 < elapsed < 600 && 640 < elapsed < 960),
        !(160 < elapsed < 240 && 640 < elapsed < 960),
{
}

} // verus!
