//! The renderer's character stream: the 40-cell display line plus the
//! activity glyph, as HD44780 character codes, and the per-bit levels of
//! one parallel-bus data byte.

use vstd::prelude::*;
use crate::timebase::{TimeBase, extrapolated_clock};

verus! {

/// Display cells on the line, before the activity glyph.
pub const DISPLAY_CELLS: usize = 40;

/// Character code of a blank cell.
pub const CODE_SPACE: u8 = 0x20;

/// Character code of the digit separator.
pub const CODE_COLON: u8 = 0x3A;

/// Character code of the solid activity block.
pub const CODE_BLOCK: u8 = 0xFF;

/// The character code of a decimal digit.
pub open spec fn digit_code(d: int) -> u8 {
    (0x30 + d) as u8
}

/// The activity glyph: a solid block while the receiver senses carrier,
/// else a blank.
pub open spec fn glyph(status: bool) -> u8 {
    if status {
        0xFFu8
    } else {
        0x20u8
    }
}

/// Character `i` of the eight-character `HH:MM:SS` field for a
/// seconds-of-day count `t`.
pub open spec fn clock_char(t: int, i: int) -> u8 {
    if i == 0 {
        digit_code(t / 3600 / 10)
    } else if i == 1 {
        digit_code((t / 3600) % 10)
    } else if i == 2 {
        0x3Au8
    } else if i == 3 {
        digit_code(((t / 60) % 60) / 10)
    } else if i == 4 {
        digit_code(((t / 60) % 60) % 10)
    } else if i == 5 {
        0x3Au8
    } else if i == 6 {
        digit_code((t % 60) / 10)
    } else {
        digit_code((t % 60) % 10)
    }
}

/// Character `i` of the rendered line: with a time base, the extrapolated
/// `HH:MM:SS` padded with blanks; without one, `Sync` padded with blanks;
/// in either case the activity glyph in the last cell.
pub open spec fn render_char(tb: Option<TimeBase>, status: bool, now: u64, i: int) -> u8 {
    if i == DISPLAY_CELLS {
        glyph(status)
    } else {
        match tb {
            Some(t) => if i < 8 {
                clock_char(extrapolated_clock(t, now), i)
            } else {
                0x20u8
            },
            None => if i == 0 {
                0x53u8  // 'S'
            } else if i == 1 {
                0x79u8  // 'y'
            } else if i == 2 {
                0x6Eu8  // 'n'
            } else if i == 3 {
                0x63u8  // 'c'
            } else {
                0x20u8
            },
        }
    }
}

/// The whole rendered line: 40 display cells and the activity glyph.
pub open spec fn render_spec(tb: Option<TimeBase>, status: bool, now: u64) -> Seq<u8> {
    Seq::new((DISPLAY_CELLS + 1) as nat, |i: int| render_char(tb, status, now, i))
}

/// Render one display line from the renderer's state: the known time base,
/// the receiver-activity flag, and the current millisecond timestamp.
pub fn render_line(timebase: &Option<TimeBase>, jjy_status: bool, now: u64) -> (r: Vec<u8>)
    requires
        timebase matches Some(tb) ==> tb.system_time <= now && now <= u64::MAX - 25,
    ensures
        r@ == render_spec(*timebase, jjy_status, now),
{
    let mut r: Vec<u8> = Vec::new();
    match timebase {
        Some(tb) => {
            let t = tb.extrapolate(now);
            let (hour, minute, sec) = crate::timebase::split_clock(t);
            r.push(0x30 + (hour / 10) as u8);
            r.push(0x30 + (hour % 10) as u8);
            r.push(CODE_COLON);
            r.push(0x30 + (minute / 10) as u8);
            r.push(0x30 + (minute % 10) as u8);
            r.push(CODE_COLON);
            r.push(0x30 + (sec / 10) as u8);
            r.push(0x30 + (sec % 10) as u8);
            proof {
                assert forall|j: int| 0 <= j < 8 implies r@[j] == render_char(
                    *timebase,
                    jjy_status,
                    now,
                    j,
                ) by {
                    assert(t == extrapolated_clock(*tb, now));
                }
            }
            let mut i: usize = 8;
            while i < DISPLAY_CELLS
                invariant
                    8 <= i <= DISPLAY_CELLS,
                    r@.len() == i,
                    timebase is Some,
                    forall|j: int|
                        0 <= j < i ==> r@[j] == render_char(*timebase, jjy_status, now, j),
                decreases DISPLAY_CELLS - i,
            {
                r.push(CODE_SPACE);
                i += 1;
            }
        },
        None => {
            r.push(0x53);
            r.push(0x79);
            r.push(0x6E);
            r.push(0x63);
            let mut i: usize = 4;
            while i < DISPLAY_CELLS
                invariant
                    4 <= i <= DISPLAY_CELLS,
                    r@.len() == i,
                    timebase is None,
                    forall|j: int|
                        0 <= j < i ==> r@[j] == render_char(*timebase, jjy_status, now, j),
                decreases DISPLAY_CELLS - i,
            {
                r.push(CODE_SPACE);
                i += 1;
            }
        },
    }
    if jjy_status {
        r.push(CODE_BLOCK);
    } else {
        r.push(CODE_SPACE);
    }
    proof {
        assert(r@ =~= render_spec(*timebase, jjy_status, now));
    }
    r
}

/// The level each data line of the parallel bus takes for one byte:
/// element `i` is bit `i` of `data`, with `db0` the least significant.
pub fn byte_bits(data: u8) -> (r: Vec<bool>)
    ensures
        r@.len() == 8,
        forall|i: int| 0 <= i < 8 ==> r@[i] == (((data >> (i as u8)) & 1) == 1),
{
    let mut r: Vec<bool> = Vec::new();
    let mut i: u8 = 0;
    while i < 8
        invariant
            i <= 8,
            r@.len() == i as int,
            forall|j: int| 0 <= j < i as int ==> r@[j] == (((data >> (j as u8)) & 1) == 1),
        decreases 8 - i,
    {
        r.push(((data >> i) & 1) == 1);
        i += 1;
    }
    r
}

} // verus!
