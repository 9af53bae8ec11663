//! The frame decoder: aligns to the double-marker frame start, buffers the
//! incoming symbols, and at cursor 38 decodes the captured prefix into a
//! time base.

use vstd::prelude::*;
use crate::symbol::BitWidth;
use crate::frame::{decode_ok, hour_value, minute_value, to_minute_hour_day};
use crate::timebase::TimeBase;

verus! {

/// Symbols per frame: one per second of the minute.
pub const FRAME_LEN: usize = 60;

/// The cursor position at which the captured prefix is decoded, before the
/// symbol for that position is stored.
pub const DECODE_CURSOR: usize = 38;

/// The decoder's state as the contracts see it: the frame buffer, the next
/// write position, whether a frame is being recorded, and whether the
/// previous symbol was a `Marker`.
#[verifier::ext_equal]
pub struct DecoderModel {
    pub buffer: Seq<BitWidth>,
    pub cursor: int,
    pub recording: bool,
    pub previous_is_marker: bool,
}

impl DecoderModel {
    /// The buffer holds one frame and the cursor stays inside it.
    pub open spec fn wf(self) -> bool {
        &&& self.buffer.len() == FRAME_LEN
        &&& 0 <= self.cursor < FRAME_LEN
    }
}

/// The state the decoder starts in: an all-`Unknown` buffer, cursor 0, not
/// recording, no marker seen.
pub open spec fn initial_model() -> DecoderModel {
    DecoderModel {
        buffer: Seq::new(FRAME_LEN as nat, |i: int| BitWidth::Unknown),
        cursor: 0,
        recording: false,
        previous_is_marker: false,
    }
}

/// The incoming symbol completes a double marker: frame start.
pub open spec fn frame_start(st: DecoderModel, sym: BitWidth) -> bool {
    sym is Marker && st.previous_is_marker
}

/// One step of the decoder on an incoming symbol. `Unknown` resets the
/// framing state; a double marker (re)starts recording at position 0; while
/// recording, reaching cursor 38 first decodes the captured prefix — on
/// failure the framing state resets and nothing is stored — and otherwise
/// the symbol is stored and the cursor advances modulo the frame length.
pub open spec fn step_model(st: DecoderModel, sym: BitWidth) -> DecoderModel {
    if sym is Unknown {
        DecoderModel {
            buffer: st.buffer,
            cursor: 0,
            recording: false,
            previous_is_marker: st.previous_is_marker,
        }
    } else {
        let prev = sym is Marker;
        let rec = st.recording || frame_start(st, sym);
        let cur = if frame_start(st, sym) {
            0int
        } else {
            st.cursor
        };
        if rec {
            if cur == DECODE_CURSOR {
                if decode_ok(st.buffer) {
                    DecoderModel {
                        buffer: st.buffer.update(cur, sym),
                        cursor: cur + 1,
                        recording: true,
                        previous_is_marker: prev,
                    }
                } else {
                    DecoderModel {
                        buffer: st.buffer,
                        cursor: 0,
                        recording: false,
                        previous_is_marker: prev,
                    }
                }
            } else {
                DecoderModel {
                    buffer: st.buffer.update(cur, sym),
                    cursor: (cur + 1) % (FRAME_LEN as int),
                    recording: true,
                    previous_is_marker: prev,
                }
            }
        } else {
            DecoderModel { buffer: st.buffer, cursor: cur, recording: false, previous_is_marker: prev }
        }
    }
}

/// Whether this step publishes a time base: the decoder is recording, the
/// cursor stands at 38 without a fresh frame start, the symbol is usable,
/// and the captured prefix decodes.
pub open spec fn step_emits(st: DecoderModel, sym: BitWidth) -> bool {
    &&& !(sym is Unknown)
    &&& (st.recording || frame_start(st, sym))
    &&& (if frame_start(st, sym) {
        0int
    } else {
        st.cursor
    }) == DECODE_CURSOR
    &&& decode_ok(st.buffer)
}

/// The time base a successful decode publishes: the frame-start edge's
/// timestamp, and the decoded minute and hour plus the 38 seconds that
/// have elapsed since the frame's position-0 marker.
pub open spec fn emitted_timebase(st: DecoderModel, up_at: u64) -> TimeBase {
    TimeBase {
        system_time: up_at,
        clock: (minute_value(st.buffer) * 60 + hour_value(st.buffer) * 3600 + 38) as u32,
    }
}

/// What one step returns to be published.
pub open spec fn step_output(st: DecoderModel, sym: BitWidth, up_at: u64) -> Option<TimeBase> {
    if step_emits(st, sym) {
        Some(emitted_timebase(st, up_at))
    } else {
        None
    }
}

/// The frame decoder's concrete state.
pub struct FrameDecoder {
    pub buffer: Vec<BitWidth>,
    pub cursor: usize,
    pub recording: bool,
    pub previous_is_marker: bool,
}

impl View for FrameDecoder {
    type V = DecoderModel;

    open spec fn view(&self) -> DecoderModel {
        DecoderModel {
            buffer: self.buffer@,
            cursor: self.cursor as int,
            recording: self.recording,
            previous_is_marker: self.previous_is_marker,
        }
    }
}

impl FrameDecoder {
    /// A decoder in its initial state.
    pub fn new() -> (r: FrameDecoder)
        ensures
            r@ == initial_model(),
            r@.wf(),
    {
        let r = FrameDecoder {
            buffer: vec![BitWidth::Unknown; FRAME_LEN],
            cursor: 0,
            recording: false,
            previous_is_marker: false,
        };
        proof {
            assert(r@.buffer =~= initial_model().buffer);
            assert(r@ =~= initial_model());
        }
        r
    }

    /// Consume one classified symbol, stamped with the millisecond
    /// timestamp of its leading edge, and return the time base to publish
    /// if this step completed a decode.
    pub fn step(&mut self, sym: BitWidth, up_at: u64) -> (r: Option<TimeBase>)
        requires
            old(self)@.wf(),
        ensures
            final(self)@.wf(),
            final(self)@ == step_model(old(self)@, sym),
            r == step_output(old(self)@, sym, up_at),
    {
        if matches!(sym, BitWidth::Unknown) {
            self.cursor = 0;
            self.recording = false;
            return None;
        }

        if matches!(sym, BitWidth::Marker) {
            if self.previous_is_marker {
                self.recording = true;
                self.cursor = 0;
            }
            self.previous_is_marker = true;
        } else {
            self.previous_is_marker = false;
        }

        let mut emitted: Option<TimeBase> = None;
        if self.recording {
            if self.cursor == DECODE_CURSOR {
                match to_minute_hour_day(self.buffer.as_slice()) {
                    Some((minute, hour, _day)) => {
                        emitted = Some(
                            TimeBase {
                                system_time: up_at,
                                clock: minute * 60 + hour * 3600 + 38,
                            },
                        );
                    },
                    None => {
                        self.cursor = 0;
                        self.recording = false;
                        return None;
                    },
                }
            }
            self.buffer[self.cursor] = sym;
            self.cursor = (self.cursor + 1) % FRAME_LEN;
        }
        emitted
    }
}

/// The decoder's state after consuming a whole symbol sequence.
pub open spec fn run_model(st: DecoderModel, syms: Seq<BitWidth>) -> DecoderModel
    decreases syms.len(),
{
    if syms.len() == 0 {
        st
    } else {
        run_model(step_model(st, syms[0]), syms.drop_first())
    }
}

/// Positions `i < j` hold `Marker`s separated only by `Unknown`s
/// (consecutive `Marker`s when `j == i + 1`).
pub open spec fn marker_pair_at(s: Seq<BitWidth>, i: int, j: int) -> bool {
    &&& 0 <= i < j < s.len()
    &&& s[i] is Marker
    &&& s[j] is Marker
    &&& forall|k: int| i < k < j ==> (#[trigger] s[k]) is Unknown
}

/// The sequence holds two `Marker`s separated only by `Unknown`s.
pub open spec fn has_marker_pair(s: Seq<BitWidth>) -> bool {
    exists|i: int, j: int| marker_pair_at(s, i, j)
}

/// The sequence's first symbol other than `Unknown` is a `Marker`.
pub open spec fn leading_marker_at(s: Seq<BitWidth>, j: int) -> bool {
    &&& 0 <= j < s.len()
    &&& s[j] is Marker
    &&& forall|k: int| 0 <= k < j ==> (#[trigger] s[k]) is Unknown
}

/// The sequence opens, up to `Unknown`s, with a `Marker`.
pub open spec fn leading_marker(s: Seq<BitWidth>) -> bool {
    exists|j: int| leading_marker_at(s, j)
}

/// Helper for the frame-alignment law, generalized over a start state that
/// is not recording and whose pending marker flag, if set, meets no marker
/// before a data symbol intervenes.
proof fn lemma_stays_out_of_recording(st: DecoderModel, syms: Seq<BitWidth>)
    requires
        !st.recording,
        !has_marker_pair(syms),
        st.previous_is_marker ==> !leading_marker(syms),
    ensures
        !run_model(st, syms).recording,
    decreases syms.len(),
{
    if syms.len() > 0 {
        let sym = syms[0];
        let rest = syms.drop_first();
        let st1 = step_model(st, sym);
        assert(forall|k: int| 0 <= k < rest.len() ==> #[trigger] rest[k] == syms[k + 1]);
        assert(!has_marker_pair(rest)) by {
            if has_marker_pair(rest) {
                let (i, j): (int, int) = choose|i: int, j: int| marker_pair_at(rest, i, j);
                assert forall|k: int| i + 1 < k < j + 1 implies (#[trigger] syms[k]) is Unknown by {
                    assert(rest[k - 1] is Unknown);
                }
                assert(marker_pair_at(syms, i + 1, j + 1));
            }
        }
        if sym is Unknown {
            assert(!st1.recording);
            if st1.previous_is_marker {
                assert(!leading_marker(rest)) by {
                    if leading_marker(rest) {
                        let j = choose|j: int| leading_marker_at(rest, j);
                        assert forall|k: int| 0 <= k < j + 1 implies (#[trigger] syms[k])
                            is Unknown by {
                            if k > 0 {
                                assert(rest[k - 1] is Unknown);
                            }
                        }
                        assert(leading_marker_at(syms, j + 1));
                        assert(leading_marker(syms));
                    }
                }
            }
            lemma_stays_out_of_recording(st1, rest);
        } else if sym is Marker {
            assert(!st.previous_is_marker) by {
                if st.previous_is_marker {
                    assert(leading_marker_at(syms, 0));
                    assert(leading_marker(syms));
                }
            }
            assert(!st1.recording);
            assert(!leading_marker(rest)) by {
                if leading_marker(rest) {
                    let j = choose|j: int| leading_marker_at(rest, j);
                    assert forall|k: int| 0 < k < j + 1 implies (#[trigger] syms[k]) is Unknown by {
                        assert(rest[k - 1] is Unknown);
                    }
                    assert(marker_pair_at(syms, 0, j + 1));
                    assert(has_marker_pair(syms));
                }
            }
            lemma_stays_out_of_recording(st1, rest);
        } else {
            assert(!st1.recording);
            assert(!st1.previous_is_marker);
            lemma_stays_out_of_recording(st1, rest);
        }
    }
}

/// Frame alignment: a symbol sequence in which no two `Marker`s are
/// separated only by `Unknown`s — in particular, one with no two
/// consecutive `Marker`s and no `Unknown`s between `Marker`s — never takes
/// the decoder from its initial state into the recording state.
pub proof fn lemma_frame_alignment(syms: Seq<BitWidth>)
    requires
        !has_marker_pair(syms),
    ensures
        !run_model(initial_model(), syms).recording,
{
    lemma_stays_out_of_recording(initial_model(), syms);
}

/// Idempotent reset on a transient classification: an `Unknown` symbol
/// returns the framing state — cursor and recording flag — to its initial
/// value, leaves the buffer untouched, and publishes nothing.
pub proof fn lemma_reset_on_unknown(st: DecoderModel, up_at: u64)
    ensures
        step_model(st, BitWidth::Unknown).cursor == initial_model().cursor,
        step_model(st, BitWidth::Unknown).recording == initial_model().recording,
        step_model(st, BitWidth::Unknown).buffer == st.buffer,
        step_output(st, BitWidth::Unknown, up_at) is None,
{
}

/// Idempotent reset on a decode failure: when the cursor reaches 38 on a
/// prefix that does not decode, the framing state returns to its initial
/// value, nothing is stored, and nothing is published.
pub proof fn lemma_reset_on_decode_failure(st: DecoderModel, sym: BitWidth, up_at: u64)
    requires
        st.recording,
        st.cursor == DECODE_CURSOR,
        !decode_ok(st.buffer),
        !(sym is Unknown),
        !frame_start(st, sym),
    ensures
        step_model(st, sym).cursor == initial_model().cursor,
        step_model(st, sym).recording == initial_model().recording,
        step_model(st, sym).buffer == st.buffer,
        step_output(st, sym, up_at) is None,
{
}

} // verus!
