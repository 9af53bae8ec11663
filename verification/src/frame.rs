//! Decoding the 38-symbol frame prefix: BCD minute, hour and day-of-year
//! fields with even parity over the minute and hour bits, and the inverse
//! encoding used to state the round-trip law.

use vstd::prelude::*;
use vstd::arithmetic::div_mod::{lemma_breakdown, lemma_fundamental_div_mod};
use crate::symbol::{BitWidth, bit_val, is_data_bit};

verus! {

/// Every position the decoder consumes holds a data symbol (`Short`/`Long`).
pub open spec fn fields_are_bits(b: Seq<BitWidth>) -> bool {
    &&& is_data_bit(b[1])
    &&& is_data_bit(b[2])
    &&& is_data_bit(b[3])
    &&& is_data_bit(b[5])
    &&& is_data_bit(b[6])
    &&& is_data_bit(b[7])
    &&& is_data_bit(b[8])
    &&& is_data_bit(b[12])
    &&& is_data_bit(b[13])
    &&& is_data_bit(b[15])
    &&& is_data_bit(b[16])
    &&& is_data_bit(b[17])
    &&& is_data_bit(b[18])
    &&& is_data_bit(b[22])
    &&& is_data_bit(b[23])
    &&& is_data_bit(b[25])
    &&& is_data_bit(b[26])
    &&& is_data_bit(b[27])
    &&& is_data_bit(b[28])
    &&& is_data_bit(b[30])
    &&& is_data_bit(b[31])
    &&& is_data_bit(b[32])
    &&& is_data_bit(b[33])
    &&& is_data_bit(b[36])
    &&& is_data_bit(b[37])
}

/// The minute field: weights 40, 20, 10 over positions 1..3 (tens digit)
/// and 8, 4, 2, 1 over positions 5..8 (units digit).
pub open spec fn minute_value(b: Seq<BitWidth>) -> int {
    (if bit_val(b[1]) { 40int } else { 0int }) + (if bit_val(b[2]) { 20int } else { 0int }) + (if bit_val(b[3]) { 10int } else { 0int })
        + (if bit_val(b[5]) { 8int } else { 0int }) + (if bit_val(b[6]) { 4int } else { 0int }) + (if bit_val(b[7]) { 2int } else { 0int })
        + (if bit_val(b[8]) { 1int } else { 0int })
}

/// The hour field: weights 20, 10 over positions 12..13 and 8, 4, 2, 1
/// over positions 15..18.
pub open spec fn hour_value(b: Seq<BitWidth>) -> int {
    (if bit_val(b[12]) { 20int } else { 0int }) + (if bit_val(b[13]) { 10int } else { 0int })
        + (if bit_val(b[15]) { 8int } else { 0int }) + (if bit_val(b[16]) { 4int } else { 0int }) + (if bit_val(b[17]) { 2int } else { 0int })
        + (if bit_val(b[18]) { 1int } else { 0int })
}

/// The day-of-year field: weights 200, 100 over positions 22..23,
/// 80, 40, 20, 10 over positions 25..28, and 8, 4, 2, 1 over 30..33.
pub open spec fn day_value(b: Seq<BitWidth>) -> int {
    (if bit_val(b[22]) { 200int } else { 0int }) + (if bit_val(b[23]) { 100int } else { 0int })
        + (if bit_val(b[25]) { 80int } else { 0int }) + (if bit_val(b[26]) { 40int } else { 0int }) + (if bit_val(b[27]) { 20int } else { 0int })
        + (if bit_val(b[28]) { 10int } else { 0int }) + (if bit_val(b[30]) { 8int } else { 0int }) + (if bit_val(b[31]) { 4int } else { 0int })
        + (if bit_val(b[32]) { 2int } else { 0int }) + (if bit_val(b[33]) { 1int } else { 0int })
}

/// XOR of the minute data bits; the parity bit at position 37 must equal it.
pub open spec fn minute_parity(b: Seq<BitWidth>) -> bool {
    bit_val(b[1]) ^ bit_val(b[2]) ^ bit_val(b[3]) ^ bit_val(b[5]) ^ bit_val(b[6]) ^ bit_val(b[7])
        ^ bit_val(b[8])
}

/// XOR of the hour data bits; the parity bit at position 36 must equal it.
pub open spec fn hour_parity(b: Seq<BitWidth>) -> bool {
    bit_val(b[12]) ^ bit_val(b[13]) ^ bit_val(b[15]) ^ bit_val(b[16]) ^ bit_val(b[17]) ^ bit_val(
        b[18],
    )
}

/// A 38-symbol prefix decodes: every consumed position carries a bit and
/// both parity bits check out.
pub open spec fn decode_ok(b: Seq<BitWidth>) -> bool {
    &&& fields_are_bits(b)
    &&& bit_val(b[36]) == hour_parity(b)
    &&& bit_val(b[37]) == minute_parity(b)
}

/// What decoding a captured prefix yields: the three fields on success,
/// nothing on any malformed position or parity mismatch.
pub open spec fn decode_spec(b: Seq<BitWidth>) -> Option<(u32, u32, u32)> {
    if decode_ok(b) {
        Some(
            ((minute_value(b) as u32), (hour_value(b) as u32), (day_value(b) as u32)),
        )
    } else {
        None
    }
}

/// Every consumed position of the prefix holds a data symbol.
fn fields_ok(buf: &[BitWidth]) -> (r: bool)
    requires
        buf@.len() >= 38,
    ensures
        r == fields_are_bits(buf@),
{
    let a = buf[1].is_data() && buf[2].is_data() && buf[3].is_data() && buf[5].is_data()
        && buf[6].is_data() && buf[7].is_data() && buf[8].is_data();
    let b = buf[12].is_data() && buf[13].is_data() && buf[15].is_data() && buf[16].is_data()
        && buf[17].is_data() && buf[18].is_data();
    let c = buf[22].is_data() && buf[23].is_data() && buf[25].is_data() && buf[26].is_data()
        && buf[27].is_data() && buf[28].is_data() && buf[30].is_data() && buf[31].is_data()
        && buf[32].is_data() && buf[33].is_data();
    let d = buf[36].is_data() && buf[37].is_data();
    a && b && c && d
}

/// The minute field read from its seven positions.
fn read_minute(buf: &[BitWidth]) -> (r: u32)
    requires
        buf@.len() >= 38,
        fields_are_bits(buf@),
    ensures
        r == minute_value(buf@),
{
    let mut v: u32 = 0;
    if buf[1].bit() {
        v += 40;
    }
    if buf[2].bit() {
        v += 20;
    }
    if buf[3].bit() {
        v += 10;
    }
    if buf[5].bit() {
        v += 8;
    }
    if buf[6].bit() {
        v += 4;
    }
    if buf[7].bit() {
        v += 2;
    }
    if buf[8].bit() {
        v += 1;
    }
    v
}

/// The hour field read from its six positions.
fn read_hour(buf: &[BitWidth]) -> (r: u32)
    requires
        buf@.len() >= 38,
        fields_are_bits(buf@),
    ensures
        r == hour_value(buf@),
{
    let mut v: u32 = 0;
    if buf[12].bit() {
        v += 20;
    }
    if buf[13].bit() {
        v += 10;
    }
    if buf[15].bit() {
        v += 8;
    }
    if buf[16].bit() {
        v += 4;
    }
    if buf[17].bit() {
        v += 2;
    }
    if buf[18].bit() {
        v += 1;
    }
    v
}

/// The day-of-year field read from its ten positions.
fn read_day(buf: &[BitWidth]) -> (r: u32)
    requires
        buf@.len() >= 38,
        fields_are_bits(buf@),
    ensures
        r == day_value(buf@),
{
    let mut v: u32 = 0;
    if buf[22].bit() {
        v += 200;
    }
    if buf[23].bit() {
        v += 100;
    }
    if buf[25].bit() {
        v += 80;
    }
    if buf[26].bit() {
        v += 40;
    }
    if buf[27].bit() {
        v += 20;
    }
    if buf[28].bit() {
        v += 10;
    }
    if buf[30].bit() {
        v += 8;
    }
    if buf[31].bit() {
        v += 4;
    }
    if buf[32].bit() {
        v += 2;
    }
    if buf[33].bit() {
        v += 1;
    }
    v
}

/// XOR of the minute data bits.
fn read_minute_parity(buf: &[BitWidth]) -> (r: bool)
    requires
        buf@.len() >= 38,
        fields_are_bits(buf@),
    ensures
        r == minute_parity(buf@),
{
    buf[1].bit() ^ buf[2].bit() ^ buf[3].bit() ^ buf[5].bit() ^ buf[6].bit() ^ buf[7].bit()
        ^ buf[8].bit()
}

/// XOR of the hour data bits.
fn read_hour_parity(buf: &[BitWidth]) -> (r: bool)
    requires
        buf@.len() >= 38,
        fields_are_bits(buf@),
    ensures
        r == hour_parity(buf@),
{
    buf[12].bit() ^ buf[13].bit() ^ buf[15].bit() ^ buf[16].bit() ^ buf[17].bit() ^ buf[18].bit()
}

/// Decode the minute, hour and day-of-year fields of a captured frame
/// prefix. Fails if any consumed position holds `Marker` or `Unknown`, or
/// if either stored parity bit differs from the XOR of its field's bits.
pub fn to_minute_hour_day(buf: &[BitWidth]) -> (r: Option<(u32, u32, u32)>)
    requires
        buf@.len() >= 38,
    ensures
        r == decode_spec(buf@),
{
    if !fields_ok(buf) {
        return None;
    }
    if buf[36].bit() != read_hour_parity(buf) {
        return None;
    }
    if buf[37].bit() != read_minute_parity(buf) {
        return None;
    }
    Some((read_minute(buf), read_hour(buf), read_day(buf)))
}

/// The symbol that carries a given bit.
pub open spec fn bit_sym(b: bool) -> BitWidth {
    if b {
        BitWidth::Short
    } else {
        BitWidth::Long
    }
}

/// The binary digit of weight `w` (a power of two) in the value `d`.
pub open spec fn enc_bit(d: int, w: int) -> bool {
    (d / w) % 2 == 1
}

/// The parity bit that a well-formed frame stores at position 37.
pub open spec fn encode_minute_parity(minute: int) -> bool {
    enc_bit(minute / 10, 4) ^ enc_bit(minute / 10, 2) ^ enc_bit(minute / 10, 1) ^ enc_bit(
        minute % 10,
        8,
    ) ^ enc_bit(minute % 10, 4) ^ enc_bit(minute % 10, 2) ^ enc_bit(minute % 10, 1)
}

/// The parity bit that a well-formed frame stores at position 36.
pub open spec fn encode_hour_parity(hour: int) -> bool {
    enc_bit(hour / 10, 2) ^ enc_bit(hour / 10, 1) ^ enc_bit(hour % 10, 8) ^ enc_bit(hour % 10, 4)
        ^ enc_bit(hour % 10, 2) ^ enc_bit(hour % 10, 1)
}

/// The symbol at position `i` of the well-formed 38-symbol prefix for the
/// given fields: `Marker` at 0 and at each position 9 mod 10, BCD data bits
/// at the field positions, parity bits at 36 and 37, and logical 0 at the
/// positions this decoder ignores.
pub open spec fn encode_sym(minute: int, hour: int, day: int, i: int) -> BitWidth {
    if i == 0 || i == 9 || i == 19 || i == 29 {
        BitWidth::Marker
    } else if i == 1 {
        bit_sym(enc_bit(minute / 10, 4))
    } else if i == 2 {
        bit_sym(enc_bit(minute / 10, 2))
    } else if i == 3 {
        bit_sym(enc_bit(minute / 10, 1))
    } else if i == 5 {
        bit_sym(enc_bit(minute % 10, 8))
    } else if i == 6 {
        bit_sym(enc_bit(minute % 10, 4))
    } else if i == 7 {
        bit_sym(enc_bit(minute % 10, 2))
    } else if i == 8 {
        bit_sym(enc_bit(minute % 10, 1))
    } else if i == 12 {
        bit_sym(enc_bit(hour / 10, 2))
    } else if i == 13 {
        bit_sym(enc_bit(hour / 10, 1))
    } else if i == 15 {
        bit_sym(enc_bit(hour % 10, 8))
    } else if i == 16 {
        bit_sym(enc_bit(hour % 10, 4))
    } else if i == 17 {
        bit_sym(enc_bit(hour % 10, 2))
    } else if i == 18 {
        bit_sym(enc_bit(hour % 10, 1))
    } else if i == 22 {
        bit_sym(enc_bit(day / 100, 2))
    } else if i == 23 {
        bit_sym(enc_bit(day / 100, 1))
    } else if i == 25 {
        bit_sym(enc_bit((day / 10) % 10, 8))
    } else if i == 26 {
        bit_sym(enc_bit((day / 10) % 10, 4))
    } else if i == 27 {
        bit_sym(enc_bit((day / 10) % 10, 2))
    } else if i == 28 {
        bit_sym(enc_bit((day / 10) % 10, 1))
    } else if i == 30 {
        bit_sym(enc_bit(day % 10, 8))
    } else if i == 31 {
        bit_sym(enc_bit(day % 10, 4))
    } else if i == 32 {
        bit_sym(enc_bit(day % 10, 2))
    } else if i == 33 {
        bit_sym(enc_bit(day % 10, 1))
    } else if i == 36 {
        bit_sym(encode_hour_parity(hour))
    } else if i == 37 {
        bit_sym(encode_minute_parity(minute))
    } else {
        BitWidth::Long
    }
}

/// The well-formed 38-symbol prefix for the given fields.
pub open spec fn encode_spec(minute: int, hour: int, day: int) -> Seq<BitWidth> {
    Seq::new(38, |i: int| encode_sym(minute, hour, day, i))
}

/// The binary digit of weight `w` in the value `d`, computed.
fn enc_bit_exec(d: u32, w: u32) -> (r: bool)
    requires
        w >= 1,
    ensures
        r == enc_bit(d as int, w as int),
{
    (d / w) % 2 == 1
}

/// The symbol at position `i` of the prefix for the given fields, computed.
fn encode_sym_exec(minute: u32, hour: u32, day: u32, i: usize) -> (r: BitWidth)
    requires
        i < 38,
    ensures
        r == encode_sym(minute as int, hour as int, day as int, i as int),
{
    if i == 0 || i == 9 || i == 19 || i == 29 {
        BitWidth::Marker
    } else if i == 1 {
        sym_of(enc_bit_exec(minute / 10, 4))
    } else if i == 2 {
        sym_of(enc_bit_exec(minute / 10, 2))
    } else if i == 3 {
        sym_of(enc_bit_exec(minute / 10, 1))
    } else if i == 5 {
        sym_of(enc_bit_exec(minute % 10, 8))
    } else if i == 6 {
        sym_of(enc_bit_exec(minute % 10, 4))
    } else if i == 7 {
        sym_of(enc_bit_exec(minute % 10, 2))
    } else if i == 8 {
        sym_of(enc_bit_exec(minute % 10, 1))
    } else if i == 12 {
        sym_of(enc_bit_exec(hour / 10, 2))
    } else if i == 13 {
        sym_of(enc_bit_exec(hour / 10, 1))
    } else if i == 15 {
        sym_of(enc_bit_exec(hour % 10, 8))
    } else if i == 16 {
        sym_of(enc_bit_exec(hour % 10, 4))
    } else if i == 17 {
        sym_of(enc_bit_exec(hour % 10, 2))
    } else if i == 18 {
        sym_of(enc_bit_exec(hour % 10, 1))
    } else if i == 22 {
        sym_of(enc_bit_exec(day / 100, 2))
    } else if i == 23 {
        sym_of(enc_bit_exec(day / 100, 1))
    } else if i == 25 {
        sym_of(enc_bit_exec((day / 10) % 10, 8))
    } else if i == 26 {
        sym_of(enc_bit_exec((day / 10) % 10, 4))
    } else if i == 27 {
        sym_of(enc_bit_exec((day / 10) % 10, 2))
    } else if i == 28 {
        sym_of(enc_bit_exec((day / 10) % 10, 1))
    } else if i == 30 {
        sym_of(enc_bit_exec(day % 10, 8))
    } else if i == 31 {
        sym_of(enc_bit_exec(day % 10, 4))
    } else if i == 32 {
        sym_of(enc_bit_exec(day % 10, 2))
    } else if i == 33 {
        sym_of(enc_bit_exec(day % 10, 1))
    } else if i == 36 {
        sym_of(
            enc_bit_exec(hour / 10, 2) ^ enc_bit_exec(hour / 10, 1) ^ enc_bit_exec(hour % 10, 8)
                ^ enc_bit_exec(hour % 10, 4) ^ enc_bit_exec(hour % 10, 2) ^ enc_bit_exec(
                hour % 10,
                1,
            ),
        )
    } else if i == 37 {
        sym_of(
            enc_bit_exec(minute / 10, 4) ^ enc_bit_exec(minute / 10, 2) ^ enc_bit_exec(
                minute / 10,
                1,
            ) ^ enc_bit_exec(minute % 10, 8) ^ enc_bit_exec(minute % 10, 4) ^ enc_bit_exec(
                minute % 10,
                2,
            ) ^ enc_bit_exec(minute % 10, 1),
        )
    } else {
        BitWidth::Long
    }
}

/// Build the 38-symbol prefix that encodes the given minute, hour and
/// day-of-year with correct parity bits; the inverse of the decoder on
/// in-range fields.
pub fn encode_frame(minute: u32, hour: u32, day: u32) -> (r: Vec<BitWidth>)
    requires
        minute < 60,
        hour < 24,
        1 <= day <= 366,
    ensures
        r@ == encode_spec(minute as int, hour as int, day as int),
{
    let mut r: Vec<BitWidth> = Vec::new();
    let mut i: usize = 0;
    while i < 38
        invariant
            i <= 38,
            r@.len() == i,
            forall|j: int|
                0 <= j < i ==> r@[j] == encode_sym(minute as int, hour as int, day as int, j),
        decreases 38 - i,
    {
        r.push(encode_sym_exec(minute, hour, day, i));
        i += 1;
    }
    proof {
        assert(r@ =~= encode_spec(minute as int, hour as int, day as int));
    }
    r
}

/// The symbol for a data bit, computed.
fn sym_of(b: bool) -> (r: BitWidth)
    ensures
        r == bit_sym(b),
{
    if b {
        BitWidth::Short
    } else {
        BitWidth::Long
    }
}

/// A three-bit value is the weighted sum of its binary digits.
proof fn lemma_bits3(t: int)
    requires
        0 <= t < 8,
    ensures
        (if enc_bit(t, 4) { 4int } else { 0int }) + (if enc_bit(t, 2) { 2int } else { 0int }) + (
        if enc_bit(t, 1) { 1int } else { 0int }) == t,
{
    lemma_fundamental_div_mod(t, 4);
    lemma_breakdown(t, 2, 2);
    assert(t / 1 == t);
}

/// A two-bit value is the weighted sum of its binary digits.
proof fn lemma_bits2(t: int)
    requires
        0 <= t < 4,
    ensures
        (if enc_bit(t, 2) { 2int } else { 0int }) + (if enc_bit(t, 1) { 1int } else { 0int })
            == t,
{
    lemma_fundamental_div_mod(t, 2);
    assert(t / 1 == t);
}

/// A four-bit value is the weighted sum of its binary digits.
proof fn lemma_bits4(u: int)
    requires
        0 <= u < 16,
    ensures
        (if enc_bit(u, 8) { 8int } else { 0int }) + (if enc_bit(u, 4) { 4int } else { 0int }) + (
        if enc_bit(u, 2) { 2int } else { 0int }) + (if enc_bit(u, 1) { 1int } else { 0int }) == u,
{
    lemma_fundamental_div_mod(u, 8);
    lemma_breakdown(u, 4, 2);
    lemma_breakdown(u, 2, 2);
    assert(u / 1 == u);
}

/// The encoded prefix's minute field reads back as the minute.
proof fn lemma_minute_reconstruct(m: int, h: int, d: int)
    requires
        0 <= m < 60,
    ensures
        minute_value(encode_spec(m, h, d)) == m,
{
    let e = encode_spec(m, h, d);
    lemma_bits3(m / 10);
    lemma_bits4(m % 10);
    lemma_fundamental_div_mod(m, 10);
    assert(minute_value(e) == 10 * (m / 10) + m % 10);
}

/// The encoded prefix's hour field reads back as the hour.
proof fn lemma_hour_reconstruct(m: int, h: int, d: int)
    requires
        0 <= h < 24,
    ensures
        hour_value(encode_spec(m, h, d)) == h,
{
    let e = encode_spec(m, h, d);
    lemma_bits2(h / 10);
    lemma_bits4(h % 10);
    lemma_fundamental_div_mod(h, 10);
    assert(hour_value(e) == 10 * (h / 10) + h % 10);
}

/// The encoded prefix's day field reads back as the day-of-year.
proof fn lemma_day_reconstruct(m: int, h: int, d: int)
    requires
        0 <= d <= 366,
    ensures
        day_value(encode_spec(m, h, d)) == d,
{
    let e = encode_spec(m, h, d);
    lemma_bits2(d / 100);
    lemma_bits4((d / 10) % 10);
    lemma_bits4(d % 10);
    lemma_fundamental_div_mod(d, 100);
    lemma_breakdown(d, 10, 10);
    assert(day_value(e) == 100 * (d / 100) + 10 * ((d / 10) % 10) + d % 10);
}

/// Both parity bits of an encoded prefix match their fields.
proof fn lemma_encode_parity(m: int, h: int, d: int)
    ensures
        fields_are_bits(encode_spec(m, h, d)),
        bit_val(encode_spec(m, h, d)[36]) == hour_parity(encode_spec(m, h, d)),
        bit_val(encode_spec(m, h, d)[37]) == minute_parity(encode_spec(m, h, d)),
{
}

/// Round trip: for every in-range minute, hour and day-of-year, decoding
/// the encoded 38-symbol prefix returns exactly that triple.
pub proof fn lemma_round_trip(minute: u32, hour: u32, day: u32)
    requires
        minute < 60,
        hour < 24,
        1 <= day <= 366,
    ensures
        decode_spec(encode_spec(minute as int, hour as int, day as int)) == Some(
            (minute, hour, day),
        ),
{
    let m = minute as int;
    let h = hour as int;
    let d = day as int;
    lemma_encode_parity(m, h, d);
    lemma_minute_reconstruct(m, h, d);
    lemma_hour_reconstruct(m, h, d);
    lemma_day_reconstruct(m, h, d);
    assert(decode_ok(encode_spec(m, h, d)));
}

/// The data symbol with the opposite bit.
pub open spec fn flip_sym(s: BitWidth) -> BitWidth {
    if s is Short {
        BitWidth::Long
    } else {
        BitWidth::Short
    }
}

/// A position whose bit enters the minute parity check.
pub open spec fn is_minute_data_pos(p: int) -> bool {
    p == 1 || p == 2 || p == 3 || p == 5 || p == 6 || p == 7 || p == 8
}

/// A position whose bit enters the hour parity check.
pub open spec fn is_hour_data_pos(p: int) -> bool {
    p == 12 || p == 13 || p == 15 || p == 16 || p == 17 || p == 18
}

/// Parity enforcement: flipping exactly one data bit of the minute or hour
/// field of a prefix that decodes makes decoding fail, because the stored
/// parity bit no longer matches.
pub proof fn lemma_parity_detects_single_flip(b: Seq<BitWidth>, p: int)
    requires
        b.len() >= 38,
        decode_ok(b),
        is_minute_data_pos(p) || is_hour_data_pos(p),
    ensures
        decode_spec(b.update(p, flip_sym(b[p]))) is None,
{
    let b2 = b.update(p, flip_sym(b[p]));
    assert(forall|i: int| 0 <= i < 38 && i != p ==> b2[i] == b[i]);
    assert(bit_val(b2[p]) == !bit_val(b[p]));
    if is_minute_data_pos(p) {
        assert(minute_parity(b2) == !minute_parity(b));
        assert(bit_val(b2[37]) != minute_parity(b2));
    } else {
        assert(hour_parity(b2) == !hour_parity(b));
        assert(bit_val(b2[36]) != hour_parity(b2));
    }
}

} // verus!
