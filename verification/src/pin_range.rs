//! Bit arithmetic for a contiguous range of pins.
//!
//! A port has sixteen pins. Writing a range of them goes through the port's
//! set/reset register: a one in the low half of the written word sets a pin,
//! a one in the high half clears it, a zero changes nothing. Nothing has to
//! be read first, so pins outside the range cannot be disturbed.

use vstd::prelude::*;

verus! {

/// The number of pins on a port.
pub const PIN_COUNT: usize = 16;

/// The word with the `count` lowest bits set.
pub open spec fn range_mask_spec(count: usize) -> u16 {
    ((1u32 << count) - 1) as u16
}

/// The word to write to the set/reset register so that the pins
/// `offset .. offset + count` take the `count` lowest bits of `data`:
/// the ones to set in the low half, the ones to clear in the high half.
pub open spec fn encode_write_spec(offset: usize, count: usize, data: u16) -> u32 {
    let mask = range_mask_spec(count);
    (((data & mask) as u32) | (((!data & mask) as u32) << 16)) << offset
}

/// The `count` bits of `raw` that start at bit `offset`.
pub open spec fn decode_read_spec(raw: u32, offset: usize, count: usize) -> u16 {
    ((raw >> offset) as u16) & range_mask_spec(count)
}

/// What the set/reset register does to the pins when `word` is written to
/// it. Where a pin is both set and cleared, it is set.
pub open spec fn apply_set_reset(pins: u16, word: u32) -> u16 {
    (pins & !((word >> 16) as u16)) | (word as u16)
}

/// `pins` with the pins `offset .. offset + count` replaced by the `count`
/// lowest bits of `data`.
pub open spec fn replace_range(pins: u16, offset: usize, count: usize, data: u16) -> u16 {
    let mask = range_mask_spec(count);
    (pins & !(mask << offset)) | ((data & mask) << offset)
}

/// `pins` with the pin `pin` at `level`.
pub open spec fn replace_pin(pins: u16, pin: usize, level: bool) -> u16 {
    if level {
        pins | (1u16 << pin)
    } else {
        pins & !(1u16 << pin)
    }
}

/// Whether the pin `pin` is high in `pins`.
pub open spec fn pin_level(pins: u16, pin: usize) -> bool {
    (pins >> pin) & 1 == 1
}

fn range_mask(count: usize) -> (mask: u16)
    requires
        count <= PIN_COUNT,
    ensures
        mask == range_mask_spec(count),
{
    let bound: u32 = 1u32 << count;
    assert(1 <= bound <= 0x1_0000) by (bit_vector)
        requires
            count <= 16,
            bound == 1u32 << count,
    ;
    (bound - 1) as u16
}

/// Builds the word for the set/reset register that gives the pins
/// `offset .. offset + count` the `count` lowest bits of `data` and leaves
/// every other pin as it is. Higher bits of `data` are ignored.
pub fn encode_write(offset: usize, count: usize, data: u16) -> (word: u32)
    requires
        offset + count <= PIN_COUNT,
    ensures
        word == encode_write_spec(offset, count, data),
{
    let mask: u16 = range_mask(count);
    let bits: u32 = ((data & mask) as u32) | (((!data & mask) as u32) << 16);
    bits << offset
}

/// Extracts the pins `offset .. offset + count` from `raw`, a value read
/// from the input data register.
pub fn decode_read(raw: u32, offset: usize, count: usize) -> (value: u16)
    requires
        offset + count <= PIN_COUNT,
    ensures
        value == decode_read_spec(raw, offset, count),
{
    let mask: u16 = range_mask(count);
    #[verifier::truncate]
    let low: u16 = (raw >> offset) as u16;
    low & mask
}

/// Bit by bit, what [`encode_write`] builds: `pin` is set where it lies in
/// the range and its bit of `data` is one, cleared where it lies in the
/// range and its bit of `data` is zero, and named in neither half otherwise.
pub proof fn lemma_encode_write_bits(offset: usize, count: usize, data: u16, pin: usize)
    requires
        offset + count <= PIN_COUNT,
        pin < PIN_COUNT,
    ensures
        ({
            let word = encode_write_spec(offset, count, data);
            let in_range = offset <= pin < offset + count;
            let bit = pin_level(data, (pin - offset) as usize);
            &&& ((word >> pin) & 1 == 1) == (in_range && bit)
            &&& ((word >> (pin + 16)) & 1 == 1) == (in_range && !bit)
        }),
{
    let word = encode_write_spec(offset, count, data);
    let index = (pin - offset) as usize;
    assert(((word >> pin) & 1 == 1) == (offset <= pin < offset + count && pin_level(data, index)))
        by (bit_vector)
        requires
            offset + count <= 16,
            pin < 16,
            offset <= pin ==> index == pin - offset,
            word == encode_write_spec(offset, count, data),
    ;
    assert(((word >> (pin + 16)) & 1 == 1) == (offset <= pin < offset + count && !pin_level(
        data,
        index,
    ))) by (bit_vector)
        requires
            offset + count <= 16,
            pin < 16,
            offset <= pin ==> index == pin - offset,
            word == encode_write_spec(offset, count, data),
    ;
}

/// Writing the word of [`encode_write`] to the set/reset register replaces
/// the pins of the range by the bits of `data`.
pub proof fn lemma_set_reset_replaces_range(pins: u16, offset: usize, count: usize, data: u16)
    requires
        offset + count <= PIN_COUNT,
    ensures
        apply_set_reset(pins, encode_write_spec(offset, count, data)) == replace_range(
            pins,
            offset,
            count,
            data,
        ),
{
    assert(apply_set_reset(pins, encode_write_spec(offset, count, data)) == replace_range(
        pins,
        offset,
        count,
        data,
    )) by (bit_vector)
        requires
            offset + count <= 16,
    ;
}

/// A range that is read after it was written holds what was written: the
/// `count` lowest bits of `data`.
pub proof fn lemma_read_after_write(pins: u16, offset: usize, count: usize, data: u16)
    requires
        offset + count <= PIN_COUNT,
    ensures
        decode_read_spec(replace_range(pins, offset, count, data) as u32, offset, count) == data
            & range_mask_spec(count),
{
    assert(decode_read_spec(replace_range(pins, offset, count, data) as u32, offset, count) == data
        & range_mask_spec(count)) by (bit_vector)
        requires
            offset + count <= 16,
    ;
}

/// Writing a range changes no pin outside it, and gives each pin inside it
/// its bit of `data`.
pub proof fn lemma_write_touches_only_range(
    pins: u16,
    offset: usize,
    count: usize,
    data: u16,
    pin: usize,
)
    requires
        offset + count <= PIN_COUNT,
        pin < PIN_COUNT,
    ensures
        pin_level(replace_range(pins, offset, count, data), pin) == if offset <= pin < offset
            + count {
            pin_level(data, (pin - offset) as usize)
        } else {
            pin_level(pins, pin)
        },
{
    let index = (pin - offset) as usize;
    assert(pin_level(replace_range(pins, offset, count, data), pin) == if offset <= pin < offset
        + count {
        pin_level(data, index)
    } else {
        pin_level(pins, pin)
    }) by (bit_vector)
        requires
            offset + count <= 16,
            pin < 16,
            offset <= pin ==> index == pin - offset,
    ;
}

/// Bit by bit, what [`decode_read`] extracts: bit `index` of the result is
/// bit `offset + index` of `raw` inside the range, and zero above it.
pub proof fn lemma_decode_read_bits(raw: u32, offset: usize, count: usize, index: usize)
    requires
        offset + count <= PIN_COUNT,
        index < PIN_COUNT,
    ensures
        pin_level(decode_read_spec(raw, offset, count), index) == (index < count && (raw >> (offset
            + index)) & 1 == 1),
{
    assert(pin_level(decode_read_spec(raw, offset, count), index) == (index < count && (raw >> (
    offset + index)) & 1 == 1)) by (bit_vector)
        requires
            offset + count <= 16,
            index < 16,
    ;
}

/// Writing one pin is writing a range of one.
pub proof fn lemma_replace_pin_is_range_of_one(pins: u16, pin: usize, level: bool)
    requires
        pin < PIN_COUNT,
    ensures
        replace_range(pins, pin, 1, if level { 1u16 } else { 0u16 }) == replace_pin(pins, pin, level),
        pin_level(replace_pin(pins, pin, level), pin) == level,
        (decode_read_spec(pins as u32, pin, 1) != 0) == pin_level(pins, pin),
{
    let data = if level { 1u16 } else { 0u16 };
    assert(replace_range(pins, pin, 1, data) == replace_pin(pins, pin, level)) by (bit_vector)
        requires
            pin < 16,
            data == (if level { 1u16 } else { 0u16 }),
    ;
    assert(pin_level(replace_pin(pins, pin, level), pin) == level) by (bit_vector)
        requires
            pin < 16,
    ;
    assert((decode_read_spec(pins as u32, pin, 1) != 0) == pin_level(pins, pin)) by (bit_vector)
        requires
            pin < 16,
    ;
}

} // verus!
