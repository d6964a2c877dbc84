//! Access to the pins of a port and to their configuration.

use crate::config::{FieldWrite, GPIOBitbandConfigBlock, GPIOBitbandRegisterBlock, PinConfig};
use crate::pin_range::{
    apply_set_reset, decode_read, decode_read_spec, encode_write,
    lemma_replace_pin_is_range_of_one, lemma_set_reset_replaces_range, pin_level, replace_pin,
    replace_range, PIN_COUNT,
};
use vstd::prelude::*;

verus! {

/// Convenient access to the pins of a GPIO port, alone or in ranges, and to
/// the configuration bits of each pin, `T`.
///
/// No operation reads a register in order to write it back, so none can
/// disturb a pin or a configuration bit that it does not name.
pub trait GPIOExtras<T> {
    /// The levels of the sixteen pins, pin 0 in the lowest bit. A verified
    /// implementation says what they are; one that is compiled only leaves
    /// them unsaid, and is trusted to do what the contracts below ask.
    open spec fn pins(&self) -> u16 {
        arbitrary()
    }

    /// The configuration bits of the pin `pin`, said or left unsaid as
    /// the levels are.
    open spec fn config_of(&self, pin: int) -> T {
        arbitrary()
    }

    /// Gives the pins `offset .. offset + count` the `count` lowest bits of
    /// `data`, with one write to the set/reset register. No other pin is
    /// affected. The range must lie within the sixteen pins of the port.
    fn write_pin_range(&mut self, offset: usize, count: usize, data: u16)
        requires
            offset + count <= PIN_COUNT,
        ensures
            final(self).pins() == replace_range(old(self).pins(), offset, count, data),
            forall|pin: int|
                0 <= pin < PIN_COUNT ==> #[trigger] final(self).config_of(pin) == old(
                    self,
                ).config_of(pin),
    ;

    /// Sets the pin `offset` to `bit`. No other pin is affected.
    fn write_pin(&mut self, offset: usize, bit: bool)
        requires
            offset < PIN_COUNT,
        ensures
            final(self).pins() == replace_pin(old(self).pins(), offset, bit),
            pin_level(final(self).pins(), offset) == bit,
            forall|pin: int|
                0 <= pin < PIN_COUNT ==> #[trigger] final(self).config_of(pin) == old(
                    self,
                ).config_of(pin),
    {
        proof {
            lemma_replace_pin_is_range_of_one(self.pins(), offset, bit);
        }
        self.write_pin_range(offset, 1, if bit { 1 } else { 0 });
    }

    /// The levels of the pins `offset .. offset + count`, the first of them
    /// in the lowest bit, from one read of the input data register. The
    /// range must lie within the sixteen pins of the port.
    fn read_pin_range(&self, offset: usize, count: usize) -> (value: u16)
        requires
            offset + count <= PIN_COUNT,
        ensures
            value == decode_read_spec(self.pins() as u32, offset, count),
    ;

    /// Whether the pin `offset` is high.
    fn read_pin(&self, offset: usize) -> (level: bool)
        requires
            offset < PIN_COUNT,
        ensures
            level == pin_level(self.pins(), offset),
    {
        proof {
            lemma_replace_pin_is_range_of_one(self.pins(), offset, true);
        }
        self.read_pin_range(offset, 1) != 0
    }

    /// The configuration bits of the pin `pin`. What is done to them is
    /// done to this pin: the levels of the pins and the configuration of
    /// the other pins stay as they are.
    fn pin_config(&mut self, pin: usize) -> (config: &mut T)
        requires
            pin < PIN_COUNT,
        ensures
            *config == old(self).config_of(pin as int),
            final(self).config_of(pin as int) == *final(config),
            forall|other: int|
                0 <= other < PIN_COUNT && other != pin ==> #[trigger] final(self).config_of(other)
                    == old(self).config_of(other),
            final(self).pins() == old(self).pins(),
    ;
}

/// A port in software: sixteen pins that read back as they were last
/// driven, and configuration cells in ordinary memory.
///
/// It behaves towards [`GPIOExtras`] as the hardware does for pins that are
/// outputs, and serves wherever the hardware is not at hand.
pub struct SimulatedPort {
    pins: u16,
    bitband: GPIOBitbandRegisterBlock,
}

impl SimulatedPort {
    /// A port whose pins are at the levels `pins` and are all floating
    /// inputs, as after a reset.
    pub fn new(pins: u16) -> (port: Self)
        ensures
            port.pins() == pins,
            forall|pin: int|
                0 <= pin < PIN_COUNT ==> (#[trigger] port.config_of(pin))@ == (PinConfig {
                    mode_low: 0,
                    mode_high: 0,
                    cnf_low: 1,
                    cnf_high: 0,
                }) && port.config_of(pin).history() == Seq::<FieldWrite>::empty(),
    {
        let reset = PinConfig { mode_low: 0, mode_high: 0, cnf_low: 1, cnf_high: 0 };
        SimulatedPort { pins, bitband: GPIOBitbandRegisterBlock::new(reset) }
    }

    /// Writes `word` to the set/reset register: the pins named in its low
    /// half are set, those named in its high half and not in its low half
    /// are cleared.
    pub fn write_set_reset(&mut self, word: u32)
        ensures
            final(self).pins() == apply_set_reset(old(self).pins(), word),
            forall|pin: int|
                0 <= pin < PIN_COUNT ==> #[trigger] final(self).config_of(pin) == old(
                    self,
                ).config_of(pin),
    {
        #[verifier::truncate]
        let set: u16 = word as u16;
        #[verifier::truncate]
        let reset: u16 = (word >> 16) as u16;
        self.pins = (self.pins & !reset) | set;
    }

    /// Reads the input data register: the levels of the pins in the low
    /// half, zeros in the high half.
    pub fn read_input_data(&self) -> (raw: u32)
        ensures
            raw == self.pins() as u32,
    {
        self.pins as u32
    }
}

impl GPIOExtras<GPIOBitbandConfigBlock> for SimulatedPort {
    closed spec fn pins(&self) -> u16 {
        self.pins
    }

    closed spec fn config_of(&self, pin: int) -> GPIOBitbandConfigBlock {
        self.bitband.block(pin)
    }

    fn write_pin_range(&mut self, offset: usize, count: usize, data: u16) {
        proof {
            lemma_set_reset_replaces_range(self.pins, offset, count, data);
        }
        let word = encode_write(offset, count, data);
        self.write_set_reset(word);
    }

    fn read_pin_range(&self, offset: usize, count: usize) -> (value: u16) {
        decode_read(self.read_input_data(), offset, count)
    }

    fn pin_config(&mut self, pin: usize) -> (config: &mut GPIOBitbandConfigBlock) {
        self.bitband.config(pin)
    }
}

} // verus!
