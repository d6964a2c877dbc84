//! Atomic access to the pins of an STM32F1 GPIO port and to their
//! configuration bits, without read-modify-write cycles on shared registers.
//!
//! Pins are written through the set/reset register and configuration bits
//! through their bit-band alias words, so that an interrupt handler and the
//! main line can work on different pins of one port without a lock. Each
//! store is one bus access; a sequence of stores is not atomic as a whole.

pub mod bitband;
pub mod cell;
pub mod config;
pub mod pin_range;
pub mod port;

pub use bitband::{to_bitband_address, PERIPHERALS_ALIAS, PERIPHERALS_BASE};
pub use config::{ConfigField, GPIOBitbandConfigBlock, GPIOBitbandRegisterBlock, PinConfig};
pub use pin_range::{decode_read, encode_write, PIN_COUNT};
pub use port::{GPIOExtras, SimulatedPort};
