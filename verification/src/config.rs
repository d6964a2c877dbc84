//! The configuration bits of the pins, one cell per bit.
//!
//! A pin has four configuration bits: two mode bits, which select input or
//! output and the output speed, and two function bits, which select the
//! kind of input or output. In the bit-band alias region each of them is a
//! word of its own, so each can be stored without touching the others.

use crate::cell::{contained, load, new_cell, store};
use vcell::VolatileCell;
use crate::pin_range::PIN_COUNT;
use vstd::prelude::*;

verus! {

/// One of the four configuration bits of a pin.
#[derive(Clone, Copy, Debug, PartialEq, Eq)]
pub enum ConfigField {
    /// The low mode bit.
    ModeLow,
    /// The high mode bit.
    ModeHigh,
    /// The low function bit.
    CnfLow,
    /// The high function bit.
    CnfHigh,
}

/// One store to a configuration bit.
pub struct FieldWrite {
    /// The bit that is stored to.
    pub field: ConfigField,
    /// The value that is stored.
    pub value: u32,
}

/// The configuration bits of one pin, as values.
#[derive(Clone, Copy, Debug, PartialEq, Eq)]
pub struct PinConfig {
    /// The low mode bit.
    pub mode_low: u32,
    /// The high mode bit.
    pub mode_high: u32,
    /// The low function bit.
    pub cnf_low: u32,
    /// The high function bit.
    pub cnf_high: u32,
}

/// The operations that select a mode or a function of a pin.
pub enum ConfigOp {
    /// Input mode.
    Input,
    /// Output mode, at most 2 MHz.
    Output2,
    /// Output mode, at most 10 MHz.
    Output10,
    /// Output mode, at most 50 MHz.
    Output50,
    /// Push-pull output.
    PushPull,
    /// Open-drain output.
    OpenDrain,
    /// General purpose output.
    General,
    /// Alternate function output.
    Alternate,
    /// Analog input.
    Analog,
    /// Floating input.
    Floating,
    /// Input with pull-up or pull-down.
    PullUpDown,
}

/// The store of `value` to `field`.
pub open spec fn write_of(field: ConfigField, value: u32) -> FieldWrite {
    FieldWrite { field, value }
}

impl ConfigOp {
    /// Whether the operation selects the mode of a pin, rather than its
    /// function.
    pub open spec fn selects_mode(self) -> bool {
        self is Input || self is Output2 || self is Output10 || self is Output50
    }

    /// The stores that the operation makes, in the order in which it makes
    /// them.
    pub open spec fn writes(self) -> Seq<FieldWrite> {
        match self {
            ConfigOp::Input => seq![
                write_of(ConfigField::ModeLow, 0),
                write_of(ConfigField::ModeHigh, 0),
            ],
            ConfigOp::Output2 => seq![
                write_of(ConfigField::ModeLow, 0),
                write_of(ConfigField::ModeHigh, 1),
            ],
            ConfigOp::Output10 => seq![
                write_of(ConfigField::ModeLow, 1),
                write_of(ConfigField::ModeHigh, 0),
            ],
            ConfigOp::Output50 => seq![
                write_of(ConfigField::ModeLow, 1),
                write_of(ConfigField::ModeHigh, 1),
            ],
            ConfigOp::PushPull => seq![write_of(ConfigField::CnfLow, 0)],
            ConfigOp::OpenDrain => seq![write_of(ConfigField::CnfLow, 1)],
            ConfigOp::General => seq![write_of(ConfigField::CnfHigh, 0)],
            ConfigOp::Alternate => seq![write_of(ConfigField::CnfHigh, 1)],
            ConfigOp::Analog => seq![
                write_of(ConfigField::CnfLow, 0),
                write_of(ConfigField::CnfHigh, 0),
            ],
            ConfigOp::Floating => seq![
                write_of(ConfigField::CnfHigh, 0),
                write_of(ConfigField::CnfLow, 1),
            ],
            ConfigOp::PullUpDown => seq![
                write_of(ConfigField::CnfLow, 0),
                write_of(ConfigField::CnfHigh, 1),
            ],
        }
    }
}

impl PinConfig {
    /// The configuration after one store.
    pub open spec fn stored(self, write: FieldWrite) -> PinConfig {
        match write.field {
            ConfigField::ModeLow => PinConfig { mode_low: write.value, ..self },
            ConfigField::ModeHigh => PinConfig { mode_high: write.value, ..self },
            ConfigField::CnfLow => PinConfig { cnf_low: write.value, ..self },
            ConfigField::CnfHigh => PinConfig { cnf_high: write.value, ..self },
        }
    }

    /// The configuration after a sequence of stores, made first to last.
    pub open spec fn replayed(self, writes: Seq<FieldWrite>) -> PinConfig
        decreases writes.len(),
    {
        if writes.len() == 0 {
            self
        } else {
            self.replayed(writes.drop_last()).stored(writes.last())
        }
    }

    /// The configuration after an operation: the bits that the operation
    /// names have the values that it gives them, the others are kept.
    pub open spec fn after(self, op: ConfigOp) -> PinConfig {
        match op {
            ConfigOp::Input => PinConfig { mode_low: 0, mode_high: 0, ..self },
            ConfigOp::Output2 => PinConfig { mode_low: 0, mode_high: 1, ..self },
            ConfigOp::Output10 => PinConfig { mode_low: 1, mode_high: 0, ..self },
            ConfigOp::Output50 => PinConfig { mode_low: 1, mode_high: 1, ..self },
            ConfigOp::PushPull => PinConfig { cnf_low: 0, ..self },
            ConfigOp::OpenDrain => PinConfig { cnf_low: 1, ..self },
            ConfigOp::General => PinConfig { cnf_high: 0, ..self },
            ConfigOp::Alternate => PinConfig { cnf_high: 1, ..self },
            ConfigOp::Analog => PinConfig { cnf_low: 0, cnf_high: 0, ..self },
            ConfigOp::Floating => PinConfig { cnf_low: 1, cnf_high: 0, ..self },
            ConfigOp::PullUpDown => PinConfig { cnf_low: 0, cnf_high: 1, ..self },
        }
    }

    /// The bit `field`.
    pub open spec fn bit(self, field: ConfigField) -> u32 {
        match field {
            ConfigField::ModeLow => self.mode_low,
            ConfigField::ModeHigh => self.mode_high,
            ConfigField::CnfLow => self.cnf_low,
            ConfigField::CnfHigh => self.cnf_high,
        }
    }

    /// Whether both function bits are one. On a pin in input mode the
    /// hardware reserves this pair.
    pub open spec fn has_reserved_pair(self) -> bool {
        self.cnf_low == 1 && self.cnf_high == 1
    }
}

/// Replaying one store is making it.
pub proof fn lemma_replay_one(config: PinConfig, first: FieldWrite)
    ensures
        config.replayed(seq![first]) == config.stored(first),
{
    let writes = seq![first];
    assert(writes.drop_last() =~= Seq::empty());
    assert(config.replayed(writes.drop_last()) == config);
    assert(writes.last() == first);
}

/// Replaying two stores is making the first, then the second.
pub proof fn lemma_replay_two(config: PinConfig, first: FieldWrite, second: FieldWrite)
    ensures
        config.replayed(seq![first, second]) == config.stored(first).stored(second),
{
    let writes = seq![first, second];
    assert(writes.drop_last() =~= seq![first]);
    assert(writes.last() == second);
    lemma_replay_one(config, first);
}

/// An operation leaves the configuration that its stores give when they are
/// made in their order.
pub proof fn lemma_after_replays_writes(config: PinConfig, op: ConfigOp)
    ensures
        config.after(op) == config.replayed(op.writes()),
{
    let writes = op.writes();
    if writes.len() == 1 {
        assert(writes =~= seq![writes[0]]);
        lemma_replay_one(config, writes[0]);
    } else {
        assert(writes =~= seq![writes[0], writes[1]]);
        lemma_replay_two(config, writes[0], writes[1]);
    }
}


/// The configurations that the operations are there to select. Whatever a
/// pin held before, selecting a mode and a function leaves exactly these
/// bits: for an input the mode and one of analog, floating and pull-up or
/// pull-down; for an output the speed, push-pull or open-drain, and general
/// purpose or alternate function.
pub proof fn lemma_selected_configurations(config: PinConfig)
    ensures
        config.after(ConfigOp::Input).after(ConfigOp::Analog) == (PinConfig {
            mode_low: 0, mode_high: 0, cnf_low: 0, cnf_high: 0,
        }),
        config.after(ConfigOp::Input).after(ConfigOp::Floating) == (PinConfig {
            mode_low: 0, mode_high: 0, cnf_low: 1, cnf_high: 0,
        }),
        config.after(ConfigOp::Input).after(ConfigOp::PullUpDown) == (PinConfig {
            mode_low: 0, mode_high: 0, cnf_low: 0, cnf_high: 1,
        }),
        config.after(ConfigOp::Output2).after(ConfigOp::PushPull).after(ConfigOp::General) == (
        PinConfig { mode_low: 0, mode_high: 1, cnf_low: 0, cnf_high: 0 }),
        config.after(ConfigOp::Output10).after(ConfigOp::PushPull).after(ConfigOp::General) == (
        PinConfig { mode_low: 1, mode_high: 0, cnf_low: 0, cnf_high: 0 }),
        config.after(ConfigOp::Output50).after(ConfigOp::PushPull).after(ConfigOp::General) == (
        PinConfig { mode_low: 1, mode_high: 1, cnf_low: 0, cnf_high: 0 }),
        config.after(ConfigOp::Output2).after(ConfigOp::OpenDrain).after(ConfigOp::General) == (
        PinConfig { mode_low: 0, mode_high: 1, cnf_low: 1, cnf_high: 0 }),
        config.after(ConfigOp::Output10).after(ConfigOp::OpenDrain).after(ConfigOp::General) == (
        PinConfig { mode_low: 1, mode_high: 0, cnf_low: 1, cnf_high: 0 }),
        config.after(ConfigOp::Output50).after(ConfigOp::OpenDrain).after(ConfigOp::General) == (
        PinConfig { mode_low: 1, mode_high: 1, cnf_low: 1, cnf_high: 0 }),
        config.after(ConfigOp::Output2).after(ConfigOp::PushPull).after(ConfigOp::Alternate) == (
        PinConfig { mode_low: 0, mode_high: 1, cnf_low: 0, cnf_high: 1 }),
        config.after(ConfigOp::Output10).after(ConfigOp::PushPull).after(ConfigOp::Alternate) == (
        PinConfig { mode_low: 1, mode_high: 0, cnf_low: 0, cnf_high: 1 }),
        config.after(ConfigOp::Output50).after(ConfigOp::PushPull).after(ConfigOp::Alternate) == (
        PinConfig { mode_low: 1, mode_high: 1, cnf_low: 0, cnf_high: 1 }),
        config.after(ConfigOp::Output2).after(ConfigOp::OpenDrain).after(ConfigOp::Alternate) == (
        PinConfig { mode_low: 0, mode_high: 1, cnf_low: 1, cnf_high: 1 }),
        config.after(ConfigOp::Output10).after(ConfigOp::OpenDrain).after(ConfigOp::Alternate) == (
        PinConfig { mode_low: 1, mode_high: 0, cnf_low: 1, cnf_high: 1 }),
        config.after(ConfigOp::Output50).after(ConfigOp::OpenDrain).after(ConfigOp::Alternate) == (
        PinConfig { mode_low: 1, mode_high: 1, cnf_low: 1, cnf_high: 1 }),
{
}

/// An operation changes the bits that it stores to, and no other: each bit
/// of the configuration that it leaves is the value of its last store to
/// that bit, or the bit as it was where it makes none.
pub proof fn lemma_operation_changes_what_it_stores(
    config: PinConfig,
    op: ConfigOp,
    field: ConfigField,
)
    ensures
        (forall|index: int|
            0 <= index < op.writes().len() ==> (#[trigger] op.writes()[index]).field != field)
            ==> config.after(op).bit(field) == config.bit(field),
        forall|index: int|
            #![trigger op.writes()[index]]
            0 <= index < op.writes().len() && op.writes()[index].field == field ==> config.after(
                op,
            ).bit(field) == op.writes()[index].value && op.writes()[index].value <= 1,
{
    let writes = op.writes();
    if writes.len() == 1 {
        assert(writes[0].field == writes[0].field);
    } else {
        assert(writes[0].field != writes[1].field);
    }
}

/// Selecting a mode keeps the function bits, selecting a function keeps the
/// mode bits, and the two can be done in either order.
pub proof fn lemma_mode_and_function_are_independent(
    config: PinConfig,
    mode: ConfigOp,
    function: ConfigOp,
)
    requires
        mode.selects_mode(),
        !function.selects_mode(),
    ensures
        config.after(mode).cnf_low == config.cnf_low,
        config.after(mode).cnf_high == config.cnf_high,
        config.after(function).mode_low == config.mode_low,
        config.after(function).mode_high == config.mode_high,
        config.after(mode).after(function) == config.after(function).after(mode),
{
}

/// While a pin is made a floating input, its function bits never show the
/// reserved pair: not after the first store, not after the second, and not
/// before the first unless the pin held the pair already.
pub proof fn lemma_floating_never_shows_reserved_pair(config: PinConfig, made: int)
    requires
        0 <= made <= ConfigOp::Floating.writes().len(),
        made == 0 ==> !config.has_reserved_pair(),
    ensures
        !config.replayed(ConfigOp::Floating.writes().take(made)).has_reserved_pair(),
{
    let writes = ConfigOp::Floating.writes();
    if made == 0 {
        assert(writes.take(0) =~= Seq::empty());
    } else if made == 1 {
        assert(writes.take(1) =~= seq![writes[0]]);
        lemma_replay_one(config, writes[0]);
    } else {
        assert(writes.take(2) =~= seq![writes[0], writes[1]]);
        lemma_replay_two(config, writes[0], writes[1]);
    }
}

/// The configuration bits of one pin: four cells, one for each bit.
///
/// Each operation stores to the cells that it names and to no other, and
/// hands the block back, so that operations can be chained. Nothing is reset
/// between them: to change a pin from output to input, say, select the mode
/// and the function both.
pub struct GPIOBitbandConfigBlock {
    mode_low: VolatileCell<u32>,
    mode_high: VolatileCell<u32>,
    cnf_low: VolatileCell<u32>,
    cnf_high: VolatileCell<u32>,
    history: Ghost<Seq<FieldWrite>>,
}

impl View for GPIOBitbandConfigBlock {
    type V = PinConfig;

    /// What the four cells contain.
    closed spec fn view(&self) -> PinConfig {
        PinConfig {
            mode_low: contained(self.mode_low),
            mode_high: contained(self.mode_high),
            cnf_low: contained(self.cnf_low),
            cnf_high: contained(self.cnf_high),
        }
    }
}

impl GPIOBitbandConfigBlock {
    /// Every store made to the cells through this block, first to last.
    pub closed spec fn history(&self) -> Seq<FieldWrite> {
        self.history@
    }

    /// That `after` is `self` once `op` was carried out on it: the cells
    /// hold what the operation leaves, and its stores were made, in their
    /// order and after all earlier ones.
    pub open spec fn carried_out(&self, op: ConfigOp, after: &Self) -> bool {
        &&& after@ == self@.after(op)
        &&& after.history() =~= self.history() + op.writes()
    }

    /// A block of cells of its own that hold `config`, with no store made
    /// yet.
    pub fn new(config: PinConfig) -> (block: Self)
        ensures
            block@ == config,
            block.history() == Seq::<FieldWrite>::empty(),
    {
        GPIOBitbandConfigBlock {
            mode_low: new_cell(config.mode_low),
            mode_high: new_cell(config.mode_high),
            cnf_low: new_cell(config.cnf_low),
            cnf_high: new_cell(config.cnf_high),
            history: Ghost(Seq::empty()),
        }
    }

    /// Reads the four cells.
    pub fn read(&self) -> (config: PinConfig)
        ensures
            config == self@,
    {
        PinConfig {
            mode_low: load(&self.mode_low),
            mode_high: load(&self.mode_high),
            cnf_low: load(&self.cnf_low),
            cnf_high: load(&self.cnf_high),
        }
    }

    #[inline]
    fn write(&mut self, field: ConfigField, value: u32)
        ensures
            final(self)@ == old(self)@.stored(write_of(field, value)),
            final(self).history() == old(self).history().push(write_of(field, value)),
    {
        match field {
            ConfigField::ModeLow => store(&mut self.mode_low, value),
            ConfigField::ModeHigh => store(&mut self.mode_high, value),
            ConfigField::CnfLow => store(&mut self.cnf_low, value),
            ConfigField::CnfHigh => store(&mut self.cnf_high, value),
        }
        proof {
            self.history@ = self.history@.push(write_of(field, value));
        }
    }

    /// Input mode (reset state).
    pub fn input(&mut self) -> (block: &mut Self)
        ensures
            old(self).carried_out(ConfigOp::Input, block),
            *final(self) == *final(block),
    {
        self.write(ConfigField::ModeLow, 0);
        self.write(ConfigField::ModeHigh, 0);
        self
    }

    /// Output mode, max speed 2 MHz.
    pub fn output2(&mut self) -> (block: &mut Self)
        ensures
            old(self).carried_out(ConfigOp::Output2, block),
            *final(self) == *final(block),
    {
        self.write(ConfigField::ModeLow, 0);
        self.write(ConfigField::ModeHigh, 1);
        self
    }

    /// Output mode, max speed 10 MHz.
    pub fn output10(&mut self) -> (block: &mut Self)
        ensures
            old(self).carried_out(ConfigOp::Output10, block),
            *final(self) == *final(block),
    {
        self.write(ConfigField::ModeLow, 1);
        self.write(ConfigField::ModeHigh, 0);
        self
    }

    /// Output mode, max speed 50 MHz.
    pub fn output50(&mut self) -> (block: &mut Self)
        ensures
            old(self).carried_out(ConfigOp::Output50, block),
            *final(self) == *final(block),
    {
        self.write(ConfigField::ModeLow, 1);
        self.write(ConfigField::ModeHigh, 1);
        self
    }

    /// Push-pull output.
    pub fn push_pull(&mut self) -> (block: &mut Self)
        ensures
            old(self).carried_out(ConfigOp::PushPull, block),
            *final(self) == *final(block),
    {
        self.write(ConfigField::CnfLow, 0);
        self
    }

    /// Open-drain output.
    pub fn open_drain(&mut self) -> (block: &mut Self)
        ensures
            old(self).carried_out(ConfigOp::OpenDrain, block),
            *final(self) == *final(block),
    {
        self.write(ConfigField::CnfLow, 1);
        self
    }

    /// General purpose output.
    pub fn general(&mut self) -> (block: &mut Self)
        ensures
            old(self).carried_out(ConfigOp::General, block),
            *final(self) == *final(block),
    {
        self.write(ConfigField::CnfHigh, 0);
        self
    }

    /// Alternate function output.
    pub fn alternate(&mut self) -> (block: &mut Self)
        ensures
            old(self).carried_out(ConfigOp::Alternate, block),
            *final(self) == *final(block),
    {
        self.write(ConfigField::CnfHigh, 1);
        self
    }

    /// Analog input.
    pub fn analog(&mut self) -> (block: &mut Self)
        ensures
            old(self).carried_out(ConfigOp::Analog, block),
            *final(self) == *final(block),
    {
        self.write(ConfigField::CnfLow, 0);
        self.write(ConfigField::CnfHigh, 0);
        self
    }

    /// Floating input (reset state).
    pub fn floating(&mut self) -> (block: &mut Self)
        ensures
            old(self).carried_out(ConfigOp::Floating, block),
            *final(self) == *final(block),
    {
        // The order matters: with the low bit stored first, a pin that had
        // the high bit set would show the reserved pair until the second
        // store.
        self.write(ConfigField::CnfHigh, 0);
        self.write(ConfigField::CnfLow, 1);
        self
    }

    /// Input with pull-up or pull-down.
    pub fn pull_up_down(&mut self) -> (block: &mut Self)
        ensures
            old(self).carried_out(ConfigOp::PullUpDown, block),
            *final(self) == *final(block),
    {
        self.write(ConfigField::CnfLow, 0);
        self.write(ConfigField::CnfHigh, 1);
        self
    }
}

/// The configuration bits of the sixteen pins of a port.
pub struct GPIOBitbandRegisterBlock {
    config: [GPIOBitbandConfigBlock; PIN_COUNT],
}

impl GPIOBitbandRegisterBlock {
    /// The block of the pin `pin`.
    pub closed spec fn block(&self, pin: int) -> GPIOBitbandConfigBlock {
        self.config@[pin]
    }

    /// Blocks of cells of their own, with every pin at `config` and no
    /// store made yet.
    pub fn new(config: PinConfig) -> (blocks: Self)
        ensures
            forall|pin: int|
                0 <= pin < PIN_COUNT ==> (#[trigger] blocks.block(pin))@ == config
                    && blocks.block(pin).history() == Seq::<FieldWrite>::empty(),
    {
        GPIOBitbandRegisterBlock {
            config: [
                GPIOBitbandConfigBlock::new(config),
                GPIOBitbandConfigBlock::new(config),
                GPIOBitbandConfigBlock::new(config),
                GPIOBitbandConfigBlock::new(config),
                GPIOBitbandConfigBlock::new(config),
                GPIOBitbandConfigBlock::new(config),
                GPIOBitbandConfigBlock::new(config),
                GPIOBitbandConfigBlock::new(config),
                GPIOBitbandConfigBlock::new(config),
                GPIOBitbandConfigBlock::new(config),
                GPIOBitbandConfigBlock::new(config),
                GPIOBitbandConfigBlock::new(config),
                GPIOBitbandConfigBlock::new(config),
                GPIOBitbandConfigBlock::new(config),
                GPIOBitbandConfigBlock::new(config),
                GPIOBitbandConfigBlock::new(config),
            ],
        }
    }

    /// The configuration bits of the pin `pin`. What is done through the
    /// block that is handed out is done to this pin, and to no other.
    pub fn config(&mut self, pin: usize) -> (block: &mut GPIOBitbandConfigBlock)
        requires
            pin < PIN_COUNT,
        ensures
            *block == old(self).block(pin as int),
            final(self).block(pin as int) == *final(block),
            forall|other: int|
                0 <= other < PIN_COUNT && other != pin ==> #[trigger] final(self).block(other)
                    == old(self).block(other),
    {
        &mut self.config[pin]
    }
}

} // verus!
