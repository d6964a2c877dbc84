use stm32_extras::{GPIOBitbandConfigBlock, GPIOBitbandRegisterBlock, GPIOExtras, PinConfig, SimulatedPort};

fn bits(mode_low: u32, mode_high: u32, cnf_low: u32, cnf_high: u32) -> PinConfig {
    PinConfig { mode_low, mode_high, cnf_low, cnf_high }
}

fn starts() -> Vec<PinConfig> {
    let mut all = Vec::new();
    for code in 0..16u32 {
        all.push(bits(code & 1, (code >> 1) & 1, (code >> 2) & 1, (code >> 3) & 1));
    }
    all
}

#[test]
fn new_block_holds_what_it_was_given() {
    let block = GPIOBitbandConfigBlock::new(bits(1, 0, 1, 0));
    assert_eq!(block.read(), bits(1, 0, 1, 0));
    let other = GPIOBitbandConfigBlock::new(bits(7, 8, 9, 10));
    assert_eq!(other.read(), bits(7, 8, 9, 10));
}

#[test]
fn input_clears_both_mode_bits() {
    for start in starts() {
        let mut block = GPIOBitbandConfigBlock::new(start);
        block.input();
        assert_eq!(block.read(), PinConfig { mode_low: 0, mode_high: 0, ..start });
    }
}

#[test]
fn output2_selects_mode_two() {
    for start in starts() {
        let mut block = GPIOBitbandConfigBlock::new(start);
        block.output2();
        assert_eq!(block.read(), PinConfig { mode_low: 0, mode_high: 1, ..start });
    }
}

#[test]
fn output10_selects_mode_one() {
    for start in starts() {
        let mut block = GPIOBitbandConfigBlock::new(start);
        block.output10();
        assert_eq!(block.read(), PinConfig { mode_low: 1, mode_high: 0, ..start });
    }
}

#[test]
fn output50_selects_mode_three() {
    for start in starts() {
        let mut block = GPIOBitbandConfigBlock::new(start);
        block.output50();
        assert_eq!(block.read(), PinConfig { mode_low: 1, mode_high: 1, ..start });
    }
}

#[test]
fn push_pull_clears_the_low_function_bit() {
    for start in starts() {
        let mut block = GPIOBitbandConfigBlock::new(start);
        block.push_pull();
        assert_eq!(block.read(), PinConfig { cnf_low: 0, ..start });
    }
}

#[test]
fn open_drain_sets_the_low_function_bit() {
    for start in starts() {
        let mut block = GPIOBitbandConfigBlock::new(start);
        block.open_drain();
        assert_eq!(block.read(), PinConfig { cnf_low: 1, ..start });
    }
}

#[test]
fn general_clears_the_high_function_bit() {
    for start in starts() {
        let mut block = GPIOBitbandConfigBlock::new(start);
        block.general();
        assert_eq!(block.read(), PinConfig { cnf_high: 0, ..start });
    }
}

#[test]
fn alternate_sets_the_high_function_bit() {
    for start in starts() {
        let mut block = GPIOBitbandConfigBlock::new(start);
        block.alternate();
        assert_eq!(block.read(), PinConfig { cnf_high: 1, ..start });
    }
}

#[test]
fn analog_clears_both_function_bits() {
    for start in starts() {
        let mut block = GPIOBitbandConfigBlock::new(start);
        block.analog();
        assert_eq!(block.read(), PinConfig { cnf_low: 0, cnf_high: 0, ..start });
    }
}

#[test]
fn floating_selects_function_one() {
    for start in starts() {
        let mut block = GPIOBitbandConfigBlock::new(start);
        block.floating();
        assert_eq!(block.read(), PinConfig { cnf_low: 1, cnf_high: 0, ..start });
    }
}

#[test]
fn pull_up_down_selects_function_two() {
    for start in starts() {
        let mut block = GPIOBitbandConfigBlock::new(start);
        block.pull_up_down();
        assert_eq!(block.read(), PinConfig { cnf_low: 0, cnf_high: 1, ..start });
    }
}

#[test]
fn analog_input_from_any_start() {
    for start in starts() {
        let mut block = GPIOBitbandConfigBlock::new(start);
        block.input().analog();
        assert_eq!(block.read(), bits(0, 0, 0, 0));
    }
}

#[test]
fn floating_input_from_any_start() {
    for start in starts() {
        let mut block = GPIOBitbandConfigBlock::new(start);
        block.input().floating();
        assert_eq!(block.read(), bits(0, 0, 1, 0));
    }
}

#[test]
fn pull_up_down_input_from_any_start() {
    for start in starts() {
        let mut block = GPIOBitbandConfigBlock::new(start);
        block.input().pull_up_down();
        assert_eq!(block.read(), bits(0, 0, 0, 1));
    }
}

#[test]
fn push_pull_output_at_each_speed() {
    for start in starts() {
        let mut block = GPIOBitbandConfigBlock::new(start);
        block.output2().push_pull().general();
        assert_eq!(block.read(), bits(0, 1, 0, 0));
        let mut block = GPIOBitbandConfigBlock::new(start);
        block.output10().push_pull().general();
        assert_eq!(block.read(), bits(1, 0, 0, 0));
        let mut block = GPIOBitbandConfigBlock::new(start);
        block.output50().push_pull().general();
        assert_eq!(block.read(), bits(1, 1, 0, 0));
    }
}

#[test]
fn open_drain_output_at_each_speed() {
    for start in starts() {
        let mut block = GPIOBitbandConfigBlock::new(start);
        block.output2().open_drain().general();
        assert_eq!(block.read(), bits(0, 1, 1, 0));
        let mut block = GPIOBitbandConfigBlock::new(start);
        block.output10().open_drain().general();
        assert_eq!(block.read(), bits(1, 0, 1, 0));
        let mut block = GPIOBitbandConfigBlock::new(start);
        block.output50().open_drain().general();
        assert_eq!(block.read(), bits(1, 1, 1, 0));
    }
}

#[test]
fn alternate_push_pull_output_at_each_speed() {
    for start in starts() {
        let mut block = GPIOBitbandConfigBlock::new(start);
        block.output2().push_pull().alternate();
        assert_eq!(block.read(), bits(0, 1, 0, 1));
        let mut block = GPIOBitbandConfigBlock::new(start);
        block.output10().push_pull().alternate();
        assert_eq!(block.read(), bits(1, 0, 0, 1));
        let mut block = GPIOBitbandConfigBlock::new(start);
        block.output50().push_pull().alternate();
        assert_eq!(block.read(), bits(1, 1, 0, 1));
    }
}

#[test]
fn alternate_open_drain_output_at_each_speed() {
    for start in starts() {
        let mut block = GPIOBitbandConfigBlock::new(start);
        block.output2().open_drain().alternate();
        assert_eq!(block.read(), bits(0, 1, 1, 1));
        let mut block = GPIOBitbandConfigBlock::new(start);
        block.output10().open_drain().alternate();
        assert_eq!(block.read(), bits(1, 0, 1, 1));
        let mut block = GPIOBitbandConfigBlock::new(start);
        block.output50().open_drain().alternate();
        assert_eq!(block.read(), bits(1, 1, 1, 1));
    }
}

#[test]
fn mode_and_function_can_be_selected_in_either_order() {
    for start in starts() {
        let mut one = GPIOBitbandConfigBlock::new(start);
        one.output10().open_drain().alternate();
        let mut other = GPIOBitbandConfigBlock::new(start);
        other.alternate().open_drain().output10();
        assert_eq!(one.read(), other.read());
    }
}

#[test]
fn operations_store_what_they_are_given_over_other_values() {
    let mut block = GPIOBitbandConfigBlock::new(bits(5, 6, 7, 8));
    block.output2();
    assert_eq!(block.read(), bits(0, 1, 7, 8));
    block.floating();
    assert_eq!(block.read(), bits(0, 1, 1, 0));
}

#[test]
fn output2_open_drain_keeps_the_high_function_bit() {
    let mut port = SimulatedPort::new(0);
    port.pin_config(13).alternate();
    port.pin_config(13).output2().open_drain();
    assert_eq!(port.pin_config(13).read(), bits(0, 1, 1, 1));

    let mut port = SimulatedPort::new(0);
    port.pin_config(13).general();
    port.pin_config(13).output2().open_drain();
    assert_eq!(port.pin_config(13).read(), bits(0, 1, 1, 0));
}

#[test]
fn new_port_has_floating_inputs() {
    let mut port = SimulatedPort::new(0x1234);
    for pin in 0..16 {
        assert_eq!(port.pin_config(pin).read(), bits(0, 0, 1, 0));
    }
    assert_eq!(port.read_pin_range(0, 16), 0x1234);
}

#[test]
fn pin_config_reaches_one_pin_only() {
    let mut port = SimulatedPort::new(0xFFFF);
    port.pin_config(13).output2().open_drain();
    port.pin_config(0).output50().push_pull().alternate();
    for pin in 0..16 {
        let expected = match pin {
            0 => bits(1, 1, 0, 1),
            13 => bits(0, 1, 1, 0),
            _ => bits(0, 0, 1, 0),
        };
        assert_eq!(port.pin_config(pin).read(), expected);
    }
    assert_eq!(port.read_pin_range(0, 16), 0xFFFF);
}

#[test]
fn register_block_hands_out_each_pin() {
    let mut blocks = GPIOBitbandRegisterBlock::new(bits(0, 0, 0, 0));
    for pin in 0..16 {
        if pin % 2 == 0 {
            blocks.config(pin).output10();
        } else {
            blocks.config(pin).pull_up_down();
        }
    }
    for pin in 0..16 {
        let expected = if pin % 2 == 0 { bits(1, 0, 0, 0) } else { bits(0, 0, 0, 1) };
        assert_eq!(blocks.config(pin).read(), expected);
    }
}

#[test]
fn stores_of_floating_never_show_both_function_bits_set() {
    for start in starts() {
        let mut steps = GPIOBitbandConfigBlock::new(start);
        steps.general();
        let first = steps.read();
        assert!(!(first.cnf_low == 1 && first.cnf_high == 1));
        steps.open_drain();
        let second = steps.read();
        assert!(!(second.cnf_low == 1 && second.cnf_high == 1));

        let mut whole = GPIOBitbandConfigBlock::new(start);
        whole.floating();
        assert_eq!(whole.read(), second);
    }
}
