use stm32_extras::{to_bitband_address, PERIPHERALS_ALIAS, PERIPHERALS_BASE};

#[test]
fn alias_of_the_base_is_the_alias_base() {
    assert_eq!(to_bitband_address(PERIPHERALS_BASE), PERIPHERALS_ALIAS);
    assert_eq!(to_bitband_address(0x4000_0000), 0x4200_0000);
}

#[test]
fn alias_takes_thirty_two_bytes_for_each_byte() {
    assert_eq!(to_bitband_address(0x4000_0001), 0x4200_0020);
    assert_eq!(to_bitband_address(0x4000_0004), 0x4200_0080);
    assert_eq!(to_bitband_address(0x4001_0800), 0x4221_0000);
    assert_eq!(to_bitband_address(0x4001_1000), 0x4222_0000);
    assert_eq!(to_bitband_address(0x400F_FFFC), 0x43FF_FF80);
}

#[test]
fn distinct_words_have_distinct_alias_words() {
    let mut seen = Vec::new();
    for word in 0..64usize {
        let alias = to_bitband_address(PERIPHERALS_BASE + 4 * word);
        for bit in 0..32usize {
            seen.push(alias + 4 * bit);
        }
    }
    for index in 1..seen.len() {
        assert_eq!(seen[index], seen[index - 1] + 4);
    }
}
