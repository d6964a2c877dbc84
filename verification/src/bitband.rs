//! Bit-band addresses.
//!
//! Every bit of the peripheral region has a word of its own in the alias
//! region. A store to that word changes the one bit and no other, in a
//! single bus access, so a bit of a packed register can be written without
//! reading the register first.

use vstd::prelude::*;

verus! {

/// Where the peripheral region starts.
pub const PERIPHERALS_BASE: usize = 0x4000_0000;

/// Where the alias region of the peripherals starts.
pub const PERIPHERALS_ALIAS: usize = 0x4200_0000;

/// The alias address of the byte at `address`: that of the word which
/// stands for its lowest bit. Each byte takes thirty-two bytes of alias.
pub open spec fn bitband_address(address: int) -> int {
    PERIPHERALS_ALIAS + (address - PERIPHERALS_BASE) * 32
}

/// The alias address of bit `bit` of the word at `address`.
pub open spec fn bit_alias(address: int, bit: int) -> int {
    bitband_address(address) + 4 * bit
}

/// The address of the peripheral word that holds the bit behind the alias
/// word at `alias`.
pub open spec fn aliased_word(alias: int) -> int {
    PERIPHERALS_BASE + (alias - PERIPHERALS_ALIAS) / 128 * 4
}

/// Which bit of its peripheral word stands behind the alias word at `alias`.
pub open spec fn aliased_bit(alias: int) -> int {
    (alias - PERIPHERALS_ALIAS) / 4 % 32
}

/// `word` with bit `bit` replaced by the lowest bit of `value`.
pub open spec fn store_bit(word: u32, bit: u32, value: u32) -> u32 {
    (word & !(1u32 << bit)) | ((value & 1) << bit)
}

/// The peripheral memory, word by word, after `value` was stored to the
/// alias word at `alias`.
pub open spec fn alias_store(memory: Map<int, u32>, alias: int, value: u32) -> Map<int, u32> {
    let address = aliased_word(alias);
    memory.insert(address, store_bit(memory[address], aliased_bit(alias) as u32, value))
}

/// Translates the address of a peripheral register to its bit-band alias
/// address. No bounds are checked beyond what the arithmetic needs: the
/// address must not lie below the peripheral region, and its alias must be
/// an address.
pub fn to_bitband_address(address: usize) -> (alias: usize)
    requires
        PERIPHERALS_BASE <= address,
        bitband_address(address as int) <= usize::MAX,
    ensures
        alias == bitband_address(address as int),
{
    let byte_offset = address - PERIPHERALS_BASE;
    PERIPHERALS_ALIAS + byte_offset * 32
}

/// From a bit to its alias word and back: the alias word of bit `bit` of the
/// word at `address` stands for that bit of that word and for nothing else.
pub proof fn lemma_alias_leads_back(address: int, bit: int)
    requires
        address % 4 == 0,
        0 <= bit < 32,
    ensures
        aliased_word(bit_alias(address, bit)) == address,
        aliased_bit(bit_alias(address, bit)) == bit,
        bit_alias(address, bit) % 4 == 0,
{
}

/// From an alias word to its bit and back: every word of the alias region
/// is the alias of one bit of one peripheral word.
pub proof fn lemma_alias_is_reached(alias: int)
    requires
        alias % 4 == 0,
    ensures
        aliased_word(alias) % 4 == 0,
        0 <= aliased_bit(alias) < 32,
        bit_alias(aliased_word(alias), aliased_bit(alias)) == alias,
{
}

/// The translation keeps regions: a word lies in the first `span` bytes of
/// the peripheral region exactly when the alias words of its bits lie in the
/// first `32 * span` bytes of the alias region.
pub proof fn lemma_alias_keeps_region(address: int, bit: int, span: int)
    requires
        address % 4 == 0,
        0 <= bit < 32,
        span % 4 == 0,
    ensures
        (PERIPHERALS_BASE <= address < PERIPHERALS_BASE + span) <==> (PERIPHERALS_ALIAS
            <= bit_alias(address, bit) < PERIPHERALS_ALIAS + 32 * span),
{
}

/// Two bits with the same alias word are the same bit.
pub proof fn lemma_alias_is_injective(address: int, bit: int, other_address: int, other_bit: int)
    requires
        address % 4 == 0,
        other_address % 4 == 0,
        0 <= bit < 32,
        0 <= other_bit < 32,
        bit_alias(address, bit) == bit_alias(other_address, other_bit),
    ensures
        address == other_address,
        bit == other_bit,
{
    lemma_alias_leads_back(address, bit);
    lemma_alias_leads_back(other_address, other_bit);
}

/// A store to the alias word of bit `bit` of the word at `address` gives
/// that bit the lowest bit of `value`, keeps every other bit of the word,
/// and keeps every other word.
pub proof fn lemma_alias_store_writes_one_bit(
    memory: Map<int, u32>,
    address: int,
    bit: u32,
    value: u32,
)
    requires
        address % 4 == 0,
        bit < 32,
    ensures
        ({
            let after = alias_store(memory, bit_alias(address, bit as int), value);
            &&& (after[address] >> bit) & 1 == value & 1
            &&& forall|other: u32|
                other < 32 && other != bit ==> (#[trigger] (after[address] >> other)) & 1 == (
                memory[address] >> other) & 1
            &&& forall|other: int|
                other != address && memory.dom().contains(other) ==> #[trigger] after[other]
                    == memory[other]
            &&& after.dom() == memory.dom().insert(address)
        }),
{
    lemma_alias_leads_back(address, bit as int);
    let before = memory[address];
    let stored = store_bit(before, bit, value);
    assert((stored >> bit) & 1 == value & 1) by (bit_vector)
        requires
            bit < 32,
            stored == store_bit(before, bit, value),
    ;
    assert forall|other: u32| other < 32 && other != bit implies (#[trigger] (stored >> other)) & 1
        == (before >> other) & 1 by {
        assert((stored >> other) & 1 == (before >> other) & 1) by (bit_vector)
            requires
                bit < 32,
                other < 32,
                other != bit,
                stored == store_bit(before, bit, value),
        ;
    }
}

} // verus!
