use telemetry_node::nec::{
    decode, encode, Level, PulseSequence, PulseSpec, BIT_MARK_TICKS, END_MARK_TICKS,
    ONE_SPACE_TICKS, START_MARK_TICKS, START_SPACE_TICKS, ZERO_SPACE_TICKS,
};

fn space_ticks(seq: &PulseSequence, i: usize) -> u16 {
    seq.pairs[i].space.ticks
}

#[test]
fn encode_has_67_entries_and_fixed_markers() {
    for &(a, c) in &[(0u16, 0u16), (0xFFFF, 0xFFFF), (0x6681, 0x7E81), (0xA90F, 0xA90F)] {
        let seq = encode(a, c);
        assert_eq!(seq.pairs.len(), 67);
        assert_eq!(seq.pairs[0].mark, PulseSpec { level: Level::High, ticks: START_MARK_TICKS });
        assert_eq!(seq.pairs[0].space, PulseSpec { level: Level::Low, ticks: START_SPACE_TICKS });
        assert_eq!(seq.pairs[66].mark, PulseSpec { level: Level::High, ticks: END_MARK_TICKS });
        assert_eq!(seq.pairs[66].space.ticks, 0);
    }
}

#[test]
fn encode_bit_slots_carry_fixed_mark() {
    let seq = encode(0xA90F, 0xA90F);
    for i in 1..=32 {
        assert_eq!(seq.pairs[i].mark, PulseSpec { level: Level::High, ticks: BIT_MARK_TICKS });
    }
}

#[test]
fn encode_is_most_significant_bit_first() {
    // 0x6681 = 0110_0110_1000_0001: bit 15 is 0, so slot 1 must carry the
    // logical-0 space, not bit 0 (which is 1).
    let seq = encode(0x6681, 0x7E81);
    assert_eq!(space_ticks(&seq, 1), ZERO_SPACE_TICKS);
    assert_eq!(space_ticks(&seq, 2), ONE_SPACE_TICKS); // bit 14 = 1
    assert_eq!(space_ticks(&seq, 16), ONE_SPACE_TICKS); // bit 0 = 1
    // 0x7E81 = 0111_1110_1000_0001 in the command slots 17..=32.
    assert_eq!(space_ticks(&seq, 17), ZERO_SPACE_TICKS); // bit 15 = 0
    assert_eq!(space_ticks(&seq, 18), ONE_SPACE_TICKS); // bit 14 = 1
    assert_eq!(space_ticks(&seq, 32), ONE_SPACE_TICKS); // bit 0 = 1
}

#[test]
fn encode_every_bit_position_both_words() {
    let a: u16 = 0x6681;
    let c: u16 = 0x7E81;
    let seq = encode(a, c);
    for i in 0..16 {
        let a_bit = (a >> (15 - i)) & 1 == 1;
        let expected = if a_bit { ONE_SPACE_TICKS } else { ZERO_SPACE_TICKS };
        assert_eq!(space_ticks(&seq, 1 + i as usize), expected);
        let c_bit = (c >> (15 - i)) & 1 == 1;
        let expected = if c_bit { ONE_SPACE_TICKS } else { ZERO_SPACE_TICKS };
        assert_eq!(space_ticks(&seq, 17 + i as usize), expected);
    }
}

#[test]
fn encode_fills_unused_slots_with_zero_pulses() {
    let seq = encode(0xFFFF, 0xFFFF);
    for i in 33..=65 {
        assert_eq!(seq.pairs[i].mark.ticks, 0);
        assert_eq!(seq.pairs[i].space.ticks, 0);
    }
}

#[test]
fn round_trip_reconstructs_address_and_command() {
    for &(a, c) in &[
        (0x0000u16, 0x0000u16),
        (0xFFFF, 0xFFFF),
        (0x6681, 0x7E81),
        (0xA90F, 0xA90F),
        (0x0001, 0x8000),
    ] {
        let seq = encode(a, c);
        assert_eq!(decode(&seq), Some((a, c)));
    }
}

#[test]
fn decode_rejects_wrong_length() {
    let mut seq = encode(0xA90F, 0xA90F);
    seq.pairs.pop();
    assert_eq!(decode(&seq), None);
}

#[test]
fn decode_rejects_corrupt_bit_slot() {
    let mut seq = encode(0xA90F, 0xA90F);
    seq.pairs[5].space.ticks = 1000;
    assert_eq!(decode(&seq), None);
}

#[test]
fn decode_rejects_missing_start_marker() {
    let mut seq = encode(0xA90F, 0xA90F);
    seq.pairs[0].mark.ticks = BIT_MARK_TICKS;
    assert_eq!(decode(&seq), None);
}

#[test]
fn decode_rejects_corrupt_filler() {
    let mut seq = encode(0xA90F, 0xA90F);
    seq.pairs[40].space.ticks = ONE_SPACE_TICKS;
    assert_eq!(decode(&seq), None);
}
