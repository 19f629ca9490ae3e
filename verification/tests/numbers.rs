use texture_quad::encoding::halfwords_to_le_bytes;
use texture_quad::encoding::words_to_le_bytes;
use texture_quad::single::from_u32;
use texture_quad::single::NEGATIVE_ZERO;
use texture_quad::single::ONE;
use texture_quad::single::ZERO;

#[test]
fn pattern_of_zero_is_all_clear() {
    assert_eq!(from_u32(0), 0);
    assert_eq!(from_u32(0), 0.0f32.to_bits());
}

#[test]
fn named_patterns_are_those_of_the_numbers() {
    assert_eq!(ZERO, 0.0f32.to_bits());
    assert_eq!(NEGATIVE_ZERO, (-0.0f32).to_bits());
    assert_eq!(ONE, 1.0f32.to_bits());
    assert_eq!(from_u32(1), ONE);
}

#[test]
fn small_numbers_are_exact() {
    assert_eq!(from_u32(2), 0x4000_0000);
    assert_eq!(from_u32(3), 0x4040_0000);
    assert_eq!(from_u32(128), 0x4300_0000);
    assert_eq!(from_u32(256), 0x4380_0000);
    assert_eq!(from_u32(360), 0x43B4_0000);
    assert_eq!(from_u32(640), 0x4420_0000);
    assert_eq!(from_u32(0x00FF_FFFF), 0x4B7F_FFFF);
    assert_eq!(from_u32(0x0100_0000), 0x4B80_0000);
    for n in 0u32..5000 {
        assert_eq!(f32::from_bits(from_u32(n)), n as f32);
    }
}

#[test]
fn a_tie_goes_to_the_even_significand() {
    // 2^24 + 1 lies halfway between 2^24 and 2^24 + 2.
    assert_eq!(from_u32(0x0100_0001), 0x4B80_0000);
    // 2^24 + 3 lies halfway between 2^24 + 2 and 2^24 + 4.
    assert_eq!(from_u32(0x0100_0003), 0x4B80_0002);
    // Just above and just below a tie.
    assert_eq!(from_u32(0x0200_0003), 0x4C00_0001);
    assert_eq!(from_u32(0x0200_0001), 0x4C00_0000);
    assert_eq!(from_u32(0x0200_0002), 0x4C00_0000);
    assert_eq!(from_u32(0x0200_0006), 0x4C00_0002);
}

#[test]
fn rounding_up_can_carry_into_the_exponent() {
    assert_eq!(from_u32(u32::MAX), 0x4F80_0000);
    assert_eq!(from_u32(0xFFFF_FF80), 0x4F80_0000);
    assert_eq!(from_u32(0xFFFF_FF7F), 0x4F7F_FFFF);
    assert_eq!(from_u32(0x01FF_FFFF), 0x4C00_0000);
}

#[test]
fn patterns_agree_with_the_cast_of_the_machine() {
    let mut n: u32 = 1;
    for _ in 0..200_000 {
        assert_eq!(from_u32(n), (n as f32).to_bits(), "at {}", n);
        n = n.wrapping_mul(1_664_525).wrapping_add(1_013_904_223);
    }
    for shift in 0..32 {
        let p = 1u32 << shift;
        for delta in 0..4u32 {
            let below = p.wrapping_sub(delta);
            let above = p.wrapping_add(delta);
            assert_eq!(from_u32(below), (below as f32).to_bits());
            assert_eq!(from_u32(above), (above as f32).to_bits());
        }
    }
}

#[test]
fn halfwords_come_out_low_byte_first() {
    assert_eq!(halfwords_to_le_bytes(&vec![0x0102, 0xFFFE, 0]), vec![2, 1, 0xFE, 0xFF, 0, 0]);
    assert_eq!(halfwords_to_le_bytes(&Vec::new()), Vec::<u8>::new());
}

#[test]
fn words_come_out_low_byte_first() {
    assert_eq!(
        words_to_le_bytes(&vec![0x0102_0304, 0x3F80_0000]),
        vec![4, 3, 2, 1, 0, 0, 0x80, 0x3F]
    );
    assert_eq!(words_to_le_bytes(&Vec::new()), Vec::<u8>::new());
    let words: Vec<u32> = vec![0xDEAD_BEEF, 1, 0x8000_0000];
    let mut expected: Vec<u8> = Vec::new();
    for w in &words {
        expected.extend_from_slice(&w.to_le_bytes());
    }
    assert_eq!(words_to_le_bytes(&words), expected);
}
