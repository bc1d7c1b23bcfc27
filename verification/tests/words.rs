use del_gl::words::{
    negate, z_flip, EIGHT_TENTHS, ELEVEN_TENTHS, FOUR, MINUS_ONE, ONE, SIGN, THREE_TENTHS, ZERO,
};

#[test]
fn constants_are_the_words_of_their_numbers() {
    assert_eq!(ZERO, 0.0f32.to_bits());
    assert_eq!(ONE, 1.0f32.to_bits());
    assert_eq!(MINUS_ONE, (-1.0f32).to_bits());
    assert_eq!(THREE_TENTHS, 0.3f32.to_bits());
    assert_eq!(EIGHT_TENTHS, 0.8f32.to_bits());
    assert_eq!(ELEVEN_TENTHS, 1.1f32.to_bits());
    assert_eq!(FOUR, 4.0f32.to_bits());
    assert_eq!(SIGN, (-0.0f32).to_bits());
}

#[test]
fn negate_is_float_negation() {
    let samples: [f32; 9] = [
        0.0,
        -0.0,
        1.0,
        -2.5,
        1.0e-40,
        f32::MAX,
        f32::MIN_POSITIVE,
        f32::INFINITY,
        f32::NEG_INFINITY,
    ];
    for x in samples {
        assert_eq!(negate(x.to_bits()), (-x).to_bits());
    }
    let nan = f32::NAN.to_bits();
    assert_eq!(negate(nan), (-f32::from_bits(nan)).to_bits());
}

#[test]
fn negate_exact_words() {
    assert_eq!(negate(0x3F80_0000), 0xBF80_0000);
    assert_eq!(negate(0xBF80_0000), 0x3F80_0000);
    assert_eq!(negate(0), 0x8000_0000);
}

#[test]
fn negate_twice_is_identity() {
    for w in [0u32, 1, 0x3F80_0000, 0x7FC0_0000, 0xFFFF_FFFF, 0x8000_0000] {
        assert_eq!(negate(negate(w)), w);
    }
}

#[test]
fn z_flip_negates_third_row() {
    let mut m = [0u32; 16];
    for i in 0..16 {
        m[i] = ((i + 1) as f32).to_bits();
    }
    let r = z_flip(&m);
    for i in 0..16 {
        let x = (i + 1) as f32;
        let want = if i % 4 == 2 { -x } else { x };
        assert_eq!(f32::from_bits(r[i]), want, "entry {}", i);
    }
}

#[test]
fn z_flip_is_reflection_times_matrix() {
    // column-major product of diag(1, 1, -1, 1) and m
    let m: [f32; 16] = [
        0.5, -1.0, 2.0, 0.0, 3.0, 4.0, -5.0, 6.0, 7.0, 8.0, 9.0, -10.0, 11.0, 12.0, 13.0, 1.0,
    ];
    let flip: [f32; 4] = [1.0, 1.0, -1.0, 1.0];
    let mut want = [0.0f32; 16];
    for col in 0..4 {
        for row in 0..4 {
            want[row + 4 * col] = flip[row] * m[row + 4 * col];
        }
    }
    let mut words = [0u32; 16];
    for i in 0..16 {
        words[i] = m[i].to_bits();
    }
    let r = z_flip(&words);
    for i in 0..16 {
        assert_eq!(f32::from_bits(r[i]), want[i]);
    }
}

#[test]
fn z_flip_twice_is_identity() {
    let mut m = [0u32; 16];
    for i in 0..16 {
        m[i] = 0x1234_5678u32.wrapping_mul(i as u32 + 3);
    }
    assert_eq!(z_flip(&z_flip(&m)), m);
}
