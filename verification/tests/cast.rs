use del_gl::cast::{as_count, as_indices, as_signed, as_unsigned, byte_size};

#[test]
fn as_signed_keeps_small_values() {
    assert_eq!(as_signed(0), 0);
    assert_eq!(as_signed(640), 640);
    assert_eq!(as_signed(0x7FFF_FFFF), i32::MAX);
}

#[test]
fn as_signed_wraps_large_values() {
    assert_eq!(as_signed(0x8000_0000), i32::MIN);
    assert_eq!(as_signed(0xFFFF_FFFF), -1);
    assert_eq!(as_signed(3_000_000_000), 3_000_000_000u32 as i32);
}

#[test]
fn as_unsigned_of_missing_location_is_largest_index() {
    assert_eq!(as_unsigned(-1), 0xFFFF_FFFF);
    assert_eq!(as_unsigned(0), 0);
    assert_eq!(as_unsigned(7), 7);
    assert_eq!(as_unsigned(i32::MIN), 0x8000_0000);
}

#[test]
fn as_count_keeps_low_bits() {
    assert_eq!(as_count(0), 0);
    assert_eq!(as_count(36), 36);
    assert_eq!(as_count(i32::MAX as usize), i32::MAX);
    assert_eq!(as_count(0x8000_0000), i32::MIN);
    assert_eq!(as_count(0xFFFF_FFFF), -1);
    assert_eq!(as_count(0x1_0000_0003), 3);
}

#[test]
fn as_indices_keeps_order_and_values() {
    let elem2vtx: Vec<usize> = vec![0, 1, 2, 2, 1, 3];
    assert_eq!(as_indices(&elem2vtx), vec![0u32, 1, 2, 2, 1, 3]);
    assert_eq!(as_indices(&Vec::new()), Vec::<u32>::new());
}

#[test]
fn as_indices_narrows_like_the_cast() {
    let elem2vtx: Vec<usize> = vec![0xFFFF_FFFF, 0x1_0000_0000, 0x1_0000_0007, usize::MAX];
    assert_eq!(as_indices(&elem2vtx), vec![0xFFFF_FFFFu32, 0, 7, 0xFFFF_FFFF]);
    for v in &elem2vtx {
        assert_eq!(as_indices(&vec![*v])[0], *v as u32);
    }
}

#[test]
fn byte_size_is_four_times_the_count() {
    assert_eq!(byte_size(0), Some(0));
    assert_eq!(byte_size(9), Some(36));
    assert_eq!(byte_size(isize::MAX as usize / 4), Some((isize::MAX / 4) * 4));
}

#[test]
fn byte_size_refuses_what_does_not_fit() {
    assert_eq!(byte_size(isize::MAX as usize / 4 + 1), None);
    assert_eq!(byte_size(usize::MAX), None);
}
