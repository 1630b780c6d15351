use revocable::bits::genmask;

#[test]
fn genmask_of_a_nibble() {
    assert_eq!(genmask(7, 4), 0xf0);
}

#[test]
fn genmask_of_a_single_bit() {
    assert_eq!(genmask(0, 0), 0x1);
    assert_eq!(genmask(31, 31), 0x8000_0000);
    assert_eq!(genmask(13, 13), 1 << 13);
}

#[test]
fn genmask_of_the_whole_word() {
    assert_eq!(genmask(31, 0), 0xffff_ffff);
}

#[test]
fn genmask_from_bit_zero() {
    assert_eq!(genmask(15, 0), 0xffff);
}

#[test]
fn genmask_up_to_the_top_bit() {
    assert_eq!(genmask(31, 16), 0xffff_0000);
}

#[test]
fn genmask_with_low_above_high_is_empty() {
    assert_eq!(genmask(3, 5), 0);
    assert_eq!(genmask(0, 31), 0);
}

#[test]
fn genmask_sets_exactly_the_bits_in_range() {
    for h in 0..32u32 {
        for l in 0..32u32 {
            let mask = genmask(h, l);
            for i in 0..32u32 {
                let set = (mask >> i) & 1 == 1;
                assert_eq!(set, l <= i && i <= h);
            }
        }
    }
}
