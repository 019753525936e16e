use joining_peer::xor_space::{Prefix, XorName};

fn name(first: u8, second: u8) -> XorName {
    let mut bytes = [0u8; 32];
    bytes[0] = first;
    bytes[1] = second;
    XorName(bytes)
}

#[test]
fn bits_are_counted_from_the_most_significant() {
    let name = name(0b1000_0001, 0b0100_0000);
    for i in 0..256 {
        assert_eq!(name.is_set(i), i == 0 || i == 7 || i == 9);
    }
}

#[test]
fn prefix_keeps_the_first_bits() {
    let prefix = Prefix::new(3, name(0b1011_1111, 0xff));
    assert_eq!(prefix.bit_count(), 3);
    assert_eq!(prefix.name, name(0b1010_0000, 0));
    let prefix = Prefix::new(9, name(0b1011_1111, 0xff));
    assert_eq!(prefix.name, name(0b1011_1111, 0b1000_0000));
    let prefix = Prefix::new(16, name(0b1011_1111, 0xff));
    assert_eq!(prefix.name, name(0b1011_1111, 0xff));
}

#[test]
fn prefix_of_more_bits_than_there_are() {
    let whole = name(1, 2);
    let prefix = Prefix::new(300, whole);
    assert_eq!(prefix.bit_count(), 256);
    assert!(prefix.matches(&whole));
    assert!(!prefix.matches(&name(1, 3)));
}

#[test]
fn prefix_matches_names_that_begin_with_it() {
    let prefix = Prefix::new(10, name(0b1111_0000, 0b1000_0000));
    assert!(prefix.matches(&name(0b1111_0000, 0b1011_1111)));
    assert!(!prefix.matches(&name(0b1111_0000, 0b1111_1111)));
    assert!(!prefix.matches(&name(0b1111_0001, 0b1000_0000)));
    assert!(Prefix::new(0, name(0, 0)).matches(&name(0xff, 0xff)));
}

#[test]
fn prefix_is_the_range_between_its_bounds() {
    for bits in vec![0usize, 1, 3, 8, 9, 12] {
        let prefix = Prefix::new(bits, name(0b1010_1010, 0b1100_1100));
        let (first, last) = prefix.range_inclusive();
        for a in 0..=255u8 {
            for b in vec![0u8, 0b1011_1111, 0b1100_0000, 0b1100_1100, 0b1101_0000, 0xff] {
                let name = name(a, b);
                let inside = first.0 <= name.0 && name.0 <= last.0;
                assert_eq!(prefix.matches(&name), inside);
            }
        }
    }
    let (first, last) = Prefix::new(3, name(0b1010_1010, 1)).range_inclusive();
    let mut upper = [0xff; 32];
    upper[0] = 0b1011_1111;
    assert_eq!(first, name(0b1010_0000, 0));
    assert_eq!(last, XorName(upper));
}
