use b2sum::{check_length_bits, exit_status, length_bytes};

#[test]
fn zero_bits_rejected() {
    assert!(!check_length_bits(0));
    assert_eq!(exit_status(check_length_bits(0), false), 1);
}

#[test]
fn over_512_bits_rejected() {
    assert!(!check_length_bits(520));
    assert_eq!(exit_status(check_length_bits(520), false), 1);
}

#[test]
fn non_multiple_of_8_rejected() {
    assert!(!check_length_bits(20));
    assert_eq!(exit_status(check_length_bits(20), false), 1);
}

#[test]
fn valid_lengths_accepted() {
    for bits in (8..=512usize).step_by(8) {
        assert!(check_length_bits(bits));
        assert_eq!(length_bytes(bits), bits / 8);
    }
    assert!(check_length_bits(512));
    assert!(check_length_bits(8));
}

#[test]
fn boundary_lengths() {
    assert!(!check_length_bits(513));
    assert!(!check_length_bits(511));
    assert!(!check_length_bits(4));
    assert!(check_length_bits(256));
    assert_eq!(length_bytes(512), 64);
    assert_eq!(length_bytes(8), 1);
}
