use num::BigUint;
use sicily::arithmetic::{compute_identifier, hash, is_in_range, power_of_two, reduce};
use sicily::hash::digest;

#[test]
fn test_hash() {
    let src = "207.216.57.167:8820:6".to_string();
    let expected_hash = "73983030965240321521725464828347026369133146436118419434250862939976471883122";
    assert_eq!(format!("{}", hash(&src)), expected_hash);
}

#[test]
fn test_is_in_range_left_smaller_than_right() {
    let left = BigUint::from_bytes_be(&[12, 17, 23]);
    let right = BigUint::from_bytes_be(&[12, 17, 56]);

    let n = BigUint::from_bytes_be(&[12, 17, 42]);
    for left_inclusive in [true, false].iter() {
        for right_inclusive in [true, false].iter() {
            let res = is_in_range(&n, (&left, *left_inclusive), (&right, *right_inclusive));
            assert_eq!(res, true);
        }
    }

    let n = BigUint::from_bytes_be(&[12, 17, 96]);
    for left_inclusive in [true, false].iter() {
        for right_inclusive in [true, false].iter() {
            let res = is_in_range(&n, (&left, *left_inclusive), (&right, *right_inclusive));
            assert_eq!(res, false);
        }
    }

    let n = BigUint::from_bytes_be(&[12, 17, 23]);
    for left_inclusive in [true, false].iter() {
        for right_inclusive in [true, false].iter() {
            let res = is_in_range(&n, (&left, *left_inclusive), (&right, *right_inclusive));
            if *left_inclusive {
                assert_eq!(res, true);
            } else {
                assert_eq!(res, false);
            }
        }
    }

    let n = BigUint::from_bytes_be(&[12, 17, 56]);
    for left_inclusive in [true, false].iter() {
        for right_inclusive in [true, false].iter() {
            let res = is_in_range(&n, (&left, *left_inclusive), (&right, *right_inclusive));
            if *right_inclusive {
                assert_eq!(res, true);
            } else {
                assert_eq!(res, false);
            }
        }
    }
}

#[test]
fn test_is_in_range_left_larger_than_right() {
    let left = BigUint::from_bytes_be(&[12, 17, 56]);
    let right = BigUint::from_bytes_be(&[12, 17, 23]);

    let n = BigUint::from_bytes_be(&[12, 17, 42]);
    for left_inclusive in [true, false].iter() {
        for right_inclusive in [true, false].iter() {
            let res = is_in_range(&n, (&left, *left_inclusive), (&right, *right_inclusive));
            assert_eq!(res, false);
        }
    }

    let n = BigUint::from_bytes_be(&[12, 17, 96]);
    for left_inclusive in [true, false].iter() {
        for right_inclusive in [true, false].iter() {
            let res = is_in_range(&n, (&left, *left_inclusive), (&right, *right_inclusive));
            assert_eq!(res, true);
        }
    }

    let n = BigUint::from_bytes_be(&[12, 17, 56]);
    for left_inclusive in [true, false].iter() {
        for right_inclusive in [true, false].iter() {
            let res = is_in_range(&n, (&left, *left_inclusive), (&right, *right_inclusive));
            if *left_inclusive {
                assert_eq!(res, true);
            } else {
                assert_eq!(res, false);
            }
        }
    }

    let n = BigUint::from_bytes_be(&[12, 17, 23]);
    for left_inclusive in [true, false].iter() {
        for right_inclusive in [true, false].iter() {
            let res = is_in_range(&n, (&left, *left_inclusive), (&right, *right_inclusive));
            if *right_inclusive {
                assert_eq!(res, true);
            } else {
                assert_eq!(res, false);
            }
        }
    }
}

#[test]
fn test_is_in_range_left_equal_to_right() {
    let left = BigUint::from_bytes_be(&[12, 17, 42]);
    let right = BigUint::from_bytes_be(&[12, 17, 42]);

    let n = BigUint::from_bytes_be(&[12, 17, 42]);
    for left_inclusive in [true, false].iter() {
        for right_inclusive in [true, false].iter() {
            let res = is_in_range(&n, (&left, *left_inclusive), (&right, *right_inclusive));
            if !left_inclusive && !right_inclusive {
                assert_eq!(res, false);
            } else {
                assert_eq!(res, true);
            }
        }
    }

    let n = BigUint::from_bytes_be(&[12, 17, 96]);
    for left_inclusive in [true, false].iter() {
        for right_inclusive in [true, false].iter() {
            let res = is_in_range(&n, (&left, *left_inclusive), (&right, *right_inclusive));
            assert_eq!(res, true);
        }
    }

    let n = BigUint::from_bytes_be(&[12, 17, 23]);
    for left_inclusive in [true, false].iter() {
        for right_inclusive in [true, false].iter() {
            let res = is_in_range(&n, (&left, *left_inclusive), (&right, *right_inclusive));
            assert_eq!(res, true);
        }
    }
}

#[test]
fn range_truth_table_on_hex_borders() {
    let low = BigUint::from(0x0C1117u32);
    let high = BigUint::from(0x0C1138u32);
    let inside = BigUint::from(0x0C112Au32);
    let outside = BigUint::from(0x0C1160u32);
    for l in [true, false] {
        for r in [true, false] {
            assert!(is_in_range(&inside, (&low, l), (&high, r)));
            assert!(!is_in_range(&outside, (&low, l), (&high, r)));
            assert_eq!(is_in_range(&low, (&low, l), (&high, r)), l);
            assert_eq!(is_in_range(&high, (&low, l), (&high, r)), r);
            assert!(!is_in_range(&inside, (&high, l), (&low, r)));
            assert!(is_in_range(&outside, (&high, l), (&low, r)));
            assert_eq!(is_in_range(&low, (&low, l), (&low, r)), l || r);
            assert!(is_in_range(&inside, (&low, l), (&low, r)));
        }
    }
}

#[test]
fn identifier_is_hash_modulo_ring_size() {
    let src = "207.216.57.167:8820:6".to_string();
    let full = hash(&src);
    for bits in [8u32, 32, 64, 255] {
        let id = compute_identifier(bits, &src);
        assert_eq!(id, &full % BigUint::from(2u8).pow(bits));
    }
    assert_eq!(compute_identifier(8, &src), BigUint::from(114u8));
    assert_eq!(compute_identifier(0, &src), BigUint::from(0u8));
}

#[test]
fn digest_reads_the_hash_as_a_big_endian_number() {
    let empty = digest(&String::new());
    assert_eq!(
        format!("{:x}", empty),
        "e3b0c44298fc1c149afbf4c8996fb92427ae41e4649b934ca495991b7852b855"
    );
    assert_eq!(digest(&"abc".to_string()), hash(&"abc".to_string()));
    assert_eq!(
        format!("{:x}", digest(&"abc".to_string())),
        "ba7816bf8f01cfea414140de5dae2223b00361a396177a9cb410ff61f20015ad"
    );
}

#[test]
fn reduce_takes_the_remainder_by_a_power_of_two() {
    assert_eq!(reduce(8, &BigUint::from(0x1234u32)), BigUint::from(0x34u32));
    assert_eq!(reduce(12, &BigUint::from(0x1234u32)), BigUint::from(0x234u32));
    assert_eq!(reduce(16, &BigUint::from(0x1234u32)), BigUint::from(0x1234u32));
    assert_eq!(reduce(0, &BigUint::from(0x1234u32)), BigUint::from(0u32));
    assert_eq!(reduce(255, &BigUint::from(2u8).pow(255)), BigUint::from(0u32));
    assert_eq!(power_of_two(0), BigUint::from(1u32));
    assert_eq!(power_of_two(10), BigUint::from(1024u32));
    assert_eq!(power_of_two(255), BigUint::from(2u8).pow(255));
}

#[test]
fn identifier_on_a_ring_as_wide_as_the_hash_is_the_hash() {
    let src = "207.216.57.167:8820:6".to_string();
    let expected = "73983030965240321521725464828347026369133146436118419434250862939976471883122";
    assert_eq!(compute_identifier(256, &src).to_string(), expected);
    assert_eq!(compute_identifier(300, &src).to_string(), expected);
    assert!(hash(&src) < BigUint::from(2u8).pow(256));
}
