use kafka_partition::murmur::murmur2;
use kafka_partition::partition::{get_partition, to_positive, PartitionError};

#[test]
fn murmur2_returns_correct_hash() {
    let cases: Vec<(&[u8], i32)> = vec![
        ("21".as_bytes(), -973932308),
        ("foobar".as_bytes(), -790332482),
        ("a-little-bit-long-string".as_bytes(), -985981536),
        ("a-little-bit-longer-string".as_bytes(), -1486304829),
        (
            "lkjh234lh9fiuh90y23oiuhsafujhadof229phr9h19h89h8".as_bytes(),
            -58897971,
        ),
    ];
    for (case, expected) in cases.iter() {
        let actual = murmur2(case);
        assert_eq!(actual, *expected);
    }
}

#[test]
fn get_partition_returns_correct_partition_number() {
    let cases: Vec<(Vec<&str>, i32)> = vec![
        (vec!["21", "32"], 12),
        (vec!["foobar", "32"], 30),
        (vec!["testing", "16"], 3),
        (
            vec!["a-very-big-long-key-to-test-1234567890987654321", "24"],
            18,
        ),
    ];
    for (case, expected) in cases.iter() {
        let actual = get_partition(case[0], case[1].parse().unwrap());
        assert_eq!(actual, Ok(*expected));
    }
}

#[test]
fn hash_of_empty_key() {
    assert_eq!(murmur2(&[]), 275646681);
}

#[test]
fn hash_covers_each_tail_length() {
    // lengths 1, 2, 3, 4 and 5: tails of one, two, three, no and one byte
    assert_eq!(murmur2(b"a"), -1563381124);
    assert_eq!(murmur2(b"ab"), 316155434);
    assert_eq!(murmur2(b"abc"), 479470107);
    assert_eq!(murmur2(b"abcd"), -1323649548);
    assert_eq!(murmur2(b"abcde"), 461995741);
}

#[test]
fn hash_masks_high_bytes() {
    assert_eq!(murmur2(&[0xff]), -311467685);
    assert_eq!(murmur2(&[0xff, 0x80, 0x00]), -616959190);
}

#[test]
fn hash_is_repeatable() {
    let key = b"a-little-bit-longer-string";
    assert_eq!(murmur2(key), murmur2(key));
    assert_eq!(get_partition("kafka", 7), get_partition("kafka", 7));
}

#[test]
fn partition_for_short_keys() {
    assert_eq!(get_partition("", 32), Ok(25));
    assert_eq!(get_partition("a", 32), Ok(28));
    assert_eq!(get_partition("abc", 7), Ok(4));
    assert_eq!(get_partition("kafka", 7), Ok(3));
}

#[test]
fn partition_stays_in_range() {
    let keys = ["", "a", "ab", "abc", "abcd", "21", "foobar", "testing"];
    for n in [2, 3, 7, 16, 32, 100, i32::MAX] {
        for key in keys.iter() {
            let p = get_partition(key, n).unwrap();
            assert!(0 <= p && p < n);
        }
    }
}

#[test]
fn single_partition_is_zero() {
    for key in ["", "a", "21", "foobar", "lkjh234lh9fiuh90y23oiuhsafujhadof229phr9h19h89h8"] {
        assert_eq!(get_partition(key, 1), Ok(0));
    }
}

#[test]
fn non_positive_count_is_invalid() {
    assert_eq!(get_partition("21", 0), Err(PartitionError::InvalidArgument));
    assert_eq!(get_partition("21", -1), Err(PartitionError::InvalidArgument));
    assert_eq!(get_partition("", i32::MIN), Err(PartitionError::InvalidArgument));
}

#[test]
fn to_positive_clears_sign_bit() {
    assert_eq!(to_positive(5), 5);
    assert_eq!(to_positive(0), 0);
    assert_eq!(to_positive(-1), i32::MAX);
    assert_eq!(to_positive(i32::MIN), 0);
    assert_eq!(to_positive(-973932308), 1173551340);
}
