use curium::uid_map::{map_uid, map_uid_range};

#[test]
fn map_uid_line_is_inside_outside_one() {
    let line = map_uid(1000, 0);
    assert_eq!(line.buffer(), b"0 1000 1");
}

#[test]
fn map_uid_range_line() {
    let line = map_uid_range(100000, 0, 65536);
    assert_eq!(line.buffer(), b"0 100000 65536");
    assert_eq!(line.len(), 14);
}

#[test]
fn map_uid_range_largest_values_fit() {
    let line = map_uid_range(u32::MAX, u32::MAX, u32::MAX);
    assert_eq!(line.buffer(), b"4294967295 4294967295 4294967295");
    assert_eq!(line.len(), 32);
}

#[test]
fn map_uid_range_zeros_and_digit_boundaries() {
    assert_eq!(map_uid_range(0, 0, 0).buffer(), b"0 0 0");
    assert_eq!(map_uid_range(10, 9, 100).buffer(), b"9 10 100");
    assert_eq!(map_uid_range(99, 1000000, 7).buffer(), b"1000000 99 7");
}

#[test]
fn map_uid_line_matches_std_formatting() {
    for (o, i, c) in [(1u32, 2u32, 3u32), (4242, 17, 1), (123456789, 987654321, 10)] {
        let expected = format!("{} {} {}", i, o, c);
        assert_eq!(map_uid_range(o, i, c).buffer(), expected.as_bytes());
    }
}
