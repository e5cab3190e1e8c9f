use std::io::{ErrorKind, Write};

use curium::fixed_buf_writer::FixedBufferWriter;

#[test]
fn writes_formatted_bytes_into_buffer() {
    let mut w = FixedBufferWriter::<9>::new();
    let formatted = format!("hello {} {}", core::hint::black_box(1), 1);
    w.write_all(formatted.as_bytes()).unwrap();
    let s = String::from_utf8(w.buffer().to_vec()).unwrap();
    assert_eq!(s, "hello 1 1");
}

#[test]
fn write_exact_capacity_succeeds() {
    let mut w = FixedBufferWriter::<5>::new();
    let data = b"abcde";
    let n = w.write(data).unwrap();
    assert_eq!(n, 5);
    assert_eq!(w.buffer(), data);
    assert_eq!(w.len(), 5);
}

#[test]
fn multiple_writes_accumulate() {
    let mut w = FixedBufferWriter::<6>::new();

    w.write_all(b"st").unwrap();
    w.write_all(b"ring").unwrap();
    let s = String::from_utf8(w.buffer().to_vec()).unwrap();
    assert_eq!(s, "string");
    assert_eq!(w.len(), 6);
}

#[test]
fn write_overflow_returns_err() {
    let mut w = FixedBufferWriter::<4>::new();

    w.write_all(b"1234").unwrap();

    // already have 4 bytes '1234', try to write 3 more to overflow
    let err = w.write(b"yyy").unwrap_err();

    assert_eq!(err.kind(), ErrorKind::WriteZero);
    assert_eq!(w.len(), 4);
    assert_eq!(w.buffer(), b"1234");
}

#[test]
fn doc_example_hi_you() {
    let mut w: FixedBufferWriter<7> = FixedBufferWriter::new();
    w.write_all(format!("Hi {}!", "you").as_bytes()).unwrap();
    assert_eq!(w.buffer(), b"Hi you!");
}

#[test]
fn new_writer_is_empty() {
    let w = FixedBufferWriter::<3>::new();
    assert!(w.is_empty());
    assert_eq!(w.len(), 0);
    assert_eq!(w.buffer(), b"");
    let d: FixedBufferWriter<3> = Default::default();
    assert!(d.is_empty());
}

#[test]
fn failed_write_leaves_contents() {
    let mut w = FixedBufferWriter::<5>::new();
    w.write(b"abc").unwrap();
    assert_eq!(w.write(b"def").unwrap_err().kind(), ErrorKind::WriteZero);
    assert_eq!(w.write_all(b"def").unwrap_err().kind(), ErrorKind::WriteZero);
    assert_eq!(w.buffer(), b"abc");
    assert_eq!(w.write(b"de").unwrap(), 2);
    assert_eq!(w.buffer(), b"abcde");
    assert!(!w.is_empty());
}

#[test]
fn empty_write_always_succeeds() {
    let mut w = FixedBufferWriter::<2>::new();
    w.write(b"xy").unwrap();
    assert_eq!(w.write(b"").unwrap(), 0);
    w.write_all(b"").unwrap();
    w.flush().unwrap();
    assert_eq!(w.buffer(), b"xy");
}

#[test]
fn zero_capacity_writer_refuses_bytes() {
    let mut w = FixedBufferWriter::<0>::new();
    assert_eq!(w.write(b"a").unwrap_err().kind(), ErrorKind::WriteZero);
    assert_eq!(w.write(b"").unwrap(), 0);
    assert!(w.is_empty());
}

#[test]
fn split_writes_equal_one_write() {
    let mut a = FixedBufferWriter::<8>::new();
    a.write(b"con").unwrap();
    a.write(b"tain").unwrap();
    let mut b = FixedBufferWriter::<8>::new();
    b.write(b"contain").unwrap();
    assert_eq!(a.buffer(), b.buffer());

    let mut c = FixedBufferWriter::<4>::new();
    c.write(b"ab").unwrap();
    assert!(c.write(b"cde").is_err());
    let mut d = FixedBufferWriter::<4>::new();
    assert!(d.write(b"abcde").is_err());
}
