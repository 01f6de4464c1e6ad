use tokio_bits::error::{Error, ErrorKind};
use tokio_bits::inc::Incrementable;
use tokio_bits::range::RangeStream;
use tokio_bits::seq::SeqStream;
use tokio_bits::tbseq::TBSeqStream;

#[test]
fn post_inc_returns_old_value() {
    let mut x: i32 = 5;
    assert_eq!(x.post_inc(), 5);
    assert_eq!(x, 6);
    assert_eq!(x.post_inc_by(10), 6);
    assert_eq!(x, 16);
    let mut y: i8 = -3;
    assert_eq!(y.post_inc_by(-2), -3);
    assert_eq!(y, -5);
    assert_eq!(u64::one(), 1);
}

#[test]
fn range_stream_yields_half_open_range() {
    let mut r = RangeStream::new(3u8, 6u8);
    assert_eq!(r.poll(), Some(3));
    assert_eq!(r.poll(), Some(4));
    assert_eq!(r.poll(), Some(5));
    assert_eq!(r.poll(), None);
    assert_eq!(r.poll(), None);
}

#[test]
fn range_stream_empty_and_reversed() {
    let mut r = RangeStream::new(4i64, 4i64);
    assert_eq!(r.poll(), None);
    let mut q = RangeStream::new(9u16, 2u16);
    assert_eq!(q.poll(), None);
    let mut top = RangeStream::new(254u8, 255u8);
    assert_eq!(top.poll(), Some(254));
    assert_eq!(top.poll(), None);
}

#[test]
fn seq_stream_counts_up() {
    let mut s = SeqStream::new(-2i32);
    assert_eq!(s.poll(), Some(-2));
    assert_eq!(s.poll(), Some(-1));
    assert_eq!(s.poll(), Some(0));
}

#[test]
fn tbseq_stream_ends_after_max_seconds() {
    let mut s = TBSeqStream::new(10u32, 5, 1000);
    assert_eq!(s.poll(1000), Some(10));
    assert_eq!(s.poll(1005), Some(11));
    assert_eq!(s.poll(1006), None);
    assert_eq!(s.poll(999), Some(12));
}

#[test]
fn error_kind_and_description() {
    let e = Error::new(ErrorKind::Other, String::from("timer broke"));
    assert_eq!(e.kind(), ErrorKind::Other);
    assert_eq!(e.description(), "timer broke");
    assert_eq!(e.to_string(), "other");
    assert_eq!(ErrorKind::Other.as_str(), "other");
}
