use notice::bytes::u64_from_le;
use notice::bytes::u64_to_le;
use notice::bytes::zeroed;
use notice::eventfd::counter_value;
use notice::eventfd::counter_written;
use notice::Error;

#[test]
fn encode_one_is_little_endian() {
    let buf = u64_to_le(1);
    assert_eq!(vec![1, 0, 0, 0, 0, 0, 0, 0], buf);
}

#[test]
fn encode_mixed_bytes() {
    let buf = u64_to_le(0x0102_0304_0506_0708);
    assert_eq!(vec![0x08, 0x07, 0x06, 0x05, 0x04, 0x03, 0x02, 0x01], buf);
}

#[test]
fn decode_is_the_inverse_of_encode() {
    for v in [0u64, 1, 2, 64, 255, 256, 0xffff_ffff_ffff_ffff, 0x0123_4567_89ab_cdef] {
        assert_eq!(v, u64_from_le(&u64_to_le(v)));
    }
}

#[test]
fn decode_reads_low_byte_first() {
    let buf = vec![2, 1, 0, 0, 0, 0, 0, 0];
    assert_eq!(258, u64_from_le(&buf));
}

#[test]
fn zeroed_makes_a_zero_buffer() {
    let buf = zeroed(5);
    assert_eq!(vec![0, 0, 0, 0, 0], buf);
    assert_eq!(0, zeroed(0).len());
}

#[test]
fn counter_written_accepts_exactly_eight_bytes() {
    assert_eq!(Ok(()), counter_written(8));
    assert_eq!(Err(Error::Protocol), counter_written(7));
    assert_eq!(Err(Error::Protocol), counter_written(0));
}

#[test]
fn counter_value_accepts_exactly_eight_bytes() {
    let buf = u64_to_le(5);
    assert_eq!(Ok(5), counter_value(8, &buf));
    assert_eq!(Err(Error::Protocol), counter_value(7, &buf));
    assert_eq!(Err(Error::Protocol), counter_value(0, &buf));
}
