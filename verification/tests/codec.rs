use pipeworkmc::data::codec::{push_varint, read_varint_u32, read_string, push_string, StringDecodeError};

#[test]
fn varint_encodes_small_and_large_values() {
    let mut out = Vec::new();
    push_varint(&mut out, 0);
    assert_eq!(out, vec![0x00]);
    let mut out = Vec::new();
    push_varint(&mut out, 300);
    assert_eq!(out, vec![0xAC, 0x02]);
    let mut out = Vec::new();
    push_varint(&mut out, u32::MAX);
    assert_eq!(out, vec![0xFF, 0xFF, 0xFF, 0xFF, 0x0F]);
}

#[test]
fn varint_reads_back() {
    let mut out = Vec::new();
    push_varint(&mut out, 2097151);
    out.push(0x55);
    assert_eq!(read_varint_u32(&out, 0), Some((2097151, 3)));
    assert_eq!(read_varint_u32(&[0x80, 0x80], 0), None);
    assert_eq!(read_varint_u32(&[0xFF, 0xFF, 0xFF, 0xFF, 0x1F], 0), None);
}

#[test]
fn string_reads_back_and_rejects_bad_input() {
    let mut out = vec![9u8];
    push_string(&mut out, "héllo");
    let (s, n) = read_string(&out, 1).unwrap();
    assert_eq!(s, "héllo");
    assert_eq!(n, 7);
    assert!(matches!(read_string(&[3, b'a'], 0), Err(StringDecodeError::Incomplete)));
    assert!(matches!(read_string(&[2, 0xC3, 0x28], 0), Err(StringDecodeError::InvalidUtf8)));
    assert!(matches!(read_string(&[], 0), Err(StringDecodeError::BadLength)));
}
