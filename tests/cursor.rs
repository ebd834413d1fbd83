use uhkctl::cursor::UhkCursor;
use uhkctl::error::DeviceError;

#[test]
fn compact_length_single_byte() {
    let mut c = UhkCursor::new(vec![0x05, 0x99]);
    assert_eq!(c.read_compact_length(), Ok(5));
    assert_eq!(c.position(), 1);
}

#[test]
fn compact_length_escaped() {
    let mut c = UhkCursor::new(vec![0xFF, 0x00, 0x01]);
    assert_eq!(c.read_compact_length(), Ok(256));
    assert_eq!(c.position(), 3);
}

#[test]
fn compact_length_largest_single_byte() {
    let mut c = UhkCursor::new(vec![0xFE]);
    assert_eq!(c.read_compact_length(), Ok(254));
    assert_eq!(c.position(), 1);
}

#[test]
fn compact_length_escape_truncated() {
    let mut c = UhkCursor::new(vec![0xFF, 0x01]);
    assert_eq!(c.read_compact_length(), Err(DeviceError::OutOfData));
}

#[test]
fn little_endian_integers() {
    let mut c = UhkCursor::new(vec![0x34, 0x12, 0x78, 0x56, 0x34, 0x12, 0x00, 0x07]);
    assert_eq!(c.read_u16(), Ok(0x1234));
    assert_eq!(c.read_u32(), Ok(0x12345678));
    assert_eq!(c.read_bool(), Ok(false));
    assert_eq!(c.read_bool(), Ok(true));
    assert_eq!(c.position(), 8);
    assert_eq!(c.read_u8(), Err(DeviceError::OutOfData));
    assert_eq!(c.position(), 8);
}

#[test]
fn short_integer_reads_fail() {
    let mut c = UhkCursor::new(vec![0x01]);
    assert_eq!(c.read_u16(), Err(DeviceError::OutOfData));
    assert_eq!(c.read_u32(), Err(DeviceError::OutOfData));
    assert_eq!(c.position(), 0);
    assert_eq!(c.read_u8(), Ok(1));
}

#[test]
fn read_string_decodes_text() {
    let mut c = UhkCursor::new(vec![0x03, b'a', b'b', b'c', 0x09]);
    assert_eq!(c.read_string(), Ok("abc".to_string()));
    assert_eq!(c.position(), 4);
    assert_eq!(c.read_u8(), Ok(9));
}

#[test]
fn read_string_empty() {
    let mut c = UhkCursor::new(vec![0x00]);
    assert_eq!(c.read_string(), Ok(String::new()));
    assert_eq!(c.position(), 1);
}

#[test]
fn read_string_multibyte_utf8() {
    let mut c = UhkCursor::new(vec![0x02, 0xC3, 0xA9]);
    assert_eq!(c.read_string(), Ok("é".to_string()));
}

#[test]
fn read_string_truncated_is_out_of_data() {
    let mut c = UhkCursor::new(vec![0x04, b'a', b'b', b'c']);
    assert_eq!(c.read_string(), Err(DeviceError::OutOfData));
}

#[test]
fn read_string_invalid_utf8() {
    let mut c = UhkCursor::new(vec![0x02, 0xFF, 0xFE]);
    assert_eq!(c.read_string(), Err(DeviceError::InvalidEncoding));
}
