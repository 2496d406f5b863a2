use uuid_generator::ffi::uuid_compare;
use uuid_generator::ffi::uuid_generate_v4;
use uuid_generator::ffi::uuid_get_info;
use uuid_generator::ffi::uuid_to_string;
use uuid_generator::ffi::UuidFfiError;
use uuid_generator::Uuid;

const SAMPLE: [u8; 16] = [
    0x12, 0x34, 0x56, 0x78, 0x9a, 0xbc, 0x4d, 0xef, 0x81, 0x23, 0x45, 0x67, 0x89, 0xab, 0xcd, 0xef,
];

/// One byte as the buffer that a pointer to it stands for.
fn flag(byte: &mut u8) -> Option<&mut [u8]> {
    Some(std::slice::from_mut(byte))
}

fn entropy(seed: u8) -> Result<[u8; 16], String> {
    let mut buffer = [0u8; 16];
    for (i, byte) in buffer.iter_mut().enumerate() {
        *byte = seed.wrapping_mul(31).wrapping_add(17 * i as u8 + 1);
    }
    Ok(buffer)
}

#[test]
fn status_codes() {
    assert_eq!(UuidFfiError::Success.code(), 0);
    assert_eq!(UuidFfiError::EntropyFailure.code(), 1);
    assert_eq!(UuidFfiError::InvalidParameter.code(), 2);
    assert_eq!(UuidFfiError::BufferTooSmall.code(), 3);
    assert_eq!(UuidFfiError::UnknownError.code(), 99);
}

#[test]
fn test_ffi_uuid_generate_v4() {
    let mut uuid_bytes = [0u8; 16];
    let result = uuid_generate_v4(entropy(1), Some(&mut uuid_bytes[..]));

    assert_eq!(result, UuidFfiError::Success.code());

    assert!(uuid_bytes.iter().any(|&b| b != 0));

    let uuid = Uuid::from_bytes(uuid_bytes);
    assert_eq!(uuid.version(), 4);
    assert_eq!(uuid.variant(), 2);
}

#[test]
fn test_ffi_uuid_generate_v4_null_pointer() {
    let result = uuid_generate_v4(entropy(1), None);
    assert_eq!(result, UuidFfiError::InvalidParameter.code());
}

#[test]
fn test_ffi_uuid_to_string() {
    let mut uuid_bytes = [0u8; 16];
    let gen_result = uuid_generate_v4(entropy(2), Some(&mut uuid_bytes[..]));
    assert_eq!(gen_result, UuidFfiError::Success.code());

    let mut buffer = [0u8; 37];
    let result = uuid_to_string(Some(&uuid_bytes[..]), Some(&mut buffer[..]));

    assert_eq!(result, UuidFfiError::Success.code());

    let end = buffer.iter().position(|&b| b == 0).unwrap();
    let uuid_str = std::str::from_utf8(&buffer[..end]).unwrap();
    assert_eq!(uuid_str.len(), 36);
    assert_eq!(uuid_str.chars().nth(8), Some('-'));
    assert_eq!(uuid_str.chars().nth(13), Some('-'));
    assert_eq!(uuid_str.chars().nth(18), Some('-'));
    assert_eq!(uuid_str.chars().nth(23), Some('-'));
}

#[test]
fn test_ffi_uuid_to_string_buffer_too_small() {
    let uuid_bytes = [0u8; 16];
    let mut buffer = [0u8; 36];

    let result = uuid_to_string(Some(&uuid_bytes[..]), Some(&mut buffer[..]));

    assert_eq!(result, UuidFfiError::BufferTooSmall.code());
}

#[test]
fn test_ffi_uuid_get_info() {
    let mut uuid_bytes = [0u8; 16];
    let gen_result = uuid_generate_v4(entropy(3), Some(&mut uuid_bytes[..]));
    assert_eq!(gen_result, UuidFfiError::Success.code());

    let mut version = 0u8;
    let mut variant = 0u8;

    let result = uuid_get_info(Some(&uuid_bytes[..]), flag(&mut version), flag(&mut variant));

    assert_eq!(result, UuidFfiError::Success.code());
    assert_eq!(version, 4);
    assert_eq!(variant, 2);
}

#[test]
fn test_ffi_uuid_compare() {
    let mut uuid1_bytes = [0u8; 16];
    let mut uuid2_bytes = [0u8; 16];

    uuid_generate_v4(entropy(4), Some(&mut uuid1_bytes[..]));
    uuid_generate_v4(entropy(5), Some(&mut uuid2_bytes[..]));

    let mut are_equal = 0u8;
    let result = uuid_compare(Some(&uuid1_bytes[..]), Some(&uuid2_bytes[..]), flag(&mut are_equal));

    assert_eq!(result, UuidFfiError::Success.code());
    assert_eq!(are_equal, 0);

    let result = uuid_compare(Some(&uuid1_bytes[..]), Some(&uuid1_bytes[..]), flag(&mut are_equal));

    assert_eq!(result, UuidFfiError::Success.code());
    assert_eq!(are_equal, 1);
}

#[test]
fn generate_writes_the_identifier_made_from_the_entropy() {
    let mut out = [0u8; 16];
    assert_eq!(uuid_generate_v4(Ok([0xff; 16]), Some(&mut out[..])), 0);
    let mut expected = [0xffu8; 16];
    expected[6] = 0x4f;
    expected[8] = 0xbf;
    assert_eq!(out, expected);
}

#[test]
fn generate_reports_entropy_failure_and_writes_nothing() {
    let mut out = [0x5au8; 16];
    let status = uuid_generate_v4(Err("no source".to_string()), Some(&mut out[..]));
    assert_eq!(status, 1);
    assert_eq!(out, [0x5a; 16]);
}

#[test]
fn generate_refuses_a_buffer_of_the_wrong_length() {
    let mut short = [0x5au8; 15];
    assert_eq!(uuid_generate_v4(entropy(6), Some(&mut short[..])), 2);
    assert_eq!(short, [0x5a; 15]);

    let mut long = [0x5au8; 17];
    assert_eq!(uuid_generate_v4(entropy(6), Some(&mut long[..])), 2);
    assert_eq!(long, [0x5a; 17]);

    let mut empty: [u8; 0] = [];
    assert_eq!(uuid_generate_v4(entropy(6), Some(&mut empty[..])), 2);

    let mut short = [0x5au8; 15];
    let status = uuid_generate_v4(Err("no source".to_string()), Some(&mut short[..]));
    assert_eq!(status, 2);
    assert_eq!(uuid_generate_v4(Err("no source".to_string()), None), 2);
}

#[test]
fn to_string_writes_text_and_terminator_and_nothing_more() {
    let mut buffer = [0xeeu8; 40];
    let status = uuid_to_string(Some(&SAMPLE[..]), Some(&mut buffer[..]));
    assert_eq!(status, 0);
    assert_eq!(&buffer[..36], b"12345678-9abc-4def-8123-456789abcdef");
    assert_eq!(buffer[36], 0);
    assert_eq!(&buffer[37..], &[0xee, 0xee, 0xee]);

    let mut exact = [0xeeu8; 37];
    assert_eq!(uuid_to_string(Some(&SAMPLE[..]), Some(&mut exact[..])), 0);
    assert_eq!(&exact[..], b"12345678-9abc-4def-8123-456789abcdef\0");
}

#[test]
fn to_string_refuses_missing_and_wrong_buffers() {
    let mut buffer = [0xeeu8; 37];
    assert_eq!(uuid_to_string(None, Some(&mut buffer[..])), 2);
    assert_eq!(buffer, [0xee; 37]);
    assert_eq!(uuid_to_string(Some(&SAMPLE[..]), None), 2);
    assert_eq!(uuid_to_string(None, None), 2);
    assert_eq!(uuid_to_string(Some(&SAMPLE[..15]), Some(&mut buffer[..])), 2);
    assert_eq!(buffer, [0xee; 37]);
    let long = [0u8; 17];
    assert_eq!(uuid_to_string(Some(&long[..]), Some(&mut buffer[..])), 2);
    assert_eq!(buffer, [0xee; 37]);
}

#[test]
fn to_string_checks_the_input_before_the_capacity() {
    let mut small = [0xeeu8; 10];
    assert_eq!(uuid_to_string(None, Some(&mut small[..])), 2);
    assert_eq!(uuid_to_string(Some(&SAMPLE[..3]), Some(&mut small[..])), 2);
    assert_eq!(uuid_to_string(Some(&SAMPLE[..]), Some(&mut small[..])), 3);
    assert_eq!(small, [0xee; 10]);

    let mut almost = [0xeeu8; 36];
    assert_eq!(uuid_to_string(Some(&SAMPLE[..]), Some(&mut almost[..])), 3);
    assert_eq!(almost, [0xee; 36]);

    let mut empty: [u8; 0] = [];
    assert_eq!(uuid_to_string(Some(&SAMPLE[..]), Some(&mut empty[..])), 3);
}

#[test]
fn get_info_reads_both_fields() {
    let mut version = 0xeeu8;
    let mut variant = 0xeeu8;
    let status = uuid_get_info(Some(&SAMPLE[..]), flag(&mut version), flag(&mut variant));
    assert_eq!(status, 0);
    assert_eq!((version, variant), (4, 2));

    let mut other = [0u8; 16];
    other[6] = 0x1a;
    other[8] = 0xc0;
    let status = uuid_get_info(Some(&other[..]), flag(&mut version), flag(&mut variant));
    assert_eq!(status, 0);
    assert_eq!((version, variant), (1, 6));
}

#[test]
fn get_info_fills_two_halves_of_one_buffer() {
    let mut info = [0xeeu8; 2];
    let (version, variant) = info.split_at_mut(1);
    assert_eq!(uuid_get_info(Some(&SAMPLE[..]), Some(version), Some(variant)), 0);
    assert_eq!(info, [4, 2]);

    let mut long = [0xeeu8; 3];
    let (version, variant) = long.split_at_mut(1);
    assert_eq!(uuid_get_info(Some(&SAMPLE[..]), Some(version), Some(variant)), 2);
    assert_eq!(long, [0xee; 3]);
}

#[test]
fn get_info_refuses_missing_and_wrong_buffers() {
    let mut version = 0xeeu8;
    let mut variant = 0xeeu8;
    assert_eq!(uuid_get_info(None, flag(&mut version), flag(&mut variant)), 2);
    assert_eq!(uuid_get_info(Some(&SAMPLE[..]), None, flag(&mut variant)), 2);
    assert_eq!(uuid_get_info(Some(&SAMPLE[..]), flag(&mut version), None), 2);
    assert_eq!(uuid_get_info(Some(&SAMPLE[..]), None, None), 2);
    assert_eq!(uuid_get_info(None, None, None), 2);
    assert_eq!(uuid_get_info(Some(&SAMPLE[..15]), flag(&mut version), flag(&mut variant)), 2);
    assert_eq!(uuid_get_info(Some(&[0u8; 17][..]), flag(&mut version), flag(&mut variant)), 2);
    assert_eq!((version, variant), (0xee, 0xee));

    let mut wide = [0xeeu8; 2];
    let mut empty: [u8; 0] = [];
    assert_eq!(uuid_get_info(Some(&SAMPLE[..]), Some(&mut wide[..]), flag(&mut variant)), 2);
    assert_eq!(uuid_get_info(Some(&SAMPLE[..]), flag(&mut version), Some(&mut wide[..])), 2);
    assert_eq!(uuid_get_info(Some(&SAMPLE[..]), Some(&mut empty[..]), flag(&mut variant)), 2);
    assert_eq!(uuid_get_info(Some(&SAMPLE[..]), flag(&mut version), Some(&mut empty[..])), 2);
    assert_eq!(wide, [0xee; 2]);
    assert_eq!((version, variant), (0xee, 0xee));
}

#[test]
fn compare_tells_equal_from_different() {
    let mut are_equal = 0xeeu8;
    assert_eq!(uuid_compare(Some(&SAMPLE[..]), Some(&SAMPLE[..]), flag(&mut are_equal)), 0);
    assert_eq!(are_equal, 1);
    for index in 0..16 {
        let mut other = SAMPLE;
        other[index] ^= 0x80;
        assert_eq!(uuid_compare(Some(&SAMPLE[..]), Some(&other[..]), flag(&mut are_equal)), 0);
        assert_eq!(are_equal, 0);
    }
}

#[test]
fn compare_refuses_missing_and_wrong_buffers() {
    let mut are_equal = 0xeeu8;
    assert_eq!(uuid_compare(None, Some(&SAMPLE[..]), flag(&mut are_equal)), 2);
    assert_eq!(uuid_compare(Some(&SAMPLE[..]), None, flag(&mut are_equal)), 2);
    assert_eq!(uuid_compare(Some(&SAMPLE[..]), Some(&SAMPLE[..]), None), 2);
    assert_eq!(uuid_compare(Some(&SAMPLE[..15]), Some(&SAMPLE[..]), flag(&mut are_equal)), 2);
    assert_eq!(uuid_compare(Some(&SAMPLE[..]), Some(&SAMPLE[..15]), flag(&mut are_equal)), 2);
    assert_eq!(uuid_compare(Some(&SAMPLE[..15]), Some(&SAMPLE[..15]), flag(&mut are_equal)), 2);
    assert_eq!(are_equal, 0xee);

    let mut wide = [0xeeu8; 2];
    let mut empty: [u8; 0] = [];
    assert_eq!(uuid_compare(Some(&SAMPLE[..]), Some(&SAMPLE[..]), Some(&mut wide[..])), 2);
    assert_eq!(uuid_compare(Some(&SAMPLE[..]), Some(&SAMPLE[..]), Some(&mut empty[..])), 2);
    assert_eq!(wide, [0xee; 2]);
}
