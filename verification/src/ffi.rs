//! The foreign-call boundary on safe values.
//!
//! A caller in another language hands over buffers it owns and gets back a
//! small integer. Here a buffer is an optional slice: `None` stands for a null
//! pointer, and the slice's length for the size the caller announced. Each
//! operation checks its buffers before it writes anything, so a call that
//! fails leaves every output as it was.

use crate::error::UuidError;
use crate::identifier::v4_bytes;
use crate::identifier::variant_of;
use crate::identifier::version_of;
use crate::identifier::Uuid;
use crate::text::canonical_text;
use crate::text::has_shape_at;
use vstd::prelude::*;

verus! {

/// Bytes that the text form needs in a buffer: 36 characters and the
/// terminating zero.
pub const TEXT_BUFFER_LEN: usize = 37;

/// How a call over the boundary ended.
#[derive(Debug, Clone, Copy, PartialEq, Eq, Structural)]
pub enum UuidFfiError {
    /// The call did what was asked.
    Success,
    /// The secure random source gave no data.
    EntropyFailure,
    /// A buffer is missing or has the wrong length.
    InvalidParameter,
    /// The buffer for the text is shorter than 37 bytes.
    BufferTooSmall,
    /// Anything else.
    UnknownError,
}

impl UuidFfiError {
    /// The integer that crosses the boundary.
    pub open spec fn spec_code(self) -> i32 {
        match self {
            UuidFfiError::Success => 0,
            UuidFfiError::EntropyFailure => 1,
            UuidFfiError::InvalidParameter => 2,
            UuidFfiError::BufferTooSmall => 3,
            UuidFfiError::UnknownError => 99,
        }
    }

    /// The integer that crosses the boundary.
    #[verifier::when_used_as_spec(spec_code)]
    pub fn code(self) -> (code: i32)
        ensures
            code == self.spec_code(),
    {
        match self {
            UuidFfiError::Success => 0,
            UuidFfiError::EntropyFailure => 1,
            UuidFfiError::InvalidParameter => 2,
            UuidFfiError::BufferTooSmall => 3,
            UuidFfiError::UnknownError => 99,
        }
    }
}

/// Whether an input buffer holds an identifier: it is there and 16 bytes long.
pub open spec fn holds_uuid(buffer: Option<&[u8]>) -> bool {
    buffer matches Some(bytes) && bytes@.len() == 16
}

/// Whether an output buffer takes one flag: it is there and one byte long.
pub open spec fn takes_flag(buffer: Option<&mut [u8]>) -> bool {
    buffer matches Some(flag) && flag@.len() == 1
}

/// The bytes of a text of ASCII characters.
pub open spec fn ascii_bytes(text: Seq<char>) -> Seq<u8> {
    Seq::new(text.len(), |i: int| text[i] as u8)
}

/// The text of an identifier as a C string: its 36 characters, then a zero.
pub open spec fn c_text(uuid_bytes: Seq<u8>) -> Seq<u8> {
    ascii_bytes(canonical_text(uuid_bytes)).push(0u8)
}

/// The C string of an identifier is 37 bytes long, and the zero at its end is
/// the only one: each byte before it is a dash or a lowercase hexadecimal digit.
pub proof fn lemma_c_text(uuid_bytes: Seq<u8>)
    requires
        uuid_bytes.len() == 16,
    ensures
        c_text(uuid_bytes).len() == 37,
        c_text(uuid_bytes)[36] == 0,
        vstd::utf8::is_ascii_chars(canonical_text(uuid_bytes)),
        forall|i: int| 0 <= i < 36 ==> #[trigger] c_text(uuid_bytes)[i] != 0,
{
    crate::text::law_text_shape(uuid_bytes);
    let text = canonical_text(uuid_bytes);
    assert forall|i: int| 0 <= i < 36 implies '\0' < #[trigger] text[i] <= '\u{7f}' by {
        assert(has_shape_at(text[i], i));
    }
    assert forall|i: int| 0 <= i < 36 implies #[trigger] c_text(uuid_bytes)[i] != 0 by {
        assert(c_text(uuid_bytes)[i] == text[i] as u8);
        assert('\0' < text[i] <= '\u{7f}');
    }
}

/// The 16 bytes of a slice as an array.
fn to_array(bytes: &[u8]) -> (array: [u8; 16])
    requires
        bytes@.len() == 16,
    ensures
        array@ == bytes@,
{
    let mut array = [0u8; 16];
    let mut i: usize = 0;
    while i < 16
        invariant
            i <= 16,
            bytes@.len() == 16,
            forall|j: int| 0 <= j < i ==> array@[j] == bytes@[j],
        decreases 16 - i,
    {
        array[i] = bytes[i];
        i += 1;
    }
    assert(array@ =~= bytes@);
    array
}

/// Overwrites the front of `out` with `src` and leaves the rest alone.
fn copy_to_front(out: &mut [u8], src: &[u8])
    requires
        src@.len() <= old(out)@.len(),
    ensures
        final(out)@ == src@ + old(out)@.skip(src@.len() as int),
{
    let n = src.len();
    let mut i: usize = 0;
    while i < n
        invariant
            n == src@.len(),
            i <= n <= out@.len(),
            out@.len() == old(out)@.len(),
            forall|j: int| 0 <= j < i ==> out@[j] == src@[j],
            forall|j: int| i <= j < out@.len() ==> out@[j] == old(out)@[j],
        decreases n - i,
    {
        out[i] = src[i];
        i += 1;
    }
    assert(out@ =~= src@ + old(out)@.skip(src@.len() as int));
}

/// Generates an identifier from the outcome of the entropy read and writes its
/// 16 bytes to `uuid_bytes`.
///
/// Returns 2 where the buffer is missing or not 16 bytes long, else 1 where
/// the read failed, else 0. Only a call that returns 0 writes.
pub fn uuid_generate_v4(entropy: Result<[u8; 16], String>, uuid_bytes: Option<&mut [u8]>) -> (status: i32)
    ensures
        (match uuid_bytes {
            Some(out) => if out@.len() != 16 {
                status == UuidFfiError::InvalidParameter.code() && final(out)@ == out@
            } else {
                match entropy {
                    Ok(raw) => status == UuidFfiError::Success.code() && final(out)@ == v4_bytes(
                        raw@,
                    ),
                    Err(_) => status == UuidFfiError::EntropyFailure.code() && final(out)@
                        == out@,
                }
            },
            None => status == UuidFfiError::InvalidParameter.code(),
        }),
{
    match uuid_bytes {
        Some(out) => {
            if out.len() != 16 {
                return UuidFfiError::InvalidParameter.code();
            }
            match Uuid::new_v4(entropy) {
                Ok(uuid) => {
                    copy_to_front(out, uuid.as_bytes().as_slice());
                    assert(out@ =~= uuid@);
                    UuidFfiError::Success.code()
                },
                Err(UuidError::EntropyError(_)) => UuidFfiError::EntropyFailure.code(),
                Err(_) => UuidFfiError::UnknownError.code(),
            }
        },
        None => UuidFfiError::InvalidParameter.code(),
    }
}

/// Writes the canonical text of the identifier in `uuid_bytes` to
/// `uuid_string`, as 36 characters and a terminating zero.
///
/// Returns 2 where either buffer is missing or `uuid_bytes` is not 16 bytes
/// long, else 3 where `uuid_string` is shorter than 37 bytes, else 0. Only a
/// call that returns 0 writes, and it writes the first 37 bytes only.
pub fn uuid_to_string(uuid_bytes: Option<&[u8]>, uuid_string: Option<&mut [u8]>) -> (status: i32)
    ensures
        (match uuid_string {
            Some(out) => if !holds_uuid(uuid_bytes) {
                status == UuidFfiError::InvalidParameter.code() && final(out)@ == out@
            } else if out@.len() < TEXT_BUFFER_LEN {
                status == UuidFfiError::BufferTooSmall.code() && final(out)@ == out@
            } else {
                &&& status == UuidFfiError::Success.code()
                &&& final(out)@ == c_text(uuid_bytes->Some_0@) + out@.skip(TEXT_BUFFER_LEN as int)
                &&& forall|i: int| 0 <= i < 36 ==> #[trigger] final(out)@[i] != 0
            },
            None => status == UuidFfiError::InvalidParameter.code(),
        }),
{
    let (bytes, out) = match (uuid_bytes, uuid_string) {
        (Some(bytes), Some(out)) => (bytes, out),
        _ => {
            return UuidFfiError::InvalidParameter.code();
        },
    };
    if bytes.len() != 16 {
        return UuidFfiError::InvalidParameter.code();
    }
    if out.len() < TEXT_BUFFER_LEN {
        return UuidFfiError::BufferTooSmall.code();
    }
    let uuid = Uuid::from_bytes(to_array(bytes));
    let text = uuid.to_string();
    let text_bytes = text.as_str().as_bytes();
    proof {
        lemma_c_text(uuid@);
        vstd::utf8::is_ascii_chars_encode_utf8(text@);
        assert(text_bytes@ =~= ascii_bytes(canonical_text(uuid@)));
    }
    let ghost before = out@;
    copy_to_front(out, text_bytes);
    out[36] = 0;
    assert(out@ =~= c_text(bytes@) + before.skip(37));
    UuidFfiError::Success.code()
}

/// Writes the version and the variant of the identifier in `uuid_bytes` to
/// the one byte of `version` and the one byte of `variant`.
///
/// Returns 2 where any of the three is missing, `uuid_bytes` is not 16 bytes
/// long or an output is not one byte long, else 0. Only a call that returns 0
/// writes.
pub fn uuid_get_info(
    uuid_bytes: Option<&[u8]>,
    version: Option<&mut [u8]>,
    variant: Option<&mut [u8]>,
) -> (status: i32)
    ensures
        status == (if holds_uuid(uuid_bytes) && takes_flag(version) && takes_flag(variant) {
            UuidFfiError::Success.code()
        } else {
            UuidFfiError::InvalidParameter.code()
        }),
        version matches Some(out) ==> final(out)@ == (if status == 0 {
            seq![version_of(uuid_bytes->Some_0@)]
        } else {
            out@
        }),
        variant matches Some(out) ==> final(out)@ == (if status == 0 {
            seq![variant_of(uuid_bytes->Some_0@)]
        } else {
            out@
        }),
{
    let (bytes, version_out, variant_out) = match (uuid_bytes, version, variant) {
        (Some(bytes), Some(version_out), Some(variant_out)) => (bytes, version_out, variant_out),
        _ => {
            return UuidFfiError::InvalidParameter.code();
        },
    };
    if bytes.len() != 16 || version_out.len() != 1 || variant_out.len() != 1 {
        return UuidFfiError::InvalidParameter.code();
    }
    let uuid = Uuid::from_bytes(to_array(bytes));
    version_out[0] = uuid.version();
    variant_out[0] = uuid.variant();
    assert(version_out@ =~= seq![version_of(bytes@)]);
    assert(variant_out@ =~= seq![variant_of(bytes@)]);
    UuidFfiError::Success.code()
}

/// Compares the identifiers in `uuid1_bytes` and `uuid2_bytes` and writes 1 to
/// the one byte of `are_equal` where all 16 bytes agree, else 0.
///
/// Returns 2 where any of the three is missing, an input is not 16 bytes long
/// or `are_equal` is not one byte long, else 0. Only a call that returns 0
/// writes.
pub fn uuid_compare(
    uuid1_bytes: Option<&[u8]>,
    uuid2_bytes: Option<&[u8]>,
    are_equal: Option<&mut [u8]>,
) -> (status: i32)
    ensures
        status == (if holds_uuid(uuid1_bytes) && holds_uuid(uuid2_bytes) && takes_flag(are_equal) {
            UuidFfiError::Success.code()
        } else {
            UuidFfiError::InvalidParameter.code()
        }),
        are_equal matches Some(out) ==> final(out)@ == (if status != 0 {
            out@
        } else if uuid1_bytes->Some_0@ == uuid2_bytes->Some_0@ {
            seq![1u8]
        } else {
            seq![0u8]
        }),
{
    let (bytes1, bytes2, out) = match (uuid1_bytes, uuid2_bytes, are_equal) {
        (Some(bytes1), Some(bytes2), Some(out)) => (bytes1, bytes2, out),
        _ => {
            return UuidFfiError::InvalidParameter.code();
        },
    };
    if bytes1.len() != 16 || bytes2.len() != 16 || out.len() != 1 {
        return UuidFfiError::InvalidParameter.code();
    }
    let uuid1 = Uuid::from_bytes(to_array(bytes1));
    let uuid2 = Uuid::from_bytes(to_array(bytes2));
    out[0] = if uuid1 == uuid2 {
        1
    } else {
        0
    };
    assert(out@ =~= seq![out@[0]]);
    UuidFfiError::Success.code()
}

} // verus!
