//! The canonical text form of an identifier: 32 lowercase hexadecimal digits in
//! groups of 8, 4, 4, 4 and 12, with a dash between groups.

use crate::identifier::v4_bytes;
use crate::identifier::version_of;
use crate::identifier::Uuid;
use vstd::prelude::*;
use vstd::string::StrSliceExecFns;
use vstd::string::StringExecFns;

verus! {

/// The lowercase hexadecimal digit that stands for `n`, for `n` from 0 to 15.
pub open spec fn hex_digit(n: int) -> char {
    seq!['0', '1', '2', '3', '4', '5', '6', '7', '8', '9', 'a', 'b', 'c', 'd', 'e', 'f'][n]
}

/// Whether `c` is one of `0`..`9`, `a`..`f`.
pub open spec fn is_lower_hex_digit(c: char) -> bool {
    ('0' <= c && c <= '9') || ('a' <= c && c <= 'f')
}

/// Whether the canonical text has a dash at index `i`.
pub open spec fn is_dash_position(i: int) -> bool {
    i == 8 || i == 13 || i == 18 || i == 23
}

/// Whether `c` may stand at index `i` of a canonical text: a dash where a dash
/// belongs, a lowercase hexadecimal digit elsewhere.
pub open spec fn has_shape_at(c: char, i: int) -> bool {
    if is_dash_position(i) {
        c == '-'
    } else {
        is_lower_hex_digit(c)
    }
}

/// The two digits of one byte, high nibble first.
pub open spec fn hex_pair(b: u8) -> Seq<char> {
    seq![hex_digit(b as int / 16), hex_digit(b as int % 16)]
}

/// The digits of a run of bytes, two per byte, in order.
pub open spec fn hex_run(bytes: Seq<u8>) -> Seq<char> {
    Seq::new(
        2 * bytes.len(),
        |i: int|
            if i % 2 == 0 {
                hex_digit(bytes[i / 2] as int / 16)
            } else {
                hex_digit(bytes[i / 2] as int % 16)
            },
    )
}

/// The canonical text of 16 bytes.
pub open spec fn canonical_text(bytes: Seq<u8>) -> Seq<char> {
    hex_run(bytes.subrange(0, 4)) + seq!['-'] + hex_run(bytes.subrange(4, 6)) + seq!['-']
        + hex_run(bytes.subrange(6, 8)) + seq!['-'] + hex_run(bytes.subrange(8, 10)) + seq!['-']
        + hex_run(bytes.subrange(10, 16))
}

/// Every value from 0 to 15 has a lowercase hexadecimal digit.
pub proof fn lemma_hex_digit_is_lower_hex(n: int)
    requires
        0 <= n < 16,
    ensures
        is_lower_hex_digit(hex_digit(n)),
{
    let digits = seq!['0', '1', '2', '3', '4', '5', '6', '7', '8', '9', 'a', 'b', 'c', 'd', 'e', 'f'];
    assert(digits[0] == '0' && digits[1] == '1' && digits[2] == '2' && digits[3] == '3');
    assert(digits[4] == '4' && digits[5] == '5' && digits[6] == '6' && digits[7] == '7');
    assert(digits[8] == '8' && digits[9] == '9' && digits[10] == 'a' && digits[11] == 'b');
    assert(digits[12] == 'c' && digits[13] == 'd' && digits[14] == 'e' && digits[15] == 'f');
}

/// A run grows by one pair when it grows by one byte.
proof fn lemma_hex_run_push(bytes: Seq<u8>, b: u8)
    ensures
        hex_run(bytes.push(b)) == hex_run(bytes) + hex_pair(b),
{
    assert(hex_run(bytes.push(b)) =~= hex_run(bytes) + hex_pair(b));
}

/// The text has 36 characters: a dash at 8, 13, 18 and 23, and a lowercase
/// hexadecimal digit everywhere else.
pub proof fn law_text_shape(bytes: Seq<u8>)
    requires
        bytes.len() == 16,
    ensures
        canonical_text(bytes).len() == 36,
        forall|i: int| 0 <= i < 36 ==> has_shape_at(#[trigger] canonical_text(bytes)[i], i),
{
    let text = canonical_text(bytes);
    assert forall|i: int| 0 <= i < 36 implies has_shape_at(#[trigger] text[i], i) by {
        if !is_dash_position(i) {
            let k = if i < 8 {
                i
            } else if i < 13 {
                i - 1
            } else if i < 18 {
                i - 2
            } else if i < 23 {
                i - 3
            } else {
                i - 4
            };
            let b = bytes[k / 2];
            lemma_hex_digit_is_lower_hex(b as int / 16);
            lemma_hex_digit_is_lower_hex(b as int % 16);
        }
    }
}

/// The text shows the fields: index 14 holds the digit of the version, and
/// index 19 the digit of the upper half of byte 8, whose leading bits are the
/// variant. So the text of a generated identifier has `4` at index 14 and one
/// of `8`, `9`, `a`, `b` at index 19.
pub proof fn law_text_shows_version_and_variant(bytes: Seq<u8>)
    requires
        bytes.len() == 16,
    ensures
        canonical_text(bytes)[14] == hex_digit(version_of(bytes) as int),
        canonical_text(bytes)[19] == hex_digit(bytes[8] as int / 16),
        canonical_text(v4_bytes(bytes))[14] == '4',
        ({
            let c = canonical_text(v4_bytes(bytes))[19];
            c == '8' || c == '9' || c == 'a' || c == 'b'
        }),
{
    let made = v4_bytes(bytes);
    assert(canonical_text(made)[14] == hex_digit(made[6] as int / 16));
    assert(canonical_text(made)[19] == hex_digit(made[8] as int / 16));
    assert(made[6] as int / 16 == 4);
    assert(8 <= made[8] as int / 16 <= 11);
}

/// One digit as a string.
fn hex_digit_str(n: u8) -> (digit: &'static str)
    requires
        n < 16,
    ensures
        digit@ == seq![hex_digit(n as int)],
{
    proof {
        reveal_strlit("0123456789abcdef");
    }
    let digits = "0123456789abcdef";
    let digit = digits.substring_ascii(n as usize, n as usize + 1);
    assert(digit@ =~= seq![hex_digit(n as int)]);
    digit
}

/// Appends the digits of `bytes[from..to]` to `text`.
fn push_hex_run(text: &mut String, bytes: &[u8; 16], from: usize, to: usize)
    requires
        from <= to <= 16,
    ensures
        final(text)@ == old(text)@ + hex_run(bytes@.subrange(from as int, to as int)),
{
    let mut i: usize = from;
    assert(hex_run(bytes@.subrange(from as int, from as int)) =~= Seq::<char>::empty());
    assert(text@ =~= old(text)@ + Seq::<char>::empty());
    while i < to
        invariant
            from <= i <= to <= 16,
            text@ == old(text)@ + hex_run(bytes@.subrange(from as int, i as int)),
        decreases to - i,
    {
        let b: u8 = bytes[i];
        proof {
            lemma_hex_run_push(bytes@.subrange(from as int, i as int), b);
            assert(bytes@.subrange(from as int, i as int).push(b) =~= bytes@.subrange(
                from as int,
                i as int + 1,
            ));
        }
        let ghost before = text@;
        text.append(hex_digit_str(b / 16));
        text.append(hex_digit_str(b % 16));
        assert(text@ =~= before + hex_pair(b));
        i += 1;
    }
}

impl Uuid {
    /// Renders the identifier in its canonical text form.
    pub fn to_string(&self) -> (text: String)
        ensures
            text@ == canonical_text(self@),
            text@.len() == 36,
            forall|i: int| 0 <= i < 36 ==> has_shape_at(#[trigger] text@[i], i),
    {
        let bytes = self.as_bytes();
        proof {
            reveal_strlit("-");
            law_text_shape(self@);
        }
        let mut text = String::new();
        push_hex_run(&mut text, bytes, 0, 4);
        text.append("-");
        push_hex_run(&mut text, bytes, 4, 6);
        text.append("-");
        push_hex_run(&mut text, bytes, 6, 8);
        text.append("-");
        push_hex_run(&mut text, bytes, 8, 10);
        text.append("-");
        push_hex_run(&mut text, bytes, 10, 16);
        assert(text@ =~= canonical_text(self@));
        text
    }
}

} // verus!
