//! Percent-encoding of text for use in a query string.

use vstd::prelude::*;
use vstd::string::StringSliceAdditionalSpecFns;

verus! {

/// A byte that stands for itself: a letter or digit of ASCII, or one of
/// `-`, `_`, `.` and `~`.
pub open spec fn is_unreserved(b: u8) -> bool {
    ||| 0x41 <= b <= 0x5A
    ||| 0x61 <= b <= 0x7A
    ||| 0x30 <= b <= 0x39
    ||| b == 0x2D
    ||| b == 0x5F
    ||| b == 0x2E
    ||| b == 0x7E
}

/// The upper-case hexadecimal digit of `n`, for `n` below sixteen.
pub open spec fn hex_digit(n: nat) -> char {
    if n < 10 {
        ((48 + n) as u8) as char
    } else {
        ((55 + n) as u8) as char
    }
}

/// What one byte becomes: itself where it is unreserved, otherwise a
/// percent sign and its two hexadecimal digits.
pub open spec fn encoded_byte(b: u8) -> Seq<char> {
    if is_unreserved(b) {
        seq![b as char]
    } else {
        seq!['%', hex_digit((b / 16) as nat), hex_digit((b % 16) as nat)]
    }
}

/// What a sequence of bytes becomes: the encodings of its bytes, in order.
pub open spec fn encoded_bytes(bytes: Seq<u8>) -> Seq<char>
    decreases bytes.len(),
{
    if bytes.len() == 0 {
        Seq::empty()
    } else {
        encoded_bytes(bytes.drop_last()) + encoded_byte(bytes.last())
    }
}

/// `c` may stand in an encoded text: an unreserved character, a percent
/// sign, or a hexadecimal digit.
pub open spec fn is_encoded_char(c: char) -> bool {
    ||| 'A' <= c <= 'Z'
    ||| 'a' <= c <= 'z'
    ||| '0' <= c <= '9'
    ||| c == '-'
    ||| c == '_'
    ||| c == '.'
    ||| c == '~'
    ||| c == '%'
}

/// An encoded text holds nothing but unreserved characters, percent signs
/// and hexadecimal digits, and is one to three times as long as the bytes
/// it was made from.
pub proof fn lemma_encoded_is_plain(bytes: Seq<u8>)
    ensures
        forall|i: int|
            0 <= i < encoded_bytes(bytes).len() ==> is_encoded_char(
                #[trigger] encoded_bytes(bytes)[i],
            ),
        bytes.len() <= encoded_bytes(bytes).len() <= 3 * bytes.len(),
    decreases bytes.len(),
{
    if bytes.len() > 0 {
        lemma_encoded_is_plain(bytes.drop_last());
        let head = encoded_bytes(bytes.drop_last());
        let tail = encoded_byte(bytes.last());
        assert forall|i: int| 0 <= i < tail.len() implies is_encoded_char(#[trigger] tail[i]) by {
            let b = bytes.last();
            if !is_unreserved(b) {
                assert(b / 16 < 16);
                assert(b % 16 < 16);
            }
        }
        assert forall|i: int| 0 <= i < encoded_bytes(bytes).len() implies is_encoded_char(
            #[trigger] encoded_bytes(bytes)[i],
        ) by {
            if i < head.len() {
                assert(encoded_bytes(bytes)[i] == head[i]);
            } else {
                assert(encoded_bytes(bytes)[i] == tail[i - head.len()]);
            }
        }
    }
}

/// The upper-case hexadecimal digit of `n`.
fn hex_char(n: u8) -> (c: char)
    requires
        n < 16,
    ensures
        c == hex_digit(n as nat),
{
    if n < 10 {
        (48u8 + n) as char
    } else {
        (55u8 + n) as char
    }
}

/// Whether a byte stands for itself.
fn unreserved(b: u8) -> (r: bool)
    ensures
        r == is_unreserved(b),
{
    (0x41 <= b && b <= 0x5A) || (0x61 <= b && b <= 0x7A) || (0x30 <= b && b <= 0x39) || b == 0x2D
        || b == 0x5F || b == 0x2E || b == 0x7E
}

/// Percent-encodes `data`, byte by byte of its UTF-8 form: unreserved
/// bytes are kept, every other byte becomes a percent sign and two
/// upper-case hexadecimal digits.
pub fn encode(data: &str) -> (escaped: String)
    ensures
        escaped@ == encoded_bytes(data.spec_bytes()),
{
    let bytes = data.as_bytes();
    let mut escaped = String::new();
    let mut i: usize = 0;
    while i < bytes.len()
        invariant
            i <= bytes.len(),
            bytes@ == data.spec_bytes(),
            escaped@ == encoded_bytes(bytes@.take(i as int)),
        decreases bytes.len() - i,
    {
        let b = bytes[i];
        proof {
            assert(bytes@.take(i + 1).drop_last() =~= bytes@.take(i as int));
            assert(bytes@.take(i + 1).last() == b);
        }
        let ghost before = escaped@;
        if unreserved(b) {
            escaped.push(b as char);
            assert(escaped@ =~= before + encoded_byte(b));
        } else {
            escaped.push('%');
            escaped.push(hex_char(b / 16));
            escaped.push(hex_char(b % 16));
            assert(escaped@ =~= before + encoded_byte(b));
        }
        i += 1;
    }
    assert(bytes@.take(bytes.len() as int) =~= bytes@);
    escaped
}

} // verus!
