//! Identifiers: random UUIDs from the `uuid` crate, held as 128-bit
//! integers, and their standard text form.

use vstd::prelude::*;
use uuid::Uuid;

verus! {

/// The lower-case hexadecimal digit of `d` (below 16).
pub open spec fn hex_char(d: int) -> char {
    if d < 10 {
        (48 + d) as char
    } else {
        (87 + d) as char
    }
}

pub open spec fn pow16(n: nat) -> nat
    decreases n,
{
    if n == 0 {
        1
    } else {
        16 * pow16((n - 1) as nat)
    }
}

/// The 32 hexadecimal digits of `v`, most significant first.
pub open spec fn hex_digits(v: u128) -> Seq<char> {
    Seq::new(32, |i: int| hex_char(((v as nat) / pow16((31 - i) as nat)) as int % 16))
}

/// The hyphenated text of a UUID: its 32 lower-case hexadecimal digits in
/// groups of 8, 4, 4, 4 and 12, joined by hyphens.
pub open spec fn uuid_text(v: u128) -> Seq<char> {
    let d = hex_digits(v);
    d.subrange(0, 8) + seq!['-'] + d.subrange(8, 12) + seq!['-'] + d.subrange(12, 16) + seq!['-'] + d.subrange(16, 20)
        + seq!['-'] + d.subrange(20, 32)
}

/// `Uuid::new_v4().as_u128()`: a random version-4 UUID. uuid builds it
/// from random bits with the version field set to 4 and the variant bits to
/// those of RFC 9562 (`10`); that is all that is stated of its value.
#[verifier::external_body]
pub(crate) fn new_uuid() -> (r: u128)
    ensures
        r & 0xF000_0000_0000_0000_0000u128 == 0x4000_0000_0000_0000_0000u128,
        r & 0xC000_0000_0000_0000u128 == 0x8000_0000_0000_0000u128,
{
    Uuid::new_v4().as_u128()
}

/// `Uuid::from_u128(id).to_string()`: uuid formats a UUID, by `Display`, in
/// its hyphenated lower-case form, with the digits of the integer in order
/// from the most significant.
#[verifier::external_body]
pub(crate) fn uuid_string(id: u128) -> (r: String)
    ensures
        r@ == uuid_text(id),
{
    Uuid::from_u128(id).to_string()
}

/// The text of a UUID has 36 ASCII characters.
pub proof fn lemma_uuid_text_ascii(v: u128)
    ensures
        uuid_text(v).len() == 36,
        vstd::utf8::is_ascii_chars(uuid_text(v)),
{
    let t = uuid_text(v);
    let d = hex_digits(v);
    assert forall|i: int| 0 <= i < 32 implies '\0' <= #[trigger] d[i] <= '\u{7f}' by {
        let x = ((v as nat) / pow16((31 - i) as nat)) as int % 16;
        assert(0 <= x < 16);
    }
    assert forall|i: int| 0 <= i < t.len() implies '\0' <= #[trigger] t[i] <= '\u{7f}' by {
        if i < 8 {
            assert(t[i] == d[i]);
        } else if i == 8 || i == 13 || i == 18 || i == 23 {
        } else if i < 13 {
            assert(t[i] == d[i - 1]);
        } else if i < 18 {
            assert(t[i] == d[i - 2]);
        } else if i < 23 {
            assert(t[i] == d[i - 3]);
        } else {
            assert(t[i] == d[i - 4]);
        }
    }
}

} // verus!
