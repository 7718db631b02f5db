//! Hardware addresses: the six octets that an identifier holds, and their
//! printed form.

use vstd::prelude::*;
use vstd::string::{StrSliceExecFns, StringExecFns};
use crate::event::EntityId;

verus! {

/// One more than the largest identifier that holds nothing above its six
/// octets.
pub const ADDRESS_LIMIT: u64 = 0x1_0000_0000_0000;

/// The upper-case hexadecimal digit for a value below sixteen.
pub open spec fn hex_digit(n: int) -> char {
    "0123456789ABCDEF"@[n]
}

/// The two hexadecimal digits of an octet, the high one first.
pub open spec fn octet_form(octet: u8) -> Seq<char> {
    seq![hex_digit(octet as int / 16), hex_digit(octet as int % 16)]
}

/// One of the six octets of the hardware address that an identifier holds
/// in its low 48 bits; octet 0 is the most significant.
pub open spec fn octet(id: EntityId, k: int) -> u8 {
    let shifted = if k == 0 {
        id as int / 0x100_0000_0000
    } else if k == 1 {
        id as int / 0x1_0000_0000
    } else if k == 2 {
        id as int / 0x100_0000
    } else if k == 3 {
        id as int / 0x1_0000
    } else if k == 4 {
        id as int / 0x100
    } else {
        id as int
    };
    (shifted % 256) as u8
}

/// The printed form of a hardware address: its six octets in hexadecimal,
/// most significant first, with a colon between neighbours.
pub open spec fn address_form(id: EntityId) -> Seq<char> {
    octet_form(octet(id, 0)) + ":"@ + octet_form(octet(id, 1)) + ":"@ + octet_form(octet(id, 2)) + ":"@
        + octet_form(octet(id, 3)) + ":"@ + octet_form(octet(id, 4)) + ":"@ + octet_form(octet(id, 5))
}

/// The identifier that holds the given six octets, the first of them as the
/// most significant, and nothing above them.
pub fn id_from_octets(octets: [u8; 6]) -> (id: EntityId)
    ensures
        id < ADDRESS_LIMIT,
        forall|k: int| 0 <= k < 6 ==> octet(id, k) == #[trigger] octets@[k],
{
    let o0: u64 = octets[0] as u64;
    let o1: u64 = octets[1] as u64;
    let o2: u64 = octets[2] as u64;
    let o3: u64 = octets[3] as u64;
    let o4: u64 = octets[4] as u64;
    let o5: u64 = octets[5] as u64;
    let id: u64 = o0 * 0x100_0000_0000 + o1 * 0x1_0000_0000 + o2 * 0x100_0000 + o3 * 0x1_0000 + o4 * 0x100
        + o5;
    assert(id < 0x1_0000_0000_0000 && id / 0x100_0000_0000 % 256 == o0 && id / 0x1_0000_0000 % 256 == o1 && id
        / 0x100_0000 % 256 == o2 && id / 0x1_0000 % 256 == o3 && id / 0x100 % 256 == o4 && id % 256 == o5)
        by (bit_vector)
        requires
            o0 < 256,
            o1 < 256,
            o2 < 256,
            o3 < 256,
            o4 < 256,
            o5 < 256,
            id == o0 * 0x100_0000_0000 + o1 * 0x1_0000_0000 + o2 * 0x100_0000 + o3 * 0x1_0000 + o4 * 0x100
                + o5,
    ;
    id
}

/// The six octets that an identifier holds, the most significant first.
pub fn octets_of(id: EntityId) -> (octets: [u8; 6])
    ensures
        forall|k: int| 0 <= k < 6 ==> #[trigger] octets@[k] == octet(id, k),
{
    [
        (id / 0x100_0000_0000 % 256) as u8,
        (id / 0x1_0000_0000 % 256) as u8,
        (id / 0x100_0000 % 256) as u8,
        (id / 0x1_0000 % 256) as u8,
        (id / 0x100 % 256) as u8,
        (id % 256) as u8,
    ]
}

/// An identifier below the limit is the one that holds its own octets: two
/// such identifiers with the same octets are the same.
pub proof fn lemma_octets_determine_id(a: EntityId, b: EntityId)
    requires
        a < ADDRESS_LIMIT,
        b < ADDRESS_LIMIT,
        forall|k: int| 0 <= k < 6 ==> octet(a, k) == octet(b, k),
    ensures
        a == b,
{
    assert(octet(a, 0) == octet(b, 0));
    assert(octet(a, 1) == octet(b, 1));
    assert(octet(a, 2) == octet(b, 2));
    assert(octet(a, 3) == octet(b, 3));
    assert(octet(a, 4) == octet(b, 4));
    assert(octet(a, 5) == octet(b, 5));
    assert(a == b) by (bit_vector)
        requires
            a < 0x1_0000_0000_0000,
            b < 0x1_0000_0000_0000,
            a / 0x100_0000_0000 % 256 == b / 0x100_0000_0000 % 256,
            a / 0x1_0000_0000 % 256 == b / 0x1_0000_0000 % 256,
            a / 0x100_0000 % 256 == b / 0x100_0000 % 256,
            a / 0x1_0000 % 256 == b / 0x1_0000 % 256,
            a / 0x100 % 256 == b / 0x100 % 256,
            a % 256 == b % 256,
    ;
}

fn push_octet(text: &mut String, octet: u8)
    ensures
        final(text)@ == old(text)@ + octet_form(octet),
{
    let digits = "0123456789ABCDEF";
    proof {
        reveal_strlit("0123456789ABCDEF");
    }
    let high: usize = (octet / 16) as usize;
    let low: usize = (octet % 16) as usize;
    let first = digits.substring_ascii(high, high + 1);
    let second = digits.substring_ascii(low, low + 1);
    text.append(first);
    text.append(second);
    assert(first@ + second@ =~= octet_form(octet));
    assert(final(text)@ =~= old(text)@ + (first@ + second@));
}

/// Prints the hardware address that an identifier holds.
pub fn address_text(id: EntityId) -> (text: String)
    ensures
        text@ == address_form(id),
{
    let octets = octets_of(id);
    let mut text = String::new();
    push_octet(&mut text, octets[0]);
    text.append(":");
    push_octet(&mut text, octets[1]);
    text.append(":");
    push_octet(&mut text, octets[2]);
    text.append(":");
    push_octet(&mut text, octets[3]);
    text.append(":");
    push_octet(&mut text, octets[4]);
    text.append(":");
    push_octet(&mut text, octets[5]);
    assert(text@ =~= address_form(id));
    text
}

} // verus!
