//! Telling device addresses from friendly names.

use vstd::prelude::*;
use vstd::string::is_ascii_spec_bytes;

verus! {

/// The characters that separate the groups of an address.
pub open spec fn is_separator(c: char) -> bool {
    c == ':' || c == '-'
}

/// The sixteen hexadecimal digits, in either case.
pub open spec fn is_hex_digit(c: char) -> bool {
    ('0' <= c <= '9') || ('a' <= c <= 'f') || ('A' <= c <= 'F')
}

/// How many separators `s` holds.
pub open spec fn separator_count(s: Seq<char>) -> nat
    decreases s.len(),
{
    if s.len() == 0 {
        0
    } else if is_separator(s.last()) {
        separator_count(s.drop_last()) + 1
    } else {
        separator_count(s.drop_last())
    }
}

/// The shape of a hardware address: nothing but hexadecimal digits, colons
/// and dashes, with at least five separators among them.
pub open spec fn looks_like_mac(s: Seq<char>) -> bool {
    &&& separator_count(s) >= 5
    &&& forall|i: int| 0 <= i < s.len() ==> is_hex_digit(#[trigger] s[i]) || is_separator(s[i])
}

/// The shape of a device identifier: at least 32 characters, nothing but
/// hexadecimal digits and dashes.
pub open spec fn looks_like_uuid(s: Seq<char>) -> bool {
    &&& s.len() >= 32
    &&& forall|i: int| 0 <= i < s.len() ==> is_hex_digit(#[trigger] s[i]) || s[i] == '-'
}

/// Whether `s` has the shape of a device address of either kind.
pub open spec fn address_like(s: Seq<char>) -> bool {
    looks_like_mac(s) || looks_like_uuid(s)
}

fn byte_is_hex_digit(b: u8, Ghost(c): Ghost<char>) -> (yes: bool)
    requires
        b as int == c as int,
    ensures
        yes == is_hex_digit(c),
{
    (48 <= b && b <= 57) || (97 <= b && b <= 102) || (65 <= b && b <= 70)
}

proof fn lemma_separator_count_bounded(s: Seq<char>)
    ensures
        separator_count(s) <= s.len(),
    decreases s.len(),
{
    if s.len() > 0 {
        lemma_separator_count_bounded(s.drop_last());
    }
}

/// Checks whether a string looks like a device address rather than a name
/// a person would choose.
pub fn looks_like_address(s: &str) -> (yes: bool)
    ensures
        yes == address_like(s@),
{
    if !s.is_ascii() {
        proof {
            let i = choose|i: int| 0 <= i < s@.len() && !('\0' <= #[trigger] s@[i] <= '\u{7f}');
            assert(!is_hex_digit(s@[i]) && !is_separator(s@[i]));
        }
        return false;
    }
    let bytes = s.as_bytes();
    proof {
        is_ascii_spec_bytes(s);
        assert forall|k: int| 0 <= k < s@.len() implies (#[trigger] bytes@[k]) as int
            == s@[k] as int by {
            assert('\0' <= s@[k] <= '\u{7f}');
        }
    }
    let mut separators: usize = 0;
    let mut mac_chars = true;
    let mut uuid_chars = true;
    let mut i: usize = 0;
    while i < bytes.len()
        invariant
            i <= bytes.len(),
            bytes@.len() == s@.len(),
            forall|k: int| 0 <= k < s@.len() ==> (#[trigger] bytes@[k]) as int == s@[k] as int,
            separators == separator_count(s@.take(i as int)),
            mac_chars == forall|k: int|
                0 <= k < i ==> is_hex_digit(#[trigger] s@[k]) || is_separator(s@[k]),
            uuid_chars == forall|k: int| 0 <= k < i ==> is_hex_digit(#[trigger] s@[k]) || s@[k] == '-',
        decreases bytes.len() - i,
    {
        let b = bytes[i];
        let ghost c = s@[i as int];
        proof {
            assert(b as int == c as int);
            assert(s@.take(i + 1).drop_last() == s@.take(i as int));
            assert(s@.take(i + 1).last() == c);
            lemma_separator_count_bounded(s@.take(i as int));
        }
        let hex = byte_is_hex_digit(b, Ghost(c));
        if b == 58 || b == 45 {
            separators = separators + 1;
        }
        if !(hex || b == 58 || b == 45) {
            mac_chars = false;
        }
        if !(hex || b == 45) {
            uuid_chars = false;
        }
        i = i + 1;
    }
    proof {
        assert(s@.take(i as int) == s@);
    }
    (separators >= 5 && mac_chars) || (bytes.len() >= 32 && uuid_chars)
}

} // verus!
