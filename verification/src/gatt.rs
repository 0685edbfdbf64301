//! The peripheral's GATT profile: the identifiers it advertises and the
//! command it understands.

use vstd::prelude::*;

verus! {

/// Primary service that a traffic light advertises.
pub const PRIMARY_SERVICE_UUID: &'static str = "6f59f19e-2f39-49de-8525-5d2045f4d999";

/// Characteristic of the primary service that accepts commands.
pub const WRITE_CHARACTERISTIC_UUID: &'static str = "420ece2e-c66c-4059-9ceb-5fc19251e453";

/// Characteristic of the primary service that reports the current signal.
pub const READ_CHARACTERISTIC_UUID: &'static str = "a9bf2905-ee69-4baa-8960-4358a9e3a558";

/// Command that switches the signal to green: the ASCII text `31`.
pub const GREEN_SIGNAL: [u8; 2] = [0x33, 0x31];

/// A lower-case hexadecimal digit.
pub open spec fn is_lower_hex(c: char) -> bool {
    ('0' <= c && c <= '9') || ('a' <= c && c <= 'f')
}

/// Position of a hyphen in the canonical text of a UUID.
pub open spec fn is_hyphen_position(i: int) -> bool {
    i == 8 || i == 13 || i == 18 || i == 23
}

/// The canonical text of a 128-bit UUID, the form in which the platform
/// takes one: 36 characters, hyphens after 8, 12, 16 and 20 digits,
/// lower-case hexadecimal digits everywhere else.
pub open spec fn is_canonical_uuid(s: Seq<char>) -> bool {
    &&& s.len() == 36
    &&& forall|i: int|
        0 <= i < 36 ==> if is_hyphen_position(i) {
            s[i] == '-'
        } else {
            is_lower_hex(#[trigger] s[i])
        }
}

/// The three identifiers are canonical UUIDs, and no two of them coincide.
pub proof fn lemma_identifiers_are_canonical()
    ensures
        is_canonical_uuid(PRIMARY_SERVICE_UUID@),
        is_canonical_uuid(WRITE_CHARACTERISTIC_UUID@),
        is_canonical_uuid(READ_CHARACTERISTIC_UUID@),
        PRIMARY_SERVICE_UUID@ != WRITE_CHARACTERISTIC_UUID@,
        PRIMARY_SERVICE_UUID@ != READ_CHARACTERISTIC_UUID@,
        WRITE_CHARACTERISTIC_UUID@ != READ_CHARACTERISTIC_UUID@,
{
    reveal_strlit("6f59f19e-2f39-49de-8525-5d2045f4d999");
    reveal_strlit("420ece2e-c66c-4059-9ceb-5fc19251e453");
    reveal_strlit("a9bf2905-ee69-4baa-8960-4358a9e3a558");
    assert(PRIMARY_SERVICE_UUID@[0] == '6');
    assert(WRITE_CHARACTERISTIC_UUID@[0] == '4');
    assert(READ_CHARACTERISTIC_UUID@[0] == 'a');
}

/// The green command is the ASCII encoding of the text `31`.
pub proof fn lemma_green_signal_is_ascii_31()
    ensures
        GREEN_SIGNAL@.len() == 2,
        "31"@.len() == 2,
        forall|i: int| 0 <= i < 2 ==> GREEN_SIGNAL@[i] == #[trigger] "31"@[i] as u8,
{
    reveal_strlit("31");
}

} // verus!
