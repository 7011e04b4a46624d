//! The 128-bit identifiers of the gateway: batch, inference and episode
//! identifiers.
//!
//! An identifier is held as its 128 bits. Generating one, reading the time
//! embedded in one and writing one as text are done by the `uuid` crate; the
//! rules about what an episode identifier may be are proved here.

use crate::text::digit_char;
use vstd::prelude::*;

verus! {

/// A 128-bit identifier, most significant bit first as in its textual form.
#[derive(Clone, Copy, Debug, PartialEq, Eq, Hash, Structural)]
pub struct Identifier {
    pub bits: u128,
}

/// Seconds since the Unix epoch of 2024-01-01T00:00:00Z: the earliest time
/// that an episode identifier may carry.
pub const EARLIEST_EPISODE_SECONDS: u64 = 1_704_067_200;

/// The time that the `uuid` crate reads out of the identifier with the given
/// bits, as seconds and nanoseconds since the Unix epoch; `None` for an
/// identifier of a version that embeds no time.
pub uninterp spec fn embedded_unix_time(bits: u128) -> Option<(u64, u32)>;

/// Whether the identifier with the given bits is of version 7 and of the
/// RFC variant: the digit that holds the version is 7, and the digit that
/// begins with the two variant bits is 8, 9, a or b.
pub open spec fn is_version_7(bits: u128) -> bool {
    &&& hex_digit(bits, 12) == 7
    &&& 8 <= hex_digit(bits, 16) <= 11
}

/// Calls `uuid::Uuid::now_v7`: a fresh identifier made from the system
/// clock and random bits. Whatever the clock and the random bits are, the
/// crate sets the version field to 7 and the variant field to the RFC
/// variant; nothing else is claimed about the value. The outside function
/// panics if the system clock stands before the Unix epoch, or if the
/// system's source of random bits fails.
#[verifier::external_body]
fn generate_bits() -> (bits: u128)
    ensures
        is_version_7(bits),
{
    uuid::Uuid::now_v7().as_u128()
}

/// Calls `uuid::Uuid::get_timestamp` on the identifier with the given bits
/// and converts the result with `uuid::Timestamp::to_unix`. The result is a
/// function of the bits alone, named [`embedded_unix_time`].
#[verifier::external_body]
fn read_unix_time(bits: u128) -> (time: Option<(u64, u32)>)
    ensures
        time == embedded_unix_time(bits),
{
    match uuid::Uuid::from_u128(bits).get_timestamp() {
        Some(timestamp) => Some(timestamp.to_unix()),
        None => None,
    }
}

/// The character that writes the hexadecimal digit `v` in lower case;
/// meaningful for `v < 16`.
pub open spec fn hex_char(v: nat) -> char {
    if v < 10 {
        digit_char(v)
    } else if v == 10 {
        'a'
    } else if v == 11 {
        'b'
    } else if v == 12 {
        'c'
    } else if v == 13 {
        'd'
    } else if v == 14 {
        'e'
    } else {
        'f'
    }
}

/// The `k`-th hexadecimal digit of `bits`, counted from the most significant
/// one (`k == 0`) to the least significant one (`k == 31`).
pub open spec fn hex_digit(bits: u128, k: int) -> nat {
    ((bits as nat) / vstd::arithmetic::power::pow(16, (31 - k) as nat) as nat) % 16
}

/// The canonical text of the identifier with the given bits: its 32
/// hexadecimal digits in lower case, most significant first, in groups of
/// 8, 4, 4, 4 and 12 digits separated by hyphens.
pub open spec fn canonical_text(bits: u128) -> Seq<char> {
    Seq::new(
        36,
        |p: int|
            if p == 8 || p == 13 || p == 18 || p == 23 {
                '-'
            } else if p < 8 {
                hex_char(hex_digit(bits, p))
            } else if p < 13 {
                hex_char(hex_digit(bits, p - 1))
            } else if p < 18 {
                hex_char(hex_digit(bits, p - 2))
            } else if p < 23 {
                hex_char(hex_digit(bits, p - 3))
            } else {
                hex_char(hex_digit(bits, p - 4))
            },
    )
}

/// Calls `uuid::Uuid::hyphenated` on the identifier with the given bits and
/// writes it through its `Display`, which the crate documents as the
/// lower-case hyphenated form: [`canonical_text`].
#[verifier::external_body]
fn write_hyphenated(bits: u128) -> (text: String)
    ensures
        text@ == canonical_text(bits),
{
    uuid::Uuid::from_u128(bits).hyphenated().to_string()
}

/// Why `time` cannot be the embedded time of an episode identifier: the
/// text of the reason, or `None` where it can.
pub open spec fn embedded_time_fault(time: Option<(u64, u32)>) -> Option<Seq<char>> {
    match time {
        None => Some("Invalid Episode ID: Timestamp is missing"@),
        Some((seconds, _)) => if seconds < EARLIEST_EPISODE_SECONDS {
            Some("Invalid Episode ID: Timestamp is too early"@)
        } else {
            None
        },
    }
}

/// Decides whether `time`, as read out of an identifier, lets that
/// identifier be an episode identifier. The time must be there and must not
/// predate [`EARLIEST_EPISODE_SECONDS`].
pub fn check_embedded_time(time: Option<(u64, u32)>) -> (r: Result<(), String>)
    ensures
        r is Ok <==> embedded_time_fault(time) is None,
        r matches Err(message) ==> embedded_time_fault(time) == Some(message@),
{
    match time {
        None => Err("Invalid Episode ID: Timestamp is missing".to_owned()),
        Some((seconds, _)) => {
            if seconds < EARLIEST_EPISODE_SECONDS {
                Err("Invalid Episode ID: Timestamp is too early".to_owned())
            } else {
                Ok(())
            }
        },
    }
}

impl Identifier {
    /// The identifier with the given bits.
    pub fn from_u128(bits: u128) -> (id: Identifier)
        ensures
            id.bits == bits,
    {
        Identifier { bits }
    }

    /// The bits of the identifier.
    pub fn as_u128(&self) -> (bits: u128)
        ensures
            bits == self.bits,
    {
        self.bits
    }

    /// A fresh identifier, from the system clock and random bits: a
    /// version-7 identifier of the RFC variant, whose other bits depend on
    /// the time and on chance.
    pub fn generate() -> (id: Identifier)
        ensures
            is_version_7(id.bits),
    {
        Identifier { bits: generate_bits() }
    }

    /// The time embedded in the identifier, as seconds and nanoseconds since
    /// the Unix epoch.
    pub open spec fn embedded_time(self) -> Option<(u64, u32)> {
        embedded_unix_time(self.bits)
    }

    /// Why the identifier cannot be an episode identifier, if it cannot.
    pub open spec fn episode_fault(self) -> Option<Seq<char>> {
        embedded_time_fault(self.embedded_time())
    }

    /// Reads the time embedded in the identifier.
    pub fn get_timestamp(&self) -> (time: Option<(u64, u32)>)
        ensures
            time == self.embedded_time(),
    {
        read_unix_time(self.bits)
    }

    /// The canonical text of the identifier.
    pub fn to_string(&self) -> (text: String)
        ensures
            text@ == canonical_text(self.bits),
    {
        write_hyphenated(self.bits)
    }
}

/// Validates an identifier as an episode identifier: its embedded time must
/// not predate [`EARLIEST_EPISODE_SECONDS`].
pub fn validate_episode_id(episode_id: Identifier) -> (r: Result<(), String>)
    ensures
        r is Ok <==> episode_id.episode_fault() is None,
        r matches Err(message) ==> episode_id.episode_fault() == Some(message@),
{
    check_embedded_time(episode_id.get_timestamp())
}

} // verus!
