//! The NTP timestamp and the 48-byte SNTP packet with its binary codec.

use crate::error::ProtocolError;
use crate::result::SntpDuration;
use vstd::prelude::*;

verus! {

/// Seconds between the NTP epoch (1900-01-01) and the Unix epoch (1970-01-01).
pub const NTP_UNIX_OFFSET: u64 = 2_208_988_800;

/// 2^32, the scale of the fractional part of an NTP timestamp.
pub const FRAC_SCALE: u64 = 0x1_0000_0000;

/// The largest Unix second count whose NTP timestamp still fits the widened
/// (two-era) representation: `(s + NTP_UNIX_OFFSET) < 2^33`.
pub const MAX_UNIX_SECONDS: u64 = 6_380_945_791;

/// The value of a big-endian 64-bit integer laid out as 8 bytes.
pub open spec fn spec_u64_from_be_bytes(s: Seq<u8>) -> int
    recommends
        s.len() == 8,
{
    s[0] * 0x100_0000_0000_0000 + s[1] * 0x1_0000_0000_0000 + s[2] * 0x100_0000_0000 + s[3]
        * 0x1_0000_0000 + s[4] * 0x100_0000 + s[5] * 0x1_0000 + s[6] * 0x100 + s[7]
}

/// The 8 big-endian bytes of a 64-bit integer.
pub open spec fn spec_u64_to_be_bytes(x: int) -> Seq<u8>
    recommends
        0 <= x < 0x1_0000_0000_0000_0000,
{
    seq![
        (x / 0x100_0000_0000_0000 % 0x100) as u8,
        (x / 0x1_0000_0000_0000 % 0x100) as u8,
        (x / 0x100_0000_0000 % 0x100) as u8,
        (x / 0x1_0000_0000 % 0x100) as u8,
        (x / 0x100_0000 % 0x100) as u8,
        (x / 0x1_0000 % 0x100) as u8,
        (x / 0x100 % 0x100) as u8,
        (x % 0x100) as u8,
    ]
}

/// The widened timestamp value read from 8 wire bytes: a raw value with the
/// top bit clear belongs to the era after the 2036 rollover, so 2^64 is added.
pub open spec fn spec_timestamp_from_bytes(s: Seq<u8>) -> int
    recommends
        s.len() == 8,
{
    let raw = spec_u64_from_be_bytes(s);
    if raw < 0x8000_0000_0000_0000 {
        raw + 0x1_0000_0000_0000_0000
    } else {
        raw
    }
}

/// The 64-bit wire value of a widened timestamp: values in the later era
/// drop the era bit and so have the top bit clear on the wire.
pub open spec fn spec_timestamp_low64(v: int) -> int
    recommends
        0 <= v < 0x2_0000_0000_0000_0000,
{
    if v < 0x1_0000_0000_0000_0000 {
        v
    } else {
        (v - 0x1_0000_0000_0000_0000) % 0x8000_0000_0000_0000
    }
}

/// The widened timestamp value of a wall-clock instant given as a Unix
/// second count plus nanoseconds: seconds are rebased to the NTP epoch and
/// the nanoseconds become a truncated 32-bit binary fraction.
pub open spec fn spec_timestamp_from_unix(seconds: int, nanoseconds: int) -> int
    recommends
        0 <= seconds <= MAX_UNIX_SECONDS,
        0 <= nanoseconds < 1_000_000_000,
{
    (seconds + NTP_UNIX_OFFSET) * FRAC_SCALE + nanoseconds * FRAC_SCALE / 1_000_000_000
}

/// An instant in NTP's 64-bit fixed-point format (32-bit seconds since
/// 1900-01-01, 32-bit binary fraction), stored widened by one era bit so
/// that instants on both sides of the 2036 rollover compare and subtract
/// correctly. The all-zero value is the protocol's "not set" sentinel.
#[derive(Clone, Copy, Debug, PartialEq, Eq, Structural)]
pub struct SntpTimestamp {
    value: u128,
}

impl View for SntpTimestamp {
    type V = int;

    closed spec fn view(&self) -> int {
        self.value as int
    }
}

impl SntpTimestamp {
    /// Every timestamp fits two eras of the 64-bit wire format.
    #[verifier::type_invariant]
    pub closed spec fn wf(self) -> bool {
        self.value < 0x2_0000_0000_0000_0000
    }

    /// The sentinel meaning "not set", distinct from any decoded instant.
    pub fn zero() -> (r: SntpTimestamp)
        ensures
            r@ == 0,
    {
        SntpTimestamp { value: 0 }
    }

    /// True only for the "not set" sentinel.
    pub fn is_zero(&self) -> (r: bool)
        ensures
            r == (self@ == 0),
    {
        self.value == 0
    }

    /// The timestamp of the wall-clock instant `seconds`/`nanoseconds` after
    /// the Unix epoch.
    pub fn from_unix_time(seconds: u64, nanoseconds: u32) -> (r: SntpTimestamp)
        requires
            seconds <= MAX_UNIX_SECONDS,
            nanoseconds < 1_000_000_000,
        ensures
            r@ == spec_timestamp_from_unix(seconds as int, nanoseconds as int),
    {
        let ntp_seconds: u128 = seconds as u128 + NTP_UNIX_OFFSET as u128;
        proof {
            assert((nanoseconds as int) * (FRAC_SCALE as int) < 0x1_0000_0000_0000_0000)
                by (nonlinear_arith)
                requires
                    nanoseconds < 1_000_000_000,
            ;
        }
        let frac: u128 = (nanoseconds as u128 * 0x1_0000_0000u128) / 1_000_000_000;
        proof {
            assert(frac < FRAC_SCALE) by {
                vstd::arithmetic::div_mod::lemma_div_is_ordered(
                    nanoseconds as int * FRAC_SCALE as int,
                    999_999_999 * FRAC_SCALE as int,
                    1_000_000_000,
                );
            };
        }
        proof {
            assert((ntp_seconds as int) * (FRAC_SCALE as int) + frac < 0x2_0000_0000_0000_0000)
                by (nonlinear_arith)
                requires
                    ntp_seconds <= 0x1_FFFF_FFFFu64,
                    frac < FRAC_SCALE,
            ;
        }
        SntpTimestamp { value: ntp_seconds * FRAC_SCALE as u128 + frac }
    }

    /// The timestamp of a wall-clock instant. An instant before the Unix
    /// epoch is treated as the epoch itself, and one past the largest
    /// encodable second count is clamped to that maximum; both lie far
    /// outside any clock this protocol can synchronize against.
    pub fn from_systemtime(system_time: std::time::SystemTime) -> (r: SntpTimestamp)
        ensures
            r@ >= (NTP_UNIX_OFFSET as int) * (FRAC_SCALE as int),
            r@ > 0,
    {
        let parts: (u64, u32) = crate::wall_clock::system_time_to_unix(&system_time);
        let seconds: u64 = if parts.0 > MAX_UNIX_SECONDS {
            MAX_UNIX_SECONDS
        } else {
            parts.0
        };
        let r = SntpTimestamp::from_unix_time(seconds, parts.1);
        proof {
            let f = (parts.1 as int) * (FRAC_SCALE as int) / 1_000_000_000;
            vstd::arithmetic::div_mod::lemma_div_is_ordered(
                0,
                (parts.1 as int) * (FRAC_SCALE as int),
                1_000_000_000,
            );
            assert(r@ == (seconds as int + NTP_UNIX_OFFSET as int) * (FRAC_SCALE as int) + f);
            assert((seconds as int + NTP_UNIX_OFFSET as int) * (FRAC_SCALE as int) >= (
            NTP_UNIX_OFFSET as int) * (FRAC_SCALE as int));
        }
        r
    }

    /// The timestamp read from 8 wire bytes, with the era disambiguated by
    /// the top bit of the raw 64-bit value.
    pub fn from_bytes(bytes: [u8; 8]) -> (r: SntpTimestamp)
        ensures
            r@ == spec_timestamp_from_bytes(bytes@),
    {
        let raw: u64 = u64_from_be_bytes(&bytes);
        if raw < 0x8000_0000_0000_0000 {
            SntpTimestamp { value: raw as u128 + 0x1_0000_0000_0000_0000 }
        } else {
            SntpTimestamp { value: raw as u128 }
        }
    }

    /// The 8 wire bytes of this timestamp; the era bit is dropped, so a
    /// timestamp from the later era is written with its top bit clear.
    pub fn to_bytes(self) -> (r: [u8; 8])
        ensures
            r@ == spec_u64_to_be_bytes(spec_timestamp_low64(self@)),
    {
        proof {
            use_type_invariant(self);
        }
        let low: u64 = if self.value < 0x1_0000_0000_0000_0000 {
            self.value as u64
        } else {
            ((self.value - 0x1_0000_0000_0000_0000) % 0x8000_0000_0000_0000) as u64
        };
        u64_to_be_bytes(low)
    }

    /// The signed difference `self - rhs` as an exact fixed-point duration.
    /// The magnitude always stays below 2^65 units: both operands fit two
    /// eras of the wire format.
    pub fn sub(self, rhs: SntpTimestamp) -> (d: SntpDuration)
        ensures
            d@ == self@ - rhs@,
            -0x2_0000_0000_0000_0000 < d@ < 0x2_0000_0000_0000_0000,
    {
        proof {
            use_type_invariant(self);
            use_type_invariant(rhs);
        }
        if self.value >= rhs.value {
            SntpDuration::from_fixed_point((self.value - rhs.value) as i128)
        } else {
            let magnitude: i128 = (rhs.value - self.value) as i128;
            SntpDuration::from_fixed_point(-magnitude)
        }
    }
}

/// Two timestamps are equal exactly when their widened values are equal:
/// the value is all a timestamp holds.
pub proof fn lemma_timestamp_eq(a: SntpTimestamp, b: SntpTimestamp)
    ensures
        (a == b) <==> (a@ == b@),
{
}

/// One digit of a big-endian decomposition: when `x` splits into digits above,
/// the digit `b` at weight `d`, and a remainder below, dividing by the weight
/// and reducing modulo 0x100 recovers the digit.
proof fn lemma_be_digit(x: int, d: int, hi: int, b: int, lo: int)
    requires
        0 < d,
        0 <= lo < d,
        0 <= b < 0x100,
        0 <= hi,
        x == hi * (d * 0x100) + b * d + lo,
    ensures
        x / d % 0x100 == b,
{
    assert(x == (hi * 0x100 + b) * d + lo) by (nonlinear_arith)
        requires
            x == hi * (d * 0x100) + b * d + lo,
    ;
    vstd::arithmetic::div_mod::lemma_fundamental_div_mod_converse(x, d, hi * 0x100 + b, lo);
    vstd::arithmetic::div_mod::lemma_mod_multiples_vanish(hi, b, 0x100);
    vstd::arithmetic::div_mod::lemma_small_mod(b as nat, 0x100);
}

/// Writing a 64-bit value back to bytes undoes reading it from bytes.
#[verifier::rlimit(50)]
pub proof fn lemma_u64_be_bytes_round_trip(s: Seq<u8>)
    requires
        s.len() == 8,
    ensures
        spec_u64_to_be_bytes(spec_u64_from_be_bytes(s)) == s,
{
    let x = spec_u64_from_be_bytes(s);
    let b0 = s[0] as int;
    let b1 = s[1] as int;
    let b2 = s[2] as int;
    let b3 = s[3] as int;
    let b4 = s[4] as int;
    let b5 = s[5] as int;
    let b6 = s[6] as int;
    let b7 = s[7] as int;
    lemma_be_digit(x, 0x100_0000_0000_0000, 0, b0,
        b1 * 0x1_0000_0000_0000 + b2 * 0x100_0000_0000 + b3 * 0x1_0000_0000 + b4 * 0x100_0000 + b5
        * 0x1_0000 + b6 * 0x100 + b7);
    lemma_be_digit(x, 0x1_0000_0000_0000, b0, b1,
        b2 * 0x100_0000_0000 + b3 * 0x1_0000_0000 + b4 * 0x100_0000 + b5 * 0x1_0000 + b6 * 0x100
        + b7);
    lemma_be_digit(x, 0x100_0000_0000, b0 * 0x100 + b1, b2,
        b3 * 0x1_0000_0000 + b4 * 0x100_0000 + b5 * 0x1_0000 + b6 * 0x100 + b7);
    lemma_be_digit(x, 0x1_0000_0000, b0 * 0x1_0000 + b1 * 0x100 + b2, b3,
        b4 * 0x100_0000 + b5 * 0x1_0000 + b6 * 0x100 + b7);
    lemma_be_digit(x, 0x100_0000, b0 * 0x100_0000 + b1 * 0x1_0000 + b2 * 0x100 + b3, b4,
        b5 * 0x1_0000 + b6 * 0x100 + b7);
    lemma_be_digit(x, 0x1_0000, b0 * 0x1_0000_0000 + b1 * 0x100_0000 + b2 * 0x1_0000 + b3 * 0x100
        + b4, b5, b6 * 0x100 + b7);
    lemma_be_digit(x, 0x100, b0 * 0x100_0000_0000 + b1 * 0x1_0000_0000 + b2 * 0x100_0000 + b3
        * 0x1_0000 + b4 * 0x100 + b5, b6, b7);
    vstd::arithmetic::div_mod::lemma_fundamental_div_mod_converse(x, 0x100,
        b0 * 0x1_0000_0000_0000 + b1 * 0x100_0000_0000 + b2 * 0x1_0000_0000 + b3 * 0x100_0000 + b4
        * 0x1_0000 + b5 * 0x100 + b6, b7);
    assert(spec_u64_to_be_bytes(x) =~= s);
}

/// Decoding a timestamp from 8 bytes and encoding it again reproduces the
/// bytes exactly, whichever era the raw top bit selects.
pub proof fn lemma_timestamp_round_trip(bytes: Seq<u8>)
    requires
        bytes.len() == 8,
    ensures
        spec_u64_to_be_bytes(spec_timestamp_low64(spec_timestamp_from_bytes(bytes))) == bytes,
{
    let raw = spec_u64_from_be_bytes(bytes);
    let v = spec_timestamp_from_bytes(bytes);
    if raw < 0x8000_0000_0000_0000 {
        assert(v - 0x1_0000_0000_0000_0000 == raw);
        vstd::arithmetic::div_mod::lemma_small_mod(raw as nat, 0x8000_0000_0000_0000);
    }
    assert(spec_timestamp_low64(v) == raw);
    lemma_u64_be_bytes_round_trip(bytes);
}

/// Era correctness: bytes whose top bit is set decode to an instant whose
/// whole-second count (seconds since 1900-01-01) lies in [2^31, 2^32) —
/// the years 1968 to 2036 — while bytes whose top bit is clear decode into
/// [2^32, 2^32 + 2^31), the years 2036 to 2104.
pub proof fn lemma_era_disambiguation(bytes: Seq<u8>)
    requires
        bytes.len() == 8,
    ensures
        bytes[0] >= 0x80 ==> 0x8000_0000 <= spec_timestamp_from_bytes(bytes) / (
        FRAC_SCALE as int) < 0x1_0000_0000,
        bytes[0] < 0x80 ==> 0x1_0000_0000 <= spec_timestamp_from_bytes(bytes) / (
        FRAC_SCALE as int) < 0x1_8000_0000,
{
    let raw = spec_u64_from_be_bytes(bytes);
    let v = spec_timestamp_from_bytes(bytes);
    let sc = FRAC_SCALE as int;
    assert(raw >= 0x8000_0000_0000_0000 <==> bytes[0] >= 0x80);
    if bytes[0] >= 0x80 {
        vstd::arithmetic::div_mod::lemma_div_is_ordered(0x8000_0000_0000_0000, v, sc);
        vstd::arithmetic::div_mod::lemma_div_is_ordered(v, 0xffff_ffff_ffff_ffff, sc);
    } else {
        vstd::arithmetic::div_mod::lemma_div_is_ordered(0x1_0000_0000_0000_0000, v, sc);
        vstd::arithmetic::div_mod::lemma_div_is_ordered(v, 0x1_7fff_ffff_ffff_ffff, sc);
    }
}

/// Subtraction is antisymmetric: the duration `a - b` is exactly the
/// negation of the duration `b - a`.
pub proof fn lemma_sub_antisymmetric(a: SntpTimestamp, b: SntpTimestamp)
    ensures
        a@ - b@ == -(b@ - a@),
{
}

/// The difference of two timestamps built from wall-clock readings matches
/// the wall-clock delta to within one fixed-point unit (2^-32 s): scaled by
/// 10^9 nanoseconds, the two sides differ by less than one unit's worth.
pub proof fn lemma_sub_matches_wall_clock(sa: int, na: int, sb: int, nb: int)
    requires
        0 <= sa <= MAX_UNIX_SECONDS,
        0 <= na < 1_000_000_000,
        0 <= sb <= MAX_UNIX_SECONDS,
        0 <= nb < 1_000_000_000,
    ensures
        -1_000_000_000 < (spec_timestamp_from_unix(sa, na) - spec_timestamp_from_unix(sb, nb))
            * 1_000_000_000 - ((sa - sb) * 1_000_000_000 + (na - nb)) * (FRAC_SCALE as int)
            < 1_000_000_000,
{
    let sc = FRAC_SCALE as int;
    let fa = na * sc / 1_000_000_000;
    let fb = nb * sc / 1_000_000_000;
    let ra = na * sc % 1_000_000_000;
    let rb = nb * sc % 1_000_000_000;
    vstd::arithmetic::div_mod::lemma_fundamental_div_mod(na * sc, 1_000_000_000);
    vstd::arithmetic::div_mod::lemma_fundamental_div_mod(nb * sc, 1_000_000_000);
    vstd::arithmetic::div_mod::lemma_mod_bound(na * sc, 1_000_000_000);
    vstd::arithmetic::div_mod::lemma_mod_bound(nb * sc, 1_000_000_000);
    assert((spec_timestamp_from_unix(sa, na) - spec_timestamp_from_unix(sb, nb)) * 1_000_000_000
        - ((sa - sb) * 1_000_000_000 + (na - nb)) * sc == rb - ra) by (nonlinear_arith)
        requires
            na * sc == 1_000_000_000 * fa + ra,
            nb * sc == 1_000_000_000 * fb + rb,
            spec_timestamp_from_unix(sa, na) == (sa + NTP_UNIX_OFFSET) * sc + fa,
            spec_timestamp_from_unix(sb, nb) == (sb + NTP_UNIX_OFFSET) * sc + fb,
    ;
}

/// Warning of an impending leap second to be inserted or deleted in the
/// last minute of the current day.
///
/// The warning is set before 23:59 on the day of insertion and reset after
/// 00:00 on the following day, so the day of insertion has one second more
/// or less than usual.
#[derive(Clone, Copy, Debug, Eq, PartialEq, Hash, Structural)]
pub enum LeapIndicator {
    /// No warning, i.e. no leap second
    NoWarning,
    /// The last minute of the day has 61 seconds
    LastMinuteHas61Seconds,
    /// The last minute of the day has 59 seconds
    LastMinuteHas59Seconds,
    /// Alarm condition, the clock is not synchronized
    AlarmCondition,
}

/// The leap indicator named by a 2-bit wire value. The wire values 1 and 2
/// are deliberately not in declaration order: 1 means a 59-second last
/// minute and 2 a 61-second one.
pub open spec fn spec_leap_indicator_from(raw: u8) -> Result<LeapIndicator, ProtocolError> {
    if raw == 0 {
        Ok(LeapIndicator::NoWarning)
    } else if raw == 1 {
        Ok(LeapIndicator::LastMinuteHas59Seconds)
    } else if raw == 2 {
        Ok(LeapIndicator::LastMinuteHas61Seconds)
    } else if raw == 3 {
        Ok(LeapIndicator::AlarmCondition)
    } else {
        Err(ProtocolError::InvalidLeapIndicator)
    }
}

/// The 2-bit wire value of a leap indicator.
pub open spec fn spec_leap_indicator_to_u8(li: LeapIndicator) -> u8 {
    match li {
        LeapIndicator::NoWarning => 0,
        LeapIndicator::LastMinuteHas59Seconds => 1,
        LeapIndicator::LastMinuteHas61Seconds => 2,
        LeapIndicator::AlarmCondition => 3,
    }
}

impl LeapIndicator {
    /// The leap indicator named by a raw wire value.
    pub fn from_u8(raw: u8) -> (r: Result<LeapIndicator, ProtocolError>)
        ensures
            r == spec_leap_indicator_from(raw),
    {
        match raw {
            0 => Ok(LeapIndicator::NoWarning),
            1 => Ok(LeapIndicator::LastMinuteHas59Seconds),
            2 => Ok(LeapIndicator::LastMinuteHas61Seconds),
            3 => Ok(LeapIndicator::AlarmCondition),
            _ => Err(ProtocolError::InvalidLeapIndicator),
        }
    }

    /// The wire value of this leap indicator.
    pub fn to_u8(self) -> (r: u8)
        ensures
            r == spec_leap_indicator_to_u8(self),
    {
        match self {
            LeapIndicator::NoWarning => 0,
            LeapIndicator::LastMinuteHas59Seconds => 1,
            LeapIndicator::LastMinuteHas61Seconds => 2,
            LeapIndicator::AlarmCondition => 3,
        }
    }
}

/// The association mode carried in a packet's first byte. A client sends
/// mode 3; a valid reply arrives in mode 4 (server) or 5 (broadcast).
#[derive(Clone, Copy, Debug, Eq, PartialEq, Hash, Structural)]
pub enum Mode {
    Client,
    Server,
    Broadcast,
}

/// The mode named by a 3-bit wire value; only 3, 4 and 5 are accepted.
pub open spec fn spec_mode_from(raw: u8) -> Result<Mode, ProtocolError> {
    if raw == 3 {
        Ok(Mode::Client)
    } else if raw == 4 {
        Ok(Mode::Server)
    } else if raw == 5 {
        Ok(Mode::Broadcast)
    } else {
        Err(ProtocolError::InvalidMode)
    }
}

/// The 3-bit wire value of a mode.
pub open spec fn spec_mode_to_u8(m: Mode) -> u8 {
    match m {
        Mode::Client => 3,
        Mode::Server => 4,
        Mode::Broadcast => 5,
    }
}

impl Mode {
    /// The mode named by a raw wire value.
    pub fn from_u8(raw: u8) -> (r: Result<Mode, ProtocolError>)
        ensures
            r == spec_mode_from(raw),
    {
        match raw {
            3 => Ok(Mode::Client),
            4 => Ok(Mode::Server),
            5 => Ok(Mode::Broadcast),
            _ => Err(ProtocolError::InvalidMode),
        }
    }

    /// The wire value of this mode.
    pub fn to_u8(self) -> (r: u8)
        ensures
            r == spec_mode_to_u8(self),
    {
        match self {
            Mode::Client => 3,
            Mode::Server => 4,
            Mode::Broadcast => 5,
        }
    }
}

/// Which address family the server's socket address belongs to. Decoding a
/// reply needs this: for stratum 2 and above, the reference identifier field
/// is an IPv4 address when the reply came over IPv4 and an IPv6 hash
/// otherwise.
#[derive(Clone, Copy, Debug, Eq, PartialEq, Hash, Structural)]
pub enum AddressFamily {
    V4,
    V6,
}

/// Bytes with trailing NUL padding removed: short identifiers like "GPS"
/// are NUL-padded to 4 bytes on the wire.
pub open spec fn spec_trim_nuls(s: Seq<u8>) -> Seq<u8>
    decreases s.len(),
{
    if s.len() > 0 && s[s.len() - 1] == 0 {
        spec_trim_nuls(s.drop_last())
    } else {
        s
    }
}

/// ASCII bytes read as characters, one character per byte.
pub open spec fn spec_ascii_chars(s: Seq<u8>) -> Seq<char> {
    s.map_values(|b: u8| b as char)
}

/// Relies on String::from_utf8: ASCII bytes are valid UTF-8 and decode to
/// one character per byte, each with the byte's code point.
#[verifier::external_body]
fn string_from_ascii(bytes: Vec<u8>) -> (r: String)
    requires
        forall|i: int| 0 <= i < bytes@.len() ==> bytes@[i] < 0x80,
    ensures
        r@ == spec_ascii_chars(bytes@),
{
    String::from_utf8(bytes).unwrap_or_default()
}

/// Identifies the particular reference source of a server.
///
/// * For primary servers, a four-character ASCII string (RFC 5905,
///   section 7.3 lists the possible values).
/// * For IPv4 secondary servers, the IPv4 address of the synchronization
///   source.
/// * For IPv6 secondary servers, the first 32 bits of the MD5 hash of the
///   IPv6 address of the synchronization source.
#[derive(Clone, Debug, Hash)]
pub enum ReferenceIdentifier {
    /// No reference identifier; carried only by outgoing request packets.
    Empty,
    /// ASCII string identifying a primary server
    ASCII(String),
    /// IPv4 address octets, identifying an IPv4 secondary server
    IpAddress([u8; 4]),
    /// MD5 hash of an IPv6 address, identifying an IPv6 server
    MD5Hash(u32),
}

impl PartialEq for ReferenceIdentifier {
    fn eq(&self, other: &ReferenceIdentifier) -> (r: bool) {
        match (self, other) {
            (ReferenceIdentifier::Empty, ReferenceIdentifier::Empty) => true,
            (ReferenceIdentifier::ASCII(a), ReferenceIdentifier::ASCII(b)) => a.eq(b),
            (ReferenceIdentifier::IpAddress(a), ReferenceIdentifier::IpAddress(b)) => {
                let same: bool = a[0] == b[0] && a[1] == b[1] && a[2] == b[2] && a[3] == b[3];
                proof {
                    if same {
                        assert(a@ =~= b@);
                    }
                }
                same
            },
            (ReferenceIdentifier::MD5Hash(a), ReferenceIdentifier::MD5Hash(b)) => a == b,
            _ => false,
        }
    }
}

impl vstd::std_specs::cmp::PartialEqSpecImpl for ReferenceIdentifier {
    open spec fn obeys_eq_spec() -> bool {
        true
    }

    open spec fn eq_spec(&self, other: &ReferenceIdentifier) -> bool {
        match (self, other) {
            (ReferenceIdentifier::Empty, ReferenceIdentifier::Empty) => true,
            (ReferenceIdentifier::ASCII(a), ReferenceIdentifier::ASCII(b)) => a@ == b@,
            (ReferenceIdentifier::IpAddress(a), ReferenceIdentifier::IpAddress(b)) => a@ == b@,
            (ReferenceIdentifier::MD5Hash(a), ReferenceIdentifier::MD5Hash(b)) => a == b,
            _ => false,
        }
    }
}

/// The value of 4 big-endian bytes.
pub open spec fn spec_u32_from_be_bytes(s: Seq<u8>) -> int
    recommends
        s.len() == 4,
{
    s[0] * 0x100_0000 + s[1] * 0x1_0000 + s[2] * 0x100 + s[3]
}

impl ReferenceIdentifier {
    /// The ASCII identifier carried by 4 raw bytes: rejected when any byte
    /// is not ASCII, and trailing NUL padding is trimmed otherwise.
    pub fn new_ascii(raw: [u8; 4]) -> (r: Result<ReferenceIdentifier, ProtocolError>)
        ensures
            r is Ok <==> (forall|i: int| 0 <= i < 4 ==> raw@[i] < 0x80),
            r is Err ==> r == Err::<ReferenceIdentifier, ProtocolError>(
                ProtocolError::InvalidReferenceIdentifier,
            ),
            r is Ok ==> (r.unwrap() matches ReferenceIdentifier::ASCII(s) && s@
                == spec_ascii_chars(spec_trim_nuls(raw@))),
    {
        if raw[0] >= 0x80 || raw[1] >= 0x80 || raw[2] >= 0x80 || raw[3] >= 0x80 {
            return Err(ProtocolError::InvalidReferenceIdentifier);
        }
        let len: usize = if raw[3] != 0 {
            4
        } else if raw[2] != 0 {
            3
        } else if raw[1] != 0 {
            2
        } else if raw[0] != 0 {
            1
        } else {
            0
        };
        let mut trimmed: Vec<u8> = Vec::new();
        let mut i: usize = 0;
        while i < len
            invariant
                i <= len <= 4,
                trimmed@ =~= raw@.subrange(0, i as int),
                forall|j: int| 0 <= j < 4 ==> raw@[j] < 0x80,
            decreases len - i,
        {
            trimmed.push(raw[i]);
            i = i + 1;
        }
        proof {
            lemma_trim_nuls_of_explicit_len(raw@, len as int);
        }
        Ok(ReferenceIdentifier::ASCII(string_from_ascii(trimmed)))
    }

    /// The identifier of an IPv4 secondary server: the 4 raw bytes are its
    /// address octets.
    pub fn new_ipv4_address(raw: [u8; 4]) -> (r: Result<ReferenceIdentifier, ProtocolError>)
        ensures
            r == Ok::<ReferenceIdentifier, ProtocolError>(ReferenceIdentifier::IpAddress(raw)),
    {
        Ok(ReferenceIdentifier::IpAddress(raw))
    }

    /// The identifier of an IPv6 secondary server: the 4 raw bytes are the
    /// leading 32 bits of an MD5 hash, read big-endian.
    pub fn new_ipv6_hash(raw: [u8; 4]) -> (r: Result<ReferenceIdentifier, ProtocolError>)
        ensures
            r matches Ok(id) && id matches ReferenceIdentifier::MD5Hash(h) && h
                == spec_u32_from_be_bytes(raw@),
    {
        let hash: u32 = raw[0] as u32 * 0x100_0000 + raw[1] as u32 * 0x1_0000 + raw[2] as u32
            * 0x100 + raw[3] as u32;
        Ok(ReferenceIdentifier::MD5Hash(hash))
    }

    /// True only for the `Empty` variant carried by outgoing requests.
    pub fn is_empty(&self) -> (r: bool)
        ensures
            r == (self matches ReferenceIdentifier::Empty),
    {
        match self {
            ReferenceIdentifier::Empty => true,
            _ => false,
        }
    }
}

/// The ASCII bytes of a byte value written in decimal, without leading
/// zeros.
pub open spec fn spec_dec_bytes(n: int) -> Seq<u8>
    recommends
        0 <= n < 256,
{
    if n < 10 {
        seq![(48 + n) as u8]
    } else if n < 100 {
        seq![(48 + n / 10) as u8, (48 + n % 10) as u8]
    } else {
        seq![(48 + n / 100) as u8, (48 + n / 10 % 10) as u8, (48 + n % 10) as u8]
    }
}

/// The ASCII bytes of a positive value written in uppercase hexadecimal,
/// most significant digit first; zero gives the empty sequence.
pub open spec fn spec_hex_bytes_rec(n: int) -> Seq<u8>
    decreases n,
{
    if n <= 0 {
        Seq::empty()
    } else {
        spec_hex_bytes_rec(n / 16).push(spec_hex_digit_byte(n % 16))
    }
}

/// The ASCII byte of one uppercase hexadecimal digit.
pub open spec fn spec_hex_digit_byte(d: int) -> u8
    recommends
        0 <= d < 16,
{
    if d < 10 {
        (48 + d) as u8
    } else {
        (55 + d) as u8
    }
}

/// The ASCII bytes of a value written in uppercase hexadecimal, without
/// leading zeros; zero is written as one digit.
pub open spec fn spec_hex_bytes(n: int) -> Seq<u8> {
    if n == 0 {
        seq![48u8]
    } else {
        spec_hex_bytes_rec(n)
    }
}

/// How a reference identifier renders as text: the ASCII variant as its
/// string, an IPv4 address in dotted decimal, a hash as `0x` and uppercase
/// hexadecimal digits, and the empty variant as the empty string.
pub open spec fn spec_display_chars(id: ReferenceIdentifier) -> Seq<char> {
    match id {
        ReferenceIdentifier::Empty => Seq::empty(),
        ReferenceIdentifier::ASCII(s) => s@,
        ReferenceIdentifier::IpAddress(a) => spec_ascii_chars(
            spec_dec_bytes(a[0] as int) + seq![46u8] + spec_dec_bytes(a[1] as int) + seq![46u8]
                + spec_dec_bytes(a[2] as int) + seq![46u8] + spec_dec_bytes(a[3] as int),
        ),
        ReferenceIdentifier::MD5Hash(h) => spec_ascii_chars(
            seq![48u8, 120u8] + spec_hex_bytes(h as int),
        ),
    }
}

/// Appends the decimal digits of one address octet.
fn push_dec_octet(out: &mut Vec<u8>, n: u8)
    ensures
        final(out)@ == old(out)@ + spec_dec_bytes(n as int),
{
    if n >= 100 {
        out.push(48 + n / 100);
    }
    if n >= 10 {
        out.push(48 + (n / 10) % 10);
    }
    out.push(48 + n % 10);
    proof {
        assert(out@ =~= old(out)@ + spec_dec_bytes(n as int));
    }
}

/// Appends the uppercase hexadecimal digits of a hash value, without
/// leading zeros; zero is written as one digit.
fn push_hex_u32(out: &mut Vec<u8>, n: u32)
    ensures
        final(out)@ == old(out)@ + spec_hex_bytes(n as int),
{
    if n == 0 {
        out.push(48);
        proof {
            assert(out@ =~= old(out)@ + spec_hex_bytes(0));
        }
        return ;
    }
    let mut digits: Vec<u8> = Vec::new();
    let mut m: u32 = n;
    while m > 0
        invariant
            spec_hex_bytes_rec(n as int) =~= spec_hex_bytes_rec(m as int) + digits@.reverse(),
        decreases m,
    {
        let ghost old_digits = digits@;
        let ghost old_m = m;
        let d: u32 = m % 16;
        let b: u8 = if d < 10 {
            48 + d as u8
        } else {
            55 + d as u8
        };
        digits.push(b);
        m = m / 16;
        proof {
            assert(digits@.reverse() =~= seq![b] + old_digits.reverse());
            assert(spec_hex_bytes_rec(old_m as int) == spec_hex_bytes_rec(m as int).push(b));
            assert(spec_hex_bytes_rec(n as int) =~= spec_hex_bytes_rec(m as int)
                + digits@.reverse());
        }
    }
    assert(spec_hex_bytes_rec(n as int) =~= digits@.reverse());
    let len: usize = digits.len();
    let mut j: usize = 0;
    while j < len
        invariant
            len == digits@.len(),
            j <= len,
            out@ =~= old(out)@ + digits@.reverse().take(j as int),
        decreases len - j,
    {
        out.push(digits[len - 1 - j]);
        j = j + 1;
        proof {
            assert(out@ =~= old(out)@ + digits@.reverse().take(j as int));
        }
    }
    proof {
        assert(digits@.reverse().take(len as int) =~= digits@.reverse());
        assert(out@ =~= old(out)@ + spec_hex_bytes(n as int));
    }
}

impl ReferenceIdentifier {
    /// The identifier rendered as text, as `spec_display_chars` describes.
    pub fn display_string(&self) -> (r: String)
        ensures
            r@ == spec_display_chars(*self),
    {
        match self {
            ReferenceIdentifier::Empty => String::new(),
            ReferenceIdentifier::ASCII(s) => s.clone(),
            ReferenceIdentifier::IpAddress(a) => {
                let mut bytes: Vec<u8> = Vec::new();
                push_dec_octet(&mut bytes, a[0]);
                bytes.push(46);
                push_dec_octet(&mut bytes, a[1]);
                bytes.push(46);
                push_dec_octet(&mut bytes, a[2]);
                bytes.push(46);
                push_dec_octet(&mut bytes, a[3]);
                proof {
                    assert(bytes@ =~= spec_dec_bytes(a@[0] as int) + seq![46u8] + spec_dec_bytes(
                        a@[1] as int,
                    ) + seq![46u8] + spec_dec_bytes(a@[2] as int) + seq![46u8] + spec_dec_bytes(
                        a@[3] as int,
                    ));
                }
                string_from_ascii(bytes)
            },
            ReferenceIdentifier::MD5Hash(h) => {
                let mut bytes: Vec<u8> = Vec::new();
                bytes.push(48);
                bytes.push(120);
                push_hex_u32(&mut bytes, *h);
                proof {
                    assert(bytes@ =~= seq![48u8, 120u8] + spec_hex_bytes(*h as int));
                    lemma_hex_bytes_ascii(*h as int);
                }
                string_from_ascii(bytes)
            },
        }
    }
}

/// Every byte of a rendered hexadecimal value is ASCII.
proof fn lemma_hex_bytes_ascii(n: int)
    requires
        n >= 0,
    ensures
        forall|i: int| 0 <= i < spec_hex_bytes(n).len() ==> spec_hex_bytes(n)[i] < 0x80,
{
    lemma_hex_bytes_rec_ascii(n);
}

/// Every byte of the bare hexadecimal digit sequence is ASCII.
proof fn lemma_hex_bytes_rec_ascii(n: int)
    requires
        n >= 0,
    ensures
        forall|i: int| 0 <= i < spec_hex_bytes_rec(n).len() ==> spec_hex_bytes_rec(n)[i] < 0x80,
    decreases n,
{
    if n > 0 {
        lemma_hex_bytes_rec_ascii(n / 16);
        let s = spec_hex_bytes_rec(n / 16);
        let b = spec_hex_digit_byte(n % 16);
        assert(b < 0x80);
        assert forall|i: int| 0 <= i < spec_hex_bytes_rec(n).len() implies spec_hex_bytes_rec(n)[i]
            < 0x80 by {
            if i < s.len() {
                assert(spec_hex_bytes_rec(n)[i] == s[i]);
            } else {
                assert(spec_hex_bytes_rec(n)[i] == b);
            }
        }
    }
}

/// An explicit last-nonzero index computes the same prefix as trimming
/// trailing NULs.
proof fn lemma_trim_nuls_of_explicit_len(s: Seq<u8>, len: int)
    requires
        s.len() == 4,
        0 <= len <= 4,
        forall|j: int| len <= j < 4 ==> s[j] == 0,
        len > 0 ==> s[len - 1] != 0,
    ensures
        spec_trim_nuls(s) == s.subrange(0, len),
    decreases 4 - len,
{
    if len == 4 {
        assert(s.subrange(0, 4) =~= s);
    } else {
        // s ends in a NUL, so trimming drops the last byte first.
        assert(s[s.len() - 1] == 0);
        let shorter = s.drop_last();
        // Recurse on the 3-byte prefix via the same argument, unrolled:
        // spec_trim_nuls walks back over the NUL tail one byte at a time.
        lemma_trim_nuls_shorter(s, len);
    }
}

/// Trimming a sequence that ends in NULs down to its last nonzero byte.
proof fn lemma_trim_nuls_shorter(s: Seq<u8>, len: int)
    requires
        0 <= len < s.len(),
        forall|j: int| len <= j < s.len() ==> s[j] == 0,
        len > 0 ==> s[len - 1] != 0,
    ensures
        spec_trim_nuls(s) == s.subrange(0, len),
    decreases s.len(),
{
    assert(s[s.len() - 1] == 0);
    let shorter = s.drop_last();
    assert(shorter =~= s.subrange(0, s.len() - 1));
    if len == s.len() - 1 {
        assert(spec_trim_nuls(shorter) == shorter) by {
            if shorter.len() > 0 {
                assert(shorter[shorter.len() - 1] == s[len - 1]);
            }
        };
        assert(s.subrange(0, len) =~= shorter);
    } else {
        lemma_trim_nuls_shorter(shorter, len);
        assert(shorter.subrange(0, len) =~= s.subrange(0, len));
    }
}

/// The raw leap-indicator bits of a packet's first byte (bits 6-7).
pub open spec fn spec_li_raw(b: u8) -> u8 {
    b / 64
}

/// The protocol version in a packet's first byte (bits 3-5).
pub open spec fn spec_version_of(b: u8) -> u8 {
    b / 8 % 8
}

/// The raw mode bits of a packet's first byte (bits 0-2).
pub open spec fn spec_mode_raw(b: u8) -> u8 {
    b % 8
}

/// Whether all four reference-identifier bytes are ASCII.
pub open spec fn spec_ref_id_ascii(b: Seq<u8>) -> bool {
    forall|i: int| 0 <= i < b.len() ==> b[i] < 0x80
}

/// The error, if any, that decoding a reply must end with: too few bytes,
/// a version other than 4, an out-of-range leap indicator or mode, or a
/// non-ASCII reference identifier on a packet whose stratum says it must be
/// ASCII. The checks apply in exactly this order.
pub open spec fn spec_decode_error(data: Seq<u8>, family: AddressFamily) -> Option<ProtocolError> {
    if data.len() < 48 {
        Some(ProtocolError::PacketIsTooShort)
    } else if spec_version_of(data[0]) != 4 {
        Some(ProtocolError::InvalidPacketVersion)
    } else if spec_leap_indicator_from(spec_li_raw(data[0])) is Err {
        Some(ProtocolError::InvalidLeapIndicator)
    } else if spec_mode_from(spec_mode_raw(data[0])) is Err {
        Some(ProtocolError::InvalidMode)
    } else if (data[1] == 0 || data[1] == 1) && !spec_ref_id_ascii(data.subrange(12, 16)) {
        Some(ProtocolError::InvalidReferenceIdentifier)
    } else {
        None
    }
}

/// How the decoded reference identifier relates to its 4 wire bytes: ASCII
/// for stratum 0 and 1, the IPv4 address for higher strata on an IPv4
/// socket, and an IPv6 hash otherwise.
pub open spec fn spec_ref_id_matches(
    b: Seq<u8>,
    stratum: u8,
    family: AddressFamily,
    id: ReferenceIdentifier,
) -> bool {
    if stratum == 0 || stratum == 1 {
        id matches ReferenceIdentifier::ASCII(s) && s@ == spec_ascii_chars(spec_trim_nuls(b))
    } else if family is V4 {
        id matches ReferenceIdentifier::IpAddress(a) && a@ == b
    } else {
        id matches ReferenceIdentifier::MD5Hash(h) && h == spec_u32_from_be_bytes(b)
    }
}

/// What every field of a successfully decoded packet holds, as a function
/// of the 48 wire bytes and the server's address family.
pub open spec fn spec_decoded_packet(data: Seq<u8>, family: AddressFamily, p: Packet) -> bool {
    &&& Ok::<LeapIndicator, ProtocolError>(p.li) == spec_leap_indicator_from(spec_li_raw(data[0]))
    &&& Ok::<Mode, ProtocolError>(p.mode) == spec_mode_from(spec_mode_raw(data[0]))
    &&& p.stratum == data[1]
    &&& spec_ref_id_matches(data.subrange(12, 16), data[1], family, p.reference_identifier)
    &&& p.reference_timestamp@ == spec_timestamp_from_bytes(data.subrange(16, 24))
    &&& p.originate_timestamp@ == spec_timestamp_from_bytes(data.subrange(24, 32))
    &&& p.receive_timestamp@ == spec_timestamp_from_bytes(data.subrange(32, 40))
    &&& p.transmit_timestamp@ == spec_timestamp_from_bytes(data.subrange(40, 48))
}

/// The first byte of an encoded packet: leap indicator in bits 6-7, version
/// 4 in bits 3-5 (the constant 0x20), mode in bits 0-2.
pub open spec fn spec_encode_byte0(p: Packet) -> u8 {
    (spec_leap_indicator_to_u8(p.li) * 64 + 0x20 + spec_mode_to_u8(p.mode)) as u8
}

/// The 48 bytes of an encoded request packet: the first byte packs leap
/// indicator, version and mode; the second is the stratum; bytes 2-15 are
/// zero (poll, precision, root delay, root dispersion and the empty
/// reference identifier); bytes 16-47 are the four timestamps.
pub open spec fn spec_encode(p: Packet) -> Seq<u8> {
    seq![
        spec_encode_byte0(p),
        p.stratum,
        0u8,
        0u8,
        0u8,
        0u8,
        0u8,
        0u8,
        0u8,
        0u8,
        0u8,
        0u8,
        0u8,
        0u8,
        0u8,
        0u8,
    ] + spec_u64_to_be_bytes(spec_timestamp_low64(p.reference_timestamp@)) + spec_u64_to_be_bytes(
        spec_timestamp_low64(p.originate_timestamp@),
    ) + spec_u64_to_be_bytes(spec_timestamp_low64(p.receive_timestamp@)) + spec_u64_to_be_bytes(
        spec_timestamp_low64(p.transmit_timestamp@),
    )
}

/// The immutable unit of exchange: the decoded fields of one 48-byte SNTP
/// packet. A request is a packet in client mode whose transmit timestamp is
/// "now" and whose other timestamps are zero; a reply is a packet decoded
/// from received bytes.
#[derive(Clone, Debug)]
pub struct Packet {
    pub li: LeapIndicator,
    pub mode: Mode,
    pub stratum: u8,
    pub reference_identifier: ReferenceIdentifier,
    pub reference_timestamp: SntpTimestamp,
    pub originate_timestamp: SntpTimestamp,
    pub receive_timestamp: SntpTimestamp,
    pub transmit_timestamp: SntpTimestamp,
}

impl Packet {
    /// The exact length of an encoded packet, in bytes.
    pub const ENCODED_LEN: usize = 48;

    /// Decodes a reply packet from raw bytes plus the address family of the
    /// socket address the reply arrived from (which settles how the
    /// reference-identifier field is read). Fails exactly as
    /// `spec_decode_error` says; on success every field is determined by
    /// `spec_decoded_packet`.
    pub fn from_bytes(data: &[u8], server_address_family: AddressFamily) -> (r: Result<
        Packet,
        ProtocolError,
    >)
        ensures
            r is Err <==> spec_decode_error(data@, server_address_family) is Some,
            r is Err ==> r == Err::<Packet, ProtocolError>(
                spec_decode_error(data@, server_address_family).unwrap(),
            ),
            r is Ok ==> spec_decoded_packet(data@, server_address_family, r.unwrap()),
    {
        if data.len() < 48 {
            return Err(ProtocolError::PacketIsTooShort);
        }
        let b0: u8 = data[0];
        let version: u8 = b0 / 8 % 8;
        if version != 4 {
            return Err(ProtocolError::InvalidPacketVersion);
        }
        let li: LeapIndicator = match LeapIndicator::from_u8(b0 / 64) {
            Ok(li) => li,
            Err(e) => {
                return Err(e);
            },
        };
        let mode: Mode = match Mode::from_u8(b0 % 8) {
            Ok(m) => m,
            Err(e) => {
                return Err(e);
            },
        };
        let stratum: u8 = data[1];
        let raw_reference_identifier: [u8; 4] = [data[12], data[13], data[14], data[15]];
        proof {
            assert(raw_reference_identifier@ =~= data@.subrange(12, 16));
        }
        let reference_identifier: ReferenceIdentifier = if stratum == 0 || stratum == 1 {
            match ReferenceIdentifier::new_ascii(raw_reference_identifier) {
                Ok(id) => id,
                Err(e) => {
                    return Err(e);
                },
            }
        } else if matches!(server_address_family, AddressFamily::V4) {
            match ReferenceIdentifier::new_ipv4_address(raw_reference_identifier) {
                Ok(id) => id,
                Err(e) => {
                    return Err(e);
                },
            }
        } else {
            match ReferenceIdentifier::new_ipv6_hash(raw_reference_identifier) {
                Ok(id) => id,
                Err(e) => {
                    return Err(e);
                },
            }
        };
        let reference_bytes: [u8; 8] = [
            data[16],
            data[17],
            data[18],
            data[19],
            data[20],
            data[21],
            data[22],
            data[23],
        ];
        let originate_bytes: [u8; 8] = [
            data[24],
            data[25],
            data[26],
            data[27],
            data[28],
            data[29],
            data[30],
            data[31],
        ];
        let receive_bytes: [u8; 8] = [
            data[32],
            data[33],
            data[34],
            data[35],
            data[36],
            data[37],
            data[38],
            data[39],
        ];
        let transmit_bytes: [u8; 8] = [
            data[40],
            data[41],
            data[42],
            data[43],
            data[44],
            data[45],
            data[46],
            data[47],
        ];
        proof {
            assert(reference_bytes@ =~= data@.subrange(16, 24));
            assert(originate_bytes@ =~= data@.subrange(24, 32));
            assert(receive_bytes@ =~= data@.subrange(32, 40));
            assert(transmit_bytes@ =~= data@.subrange(40, 48));
        }
        Ok(
            Packet {
                li,
                mode,
                stratum,
                reference_identifier,
                reference_timestamp: SntpTimestamp::from_bytes(reference_bytes),
                originate_timestamp: SntpTimestamp::from_bytes(originate_bytes),
                receive_timestamp: SntpTimestamp::from_bytes(receive_bytes),
                transmit_timestamp: SntpTimestamp::from_bytes(transmit_bytes),
            },
        )
    }

    /// Encodes a request packet into its 48 wire bytes. Only a packet whose
    /// reference identifier is `Empty` may be encoded: an outgoing request
    /// never carries one, and handing anything else here is a programming
    /// error, not a runtime error path.
    pub fn to_bytes(&self) -> (r: [u8; 48])
        requires
            self.reference_identifier matches ReferenceIdentifier::Empty,
        ensures
            r@ == spec_encode(*self),
    {
        let b0: u8 = self.li.to_u8() * 64 + 0x20 + self.mode.to_u8();
        let rt: [u8; 8] = self.reference_timestamp.to_bytes();
        let ot: [u8; 8] = self.originate_timestamp.to_bytes();
        let xt: [u8; 8] = self.receive_timestamp.to_bytes();
        let tt: [u8; 8] = self.transmit_timestamp.to_bytes();
        let out: [u8; 48] = [
            b0,
            self.stratum,
            0,
            0,
            0,
            0,
            0,
            0,
            0,
            0,
            0,
            0,
            0,
            0,
            0,
            0,
            rt[0],
            rt[1],
            rt[2],
            rt[3],
            rt[4],
            rt[5],
            rt[6],
            rt[7],
            ot[0],
            ot[1],
            ot[2],
            ot[3],
            ot[4],
            ot[5],
            ot[6],
            ot[7],
            xt[0],
            xt[1],
            xt[2],
            xt[3],
            xt[4],
            xt[5],
            xt[6],
            xt[7],
            tt[0],
            tt[1],
            tt[2],
            tt[3],
            tt[4],
            tt[5],
            tt[6],
            tt[7],
        ];
        proof {
            assert(out@ =~= spec_encode(*self));
        }
        out
    }
}

/// The value of 8 big-endian bytes.
pub fn u64_from_be_bytes(bytes: &[u8; 8]) -> (r: u64)
    ensures
        r == spec_u64_from_be_bytes(bytes@),
{
    bytes[0] as u64 * 0x100_0000_0000_0000 + bytes[1] as u64 * 0x1_0000_0000_0000 + bytes[2] as u64
        * 0x100_0000_0000 + bytes[3] as u64 * 0x1_0000_0000 + bytes[4] as u64 * 0x100_0000
        + bytes[5] as u64 * 0x1_0000 + bytes[6] as u64 * 0x100 + bytes[7] as u64
}

/// The 8 big-endian bytes of a 64-bit value.
pub fn u64_to_be_bytes(x: u64) -> (r: [u8; 8])
    ensures
        r@ == spec_u64_to_be_bytes(x as int),
{
    [
        (x / 0x100_0000_0000_0000 % 0x100) as u8,
        (x / 0x1_0000_0000_0000 % 0x100) as u8,
        (x / 0x100_0000_0000 % 0x100) as u8,
        (x / 0x1_0000_0000 % 0x100) as u8,
        (x / 0x100_0000 % 0x100) as u8,
        (x / 0x1_0000 % 0x100) as u8,
        (x / 0x100 % 0x100) as u8,
        (x % 0x100) as u8,
    ]
}

} // verus!
