//! NTP timestamps: byte-order correction of the seconds half and conversion
//! from seconds since 1900-01-01T00:00:00Z into calendar time.

use vstd::prelude::*;

verus! {

/// The four bytes of `x` in reverse order (byte 0 and 3, byte 1 and 2 trade places).
pub open spec fn swapped(x: u32) -> u32 {
    ((x & 0xff) << 24) | (((x >> 8) & 0xff) << 16) | (((x >> 16) & 0xff) << 8) | ((x >> 24) & 0xff)
}

/// Reverses the byte order of a 32-bit value.
pub fn convert_endian(s: u32) -> (r: u32)
    ensures
        r == swapped(s),
{
    let mut ret: u32 = 0;
    let mut i: u32 = 0;
    while i < 4
        invariant
            i <= 4,
            i == 0 ==> ret == 0,
            i == 1 ==> ret == s & 0xff,
            i == 2 ==> ret == ((s & 0xff) << 8) | ((s >> 8) & 0xff),
            i == 3 ==> ret == ((s & 0xff) << 16) | (((s >> 8) & 0xff) << 8) | ((s >> 16) & 0xff),
            i == 4 ==> ret == swapped(s),
        decreases 4 - i,
    {
        let prev = ret;
        ret = ret << 8;
        let p = (s >> (8 * i)) & 0xff;
        ret = ret | p;
        proof {
            if i == 0 {
                assert(((prev << 8) | ((s >> 0u32) & 0xff)) == s & 0xff) by (bit_vector)
                    requires
                        prev == 0,
                ;
            } else if i == 1 {
                assert(((prev << 8) | ((s >> 8u32) & 0xff)) == ((s & 0xff) << 8) | ((s >> 8)
                    & 0xff)) by (bit_vector)
                    requires
                        prev == s & 0xff,
                ;
            } else if i == 2 {
                assert(((prev << 8) | ((s >> 16u32) & 0xff)) == ((s & 0xff) << 16) | (((s >> 8)
                    & 0xff) << 8) | ((s >> 16) & 0xff)) by (bit_vector)
                    requires
                        prev == ((s & 0xff) << 8) | ((s >> 8) & 0xff),
                ;
            } else {
                assert(((prev << 8) | ((s >> 24u32) & 0xff)) == swapped(s)) by (bit_vector)
                    requires
                        prev == ((s & 0xff) << 16) | (((s >> 8) & 0xff) << 8) | ((s >> 16)
                            & 0xff),
                ;
            }
        }
        i = i + 1;
    }
    ret
}

/// Swapping the byte order twice gives back the value it started from.
pub proof fn lemma_swap_involutive(x: u32)
    ensures
        swapped(swapped(x)) == x,
{
    assert(swapped(swapped(x)) == x) by (bit_vector);
}


/// 1900-01-01T00:00:00Z, the NTP epoch, in seconds since the Unix epoch: it
/// lies 25,567 days (70 years, 17 of them leap years) before 1970-01-01.
pub const NTP_EPOCH_UNIX_SECONDS: i64 = -2_208_988_800;

/// Seconds in one NTP era: the span of a 32-bit seconds counter.
pub const NTP_ERA_SECONDS: i64 = 0x1_0000_0000;

/// The text that chrono's `DateTime<Utc>` displays for a second count since
/// the Unix epoch (`YYYY-MM-DD hh:mm:ss UTC`).
pub uninterp spec fn utc_text(unix_seconds: int) -> Seq<char>;

/// Relies on chrono's `DateTime::from_timestamp`, which returns `Some` for
/// every second count whose day falls within chrono's years (about 262,000
/// years either side of the common era), and on the `Display` of
/// `DateTime<Utc>`, whose text depends on that instant alone.
#[verifier::external_body]
fn render_utc(unix_seconds: i64) -> (r: String)
    requires
        -8_000_000_000_000 <= unix_seconds <= 8_000_000_000_000,
    ensures
        r@ == utc_text(unix_seconds as int),
{
    chrono::DateTime::from_timestamp(unix_seconds, 0).expect("within chrono's range").to_string()
}

/// An instant in UTC at whole-second resolution, within the first NTP era
/// (from 1900-01-01T00:00:00Z until the 32-bit seconds counter rolls over
/// in 2036).
#[derive(Debug, Clone, Copy, PartialEq, Eq, Structural)]
pub struct UtcTime {
    unix_seconds: i64,
}

impl View for UtcTime {
    type V = int;

    /// Seconds since 1970-01-01T00:00:00Z.
    closed spec fn view(&self) -> int {
        self.unix_seconds as int
    }
}

impl UtcTime {
    #[verifier::type_invariant]
    spec fn in_first_era(self) -> bool {
        NTP_EPOCH_UNIX_SECONDS <= self.unix_seconds < NTP_EPOCH_UNIX_SECONDS + NTP_ERA_SECONDS
    }

    /// The instant `seconds` seconds after 1900-01-01T00:00:00Z.
    pub fn from_ntp_seconds(seconds: u32) -> (r: UtcTime)
        ensures
            r@ == NTP_EPOCH_UNIX_SECONDS + seconds,
    {
        UtcTime { unix_seconds: NTP_EPOCH_UNIX_SECONDS + seconds as i64 }
    }

    /// Seconds since 1970-01-01T00:00:00Z (negative before it).
    pub fn unix_seconds(&self) -> (r: i64)
        ensures
            r == self@,
    {
        self.unix_seconds
    }

    /// The instant as text, in the form `YYYY-MM-DD hh:mm:ss UTC`.
    pub fn to_string(&self) -> (r: String)
        ensures
            r@ == utc_text(self@),
    {
        proof {
            use_type_invariant(self);
        }
        render_utc(self.unix_seconds)
    }
}

/// Converts a raw timestamp field, as read in host (little-endian) order from
/// the wire, into calendar time: its low 32 bits, byte-swapped, count the
/// seconds since 1900-01-01T00:00:00Z.
pub fn to_utc(timestamp: u64) -> (r: UtcTime)
    ensures
        r@ == NTP_EPOCH_UNIX_SECONDS + swapped(timestamp as u32),
{
    let seconds = convert_endian(timestamp as u32);
    UtcTime::from_ntp_seconds(seconds)
}

} // verus!
