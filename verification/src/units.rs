//! The unit formatter: turning a byte rate into a display string.
//!
//! A rate is carried as an integer count of millibytes per second (one
//! thousandth of a byte per second), which is exact for every figure the
//! tracker computes. The two bit conventions are rendered here with two
//! decimal places and a half-up rounding rule; threshold comparisons use `>=`,
//! so a rate sitting exactly on a power boundary reports in the larger unit.
//! The two byte conventions delegate the humanized figure to the `bytesize`
//! crate and append `/s`.

use vstd::prelude::*;

use crate::strnum::{push_char, push_dec, push_dec_pad, rounded_div, spec_dec, spec_dec_pad,
    spec_round_div};
use crate::text::{lower_of, lowercase, str_eq};

verus! {

/// The unit convention a caller selects for rate display. A pure selector:
/// it carries no state.
#[derive(Clone, Copy, Debug, PartialEq, Eq, Structural)]
pub enum SpeedUnit {
    BitsMetric,
    BitsBinary,
    BytesMetric,
    BytesBinary,
}

/// The unit convention selected by an already-lowercased keyword; anything
/// unrecognized falls back to metric bits.
pub open spec fn spec_speed_unit_of(t: Seq<char>) -> SpeedUnit {
    if t == "bits-metric"@ {
        SpeedUnit::BitsMetric
    } else if t == "bits-binary"@ {
        SpeedUnit::BitsBinary
    } else if t == "bytes-metric"@ {
        SpeedUnit::BytesMetric
    } else if t == "bytes-binary"@ {
        SpeedUnit::BytesBinary
    } else {
        SpeedUnit::BitsMetric
    }
}

impl SpeedUnit {
    /// Parses a unit keyword, ignoring case.
    pub fn from_string(s: &str) -> (r: Self)
        ensures
            r == spec_speed_unit_of(lower_of(s@)),
    {
        let low = lowercase(s);
        if str_eq(low.as_str(), "bits-metric") {
            SpeedUnit::BitsMetric
        } else if str_eq(low.as_str(), "bits-binary") {
            SpeedUnit::BitsBinary
        } else if str_eq(low.as_str(), "bytes-metric") {
            SpeedUnit::BytesMetric
        } else if str_eq(low.as_str(), "bytes-binary") {
            SpeedUnit::BytesBinary
        } else {
            SpeedUnit::BitsMetric
        }
    }
}

/// Largest rate the formatter accepts: one terabyte per second, in
/// millibytes per second. Keeps every intermediate product inside `u64`.
pub const RATE_MILLI_MAX: u64 = 1_000_000_000_000_000;

/// Millibits per second at the three metric thresholds and at one bit.
pub const GIGA_MILLIBITS: u64 = 1_000_000_000_000;

pub const MEGA_MILLIBITS: u64 = 1_000_000_000;

pub const KILO_MILLIBITS: u64 = 1_000_000;

pub const ONE_MILLIBIT: u64 = 1_000;

/// Millibits per second at the three binary thresholds.
pub const GIBI_MILLIBITS: u64 = 1_073_741_824_000;

pub const MIBI_MILLIBITS: u64 = 1_048_576_000;

pub const KIBI_MILLIBITS: u64 = 1_024_000;

/// A quantity of hundredths rendered as `<integer>.<two digits>`.
pub open spec fn spec_two_dec(h: nat) -> Seq<char> {
    spec_dec(h / 100) + seq!['.'] + spec_dec_pad(h % 100, 2)
}

/// The figure part for a bit-rate branch: `bits_milli / den_milli` rounded to
/// hundredths and rendered with two decimals.
pub open spec fn spec_bits_figure(bits_milli: int, den_milli: int) -> Seq<char> {
    spec_two_dec(spec_round_div(bits_milli * 100, den_milli) as nat)
}

/// What the byte formatter of the `bytesize` crate prints for a byte count in
/// SI (decimal, powers of 1000) style.
pub uninterp spec fn si_string_of(n: u64) -> Seq<char>;

/// What the byte formatter of the `bytesize` crate prints for a byte count in
/// IEC (binary, powers of 1024) style.
pub uninterp spec fn iec_string_of(n: u64) -> Seq<char>;

/// The exact display string for a rate of `rate_milli` millibytes per second
/// under `unit`.
pub open spec fn spec_format_speed(rate_milli: u64, unit: SpeedUnit) -> Seq<char> {
    let bm = rate_milli * 8;
    match unit {
        SpeedUnit::BitsMetric => if bm >= GIGA_MILLIBITS {
            spec_bits_figure(bm, GIGA_MILLIBITS as int) + " Gbps"@
        } else if bm >= MEGA_MILLIBITS {
            spec_bits_figure(bm, MEGA_MILLIBITS as int) + " Mbps"@
        } else if bm >= KILO_MILLIBITS {
            spec_bits_figure(bm, KILO_MILLIBITS as int) + " Kbps"@
        } else {
            spec_bits_figure(bm, ONE_MILLIBIT as int) + " bps"@
        },
        SpeedUnit::BitsBinary => if bm >= GIBI_MILLIBITS {
            spec_bits_figure(bm, GIBI_MILLIBITS as int) + " Gibps"@
        } else if bm >= MIBI_MILLIBITS {
            spec_bits_figure(bm, MIBI_MILLIBITS as int) + " Mibps"@
        } else if bm >= KIBI_MILLIBITS {
            spec_bits_figure(bm, KIBI_MILLIBITS as int) + " Kibps"@
        } else {
            spec_bits_figure(bm, ONE_MILLIBIT as int) + " bps"@
        },
        SpeedUnit::BytesMetric => si_string_of((rate_milli / 1000) as u64) + "/s"@,
        SpeedUnit::BytesBinary => iec_string_of((rate_milli / 1000) as u64) + "/s"@,
    }
}

/// Relies on `bytesize`: `ByteSize::b(n).display().si()` humanizes a byte
/// count in SI units; a count below 1000 prints as the plain integer followed
/// by ` B`, so zero prints as `0 B`.
#[verifier::external_body]
fn si_byte_string(n: u64) -> (r: String)
    ensures
        r@ == si_string_of(n),
        n == 0 ==> r@ == "0 B"@,
{
    format!("{}", bytesize::ByteSize::b(n).display().si())
}

/// Relies on `bytesize`: the `Display` impl of `ByteSize` humanizes a byte
/// count in IEC units; a count below 1024 prints as the plain integer
/// followed by ` B`, so zero prints as `0 B`.
#[verifier::external_body]
fn iec_byte_string(n: u64) -> (r: String)
    ensures
        r@ == iec_string_of(n),
        n == 0 ==> r@ == "0 B"@,
{
    format!("{}", bytesize::ByteSize::b(n))
}

/// Appends `<integer>.<two digits>` for a quantity of hundredths.
fn push_two_dec(out: &mut String, h: u64)
    ensures
        final(out)@ == old(out)@ + spec_two_dec(h as nat),
{
    push_dec(out, h / 100);
    push_char(out, '.');
    push_dec_pad(out, h % 100, 2);
    assert(out@ =~= old(out)@ + spec_two_dec(h as nat));
}

/// Renders a bytes-per-second rate as a display string under the chosen unit
/// convention. Pure and total on its domain; the same inputs always give the
/// same characters.
pub fn format_speed(rate_milli: u64, unit: SpeedUnit) -> (r: String)
    requires
        rate_milli <= RATE_MILLI_MAX,
    ensures
        r@ == spec_format_speed(rate_milli, unit),
{
    let bm: u64 = rate_milli * 8;
    let mut out = String::new();
    match unit {
        SpeedUnit::BitsMetric => {
            if bm >= GIGA_MILLIBITS {
                push_two_dec(&mut out, rounded_div(bm * 100, GIGA_MILLIBITS));
                out.append(" Gbps");
            } else if bm >= MEGA_MILLIBITS {
                push_two_dec(&mut out, rounded_div(bm * 100, MEGA_MILLIBITS));
                out.append(" Mbps");
            } else if bm >= KILO_MILLIBITS {
                push_two_dec(&mut out, rounded_div(bm * 100, KILO_MILLIBITS));
                out.append(" Kbps");
            } else {
                push_two_dec(&mut out, rounded_div(bm * 100, ONE_MILLIBIT));
                out.append(" bps");
            }
        },
        SpeedUnit::BitsBinary => {
            if bm >= GIBI_MILLIBITS {
                push_two_dec(&mut out, rounded_div(bm * 100, GIBI_MILLIBITS));
                out.append(" Gibps");
            } else if bm >= MIBI_MILLIBITS {
                push_two_dec(&mut out, rounded_div(bm * 100, MIBI_MILLIBITS));
                out.append(" Mibps");
            } else if bm >= KIBI_MILLIBITS {
                push_two_dec(&mut out, rounded_div(bm * 100, KIBI_MILLIBITS));
                out.append(" Kibps");
            } else {
                push_two_dec(&mut out, rounded_div(bm * 100, ONE_MILLIBIT));
                out.append(" bps");
            }
        },
        SpeedUnit::BytesMetric => {
            out = si_byte_string(rate_milli / 1000);
            out.append("/s");
        },
        SpeedUnit::BytesBinary => {
            out = iec_byte_string(rate_milli / 1000);
            out.append("/s");
        },
    }
    assert(out@ =~= spec_format_speed(rate_milli, unit));
    out
}

/// The instantaneous rate shown by the progress reporter: bytes gained over
/// the elapsed microseconds, in millibytes per second, saturated at the
/// largest rate the formatter accepts.
pub open spec fn spec_instant_rate(diff_bytes: int, elapsed_micros: int) -> u64
    recommends
        elapsed_micros > 0,
{
    let r = diff_bytes * 1_000_000_000 / elapsed_micros;
    if r > RATE_MILLI_MAX {
        RATE_MILLI_MAX
    } else {
        r as u64
    }
}

/// Computes the instantaneous rate in millibytes per second.
pub fn instant_rate(diff_bytes: u64, elapsed_micros: u64) -> (r: u64)
    requires
        elapsed_micros > 0,
    ensures
        r == spec_instant_rate(diff_bytes as int, elapsed_micros as int),
        r <= RATE_MILLI_MAX,
{
    let q: u128 = (diff_bytes as u128) * 1_000_000_000 / (elapsed_micros as u128);
    if q > RATE_MILLI_MAX as u128 {
        RATE_MILLI_MAX
    } else {
        q as u64
    }
}

/// Zero-rate law: at rate zero every unit convention yields its zero string,
/// with no sign and no division by zero. The bit conventions print
/// `0.00 bps`; the byte conventions print the byte formatter's string for
/// zero bytes followed by `/s` (that string is `0 B`, as the formatter's
/// contract also states).
pub proof fn lemma_format_speed_zero()
    ensures
        spec_format_speed(0, SpeedUnit::BitsMetric) == "0.00 bps"@,
        spec_format_speed(0, SpeedUnit::BitsBinary) == "0.00 bps"@,
        spec_format_speed(0, SpeedUnit::BytesMetric) == si_string_of(0) + "/s"@,
        spec_format_speed(0, SpeedUnit::BytesBinary) == iec_string_of(0) + "/s"@,
{
    reveal_strlit("0.00 bps");
    reveal_strlit(" bps");
    reveal_with_fuel(spec_dec, 2);
    reveal_with_fuel(spec_dec_pad, 3);
    assert(spec_format_speed(0, SpeedUnit::BitsMetric) =~= "0.00 bps"@);
    assert(spec_format_speed(0, SpeedUnit::BitsBinary) =~= "0.00 bps"@);
}

/// Threshold law, metric side: the `>=` comparison is inclusive at each of
/// the three power boundaries, so a rate of exactly 10^3, 10^6 or 10^9 bits
/// per second reports as `1.00` of the larger unit, while a rate one
/// millibyte below the lowest boundary still reports in `bps`.
pub proof fn lemma_format_speed_metric_boundaries()
    ensures
        spec_format_speed(125_000, SpeedUnit::BitsMetric) == "1.00 Kbps"@,
        spec_format_speed(125_000_000, SpeedUnit::BitsMetric) == "1.00 Mbps"@,
        spec_format_speed(125_000_000_000, SpeedUnit::BitsMetric) == "1.00 Gbps"@,
        spec_format_speed(124_999, SpeedUnit::BitsMetric) == "999.99 bps"@,
{
    reveal_strlit("1.00 Kbps");
    reveal_strlit("1.00 Mbps");
    reveal_strlit("1.00 Gbps");
    reveal_strlit("999.99 bps");
    reveal_strlit(" Kbps");
    reveal_strlit(" Mbps");
    reveal_strlit(" Gbps");
    reveal_strlit(" bps");
    reveal_with_fuel(spec_dec, 4);
    reveal_with_fuel(spec_dec_pad, 3);
    assert(spec_format_speed(125_000, SpeedUnit::BitsMetric) =~= "1.00 Kbps"@);
    assert(spec_format_speed(125_000_000, SpeedUnit::BitsMetric) =~= "1.00 Mbps"@);
    assert(spec_format_speed(125_000_000_000, SpeedUnit::BitsMetric) =~= "1.00 Gbps"@);
    assert(spec_format_speed(124_999, SpeedUnit::BitsMetric) =~= "999.99 bps"@);
}

/// Threshold law, binary side: the `>=` comparison is inclusive at each of
/// the three power boundaries, so a rate of exactly 2^10, 2^20 or 2^30 bits
/// per second reports as `1.00` of the larger unit, while a rate one
/// millibyte below the lowest boundary still reports in `bps`.
pub proof fn lemma_format_speed_binary_boundaries()
    ensures
        spec_format_speed(128_000, SpeedUnit::BitsBinary) == "1.00 Kibps"@,
        spec_format_speed(131_072_000, SpeedUnit::BitsBinary) == "1.00 Mibps"@,
        spec_format_speed(134_217_728_000, SpeedUnit::BitsBinary) == "1.00 Gibps"@,
        spec_format_speed(127_999, SpeedUnit::BitsBinary) == "1023.99 bps"@,
{
    reveal_strlit("1.00 Kibps");
    reveal_strlit("1.00 Mibps");
    reveal_strlit("1.00 Gibps");
    reveal_strlit("1023.99 bps");
    reveal_strlit(" Kibps");
    reveal_strlit(" Mibps");
    reveal_strlit(" Gibps");
    reveal_strlit(" bps");
    reveal_with_fuel(spec_dec, 5);
    reveal_with_fuel(spec_dec_pad, 3);
    assert(spec_format_speed(128_000, SpeedUnit::BitsBinary) =~= "1.00 Kibps"@);
    assert(spec_format_speed(131_072_000, SpeedUnit::BitsBinary) =~= "1.00 Mibps"@);
    assert(spec_format_speed(134_217_728_000, SpeedUnit::BitsBinary) =~= "1.00 Gibps"@);
    assert(spec_format_speed(127_999, SpeedUnit::BitsBinary) =~= "1023.99 bps"@);
}

/// Idempotence law: the formatter is a pure function of its two arguments.
/// Any two strings that meet `format_speed`'s postcondition for the same
/// rate and unit agree character for character, so calling the formatter
/// twice on identical inputs yields identical output.
pub proof fn lemma_format_speed_deterministic(
    rate_milli: u64,
    unit: SpeedUnit,
    a: Seq<char>,
    b: Seq<char>,
)
    requires
        a == spec_format_speed(rate_milli, unit),
        b == spec_format_speed(rate_milli, unit),
    ensures
        a == b,
{
}

} // verus!
