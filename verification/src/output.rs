//! Machine- and human-readable renderings of a finished transfer.
//!
//! Everything here is a pure function from the result record's integer
//! fields (and caller-supplied text such as a timestamp) to the exact
//! characters printed. The caller does the printing.

use vstd::prelude::*;

use crate::downloader::DownloadResult;
use crate::strnum::{push_char, push_dec, push_dec_pad, rounded_div, spec_dec, spec_dec_pad,
    spec_round_div};
use crate::text::{lower_of, lowercase, str_eq};
use crate::units::spec_two_dec;

verus! {

/// How the caller wants the result record rendered.
#[derive(Debug, Clone, Copy, PartialEq, Eq, Structural)]
pub enum OutputFormat {
    Human,
    Json,
    JsonCompact,
    Csv,
}

/// The format selected by a already-lowercased keyword; anything
/// unrecognized falls back to human-readable output.
pub open spec fn spec_output_format_of(t: Seq<char>) -> OutputFormat {
    if t == "json"@ {
        OutputFormat::Json
    } else if t == "json-compact"@ || t == "compact"@ {
        OutputFormat::JsonCompact
    } else if t == "csv"@ {
        OutputFormat::Csv
    } else {
        OutputFormat::Human
    }
}

impl OutputFormat {
    /// Parses a format keyword, ignoring case.
    pub fn from_string(s: &str) -> (r: Self)
        ensures
            r == spec_output_format_of(lower_of(s@)),
    {
        let low = lowercase(s);
        if str_eq(low.as_str(), "json") {
            OutputFormat::Json
        } else if str_eq(low.as_str(), "json-compact") || str_eq(low.as_str(), "compact") {
            OutputFormat::JsonCompact
        } else if str_eq(low.as_str(), "csv") {
            OutputFormat::Csv
        } else {
            OutputFormat::Human
        }
    }
}

/// Characters that force a CSV field into quotes.
pub open spec fn spec_csv_special(c: char) -> bool {
    c == ',' || c == '"' || c == '\n'
}

/// Whether a CSV field must be quoted.
pub open spec fn spec_needs_quoting(s: Seq<char>) -> bool {
    exists|i: int| 0 <= i < s.len() && spec_csv_special(s[i])
}

/// The field's characters with every `"` doubled.
pub open spec fn spec_double_quotes(s: Seq<char>) -> Seq<char>
    decreases s.len(),
{
    if s.len() == 0 {
        seq![]
    } else {
        spec_double_quotes(s.drop_last()) + (if s.last() == '"' {
            seq!['"', '"']
        } else {
            seq![s.last()]
        })
    }
}

/// A CSV field: quoted with inner quotes doubled when it holds a comma,
/// quote or newline, otherwise unchanged.
pub open spec fn spec_escape_csv(s: Seq<char>) -> Seq<char> {
    if spec_needs_quoting(s) {
        seq!['"'] + spec_double_quotes(s) + seq!['"']
    } else {
        s
    }
}

proof fn lemma_double_quotes_take_succ(s: Seq<char>, i: int)
    requires
        0 <= i < s.len(),
    ensures
        spec_double_quotes(s.take(i + 1)) == spec_double_quotes(s.take(i)) + (if s[i] == '"' {
            seq!['"', '"']
        } else {
            seq![s[i]]
        }),
{
    assert(s.take(i + 1).drop_last() =~= s.take(i));
    assert(s.take(i + 1).last() == s[i]);
}

/// Escapes one CSV field.
pub fn escape_csv(s: &str) -> (r: String)
    ensures
        r@ == spec_escape_csv(s@),
{
    let n = s.unicode_len();
    let mut needs = false;
    let mut i: usize = 0;
    while i < n
        invariant
            i <= n,
            n == s@.len(),
            needs == spec_needs_quoting(s@.take(i as int)),
        decreases n - i,
    {
        let c = s.get_char(i);
        proof {
            assert(s@.take(i as int + 1).drop_last() =~= s@.take(i as int));
            if spec_csv_special(c) {
                assert(s@.take(i as int + 1)[i as int] == c);
                assert(spec_needs_quoting(s@.take(i as int + 1)));
            } else {
                if spec_needs_quoting(s@.take(i as int + 1)) {
                    let w = choose|w: int|
                        0 <= w < i + 1 && #[trigger] spec_csv_special(s@.take(i as int + 1)[w]);
                    if w < i {
                        assert(s@.take(i as int)[w] == s@.take(i as int + 1)[w]);
                    }
                }
            }
        }
        if c == ',' || c == '"' || c == '\n' {
            needs = true;
        }
        i = i + 1;
    }
    proof {
        assert(s@.take(n as int) =~= s@);
    }
    if !needs {
        return s.to_owned();
    }
    let mut out = String::new();
    push_char(&mut out, '"');
    let mut j: usize = 0;
    while j < n
        invariant
            j <= n,
            n == s@.len(),
            spec_needs_quoting(s@),
            out@ == seq!['"'] + spec_double_quotes(s@.take(j as int)),
        decreases n - j,
    {
        let c = s.get_char(j);
        push_char(&mut out, c);
        if c == '"' {
            push_char(&mut out, '"');
        }
        proof {
            lemma_double_quotes_take_succ(s@, j as int);
            assert(out@ =~= seq!['"'] + spec_double_quotes(s@.take(j as int + 1)));
        }
        j = j + 1;
    }
    push_char(&mut out, '"');
    proof {
        assert(s@.take(n as int) =~= s@);
        assert(out@ =~= spec_escape_csv(s@));
    }
    out
}

/// A rate figure derived from the whole transfer: `bytes * scale / micros`,
/// rounded half-up, zero when no time elapsed, and saturated at `u64::MAX`.
/// With `scale = 800` this is hundredths of megabits per second; with
/// `scale = 8_000_000` millionths of megabits per second; with
/// `scale = 1_000_000` millionths of decimal megabytes per second.
pub open spec fn spec_scaled_rate(bytes: int, scale: int, micros: int) -> u64 {
    if micros == 0 {
        0
    } else {
        let v = spec_round_div(bytes * scale, micros);
        if v > u64::MAX {
            u64::MAX
        } else {
            v as u64
        }
    }
}

/// Computes a scaled whole-transfer rate figure.
pub fn scaled_rate(bytes: u64, scale: u64, micros: u64) -> (r: u64)
    requires
        scale <= 100_000_000,
    ensures
        r == spec_scaled_rate(bytes as int, scale as int, micros as int),
{
    if micros == 0 {
        return 0;
    }
    proof {
        assert((bytes as int) * (scale as int) <= (u64::MAX as int) * 100_000_000)
            by (nonlinear_arith)
            requires
                0 <= bytes as int <= u64::MAX as int,
                0 <= scale as int <= 100_000_000,
        ;
    }
    let q: u128 = ((bytes as u128) * (scale as u128) + (micros as u128) / 2) / (micros as u128);
    if q > u64::MAX as u128 {
        u64::MAX
    } else {
        q as u64
    }
}

/// A microsecond count as seconds with three decimals, rounded half-up.
pub open spec fn spec_secs3(micros: int) -> Seq<char> {
    let m = spec_round_div(micros, 1000);
    spec_dec((m / 1000) as nat) + seq!['.'] + spec_dec_pad((m % 1000) as nat, 3)
}

/// Appends seconds with three decimals.
fn push_secs3(out: &mut String, micros: u64)
    ensures
        final(out)@ == old(out)@ + spec_secs3(micros as int),
{
    let m = rounded_div(micros, 1000);
    push_dec(out, m / 1000);
    push_char(out, '.');
    push_dec_pad(out, m % 1000, 3);
    assert(out@ =~= old(out)@ + spec_secs3(micros as int));
}

/// The CSV header line.
pub open spec fn spec_csv_header() -> Seq<char> {
    "timestamp,server_name,server_url,bytes_downloaded,total_time,connect_time,ttfb,speed_mbps,status_code"@
}

/// The CSV header line, matching `csv_row` column for column.
pub fn csv_header() -> (r: &'static str)
    ensures
        r@ == spec_csv_header(),
{
    "timestamp,server_name,server_url,bytes_downloaded,total_time,connect_time,ttfb,speed_mbps,status_code"
}

/// One CSV record for a finished transfer: the caller's timestamp, the
/// escaped server fields, the raw byte count, the three times in seconds
/// with three decimals, the whole-transfer rate in megabits per second with
/// two decimals, and the HTTP status.
pub open spec fn spec_csv_row(
    ts: Seq<char>,
    name: Seq<char>,
    url: Seq<char>,
    r: DownloadResult,
) -> Seq<char> {
    ts + seq![','] + spec_escape_csv(name) + seq![','] + spec_escape_csv(url) + seq![',']
        + spec_dec(r.bytes_downloaded as nat) + seq![','] + spec_secs3(r.total_time as int)
        + seq![','] + spec_secs3(r.connect_time as int) + seq![','] + spec_secs3(r.ttfb as int)
        + seq![','] + spec_two_dec(
        spec_scaled_rate(r.bytes_downloaded as int, 800, r.total_time as int) as nat,
    ) + seq![','] + spec_dec(r.status_code as nat)
}

/// Renders one CSV record for a finished transfer.
pub fn csv_row(timestamp: &str, server_name: &str, server_url: &str, result: &DownloadResult) -> (r:
    String)
    ensures
        r@ == spec_csv_row(timestamp@, server_name@, server_url@, *result),
{
    let mut out = timestamp.to_owned();
    push_char(&mut out, ',');
    let name_field = escape_csv(server_name);
    out.append(name_field.as_str());
    push_char(&mut out, ',');
    let url_field = escape_csv(server_url);
    out.append(url_field.as_str());
    push_char(&mut out, ',');
    push_dec(&mut out, result.bytes_downloaded);
    push_char(&mut out, ',');
    push_secs3(&mut out, result.total_time);
    push_char(&mut out, ',');
    push_secs3(&mut out, result.connect_time);
    push_char(&mut out, ',');
    push_secs3(&mut out, result.ttfb);
    push_char(&mut out, ',');
    let mbps = scaled_rate(result.bytes_downloaded, 800, result.total_time);
    push_dec(&mut out, mbps / 100);
    push_char(&mut out, '.');
    push_dec_pad(&mut out, mbps % 100, 2);
    push_char(&mut out, ',');
    push_dec(&mut out, result.status_code as u64);
    assert(out@ =~= spec_csv_row(timestamp@, server_name@, server_url@, *result));
    out
}

/// The lowercase hexadecimal digit character for `d`.
pub open spec fn spec_hex_char(d: int) -> char {
    if d < 10 {
        crate::strnum::spec_digit(d)
    } else if d == 10 {
        'a'
    } else if d == 11 {
        'b'
    } else if d == 12 {
        'c'
    } else if d == 13 {
        'd'
    } else if d == 14 {
        'e'
    } else {
        'f'
    }
}

/// How one character appears inside a JSON string literal: quote and
/// backslash get a backslash, the named control characters their short
/// escapes, any other control character a `\u00..` escape, and everything
/// else stands as itself.
pub open spec fn spec_escape_json_char(c: char) -> Seq<char> {
    if c == '"' {
        seq!['\\', '"']
    } else if c == '\\' {
        seq!['\\', '\\']
    } else if c == '\u{8}' {
        seq!['\\', 'b']
    } else if c == '\u{c}' {
        seq!['\\', 'f']
    } else if c == '\n' {
        seq!['\\', 'n']
    } else if c == '\r' {
        seq!['\\', 'r']
    } else if c == '\t' {
        seq!['\\', 't']
    } else if (c as u32) < 0x20 {
        seq!['\\', 'u', '0', '0', spec_hex_char((c as u32 / 16) as int), spec_hex_char(
            (c as u32 % 16) as int,
        )]
    } else {
        seq![c]
    }
}

/// A string's characters as they appear inside a JSON string literal.
pub open spec fn spec_escape_json(s: Seq<char>) -> Seq<char>
    decreases s.len(),
{
    if s.len() == 0 {
        seq![]
    } else {
        spec_escape_json(s.drop_last()) + spec_escape_json_char(s.last())
    }
}

proof fn lemma_escape_json_take_succ(s: Seq<char>, i: int)
    requires
        0 <= i < s.len(),
    ensures
        spec_escape_json(s.take(i + 1)) == spec_escape_json(s.take(i)) + spec_escape_json_char(
            s[i],
        ),
{
    assert(s.take(i + 1).drop_last() =~= s.take(i));
    assert(s.take(i + 1).last() == s[i]);
}

/// The lowercase hexadecimal digit character for `d`, as executable code.
fn hex_char(d: u32) -> (c: char)
    requires
        d < 16,
    ensures
        c == spec_hex_char(d as int),
{
    if d < 10 {
        crate::strnum::digit_char(d as u64)
    } else {
        match d {
            10 => 'a',
            11 => 'b',
            12 => 'c',
            13 => 'd',
            14 => 'e',
            _ => 'f',
        }
    }
}

/// Appends `s` escaped for the inside of a JSON string literal.
fn push_json_escaped(out: &mut String, s: &str)
    ensures
        final(out)@ == old(out)@ + spec_escape_json(s@),
{
    let n = s.unicode_len();
    let mut i: usize = 0;
    while i < n
        invariant
            i <= n,
            n == s@.len(),
            out@ == old(out)@ + spec_escape_json(s@.take(i as int)),
        decreases n - i,
    {
        let c = s.get_char(i);
        if c == '"' {
            push_char(out, '\\');
            push_char(out, '"');
        } else if c == '\\' {
            push_char(out, '\\');
            push_char(out, '\\');
        } else if c == '\u{8}' {
            push_char(out, '\\');
            push_char(out, 'b');
        } else if c == '\u{c}' {
            push_char(out, '\\');
            push_char(out, 'f');
        } else if c == '\n' {
            push_char(out, '\\');
            push_char(out, 'n');
        } else if c == '\r' {
            push_char(out, '\\');
            push_char(out, 'r');
        } else if c == '\t' {
            push_char(out, '\\');
            push_char(out, 't');
        } else if (c as u32) < 0x20 {
            push_char(out, '\\');
            push_char(out, 'u');
            push_char(out, '0');
            push_char(out, '0');
            push_char(out, hex_char((c as u32) / 16));
            push_char(out, hex_char((c as u32) % 16));
        } else {
            push_char(out, c);
        }
        proof {
            lemma_escape_json_take_succ(s@, i as int);
            assert(out@ =~= old(out)@ + spec_escape_json(s@.take(i as int + 1)));
        }
        i = i + 1;
    }
    proof {
        assert(s@.take(n as int) =~= s@);
    }
}

/// A count of millionths rendered as `<integer>.<six digits>`. With a
/// microsecond count this is the exact elapsed seconds.
pub open spec fn spec_fixed6(v: int) -> Seq<char> {
    spec_dec((v / 1_000_000) as nat) + seq!['.'] + spec_dec_pad((v % 1_000_000) as nat, 6)
}

/// Appends `<integer>.<six digits>` for a quantity of millionths.
fn push_fixed6(out: &mut String, v: u64)
    ensures
        final(out)@ == old(out)@ + spec_fixed6(v as int),
{
    push_dec(out, v / 1_000_000);
    push_char(out, '.');
    push_dec_pad(out, v % 1_000_000, 6);
    assert(out@ =~= old(out)@ + spec_fixed6(v as int));
}

/// The JSON document for a finished transfer: the caller's timestamp, the
/// server's name and URL, the raw fields of the result record with the times
/// as exact seconds (six decimals), and the whole-transfer rate in megabits
/// and decimal megabytes per second, in millionths. `compact` selects the
/// one-line form; otherwise the document is pretty-printed with two-space
/// indents.
pub open spec fn spec_json_output(
    ts: Seq<char>,
    name: Seq<char>,
    url: Seq<char>,
    r: DownloadResult,
    compact: bool,
) -> Seq<char> {
    let mbps = spec_scaled_rate(r.bytes_downloaded as int, 8_000_000, r.total_time as int);
    let mb_s = spec_scaled_rate(r.bytes_downloaded as int, 1_000_000, r.total_time as int);
    if compact {
        "{\"timestamp\":\""@ + spec_escape_json(ts) + "\",\"server\":{\"name\":\""@
            + spec_escape_json(name) + "\",\"url\":\""@ + spec_escape_json(url)
            + "\"},\"results\":{\"status_code\":"@ + spec_dec(r.status_code as nat)
            + ",\"bytes_downloaded\":"@ + spec_dec(r.bytes_downloaded as nat)
            + ",\"total_time\":"@ + spec_fixed6(r.total_time as int) + ",\"connect_time\":"@
            + spec_fixed6(r.connect_time as int) + ",\"ttfb\":"@ + spec_fixed6(r.ttfb as int)
            + ",\"speed\":{\"mbps\":"@ + spec_fixed6(mbps as int) + ",\"mb_s\":"@ + spec_fixed6(
            mb_s as int,
        ) + "}}}"@
    } else {
        "{\n  \"timestamp\": \""@ + spec_escape_json(ts)
            + "\",\n  \"server\": {\n    \"name\": \""@ + spec_escape_json(name)
            + "\",\n    \"url\": \""@ + spec_escape_json(url)
            + "\"\n  },\n  \"results\": {\n    \"status_code\": "@ + spec_dec(
            r.status_code as nat,
        ) + ",\n    \"bytes_downloaded\": "@ + spec_dec(r.bytes_downloaded as nat)
            + ",\n    \"total_time\": "@ + spec_fixed6(r.total_time as int)
            + ",\n    \"connect_time\": "@ + spec_fixed6(r.connect_time as int)
            + ",\n    \"ttfb\": "@ + spec_fixed6(r.ttfb as int)
            + ",\n    \"speed\": {\n      \"mbps\": "@ + spec_fixed6(mbps as int)
            + ",\n      \"mb_s\": "@ + spec_fixed6(mb_s as int) + "\n    }\n  }\n}"@
    }
}

/// Renders the JSON document for a finished transfer.
pub fn json_output(
    timestamp: &str,
    server_name: &str,
    server_url: &str,
    result: &DownloadResult,
    compact: bool,
) -> (r: String)
    ensures
        r@ == spec_json_output(timestamp@, server_name@, server_url@, *result, compact),
{
    let mbps = scaled_rate(result.bytes_downloaded, 8_000_000, result.total_time);
    let mb_s = scaled_rate(result.bytes_downloaded, 1_000_000, result.total_time);
    let mut out: String;
    if compact {
        out = String::from_str("{\"timestamp\":\"");
        push_json_escaped(&mut out, timestamp);
        out.append("\",\"server\":{\"name\":\"");
        push_json_escaped(&mut out, server_name);
        out.append("\",\"url\":\"");
        push_json_escaped(&mut out, server_url);
        out.append("\"},\"results\":{\"status_code\":");
        push_dec(&mut out, result.status_code as u64);
        out.append(",\"bytes_downloaded\":");
        push_dec(&mut out, result.bytes_downloaded);
        out.append(",\"total_time\":");
        push_fixed6(&mut out, result.total_time);
        out.append(",\"connect_time\":");
        push_fixed6(&mut out, result.connect_time);
        out.append(",\"ttfb\":");
        push_fixed6(&mut out, result.ttfb);
        out.append(",\"speed\":{\"mbps\":");
        push_fixed6(&mut out, mbps);
        out.append(",\"mb_s\":");
        push_fixed6(&mut out, mb_s);
        out.append("}}}");
    } else {
        out = String::from_str("{\n  \"timestamp\": \"");
        push_json_escaped(&mut out, timestamp);
        out.append("\",\n  \"server\": {\n    \"name\": \"");
        push_json_escaped(&mut out, server_name);
        out.append("\",\n    \"url\": \"");
        push_json_escaped(&mut out, server_url);
        out.append("\"\n  },\n  \"results\": {\n    \"status_code\": ");
        push_dec(&mut out, result.status_code as u64);
        out.append(",\n    \"bytes_downloaded\": ");
        push_dec(&mut out, result.bytes_downloaded);
        out.append(",\n    \"total_time\": ");
        push_fixed6(&mut out, result.total_time);
        out.append(",\n    \"connect_time\": ");
        push_fixed6(&mut out, result.connect_time);
        out.append(",\n    \"ttfb\": ");
        push_fixed6(&mut out, result.ttfb);
        out.append(",\n    \"speed\": {\n      \"mbps\": ");
        push_fixed6(&mut out, mbps);
        out.append(",\n      \"mb_s\": ");
        push_fixed6(&mut out, mb_s);
        out.append("\n    }\n  }\n}");
    }
    assert(out@ =~= spec_json_output(timestamp@, server_name@, server_url@, *result, compact));
    out
}

/// A quantity of hundredths rendered as `<integer>.<two digits>`, as a fresh
/// string; the building block callers use for two-decimal figures.
pub fn two_dec_string(h: u64) -> (r: String)
    ensures
        r@ == spec_two_dec(h as nat),
{
    let mut out = String::new();
    push_dec(&mut out, h / 100);
    push_char(&mut out, '.');
    push_dec_pad(&mut out, h % 100, 2);
    assert(out@ =~= spec_two_dec(h as nat));
    out
}

/// An elapsed time for human display: minutes and tenths of seconds from one
/// minute up, otherwise seconds with two decimals, all rounded half-up.
pub open spec fn spec_duration(micros: int) -> Seq<char> {
    if micros >= 60_000_000 {
        let tenths = spec_round_div(micros % 60_000_000, 100_000);
        spec_dec(spec_round_div(micros, 60_000_000) as nat) + seq!['m', ' '] + spec_dec(
            (tenths / 10) as nat,
        ) + seq!['.'] + spec_dec_pad((tenths % 10) as nat, 1) + seq!['s']
    } else {
        spec_two_dec(spec_round_div(micros, 10_000) as nat) + seq!['s']
    }
}

/// Renders an elapsed time for human display.
pub fn duration_string(micros: u64) -> (r: String)
    ensures
        r@ == spec_duration(micros as int),
{
    let mut out = String::new();
    if micros >= 60_000_000 {
        push_dec(&mut out, rounded_div(micros, 60_000_000));
        push_char(&mut out, 'm');
        push_char(&mut out, ' ');
        let tenths = rounded_div(micros % 60_000_000, 100_000);
        push_dec(&mut out, tenths / 10);
        push_char(&mut out, '.');
        push_dec_pad(&mut out, tenths % 10, 1);
        push_char(&mut out, 's');
    } else {
        push_dec(&mut out, rounded_div(micros, 10_000) / 100);
        push_char(&mut out, '.');
        push_dec_pad(&mut out, rounded_div(micros, 10_000) % 100, 2);
        push_char(&mut out, 's');
    }
    assert(out@ =~= spec_duration(micros as int));
    out
}

/// The payload size in hundredths of binary megabytes, rounded half-up.
pub fn size_mib_hundredths(bytes: u64) -> (r: u64)
    ensures
        r as int == spec_round_div(bytes as int * 100, 1_048_576),
{
    let q: u128 = ((bytes as u128) * 100 + 524_288) / 1_048_576;
    proof {
        assert((bytes as int * 100 + 524_288) / 1_048_576 <= bytes as int) by (nonlinear_arith)
            requires
                0 <= bytes as int,
        ;
    }
    q as u64
}

/// The whole-transfer rate in hundredths of binary megabytes per second,
/// rounded half-up, zero when no time elapsed, saturated at `u64::MAX`.
pub open spec fn spec_mib_rate_hundredths(bytes: int, micros: int) -> u64 {
    if micros == 0 {
        0
    } else {
        let v = (bytes * 100_000_000 + micros * 1_048_576 / 2) / (micros * 1_048_576);
        if v > u64::MAX {
            u64::MAX
        } else {
            v as u64
        }
    }
}

/// Computes the whole-transfer rate in hundredths of binary megabytes per
/// second.
pub fn mib_rate_hundredths(bytes: u64, micros: u64) -> (r: u64)
    ensures
        r == spec_mib_rate_hundredths(bytes as int, micros as int),
{
    if micros == 0 {
        return 0;
    }
    proof {
        assert((bytes as int) * 100_000_000 <= (u64::MAX as int) * 100_000_000)
            by (nonlinear_arith)
            requires
                0 <= bytes as int <= u64::MAX as int,
        ;
        assert((micros as int) * 1_048_576 <= (u64::MAX as int) * 1_048_576) by (nonlinear_arith)
            requires
                0 <= micros as int <= u64::MAX as int,
        ;
        assert((micros as int) * 1_048_576 >= 1_048_576) by (nonlinear_arith)
            requires
                micros as int >= 1,
        ;
    }
    let den: u128 = (micros as u128) * 1_048_576;
    let q: u128 = ((bytes as u128) * 100_000_000 + den / 2) / den;
    if q > u64::MAX as u128 {
        u64::MAX
    } else {
        q as u64
    }
}

/// Whether the payload is too small for the speed figure to mean much: under
/// ten binary megabytes.
pub fn sample_too_small(bytes: u64) -> (r: bool)
    ensures
        r == (bytes < 10_485_760),
{
    bytes < 10_485_760
}

} // verus!
