//! The measured streaming download engine.
//!
//! The engine's bookkeeping is a small state machine, `DownloadTracker`. The
//! caller performs the HTTP request and drives the body stream; the tracker
//! takes one event per observation — headers received at construction, then
//! each chunk with its timestamp, then the end of the stream — and decides
//! everything the engine owes: the byte count, the time-to-first-byte, the
//! progress-refresh cadence, and the final result record.
//!
//! All timestamps are microseconds read from one monotonic clock, measured
//! from the instant the request was dispatched.

use vstd::prelude::*;

use crate::text::{spec_cut_end, spec_first_index, cut_end, find_first};
use crate::units::{SpeedUnit, spec_format_speed, spec_instant_rate, format_speed, instant_rate};

verus! {

/// Interval between two progress refreshes, in microseconds.
pub const PROGRESS_REFRESH_MICROS: u64 = 100_000;

/// The record a finished transfer produces. Immutable once produced; all
/// times are microseconds.
///
/// `connect_time` runs from request dispatch to response headers received;
/// `ttfb` runs from headers received to the first body byte, so the two are
/// sub-components of `total_time`, not cumulative with each other. If the
/// body was empty, `ttfb` carries `connect_time` as a documented
/// substitution.
#[derive(Clone, Copy, Debug)]
pub struct DownloadResult {
    pub status_code: u16,
    pub connect_time: u64,
    pub ttfb: u64,
    pub total_time: u64,
    pub bytes_downloaded: u64,
}

impl DownloadResult {
    /// The invariant every successful result satisfies: the connection phase
    /// is part of the total elapsed time.
    pub open spec fn valid(self) -> bool {
        self.connect_time <= self.total_time
    }
}

/// A failed transfer, tagged with the phase that failed; the payload is the
/// underlying transport message.
#[derive(Debug)]
pub enum DownloadError {
    /// No response was received: DNS, TCP or TLS failure.
    Connection(String),
    /// The connection was established but the body stream broke off.
    Transfer(String),
    /// The save file could not be created or written.
    FileSystem(String),
}

impl DownloadError {
    /// The phase prefix and transport message as one display line.
    pub fn describe(&self) -> (r: String)
        ensures
            self is Connection ==> r@ == "connection error: "@ + self->Connection_0@,
            self is Transfer ==> r@ == "transfer error: "@ + self->Transfer_0@,
            self is FileSystem ==> r@ == "file error: "@ + self->FileSystem_0@,
    {
        let mut out: String;
        match self {
            DownloadError::Connection(m) => {
                out = String::from_str("connection error: ");
                out.append(m.as_str());
            },
            DownloadError::Transfer(m) => {
                out = String::from_str("transfer error: ");
                out.append(m.as_str());
            },
            DownloadError::FileSystem(m) => {
                out = String::from_str("file error: ");
                out.append(m.as_str());
            },
        }
        out
    }
}

/// Sum of a sequence of chunk lengths.
pub open spec fn sum_lens(s: Seq<int>) -> int
    decreases s.len(),
{
    if s.len() == 0 {
        0
    } else {
        sum_lens(s.drop_last()) + s.last()
    }
}

/// The engine's bookkeeping for one transfer, created when the response
/// headers arrive. One logical transfer per tracker; nothing is shared.
pub struct DownloadTracker {
    /// HTTP status of the response whose body is being drained.
    pub status_code: u16,
    /// `Content-Length` if the server sent one, `0` for unknown.
    pub total_size: u64,
    /// Microseconds from request dispatch to headers received.
    pub connect_micros: u64,
    /// Microseconds from request dispatch to the instant the body stream was
    /// obtained; the origin for `ttfb`.
    pub stream_start_micros: u64,
    /// Microseconds from `stream_start_micros` to the first body byte, once
    /// one arrived.
    pub ttfb_micros: Option<u64>,
    /// Body bytes observed so far.
    pub bytes_downloaded: u64,
    /// Timestamp of the last progress refresh.
    pub last_update_micros: u64,
    /// `bytes_downloaded` at the last progress refresh.
    pub last_downloaded: u64,
    /// Unit convention for the live progress text.
    pub speed_unit: SpeedUnit,
    /// The length of every chunk observed, in arrival order.
    pub chunk_lens: Ghost<Seq<int>>,
}

impl DownloadTracker {
    /// Internal consistency: the byte counter is exactly the sum of the
    /// observed chunk lengths, the first-byte mark is set exactly when a
    /// chunk has been seen, and the timestamps are ordered.
    pub open spec fn wf(self) -> bool {
        &&& self.connect_micros <= self.stream_start_micros <= self.last_update_micros
        &&& self.last_downloaded <= self.bytes_downloaded
        &&& self.bytes_downloaded as int == sum_lens(self.chunk_lens@)
        &&& (self.ttfb_micros is None <==> self.chunk_lens@.len() == 0)
    }

    /// Starts tracking a transfer whose response headers have just arrived.
    /// `content_length` is the advertised body size, if any.
    pub fn new(
        status_code: u16,
        content_length: Option<u64>,
        connect_micros: u64,
        stream_start_micros: u64,
        speed_unit: SpeedUnit,
    ) -> (t: Self)
        requires
            connect_micros <= stream_start_micros,
        ensures
            t.wf(),
            t.status_code == status_code,
            t.total_size == (match content_length {
                Some(n) => n,
                None => 0u64,
            }),
            t.connect_micros == connect_micros,
            t.stream_start_micros == stream_start_micros,
            t.ttfb_micros is None,
            t.bytes_downloaded == 0,
            t.last_update_micros == stream_start_micros,
            t.last_downloaded == 0,
            t.speed_unit == speed_unit,
            t.chunk_lens@ == Seq::<int>::empty(),
    {
        let t = DownloadTracker {
            status_code,
            total_size: match content_length {
                Some(n) => n,
                None => 0,
            },
            connect_micros,
            stream_start_micros,
            ttfb_micros: None,
            bytes_downloaded: 0,
            last_update_micros: stream_start_micros,
            last_downloaded: 0,
            speed_unit,
            chunk_lens: Ghost(Seq::empty()),
        };
        proof {
            assert(t.chunk_lens@ =~= Seq::<int>::empty());
        }
        t
    }

    /// The progress template to render under: a bounded bar when the body
    /// size is known, an indeterminate spinner when it is not.
    pub fn progress_template(&self) -> (t: &'static str)
        ensures
            self.total_size > 0 ==> t@ == "{bar:40.cyan/blue} {bytes}/{total_bytes} {msg} ({eta})"@,
            self.total_size == 0 ==> t@ == "{spinner:.cyan} {bytes} {msg}"@,
    {
        if self.total_size > 0 {
            "{bar:40.cyan/blue} {bytes}/{total_bytes} {msg} ({eta})"
        } else {
            "{spinner:.cyan} {bytes} {msg}"
        }
    }

    /// Takes one body chunk of `len` bytes observed at `now_micros`.
    ///
    /// Counts the bytes, records the time to first byte on the first chunk
    /// only, and decides whether a progress refresh is due: at most one
    /// refresh per 100ms of wall-clock time, whose text is the instantaneous
    /// rate — bytes since the last refresh over the time since it — under the
    /// tracker's unit convention.
    pub fn on_chunk(&mut self, len: u64, now_micros: u64) -> (msg: Option<String>)
        requires
            old(self).wf(),
            now_micros >= old(self).last_update_micros,
            old(self).bytes_downloaded + len <= u64::MAX,
        ensures
            final(self).wf(),
            final(self).bytes_downloaded == old(self).bytes_downloaded + len,
            final(self).chunk_lens@ == old(self).chunk_lens@.push(len as int),
            old(self).ttfb_micros is None ==> final(self).ttfb_micros == Some(
                (now_micros - old(self).stream_start_micros) as u64,
            ),
            old(self).ttfb_micros is Some ==> final(self).ttfb_micros == old(self).ttfb_micros,
            final(self).status_code == old(self).status_code,
            final(self).total_size == old(self).total_size,
            final(self).connect_micros == old(self).connect_micros,
            final(self).stream_start_micros == old(self).stream_start_micros,
            final(self).speed_unit == old(self).speed_unit,
            msg is Some <==> now_micros - old(self).last_update_micros >= PROGRESS_REFRESH_MICROS,
            msg is Some ==> {
                &&& msg->0@ == spec_format_speed(
                    spec_instant_rate(
                        old(self).bytes_downloaded + len - old(self).last_downloaded,
                        now_micros - old(self).last_update_micros,
                    ),
                    old(self).speed_unit,
                )
                &&& final(self).last_update_micros == now_micros
                &&& final(self).last_downloaded == final(self).bytes_downloaded
            },
            msg is None ==> {
                &&& final(self).last_update_micros == old(self).last_update_micros
                &&& final(self).last_downloaded == old(self).last_downloaded
            },
    {
        if self.ttfb_micros.is_none() {
            self.ttfb_micros = Some(now_micros - self.stream_start_micros);
        }
        self.bytes_downloaded = self.bytes_downloaded + len;
        proof {
            self.chunk_lens@ = self.chunk_lens@.push(len as int);
            assert(self.chunk_lens@.drop_last() =~= old(self).chunk_lens@);
        }
        if now_micros - self.last_update_micros >= PROGRESS_REFRESH_MICROS {
            let elapsed = now_micros - self.last_update_micros;
            let diff = self.bytes_downloaded - self.last_downloaded;
            let rate = instant_rate(diff, elapsed);
            let text = format_speed(rate, self.speed_unit);
            self.last_update_micros = now_micros;
            self.last_downloaded = self.bytes_downloaded;
            Some(text)
        } else {
            None
        }
    }

    /// Ends the transfer at `end_micros`, when the body stream is exhausted,
    /// and produces the result record. The byte count is exactly the sum of
    /// every chunk observed; an empty body substitutes the connect time for
    /// the never-measured time to first byte; and the connect time never
    /// exceeds the total time.
    pub fn finish(self, end_micros: u64) -> (r: DownloadResult)
        requires
            self.wf(),
            end_micros >= self.stream_start_micros,
        ensures
            r.status_code == self.status_code,
            r.bytes_downloaded == self.bytes_downloaded,
            r.bytes_downloaded as int == sum_lens(self.chunk_lens@),
            r.connect_time == self.connect_micros,
            r.total_time == end_micros,
            r.ttfb == (match self.ttfb_micros {
                Some(t) => t,
                None => self.connect_micros,
            }),
            r.valid(),
    {
        DownloadResult {
            status_code: self.status_code,
            connect_time: self.connect_micros,
            ttfb: match self.ttfb_micros {
                Some(t) => t,
                None => self.connect_micros,
            },
            total_time: end_micros,
            bytes_downloaded: self.bytes_downloaded,
        }
    }
}

/// The filename under which a downloaded URL is saved: the part of the URL
/// after the last `/`, with any query string cut off first, or a fixed
/// fallback name where that part is empty.
pub open spec fn spec_extract_filename(s: Seq<char>) -> Seq<char> {
    let path = s.take(spec_first_index(s, '?'));
    let name = path.skip(spec_cut_end(path, '/'));
    if name.len() == 0 {
        "speedtest_file.dat"@
    } else {
        name
    }
}

/// Derives a local filename from a URL.
pub fn extract_filename(url: &str) -> (r: String)
    ensures
        r@ == spec_extract_filename(url@),
{
    let q = find_first(url, '?');
    let e = cut_end(url, '/', q);
    let name = url.substring_char(e, q);
    proof {
        assert(url@.subrange(e as int, q as int) =~= url@.take(q as int).skip(
            spec_cut_end(url@.take(q as int), '/'),
        ));
    }
    if name.unicode_len() == 0 {
        String::from_str("speedtest_file.dat")
    } else {
        name.to_owned()
    }
}

} // verus!
