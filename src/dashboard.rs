//! Values the dashboard shows, computed from the report: chart bounds, the
//! progress ratio, the wireless details, and where the bar chart's labels go.

use vstd::prelude::*;
use crate::pacer::NANOS_PER_SEC;

verus! {

/// Best-effort snapshot of the local wireless interface.
pub struct MachineDetails {
    pub ssid: String,
    /// Channel frequency in MHz.
    pub frequency: u32,
    /// Transmit bitrate in kbit/s.
    pub tx_bitrate: u64,
    /// Receive bitrate in kbit/s.
    pub rx_bitrate: u64,
    /// Average signal strength as reported by the driver.
    pub avg_signal: u8,
}

/// A bitrate given in units of 100 kbit/s, in kbit/s; zero when unknown.
pub open spec fn kbps_of(rate: Option<u32>) -> u64 {
    match rate {
        Some(r) => (r * 100) as u64,
        None => 0,
    }
}

impl MachineDetails {
    /// All fields empty or zero: what is shown when nothing can be read.
    pub fn new() -> (r: MachineDetails)
        ensures
            r.ssid@ == Seq::<char>::empty(),
            r.frequency == 0,
            r.tx_bitrate == 0,
            r.rx_bitrate == 0,
            r.avg_signal == 0,
    {
        MachineDetails {
            ssid: String::new(),
            frequency: 0,
            tx_bitrate: 0,
            rx_bitrate: 0,
            avg_signal: 0,
        }
    }

    /// The details of one station; each missing field becomes empty or zero.
    /// Bitrates are given in units of 100 kbit/s.
    pub fn from_station(
        ssid: Option<String>,
        frequency: Option<u32>,
        tx_bitrate: Option<u32>,
        rx_bitrate: Option<u32>,
        avg_signal: Option<u8>,
    ) -> (r: MachineDetails)
        ensures
            r.ssid@ == (match ssid {
                Some(s) => s@,
                None => Seq::<char>::empty(),
            }),
            r.frequency == (match frequency {
                Some(f) => f,
                None => 0,
            }),
            r.tx_bitrate == kbps_of(tx_bitrate),
            r.rx_bitrate == kbps_of(rx_bitrate),
            r.avg_signal == (match avg_signal {
                Some(a) => a,
                None => 0,
            }),
    {
        MachineDetails {
            ssid: match ssid {
                Some(s) => s,
                None => String::new(),
            },
            frequency: match frequency {
                Some(f) => f,
                None => 0,
            },
            tx_bitrate: kbps(tx_bitrate),
            rx_bitrate: kbps(rx_bitrate),
            avg_signal: match avg_signal {
                Some(a) => a,
                None => 0,
            },
        }
    }
}

fn kbps(rate: Option<u32>) -> (r: u64)
    ensures
        r == kbps_of(rate),
{
    match rate {
        Some(x) => x as u64 * 100,
        None => 0,
    }
}

/// Upper bounds of the latency chart, in whole seconds: the elapsed time
/// rounded down, and `p99 + 0.9 s` rounded down but at least one.
pub open spec fn chart_bounds_spec(elapsed: int, p99: int) -> (int, int) {
    let y = (p99 + 900_000_000) / NANOS_PER_SEC as int;
    (elapsed / NANOS_PER_SEC as int, if y < 1 { 1 } else { y })
}

/// The chart's axis bounds for `elapsed` and `p99`, both in nanoseconds.
pub fn chart_bounds(elapsed: u64, p99: u64) -> (r: (u64, u64))
    ensures
        (r.0 as int, r.1 as int) == chart_bounds_spec(elapsed as int, p99 as int),
{
    let y: u128 = (p99 as u128 + 900_000_000) / (NANOS_PER_SEC as u128);
    let y: u64 = if y < 1 { 1 } else { y as u64 };
    (elapsed / NANOS_PER_SEC, y)
}

/// Parts per million in a whole.
pub const PPM: u64 = 1_000_000;

/// `elapsed / total` clamped to `[0, 1]`, in parts per million.
pub open spec fn progress_ppm_spec(elapsed: int, total: int) -> int {
    let p = elapsed * PPM / total;
    if p > PPM { PPM as int } else { p }
}

/// Progress of the test, `elapsed / total` clamped to `[0, 1]`, in parts per
/// million.
pub fn progress_ppm(elapsed: u64, total: u64) -> (r: u64)
    requires
        total > 0,
    ensures
        r == progress_ppm_spec(elapsed as int, total as int),
{
    let p: u128 = elapsed as u128 * (PPM as u128) / (total as u128);
    if p > PPM as u128 {
        PPM
    } else {
        p as u64
    }
}

/// Number of terminal columns a string occupies.
pub uninterp spec fn display_width(s: Seq<char>) -> nat;

/// Relies on unicode_width::UnicodeWidthStr::width: the number of terminal
/// columns that the string's characters occupy, zero for an empty string.
#[verifier::external_body]
fn str_width(s: &str) -> (r: usize)
    ensures
        r as nat == display_width(s@),
        s@.len() == 0 ==> r == 0,
{
    unicode_width::UnicodeWidthStr::width(s)
}

/// How many bars of a chart fit in `area_width` columns, at most `len`.
pub open spec fn visible_bars_spec(area_width: int, bar_width: int, bar_gap: int, len: int) -> int {
    let fit = area_width / (bar_width + bar_gap);
    if fit < len { fit } else { len }
}

/// How many bars of a chart fit in `area_width` columns, at most `len`.
pub fn visible_bars(area_width: u16, bar_width: u16, bar_gap: u16, len: usize) -> (r: usize)
    requires
        bar_width + bar_gap > 0,
    ensures
        r as int == visible_bars_spec(area_width as int, bar_width as int, bar_gap as int, len as int),
{
    let fit: usize = (area_width as u32 / (bar_width as u32 + bar_gap as u32)) as usize;
    if fit < len {
        fit
    } else {
        len
    }
}

/// The column where bar `index` starts, if it is a valid column.
pub open spec fn bar_column_spec(left: int, index: int, bar_width: int, bar_gap: int) -> int {
    left + index * (bar_width + bar_gap)
}

/// The column where bar `index` starts, counted from `left`; `None` when it
/// lies beyond the last column a terminal can address.
pub fn bar_column(left: u16, index: u16, bar_width: u16, bar_gap: u16) -> (r: Option<u16>)
    ensures
        r == (if bar_column_spec(left as int, index as int, bar_width as int, bar_gap as int)
            <= u16::MAX {
            Some(bar_column_spec(left as int, index as int, bar_width as int, bar_gap as int) as u16)
        } else {
            None::<u16>
        }),
{
    proof {
        assert(index * (bar_width + bar_gap) <= 0xffff * 0x1fffe) by (nonlinear_arith)
            requires
                index <= 0xffff,
                bar_width + bar_gap <= 0x1fffe,
        ;
    }
    let x: u64 = left as u64 + index as u64 * (bar_width as u64 + bar_gap as u64);
    if x <= u16::MAX as u64 {
        Some(x as u16)
    } else {
        None
    }
}

/// The column of a value label `width` columns wide, centred under bar
/// `index`: only a label narrower than the bar is shown.
pub open spec fn value_label_column_spec(
    left: int,
    index: int,
    bar_width: int,
    bar_gap: int,
    width: int,
) -> Option<int> {
    let x = bar_column_spec(left, index, bar_width, bar_gap) + (bar_width - width) / 2;
    if width < bar_width && x <= u16::MAX {
        Some(x)
    } else {
        None
    }
}

/// Where a value label `width` columns wide starts under bar `index`; `None`
/// when it is not narrower than the bar or lies beyond the last column.
pub fn value_label_column_for_width(
    left: u16,
    index: u16,
    bar_width: u16,
    bar_gap: u16,
    width: usize,
) -> (r: Option<u16>)
    ensures
        match value_label_column_spec(
            left as int,
            index as int,
            bar_width as int,
            bar_gap as int,
            width as int,
        ) {
            Some(x) => r == Some(x as u16),
            None => r is None,
        },
{
    if width >= bar_width as usize {
        return None;
    }
    proof {
        assert(index * (bar_width + bar_gap) <= 0xffff * 0x1fffe) by (nonlinear_arith)
            requires
                index <= 0xffff,
                bar_width + bar_gap <= 0x1fffe,
        ;
    }
    let start: u64 = left as u64 + index as u64 * (bar_width as u64 + bar_gap as u64);
    let x: u64 = start + (bar_width as u64 - width as u64) / 2;
    if x <= u16::MAX as u64 {
        Some(x as u16)
    } else {
        None
    }
}

/// Where `label` starts when centred under bar `index`, by its display
/// width; `None` when it is not narrower than the bar or lies beyond the
/// last column.
pub fn value_label_column(
    left: u16,
    index: u16,
    bar_width: u16,
    bar_gap: u16,
    label: &str,
) -> (r: Option<u16>)
    ensures
        match value_label_column_spec(
            left as int,
            index as int,
            bar_width as int,
            bar_gap as int,
            display_width(label@) as int,
        ) {
            Some(x) => r == Some(x as u16),
            None => r is None,
        },
{
    let width = str_width(label);
    value_label_column_for_width(left, index, bar_width, bar_gap, width)
}

/// A value in the request-details list.
#[derive(Clone, Copy, Debug, PartialEq, Eq)]
pub enum Number {
    /// A plain count.
    Int(i64),
    /// A span of time, in nanoseconds.
    Nanos(u64),
}

/// The rows of the request-details list, as (label, value) pairs.
pub struct RequestWrapper {
    pub events: Vec<(&'static str, Number)>,
}

impl RequestWrapper {
    /// The four rows: total requests, succeeded, failed, transaction rate.
    pub fn new(totreq: Number, s: Number, f: Number, tr: Number) -> (r: RequestWrapper)
        ensures
            r.events@.len() == 4,
            r.events@[0].0@ == "Total Requests"@,
            r.events@[1].0@ == "Succeeded"@,
            r.events@[2].0@ == "Failed"@,
            r.events@[3].0@ == "Transaction Rate"@,
            r.events@[0].1 == totreq,
            r.events@[1].1 == s,
            r.events@[2].1 == f,
            r.events@[3].1 == tr,
    {
        RequestWrapper {
            events: vec![
                ("Total Requests", totreq),
                ("Succeeded", s),
                ("Failed", f),
                ("Transaction Rate", tr),
            ],
        }
    }

    /// The rows for a report: its three counters and its transaction rate.
    pub fn of_report(report: &crate::report::Report) -> (r: RequestWrapper)
        ensures
            r.events@.len() == 4,
            r.events@[0].1 == Number::Int(report.total_requests),
            r.events@[1].1 == Number::Int(report.succeeded),
            r.events@[2].1 == Number::Int(report.failed),
            r.events@[3].1 == Number::Nanos(report.transaction_rate),
    {
        RequestWrapper::new(
            Number::Int(report.total_requests),
            Number::Int(report.succeeded),
            Number::Int(report.failed),
            Number::Nanos(report.transaction_rate),
        )
    }
}

} // verus!
