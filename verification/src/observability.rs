//! Observability values: log configuration and timestamp formatting.
//!
//! Wiring a subscriber and writing log files happens outside this crate;
//! what is verified here is the data it runs on — the service
//! configuration and the RFC 3339 timestamps stamped on every entry.

use vstd::prelude::*;
use vstd::string::*;

use crate::clock::{
    civil_from_days, civil_spec, date_str_spec, iso_date_from_secs, now_unix, pad2, pad2_spec,
    pad3, pad3_spec,
};
use crate::text::str_concat;

verus! {

/// Configuration for observability setup.
#[derive(Debug, Clone)]
pub struct ObservabilityConfig {
    /// The service name used in log entries.
    pub service: String,
    /// Directory for log files; platform defaults apply when absent.
    pub log_dir: Option<String>,
}

impl ObservabilityConfig {
    /// Build the configuration, with an optional log-directory override.
    pub fn from_env_with_overrides(log_dir: Option<String>) -> (r: ObservabilityConfig)
        ensures
            r.service@ == "scrat"@,
            r.log_dir == log_dir,
    {
        ObservabilityConfig { service: String::from_str("scrat"), log_dir }
    }
}

/// Convert days since the Unix epoch to `(year, month, day)`.
pub fn days_to_ymd(days: i64) -> (r: (i32, u32, u32))
    requires
        0 <= days <= 100_000_000,
    ensures
        (r.0 as int, r.1 as int, r.2 as int) == civil_spec(days as int),
        1 <= r.1 <= 12,
        1 <= r.2 <= 31,
{
    let c = civil_from_days(days as u64);
    (c.0 as i32, c.1 as u32, c.2 as u32)
}

/// The RFC 3339 timestamp for a Unix instant:
/// `YYYY-MM-DDTHH:MM:SS.mmmZ`.
pub open spec fn timestamp_str_spec(secs: int, nanos: int) -> Seq<char> {
    let h = secs % 86_400 / 3600;
    let mi = secs % 3600 / 60;
    let se = secs % 60;
    let ms = nanos / 1_000_000;
    date_str_spec(secs) + seq!['T'] + pad2_spec(h) + seq![':'] + pad2_spec(mi) + seq![':']
        + pad2_spec(se) + seq!['.'] + pad3_spec(ms) + seq!['Z']
}

/// Format a Unix instant as an RFC 3339 timestamp (UTC).
pub fn format_timestamp_parts(secs: u64, nanos: u32) -> (r: String)
    requires
        nanos < 1_000_000_000,
    ensures
        r@ == timestamp_str_spec(secs as int, nanos as int),
        r@.len() == 24,
        r@[4] == '-',
        r@[7] == '-',
        r@[10] == 'T',
        r@[23] == 'Z',
{
    let day_secs: u64 = secs % 86_400;
    let h: u64 = day_secs / 3600;
    let mi: u64 = secs % 3600 / 60;
    let se: u64 = secs % 60;
    let ms: u64 = (nanos as u64) / 1_000_000;
    proof {
        assert(h <= 23 && mi <= 59 && ms <= 999) by (nonlinear_arith)
            requires
                day_secs == secs % 86_400,
                h == day_secs / 3600,
                mi == secs % 3600 / 60,
                ms == (nanos as u64) / 1_000_000,
                nanos < 1_000_000_000,
        ;
    }
    let date = iso_date_from_secs(secs);
    let a = str_concat(date.as_str(), "T");
    let b = str_concat(a.as_str(), pad2(h).as_str());
    let c = str_concat(b.as_str(), ":");
    let d = str_concat(c.as_str(), pad2(mi).as_str());
    let e = str_concat(d.as_str(), ":");
    let f = str_concat(e.as_str(), pad2(se).as_str());
    let g = str_concat(f.as_str(), ".");
    let h2 = str_concat(g.as_str(), pad3(ms).as_str());
    let r = str_concat(h2.as_str(), "Z");
    proof {
        reveal_strlit("T");
        reveal_strlit(":");
        reveal_strlit(".");
        reveal_strlit("Z");
        assert(r@ =~= timestamp_str_spec(secs as int, nanos as int));
        assert(r@.len() == 24);
        assert(r@[10] == 'T');
        assert(r@[23] == 'Z');
    }
    r
}

/// The current time as an RFC 3339 timestamp (UTC).
pub fn format_timestamp() -> (r: String)
    ensures
        r@.len() == 24,
        r@[4] == '-',
        r@[7] == '-',
        r@[10] == 'T',
        r@[23] == 'Z',
        exists|secs: int, nanos: int|
            0 <= nanos < 1_000_000_000 && r@ == #[trigger] timestamp_str_spec(secs, nanos),
{
    let clock = now_unix();
    let r = format_timestamp_parts(clock.0, clock.1);
    proof {
        assert(r@ == timestamp_str_spec(clock.0 as int, clock.1 as int));
    }
    r
}

} // verus!
