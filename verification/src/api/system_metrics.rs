//! The window of host utilization samples a request for system metrics
//! reads.
use vstd::prelude::*;

use crate::text::{decimal, push_decimal, push_str};

verus! {

/// How many days of samples are read when none are asked for.
pub fn default_days() -> (r: u32)
    ensures
        r == 14,
{
    14
}

/// The query of a system metrics request.
#[derive(Clone, Debug)]
pub struct SystemMetricsParams {
    pub days: u32,
    pub start: Option<String>,
    pub end: Option<String>,
}

/// Which samples are read.
#[derive(Clone, Debug)]
pub enum SampleWindow {
    /// The samples recorded between the two times.
    Range { start: String, end: String },
    /// The samples of the last days.
    LastDays(u32),
}

/// Reads the window of a request: the given range (open ends reach from
/// `1970-01-01` to `9999-12-31`) when either end is given, else the last
/// `days` days, between 1 and 365.
pub fn sample_window(params: &SystemMetricsParams) -> (r: SampleWindow)
    ensures
        (params.start is Some || params.end is Some) ==> (r matches SampleWindow::Range { start, end } && start@
            == match params.start {
            Some(s) => s@,
            None => "1970-01-01"@,
        } && end@ == match params.end {
            Some(e) => e@,
            None => "9999-12-31"@,
        }),
        (params.start is None && params.end is None) ==> (r matches SampleWindow::LastDays(d) && d == if params.days
            < 1 {
            1
        } else if params.days > 365 {
            365
        } else {
            params.days
        }),
{
    if params.start.is_some() || params.end.is_some() {
        let start = match &params.start {
            Some(s) => s.clone(),
            None => String::from_str("1970-01-01"),
        };
        let end = match &params.end {
            Some(e) => e.clone(),
            None => String::from_str("9999-12-31"),
        };
        SampleWindow::Range { start, end }
    } else {
        let d: u32 = if params.days < 1 {
            1
        } else if params.days > 365 {
            365
        } else {
            params.days
        };
        SampleWindow::LastDays(d)
    }
}

/// The SQLite date modifier that reaches back `days` days.
pub fn days_back_modifier(days: u32) -> (r: String)
    ensures
        r@ == "-"@ + decimal(days as nat) + " days"@,
{
    let mut s = String::new();
    push_str(&mut s, "-");
    push_decimal(&mut s, days as u64);
    push_str(&mut s, " days");
    s
}

} // verus!
