//! Value types of the station catalog and the play-time formatter.
//!
//! The catalog itself lives in a relational store that the surrounding
//! application talks to; this module holds the records it exchanges
//! and the formatting of accumulated play time.

use vstd::prelude::*;

use crate::strutil::{spec_dec, to_dec_string};

verus! {

/// One saved station.
#[derive(Clone, Debug)]
pub struct Station {
    pub id: i32,
    pub name: String,
    pub url: String,
    pub favorite: bool,
    pub description: Option<String>,
}

/// Usage statistics of one station.
pub struct StationStats {
    pub station_id: i32,
    /// Total play time in seconds.
    pub total_play_time: i64,
    /// Unix timestamp of the last play, if any.
    pub last_played: Option<i64>,
}

/// Play time rendered for display: seconds below a minute, minutes and
/// seconds below an hour, hours and minutes beyond.
pub open spec fn spec_format_play_time(s: int) -> Seq<char> {
    if s < 60 {
        spec_dec(s) + "s"@
    } else if s < 3600 {
        spec_dec(s / 60) + "m "@ + spec_dec(s % 60) + "s"@
    } else {
        spec_dec(s / 3600) + "h "@ + spec_dec((s % 3600) / 60) + "m"@
    }
}

/// Formats a nonnegative play time in seconds.
pub fn format_play_time(seconds: i64) -> (r: String)
    requires
        seconds >= 0,
    ensures
        r@ == spec_format_play_time(seconds as int),
{
    if seconds < 60 {
        let mut t = to_dec_string(seconds as u64);
        t.append("s");
        t
    } else if seconds < 3600 {
        let mut t = to_dec_string((seconds / 60) as u64);
        t.append("m ");
        let rest = to_dec_string((seconds % 60) as u64);
        t.append(rest.as_str());
        t.append("s");
        proof {
            assert(t@ =~= spec_format_play_time(seconds as int));
        }
        t
    } else {
        let mut t = to_dec_string((seconds / 3600) as u64);
        t.append("h ");
        let rest = to_dec_string(((seconds % 3600) / 60) as u64);
        t.append(rest.as_str());
        t.append("m");
        proof {
            assert(t@ =~= spec_format_play_time(seconds as int));
        }
        t
    }
}

} // verus!
