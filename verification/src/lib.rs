//! A typed front end for a round-robin database engine that is driven by
//! flat command strings.
//!
//! The library turns structured, validated configuration into the exact
//! tokens that the engine reads, and turns what the engine hands back into
//! owned, checked values.  Every function is verified against a contract
//! over the text it produces or the value it decodes.
use vstd::prelude::*;
use crate::text::signed_decimal;

pub mod data;
pub mod error;
pub mod number;
pub mod ops;
pub mod text;
pub mod util;

verus! {

/// How to aggregate primary data points in an archive.
#[allow(missing_docs)]
#[derive(Debug, Clone, Copy, PartialEq, Eq, Structural)]
pub enum ConsolidationFn {
    Avg,
    Min,
    Max,
    Last,
}

/// A point in time: whole seconds since the start of 1970, UTC.
#[derive(Debug, Clone, Copy, PartialEq, Eq, Structural)]
pub struct Timestamp {
    /// Seconds since the epoch; negative before it.
    pub secs: i64,
}

impl Timestamp {
    /// The point in time `secs` seconds after the epoch.
    pub fn from_timestamp(secs: i64) -> (t: Timestamp)
        ensures
            t.secs == secs,
    {
        Timestamp { secs }
    }

    /// Seconds since the epoch.
    pub fn timestamp(&self) -> (secs: i64)
        ensures
            secs == self.secs,
    {
        self.secs
    }

    /// The numeral of the seconds since the epoch, as the engine reads a time.
    pub open spec fn text(self) -> Seq<char> {
        signed_decimal(self.secs as int)
    }
}

/// The numeral of a time, if there is one.
pub open spec fn time_text(v: Option<Timestamp>) -> Option<Seq<char>> {
    match v {
        Some(t) => Some(t.text()),
        None => None,
    }
}

impl ConsolidationFn {
    /// The keyword that the engine reads for this function.
    pub open spec fn keyword(self) -> Seq<char> {
        match self {
            ConsolidationFn::Avg => "AVERAGE"@,
            ConsolidationFn::Min => "MIN"@,
            ConsolidationFn::Max => "MAX"@,
            ConsolidationFn::Last => "LAST"@,
        }
    }

    /// The keyword that the engine reads for this function.
    pub fn as_arg_str(&self) -> (s: &'static str)
        ensures
            s@ == self.keyword(),
    {
        match self {
            ConsolidationFn::Avg => "AVERAGE",
            ConsolidationFn::Min => "MIN",
            ConsolidationFn::Max => "MAX",
            ConsolidationFn::Last => "LAST",
        }
    }
}

} // verus!
