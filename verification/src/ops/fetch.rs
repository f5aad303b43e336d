//! Fetch data from a database.
use vstd::prelude::*;
use crate::data::{Data, DataView};
use crate::error::{RrdErrorView, RrdResult};
use crate::util::{has_nul, is_first_nul, nul_free_copy};
use crate::{ConsolidationFn, Timestamp};

verus! {

/// What the engine is given for a fetch.
#[derive(Debug)]
pub struct FetchCall {
    /// The path of the database.
    pub filename: String,
    /// The keyword of the consolidation function.
    pub cf: &'static str,
    /// The start of the time range, in seconds since the epoch.
    pub start: i64,
    /// The end of the time range, in seconds since the epoch.
    pub end: i64,
    /// The seconds between two rows.
    pub resolution: u64,
}

/// Prepares a fetch of the data of `filename` between `start` and `end`,
/// consolidated with `cf`.
pub fn fetch(
    filename: &str,
    cf: ConsolidationFn,
    start: Timestamp,
    end: Timestamp,
    resolution: u64,
) -> (r: RrdResult<FetchCall>)
    ensures
        has_nul(filename@) ==> (r matches Err(e) && e@ matches RrdErrorView::NulError(n)
            && is_first_nul(filename@, n.position as int)),
        !has_nul(filename@) ==> (r matches Ok(call) && call.filename@ == filename@ && call.cf@
            == cf.keyword() && call.start == start.secs && call.end == end.secs && call.resolution
            == resolution),
{
    let filename = nul_free_copy(filename)?;
    Ok(
        FetchCall {
            filename,
            cf: cf.as_arg_str(),
            start: start.secs,
            end: end.secs,
            resolution,
        },
    )
}

/// The time of the first row of the engine's answer: one step after the start
/// that the engine names, because the data of a row cover the time that ends
/// at the row's own time.
pub open spec fn first_row_time(start: i64, step: u64) -> int {
    start + step
}

/// The number of rows of the engine's answer.
pub open spec fn answer_rows(start: i64, end: i64, step: u64) -> int {
    (end - first_row_time(start, step)) / (step as int) + 1
}

/// The engine's answer has a shape that can be read: a positive step, at
/// least one data source, a first row that is not later than the end, and
/// counts that fit the machine.
pub open spec fn answer_fits(start: i64, end: i64, step: u64, ds_count: u64) -> bool {
    &&& step > 0
    &&& ds_count > 0
    &&& first_row_time(start, step) <= end
    &&& end - first_row_time(start, step) <= i64::MAX
    &&& answer_rows(start, end, step) * ds_count <= usize::MAX
}

/// The shape of the engine's answer to a fetch.
#[derive(Debug, Clone, Copy)]
pub struct FetchShape {
    start: Timestamp,
    end: Timestamp,
    step: u64,
    ds_count: usize,
    rows: usize,
}

impl FetchShape {
    #[verifier::type_invariant]
    spec fn well_formed(&self) -> bool {
        &&& self.step > 0
        &&& self.ds_count > 0
        &&& self.rows >= 1
        &&& self.rows * self.ds_count <= usize::MAX
        &&& self.start.secs + self.step * (self.rows - 1) <= self.end.secs
    }

    /// The time of the first row.
    pub closed spec fn start(&self) -> Timestamp {
        self.start
    }

    /// The time of the end.
    pub closed spec fn end(&self) -> Timestamp {
        self.end
    }

    /// The seconds between two rows.
    pub closed spec fn step(&self) -> u64 {
        self.step
    }

    /// The number of data sources.
    pub closed spec fn ds_count(&self) -> usize {
        self.ds_count
    }

    /// The number of rows.
    pub closed spec fn rows(&self) -> usize {
        self.rows
    }

    /// The shape of an answer that names `start`, `end`, `step` and the
    /// number of data sources, if it is a shape that can be read.
    pub fn new(start: i64, end: i64, step: u64, ds_count: u64) -> (r: Option<FetchShape>)
        ensures
            r is Some <==> answer_fits(start, end, step, ds_count),
            r matches Some(s) ==> {
                &&& s.start().secs == first_row_time(start, step)
                &&& s.end().secs == end
                &&& s.step() == step
                &&& s.ds_count() == ds_count
                &&& s.rows() == answer_rows(start, end, step)
            },
    {
        if step == 0 || ds_count == 0 {
            return None;
        }
        let first: i128 = start as i128 + step as i128;
        if first > end as i128 {
            return None;
        }
        let range: i128 = end as i128 - first;
        if range > 0x7fff_ffff_ffff_ffff {
            return None;
        }
        let rows: i128 = range / (step as i128) + 1;
        proof {
            assert(0 <= range / (step as i128) <= range) by (nonlinear_arith)
                requires
                    range >= 0,
                    step > 0,
            ;
            assert((range / (step as i128)) * step <= range) by (nonlinear_arith)
                requires
                    range >= 0,
                    step > 0,
            ;
            assert(step * (rows - 1) == (range / (step as i128)) * step) by (nonlinear_arith)
                requires
                    rows - 1 == range / (step as i128),
            ;
        }
        proof {
            assert(0 <= rows * ds_count <= 0x8000_0000_0000_0000 * 0xffff_ffff_ffff_ffff)
                by (nonlinear_arith)
                requires
                    0 <= rows <= 0x8000_0000_0000_0000,
                    0 <= ds_count <= 0xffff_ffff_ffff_ffff,
            ;
        }
        let len: i128 = rows * (ds_count as i128);
        if len > usize::MAX as i128 {
            return None;
        }
        proof {
            assert(rows <= rows * ds_count) by (nonlinear_arith)
                requires
                    rows >= 1,
                    ds_count >= 1,
            ;
            assert(ds_count <= rows * ds_count) by (nonlinear_arith)
                requires
                    rows >= 1,
                    ds_count >= 1,
            ;
        }
        Some(
            FetchShape {
                start: Timestamp { secs: first as i64 },
                end: Timestamp { secs: end },
                step,
                ds_count: ds_count as usize,
                rows: rows as usize,
            },
        )
    }

    /// The number of samples of the answer: one for each row and data source.
    pub fn len(&self) -> (n: usize)
        ensures
            n == self.rows() * self.ds_count(),
    {
        proof {
            use_type_invariant(self);
        }
        self.rows * self.ds_count
    }

    /// The number of data sources.
    pub fn source_count(&self) -> (n: usize)
        ensures
            n == self.ds_count(),
            n > 0,
    {
        proof {
            use_type_invariant(self);
        }
        self.ds_count
    }

    /// The dataset of the answer, from the names of its data sources and its
    /// samples.
    pub fn into_data<T>(self, names: Vec<String>, data: Vec<T>) -> (d: Data<T>)
        requires
            names.len() == self.ds_count(),
            data.len() == self.rows() * self.ds_count(),
        ensures
            d@ == (DataView {
                start: self.start(),
                end: self.end(),
                step: self.step(),
                names: names.deep_view(),
                samples: data@,
            }),
            d@.row_count() == self.rows(),
    {
        proof {
            use_type_invariant(&self);
            let n = names.len() as int;
            let rows = self.rows as int;
            assert(names.deep_view().len() == n);
            assert((rows * n) % n == 0 && (rows * n) / n == rows) by (nonlinear_arith)
                requires
                    n > 0,
            ;
        }
        Data::new(self.start, self.end, self.step, names, data)
    }
}

} // verus!
