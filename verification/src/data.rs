//! Navigating a fetched data set.
//!
//! A data set is a table: one column for each data source, one row for each
//! step of time.  The samples of the table lie row after row in one buffer.
use vstd::prelude::*;
use crate::Timestamp;

verus! {

/// What a [`Data`] holds.
pub struct DataView<T> {
    /// The time of the first row.
    pub start: Timestamp,
    /// The time of the last row.
    pub end: Timestamp,
    /// The seconds between two rows.
    pub step: u64,
    /// The names of the data sources: the columns.
    pub names: Seq<Seq<char>>,
    /// The samples, row after row.
    pub samples: Seq<T>,
}

impl<T> DataView<T> {
    /// The number of rows.
    pub open spec fn row_count(self) -> int {
        self.samples.len() as int / self.names.len() as int
    }

    /// The time of row `index`: `start + step * index`.
    pub open spec fn row_time(self, index: int) -> int {
        self.start.secs + self.step * index
    }

    /// The samples of row `index`: those from `index * n` up to
    /// `index * n + n`, where `n` is the number of data sources.
    pub open spec fn row(self, index: int) -> Seq<T> {
        self.samples.subrange(index * self.names.len(), index * self.names.len() + self.names.len())
    }

    /// There is a data source, the samples fill whole rows, and the time of
    /// every row can be written.
    pub open spec fn well_formed(self) -> bool {
        &&& self.names.len() > 0
        &&& self.samples.len() % self.names.len() == 0
        &&& self.row_count() > 0 ==> self.row_time(self.row_count() - 1) <= i64::MAX
    }
}

/// The dataset that a fetch gives: the samples, and with them the start, the
/// end, the step and the names of the data sources.
#[derive(Debug)]
pub struct Data<T> {
    start: Timestamp,
    end: Timestamp,
    step: u64,
    names: Vec<String>,
    data: Vec<T>,
    row_count: usize,
}

impl<T> View for Data<T> {
    type V = DataView<T>;

    closed spec fn view(&self) -> DataView<T> {
        DataView {
            start: self.start,
            end: self.end,
            step: self.step,
            names: self.names.deep_view(),
            samples: self.data@,
        }
    }
}

/// A whole number of rows of `n` samples each holds `rows * n` samples.
pub proof fn lemma_rows(len: int, n: int)
    requires
        n > 0,
        len >= 0,
        len % n == 0,
    ensures
        (len / n) * n == len,
        len / n >= 0,
{
    assert((len / n) * n == len) by (nonlinear_arith)
        requires
            n > 0,
            len % n == 0,
    ;
    assert(len / n >= 0) by (nonlinear_arith)
        requires
            n > 0,
            len >= 0,
    ;
}

/// Row `index` of `rows` rows lies within the samples, and is not later than
/// the last row.
pub proof fn lemma_row_bounds(index: int, rows: int, n: int, step: int)
    requires
        0 <= index < rows,
        n > 0,
        step >= 0,
    ensures
        0 <= index * n,
        index * n + n <= rows * n,
        0 <= step * index <= step * (rows - 1),
{
    assert(0 <= index * n && index * n + n <= rows * n) by (nonlinear_arith)
        requires
            0 <= index < rows,
            n > 0,
    ;
    assert(0 <= step * index <= step * (rows - 1)) by (nonlinear_arith)
        requires
            0 <= index < rows,
            step >= 0,
    ;
}

impl<T> Data<T> {
    #[verifier::type_invariant]
    spec fn well_formed(&self) -> bool {
        &&& self@.well_formed()
        &&& self.row_count == self@.row_count()
    }

    /// Wraps the samples of a fetch.
    ///
    /// The samples must fill whole rows: a buffer of another length can only
    /// come from a mistake in reading the engine's answer.
    pub fn new(start: Timestamp, end: Timestamp, step: u64, names: Vec<String>, data: Vec<T>) -> (d:
        Self)
        requires
            (DataView { start, end, step, names: names.deep_view(), samples: data@ }).well_formed(),
        ensures
            d@ == (DataView { start, end, step, names: names.deep_view(), samples: data@ }),
    {
        proof {
            lemma_rows(data.len() as int, names.len() as int);
        }
        let row_count = data.len() / names.len();
        Self { start, end, step, names, data, row_count }
    }

    /// The time of the first row.
    pub fn start(&self) -> (t: Timestamp)
        ensures
            t == self@.start,
    {
        self.start
    }

    /// The time of the last row.
    pub fn end(&self) -> (t: Timestamp)
        ensures
            t == self@.end,
    {
        self.end
    }

    /// The seconds between two rows.
    pub fn step(&self) -> (s: u64)
        ensures
            s == self@.step,
    {
        self.step
    }

    /// The number of rows.
    pub fn row_count(&self) -> (n: usize)
        ensures
            n == self@.row_count(),
            self@.well_formed(),
    {
        proof {
            use_type_invariant(self);
        }
        self.row_count
    }

    /// The names of the data sources: the columns.
    pub fn ds_names(&self) -> (names: &[String])
        ensures
            names@.len() == self@.names.len(),
            forall|i: int| 0 <= i < names@.len() ==> (#[trigger] names@[i])@ == self@.names[i],
    {
        self.names.as_slice()
    }

    /// The rows.
    pub fn rows(&self) -> (rows: Rows<'_, T>)
        ensures
            rows@ == self@,
    {
        Rows { data: self }
    }
}

/// The rows of a [`Data`].
#[derive(Debug)]
pub struct Rows<'data, T> {
    data: &'data Data<T>,
}

impl<'data, T> View for Rows<'data, T> {
    type V = DataView<T>;

    closed spec fn view(&self) -> DataView<T> {
        self.data@
    }
}

impl<'data, T> Rows<'data, T> {
    /// The number of rows.
    pub fn len(&self) -> (n: usize)
        ensures
            n == self@.row_count(),
    {
        self.data.row_count()
    }

    /// True if and only if there are 0 rows.
    pub fn is_empty(&self) -> (b: bool)
        ensures
            b == (self@.row_count() == 0),
    {
        self.data.row_count() == 0
    }

    /// Row `index`, if there is one.
    pub fn get(&self, index: usize) -> (r: Option<Row<'data, T>>)
        ensures
            index < self@.row_count() ==> (r matches Some(row) && row.data_view() == self@
                && row.index() == index),
            index >= self@.row_count() ==> r is None,
    {
        if index < self.data.row_count() {
            Some(Row::new(self.data, index))
        } else {
            None
        }
    }

    /// Walks the rows from the first one.
    pub fn iter(&self) -> (it: RowsIter<'data, T>)
        ensures
            it.data_view() == self@,
            it.position() == 0,
    {
        RowsIter::new(self.data)
    }
}

/// A walk over the rows of a [`Data`].
#[derive(Debug)]
pub struct RowsIter<'data, T> {
    data: &'data Data<T>,
    max_index: usize,
    next_index: usize,
}

impl<'data, T> RowsIter<'data, T> {
    #[verifier::type_invariant]
    spec fn well_formed(&self) -> bool {
        self.max_index == self.data@.row_count()
    }

    /// The dataset that is walked.
    pub closed spec fn data_view(&self) -> DataView<T> {
        self.data@
    }

    /// The index of the row that comes next.
    pub closed spec fn position(&self) -> int {
        self.next_index as int
    }

    fn new(data: &'data Data<T>) -> (it: Self)
        ensures
            it.data_view() == data@,
            it.position() == 0,
    {
        Self { data, max_index: data.row_count(), next_index: 0 }
    }

    /// The next row, or `None` after the last one.
    pub fn next(&mut self) -> (r: Option<Row<'data, T>>)
        ensures
            final(self).data_view() == old(self).data_view(),
            old(self).position() < old(self).data_view().row_count() ==> (r matches Some(row)
                && row.data_view() == old(self).data_view() && row.index() == old(self).position()
                && final(self).position() == old(self).position() + 1),
            old(self).position() >= old(self).data_view().row_count() ==> (r is None
                && final(self).position() == old(self).position()),
    {
        proof {
            use_type_invariant(&*self);
        }
        if self.next_index < self.max_index {
            let index = self.next_index;
            let data = self.data;
            let max_index = self.max_index;
            *self = RowsIter { data, max_index, next_index: index + 1 };
            Some(Row::new(data, index))
        } else {
            None
        }
    }

    /// The number of rows of the dataset, as the lower and the upper bound.
    pub fn size_hint(&self) -> (r: (usize, Option<usize>))
        ensures
            r.0 == self.data_view().row_count(),
            r.1 == Some(r.0),
    {
        proof {
            use_type_invariant(self);
        }
        (self.max_index, Some(self.max_index))
    }
}

/// The samples of one time.
#[derive(Debug)]
pub struct Row<'data, T> {
    data: &'data Data<T>,
    data_offset: usize,
    timestamp: Timestamp,
}

impl<'data, T> Row<'data, T> {
    #[verifier::type_invariant]
    spec fn well_formed(&self) -> bool {
        &&& self.data@.well_formed()
        &&& 0 <= self.index() < self.data@.row_count()
        &&& self.data_offset == self.index() * self.data@.names.len()
        &&& self.timestamp.secs == self.data@.row_time(self.index())
    }

    /// The dataset that the row belongs to.
    pub closed spec fn data_view(&self) -> DataView<T> {
        self.data@
    }

    /// The index of the row.
    pub closed spec fn index(&self) -> int {
        self.data_offset as int / self.data@.names.len() as int
    }

    fn new(data: &'data Data<T>, row_index: usize) -> (row: Self)
        requires
            row_index < data@.row_count(),
        ensures
            row.data_view() == data@,
            row.index() == row_index,
    {
        let rows = data.row_count();
        let n = data.names.len();
        proof {
            assert(data@.names.len() == n);
            assert(data@.samples.len() == data.data.len());
            lemma_rows(data.data.len() as int, n as int);
            lemma_row_bounds(row_index as int, rows as int, n as int, data.step as int);
            assert(n * row_index == row_index * n) by (nonlinear_arith);
            assert((row_index * n) / (n as int) == row_index) by (nonlinear_arith)
                requires
                    n > 0,
                    row_index >= 0,
            ;
            assert(data@.row_time(rows - 1) <= i64::MAX);
            assert(data.step * row_index <= data.step * (rows - 1));
        }
        let secs: i128 = data.start.secs as i128 + (data.step as i128) * (row_index as i128);
        Self {
            data,
            data_offset: n * row_index,
            timestamp: Timestamp { secs: secs as i64 },
        }
    }

    /// The time of the row: `start + step * index`.
    pub fn timestamp(&self) -> (t: Timestamp)
        ensures
            t.secs == self.data_view().row_time(self.index()),
    {
        proof {
            use_type_invariant(self);
        }
        self.timestamp
    }

    /// The samples of the row, in the order of the names of the data sources.
    pub fn as_slice(&self) -> (s: &[T])
        ensures
            s@ == self.data_view().row(self.index()),
            s@.len() == self.data_view().names.len(),
    {
        proof {
            use_type_invariant(self);
            let n = self.data@.names.len() as int;
            assert(n == self.data.names.len());
            assert(self.data@.samples.len() == self.data.data.len());
            lemma_rows(self.data@.samples.len() as int, n);
            lemma_row_bounds(self.index(), self.data@.row_count(), n, 0);
        }
        let n = self.data.names.len();
        vstd::slice::slice_subrange(self.data.data.as_slice(), self.data_offset, self.data_offset + n)
    }
}

/// A sample of a [`Row`] with the name of its data source.
#[derive(Debug)]
pub struct Cell<'data, T> {
    /// The name of the data source of the sample.
    pub name: &'data str,
    /// The sample.
    pub value: T,
}

impl<'data, T: Copy> Row<'data, T> {
    /// The cells of the row: each sample with the name of its data source.
    pub fn iter_cells(&self) -> (cells: Vec<Cell<'data, T>>)
        ensures
            cells.len() == self.data_view().names.len(),
            forall|i: int|
                0 <= i < cells.len() ==> (#[trigger] cells[i]).name@ == self.data_view().names[i]
                    && cells[i].value == self.data_view().row(self.index())[i],
    {
        proof {
            use_type_invariant(self);
        }
        let data: &'data Data<T> = self.data;
        let samples = self.as_slice();
        let n = data.names.len();
        let mut cells: Vec<Cell<'data, T>> = Vec::new();
        let mut i: usize = 0;
        while i < n
            invariant
                i <= n,
                n == data.names.len(),
                n == samples@.len(),
                data@ == self.data_view(),
                samples@ == self.data_view().row(self.index()),
                cells.len() == i,
                forall|k: int|
                    0 <= k < i ==> (#[trigger] cells[k]).name@ == data@.names[k] && cells[k].value
                        == samples@[k],
            decreases n - i,
        {
            cells.push(Cell { name: data.names[i].as_str(), value: samples[i] });
            i += 1;
        }
        cells
    }
}

/// A dataset of `R` rows for `N` data sources has `R` rows, and each of its
/// rows has `N` samples.
pub proof fn lemma_rows_and_cells<T>(d: DataView<T>, rows: int, index: int)
    requires
        d.names.len() > 0,
        rows >= 0,
        d.samples.len() == rows * d.names.len(),
        0 <= index < rows,
    ensures
        d.row_count() == rows,
        d.row(index).len() == d.names.len(),
{
    let n = d.names.len() as int;
    assert((rows * n) / n == rows) by (nonlinear_arith)
        requires
            n > 0,
    ;
    lemma_row_bounds(index, rows, n, 0);
}

} // verus!
