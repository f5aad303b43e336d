use rrd::data::Data;
use rrd::ops::fetch::{fetch, FetchShape};
use rrd::error::{NulError, RrdError};
use rrd::{ConsolidationFn, Timestamp};

fn names(list: &[&str]) -> Vec<String> {
    list.iter().map(|s| s.to_string()).collect()
}

fn table() -> Data<f64> {
    Data::new(
        Timestamp::from_timestamp(1000),
        Timestamp::from_timestamp(1600),
        300,
        names(&["in", "out"]),
        vec![1.0, 2.0, 3.0, 4.0, 5.0, 6.0],
    )
}

#[test]
fn data_has_rows_of_one_sample_for_each_name() {
    let data = table();
    assert_eq!(data.row_count(), 3);
    assert_eq!(data.rows().len(), 3);
    assert!(!data.rows().is_empty());
    assert_eq!(data.ds_names(), &names(&["in", "out"])[..]);
    assert_eq!(data.start(), Timestamp::from_timestamp(1000));
    assert_eq!(data.end(), Timestamp::from_timestamp(1600));
    assert_eq!(data.step(), 300);
    let mut it = data.rows().iter();
    assert_eq!(it.size_hint(), (3, Some(3)));
    let mut seen = vec![];
    while let Some(row) = it.next() {
        assert_eq!(row.iter_cells().len(), 2);
        assert_eq!(row.as_slice().len(), 2);
        seen.push((row.timestamp().timestamp(), row.as_slice().to_vec()));
    }
    assert_eq!(
        seen,
        [(1000, vec![1.0, 2.0]), (1300, vec![3.0, 4.0]), (1600, vec![5.0, 6.0])]
    );
    assert!(it.next().is_none());
    assert!(it.next().is_none());
}

#[test]
fn rows_can_be_walked_again() {
    let data = table();
    let rows = data.rows();
    for _ in 0..2 {
        let mut it = rows.iter();
        let mut count = 0;
        while let Some(_row) = it.next() {
            count += 1;
        }
        assert_eq!(count, 3);
    }
}

#[test]
fn cells_pair_samples_with_names() {
    let data = table();
    let row = data.rows().get(1).unwrap();
    let cells = row.iter_cells();
    assert_eq!(cells[0].name, "in");
    assert_eq!(cells[0].value, 3.0);
    assert_eq!(cells[1].name, "out");
    assert_eq!(cells[1].value, 4.0);
    assert_eq!(row.timestamp(), Timestamp::from_timestamp(1300));
    assert!(data.rows().get(3).is_none());
    assert!(data.rows().get(usize::MAX).is_none());
}

#[test]
fn data_without_rows() {
    let data: Data<f64> = Data::new(
        Timestamp::from_timestamp(0),
        Timestamp::from_timestamp(0),
        1,
        names(&["a", "b", "c"]),
        vec![],
    );
    assert_eq!(data.row_count(), 0);
    assert!(data.rows().is_empty());
    assert!(data.rows().iter().next().is_none());
    assert!(data.rows().get(0).is_none());
}

#[test]
fn data_of_other_samples() {
    let data: Data<u8> = Data::new(
        Timestamp::from_timestamp(-600),
        Timestamp::from_timestamp(0),
        200,
        names(&["x"]),
        vec![7, 8, 9, 10],
    );
    assert_eq!(data.rows().len(), 4);
    let row = data.rows().get(3).unwrap();
    assert_eq!(row.timestamp().timestamp(), 0);
    assert_eq!(row.as_slice(), &[10]);
    assert_eq!(row.iter_cells()[0].name, "x");
}

#[test]
fn row_times_near_the_limits() {
    let data: Data<u8> = Data::new(
        Timestamp::from_timestamp(i64::MIN),
        Timestamp::from_timestamp(i64::MAX),
        u64::MAX,
        names(&["x"]),
        vec![1, 2],
    );
    assert_eq!(data.rows().get(0).unwrap().timestamp().timestamp(), i64::MIN);
    assert_eq!(data.rows().get(1).unwrap().timestamp().timestamp(), i64::MAX);
}

#[test]
fn fetch_call() {
    let call = fetch(
        "/tmp/data.rrd",
        ConsolidationFn::Avg,
        Timestamp::from_timestamp(920804400),
        Timestamp::from_timestamp(920809200),
        300,
    )
    .unwrap();
    assert_eq!(call.filename, "/tmp/data.rrd");
    assert_eq!(call.cf, "AVERAGE");
    assert_eq!(call.start, 920804400);
    assert_eq!(call.end, 920809200);
    assert_eq!(call.resolution, 300);
    for (cf, word) in
        [(ConsolidationFn::Min, "MIN"), (ConsolidationFn::Max, "MAX"), (ConsolidationFn::Last, "LAST")]
    {
        let t = Timestamp::from_timestamp(0);
        assert_eq!(fetch("f", cf, t, t, 1).unwrap().cf, word);
    }
    let t = Timestamp::from_timestamp(0);
    assert_eq!(
        fetch("f\0", ConsolidationFn::Avg, t, t, 1).unwrap_err(),
        RrdError::NulError(NulError { position: 1 })
    );
}

#[test]
fn fetch_shape_of_seventeen_rows() {
    let shape = FetchShape::new(920804400, 920809500, 300, 1).unwrap();
    assert_eq!(shape.len(), 17);
    assert_eq!(shape.source_count(), 1);
    let samples: Vec<f64> = (0..17).map(|i| i as f64).collect();
    let data = shape.into_data(names(&["speed"]), samples);
    assert_eq!(data.ds_names(), &names(&["speed"])[..]);
    assert_eq!(data.start().timestamp(), 920804700);
    assert_eq!(data.end().timestamp(), 920809500);
    assert_eq!(data.step(), 300);
    let mut times = vec![];
    let mut it = data.rows().iter();
    while let Some(row) = it.next() {
        times.push(row.timestamp().timestamp());
    }
    let expected: Vec<i64> = (0..17).map(|i| 920804700 + 300 * i).collect();
    assert_eq!(times, expected);
}

#[test]
fn fetch_shape_counts_rows_and_samples() {
    // one row: the first row is the end
    let shape = FetchShape::new(0, 10, 10, 3).unwrap();
    assert_eq!(shape.len(), 3);
    let shape = FetchShape::new(0, 19, 10, 3).unwrap();
    assert_eq!(shape.len(), 3);
    let shape = FetchShape::new(0, 20, 10, 3).unwrap();
    assert_eq!(shape.len(), 6);
    let shape = FetchShape::new(-100, 100, 7, 2).unwrap();
    // the first row is at -93, and 193 / 7 is 27
    assert_eq!(shape.len(), 56);
}

#[test]
fn fetch_shape_that_cannot_be_read() {
    // no step
    assert!(FetchShape::new(0, 10, 0, 1).is_none());
    // no data source
    assert!(FetchShape::new(0, 10, 1, 0).is_none());
    // the first row would be later than the end
    assert!(FetchShape::new(0, 9, 10, 1).is_none());
    assert!(FetchShape::new(10, 0, 1, 1).is_none());
    // the first row cannot be written
    assert!(FetchShape::new(i64::MAX, i64::MAX, 1, 1).is_none());
    // the range is too long
    assert!(FetchShape::new(i64::MIN, i64::MAX, 1, 1).is_none());
    // too many samples
    assert!(FetchShape::new(0, i64::MAX, 1, u64::MAX).is_none());
    assert!(FetchShape::new(0, 1000, 1, u64::MAX).is_none());
    assert!(FetchShape::new(0, 1, 1, u64::MAX).is_some());
}
