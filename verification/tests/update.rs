use rrd::error::{NulError, RrdError};
use rrd::number::Number;
use rrd::ops::update::{build_datum_args, update, update_all, BatchTime, Datum, ExtraFlags};
use rrd::Timestamp;

fn num(x: f64) -> Number {
    Number::parse(&x.to_string()).unwrap()
}

fn at(secs: i64) -> BatchTime {
    BatchTime::Timestamp(Timestamp::from_timestamp(secs))
}

#[test]
fn batch_tokens() {
    let batches = [
        (BatchTime::Now, vec![Datum::Int(42)]),
        (at(920804460), vec![Datum::Int(100)]),
        (at(-1), vec![Datum::Float(num(1.5))]),
        (at(0), vec![Datum::Unspecified]),
    ];
    let args = build_datum_args(&batches, None).unwrap();
    assert_eq!(args.strings(), &["N:42", "920804460:100", "-1:1.5", "0:U"]);
}

#[test]
fn batch_with_many_data_points() {
    let batches = [(
        BatchTime::Now,
        vec![
            Datum::Int(1),
            Datum::Float(num(2.0)),
            Datum::Unspecified,
            Datum::Float(num(f64::NAN)),
            Datum::Int(18446744073709551615),
            Datum::Float(num(-0.25)),
        ],
    )];
    let args = build_datum_args(&batches, Some(6)).unwrap();
    assert_eq!(args.strings(), &["N:1:2:U:NaN:18446744073709551615:-0.25"]);
}

#[test]
fn batch_without_data_points() {
    let batches = [(BatchTime::Now, vec![]), (at(5), vec![])];
    let args = build_datum_args(&batches, None).unwrap();
    assert_eq!(args.strings(), &["N", "5"]);
    assert!(build_datum_args(&batches, Some(0)).is_ok());
}

#[test]
fn no_batches() {
    let args = build_datum_args(&[], None).unwrap();
    assert!(args.is_empty());
    assert_eq!(args.as_ptr(), None);
    assert!(build_datum_args(&[], Some(3)).unwrap().is_empty());
}

#[test]
fn batches_of_different_sizes_are_refused() {
    let expected = RrdError::InvalidArgument("Batch sizes don't match".to_string());
    let batches = [
        (BatchTime::Now, vec![Datum::Int(1), Datum::Int(2)]),
        (BatchTime::Now, vec![Datum::Int(1)]),
    ];
    assert_eq!(build_datum_args(&batches, None).unwrap_err(), expected);
    let batches = [
        (BatchTime::Now, vec![Datum::Int(1)]),
        (BatchTime::Now, vec![Datum::Int(1)]),
        (BatchTime::Now, vec![]),
    ];
    assert_eq!(build_datum_args(&batches, None).unwrap_err(), expected);
    assert_eq!(build_datum_args(&batches, Some(1)).unwrap_err(), expected);
    // every batch has one data point, but two are expected
    let batches = [(BatchTime::Now, vec![Datum::Int(1)]), (BatchTime::Now, vec![Datum::Int(1)])];
    assert_eq!(build_datum_args(&batches, Some(2)).unwrap_err(), expected);
    assert!(build_datum_args(&batches, Some(1)).is_ok());
    assert_eq!(
        update_all("f.rrd", ExtraFlags::empty(), &batches[..]).unwrap().args.len(),
        2
    );
}

#[test]
fn update_all_call_with_three_batches() {
    let chunk: Vec<(BatchTime, Vec<Datum>)> =
        [(920804700_i64, 12345_u64), (920805000, 12357), (920805300, 12363)]
            .into_iter()
            .map(|(ts, value)| (at(ts), vec![Datum::Int(value)]))
            .collect();
    let call = update_all("/tmp/data.rrd", ExtraFlags::empty(), &chunk).unwrap();
    assert_eq!(call.filename, "/tmp/data.rrd");
    assert_eq!(call.template, None);
    assert_eq!(call.extra_flags, 0);
    assert_eq!(
        call.args.strings(),
        &["920804700:12345", "920805000:12357", "920805300:12363"]
    );
}

#[test]
fn update_call_with_names() {
    let batches = [(BatchTime::Now, vec![Datum::Float(num(2.0)), Datum::Unspecified])];
    let call = update("f.rrd", &["ds2", "ds1"], ExtraFlags::skip_past_updates(), &batches).unwrap();
    assert_eq!(call.template.as_deref(), Some("ds2:ds1"));
    assert_eq!(call.extra_flags, 1);
    assert_eq!(call.args.strings(), &["N:2:U"]);
    let one = [(BatchTime::Now, vec![Datum::Int(7)])];
    let call = update("f.rrd", &["only"], ExtraFlags::empty(), &one).unwrap();
    assert_eq!(call.template.as_deref(), Some("only"));
    let none: [(BatchTime, Vec<Datum>); 0] = [];
    let call = update("f.rrd", &[], ExtraFlags::empty(), &none).unwrap();
    assert_eq!(call.template.as_deref(), Some(""));
    let call = update("f.rrd", &["a", "b", "c", "d"], ExtraFlags::empty(), &none).unwrap();
    assert_eq!(call.template.as_deref(), Some("a:b:c:d"));
}

#[test]
fn update_expects_one_datum_for_each_name() {
    let batches = [(BatchTime::Now, vec![Datum::Int(1)])];
    assert_eq!(
        update("f.rrd", &["a", "b"], ExtraFlags::empty(), &batches).unwrap_err(),
        RrdError::InvalidArgument("Batch sizes don't match".to_string())
    );
}

#[test]
fn update_refuses_nul_bytes() {
    let batches = [(BatchTime::Now, vec![Datum::Int(1)]), (BatchTime::Now, vec![])];
    // the file name is checked before the batches
    assert_eq!(
        update_all("a\0", ExtraFlags::empty(), &batches).unwrap_err(),
        RrdError::NulError(NulError { position: 1 })
    );
    assert_eq!(
        update("ab\0", &["x\0"], ExtraFlags::empty(), &batches).unwrap_err(),
        RrdError::NulError(NulError { position: 2 })
    );
    // and so is the template
    assert_eq!(
        update("ab", &["x", "y\0"], ExtraFlags::empty(), &batches).unwrap_err(),
        RrdError::NulError(NulError { position: 3 })
    );
}

#[test]
fn extra_flags() {
    assert_eq!(ExtraFlags::empty().bits(), 0);
    assert_eq!(ExtraFlags::skip_past_updates().bits(), 0x01);
    assert_eq!(ExtraFlags::SKIP_PAST_UPDATES_BIT, 1);
}

#[test]
fn extra_flags_as_sets() {
    let skip = ExtraFlags::skip_past_updates();
    assert!(ExtraFlags::empty().is_empty());
    assert!(!skip.is_empty());
    assert!(skip.contains(skip));
    assert!(skip.contains(ExtraFlags::empty()));
    assert!(!ExtraFlags::empty().contains(skip));
    assert_eq!(ExtraFlags::empty().union(skip), skip);
    let other = ExtraFlags::from_bits_retain(0x100);
    assert_eq!(other.bits(), 0x100);
    assert_eq!(other.union(skip).bits(), 0x101);
    assert!(other.union(skip).contains(skip));
    assert!(!other.contains(skip));
}

#[test]
fn data_from_plain_values() {
    assert_eq!(Datum::from(100_u64), Datum::Int(100));
    assert_eq!(Datum::from(num(2.0)), Datum::Float(num(2.0)));
    let t = Timestamp::from_timestamp(920804460);
    assert_eq!(BatchTime::from(t), BatchTime::Timestamp(t));
    let d: Datum = 7_u64.into();
    assert_eq!(d, Datum::Int(7));
}
