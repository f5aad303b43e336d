use rrd::error::RrdError;
use rrd::number::Number;
use rrd::ops::graph::{
    extract_blob, extract_count, extract_value, graph_metadata, read_graph_answer, GraphFault,
};
use rrd::ops::info::{build_info_map, rrd_info_type_t, InfoMap, InfoValue};
use rrd::Timestamp;

fn num(x: f64) -> Number {
    Number::parse(&x.to_string()).unwrap()
}

fn answer() -> Vec<(String, InfoValue)> {
    vec![
        ("graph_left".to_string(), InfoValue::Count(51)),
        ("graph_top".to_string(), InfoValue::Count(15)),
        ("graph_width".to_string(), InfoValue::Count(400)),
        ("graph_height".to_string(), InfoValue::Count(100)),
        ("image_width".to_string(), InfoValue::Count(481)),
        ("image_height".to_string(), InfoValue::Count(141)),
        ("graph_start".to_string(), InfoValue::Count(920804400)),
        ("graph_end".to_string(), InfoValue::Count(920808000)),
        ("value_min".to_string(), InfoValue::Value(num(0.0))),
        ("value_max".to_string(), InfoValue::Value(num(0.04))),
        ("legend[0]".to_string(), InfoValue::String("speed".to_string())),
        ("image".to_string(), InfoValue::Blob(vec![0x89, b'P', b'N', b'G'])),
    ]
}

fn without(key: &str) -> InfoMap {
    let mut map = build_info_map(answer());
    assert!(map.remove(key).is_some());
    map
}

fn with(key: &str, value: InfoValue) -> InfoMap {
    let mut map = build_info_map(answer());
    assert!(map.insert(key.to_string(), value).is_some());
    map
}

#[test]
fn tags_of_the_kinds_of_value() {
    assert_eq!(rrd_info_type_t::from_tag(0), Some(rrd_info_type_t::RD_I_VAL));
    assert_eq!(rrd_info_type_t::from_tag(1), Some(rrd_info_type_t::RD_I_CNT));
    assert_eq!(rrd_info_type_t::from_tag(2), Some(rrd_info_type_t::RD_I_STR));
    assert_eq!(rrd_info_type_t::from_tag(3), Some(rrd_info_type_t::RD_I_INT));
    assert_eq!(rrd_info_type_t::from_tag(4), Some(rrd_info_type_t::RD_I_BLO));
    assert_eq!(rrd_info_type_t::from_tag(5), None);
    assert_eq!(rrd_info_type_t::from_tag(u32::MAX), None);
}

#[test]
fn info_value_kinds() {
    assert_eq!(InfoValue::Value(num(1.5)).into_value(), Some(num(1.5)));
    assert_eq!(InfoValue::Count(3).into_value(), None);
    assert_eq!(InfoValue::Count(3).into_count(), Some(3));
    assert_eq!(InfoValue::Int(3).into_count(), None);
    assert_eq!(InfoValue::String("s".to_string()).into_string(), Some("s".to_string()));
    assert_eq!(InfoValue::Blob(vec![1]).into_string(), None);
    assert_eq!(InfoValue::Int(-3).into_int(), Some(-3));
    assert_eq!(InfoValue::Count(3).into_int(), None);
    assert_eq!(InfoValue::Blob(vec![1, 2]).into_blob(), Some(vec![1, 2]));
    assert_eq!(InfoValue::String("s".to_string()).into_blob(), None);
    assert_eq!(InfoValue::Value(num(0.0)).into_blob(), None);
}

#[test]
fn info_map_of_a_computed_source() {
    let map = build_info_map(vec![
        ("ds[sum].index".to_string(), InfoValue::Count(2)),
        ("ds[sum].type".to_string(), InfoValue::String("COMPUTE".to_string())),
        ("ds[sum].cdef".to_string(), InfoValue::String("a,b,+".to_string())),
        ("step".to_string(), InfoValue::Count(1)),
    ]);
    assert_eq!(map.get("ds[sum].cdef"), Some(&InfoValue::String("a,b,+".to_string())));
    assert_eq!(map.get("ds[sum].type"), Some(&InfoValue::String("COMPUTE".to_string())));
    assert_eq!(map.get("ds[sum].min"), None);
    assert!(map.contains_key("step"));
    assert!(!map.contains_key("ste"));
    assert_eq!(map.entries().len(), 4);
}

#[test]
fn later_records_replace_earlier_ones() {
    let map = build_info_map(vec![
        ("a".to_string(), InfoValue::Count(1)),
        ("b".to_string(), InfoValue::Count(2)),
        ("a".to_string(), InfoValue::Int(-1)),
    ]);
    assert_eq!(map.get("a"), Some(&InfoValue::Int(-1)));
    assert_eq!(map.get("b"), Some(&InfoValue::Count(2)));
    assert_eq!(map.entries().len(), 2);
    assert!(build_info_map(vec![]).entries().is_empty());
}

#[test]
fn info_map_insert_and_remove() {
    let mut map = InfoMap::new();
    assert_eq!(map.insert("k".to_string(), InfoValue::Count(1)), None);
    assert_eq!(map.insert("l".to_string(), InfoValue::Count(2)), None);
    assert_eq!(map.insert("k".to_string(), InfoValue::Count(3)), Some(InfoValue::Count(1)));
    assert_eq!(map.get("k"), Some(&InfoValue::Count(3)));
    assert_eq!(map.remove("k"), Some(InfoValue::Count(3)));
    assert_eq!(map.remove("k"), None);
    assert_eq!(map.get("k"), None);
    assert_eq!(map.get("l"), Some(&InfoValue::Count(2)));
    assert_eq!(map.remove("l"), Some(InfoValue::Count(2)));
    assert!(map.entries().is_empty());
}

#[test]
fn extracting_takes_the_key_out() {
    let mut map = build_info_map(answer());
    assert_eq!(extract_count(&mut map, "graph_left").unwrap(), 51);
    assert_eq!(
        extract_count(&mut map, "graph_left").unwrap_err(),
        RrdError::Internal("Graph info: no graph_left".to_string())
    );
    assert_eq!(
        extract_count(&mut map, "value_min").unwrap_err(),
        RrdError::Internal("Graph info: unexpected value_min value type".to_string())
    );
    assert!(!map.contains_key("value_min"));
    assert_eq!(extract_value(&mut map, "value_max").unwrap(), num(0.04));
    assert_eq!(
        extract_value(&mut map, "image").unwrap_err(),
        RrdError::Internal("Graph info: unexpected image value type".to_string())
    );
    assert_eq!(
        extract_blob(&mut map, "image").unwrap_err(),
        RrdError::Internal("Graph info: no image".to_string())
    );
    assert_eq!(
        extract_blob(&mut map, "graph_top").unwrap_err(),
        RrdError::Internal("Graph info: unexpected graph_top value type".to_string())
    );
}

#[test]
fn metadata_of_a_speed_graph() {
    let (image, metadata) = graph_metadata(build_info_map(answer())).unwrap();
    assert_eq!(image, [0x89, b'P', b'N', b'G']);
    assert_eq!(metadata.graph_left, 51);
    assert_eq!(metadata.graph_top, 15);
    assert_eq!(metadata.graph_width, 400);
    assert_eq!(metadata.graph_height, 100);
    assert_eq!(metadata.image_width, 481);
    assert_eq!(metadata.image_height, 141);
    assert_eq!(metadata.graph_start, Timestamp::from_timestamp(920804400));
    assert_eq!(metadata.graph_end, Timestamp::from_timestamp(920808000));
    assert_eq!(metadata.value_min, num(0.0));
    assert_eq!(metadata.value_max, num(0.04));
    assert_eq!(metadata.extra_info.entries().len(), 1);
    assert_eq!(
        metadata.extra_info.get("legend[0]"),
        Some(&InfoValue::String("speed".to_string()))
    );
}

#[test]
fn metadata_names_the_key_that_is_missing() {
    for key in [
        "image",
        "graph_left",
        "graph_top",
        "graph_width",
        "graph_height",
        "image_width",
        "image_height",
        "graph_start",
        "graph_end",
        "value_min",
        "value_max",
    ] {
        assert_eq!(
            graph_metadata(without(key)).unwrap_err(),
            RrdError::Internal(format!("Graph info: no {key}"))
        );
    }
}

#[test]
fn metadata_names_the_key_of_another_kind() {
    for key in ["image", "graph_left", "image_height", "graph_end", "value_max"] {
        assert_eq!(
            graph_metadata(with(key, InfoValue::Int(1))).unwrap_err(),
            RrdError::Internal(format!("Graph info: unexpected {key} value type"))
        );
    }
}

#[test]
fn metadata_reports_the_first_fault() {
    let mut map = build_info_map(answer());
    map.remove("value_max");
    map.remove("graph_top");
    map.insert("graph_left".to_string(), InfoValue::String("x".to_string()));
    assert_eq!(
        graph_metadata(map).unwrap_err(),
        RrdError::Internal("Graph info: unexpected graph_left value type".to_string())
    );
}

#[test]
fn answer_with_a_time_too_late() {
    let late = InfoValue::Count(i64::MAX as u64 + 1);
    assert!(matches!(
        read_graph_answer(with("graph_start", late.clone())),
        Err(GraphFault::StartOverflow)
    ));
    assert!(matches!(
        read_graph_answer(with("graph_end", late.clone())),
        Err(GraphFault::EndOverflow)
    ));
    // a fault that comes earlier counts
    let mut map = with("graph_end", late);
    map.remove("image_width");
    assert!(matches!(
        read_graph_answer(map),
        Err(GraphFault::Error(RrdError::Internal(m))) if m == "Graph info: no image_width"
    ));
    let last = with("graph_end", InfoValue::Count(i64::MAX as u64));
    let (_, metadata) = read_graph_answer(last).ok().unwrap();
    assert_eq!(metadata.graph_end.timestamp(), i64::MAX);
}

#[test]
fn info_values_from_plain_values() {
    assert_eq!(InfoValue::from(num(1.0)), InfoValue::Value(num(1.0)));
    assert_eq!(InfoValue::from(5_u64), InfoValue::Count(5));
    assert_eq!(InfoValue::from("U".to_string()), InfoValue::String("U".to_string()));
    assert_eq!(InfoValue::from(-5_i32), InfoValue::Int(-5));
    assert_eq!(InfoValue::from(vec![1_u8]), InfoValue::Blob(vec![1]));
}

#[test]
fn info_call() {
    assert_eq!(rrd::ops::info::info("/tmp/a.rrd").unwrap(), "/tmp/a.rrd");
    assert_eq!(
        rrd::ops::info::info("/tmp/\0").unwrap_err(),
        RrdError::NulError(rrd::error::NulError { position: 5 })
    );
}
