use rrd::error::{
    get_rrd_error, return_code_to_result, InvalidArgument, NulError, RrdError,
};
use rrd::number::Number;
use rrd::ops::graph::elements::{
    Comment, Def, GPrint, GraphElement, Line, Print, VDef, VarName,
};
use rrd::ops::graph::graph;
use rrd::ops::graph::props::{GraphProps, ImageFormat, Labels, Size};
use rrd::{ConsolidationFn, Timestamp};

fn num(x: f64) -> Number {
    Number::parse(&x.to_string()).unwrap()
}

fn def(rrd: &str) -> GraphElement {
    GraphElement::Def(Def {
        var_name: VarName::new("myspeed").unwrap(),
        rrd: rrd.to_string(),
        ds_name: "speed".to_string(),
        consolidation_fn: ConsolidationFn::Avg,
        step: None,
        start: None,
        end: None,
        reduce: None,
    })
}

fn line() -> GraphElement {
    GraphElement::Line(Line {
        width: num(2.0),
        value: VarName::new("myspeed").unwrap(),
        color: None,
        stack: false,
        skip_scale: false,
        dashes: None,
    })
}

#[test]
fn graph_arguments() {
    let props = GraphProps {
        size: Size { width: Some(400), ..Default::default() },
        labels: Labels { title: Some("Speed".to_string()), ..Default::default() },
        ..Default::default()
    };
    let args = graph(ImageFormat::Png, props, &[def("data.rrd"), line()]).unwrap();
    assert_eq!(
        args.strings(),
        &[
            "graphv",
            "-",
            "--imgformat",
            "PNG",
            "--title",
            "Speed",
            "--width",
            "400",
            "DEF:myspeed=data.rrd:speed:AVERAGE",
            "LINE2:myspeed"
        ]
    );
    assert_eq!(args.len(), 10);
}

#[test]
fn graph_keeps_the_order_of_the_elements() {
    let comment = GraphElement::Comment(Comment { text: "c".to_string() });
    let elements = [line(), comment.clone(), def("a.rrd"), comment, def("b.rrd")];
    let args = graph(ImageFormat::Svg, GraphProps::default(), &elements).unwrap();
    assert_eq!(
        args.strings(),
        &[
            "graphv",
            "-",
            "--imgformat",
            "SVG",
            "LINE2:myspeed",
            "COMMENT:c",
            "DEF:myspeed=a.rrd:speed:AVERAGE",
            "COMMENT:c",
            "DEF:myspeed=b.rrd:speed:AVERAGE"
        ]
    );
}

#[test]
fn graph_needs_a_def() {
    let expected = RrdError::InvalidArgument("Must have at least one Def element".to_string());
    assert_eq!(graph(ImageFormat::Png, GraphProps::default(), &[]).unwrap_err(), expected);
    assert_eq!(graph(ImageFormat::Png, GraphProps::default(), &[line()]).unwrap_err(), expected);
}

#[test]
fn graph_needs_an_element_that_gives_output() {
    let expected = RrdError::InvalidArgument(
        "Must have at least one Line, Area, GPrint, or Print element".to_string(),
    );
    let vdef = GraphElement::VDef(VDef { var_name: VarName::new("v").unwrap(), rpn: "x".into() });
    assert_eq!(
        graph(ImageFormat::Png, GraphProps::default(), &[def("a"), vdef.clone()]).unwrap_err(),
        expected
    );
    let print = GraphElement::Print(Print {
        var_name: VarName::new("v").unwrap(),
        format: "%lf".into(),
        format_mode: None,
    });
    assert!(graph(ImageFormat::Png, GraphProps::default(), &[def("a"), vdef.clone(), print]).is_ok());
    let gprint =
        GraphElement::GPrint(GPrint { var_name: VarName::new("v").unwrap(), format: "%lf".into() });
    assert!(graph(ImageFormat::Png, GraphProps::default(), &[gprint, def("a")]).is_ok());
}

#[test]
fn graph_refuses_nul_bytes() {
    assert_eq!(
        graph(ImageFormat::Png, GraphProps::default(), &[def("a\0.rrd"), line()]).unwrap_err(),
        RrdError::NulError(NulError { position: 13 })
    );
    let props = GraphProps {
        labels: Labels { title: Some("\0".to_string()), ..Default::default() },
        ..Default::default()
    };
    assert_eq!(
        graph(ImageFormat::Png, props, &[def("a\0.rrd"), line()]).unwrap_err(),
        RrdError::NulError(NulError { position: 0 })
    );
}

#[test]
fn return_codes() {
    assert_eq!(return_code_to_result(0, None), Ok(()));
    assert_eq!(return_code_to_result(0, Some("stale".to_string())), Ok(()));
    assert_eq!(
        return_code_to_result(-1, Some("opening 'x': No such file".to_string())),
        Err(RrdError::LibRrdError("opening 'x': No such file".to_string()))
    );
    assert_eq!(
        return_code_to_result(1, None),
        Err(RrdError::Internal("Unknown error - no librrd error info".to_string()))
    );
    assert_eq!(get_rrd_error(None), None);
    assert_eq!(get_rrd_error(Some("e".to_string())), Some(RrdError::LibRrdError("e".to_string())));
}

#[test]
fn error_messages() {
    assert_eq!(
        RrdError::NulError(NulError { position: 12 }).message(),
        "nul byte found in provided data at position: 12"
    );
    assert_eq!(RrdError::PathEncodingError.message(), "Path encoding error");
    assert_eq!(RrdError::LibRrdError("boom".to_string()).message(), "librrd: \"boom\"");
    assert_eq!(RrdError::Internal("odd".to_string()).message(), "Internal error: odd");
    assert_eq!(RrdError::InvalidArgument("bad".to_string()).message(), "Invalid argument: bad");
    assert_eq!(InvalidArgument("bad").message(), "Invalid argument: bad");
    assert_eq!(
        RrdError::from_invalid_argument(InvalidArgument("bad")),
        RrdError::InvalidArgument("bad".to_string())
    );
}

#[test]
fn timestamps() {
    assert_eq!(Timestamp::from_timestamp(5).timestamp(), 5);
    assert_eq!(Timestamp::from_timestamp(i64::MIN).timestamp(), i64::MIN);
    assert_eq!(ConsolidationFn::Avg.as_arg_str(), "AVERAGE");
}
