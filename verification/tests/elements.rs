use rrd::number::Number;
use rrd::ops::graph::elements::{
    is_valid_var_name, Area, AreaColor, CDef, ColorWithLegend, Comment, DashSpacing, Dashes, Def,
    GPrint, GraphElement, HRule, Legend, Line, Offset, Print, PrintFormatMode, Shift, TextAlign,
    Tick, VDef, VRule, Value, VarName,
};
use rrd::ops::graph::Color;
use rrd::{ConsolidationFn, Timestamp};

fn num(x: f64) -> Number {
    Number::parse(&x.to_string()).unwrap()
}

fn strings(expected: &[&str]) -> Vec<String> {
    expected.iter().map(|s| s.to_string()).collect()
}

#[test]
fn vname_regex_valid() {
    assert!(is_valid_var_name("foo_bar-baz-1"));
}

#[test]
fn vname_regex_invalid() {
    assert!(!is_valid_var_name("foo@bar"));
}

#[test]
fn def() {
    let mut args = vec![];
    Def {
        var_name: VarName::new("var").unwrap(),
        rrd: "data.rrd".into(),
        ds_name: "DS1".to_string(),
        consolidation_fn: ConsolidationFn::Avg,
        step: Some(1),
        start: Some(Timestamp::from_timestamp(100)),
        end: Some(Timestamp::from_timestamp(1000)),
        reduce: Some(ConsolidationFn::Max),
    }
    .append_to(&mut args)
    .unwrap();

    let expected = ["DEF:var=data.rrd:DS1:AVERAGE:step=1:start=100:end=1000:reduce=MAX"];
    assert_eq!(strings(&expected), args);
}

#[test]
fn vdef() {
    let mut args = vec![];
    VDef {
        var_name: VarName::new("var").unwrap(),
        rpn: "rpn".to_string(),
    }
    .append_to(&mut args)
    .unwrap();

    let expected = ["VDEF:var=rpn"];
    assert_eq!(strings(&expected), args);
}

#[test]
fn cdef() {
    let mut args = vec![];
    CDef {
        var_name: VarName::new("var").unwrap(),
        rpn: "rpn".to_string(),
    }
    .append_to(&mut args)
    .unwrap();

    let expected = ["CDEF:var=rpn"];
    assert_eq!(strings(&expected), args);
}

#[test]
fn print() {
    let mut args = vec![];
    Print {
        var_name: VarName::new("var").unwrap(),
        format: "fmt".into(),
        format_mode: Some(PrintFormatMode::ValStrfTime),
    }
    .append_to(&mut args)
    .unwrap();

    let expected = ["PRINT:var:fmt:valstrftime"];
    assert_eq!(strings(&expected), args);
}

#[test]
fn gprint() {
    let mut args = vec![];
    GPrint {
        var_name: VarName::new("var").unwrap(),
        format: "fmt".into(),
    }
    .append_to(&mut args)
    .unwrap();

    let expected = ["GPRINT:var:fmt"];
    assert_eq!(strings(&expected), args);
}

#[test]
fn comment() {
    let mut args = vec![];
    Comment {
        text: "comment".into(),
    }
    .append_to(&mut args)
    .unwrap();

    let expected = ["COMMENT:comment"];
    assert_eq!(strings(&expected), args);
}

#[test]
fn vrule() {
    let mut args = vec![];
    VRule {
        value: Value::Variable(VarName::new("var").unwrap()),
        color: "#01020304".parse().unwrap(),
        legend: Some("foo".to_string().into()),
        dashes: Some(Dashes {
            spacing: Some(DashSpacing::Simple(4)),
            offset: Some(10),
        }),
    }
    .append_to(&mut args)
    .unwrap();

    let expected = ["VRULE:var#01020304:foo:dashes=4:dash-offset=10"];
    assert_eq!(strings(&expected), args);
}

#[test]
fn hrule() {
    let mut args = vec![];
    HRule {
        value: Value::Timestamp(Timestamp::from_timestamp(1000)),
        color: "#010203".parse().unwrap(),
        legend: None,
        dashes: Some(Dashes {
            spacing: Some(DashSpacing::Custom(vec![(1, 2), (3, 4)])),
            offset: None,
        }),
    }
    .append_to(&mut args)
    .unwrap();

    let expected = ["HRULE:1000#010203:dashes=1,2,3,4"];
    assert_eq!(strings(&expected), args);
}

#[test]
fn line() {
    let mut args = vec![];
    Line {
        width: num(3.2),
        value: VarName::new("var").unwrap(),
        color: Some(ColorWithLegend {
            color: "#01020304".parse().unwrap(),
            legend: Some("foo".to_string().into()),
        }),
        stack: true,
        skip_scale: true,
        dashes: None,
    }
    .append_to(&mut args)
    .unwrap();

    let expected = ["LINE3.2:var#01020304:foo:STACK:skipscale"];
    assert_eq!(strings(&expected), args);
}

#[test]
fn area() {
    let mut args = vec![];
    Area {
        value: VarName::new("var").unwrap(),
        color: Some(ColorWithLegend {
            color: AreaColor::Gradient {
                color1: "#01020304".parse().unwrap(),
                color2: "#41424344".parse().unwrap(),
                gradient_height: Some(num(10.1)),
            },
            legend: None,
        }),
        stack: true,
        skip_scale: true,
    }
    .append_to(&mut args)
    .unwrap();

    let expected = ["AREA:var#01020304#41424344::STACK:skipscale:gradheight=10.1"];
    assert_eq!(strings(&expected), args);
}

#[test]
fn tick() {
    let mut args = vec![];
    Tick {
        var_name: VarName::new("var").unwrap(),
        color: "#01020304".parse().unwrap(),
        fraction: Some(num(1.2)),
        legend: None,
    }
    .append_to(&mut args)
    .unwrap();

    let expected = ["TICK:var#01020304:1.2"];
    assert_eq!(strings(&expected), args);
}

#[test]
fn shift() {
    let mut args = vec![];
    Shift {
        var_name: VarName::new("var").unwrap(),
        offset: Offset::Variable(VarName::new("offset").unwrap()),
    }
    .append_to(&mut args)
    .unwrap();

    let expected = ["SHIFT:var:offset"];
    assert_eq!(strings(&expected), args);
}

#[test]
fn textalign() {
    let mut args = vec![];
    TextAlign::Justified.append_to(&mut args).unwrap();

    let expected = ["TEXTALIGN:justified"];
    assert_eq!(strings(&expected), args);
}

#[test]
fn var_name_accepts_letters_digits_underscore_and_hyphen() {
    assert_eq!(VarName::new("foo_bar-1").unwrap().as_str(), "foo_bar-1");
    assert!(VarName::new("A").is_ok());
    assert!(VarName::new(&"a".repeat(255)).is_ok());
}

#[test]
fn var_name_rejects_other_texts() {
    assert_eq!(VarName::new("foo@bar").unwrap_err().0, "Invalid var name");
    assert!(VarName::new("").is_err());
    assert!(VarName::new(&"a".repeat(256)).is_err());
    assert!(VarName::new("foo bar").is_err());
    assert!(VarName::new("foo\n").is_err());
    assert!(VarName::new("caf\u{e9}").is_err());
    assert!(VarName::new("a:b").is_err());
}

#[test]
fn line_without_color_leaves_the_place_of_the_color_empty() {
    let mut args = vec![];
    Line {
        width: num(1.0),
        value: VarName::new("v").unwrap(),
        color: None,
        stack: true,
        skip_scale: false,
        dashes: Some(Dashes::default()),
    }
    .append_to(&mut args)
    .unwrap();
    assert_eq!(strings(&["LINE1:v::STACK:dashes"]), args);
}

#[test]
fn area_with_plain_color_and_legend() {
    let mut args = vec![];
    Area {
        value: VarName::new("v").unwrap(),
        color: Some(ColorWithLegend {
            color: AreaColor::Color(Color { red: 255, green: 0, blue: 171, alpha: None }),
            legend: Some(Legend("in".to_string())),
        }),
        stack: true,
        skip_scale: false,
    }
    .append_to(&mut args)
    .unwrap();
    assert_eq!(strings(&["AREA:v#FF00AB:in:STACK"]), args);
}

#[test]
fn area_without_color() {
    let mut args = vec![];
    Area { value: VarName::new("v").unwrap(), color: None, stack: true, skip_scale: true }
        .append_to(&mut args)
        .unwrap();
    assert_eq!(strings(&["AREA:v::STACK:skipscale"]), args);
}

#[test]
fn dashes_join_many_pairs_with_commas() {
    let mut s = String::from("x");
    Dashes {
        spacing: Some(DashSpacing::Custom(vec![(10, 20), (3, 4), (5, 60)])),
        offset: Some(7),
    }
    .append_to(&mut s);
    assert_eq!(s, "x:dashes=10,20,3,4,5,60:dash-offset=7");
}

#[test]
fn dashes_with_no_pairs() {
    let mut s = String::new();
    Dashes { spacing: Some(DashSpacing::Custom(vec![])), offset: None }.append_to(&mut s);
    assert_eq!(s, ":dashes=");
}

#[test]
fn value_forms() {
    let mut s = String::new();
    Value::Constant(num(-2.5)).append_to(&mut s);
    s.push('|');
    Value::Timestamp(Timestamp::from_timestamp(-5)).append_to(&mut s);
    s.push('|');
    Value::Variable(VarName::new("v1").unwrap()).append_to(&mut s);
    assert_eq!(s, "-2.5|-5|v1");
}

#[test]
fn shift_by_time_delta() {
    let mut args = vec![];
    Shift { var_name: VarName::new("v").unwrap(), offset: Offset::TimeDelta(num(3600.0)) }
        .append_to(&mut args)
        .unwrap();
    assert_eq!(strings(&["SHIFT:v:3600"]), args);
}

#[test]
fn def_without_options() {
    let mut args = vec!["first".to_string()];
    GraphElement::Def(Def {
        var_name: VarName::new("v").unwrap(),
        rrd: "/tmp/a.rrd".into(),
        ds_name: "speed".to_string(),
        consolidation_fn: ConsolidationFn::Last,
        step: None,
        start: None,
        end: None,
        reduce: None,
    })
    .append_to(&mut args)
    .unwrap();
    assert_eq!(strings(&["first", "DEF:v=/tmp/a.rrd:speed:LAST"]), args);
}

#[test]
fn print_without_mode_and_other_modes() {
    let mut args = vec![];
    Print { var_name: VarName::new("v").unwrap(), format: "%lf".into(), format_mode: None }
        .append_to(&mut args)
        .unwrap();
    Print {
        var_name: VarName::new("v").unwrap(),
        format: "%c".into(),
        format_mode: Some(PrintFormatMode::StrfTime),
    }
    .append_to(&mut args)
    .unwrap();
    Print {
        var_name: VarName::new("v").unwrap(),
        format: "%d".into(),
        format_mode: Some(PrintFormatMode::ValStrfDuration),
    }
    .append_to(&mut args)
    .unwrap();
    assert_eq!(strings(&["PRINT:v:%lf", "PRINT:v:%c:strftime", "PRINT:v:%d:valstrfduration"]), args);
}

#[test]
fn rendering_an_element_twice_gives_the_same_tokens() {
    let element = GraphElement::Tick(Tick {
        var_name: VarName::new("var").unwrap(),
        color: "#0A0B0C".parse().unwrap(),
        fraction: Some(num(0.25)),
        legend: Some(Legend("ticks".to_string())),
    });
    let mut first = vec![];
    element.append_to(&mut first).unwrap();
    let mut second = vec![];
    element.append_to(&mut second).unwrap();
    assert_eq!(first, second);
    assert_eq!(strings(&["TICK:var#0A0B0C:0.25:ticks"]), first);
}

#[test]
fn text_align_keywords() {
    let mut args = vec![];
    TextAlign::Left.append_to(&mut args).unwrap();
    TextAlign::Right.append_to(&mut args).unwrap();
    TextAlign::Center.append_to(&mut args).unwrap();
    assert_eq!(strings(&["TEXTALIGN:left", "TEXTALIGN:right", "TEXTALIGN:center"]), args);
}

#[test]
fn elements_from_their_parts() {
    let comment = Comment { text: "c".to_string() };
    assert_eq!(GraphElement::from(comment.clone()), GraphElement::Comment(comment));
    let e: GraphElement = TextAlign::Left.into();
    assert_eq!(e, GraphElement::TextAlign(TextAlign::Left));
    let v = VarName::new("v").unwrap();
    assert_eq!(Value::from(v.clone()), Value::Variable(v));
    assert_eq!(Value::from(num(1.5)), Value::Constant(num(1.5)));
    let t = Timestamp::from_timestamp(9);
    assert_eq!(Value::from(t), Value::Timestamp(t));
    assert_eq!(Legend::from("l".to_string()), Legend("l".to_string()));
    let mut args = vec![];
    let shift: GraphElement =
        Shift { var_name: VarName::new("a").unwrap(), offset: Offset::TimeDelta(num(-60.0)) }
            .into();
    shift.append_to(&mut args).unwrap();
    assert_eq!(strings(&["SHIFT:a:-60"]), args);
}

#[test]
fn var_name_from_texts() {
    let v = VarName::try_from("foo_bar-1").unwrap();
    assert_eq!(v.as_str(), "foo_bar-1");
    let v = VarName::try_from("x".to_string()).unwrap();
    assert_eq!(v.as_str(), "x");
    assert!(VarName::try_from("foo@bar").is_err());
    assert!(VarName::try_from("a".repeat(256)).is_err());
    assert_eq!(v.clone(), v);
}
