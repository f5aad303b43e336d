use rrd::number::Number;
use rrd::ops::graph::props::{
    AltAutoscale, AxisGridTimeUnit, ColorTag, Colors, FontParams, FontRenderMode, FontTag, Fonts,
    GraphProps, GraphRenderMode, ImageFormat, Labels, Legend, LegendDirection, LegendPosition,
    Limits, Misc, RightYAxis, Size, TimeRange, Units, UnitsExponent, XAxis, XAxisGrid, YAxis,
    YAxisFormatter, YAxisGrid, Zoom,
};
use rrd::ops::graph::Color;
use rrd::Timestamp;

fn num(x: f64) -> Number {
    Number::parse(&x.to_string()).unwrap()
}

fn strings(expected: &[&str]) -> Vec<String> {
    expected.iter().map(|s| s.to_string()).collect()
}

fn everything() -> GraphProps {
    let mut colors = Colors::new();
    colors.insert(ColorTag::Axis, "#01020304".parse().unwrap());
    let mut fonts = Fonts::new();
    fonts.insert(
        FontTag::Unit,
        FontParams {
            size: 11,
            font: Some("FontyMcFontFace".to_string()),
        },
    );
    GraphProps {
        time_range: TimeRange {
            start: Some(Timestamp::from_timestamp(1_000)),
            end: Some(Timestamp::from_timestamp(100_000)),
            step_seconds: Some(60),
        },
        labels: Labels {
            title: Some("Title".to_string()),
            vertical_label: Some("VLabel".to_string()),
        },
        size: Size {
            width: Some(1024),
            height: Some(768),
            full_size_mode: true,
            only_graph: true,
        },
        limits: Limits {
            upper_limit: Some(num(100.0)),
            lower_limit: Some(num(1.0)),
            rigid: true,
            allow_shrink: true,
            alt_autoscale: Some(AltAutoscale {
                alt_autoscale_min: Some(num(1.1)),
                alt_autoscale_max: Some(num(2.2)),
            }),
            no_grid_fit: true,
        },
        x_axis: XAxis {
            grid: Some(XAxisGrid::Custom {
                base_grid_time: AxisGridTimeUnit::Second,
                base_grid_step: 1,
                major_grid_time: AxisGridTimeUnit::Hour,
                major_grid_step: 2,
                labels_time: AxisGridTimeUnit::Month,
                labels_step: 3,
                label_placement: 4,
                label_format: "label fmt".to_string(),
            }),
            week_format: Some("weekfmt".to_string()),
        },
        y_axis: YAxis {
            grid: Some(YAxisGrid::Custom {
                grid_step: 100,
                label_factor: 2,
            }),
            formatter: Some(YAxisFormatter::Numeric),
            format: Some("yaxisfmt".to_string()),
            alt_y_grid: true,
            logarithmic: true,
            units_exponent: Some(UnitsExponent { exp: 3 }),
            units_length: Some(4),
            units: Some(Units::Si),
        },
        right_y_axis: Some(RightYAxis {
            scale: num(0.0),
            shift: 0,
            label: Some("right y axis label".to_string()),
            formatter: Some(YAxisFormatter::Numeric),
            format: Some("right y axis fmt".to_string()),
        }),
        legend: Legend {
            no_legend: true,
            force_rules_legend: true,
            legend_position: Some(LegendPosition::North),
            legend_direction: Some(LegendDirection::BottomUp),
        },
        misc: Misc {
            colors,
            grid_dash: Some((1, 2)),
            border: Some(4),
            dynamic_labels: true,
            zoom: Some(Zoom::new(num(3.3)).unwrap()),
            fonts,
            font_render_mode: Some(FontRenderMode::Mono),
            font_smoothing_threshold: Some(1234),
            pango_markup: true,
            graph_render_mode: Some(GraphRenderMode::Mono),
            slope_mode: true,
            interlaced: true,
            tab_width: Some(7),
            base: Some(4),
            watermark: Some("watermark".to_string()),
            use_nan_for_all_missing_data: true,
        },
    }
}

// at least a baseline check that some sane args are produced
#[test]
fn everything_set() {
    let props = everything();

    let mut args = vec![];
    props.append_to(&mut args).unwrap();

    let expected = [
        // time range
        "--start",
        "1000",
        "--end",
        "100000",
        "--step",
        "60",
        // labels
        "--title",
        "Title",
        "--vertical-label",
        "VLabel",
        // size
        "--width",
        "1024",
        "--height",
        "768",
        "--only-graph",
        "--full-size-mode",
        // limits
        "--upper-limit",
        "100",
        "--lower-limit",
        "1",
        "--rigid",
        "--allow-shrink",
        "--alt-autoscale",
        "--alt-autoscale-min",
        "1.1",
        "--alt-autoscale-max",
        "2.2",
        "--no-gridfit",
        // x axis
        "--x-grid",
        "SECOND:1:HOUR:2:MONTH:3:4:label fmt",
        "--week-fmt",
        "weekfmt",
        // y axis
        "--y-grid",
        "100:2",
        "--left-axis-formatter",
        "numeric",
        "--left-axis-format",
        "yaxisfmt",
        "--alt-y-grid",
        "--logarithmic",
        "--units-exponent",
        "3",
        "--units-length",
        "4",
        "--units",
        "si",
        // right y axis
        "--right-axis",
        "0:0",
        "--right-axis-label",
        "right y axis label",
        "--right-axis-formatter",
        "numeric",
        "--right-axis-format",
        "right y axis fmt",
        // legend
        "--no-legend",
        "--force-rules-legend",
        "--legend-position=north",
        "--legend-direction=bottomup",
        // misc
        "--color",
        "AXIS#01020304",
        "--grid-dash",
        "1:2",
        "--border",
        "4",
        "--dynamic-labels",
        "--zoom",
        "3.3",
        "--font",
        "UNIT:11:FontyMcFontFace",
        "--font-render-mode",
        "mono",
        "--font-smoothing-threshold",
        "1234",
        "--pango-markup",
        "--graph-render-mode",
        "mono",
        "--slope-mode",
        "--interlaced",
        "--tabwidth",
        "7",
        "--base",
        "4",
        "--watermark",
        "watermark",
        "--use-nan-for-all-missing-data",
    ];

    assert_eq!(strings(&expected), args);
}

#[test]
fn nothing_set_gives_no_token() {
    let mut args = vec!["kept".to_string()];
    GraphProps::default().append_to(&mut args).unwrap();
    assert_eq!(strings(&["kept"]), args);
}

#[test]
fn rendering_properties_twice_gives_the_same_tokens() {
    let props = everything();
    let mut first = vec![];
    props.append_to(&mut first).unwrap();
    let mut second = vec![];
    props.append_to(&mut second).unwrap();
    assert_eq!(first, second);
    let mut third = vec![];
    everything().append_to(&mut third).unwrap();
    assert_eq!(first, third);
}

#[test]
fn units_exponent_must_be_a_multiple_of_three_in_range() {
    for exp in [-18i8, -15, -3, 0, 3, 6, 18] {
        assert_eq!(UnitsExponent::new(exp).unwrap(), UnitsExponent { exp });
    }
    for exp in [-128i8, -21, -19, -17, -1, 1, 2, 4, 19, 21, 127] {
        assert_eq!(UnitsExponent::new(exp).unwrap_err().0, "Invalid exponent");
    }
}

#[test]
fn negative_units_exponent_is_written_with_its_sign() {
    let mut args = vec![];
    YAxis { units_exponent: Some(UnitsExponent::new(-12).unwrap()), ..Default::default() }
        .append_to(&mut args)
        .unwrap();
    assert_eq!(strings(&["--units-exponent", "-12"]), args);
}

#[test]
fn zoom_must_be_positive() {
    assert_eq!(Zoom::new(num(3.3)).unwrap().as_str(), "3.3");
    assert!(Zoom::new(num(0.001)).is_ok());
    assert!(Zoom::new(num(f64::INFINITY)).is_ok());
    assert_eq!(Zoom::new(num(0.0)).unwrap_err().0, "zoom must be positive");
    assert!(Zoom::new(num(-0.0)).is_err());
    assert!(Zoom::new(num(-1.5)).is_err());
    assert!(Zoom::new(num(f64::NAN)).is_err());
    assert!(Zoom::new(num(f64::NEG_INFINITY)).is_err());
}

#[test]
fn grids_that_are_switched_off() {
    let mut args = vec![];
    XAxis { grid: Some(XAxisGrid::NoGrid), week_format: None }.append_to(&mut args).unwrap();
    YAxis { grid: Some(YAxisGrid::NoGrid), ..Default::default() }.append_to(&mut args).unwrap();
    assert_eq!(strings(&["--x-grid", "none", "--y-grid", "none"]), args);
}

#[test]
fn alt_autoscale_without_bounds() {
    let mut args = vec![];
    Limits { alt_autoscale: Some(AltAutoscale::default()), ..Default::default() }
        .append_to(&mut args)
        .unwrap();
    assert_eq!(strings(&["--alt-autoscale"]), args);
}

#[test]
fn colors_come_in_the_order_of_the_tags() {
    let mut colors = Colors::new();
    let red = Color { red: 255, green: 0, blue: 0, alpha: None };
    let blue = Color { red: 0, green: 0, blue: 255, alpha: Some(128) };
    assert_eq!(colors.insert(ColorTag::Arrow, red), None);
    assert_eq!(colors.insert(ColorTag::Back, blue), None);
    assert_eq!(colors.insert(ColorTag::MGrid, red), None);
    assert_eq!(colors.insert(ColorTag::Arrow, blue), Some(red));
    assert_eq!(colors.get(ColorTag::Arrow), Some(blue));
    assert_eq!(colors.get(ColorTag::Canvas), None);
    let mut args = vec![];
    colors.append_to(&mut args);
    assert_eq!(
        strings(&["--color", "BACK#0000FF80", "--color", "MGRID#FF0000", "--color", "ARROW#0000FF80"]),
        args
    );
}

#[test]
fn all_color_tags() {
    let c = Color { red: 1, green: 2, blue: 3, alpha: None };
    let mut colors = Colors::new();
    for tag in [
        ColorTag::Back,
        ColorTag::Canvas,
        ColorTag::ShadeA,
        ColorTag::ShadeB,
        ColorTag::Grid,
        ColorTag::MGrid,
        ColorTag::Font,
        ColorTag::Axis,
        ColorTag::Frame,
        ColorTag::Arrow,
    ] {
        colors.insert(tag, c);
    }
    let mut args = vec![];
    colors.append_to(&mut args);
    let tokens: Vec<&str> = args.iter().map(|s| s.as_str()).filter(|s| *s != "--color").collect();
    assert_eq!(
        tokens,
        [
            "BACK#010203",
            "CANVAS#010203",
            "SHADEA#010203",
            "SHADEB#010203",
            "GRID#010203",
            "MGRID#010203",
            "FONT#010203",
            "AXIS#010203",
            "FRAME#010203",
            "ARROW#010203"
        ]
    );
    assert_eq!(args.len(), 20);
}

#[test]
fn fonts_with_and_without_a_name() {
    let mut fonts = Fonts::new();
    assert_eq!(fonts.insert(FontTag::Watermark, FontParams { size: 8, font: None }), None);
    assert_eq!(
        fonts.insert(FontTag::Default, FontParams { size: 10, font: Some("Mono".to_string()) }),
        None
    );
    assert_eq!(
        fonts.insert(FontTag::Watermark, FontParams { size: 9, font: None }),
        Some(FontParams { size: 8, font: None })
    );
    fonts.insert(FontTag::Title, FontParams { size: 1, font: None });
    fonts.insert(FontTag::Axis, FontParams { size: 2, font: None });
    fonts.insert(FontTag::Legend, FontParams { size: 3, font: None });
    let mut args = vec![];
    fonts.append_to(&mut args);
    assert_eq!(
        strings(&[
            "--font",
            "DEFAULT:10:Mono",
            "--font",
            "TITLE:1",
            "--font",
            "AXIS:2",
            "--font",
            "LEGEND:3",
            "--font",
            "WATERMARK:9"
        ]),
        args
    );
}

#[test]
fn image_formats() {
    let mut args = vec![];
    ImageFormat::Png.append_to(&mut args).unwrap();
    ImageFormat::Svg.append_to(&mut args).unwrap();
    ImageFormat::Eps.append_to(&mut args).unwrap();
    ImageFormat::Pdf.append_to(&mut args).unwrap();
    assert_eq!(
        strings(&[
            "--imgformat",
            "PNG",
            "--imgformat",
            "SVG",
            "--imgformat",
            "EPS",
            "--imgformat",
            "PDF"
        ]),
        args
    );
}

#[test]
fn render_modes_and_formatters() {
    let mut args = vec![];
    FontRenderMode::Normal.append_to(&mut args).unwrap();
    FontRenderMode::Light.append_to(&mut args).unwrap();
    GraphRenderMode::Normal.append_to(&mut args).unwrap();
    YAxisFormatter::Timestamp.append_to(&mut args).unwrap();
    YAxisFormatter::Duration.append_to(&mut args).unwrap();
    assert_eq!(
        strings(&[
            "--font-render-mode",
            "normal",
            "--font-render-mode",
            "light",
            "--graph-render-mode",
            "normal",
            "timestamp",
            "duration"
        ]),
        args
    );
}

#[test]
fn legend_positions_and_directions() {
    let mut args = vec![];
    for (p, d) in [
        (LegendPosition::South, LegendDirection::TopDown),
        (LegendPosition::East, LegendDirection::BottomUp2),
        (LegendPosition::West, LegendDirection::BottomUp),
    ] {
        Legend {
            no_legend: false,
            force_rules_legend: false,
            legend_position: Some(p),
            legend_direction: Some(d),
        }
        .append_to(&mut args)
        .unwrap();
    }
    assert_eq!(
        strings(&[
            "--legend-position=south",
            "--legend-direction=topdown",
            "--legend-position=east",
            "--legend-direction=bottomup2",
            "--legend-position=west",
            "--legend-direction=bottomup"
        ]),
        args
    );
}

#[test]
fn time_before_the_epoch() {
    let mut args = vec![];
    TimeRange { start: Some(Timestamp::from_timestamp(-86400)), end: None, step_seconds: None }
        .append_to(&mut args)
        .unwrap();
    assert_eq!(strings(&["--start", "-86400"]), args);
}

#[test]
fn right_axis_alone() {
    let mut args = vec![];
    RightYAxis { scale: num(0.5), shift: 20, label: None, formatter: None, format: None }
        .append_to(&mut args)
        .unwrap();
    assert_eq!(strings(&["--right-axis", "0.5:20"]), args);
}

#[test]
fn all_time_units() {
    for (unit, word) in [
        (AxisGridTimeUnit::Second, "SECOND"),
        (AxisGridTimeUnit::Minute, "MINUTE"),
        (AxisGridTimeUnit::Hour, "HOUR"),
        (AxisGridTimeUnit::Day, "DAY"),
        (AxisGridTimeUnit::Week, "WEEK"),
        (AxisGridTimeUnit::Month, "MONTH"),
        (AxisGridTimeUnit::Year, "YEAR"),
    ] {
        assert_eq!(unit.as_arg_str(), word);
    }
}
