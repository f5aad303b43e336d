//! The properties of a graph: its time range, labels, size, axes, legend and
//! the rest.
//!
//! Every property is optional, and one that is not set gives no token.
use vstd::prelude::*;
use crate::error::{InvalidArgument, RrdResult};
use crate::number::{denotes_positive, number_text, push_number_option, Number};
use crate::ops::graph::Color;
use crate::text::{
    count_text, decimal, decimal_string, flag, lemma_concat3, lemma_concat4,
    lemma_concat5, lemma_concat6, lemma_concat_assoc, lemma_concat_nothing, option, push_count_option,
    push_decimal, push_flag, push_pair, push_string_option, push_text_option, push_token,
    push_word, signed_decimal, signed_decimal_string, string_text,
};
use crate::{time_text, Timestamp};

verus! {

fn push_time_option(args: &mut Vec<String>, name: &str, value: Option<Timestamp>)
    ensures
        final(args).deep_view() == old(args).deep_view() + option(name@, time_text(value)),
{
    let text = match value {
        Some(t) => Some(signed_decimal_string(t.secs)),
        None => None,
    };
    push_text_option(args, name, text);
}

/// The time range of a graph.
#[derive(Default, Debug, Clone, PartialEq)]
#[allow(missing_docs)]
pub struct TimeRange {
    pub start: Option<Timestamp>,
    pub end: Option<Timestamp>,
    pub step_seconds: Option<u32>,
}

impl TimeRange {
    /// The tokens of the time range.
    pub open spec fn tokens(&self) -> Seq<Seq<char>> {
        option("--start"@, time_text(self.start)) + option("--end"@, time_text(self.end)) + option(
            "--step"@,
            count_text(self.step_seconds),
        )
    }

    /// Appends the tokens of the time range.
    pub fn append_to(&self, args: &mut Vec<String>) -> (r: RrdResult<()>)
        ensures
            r is Ok,
            final(args).deep_view() == old(args).deep_view() + self.tokens(),
    {
        push_time_option(args, "--start", self.start);
        push_time_option(args, "--end", self.end);
        push_count_option(args, "--step", self.step_seconds);
        proof {
            lemma_concat3(
                old(args).deep_view(),
                option("--start"@, time_text(self.start)),
                option("--end"@, time_text(self.end)),
                option("--step"@, count_text(self.step_seconds)),
            );
        }
        Ok(())
    }
}

/// The title and the label of the value axis.
#[derive(Default, Debug, Clone, PartialEq)]
#[allow(missing_docs)]
pub struct Labels {
    pub title: Option<String>,
    pub vertical_label: Option<String>,
}

impl Labels {
    /// The tokens of the labels.
    pub open spec fn tokens(&self) -> Seq<Seq<char>> {
        option("--title"@, string_text(self.title)) + option(
            "--vertical-label"@,
            string_text(self.vertical_label),
        )
    }

    /// Appends the tokens of the labels.
    pub fn append_to(&self, args: &mut Vec<String>) -> (r: RrdResult<()>)
        ensures
            r is Ok,
            final(args).deep_view() == old(args).deep_view() + self.tokens(),
    {
        push_string_option(args, "--title", &self.title);
        push_string_option(args, "--vertical-label", &self.vertical_label);
        proof {
            lemma_concat_assoc(
                old(args).deep_view(),
                option("--title"@, string_text(self.title)),
                option("--vertical-label"@, string_text(self.vertical_label)),
            );
        }
        Ok(())
    }
}

/// The size of a graph.
#[derive(Default, Debug, Clone, PartialEq)]
#[allow(missing_docs)]
pub struct Size {
    pub width: Option<u32>,
    pub height: Option<u32>,
    pub full_size_mode: bool,
    pub only_graph: bool,
}

impl Size {
    /// The tokens of the size.
    pub open spec fn tokens(&self) -> Seq<Seq<char>> {
        option("--width"@, count_text(self.width)) + option("--height"@, count_text(self.height))
            + flag(self.only_graph, "--only-graph"@) + flag(
            self.full_size_mode,
            "--full-size-mode"@,
        )
    }

    /// Appends the tokens of the size.
    pub fn append_to(&self, args: &mut Vec<String>) -> (r: RrdResult<()>)
        ensures
            r is Ok,
            final(args).deep_view() == old(args).deep_view() + self.tokens(),
    {
        push_count_option(args, "--width", self.width);
        push_count_option(args, "--height", self.height);
        push_flag(args, self.only_graph, "--only-graph");
        push_flag(args, self.full_size_mode, "--full-size-mode");
        proof {
            lemma_concat4(
                old(args).deep_view(),
                option("--width"@, count_text(self.width)),
                option("--height"@, count_text(self.height)),
                flag(self.only_graph, "--only-graph"@),
                flag(self.full_size_mode, "--full-size-mode"@),
            );
        }
        Ok(())
    }
}

/// Bounds for the alternative scaling of the value axis.
#[derive(Default, Debug, Clone, PartialEq)]
#[allow(missing_docs)]
pub struct AltAutoscale {
    pub alt_autoscale_min: Option<Number>,
    pub alt_autoscale_max: Option<Number>,
}

impl AltAutoscale {
    /// The tokens of the alternative scaling.
    pub open spec fn tokens(&self) -> Seq<Seq<char>> {
        seq!["--alt-autoscale"@] + option(
            "--alt-autoscale-min"@,
            number_text(self.alt_autoscale_min),
        ) + option("--alt-autoscale-max"@, number_text(self.alt_autoscale_max))
    }

    /// Appends the tokens of the alternative scaling.
    pub fn append_to(&self, args: &mut Vec<String>) -> (r: RrdResult<()>)
        ensures
            r is Ok,
            final(args).deep_view() == old(args).deep_view() + self.tokens(),
    {
        push_word(args, "--alt-autoscale");
        push_number_option(args, "--alt-autoscale-min", &self.alt_autoscale_min);
        push_number_option(args, "--alt-autoscale-max", &self.alt_autoscale_max);
        proof {
            lemma_concat3(
                old(args).deep_view(),
                seq!["--alt-autoscale"@],
                option("--alt-autoscale-min"@, number_text(self.alt_autoscale_min)),
                option("--alt-autoscale-max"@, number_text(self.alt_autoscale_max)),
            );
        }
        Ok(())
    }
}

/// The limits of the value axis.
#[derive(Default, Debug, Clone, PartialEq)]
#[allow(missing_docs)]
pub struct Limits {
    pub upper_limit: Option<Number>,
    pub lower_limit: Option<Number>,
    pub rigid: bool,
    pub allow_shrink: bool,
    /// If `Some`, enables the alternative scaling.
    pub alt_autoscale: Option<AltAutoscale>,
    pub no_grid_fit: bool,
}

impl Limits {
    /// The tokens of the alternative scaling, if it is enabled.
    pub open spec fn alt_autoscale_tokens(&self) -> Seq<Seq<char>> {
        match self.alt_autoscale {
            Some(aa) => aa.tokens(),
            None => seq![],
        }
    }

    fn append_alt_autoscale(&self, args: &mut Vec<String>)
        ensures
            final(args).deep_view() == old(args).deep_view() + self.alt_autoscale_tokens(),
    {
        match &self.alt_autoscale {
            Some(aa) => {
                let _ = aa.append_to(args);
            },
            None => {
                proof {
                    lemma_concat_nothing(args.deep_view());
                }
            },
        }
    }

    /// The tokens of the limits.
    pub open spec fn tokens(&self) -> Seq<Seq<char>> {
        option("--upper-limit"@, number_text(self.upper_limit)) + option(
            "--lower-limit"@,
            number_text(self.lower_limit),
        ) + flag(self.rigid, "--rigid"@) + flag(self.allow_shrink, "--allow-shrink"@)
            + self.alt_autoscale_tokens() + flag(self.no_grid_fit, "--no-gridfit"@)
    }

    /// Appends the tokens of the limits.
    pub fn append_to(&self, args: &mut Vec<String>) -> (r: RrdResult<()>)
        ensures
            r is Ok,
            final(args).deep_view() == old(args).deep_view() + self.tokens(),
    {
        push_number_option(args, "--upper-limit", &self.upper_limit);
        push_number_option(args, "--lower-limit", &self.lower_limit);
        push_flag(args, self.rigid, "--rigid");
        push_flag(args, self.allow_shrink, "--allow-shrink");
        self.append_alt_autoscale(args);
        push_flag(args, self.no_grid_fit, "--no-gridfit");
        proof {
            lemma_concat6(
                old(args).deep_view(),
                option("--upper-limit"@, number_text(self.upper_limit)),
                option("--lower-limit"@, number_text(self.lower_limit)),
                flag(self.rigid, "--rigid"@),
                flag(self.allow_shrink, "--allow-shrink"@),
                self.alt_autoscale_tokens(),
                flag(self.no_grid_fit, "--no-gridfit"@),
            );
        }
        Ok(())
    }
}

/// The unit of time of a grid on the time axis.
#[derive(Debug, Clone, Copy, PartialEq, Eq, Structural)]
#[allow(missing_docs)]
pub enum AxisGridTimeUnit {
    Second,
    Minute,
    Hour,
    Day,
    Week,
    Month,
    Year,
}

impl AxisGridTimeUnit {
    /// The keyword of the unit.
    pub open spec fn keyword(self) -> Seq<char> {
        match self {
            AxisGridTimeUnit::Second => "SECOND"@,
            AxisGridTimeUnit::Minute => "MINUTE"@,
            AxisGridTimeUnit::Hour => "HOUR"@,
            AxisGridTimeUnit::Day => "DAY"@,
            AxisGridTimeUnit::Week => "WEEK"@,
            AxisGridTimeUnit::Month => "MONTH"@,
            AxisGridTimeUnit::Year => "YEAR"@,
        }
    }

    /// The keyword of the unit.
    pub fn as_arg_str(&self) -> (s: &'static str)
        ensures
            s@ == self.keyword(),
    {
        match self {
            AxisGridTimeUnit::Second => "SECOND",
            AxisGridTimeUnit::Minute => "MINUTE",
            AxisGridTimeUnit::Hour => "HOUR",
            AxisGridTimeUnit::Day => "DAY",
            AxisGridTimeUnit::Week => "WEEK",
            AxisGridTimeUnit::Month => "MONTH",
            AxisGridTimeUnit::Year => "YEAR",
        }
    }
}

/// The grid of the time axis.
#[derive(Debug, Clone, PartialEq)]
#[allow(missing_docs)]
pub enum XAxisGrid {
    /// No grid at all.
    NoGrid,
    Custom {
        base_grid_time: AxisGridTimeUnit,
        base_grid_step: u32,
        major_grid_time: AxisGridTimeUnit,
        major_grid_step: u32,
        labels_time: AxisGridTimeUnit,
        labels_step: u32,
        label_placement: u32,
        label_format: String,
    },
}

impl XAxisGrid {
    /// The text of the grid: `none`, or its eight parts with colons between.
    pub open spec fn text(&self) -> Seq<char> {
        match self {
            XAxisGrid::NoGrid => "none"@,
            XAxisGrid::Custom {
                base_grid_time,
                base_grid_step,
                major_grid_time,
                major_grid_step,
                labels_time,
                labels_step,
                label_placement,
                label_format,
            } => base_grid_time.keyword() + ":"@ + decimal(*base_grid_step as nat) + ":"@
                + major_grid_time.keyword() + ":"@ + decimal(*major_grid_step as nat) + ":"@
                + labels_time.keyword() + ":"@ + decimal(*labels_step as nat) + ":"@ + decimal(
                *label_placement as nat,
            ) + ":"@ + label_format@,
        }
    }

    fn to_text(&self) -> (s: String)
        ensures
            s@ == self.text(),
    {
        match self {
            XAxisGrid::NoGrid => String::from_str("none"),
            XAxisGrid::Custom {
                base_grid_time,
                base_grid_step,
                major_grid_time,
                major_grid_step,
                labels_time,
                labels_step,
                label_placement,
                label_format,
            } => {
                let mut s = String::from_str(base_grid_time.as_arg_str());
                s.append(":");
                push_decimal(&mut s, *base_grid_step as u64);
                s.append(":");
                s.append(major_grid_time.as_arg_str());
                s.append(":");
                push_decimal(&mut s, *major_grid_step as u64);
                s.append(":");
                s.append(labels_time.as_arg_str());
                s.append(":");
                push_decimal(&mut s, *labels_step as u64);
                s.append(":");
                push_decimal(&mut s, *label_placement as u64);
                s.append(":");
                s.append(label_format.as_str());
                s
            },
        }
    }
}

/// The time axis.
#[derive(Default, Debug, Clone, PartialEq)]
#[allow(missing_docs)]
pub struct XAxis {
    pub grid: Option<XAxisGrid>,
    pub week_format: Option<String>,
}

impl XAxis {
    /// The text of the grid, if there is one.
    pub open spec fn grid_text(&self) -> Option<Seq<char>> {
        match self.grid {
            Some(g) => Some(g.text()),
            None => None,
        }
    }

    /// The tokens of the time axis.
    pub open spec fn tokens(&self) -> Seq<Seq<char>> {
        option("--x-grid"@, self.grid_text()) + option("--week-fmt"@, string_text(self.week_format))
    }

    /// Appends the tokens of the time axis.
    pub fn append_to(&self, args: &mut Vec<String>) -> (r: RrdResult<()>)
        ensures
            r is Ok,
            final(args).deep_view() == old(args).deep_view() + self.tokens(),
    {
        let grid = match &self.grid {
            Some(g) => Some(g.to_text()),
            None => None,
        };
        push_text_option(args, "--x-grid", grid);
        push_string_option(args, "--week-fmt", &self.week_format);
        proof {
            lemma_concat_assoc(
                old(args).deep_view(),
                option("--x-grid"@, self.grid_text()),
                option("--week-fmt"@, string_text(self.week_format)),
            );
        }
        Ok(())
    }
}

/// The grid of the value axis.
#[derive(Debug, Clone, Copy, PartialEq, Eq, Structural)]
#[allow(missing_docs)]
pub enum YAxisGrid {
    /// No grid at all.
    NoGrid,
    Custom { grid_step: u32, label_factor: u32 },
}

impl YAxisGrid {
    /// The text of the grid: `none`, or the step and the factor.
    pub open spec fn text(self) -> Seq<char> {
        match self {
            YAxisGrid::NoGrid => "none"@,
            YAxisGrid::Custom { grid_step, label_factor } => decimal(grid_step as nat) + ":"@
                + decimal(label_factor as nat),
        }
    }

    fn to_text(&self) -> (s: String)
        ensures
            s@ == self.text(),
    {
        match self {
            YAxisGrid::NoGrid => String::from_str("none"),
            YAxisGrid::Custom { grid_step, label_factor } => {
                let mut s = decimal_string(*grid_step as u64);
                s.append(":");
                push_decimal(&mut s, *label_factor as u64);
                s
            },
        }
    }
}

/// How the labels of a value axis are written.
#[derive(Debug, Clone, Copy, PartialEq, Eq, Structural)]
#[allow(missing_docs)]
pub enum YAxisFormatter {
    Numeric,
    Timestamp,
    Duration,
}

impl YAxisFormatter {
    /// The keyword of the formatter.
    pub open spec fn keyword(self) -> Seq<char> {
        match self {
            YAxisFormatter::Numeric => "numeric"@,
            YAxisFormatter::Timestamp => "timestamp"@,
            YAxisFormatter::Duration => "duration"@,
        }
    }

    /// Appends the keyword of the formatter as one token.
    pub fn append_to(&self, args: &mut Vec<String>) -> (r: RrdResult<()>)
        ensures
            r is Ok,
            final(args).deep_view() == old(args).deep_view() + seq![self.keyword()],
    {
        push_word(
            args,
            match self {
                YAxisFormatter::Numeric => "numeric",
                YAxisFormatter::Timestamp => "timestamp",
                YAxisFormatter::Duration => "duration",
            },
        );
        Ok(())
    }
}

/// The keyword of a formatter, if there is one.
pub open spec fn formatter_text(v: Option<YAxisFormatter>) -> Option<Seq<char>> {
    match v {
        Some(f) => Some(f.keyword()),
        None => None,
    }
}

fn push_formatter_option(args: &mut Vec<String>, name: &str, value: Option<YAxisFormatter>) -> (r:
    RrdResult<()>)
    ensures
        r is Ok,
        final(args).deep_view() == old(args).deep_view() + option(name@, formatter_text(value)),
{
    match value {
        Some(f) => {
            push_word(args, name);
            f.append_to(args)?;
            assert(args.deep_view() =~= old(args).deep_view() + seq![name@, f.keyword()]);
        },
        None => {
            proof {
                lemma_concat_nothing(args.deep_view());
            }
        },
    }
    Ok(())
}

/// The power of ten by which the values of the value axis are scaled.
#[derive(Debug, Clone, Copy, PartialEq, Eq, Structural)]
pub struct UnitsExponent {
    /// Must be a multiple of 3.
    pub exp: i8,
}

impl UnitsExponent {
    /// `exp` must be a multiple of 3 from -18 to 18.
    pub fn new(exp: i8) -> (r: Result<Self, InvalidArgument>)
        ensures
            -18 <= exp <= 18 && exp as int % 3 == 0 ==> r == Ok::<Self, InvalidArgument>(
                UnitsExponent { exp },
            ),
            !(-18 <= exp <= 18 && exp as int % 3 == 0) ==> (r matches Err(e) && e.0@
                == "Invalid exponent"@),
    {
        if -18 <= exp && exp <= 18 && (exp + 18) % 3 == 0 {
            Ok(Self { exp })
        } else {
            Err(InvalidArgument("Invalid exponent"))
        }
    }
}

/// The units of the value axis.
#[derive(Debug, Clone, Copy, PartialEq, Eq, Structural)]
#[allow(missing_docs)]
pub enum Units {
    Si,
}

/// The value axis.
#[derive(Default, Debug, Clone, PartialEq)]
#[allow(missing_docs)]
pub struct YAxis {
    pub grid: Option<YAxisGrid>,
    pub formatter: Option<YAxisFormatter>,
    pub format: Option<String>,
    pub alt_y_grid: bool,
    pub logarithmic: bool,
    pub units_exponent: Option<UnitsExponent>,
    pub units_length: Option<u8>,
    pub units: Option<Units>,
}

impl YAxis {
    /// The text of the grid, if there is one.
    pub open spec fn grid_text(&self) -> Option<Seq<char>> {
        match self.grid {
            Some(g) => Some(g.text()),
            None => None,
        }
    }

    /// The numeral of the exponent, if there is one.
    pub open spec fn exponent_text(&self) -> Option<Seq<char>> {
        match self.units_exponent {
            Some(ue) => Some(signed_decimal(ue.exp as int)),
            None => None,
        }
    }

    /// The numeral of the length of the units, if there is one.
    pub open spec fn length_text(&self) -> Option<Seq<char>> {
        match self.units_length {
            Some(ul) => Some(decimal(ul as nat)),
            None => None,
        }
    }

    /// The keyword of the units, if there are any.
    pub open spec fn units_text(&self) -> Option<Seq<char>> {
        match self.units {
            Some(Units::Si) => Some("si"@),
            None => None,
        }
    }

    /// The tokens of the grid and of the labels of the value axis.
    pub open spec fn grid_tokens(&self) -> Seq<Seq<char>> {
        option("--y-grid"@, self.grid_text()) + option(
            "--left-axis-formatter"@,
            formatter_text(self.formatter),
        ) + option("--left-axis-format"@, string_text(self.format)) + flag(
            self.alt_y_grid,
            "--alt-y-grid"@,
        ) + flag(self.logarithmic, "--logarithmic"@)
    }

    /// The tokens of the units of the value axis.
    pub open spec fn units_tokens(&self) -> Seq<Seq<char>> {
        option("--units-exponent"@, self.exponent_text()) + option(
            "--units-length"@,
            self.length_text(),
        ) + option("--units"@, self.units_text())
    }

    /// The tokens of the value axis.
    pub open spec fn tokens(&self) -> Seq<Seq<char>> {
        self.grid_tokens() + self.units_tokens()
    }

    fn append_grid(&self, args: &mut Vec<String>) -> (r: RrdResult<()>)
        ensures
            r is Ok,
            final(args).deep_view() == old(args).deep_view() + self.grid_tokens(),
    {
        let grid = match &self.grid {
            Some(g) => Some(g.to_text()),
            None => None,
        };
        push_text_option(args, "--y-grid", grid);
        push_formatter_option(args, "--left-axis-formatter", self.formatter)?;
        push_string_option(args, "--left-axis-format", &self.format);
        push_flag(args, self.alt_y_grid, "--alt-y-grid");
        push_flag(args, self.logarithmic, "--logarithmic");
        proof {
            lemma_concat5(
                old(args).deep_view(),
                option("--y-grid"@, self.grid_text()),
                option("--left-axis-formatter"@, formatter_text(self.formatter)),
                option("--left-axis-format"@, string_text(self.format)),
                flag(self.alt_y_grid, "--alt-y-grid"@),
                flag(self.logarithmic, "--logarithmic"@),
            );
        }
        Ok(())
    }

    fn append_units(&self, args: &mut Vec<String>)
        ensures
            final(args).deep_view() == old(args).deep_view() + self.units_tokens(),
    {
        let exponent = match self.units_exponent {
            Some(ue) => Some(signed_decimal_string(ue.exp as i64)),
            None => None,
        };
        push_text_option(args, "--units-exponent", exponent);
        let length = match self.units_length {
            Some(ul) => Some(decimal_string(ul as u64)),
            None => None,
        };
        push_text_option(args, "--units-length", length);
        let units = match self.units {
            Some(Units::Si) => Some(String::from_str("si")),
            None => None,
        };
        push_text_option(args, "--units", units);
        proof {
            lemma_concat3(
                old(args).deep_view(),
                option("--units-exponent"@, self.exponent_text()),
                option("--units-length"@, self.length_text()),
                option("--units"@, self.units_text()),
            );
        }
    }

    /// Appends the tokens of the value axis.
    pub fn append_to(&self, args: &mut Vec<String>) -> (r: RrdResult<()>)
        ensures
            r is Ok,
            final(args).deep_view() == old(args).deep_view() + self.tokens(),
    {
        self.append_grid(args)?;
        self.append_units(args);
        proof {
            lemma_concat_assoc(old(args).deep_view(), self.grid_tokens(), self.units_tokens());
        }
        Ok(())
    }
}

/// The keyword of a formatter as a string, if there is one.
fn formatter_string(value: Option<YAxisFormatter>) -> (r: Option<String>)
    ensures
        string_text(r) == formatter_text(value),
{
    match value {
        Some(YAxisFormatter::Numeric) => Some(String::from_str("numeric")),
        Some(YAxisFormatter::Timestamp) => Some(String::from_str("timestamp")),
        Some(YAxisFormatter::Duration) => Some(String::from_str("duration")),
        None => None,
    }
}

/// A second value axis, on the right.
#[derive(Debug, Clone, PartialEq)]
#[allow(missing_docs)]
pub struct RightYAxis {
    pub scale: Number,
    pub shift: u32,
    pub label: Option<String>,
    pub formatter: Option<YAxisFormatter>,
    pub format: Option<String>,
}

impl RightYAxis {
    /// The tokens of the right value axis.
    pub open spec fn tokens(&self) -> Seq<Seq<char>> {
        seq!["--right-axis"@, self.scale@ + ":"@ + decimal(self.shift as nat)] + option(
            "--right-axis-label"@,
            string_text(self.label),
        ) + option("--right-axis-formatter"@, formatter_text(self.formatter)) + option(
            "--right-axis-format"@,
            string_text(self.format),
        )
    }

    /// Appends the tokens of the right value axis.
    pub fn append_to(&self, args: &mut Vec<String>) -> (r: RrdResult<()>)
        ensures
            r is Ok,
            final(args).deep_view() == old(args).deep_view() + self.tokens(),
    {
        let mut scale = self.scale.as_str().to_owned();
        scale.append(":");
        push_decimal(&mut scale, self.shift as u64);
        push_pair(args, "--right-axis", scale);
        push_string_option(args, "--right-axis-label", &self.label);
        push_text_option(args, "--right-axis-formatter", formatter_string(self.formatter));
        push_string_option(args, "--right-axis-format", &self.format);
        proof {
            lemma_concat4(
                old(args).deep_view(),
                seq!["--right-axis"@, self.scale@ + ":"@ + decimal(self.shift as nat)],
                option("--right-axis-label"@, string_text(self.label)),
                option("--right-axis-formatter"@, formatter_text(self.formatter)),
                option("--right-axis-format"@, string_text(self.format)),
            );
        }
        Ok(())
    }
}

/// Where the legend stands.
#[derive(Debug, Clone, Copy, PartialEq, Eq, Structural)]
#[allow(missing_docs)]
pub enum LegendPosition {
    North,
    South,
    East,
    West,
}

impl LegendPosition {
    /// The keyword of the position.
    pub open spec fn keyword(self) -> Seq<char> {
        match self {
            LegendPosition::North => "north"@,
            LegendPosition::South => "south"@,
            LegendPosition::East => "east"@,
            LegendPosition::West => "west"@,
        }
    }

    /// The keyword of the position.
    pub fn as_arg_str(&self) -> (s: &'static str)
        ensures
            s@ == self.keyword(),
    {
        match self {
            LegendPosition::North => "north",
            LegendPosition::South => "south",
            LegendPosition::East => "east",
            LegendPosition::West => "west",
        }
    }
}

/// In which order the legend lists its entries.
#[derive(Debug, Clone, Copy, PartialEq, Eq, Structural)]
#[allow(missing_docs)]
pub enum LegendDirection {
    TopDown,
    BottomUp,
    BottomUp2,
}

impl LegendDirection {
    /// The keyword of the direction.
    pub open spec fn keyword(self) -> Seq<char> {
        match self {
            LegendDirection::TopDown => "topdown"@,
            LegendDirection::BottomUp => "bottomup"@,
            LegendDirection::BottomUp2 => "bottomup2"@,
        }
    }

    /// The keyword of the direction.
    pub fn as_arg_str(&self) -> (s: &'static str)
        ensures
            s@ == self.keyword(),
    {
        match self {
            LegendDirection::TopDown => "topdown",
            LegendDirection::BottomUp => "bottomup",
            LegendDirection::BottomUp2 => "bottomup2",
        }
    }
}

/// The one token `prefix` followed by a keyword, if there is a keyword.
pub open spec fn joined_option(prefix: Seq<char>, keyword: Option<Seq<char>>) -> Seq<Seq<char>> {
    match keyword {
        Some(k) => seq![prefix + k],
        None => seq![],
    }
}

fn push_joined_option(args: &mut Vec<String>, prefix: &str, keyword: Option<&str>)
    ensures
        final(args).deep_view() == old(args).deep_view() + joined_option(
            prefix@,
            match keyword {
                Some(k) => Some(k@),
                None => None,
            },
        ),
{
    match keyword {
        Some(k) => {
            let mut s = String::from_str(prefix);
            s.append(k);
            push_token(args, s);
        },
        None => {
            proof {
                lemma_concat_nothing(args.deep_view());
            }
        },
    }
}

/// The legend of a graph.
#[derive(Default, Debug, Clone, PartialEq)]
#[allow(missing_docs)]
pub struct Legend {
    pub no_legend: bool,
    pub force_rules_legend: bool,
    pub legend_position: Option<LegendPosition>,
    pub legend_direction: Option<LegendDirection>,
}

impl Legend {
    /// The keyword of the position, if there is one.
    pub open spec fn position_text(&self) -> Option<Seq<char>> {
        match self.legend_position {
            Some(p) => Some(p.keyword()),
            None => None,
        }
    }

    /// The keyword of the direction, if there is one.
    pub open spec fn direction_text(&self) -> Option<Seq<char>> {
        match self.legend_direction {
            Some(d) => Some(d.keyword()),
            None => None,
        }
    }

    /// The tokens of the legend.
    pub open spec fn tokens(&self) -> Seq<Seq<char>> {
        flag(self.no_legend, "--no-legend"@) + flag(
            self.force_rules_legend,
            "--force-rules-legend"@,
        ) + joined_option("--legend-position="@, self.position_text()) + joined_option(
            "--legend-direction="@,
            self.direction_text(),
        )
    }

    /// Appends the tokens of the legend.
    pub fn append_to(&self, args: &mut Vec<String>) -> (r: RrdResult<()>)
        ensures
            r is Ok,
            final(args).deep_view() == old(args).deep_view() + self.tokens(),
    {
        push_flag(args, self.no_legend, "--no-legend");
        push_flag(args, self.force_rules_legend, "--force-rules-legend");
        let position = match &self.legend_position {
            Some(p) => Some(p.as_arg_str()),
            None => None,
        };
        push_joined_option(args, "--legend-position=", position);
        let direction = match &self.legend_direction {
            Some(d) => Some(d.as_arg_str()),
            None => None,
        };
        push_joined_option(args, "--legend-direction=", direction);
        proof {
            lemma_concat4(
                old(args).deep_view(),
                flag(self.no_legend, "--no-legend"@),
                flag(self.force_rules_legend, "--force-rules-legend"@),
                joined_option("--legend-position="@, self.position_text()),
                joined_option("--legend-direction="@, self.direction_text()),
            );
        }
        Ok(())
    }
}

/// The part of a graph that a color is for.
#[derive(Debug, Clone, Copy, PartialEq, Eq, Hash, Structural)]
#[allow(missing_docs)]
pub enum ColorTag {
    Back,
    Canvas,
    ShadeA,
    ShadeB,
    Grid,
    MGrid,
    Font,
    Axis,
    Frame,
    Arrow,
}

impl ColorTag {
    /// The keyword of the part.
    pub open spec fn keyword(self) -> Seq<char> {
        match self {
            ColorTag::Back => "BACK"@,
            ColorTag::Canvas => "CANVAS"@,
            ColorTag::ShadeA => "SHADEA"@,
            ColorTag::ShadeB => "SHADEB"@,
            ColorTag::Grid => "GRID"@,
            ColorTag::MGrid => "MGRID"@,
            ColorTag::Font => "FONT"@,
            ColorTag::Axis => "AXIS"@,
            ColorTag::Frame => "FRAME"@,
            ColorTag::Arrow => "ARROW"@,
        }
    }

    /// The keyword of the part.
    pub fn as_arg_str(&self) -> (s: &'static str)
        ensures
            s@ == self.keyword(),
    {
        match self {
            ColorTag::Back => "BACK",
            ColorTag::Canvas => "CANVAS",
            ColorTag::ShadeA => "SHADEA",
            ColorTag::ShadeB => "SHADEB",
            ColorTag::Grid => "GRID",
            ColorTag::MGrid => "MGRID",
            ColorTag::Font => "FONT",
            ColorTag::Axis => "AXIS",
            ColorTag::Frame => "FRAME",
            ColorTag::Arrow => "ARROW",
        }
    }
}

/// The tokens that give a part its color, if it has one.
pub open spec fn color_tokens(tag: ColorTag, color: Option<Color>) -> Seq<Seq<char>> {
    match color {
        Some(c) => seq!["--color"@, tag.keyword() + c.text()],
        None => seq![],
    }
}

fn push_color(args: &mut Vec<String>, tag: ColorTag, color: Option<Color>)
    ensures
        final(args).deep_view() == old(args).deep_view() + color_tokens(tag, color),
{
    match color {
        Some(c) => {
            let mut s = String::from_str(tag.as_arg_str());
            c.append_to(&mut s);
            push_pair(args, "--color", s);
        },
        None => {
            proof {
                lemma_concat_nothing(args.deep_view());
            }
        },
    }
}

/// The colors of the parts of a graph: at most one for each part.
///
/// The parts are listed in the order of [`ColorTag`].
#[derive(Default, Debug, Clone, PartialEq)]
#[allow(missing_docs)]
pub struct Colors {
    pub back: Option<Color>,
    pub canvas: Option<Color>,
    pub shade_a: Option<Color>,
    pub shade_b: Option<Color>,
    pub grid: Option<Color>,
    pub m_grid: Option<Color>,
    pub font: Option<Color>,
    pub axis: Option<Color>,
    pub frame: Option<Color>,
    pub arrow: Option<Color>,
}

impl Colors {
    /// The color of a part, if it has one.
    pub open spec fn color_of(&self, tag: ColorTag) -> Option<Color> {
        match tag {
            ColorTag::Back => self.back,
            ColorTag::Canvas => self.canvas,
            ColorTag::ShadeA => self.shade_a,
            ColorTag::ShadeB => self.shade_b,
            ColorTag::Grid => self.grid,
            ColorTag::MGrid => self.m_grid,
            ColorTag::Font => self.font,
            ColorTag::Axis => self.axis,
            ColorTag::Frame => self.frame,
            ColorTag::Arrow => self.arrow,
        }
    }

    /// No part has a color.
    pub fn new() -> (c: Colors)
        ensures
            forall|tag: ColorTag| c.color_of(tag) is None,
    {
        Colors {
            back: None,
            canvas: None,
            shade_a: None,
            shade_b: None,
            grid: None,
            m_grid: None,
            font: None,
            axis: None,
            frame: None,
            arrow: None,
        }
    }

    /// The color of a part, if it has one.
    pub fn get(&self, tag: ColorTag) -> (c: Option<Color>)
        ensures
            c == self.color_of(tag),
    {
        match tag {
            ColorTag::Back => self.back,
            ColorTag::Canvas => self.canvas,
            ColorTag::ShadeA => self.shade_a,
            ColorTag::ShadeB => self.shade_b,
            ColorTag::Grid => self.grid,
            ColorTag::MGrid => self.m_grid,
            ColorTag::Font => self.font,
            ColorTag::Axis => self.axis,
            ColorTag::Frame => self.frame,
            ColorTag::Arrow => self.arrow,
        }
    }

    /// Gives a part a color, and returns the color it had.
    pub fn insert(&mut self, tag: ColorTag, color: Color) -> (previous: Option<Color>)
        ensures
            previous == old(self).color_of(tag),
            final(self).color_of(tag) == Some(color),
            forall|other: ColorTag| other != tag ==> final(self).color_of(other) == old(self).color_of(other),
    {
        let previous = self.get(tag);
        match tag {
            ColorTag::Back => { self.back = Some(color); },
            ColorTag::Canvas => { self.canvas = Some(color); },
            ColorTag::ShadeA => { self.shade_a = Some(color); },
            ColorTag::ShadeB => { self.shade_b = Some(color); },
            ColorTag::Grid => { self.grid = Some(color); },
            ColorTag::MGrid => { self.m_grid = Some(color); },
            ColorTag::Font => { self.font = Some(color); },
            ColorTag::Axis => { self.axis = Some(color); },
            ColorTag::Frame => { self.frame = Some(color); },
            ColorTag::Arrow => { self.arrow = Some(color); },
        }
        previous
    }

    /// The tokens of the first five parts.
    pub open spec fn surface_tokens(&self) -> Seq<Seq<char>> {
        color_tokens(ColorTag::Back, self.back) + color_tokens(ColorTag::Canvas, self.canvas)
            + color_tokens(ColorTag::ShadeA, self.shade_a) + color_tokens(
            ColorTag::ShadeB,
            self.shade_b,
        ) + color_tokens(ColorTag::Grid, self.grid)
    }

    /// The tokens of the last five parts.
    pub open spec fn line_tokens(&self) -> Seq<Seq<char>> {
        color_tokens(ColorTag::MGrid, self.m_grid) + color_tokens(ColorTag::Font, self.font)
            + color_tokens(ColorTag::Axis, self.axis) + color_tokens(ColorTag::Frame, self.frame)
            + color_tokens(ColorTag::Arrow, self.arrow)
    }

    /// The tokens of the colors.
    pub open spec fn tokens(&self) -> Seq<Seq<char>> {
        self.surface_tokens() + self.line_tokens()
    }

    fn append_surface(&self, args: &mut Vec<String>)
        ensures
            final(args).deep_view() == old(args).deep_view() + self.surface_tokens(),
    {
        push_color(args, ColorTag::Back, self.back);
        push_color(args, ColorTag::Canvas, self.canvas);
        push_color(args, ColorTag::ShadeA, self.shade_a);
        push_color(args, ColorTag::ShadeB, self.shade_b);
        push_color(args, ColorTag::Grid, self.grid);
        proof {
            lemma_concat5(
                old(args).deep_view(),
                color_tokens(ColorTag::Back, self.back),
                color_tokens(ColorTag::Canvas, self.canvas),
                color_tokens(ColorTag::ShadeA, self.shade_a),
                color_tokens(ColorTag::ShadeB, self.shade_b),
                color_tokens(ColorTag::Grid, self.grid),
            );
        }
    }

    fn append_lines(&self, args: &mut Vec<String>)
        ensures
            final(args).deep_view() == old(args).deep_view() + self.line_tokens(),
    {
        push_color(args, ColorTag::MGrid, self.m_grid);
        push_color(args, ColorTag::Font, self.font);
        push_color(args, ColorTag::Axis, self.axis);
        push_color(args, ColorTag::Frame, self.frame);
        push_color(args, ColorTag::Arrow, self.arrow);
        proof {
            lemma_concat5(
                old(args).deep_view(),
                color_tokens(ColorTag::MGrid, self.m_grid),
                color_tokens(ColorTag::Font, self.font),
                color_tokens(ColorTag::Axis, self.axis),
                color_tokens(ColorTag::Frame, self.frame),
                color_tokens(ColorTag::Arrow, self.arrow),
            );
        }
    }

    /// Appends the tokens of the colors.
    pub fn append_to(&self, args: &mut Vec<String>)
        ensures
            final(args).deep_view() == old(args).deep_view() + self.tokens(),
    {
        self.append_surface(args);
        self.append_lines(args);
        proof {
            lemma_concat_assoc(old(args).deep_view(), self.surface_tokens(), self.line_tokens());
        }
    }
}

/// By how much a graph is enlarged.
#[derive(Debug, PartialEq)]
pub struct Zoom {
    zoom: Number,
}

impl View for Zoom {
    type V = Seq<char>;

    closed spec fn view(&self) -> Seq<char> {
        self.zoom@
    }
}

impl Clone for Zoom {
    fn clone(&self) -> (r: Self)
        ensures
            r@ == self@,
    {
        proof {
            use_type_invariant(self);
        }
        Zoom { zoom: self.zoom.clone() }
    }
}

impl Zoom {
    #[verifier::type_invariant]
    spec fn well_formed(&self) -> bool {
        denotes_positive(self.zoom@)
    }

    /// A zoom must be greater than zero.
    pub fn new(zoom: Number) -> (r: Result<Self, InvalidArgument>)
        ensures
            denotes_positive(zoom@) ==> (r matches Ok(z) && z@ == zoom@),
            !denotes_positive(zoom@) ==> (r matches Err(e) && e.0@ == "zoom must be positive"@),
    {
        if zoom.is_positive() {
            Ok(Self { zoom })
        } else {
            Err(InvalidArgument("zoom must be positive"))
        }
    }

    /// The numeral of the zoom, which denotes a number greater than zero.
    pub fn as_str(&self) -> (s: &str)
        ensures
            s@ == self@,
            denotes_positive(s@),
    {
        proof {
            use_type_invariant(self);
        }
        self.zoom.as_str()
    }
}

/// The size and the name of a font.
#[derive(Debug, Clone, PartialEq, Eq)]
#[allow(missing_docs)]
pub struct FontParams {
    pub size: u32,
    pub font: Option<String>,
}

/// The part of a graph that a font is for.
#[derive(Debug, Clone, Copy, PartialEq, Eq, Hash, Structural)]
#[allow(missing_docs)]
pub enum FontTag {
    Default,
    Title,
    Axis,
    Unit,
    Legend,
    Watermark,
}

impl FontTag {
    /// The keyword of the part.
    pub open spec fn keyword(self) -> Seq<char> {
        match self {
            FontTag::Default => "DEFAULT"@,
            FontTag::Title => "TITLE"@,
            FontTag::Axis => "AXIS"@,
            FontTag::Unit => "UNIT"@,
            FontTag::Legend => "LEGEND"@,
            FontTag::Watermark => "WATERMARK"@,
        }
    }

    /// The keyword of the part.
    pub fn as_arg_str(&self) -> (s: &'static str)
        ensures
            s@ == self.keyword(),
    {
        match self {
            FontTag::Default => "DEFAULT",
            FontTag::Title => "TITLE",
            FontTag::Axis => "AXIS",
            FontTag::Unit => "UNIT",
            FontTag::Legend => "LEGEND",
            FontTag::Watermark => "WATERMARK",
        }
    }
}

impl FontParams {
    /// The text of the font of a part: the part, the size and, if there is
    /// one, the name, with colons between.
    pub open spec fn text(&self, tag: FontTag) -> Seq<char> {
        match self.font {
            None => tag.keyword() + ":"@ + decimal(self.size as nat),
            Some(f) => tag.keyword() + ":"@ + decimal(self.size as nat) + ":"@ + f@,
        }
    }

    fn to_text(&self, tag: FontTag) -> (s: String)
        ensures
            s@ == self.text(tag),
    {
        let mut s = String::from_str(tag.as_arg_str());
        s.append(":");
        push_decimal(&mut s, self.size as u64);
        match &self.font {
            None => {},
            Some(f) => {
                s.append(":");
                s.append(f.as_str());
            },
        }
        s
    }
}

/// The tokens that give a part its font, if it has one.
pub open spec fn font_tokens(tag: FontTag, font: Option<FontParams>) -> Seq<Seq<char>> {
    match font {
        Some(f) => seq!["--font"@, f.text(tag)],
        None => seq![],
    }
}

fn push_font(args: &mut Vec<String>, tag: FontTag, font: &Option<FontParams>)
    ensures
        final(args).deep_view() == old(args).deep_view() + font_tokens(tag, *font),
{
    match font {
        Some(f) => {
            push_pair(args, "--font", f.to_text(tag));
        },
        None => {
            proof {
                lemma_concat_nothing(args.deep_view());
            }
        },
    }
}

/// The fonts of the parts of a graph: at most one for each part.
///
/// The parts are listed in the order of [`FontTag`].
#[derive(Default, Debug, Clone, PartialEq)]
#[allow(missing_docs)]
pub struct Fonts {
    pub default: Option<FontParams>,
    pub title: Option<FontParams>,
    pub axis: Option<FontParams>,
    pub unit: Option<FontParams>,
    pub legend: Option<FontParams>,
    pub watermark: Option<FontParams>,
}

impl Fonts {
    /// The font of a part, if it has one.
    pub open spec fn font_of(&self, tag: FontTag) -> Option<FontParams> {
        match tag {
            FontTag::Default => self.default,
            FontTag::Title => self.title,
            FontTag::Axis => self.axis,
            FontTag::Unit => self.unit,
            FontTag::Legend => self.legend,
            FontTag::Watermark => self.watermark,
        }
    }

    /// No part has a font.
    pub fn new() -> (f: Fonts)
        ensures
            forall|tag: FontTag| f.font_of(tag) is None,
    {
        Fonts { default: None, title: None, axis: None, unit: None, legend: None, watermark: None }
    }

    /// Gives a part a font, and returns the font it had.
    pub fn insert(&mut self, tag: FontTag, font: FontParams) -> (previous: Option<FontParams>)
        ensures
            previous == old(self).font_of(tag),
            final(self).font_of(tag) == Some(font),
            forall|other: FontTag| other != tag ==> final(self).font_of(other) == old(self).font_of(other),
    {
        let mut slot = Some(font);
        match tag {
            FontTag::Default => { std::mem::swap(&mut self.default, &mut slot); },
            FontTag::Title => { std::mem::swap(&mut self.title, &mut slot); },
            FontTag::Axis => { std::mem::swap(&mut self.axis, &mut slot); },
            FontTag::Unit => { std::mem::swap(&mut self.unit, &mut slot); },
            FontTag::Legend => { std::mem::swap(&mut self.legend, &mut slot); },
            FontTag::Watermark => { std::mem::swap(&mut self.watermark, &mut slot); },
        }
        slot
    }

    /// The tokens of the first three parts.
    pub open spec fn heading_tokens(&self) -> Seq<Seq<char>> {
        font_tokens(FontTag::Default, self.default) + font_tokens(FontTag::Title, self.title)
            + font_tokens(FontTag::Axis, self.axis)
    }

    /// The tokens of the last three parts.
    pub open spec fn detail_tokens(&self) -> Seq<Seq<char>> {
        font_tokens(FontTag::Unit, self.unit) + font_tokens(FontTag::Legend, self.legend)
            + font_tokens(FontTag::Watermark, self.watermark)
    }

    /// The tokens of the fonts.
    pub open spec fn tokens(&self) -> Seq<Seq<char>> {
        self.heading_tokens() + self.detail_tokens()
    }

    fn append_headings(&self, args: &mut Vec<String>)
        ensures
            final(args).deep_view() == old(args).deep_view() + self.heading_tokens(),
    {
        push_font(args, FontTag::Default, &self.default);
        push_font(args, FontTag::Title, &self.title);
        push_font(args, FontTag::Axis, &self.axis);
        proof {
            lemma_concat3(
                old(args).deep_view(),
                font_tokens(FontTag::Default, self.default),
                font_tokens(FontTag::Title, self.title),
                font_tokens(FontTag::Axis, self.axis),
            );
        }
    }

    fn append_details(&self, args: &mut Vec<String>)
        ensures
            final(args).deep_view() == old(args).deep_view() + self.detail_tokens(),
    {
        push_font(args, FontTag::Unit, &self.unit);
        push_font(args, FontTag::Legend, &self.legend);
        push_font(args, FontTag::Watermark, &self.watermark);
        proof {
            lemma_concat3(
                old(args).deep_view(),
                font_tokens(FontTag::Unit, self.unit),
                font_tokens(FontTag::Legend, self.legend),
                font_tokens(FontTag::Watermark, self.watermark),
            );
        }
    }

    /// Appends the tokens of the fonts.
    pub fn append_to(&self, args: &mut Vec<String>)
        ensures
            final(args).deep_view() == old(args).deep_view() + self.tokens(),
    {
        self.append_headings(args);
        self.append_details(args);
        proof {
            lemma_concat_assoc(old(args).deep_view(), self.heading_tokens(), self.detail_tokens());
        }
    }
}

/// How text is rendered.
#[derive(Debug, Clone, Copy, PartialEq, Eq, Hash, Structural)]
#[allow(missing_docs)]
pub enum FontRenderMode {
    Normal,
    Light,
    Mono,
}

impl FontRenderMode {
    /// The keyword of the mode.
    pub open spec fn keyword(self) -> Seq<char> {
        match self {
            FontRenderMode::Normal => "normal"@,
            FontRenderMode::Light => "light"@,
            FontRenderMode::Mono => "mono"@,
        }
    }

    /// Appends the option for the mode and its keyword.
    pub fn append_to(&self, args: &mut Vec<String>) -> (r: RrdResult<()>)
        ensures
            r is Ok,
            final(args).deep_view() == old(args).deep_view() + seq![
                "--font-render-mode"@,
                self.keyword(),
            ],
    {
        push_pair(
            args,
            "--font-render-mode",
            String::from_str(
                match self {
                    FontRenderMode::Normal => "normal",
                    FontRenderMode::Light => "light",
                    FontRenderMode::Mono => "mono",
                },
            ),
        );
        Ok(())
    }
}

/// How the graph is rendered.
#[derive(Debug, Clone, Copy, PartialEq, Eq, Hash, Structural)]
#[allow(missing_docs)]
pub enum GraphRenderMode {
    Normal,
    Mono,
}

impl GraphRenderMode {
    /// The keyword of the mode.
    pub open spec fn keyword(self) -> Seq<char> {
        match self {
            GraphRenderMode::Normal => "normal"@,
            GraphRenderMode::Mono => "mono"@,
        }
    }

    /// Appends the option for the mode and its keyword.
    pub fn append_to(&self, args: &mut Vec<String>) -> (r: RrdResult<()>)
        ensures
            r is Ok,
            final(args).deep_view() == old(args).deep_view() + seq![
                "--graph-render-mode"@,
                self.keyword(),
            ],
    {
        push_pair(
            args,
            "--graph-render-mode",
            String::from_str(
                match self {
                    GraphRenderMode::Normal => "normal",
                    GraphRenderMode::Mono => "mono",
                },
            ),
        );
        Ok(())
    }
}

/// The format of the image of a graph.
#[derive(Debug, Clone, Copy, PartialEq, Eq, Hash, Structural)]
#[allow(missing_docs)]
pub enum ImageFormat {
    Png,
    Svg,
    Eps,
    Pdf,
}

impl ImageFormat {
    /// The keyword of the format.
    pub open spec fn keyword(self) -> Seq<char> {
        match self {
            ImageFormat::Png => "PNG"@,
            ImageFormat::Svg => "SVG"@,
            ImageFormat::Eps => "EPS"@,
            ImageFormat::Pdf => "PDF"@,
        }
    }

    /// The two tokens that select the format.
    pub open spec fn tokens(self) -> Seq<Seq<char>> {
        seq!["--imgformat"@, self.keyword()]
    }

    /// Appends the option for the format and its keyword.
    pub fn append_to(&self, args: &mut Vec<String>) -> (r: RrdResult<()>)
        ensures
            r is Ok,
            final(args).deep_view() == old(args).deep_view() + self.tokens(),
    {
        push_pair(
            args,
            "--imgformat",
            String::from_str(
                match self {
                    ImageFormat::Png => "PNG",
                    ImageFormat::Svg => "SVG",
                    ImageFormat::Eps => "EPS",
                    ImageFormat::Pdf => "PDF",
                },
            ),
        );
        Ok(())
    }
}

/// The remaining properties of a graph.
#[derive(Default, Debug, Clone, PartialEq)]
#[allow(missing_docs)]
pub struct Misc {
    pub colors: Colors,
    /// (on, off)
    pub grid_dash: Option<(u32, u32)>,
    pub border: Option<u32>,
    pub dynamic_labels: bool,
    pub zoom: Option<Zoom>,
    pub fonts: Fonts,
    pub font_render_mode: Option<FontRenderMode>,
    pub font_smoothing_threshold: Option<u32>,
    pub pango_markup: bool,
    pub graph_render_mode: Option<GraphRenderMode>,
    pub slope_mode: bool,
    pub interlaced: bool,
    pub tab_width: Option<u32>,
    pub base: Option<u32>,
    pub watermark: Option<String>,
    pub use_nan_for_all_missing_data: bool,
}

impl Misc {
    /// The text of the dashes of the grid, if there is one.
    pub open spec fn grid_dash_text(&self) -> Option<Seq<char>> {
        match self.grid_dash {
            Some((on, off)) => Some(decimal(on as nat) + ":"@ + decimal(off as nat)),
            None => None,
        }
    }

    /// The numeral of the zoom, if there is one.
    pub open spec fn zoom_text(&self) -> Option<Seq<char>> {
        match self.zoom {
            Some(z) => Some(z@),
            None => None,
        }
    }

    /// The keyword of the mode in which text is rendered, if there is one.
    pub open spec fn font_render_text(&self) -> Option<Seq<char>> {
        match self.font_render_mode {
            Some(m) => Some(m.keyword()),
            None => None,
        }
    }

    /// The keyword of the mode in which the graph is rendered, if there is one.
    pub open spec fn graph_render_text(&self) -> Option<Seq<char>> {
        match self.graph_render_mode {
            Some(m) => Some(m.keyword()),
            None => None,
        }
    }

    /// The tokens of the grid's dashes, the border, the labels and the zoom.
    pub open spec fn frame_tokens(&self) -> Seq<Seq<char>> {
        option("--grid-dash"@, self.grid_dash_text()) + option("--border"@, count_text(self.border))
            + flag(self.dynamic_labels, "--dynamic-labels"@) + option("--zoom"@, self.zoom_text())
    }

    /// The tokens of the fonts and of how text is rendered.
    pub open spec fn font_tokens(&self) -> Seq<Seq<char>> {
        self.fonts.tokens() + option("--font-render-mode"@, self.font_render_text()) + option(
            "--font-smoothing-threshold"@,
            count_text(self.font_smoothing_threshold),
        ) + flag(self.pango_markup, "--pango-markup"@)
    }

    /// The tokens of how the graph is rendered.
    pub open spec fn render_tokens(&self) -> Seq<Seq<char>> {
        option("--graph-render-mode"@, self.graph_render_text()) + flag(
            self.slope_mode,
            "--slope-mode"@,
        ) + flag(self.interlaced, "--interlaced"@) + option("--tabwidth"@, count_text(self.tab_width))
            + option("--base"@, count_text(self.base))
    }

    /// The tokens of the watermark and of the handling of missing data.
    pub open spec fn closing_tokens(&self) -> Seq<Seq<char>> {
        option("--watermark"@, string_text(self.watermark)) + flag(
            self.use_nan_for_all_missing_data,
            "--use-nan-for-all-missing-data"@,
        )
    }

    /// The tokens of the remaining properties.
    pub open spec fn tokens(&self) -> Seq<Seq<char>> {
        self.colors.tokens() + self.frame_tokens() + self.font_tokens() + self.render_tokens()
            + self.closing_tokens()
    }

    fn append_frame(&self, args: &mut Vec<String>)
        ensures
            final(args).deep_view() == old(args).deep_view() + self.frame_tokens(),
    {
        let dash = match self.grid_dash {
            Some((on, off)) => {
                let mut s = decimal_string(on as u64);
                s.append(":");
                push_decimal(&mut s, off as u64);
                Some(s)
            },
            None => None,
        };
        push_text_option(args, "--grid-dash", dash);
        push_count_option(args, "--border", self.border);
        push_flag(args, self.dynamic_labels, "--dynamic-labels");
        let zoom = match &self.zoom {
            Some(z) => Some(z.as_str().to_owned()),
            None => None,
        };
        push_text_option(args, "--zoom", zoom);
        proof {
            lemma_concat4(
                old(args).deep_view(),
                option("--grid-dash"@, self.grid_dash_text()),
                option("--border"@, count_text(self.border)),
                flag(self.dynamic_labels, "--dynamic-labels"@),
                option("--zoom"@, self.zoom_text()),
            );
        }
    }

    fn append_fonts(&self, args: &mut Vec<String>)
        ensures
            final(args).deep_view() == old(args).deep_view() + self.font_tokens(),
    {
        self.fonts.append_to(args);
        let mode = match self.font_render_mode {
            Some(FontRenderMode::Normal) => Some(String::from_str("normal")),
            Some(FontRenderMode::Light) => Some(String::from_str("light")),
            Some(FontRenderMode::Mono) => Some(String::from_str("mono")),
            None => None,
        };
        push_text_option(args, "--font-render-mode", mode);
        push_count_option(args, "--font-smoothing-threshold", self.font_smoothing_threshold);
        push_flag(args, self.pango_markup, "--pango-markup");
        proof {
            lemma_concat4(
                old(args).deep_view(),
                self.fonts.tokens(),
                option("--font-render-mode"@, self.font_render_text()),
                option("--font-smoothing-threshold"@, count_text(self.font_smoothing_threshold)),
                flag(self.pango_markup, "--pango-markup"@),
            );
        }
    }

    fn append_render(&self, args: &mut Vec<String>)
        ensures
            final(args).deep_view() == old(args).deep_view() + self.render_tokens(),
    {
        let mode = match self.graph_render_mode {
            Some(GraphRenderMode::Normal) => Some(String::from_str("normal")),
            Some(GraphRenderMode::Mono) => Some(String::from_str("mono")),
            None => None,
        };
        push_text_option(args, "--graph-render-mode", mode);
        push_flag(args, self.slope_mode, "--slope-mode");
        push_flag(args, self.interlaced, "--interlaced");
        push_count_option(args, "--tabwidth", self.tab_width);
        push_count_option(args, "--base", self.base);
        proof {
            lemma_concat5(
                old(args).deep_view(),
                option("--graph-render-mode"@, self.graph_render_text()),
                flag(self.slope_mode, "--slope-mode"@),
                flag(self.interlaced, "--interlaced"@),
                option("--tabwidth"@, count_text(self.tab_width)),
                option("--base"@, count_text(self.base)),
            );
        }
    }

    fn append_closing(&self, args: &mut Vec<String>)
        ensures
            final(args).deep_view() == old(args).deep_view() + self.closing_tokens(),
    {
        push_string_option(args, "--watermark", &self.watermark);
        push_flag(args, self.use_nan_for_all_missing_data, "--use-nan-for-all-missing-data");
        proof {
            lemma_concat_assoc(
                old(args).deep_view(),
                option("--watermark"@, string_text(self.watermark)),
                flag(self.use_nan_for_all_missing_data, "--use-nan-for-all-missing-data"@),
            );
        }
    }

    /// Appends the tokens of the remaining properties.
    pub fn append_to(&self, args: &mut Vec<String>) -> (r: RrdResult<()>)
        ensures
            r is Ok,
            final(args).deep_view() == old(args).deep_view() + self.tokens(),
    {
        self.colors.append_to(args);
        self.append_frame(args);
        self.append_fonts(args);
        self.append_render(args);
        self.append_closing(args);
        proof {
            lemma_concat5(
                old(args).deep_view(),
                self.colors.tokens(),
                self.frame_tokens(),
                self.font_tokens(),
                self.render_tokens(),
                self.closing_tokens(),
            );
        }
        Ok(())
    }
}

/// The tokens of a right value axis, if there is one.
pub open spec fn right_axis_tokens(axis: Option<RightYAxis>) -> Seq<Seq<char>> {
    match axis {
        Some(a) => a.tokens(),
        None => seq![],
    }
}

/// All the properties of a graph.
///
/// There are many fields: fill in the uninteresting ones with `Default`.
#[derive(Default, Debug, Clone, PartialEq)]
#[allow(missing_docs)]
pub struct GraphProps {
    pub time_range: TimeRange,
    pub labels: Labels,
    pub size: Size,
    pub limits: Limits,
    pub x_axis: XAxis,
    pub y_axis: YAxis,
    pub right_y_axis: Option<RightYAxis>,
    pub legend: Legend,
    pub misc: Misc,
}

impl GraphProps {
    /// The tokens of the time range, the labels, the size and the limits.
    pub open spec fn range_tokens(&self) -> Seq<Seq<char>> {
        self.time_range.tokens() + self.labels.tokens() + self.size.tokens() + self.limits.tokens()
    }

    /// The tokens of the axes.
    pub open spec fn axis_tokens(&self) -> Seq<Seq<char>> {
        self.x_axis.tokens() + self.y_axis.tokens() + right_axis_tokens(self.right_y_axis)
    }

    /// The tokens of the properties, in the order in which the engine is
    /// given them: time range, labels, size, limits, time axis, value axis,
    /// right value axis, legend, and the rest.
    pub open spec fn tokens(&self) -> Seq<Seq<char>> {
        self.range_tokens() + self.axis_tokens() + self.legend.tokens() + self.misc.tokens()
    }

    fn append_range(&self, args: &mut Vec<String>) -> (r: RrdResult<()>)
        ensures
            r is Ok,
            final(args).deep_view() == old(args).deep_view() + self.range_tokens(),
    {
        self.time_range.append_to(args)?;
        self.labels.append_to(args)?;
        self.size.append_to(args)?;
        self.limits.append_to(args)?;
        proof {
            lemma_concat4(
                old(args).deep_view(),
                self.time_range.tokens(),
                self.labels.tokens(),
                self.size.tokens(),
                self.limits.tokens(),
            );
        }
        Ok(())
    }

    fn append_right_axis(&self, args: &mut Vec<String>) -> (r: RrdResult<()>)
        ensures
            r is Ok,
            final(args).deep_view() == old(args).deep_view() + right_axis_tokens(self.right_y_axis),
    {
        match &self.right_y_axis {
            Some(rya) => {
                rya.append_to(args)?;
            },
            None => {
                proof {
                    lemma_concat_nothing(args.deep_view());
                }
            },
        }
        Ok(())
    }

    fn append_axes(&self, args: &mut Vec<String>) -> (r: RrdResult<()>)
        ensures
            r is Ok,
            final(args).deep_view() == old(args).deep_view() + self.axis_tokens(),
    {
        self.x_axis.append_to(args)?;
        self.y_axis.append_to(args)?;
        self.append_right_axis(args)?;
        proof {
            lemma_concat3(
                old(args).deep_view(),
                self.x_axis.tokens(),
                self.y_axis.tokens(),
                right_axis_tokens(self.right_y_axis),
            );
        }
        Ok(())
    }

    /// Appends the tokens of the properties.
    pub fn append_to(&self, args: &mut Vec<String>) -> (r: RrdResult<()>)
        ensures
            r is Ok,
            final(args).deep_view() == old(args).deep_view() + self.tokens(),
    {
        self.append_range(args)?;
        self.append_axes(args)?;
        self.legend.append_to(args)?;
        self.misc.append_to(args)?;
        proof {
            lemma_concat4(
                old(args).deep_view(),
                self.range_tokens(),
                self.axis_tokens(),
                self.legend.tokens(),
                self.misc.tokens(),
            );
        }
        Ok(())
    }
}

/// Rendering is repeatable: when the same properties are appended twice to
/// the same list of tokens, the two results are the same list.
pub proof fn lemma_props_are_repeatable(
    props: GraphProps,
    before: Seq<Seq<char>>,
    first: Seq<Seq<char>>,
    second: Seq<Seq<char>>,
)
    requires
        first == before + props.tokens(),
        second == before + props.tokens(),
    ensures
        first == second,
{
}

} // verus!
