//! The data and the visual elements of a graph.
//!
//! [`Def`], [`CDef`] and [`VDef`] bind a variable name to data.  The other
//! elements print or draw what the variables hold.  Each element gives one
//! token.
use vstd::prelude::*;
use vstd::utf8::is_ascii_chars;
use crate::error::{InvalidArgument, RrdResult};
use crate::number::Number;
use crate::ops::graph::Color;
use crate::text::{
    ascii_bytes, count_text, decimal, decimal_string, join, joined, lemma_concat3,
    lemma_concat_assoc,
    push_signed_decimal, push_suffix, push_token, push_word_if,
    signed_decimal_string, suffix, word_if,
};
use crate::{time_text, ConsolidationFn, Timestamp};

verus! {

/// A character that a variable name may hold: a letter, a digit, `_` or `-`.
pub open spec fn is_name_char(c: char) -> bool {
    ||| 'A' <= c <= 'Z'
    ||| 'a' <= c <= 'z'
    ||| '0' <= c <= '9'
    ||| c == '_'
    ||| c == '-'
}

/// A valid variable name: from 1 to 255 characters, each a letter, a digit,
/// `_` or `-`.
pub open spec fn is_var_name(t: Seq<char>) -> bool {
    &&& 1 <= t.len() <= 255
    &&& forall|i: int| 0 <= i < t.len() ==> is_name_char(#[trigger] t[i])
}

/// Whether the text is a valid variable name.
pub fn is_valid_var_name(s: &str) -> (b: bool)
    ensures
        b == is_var_name(s@),
{
    if !s.is_ascii() {
        return false;
    }
    let b = ascii_bytes(s);
    let n = b.len();
    if n < 1 || n > 255 {
        return false;
    }
    let mut i: usize = 0;
    while i < n
        invariant
            i <= n,
            n == b@.len(),
            b@.len() == s@.len(),
            is_ascii_chars(s@),
            forall|k: int| 0 <= k < s@.len() ==> b@[k] == #[trigger] s@[k] as u8,
            forall|k: int| 0 <= k < i ==> is_name_char(#[trigger] s@[k]),
        decreases n - i,
    {
        let c = b[i];
        assert(c == s@[i as int] as u8);
        let ok = (65 <= c && c <= 90) || (97 <= c && c <= 122) || (48 <= c && c <= 57) || c == 95
            || c == 45;
        if !ok {
            assert(!is_name_char(s@[i as int]));
            return false;
        }
        i += 1;
    }
    true
}

/// A variable name.
///
/// The engine's own grammar allows more.  To avoid clashing with its
/// operators, which are written in upper case, do not use upper case either.
#[derive(Debug, PartialEq, Eq)]
pub struct VarName {
    name: String,
}

impl View for VarName {
    type V = Seq<char>;

    closed spec fn view(&self) -> Seq<char> {
        self.name@
    }
}

impl Clone for VarName {
    fn clone(&self) -> (r: Self)
        ensures
            r@ == self@,
    {
        proof {
            use_type_invariant(self);
        }
        VarName { name: self.name.clone() }
    }
}

impl VarName {
    #[verifier::type_invariant]
    spec fn well_formed(&self) -> bool {
        is_var_name(self.name@)
    }

    /// Creates a variable name, if the text is a valid name.
    pub fn new(name: &str) -> (r: Result<Self, InvalidArgument>)
        ensures
            is_var_name(name@) ==> (r matches Ok(v) && v@ == name@),
            !is_var_name(name@) ==> (r matches Err(e) && e.0@ == "Invalid var name"@),
    {
        if is_valid_var_name(name) {
            Ok(Self { name: name.to_owned() })
        } else {
            Err(InvalidArgument("Invalid var name"))
        }
    }

    /// The name, which is a valid variable name.
    pub fn as_str(&self) -> (s: &str)
        ensures
            s@ == self@,
            is_var_name(s@),
    {
        proof {
            use_type_invariant(self);
        }
        self.name.as_str()
    }
}

impl TryFrom<String> for VarName {
    type Error = InvalidArgument;

    fn try_from(value: String) -> (r: Result<Self, Self::Error>)
        ensures
            is_var_name(value@) ==> (r matches Ok(v) && v@ == value@),
            !is_var_name(value@) ==> (r matches Err(e) && e.0@ == "Invalid var name"@),
    {
        Self::new(value.as_str())
    }
}

impl vstd::std_specs::convert::TryFromSpecImpl<String> for VarName {
    open spec fn obeys_try_from_spec() -> bool {
        false
    }

    open spec fn try_from_spec(value: String) -> Result<Self, Self::Error> {
        arbitrary()
    }
}

impl<'a> TryFrom<&'a str> for VarName {
    type Error = InvalidArgument;

    fn try_from(value: &'a str) -> (r: Result<Self, Self::Error>)
        ensures
            is_var_name(value@) ==> (r matches Ok(v) && v@ == value@),
            !is_var_name(value@) ==> (r matches Err(e) && e.0@ == "Invalid var name"@),
    {
        Self::new(value)
    }
}

impl<'a> vstd::std_specs::convert::TryFromSpecImpl<&'a str> for VarName {
    open spec fn obeys_try_from_spec() -> bool {
        false
    }

    open spec fn try_from_spec(value: &'a str) -> Result<Self, Self::Error> {
        arbitrary()
    }
}

/// The keyword of a consolidation function, if there is one.
pub open spec fn consolidation_text(v: Option<ConsolidationFn>) -> Option<Seq<char>> {
    match v {
        Some(cf) => Some(cf.keyword()),
        None => None,
    }
}

/// Defines data to fetch from a data source of a database.
#[derive(Debug, Clone, PartialEq, Eq)]
#[allow(missing_docs)]
pub struct Def {
    pub var_name: VarName,
    /// The path of the database, as text.
    pub rrd: String,
    pub ds_name: String,
    pub consolidation_fn: ConsolidationFn,
    pub step: Option<u32>,
    pub start: Option<Timestamp>,
    pub end: Option<Timestamp>,
    pub reduce: Option<ConsolidationFn>,
}

impl Def {
    /// The token of the definition.
    pub open spec fn text(&self) -> Seq<char> {
        "DEF:"@ + self.var_name@ + "="@ + self.rrd@ + ":"@ + self.ds_name@ + ":"@
            + self.consolidation_fn.keyword() + suffix(":step="@, count_text(self.step)) + suffix(
            ":start="@,
            time_text(self.start),
        ) + suffix(":end="@, time_text(self.end)) + suffix(
            ":reduce="@,
            consolidation_text(self.reduce),
        )
    }

    /// Appends the token of the definition.
    pub fn append_to(&self, args: &mut Vec<String>) -> (r: RrdResult<()>)
        ensures
            r is Ok,
            final(args).deep_view() == old(args).deep_view() + seq![self.text()],
    {
        let mut s = String::from_str("DEF:");
        s.append(self.var_name.as_str());
        s.append("=");
        s.append(self.rrd.as_str());
        s.append(":");
        s.append(self.ds_name.as_str());
        s.append(":");
        s.append(self.consolidation_fn.as_arg_str());
        match self.step {
            Some(step) => {
                let n = decimal_string(step as u64);
                push_suffix(&mut s, ":step=", Some(n.as_str()));
            },
            None => {
                push_suffix(&mut s, ":step=", None);
            },
        }
        match self.start {
            Some(start) => {
                let n = signed_decimal_string(start.secs);
                push_suffix(&mut s, ":start=", Some(n.as_str()));
            },
            None => {
                push_suffix(&mut s, ":start=", None);
            },
        }
        match self.end {
            Some(end) => {
                let n = signed_decimal_string(end.secs);
                push_suffix(&mut s, ":end=", Some(n.as_str()));
            },
            None => {
                push_suffix(&mut s, ":end=", None);
            },
        }
        match self.reduce {
            Some(reduce) => {
                push_suffix(&mut s, ":reduce=", Some(reduce.as_arg_str()));
            },
            None => {
                push_suffix(&mut s, ":reduce=", None);
            },
        }
        push_token(args, s);
        Ok(())
    }
}

/// An expression that gives a value or a time.
#[derive(Debug, Clone, PartialEq, Eq)]
#[allow(missing_docs)]
pub struct VDef {
    pub var_name: VarName,
    pub rpn: String,
}

impl VDef {
    /// The token of the definition.
    pub open spec fn text(&self) -> Seq<char> {
        "VDEF:"@ + self.var_name@ + "="@ + self.rpn@
    }

    /// Appends the token of the definition.
    pub fn append_to(&self, args: &mut Vec<String>) -> (r: RrdResult<()>)
        ensures
            r is Ok,
            final(args).deep_view() == old(args).deep_view() + seq![self.text()],
    {
        let mut s = String::from_str("VDEF:");
        s.append(self.var_name.as_str());
        s.append("=");
        s.append(self.rpn.as_str());
        push_token(args, s);
        Ok(())
    }
}

/// An expression that gives a new set of data points.
#[derive(Debug, Clone, PartialEq, Eq)]
#[allow(missing_docs)]
pub struct CDef {
    pub var_name: VarName,
    pub rpn: String,
}

impl CDef {
    /// The token of the definition.
    pub open spec fn text(&self) -> Seq<char> {
        "CDEF:"@ + self.var_name@ + "="@ + self.rpn@
    }

    /// Appends the token of the definition.
    pub fn append_to(&self, args: &mut Vec<String>) -> (r: RrdResult<()>)
        ensures
            r is Ok,
            final(args).deep_view() == old(args).deep_view() + seq![self.text()],
    {
        let mut s = String::from_str("CDEF:");
        s.append(self.var_name.as_str());
        s.append("=");
        s.append(self.rpn.as_str());
        push_token(args, s);
        Ok(())
    }
}

/// How [`Print`] reads its format.
#[derive(Debug, Clone, Copy, PartialEq, Eq, Structural)]
#[allow(missing_docs)]
pub enum PrintFormatMode {
    StrfTime,
    ValStrfTime,
    ValStrfDuration,
}

impl PrintFormatMode {
    /// The keyword of the mode.
    pub open spec fn keyword(self) -> Seq<char> {
        match self {
            PrintFormatMode::StrfTime => "strftime"@,
            PrintFormatMode::ValStrfTime => "valstrftime"@,
            PrintFormatMode::ValStrfDuration => "valstrfduration"@,
        }
    }

    /// The keyword of the mode.
    pub fn as_arg_str(&self) -> (s: &'static str)
        ensures
            s@ == self.keyword(),
    {
        match self {
            PrintFormatMode::StrfTime => "strftime",
            PrintFormatMode::ValStrfTime => "valstrftime",
            PrintFormatMode::ValStrfDuration => "valstrfduration",
        }
    }
}

/// Text to print beside the graph.
#[derive(Debug, Clone, PartialEq, Eq)]
#[allow(missing_docs)]
pub struct Print {
    /// Must be a variable name defined by a [`VDef`].
    pub var_name: VarName,
    pub format: String,
    pub format_mode: Option<PrintFormatMode>,
}

impl Print {
    /// The keyword of the mode, if there is one.
    pub open spec fn mode_text(&self) -> Option<Seq<char>> {
        match self.format_mode {
            Some(m) => Some(m.keyword()),
            None => None,
        }
    }

    /// The token of the element.
    pub open spec fn text(&self) -> Seq<char> {
        "PRINT:"@ + self.var_name@ + ":"@ + self.format@ + suffix(":"@, self.mode_text())
    }

    /// Appends the token of the element.
    pub fn append_to(&self, args: &mut Vec<String>) -> (r: RrdResult<()>)
        ensures
            r is Ok,
            final(args).deep_view() == old(args).deep_view() + seq![self.text()],
    {
        let mut s = String::from_str("PRINT:");
        s.append(self.var_name.as_str());
        s.append(":");
        s.append(self.format.as_str());
        let mode = match &self.format_mode {
            Some(m) => Some(m.as_arg_str()),
            None => None,
        };
        push_suffix(&mut s, ":", mode);
        push_token(args, s);
        Ok(())
    }
}

/// Like [`Print`], but inside the graph.
#[derive(Debug, Clone, PartialEq, Eq)]
#[allow(missing_docs)]
pub struct GPrint {
    pub var_name: VarName,
    pub format: String,
}

impl GPrint {
    /// The token of the element.
    pub open spec fn text(&self) -> Seq<char> {
        "GPRINT:"@ + self.var_name@ + ":"@ + self.format@
    }

    /// Appends the token of the element.
    pub fn append_to(&self, args: &mut Vec<String>) -> (r: RrdResult<()>)
        ensures
            r is Ok,
            final(args).deep_view() == old(args).deep_view() + seq![self.text()],
    {
        let mut s = String::from_str("GPRINT:");
        s.append(self.var_name.as_str());
        s.append(":");
        s.append(self.format.as_str());
        push_token(args, s);
        Ok(())
    }
}

/// Text to include in the legend.
#[derive(Debug, Clone, PartialEq, Eq)]
#[allow(missing_docs)]
pub struct Comment {
    pub text: String,
}

impl Comment {
    /// The token of the element.
    pub open spec fn token(&self) -> Seq<char> {
        "COMMENT:"@ + self.text@
    }

    /// Appends the token of the element.
    pub fn append_to(&self, args: &mut Vec<String>) -> (r: RrdResult<()>)
        ensures
            r is Ok,
            final(args).deep_view() == old(args).deep_view() + seq![self.token()],
    {
        let mut s = String::from_str("COMMENT:");
        s.append(self.text.as_str());
        push_token(args, s);
        Ok(())
    }
}

/// A variable, a time, or a fixed number.
#[derive(Debug, Clone, PartialEq)]
#[allow(missing_docs)]
pub enum Value {
    Variable(VarName),
    Timestamp(Timestamp),
    Constant(Number),
}

impl Value {
    /// The text of the value: the name, or the numeral.
    pub open spec fn text(&self) -> Seq<char> {
        match self {
            Value::Variable(v) => v@,
            Value::Timestamp(t) => t.text(),
            Value::Constant(n) => n@,
        }
    }

    /// Appends the text of the value.
    pub fn append_to(&self, s: &mut String)
        ensures
            final(s)@ == old(s)@ + self.text(),
    {
        match self {
            Value::Variable(v) => s.append(v.as_str()),
            Value::Timestamp(t) => push_signed_decimal(s, t.secs),
            Value::Constant(n) => s.append(n.as_str()),
        }
    }
}

/// Text to include in the legend for the element that holds it.
///
/// A colon in the text must be written as `\:`.
#[derive(Debug, Clone, PartialEq, Eq)]
pub struct Legend(pub String);

impl Legend {
    /// The text of the legend after a colon.
    pub open spec fn text(&self) -> Seq<char> {
        ":"@ + self.0@
    }

    /// Appends a colon and the text of the legend.
    pub fn append_to(&self, s: &mut String)
        ensures
            final(s)@ == old(s)@ + self.text(),
    {
        s.append(":");
        s.append(self.0.as_str());
        proof {
            lemma_concat_assoc(old(s)@, ":"@, self.0@);
        }
    }
}

/// The text of a legend, if there is one, else nothing.
pub open spec fn legend_text(legend: Option<Legend>) -> Seq<char> {
    match legend {
        Some(l) => l.text(),
        None => seq![],
    }
}

fn push_legend(s: &mut String, legend: &Option<Legend>)
    ensures
        final(s)@ == old(s)@ + legend_text(*legend),
{
    match legend {
        Some(l) => l.append_to(s),
        None => {
            assert(s@ =~= old(s)@ + legend_text(*legend));
        },
    }
}

/// Dash spacing.
#[derive(Debug, Clone, PartialEq, Eq)]
pub enum DashSpacing {
    /// Must be positive.
    Simple(u32),
    /// Pairs of (on, off) spacing.
    ///
    /// Must be positive.
    Custom(Vec<(u32, u32)>),
}

/// The numerals of the pairs, in their order: of each pair first `on`, then
/// `off`.
pub open spec fn pair_numerals(pairs: Seq<(u32, u32)>) -> Seq<Seq<char>>
    decreases pairs.len(),
{
    if pairs.len() == 0 {
        seq![]
    } else {
        pair_numerals(pairs.drop_last()).push(decimal(pairs.last().0 as nat)).push(
            decimal(pairs.last().1 as nat),
        )
    }
}

fn pair_numeral_strings(pairs: &Vec<(u32, u32)>) -> (r: Vec<String>)
    ensures
        r.deep_view() == pair_numerals(pairs@),
{
    let mut out: Vec<String> = Vec::new();
    let n = pairs.len();
    let mut i: usize = 0;
    assert(out.deep_view() =~= pair_numerals(pairs@.take(0)));
    while i < n
        invariant
            i <= n,
            n == pairs.len(),
            out.deep_view() == pair_numerals(pairs@.take(i as int)),
        decreases n - i,
    {
        let (on, off) = pairs[i];
        let ghost before = out.deep_view();
        out.push(decimal_string(on as u64));
        out.push(decimal_string(off as u64));
        proof {
            let next = pairs@.take(i + 1);
            assert(next.drop_last() =~= pairs@.take(i as int));
            assert(next.last() == pairs@[i as int]);
            assert(out.deep_view() =~= before.push(decimal(on as nat)).push(decimal(off as nat)));
        }
        i += 1;
    }
    assert(pairs@.take(n as int) =~= pairs@);
    out
}

impl DashSpacing {
    /// The text of the spacing: the one number, or the numbers of the pairs
    /// with commas between.
    pub open spec fn text(&self) -> Seq<char> {
        match self {
            DashSpacing::Simple(n) => decimal(*n as nat),
            DashSpacing::Custom(pairs) => joined(pair_numerals(pairs@), ","@),
        }
    }

    fn to_text(&self) -> (s: String)
        ensures
            s@ == self.text(),
    {
        match self {
            DashSpacing::Simple(n) => decimal_string(*n as u64),
            DashSpacing::Custom(pairs) => {
                let numerals = pair_numeral_strings(pairs);
                join(&numerals, ",")
            },
        }
    }
}

/// Dashes for a [`VRule`], an [`HRule`] or a [`Line`].
#[derive(Debug, Default, Clone, PartialEq, Eq)]
#[allow(missing_docs)]
pub struct Dashes {
    pub spacing: Option<DashSpacing>,
    pub offset: Option<u32>,
}

impl Dashes {
    /// The text of the spacing, if there is one.
    pub open spec fn spacing_text(&self) -> Option<Seq<char>> {
        match self.spacing {
            Some(sp) => Some(sp.text()),
            None => None,
        }
    }

    /// The text of the dashes: `:dashes`, then the spacing and the offset
    /// as far as they are set.
    pub open spec fn text(&self) -> Seq<char> {
        ":dashes"@ + suffix("="@, self.spacing_text()) + suffix(
            ":dash-offset="@,
            count_text(self.offset),
        )
    }

    /// Appends the text of the dashes.
    pub fn append_to(&self, s: &mut String)
        ensures
            final(s)@ == old(s)@ + self.text(),
    {
        s.append(":dashes");
        match &self.spacing {
            Some(sp) => {
                let t = sp.to_text();
                push_suffix(s, "=", Some(t.as_str()));
            },
            None => {
                push_suffix(s, "=", None);
            },
        }
        match self.offset {
            Some(o) => {
                let t = decimal_string(o as u64);
                push_suffix(s, ":dash-offset=", Some(t.as_str()));
            },
            None => {
                push_suffix(s, ":dash-offset=", None);
            },
        }
        proof {
            lemma_concat3(
                old(s)@,
                ":dashes"@,
                suffix("="@, self.spacing_text()),
                suffix(":dash-offset="@, count_text(self.offset)),
            );
        }
    }
}

/// The text of dashes, if there are any, else nothing.
pub open spec fn dashes_text(dashes: Option<Dashes>) -> Seq<char> {
    match dashes {
        Some(d) => d.text(),
        None => seq![],
    }
}

fn push_dashes(s: &mut String, dashes: &Option<Dashes>)
    ensures
        final(s)@ == old(s)@ + dashes_text(*dashes),
{
    match dashes {
        Some(d) => d.append_to(s),
        None => {
            assert(s@ =~= old(s)@ + dashes_text(*dashes));
        },
    }
}

/// A vertical line at a time.
#[derive(Debug, Clone, PartialEq)]
#[allow(missing_docs)]
pub struct VRule {
    pub value: Value,
    pub color: Color,
    pub legend: Option<Legend>,
    pub dashes: Option<Dashes>,
}

impl VRule {
    /// The token of the element.
    pub open spec fn text(&self) -> Seq<char> {
        "VRULE:"@ + self.value.text() + self.color.text() + legend_text(self.legend) + dashes_text(
            self.dashes,
        )
    }

    /// Appends the token of the element.
    pub fn append_to(&self, args: &mut Vec<String>) -> (r: RrdResult<()>)
        ensures
            r is Ok,
            final(args).deep_view() == old(args).deep_view() + seq![self.text()],
    {
        let mut s = String::from_str("VRULE:");
        self.value.append_to(&mut s);
        self.color.append_to(&mut s);
        push_legend(&mut s, &self.legend);
        push_dashes(&mut s, &self.dashes);
        push_token(args, s);
        Ok(())
    }
}

/// A horizontal line at a value.
#[derive(Debug, Clone, PartialEq)]
#[allow(missing_docs)]
pub struct HRule {
    pub value: Value,
    pub color: Color,
    pub legend: Option<Legend>,
    pub dashes: Option<Dashes>,
}

impl HRule {
    /// The token of the element.
    pub open spec fn text(&self) -> Seq<char> {
        "HRULE:"@ + self.value.text() + self.color.text() + legend_text(self.legend) + dashes_text(
            self.dashes,
        )
    }

    /// Appends the token of the element.
    pub fn append_to(&self, args: &mut Vec<String>) -> (r: RrdResult<()>)
        ensures
            r is Ok,
            final(args).deep_view() == old(args).deep_view() + seq![self.text()],
    {
        let mut s = String::from_str("HRULE:");
        self.value.append_to(&mut s);
        self.color.append_to(&mut s);
        push_legend(&mut s, &self.legend);
        push_dashes(&mut s, &self.dashes);
        push_token(args, s);
        Ok(())
    }
}

/// A color together with the legend that only an element with a color can
/// have.
#[derive(Debug, Clone, PartialEq)]
#[allow(missing_docs)]
pub struct ColorWithLegend<C> {
    pub color: C,
    pub legend: Option<Legend>,
}

/// Plots the value of a variable over time.
#[derive(Debug, Clone, PartialEq)]
#[allow(missing_docs)]
pub struct Line {
    pub width: Number,
    pub value: VarName,
    pub color: Option<ColorWithLegend<Color>>,
    pub stack: bool,
    pub skip_scale: bool,
    pub dashes: Option<Dashes>,
}

impl Line {
    /// The text of the color and its legend, as far as they are set.
    pub open spec fn color_text(&self) -> Seq<char> {
        match self.color {
            Some(cwl) => cwl.color.text() + legend_text(cwl.legend),
            None => seq![],
        }
    }

    /// The text that stacks the line on the element before it.  Without a
    /// color, the place of the color stays empty.
    pub open spec fn stack_text(&self) -> Seq<char> {
        if self.stack {
            word_if(self.color is None, ":"@) + ":STACK"@
        } else {
            seq![]
        }
    }

    /// The token of the element.
    pub open spec fn text(&self) -> Seq<char> {
        "LINE"@ + self.width@ + ":"@ + self.value@ + self.color_text() + self.stack_text()
            + word_if(self.skip_scale, ":skipscale"@) + dashes_text(self.dashes)
    }

    fn push_color(&self, s: &mut String)
        ensures
            final(s)@ == old(s)@ + self.color_text(),
    {
        match &self.color {
            Some(cwl) => {
                cwl.color.append_to(s);
                push_legend(s, &cwl.legend);
                proof {
                    lemma_concat_assoc(old(s)@, cwl.color.text(), legend_text(cwl.legend));
                }
            },
            None => {
                assert(s@ =~= old(s)@ + self.color_text());
            },
        }
    }

    fn push_stack(&self, s: &mut String)
        ensures
            final(s)@ == old(s)@ + self.stack_text(),
    {
        if self.stack {
            push_word_if(s, self.color.is_none(), ":");
            s.append(":STACK");
            proof {
                lemma_concat_assoc(old(s)@, word_if(self.color is None, ":"@), ":STACK"@);
            }
        } else {
            assert(s@ =~= old(s)@ + self.stack_text());
        }
    }

    /// Appends the token of the element.
    pub fn append_to(&self, args: &mut Vec<String>) -> (r: RrdResult<()>)
        ensures
            r is Ok,
            final(args).deep_view() == old(args).deep_view() + seq![self.text()],
    {
        let mut s = String::from_str("LINE");
        s.append(self.width.as_str());
        s.append(":");
        s.append(self.value.as_str());
        self.push_color(&mut s);
        self.push_stack(&mut s);
        push_word_if(&mut s, self.skip_scale, ":skipscale");
        push_dashes(&mut s, &self.dashes);
        push_token(args, s);
        Ok(())
    }
}

/// Color or gradient for an [`Area`].
#[derive(Debug, Clone, PartialEq)]
#[allow(missing_docs)]
pub enum AreaColor {
    Color(Color),
    Gradient { color1: Color, color2: Color, gradient_height: Option<Number> },
}

impl AreaColor {
    /// The text of the color, or of the two colors of the gradient.
    pub open spec fn text(&self) -> Seq<char> {
        match self {
            AreaColor::Color(c) => c.text(),
            AreaColor::Gradient { color1, color2, gradient_height } => color1.text()
                + color2.text(),
        }
    }

    /// The numeral of the height of the gradient, if there is one.
    pub open spec fn height_text(&self) -> Option<Seq<char>> {
        match self {
            AreaColor::Color(c) => None,
            AreaColor::Gradient { color1, color2, gradient_height } => match gradient_height {
                Some(h) => Some(h@),
                None => None,
            },
        }
    }

    fn append_to(&self, s: &mut String)
        ensures
            final(s)@ == old(s)@ + self.text(),
    {
        match self {
            AreaColor::Color(c) => c.append_to(s),
            AreaColor::Gradient { color1, color2, gradient_height } => {
                color1.append_to(s);
                color2.append_to(s);
                proof {
                    lemma_concat_assoc(old(s)@, color1.text(), color2.text());
                }
            },
        }
    }
}

/// Like [`Line`], but with the area between the axis and the line filled in.
#[derive(Debug, Clone, PartialEq)]
#[allow(missing_docs)]
pub struct Area {
    pub value: VarName,
    pub color: Option<ColorWithLegend<AreaColor>>,
    pub stack: bool,
    pub skip_scale: bool,
}

impl Area {
    /// The text of the color and its legend, as far as they are set.
    pub open spec fn color_text(&self) -> Seq<char> {
        match self.color {
            Some(cwl) => cwl.color.text() + legend_text(cwl.legend),
            None => seq![],
        }
    }

    /// Whether the area has a legend.
    pub open spec fn has_legend(&self) -> bool {
        match self.color {
            Some(cwl) => cwl.legend is Some,
            None => false,
        }
    }

    /// The text that stacks the area on the element before it.  Without a
    /// legend, the place of the legend stays empty.
    pub open spec fn stack_text(&self) -> Seq<char> {
        if self.stack {
            word_if(!self.has_legend(), ":"@) + ":STACK"@
        } else {
            seq![]
        }
    }

    /// The numeral of the height of the gradient, if there is one.
    pub open spec fn height_text(&self) -> Option<Seq<char>> {
        match self.color {
            Some(cwl) => cwl.color.height_text(),
            None => None,
        }
    }

    /// The token of the element.
    pub open spec fn text(&self) -> Seq<char> {
        "AREA:"@ + self.value@ + self.color_text() + self.stack_text() + word_if(
            self.skip_scale,
            ":skipscale"@,
        ) + suffix(":gradheight="@, self.height_text())
    }

    fn push_color(&self, s: &mut String)
        ensures
            final(s)@ == old(s)@ + self.color_text(),
    {
        match &self.color {
            Some(cwl) => {
                cwl.color.append_to(s);
                push_legend(s, &cwl.legend);
                proof {
                    lemma_concat_assoc(old(s)@, cwl.color.text(), legend_text(cwl.legend));
                }
            },
            None => {
                assert(s@ =~= old(s)@ + self.color_text());
            },
        }
    }

    fn legend_is_set(&self) -> (b: bool)
        ensures
            b == self.has_legend(),
    {
        match &self.color {
            Some(cwl) => cwl.legend.is_some(),
            None => false,
        }
    }

    fn push_stack(&self, s: &mut String)
        ensures
            final(s)@ == old(s)@ + self.stack_text(),
    {
        if self.stack {
            push_word_if(s, !self.legend_is_set(), ":");
            s.append(":STACK");
            proof {
                lemma_concat_assoc(old(s)@, word_if(!self.has_legend(), ":"@), ":STACK"@);
            }
        } else {
            assert(s@ =~= old(s)@ + self.stack_text());
        }
    }

    fn push_height(&self, s: &mut String)
        ensures
            final(s)@ == old(s)@ + suffix(":gradheight="@, self.height_text()),
    {
        match &self.color {
            Some(ColorWithLegend {
                color: AreaColor::Gradient { color1, color2, gradient_height: Some(h) },
                legend,
            }) => {
                push_suffix(s, ":gradheight=", Some(h.as_str()));
            },
            _ => {
                push_suffix(s, ":gradheight=", None);
            },
        }
    }

    /// Appends the token of the element.
    pub fn append_to(&self, args: &mut Vec<String>) -> (r: RrdResult<()>)
        ensures
            r is Ok,
            final(args).deep_view() == old(args).deep_view() + seq![self.text()],
    {
        let mut s = String::from_str("AREA:");
        s.append(self.value.as_str());
        self.push_color(&mut s);
        self.push_stack(&mut s);
        push_word_if(&mut s, self.skip_scale, ":skipscale");
        self.push_height(&mut s);
        push_token(args, s);
        Ok(())
    }
}

/// Draws tick marks where a variable is not zero.
#[derive(Debug, Clone, PartialEq)]
#[allow(missing_docs)]
pub struct Tick {
    pub var_name: VarName,
    pub color: Color,
    pub fraction: Option<Number>,
    pub legend: Option<Legend>,
}

impl Tick {
    /// The numeral of the fraction, if there is one.
    pub open spec fn fraction_text(&self) -> Option<Seq<char>> {
        match self.fraction {
            Some(f) => Some(f@),
            None => None,
        }
    }

    /// The token of the element.
    pub open spec fn text(&self) -> Seq<char> {
        "TICK:"@ + self.var_name@ + self.color.text() + suffix(":"@, self.fraction_text())
            + legend_text(self.legend)
    }

    /// Appends the token of the element.
    pub fn append_to(&self, args: &mut Vec<String>) -> (r: RrdResult<()>)
        ensures
            r is Ok,
            final(args).deep_view() == old(args).deep_view() + seq![self.text()],
    {
        let mut s = String::from_str("TICK:");
        s.append(self.var_name.as_str());
        self.color.append_to(&mut s);
        let fraction = match &self.fraction {
            Some(f) => Some(f.as_str()),
            None => None,
        };
        push_suffix(&mut s, ":", fraction);
        push_legend(&mut s, &self.legend);
        push_token(args, s);
        Ok(())
    }
}

/// An offset used in [`Shift`].
#[derive(Debug, Clone, PartialEq)]
#[allow(missing_docs)]
pub enum Offset {
    Variable(VarName),
    TimeDelta(Number),
}

impl Offset {
    /// The text of the offset: the name, or the numeral.
    pub open spec fn text(&self) -> Seq<char> {
        match self {
            Offset::Variable(v) => v@,
            Offset::TimeDelta(t) => t@,
        }
    }

    /// Appends the text of the offset.
    pub fn append_to(&self, s: &mut String)
        ensures
            final(s)@ == old(s)@ + self.text(),
    {
        match self {
            Offset::Variable(v) => s.append(v.as_str()),
            Offset::TimeDelta(t) => s.append(t.as_str()),
        }
    }
}

/// Shifts the data of a variable in time.
#[derive(Debug, Clone, PartialEq)]
#[allow(missing_docs)]
pub struct Shift {
    pub var_name: VarName,
    pub offset: Offset,
}

impl Shift {
    /// The token of the element.
    pub open spec fn text(&self) -> Seq<char> {
        "SHIFT:"@ + self.var_name@ + ":"@ + self.offset.text()
    }

    /// Appends the token of the element.
    pub fn append_to(&self, args: &mut Vec<String>) -> (r: RrdResult<()>)
        ensures
            r is Ok,
            final(args).deep_view() == old(args).deep_view() + seq![self.text()],
    {
        let mut s = String::from_str("SHIFT:");
        s.append(self.var_name.as_str());
        s.append(":");
        self.offset.append_to(&mut s);
        push_token(args, s);
        Ok(())
    }
}

/// How the text of the legend is aligned.
#[derive(Debug, Clone, Copy, PartialEq, Eq, Structural)]
#[allow(missing_docs)]
pub enum TextAlign {
    Left,
    Right,
    Justified,
    Center,
}

impl TextAlign {
    /// The keyword of the alignment.
    pub open spec fn keyword(self) -> Seq<char> {
        match self {
            TextAlign::Left => "left"@,
            TextAlign::Right => "right"@,
            TextAlign::Justified => "justified"@,
            TextAlign::Center => "center"@,
        }
    }

    /// The token of the element.
    pub open spec fn text(self) -> Seq<char> {
        "TEXTALIGN:"@ + self.keyword()
    }

    /// Appends the token of the element.
    pub fn append_to(&self, args: &mut Vec<String>) -> (r: RrdResult<()>)
        ensures
            r is Ok,
            final(args).deep_view() == old(args).deep_view() + seq![self.text()],
    {
        let mut s = String::from_str("TEXTALIGN:");
        s.append(
            match self {
                TextAlign::Left => "left",
                TextAlign::Right => "right",
                TextAlign::Justified => "justified",
                TextAlign::Center => "center",
            },
        );
        push_token(args, s);
        Ok(())
    }
}

/// Any element of a graph.
#[derive(Debug, Clone, PartialEq)]
#[allow(missing_docs)]
pub enum GraphElement {
    Def(Def),
    CDef(CDef),
    VDef(VDef),
    Print(Print),
    GPrint(GPrint),
    Comment(Comment),
    VRule(VRule),
    HRule(HRule),
    Line(Line),
    Area(Area),
    Tick(Tick),
    Shift(Shift),
    TextAlign(TextAlign),
}

impl GraphElement {
    /// The token of the element.
    pub open spec fn text(&self) -> Seq<char> {
        match self {
            GraphElement::Def(c) => c.text(),
            GraphElement::CDef(c) => c.text(),
            GraphElement::VDef(c) => c.text(),
            GraphElement::Print(c) => c.text(),
            GraphElement::GPrint(c) => c.text(),
            GraphElement::Comment(c) => c.token(),
            GraphElement::VRule(c) => c.text(),
            GraphElement::HRule(c) => c.text(),
            GraphElement::Line(c) => c.text(),
            GraphElement::Area(c) => c.text(),
            GraphElement::Tick(c) => c.text(),
            GraphElement::Shift(c) => c.text(),
            GraphElement::TextAlign(c) => c.text(),
        }
    }

    /// Appends the token of the element.
    pub fn append_to(&self, args: &mut Vec<String>) -> (r: RrdResult<()>)
        ensures
            r is Ok,
            final(args).deep_view() == old(args).deep_view() + seq![self.text()],
    {
        match self {
            GraphElement::Def(c) => c.append_to(args),
            GraphElement::CDef(c) => c.append_to(args),
            GraphElement::VDef(c) => c.append_to(args),
            GraphElement::Print(c) => c.append_to(args),
            GraphElement::GPrint(c) => c.append_to(args),
            GraphElement::Comment(c) => c.append_to(args),
            GraphElement::VRule(c) => c.append_to(args),
            GraphElement::HRule(c) => c.append_to(args),
            GraphElement::Line(c) => c.append_to(args),
            GraphElement::Area(c) => c.append_to(args),
            GraphElement::Tick(c) => c.append_to(args),
            GraphElement::Shift(c) => c.append_to(args),
            GraphElement::TextAlign(c) => c.append_to(args),
        }
    }
}

impl From<Def> for GraphElement {
    fn from(value: Def) -> (r: Self) {
        GraphElement::Def(value)
    }
}

impl vstd::std_specs::convert::FromSpecImpl<Def> for GraphElement {
    open spec fn obeys_from_spec() -> bool {
        true
    }

    open spec fn from_spec(value: Def) -> Self {
        GraphElement::Def(value)
    }
}

impl From<CDef> for GraphElement {
    fn from(value: CDef) -> (r: Self) {
        GraphElement::CDef(value)
    }
}

impl vstd::std_specs::convert::FromSpecImpl<CDef> for GraphElement {
    open spec fn obeys_from_spec() -> bool {
        true
    }

    open spec fn from_spec(value: CDef) -> Self {
        GraphElement::CDef(value)
    }
}

impl From<VDef> for GraphElement {
    fn from(value: VDef) -> (r: Self) {
        GraphElement::VDef(value)
    }
}

impl vstd::std_specs::convert::FromSpecImpl<VDef> for GraphElement {
    open spec fn obeys_from_spec() -> bool {
        true
    }

    open spec fn from_spec(value: VDef) -> Self {
        GraphElement::VDef(value)
    }
}

impl From<Print> for GraphElement {
    fn from(value: Print) -> (r: Self) {
        GraphElement::Print(value)
    }
}

impl vstd::std_specs::convert::FromSpecImpl<Print> for GraphElement {
    open spec fn obeys_from_spec() -> bool {
        true
    }

    open spec fn from_spec(value: Print) -> Self {
        GraphElement::Print(value)
    }
}

impl From<GPrint> for GraphElement {
    fn from(value: GPrint) -> (r: Self) {
        GraphElement::GPrint(value)
    }
}

impl vstd::std_specs::convert::FromSpecImpl<GPrint> for GraphElement {
    open spec fn obeys_from_spec() -> bool {
        true
    }

    open spec fn from_spec(value: GPrint) -> Self {
        GraphElement::GPrint(value)
    }
}

impl From<Comment> for GraphElement {
    fn from(value: Comment) -> (r: Self) {
        GraphElement::Comment(value)
    }
}

impl vstd::std_specs::convert::FromSpecImpl<Comment> for GraphElement {
    open spec fn obeys_from_spec() -> bool {
        true
    }

    open spec fn from_spec(value: Comment) -> Self {
        GraphElement::Comment(value)
    }
}

impl From<VRule> for GraphElement {
    fn from(value: VRule) -> (r: Self) {
        GraphElement::VRule(value)
    }
}

impl vstd::std_specs::convert::FromSpecImpl<VRule> for GraphElement {
    open spec fn obeys_from_spec() -> bool {
        true
    }

    open spec fn from_spec(value: VRule) -> Self {
        GraphElement::VRule(value)
    }
}

impl From<HRule> for GraphElement {
    fn from(value: HRule) -> (r: Self) {
        GraphElement::HRule(value)
    }
}

impl vstd::std_specs::convert::FromSpecImpl<HRule> for GraphElement {
    open spec fn obeys_from_spec() -> bool {
        true
    }

    open spec fn from_spec(value: HRule) -> Self {
        GraphElement::HRule(value)
    }
}

impl From<Line> for GraphElement {
    fn from(value: Line) -> (r: Self) {
        GraphElement::Line(value)
    }
}

impl vstd::std_specs::convert::FromSpecImpl<Line> for GraphElement {
    open spec fn obeys_from_spec() -> bool {
        true
    }

    open spec fn from_spec(value: Line) -> Self {
        GraphElement::Line(value)
    }
}

impl From<Area> for GraphElement {
    fn from(value: Area) -> (r: Self) {
        GraphElement::Area(value)
    }
}

impl vstd::std_specs::convert::FromSpecImpl<Area> for GraphElement {
    open spec fn obeys_from_spec() -> bool {
        true
    }

    open spec fn from_spec(value: Area) -> Self {
        GraphElement::Area(value)
    }
}

impl From<Tick> for GraphElement {
    fn from(value: Tick) -> (r: Self) {
        GraphElement::Tick(value)
    }
}

impl vstd::std_specs::convert::FromSpecImpl<Tick> for GraphElement {
    open spec fn obeys_from_spec() -> bool {
        true
    }

    open spec fn from_spec(value: Tick) -> Self {
        GraphElement::Tick(value)
    }
}

impl From<Shift> for GraphElement {
    fn from(value: Shift) -> (r: Self) {
        GraphElement::Shift(value)
    }
}

impl vstd::std_specs::convert::FromSpecImpl<Shift> for GraphElement {
    open spec fn obeys_from_spec() -> bool {
        true
    }

    open spec fn from_spec(value: Shift) -> Self {
        GraphElement::Shift(value)
    }
}

impl From<TextAlign> for GraphElement {
    fn from(value: TextAlign) -> (r: Self) {
        GraphElement::TextAlign(value)
    }
}

impl vstd::std_specs::convert::FromSpecImpl<TextAlign> for GraphElement {
    open spec fn obeys_from_spec() -> bool {
        true
    }

    open spec fn from_spec(value: TextAlign) -> Self {
        GraphElement::TextAlign(value)
    }
}

impl From<VarName> for Value {
    fn from(value: VarName) -> (r: Self) {
        Value::Variable(value)
    }
}

impl vstd::std_specs::convert::FromSpecImpl<VarName> for Value {
    open spec fn obeys_from_spec() -> bool {
        true
    }

    open spec fn from_spec(value: VarName) -> Self {
        Value::Variable(value)
    }
}

impl From<Timestamp> for Value {
    fn from(value: Timestamp) -> (r: Self) {
        Value::Timestamp(value)
    }
}

impl vstd::std_specs::convert::FromSpecImpl<Timestamp> for Value {
    open spec fn obeys_from_spec() -> bool {
        true
    }

    open spec fn from_spec(value: Timestamp) -> Self {
        Value::Timestamp(value)
    }
}

impl From<Number> for Value {
    fn from(value: Number) -> (r: Self) {
        Value::Constant(value)
    }
}

impl vstd::std_specs::convert::FromSpecImpl<Number> for Value {
    open spec fn obeys_from_spec() -> bool {
        true
    }

    open spec fn from_spec(value: Number) -> Self {
        Value::Constant(value)
    }
}

impl From<String> for Legend {
    fn from(value: String) -> (r: Self) {
        Legend(value)
    }
}

impl vstd::std_specs::convert::FromSpecImpl<String> for Legend {
    open spec fn obeys_from_spec() -> bool {
        true
    }

    open spec fn from_spec(value: String) -> Self {
        Legend(value)
    }
}

/// Rendering is repeatable: when the same element is appended twice to the
/// same list of tokens, the two results are the same list.
pub proof fn lemma_element_is_repeatable(
    element: GraphElement,
    before: Seq<Seq<char>>,
    first: Seq<Seq<char>>,
    second: Seq<Seq<char>>,
)
    requires
        first == before + seq![element.text()],
        second == before + seq![element.text()],
    ensures
        first == second,
{
}

} // verus!
