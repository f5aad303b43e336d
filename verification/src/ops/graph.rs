//! Render graphs from the data of a database.
use vstd::prelude::*;

pub mod elements;
pub mod props;

use crate::error::{InvalidArgument, RrdError, RrdErrorView, RrdResult};
use crate::number::Number;
use crate::ops::graph::elements::GraphElement;
use crate::ops::graph::props::{GraphProps, ImageFormat};
use crate::ops::info::{InfoMap, InfoValue, InfoValueView};
use crate::text::{
    ascii_bytes, hex_pair, lemma_concat5, lemma_concat_assoc, push_hex_pair, push_word,
};
use crate::util::{all_nul_free, nul_check, ArrayOfStrings};
use crate::Timestamp;

verus! {

/// RGB(A) color.
///
/// A color can be read from a text of a `#` and six or eight hexadecimal
/// digits, as in a style sheet.
#[derive(Debug, Clone, Copy, PartialEq, Eq, Structural)]
#[allow(missing_docs)]
pub struct Color {
    pub red: u8,
    pub green: u8,
    pub blue: u8,
    pub alpha: Option<u8>,
}

/// The value of a hexadecimal digit, in either case.
pub open spec fn hex_value(c: char) -> Option<u8> {
    if '0' <= c <= '9' {
        Some((c as u8 - 48) as u8)
    } else if 'a' <= c <= 'f' {
        Some((c as u8 - 87) as u8)
    } else if 'A' <= c <= 'F' {
        Some((c as u8 - 55) as u8)
    } else {
        None
    }
}

/// The byte that two hexadecimal digits denote.
pub open spec fn hex_byte(hi: char, lo: char) -> Option<u8> {
    match (hex_value(hi), hex_value(lo)) {
        (Some(h), Some(l)) => Some((h * 16 + l) as u8),
        _ => None,
    }
}

/// The color that a text denotes: a `#`, then two hexadecimal digits each
/// for red, green and blue, and optionally two for alpha.
pub open spec fn parse_color(t: Seq<char>) -> Option<Color> {
    if (t.len() == 7 || t.len() == 9) && t[0] == '#' {
        match (hex_byte(t[1], t[2]), hex_byte(t[3], t[4]), hex_byte(t[5], t[6])) {
            (Some(red), Some(green), Some(blue)) => {
                if t.len() == 7 {
                    Some(Color { red, green, blue, alpha: None })
                } else {
                    match hex_byte(t[7], t[8]) {
                        Some(alpha) => Some(Color { red, green, blue, alpha: Some(alpha) }),
                        None => None,
                    }
                }
            },
            _ => None,
        }
    } else {
        None
    }
}

fn hex_digit_value(b: u8) -> (r: Option<u8>)
    ensures
        b < 128 ==> r == hex_value(b as char),
        r matches Some(v) ==> v < 16,
{
    if 48 <= b && b <= 57 {
        Some(b - 48)
    } else if 97 <= b && b <= 102 {
        Some(b - 87)
    } else if 65 <= b && b <= 70 {
        Some(b - 55)
    } else {
        None
    }
}

fn parse_hex_byte(hi: u8, lo: u8) -> (r: Option<u8>)
    ensures
        hi < 128 && lo < 128 ==> r == hex_byte(hi as char, lo as char),
{
    match hex_digit_value(hi) {
        Some(h) => match hex_digit_value(lo) {
            Some(l) => Some(h * 16 + l),
            None => None,
        },
        None => None,
    }
}

impl Color {
    /// The two digits of the alpha, if the color has one, else nothing.
    pub open spec fn alpha_text(self) -> Seq<char> {
        match self.alpha {
            Some(a) => hex_pair(a),
            None => seq![],
        }
    }

    /// The text of the color: `#RRGGBB`, or `#RRGGBBAA` if it has an alpha.
    pub open spec fn text(self) -> Seq<char> {
        seq!['#'] + hex_pair(self.red) + hex_pair(self.green) + hex_pair(self.blue)
            + self.alpha_text()
    }

    fn push_alpha(&self, s: &mut String)
        ensures
            final(s)@ == old(s)@ + self.alpha_text(),
    {
        match self.alpha {
            Some(a) => {
                push_hex_pair(s, a);
            },
            None => {
                assert(s@ =~= old(s)@ + self.alpha_text());
            },
        }
    }

    /// Reads a color.  Any text that does not denote one is refused.
    pub fn parse(s: &str) -> (r: Result<Color, InvalidArgument>)
        ensures
            match parse_color(s@) {
                Some(c) => r == Ok::<Color, InvalidArgument>(c),
                None => r matches Err(e) && e.0@ == "Invalid color"@,
            },
    {
        if !s.is_ascii() {
            proof {
                if let Some(c) = parse_color(s@) {
                    assert(forall|i: int| 0 <= i < s@.len() ==> #[trigger] s@[i] == '#' || hex_value(s@[i]) is Some);
                }
            }
            return Err(InvalidArgument("Invalid color"));
        }
        let b = ascii_bytes(s);
        let n = b.len();
        if !(n == 7 || n == 9) || b[0] != 35 {
            assert(n > 0 ==> b[0] == s@[0] as u8);
            return Err(InvalidArgument("Invalid color"));
        }
        assert(b[0] == s@[0] as u8);
        assert forall|i: int| 0 <= i < n implies b@[i] as char == #[trigger] s@[i] && b@[i] < 128 by {
            assert(b@[i] == s@[i] as u8);
        }
        let red = parse_hex_byte(b[1], b[2]);
        let green = parse_hex_byte(b[3], b[4]);
        let blue = parse_hex_byte(b[5], b[6]);
        let alpha = if n == 9 {
            parse_hex_byte(b[7], b[8])
        } else {
            None
        };
        match (red, green, blue) {
            (Some(red), Some(green), Some(blue)) => {
                if n == 9 && alpha.is_none() {
                    Err(InvalidArgument("Invalid color"))
                } else {
                    Ok(Color { red, green, blue, alpha })
                }
            },
            _ => Err(InvalidArgument("Invalid color")),
        }
    }

    /// Appends the text of the color.
    pub fn append_to(&self, s: &mut String)
        ensures
            final(s)@ == old(s)@ + self.text(),
    {
        s.push('#');
        assert(s@ == old(s)@ + seq!['#']) by {
            assert(s@ =~= old(s)@ + seq!['#']);
        }
        push_hex_pair(s, self.red);
        push_hex_pair(s, self.green);
        push_hex_pair(s, self.blue);
        self.push_alpha(s);
        proof {
            lemma_concat5(
                old(s)@,
                seq!['#'],
                hex_pair(self.red),
                hex_pair(self.green),
                hex_pair(self.blue),
                self.alpha_text(),
            );
        }
    }
}

/// Two hexadecimal digits in upper case denote the byte that they were made
/// from.
pub proof fn lemma_hex_pair_reads_back(b: u8)
    ensures
        hex_pair(b).len() == 2,
        hex_byte(hex_pair(b)[0], hex_pair(b)[1]) == Some(b),
{
    let h = b as int / 16;
    let l = b as int % 16;
    assert(0 <= h < 16 && 0 <= l < 16);
    assert(h * 16 + l == b);
    assert(hex_value(crate::text::hex_digit_char(h)) == Some(h as u8));
    assert(hex_value(crate::text::hex_digit_char(l)) == Some(l as u8));
}

/// The text of a color reads back as the color.
pub proof fn lemma_color_text_reads_back(c: Color)
    ensures
        parse_color(c.text()) == Some(c),
{
    let t = c.text();
    lemma_hex_pair_reads_back(c.red);
    lemma_hex_pair_reads_back(c.green);
    lemma_hex_pair_reads_back(c.blue);
    let head = seq!['#'] + hex_pair(c.red) + hex_pair(c.green) + hex_pair(c.blue);
    assert(head.len() == 7);
    assert(head[0] == '#');
    assert(head[1] == hex_pair(c.red)[0] && head[2] == hex_pair(c.red)[1]);
    assert(head[3] == hex_pair(c.green)[0] && head[4] == hex_pair(c.green)[1]);
    assert(head[5] == hex_pair(c.blue)[0] && head[6] == hex_pair(c.blue)[1]);
    match c.alpha {
        Some(a) => {
            lemma_hex_pair_reads_back(a);
            assert(t.len() == 9);
            assert(forall|i: int| 0 <= i < 7 ==> t[i] == head[i]);
            assert(t[7] == hex_pair(a)[0] && t[8] == hex_pair(a)[1]);
        },
        None => {
            assert(t =~= head);
        },
    }
}

impl std::str::FromStr for Color {
    type Err = InvalidArgument;

    fn from_str(s: &str) -> (r: Result<Self, Self::Err>)
        ensures
            match parse_color(s@) {
                Some(c) => r == Ok::<Color, InvalidArgument>(c),
                None => r matches Err(e) && e.0@ == "Invalid color"@,
            },
    {
        Color::parse(s)
    }
}

/// Some element is a [`Def`](elements::Def).
pub open spec fn has_def(elements: Seq<GraphElement>) -> bool {
    exists|i: int| 0 <= i < elements.len() && #[trigger] elements[i] is Def
}

/// The element gives output: it prints or draws.
pub open spec fn gives_output(element: GraphElement) -> bool {
    element is Print || element is GPrint || element is Line || element is Area
}

/// Some element gives output.
pub open spec fn has_output(elements: Seq<GraphElement>) -> bool {
    exists|i: int| 0 <= i < elements.len() && gives_output(#[trigger] elements[i])
}

/// The tokens of the elements: one for each, in their order.
pub open spec fn element_tokens(elements: Seq<GraphElement>) -> Seq<Seq<char>> {
    Seq::new(elements.len(), |i: int| elements[i].text())
}

/// The arguments of the engine's call for a graph: the command, `-` in place
/// of a file name, so that the image comes back in the answer, the image
/// format, the properties, and the elements.
pub open spec fn graph_tokens(
    image_format: ImageFormat,
    props: GraphProps,
    elements: Seq<GraphElement>,
) -> Seq<Seq<char>> {
    seq!["graphv"@, "-"@] + image_format.tokens() + props.tokens() + element_tokens(elements)
}

fn any_def(elements: &[GraphElement]) -> (b: bool)
    ensures
        b == has_def(elements@),
{
    let n = elements.len();
    let mut i: usize = 0;
    while i < n
        invariant
            i <= n,
            n == elements@.len(),
            forall|k: int| 0 <= k < i ==> !(#[trigger] elements@[k] is Def),
        decreases n - i,
    {
        if let GraphElement::Def(_) = &elements[i] {
            return true;
        }
        i += 1;
    }
    false
}

fn any_output(elements: &[GraphElement]) -> (b: bool)
    ensures
        b == has_output(elements@),
{
    let n = elements.len();
    let mut i: usize = 0;
    while i < n
        invariant
            i <= n,
            n == elements@.len(),
            forall|k: int| 0 <= k < i ==> !gives_output(#[trigger] elements@[k]),
        decreases n - i,
    {
        match &elements[i] {
            GraphElement::Print(_) | GraphElement::GPrint(_) | GraphElement::Line(_)
            | GraphElement::Area(_) => {
                return true;
            },
            _ => {},
        }
        i += 1;
    }
    false
}

fn append_elements(elements: &[GraphElement], args: &mut Vec<String>) -> (r: RrdResult<()>)
    ensures
        r is Ok,
        final(args).deep_view() == old(args).deep_view() + element_tokens(elements@),
{
    let n = elements.len();
    let mut i: usize = 0;
    assert(args.deep_view() =~= old(args).deep_view() + element_tokens(elements@.take(0)));
    while i < n
        invariant
            i <= n,
            n == elements@.len(),
            args.deep_view() == old(args).deep_view() + element_tokens(elements@.take(i as int)),
        decreases n - i,
    {
        let ghost before = args.deep_view();
        elements[i].append_to(args)?;
        proof {
            let done = element_tokens(elements@.take(i as int));
            let next = element_tokens(elements@.take(i + 1));
            assert(next =~= done + seq![elements@[i as int].text()]);
            lemma_concat_assoc(old(args).deep_view(), done, seq![elements@[i as int].text()]);
        }
        i += 1;
    }
    assert(elements@.take(n as int) =~= elements@);
    Ok(())
}

/// The arguments of the engine's call that renders a graph.
///
/// A graph without a [`Def`](elements::Def), or without an element that
/// prints or draws, would make the engine answer with nothing at all: such a
/// list of elements is refused.  So is a token with a NUL byte.
pub fn graph(image_format: ImageFormat, props: GraphProps, elements: &[GraphElement]) -> (r:
    RrdResult<ArrayOfStrings>)
    ensures
        !has_def(elements@) ==> (r matches Err(e) && e@ == RrdErrorView::InvalidArgument(
            "Must have at least one Def element"@,
        )),
        has_def(elements@) && !has_output(elements@) ==> (r matches Err(e) && e@
            == RrdErrorView::InvalidArgument(
            "Must have at least one Line, Area, GPrint, or Print element"@,
        )),
        has_def(elements@) && has_output(elements@) ==> (r is Ok <==> all_nul_free(
            graph_tokens(image_format, props, elements@),
        )),
        has_def(elements@) && has_output(elements@) ==> match r {
            Ok(a) => a@ == graph_tokens(image_format, props, elements@),
            Err(e) => e@ matches RrdErrorView::NulError(n) && nul_check(
                graph_tokens(image_format, props, elements@),
                Some(n),
            ),
        },
{
    if !any_def(elements) {
        return Err(
            RrdError::InvalidArgument(String::from_str("Must have at least one Def element")),
        );
    }
    if !any_output(elements) {
        return Err(
            RrdError::InvalidArgument(
                String::from_str("Must have at least one Line, Area, GPrint, or Print element"),
            ),
        );
    }
    let mut args: Vec<String> = Vec::new();
    push_word(&mut args, "graphv");
    push_word(&mut args, "-");
    assert(args.deep_view() =~= seq!["graphv"@, "-"@]);
    image_format.append_to(&mut args)?;
    props.append_to(&mut args)?;
    append_elements(elements, &mut args)?;
    ArrayOfStrings::new(args)
}

/// What the engine tells about a graph that it has rendered.
#[derive(Debug)]
pub struct GraphMetadata {
    /// Offset in pixels from the left edge of the image.
    pub graph_left: u64,
    /// Offset in pixels from the top edge of the image.
    pub graph_top: u64,
    /// Width in pixels of the graph in the image.
    pub graph_width: u64,
    /// Height in pixels of the graph in the image.
    pub graph_height: u64,
    /// Time at the start of the graph.
    pub graph_start: Timestamp,
    /// Time at the end of the graph.
    pub graph_end: Timestamp,
    /// Width in pixels.
    pub image_width: u64,
    /// Height in pixels.
    pub image_height: u64,
    /// The least value in the graph.
    pub value_min: Number,
    /// The greatest value in the graph.
    pub value_max: Number,
    /// What else the engine told.  It depends on the elements.
    pub extra_info: InfoMap,
}

/// The message for a key that the engine's answer lacks.
pub open spec fn missing_message(key: Seq<char>) -> Seq<char> {
    "Graph info: no "@ + key
}

/// The message for a key whose value is of another kind than expected.
pub open spec fn unexpected_message(key: Seq<char>) -> Seq<char> {
    "Graph info: unexpected "@ + key + " value type"@
}

/// The count under a key, or the message of what is wrong.
pub open spec fn count_at(info: Map<Seq<char>, InfoValueView>, key: Seq<char>) -> Result<
    u64,
    Seq<char>,
> {
    if !info.contains_key(key) {
        Err(missing_message(key))
    } else {
        match info[key] {
            InfoValueView::Count(c) => Ok(c),
            _ => Err(unexpected_message(key)),
        }
    }
}

/// The numeral under a key, or the message of what is wrong.
pub open spec fn value_at(info: Map<Seq<char>, InfoValueView>, key: Seq<char>) -> Result<
    Seq<char>,
    Seq<char>,
> {
    if !info.contains_key(key) {
        Err(missing_message(key))
    } else {
        match info[key] {
            InfoValueView::Value(v) => Ok(v),
            _ => Err(unexpected_message(key)),
        }
    }
}

/// The bytes under a key, or the message of what is wrong.
pub open spec fn blob_at(info: Map<Seq<char>, InfoValueView>, key: Seq<char>) -> Result<
    Seq<u8>,
    Seq<char>,
> {
    if !info.contains_key(key) {
        Err(missing_message(key))
    } else {
        match info[key] {
            InfoValueView::Blob(b) => Ok(b),
            _ => Err(unexpected_message(key)),
        }
    }
}

fn missing(key: &str) -> (e: RrdError)
    ensures
        e@ == RrdErrorView::Internal(missing_message(key@)),
{
    let mut s = String::from_str("Graph info: no ");
    s.append(key);
    RrdError::Internal(s)
}

fn unexpected(key: &str) -> (e: RrdError)
    ensures
        e@ == RrdErrorView::Internal(unexpected_message(key@)),
{
    let mut s = String::from_str("Graph info: unexpected ");
    s.append(key);
    s.append(" value type");
    RrdError::Internal(s)
}

/// Takes the count under a key out of the map.
pub fn extract_count(info: &mut InfoMap, key: &str) -> (r: RrdResult<u64>)
    ensures
        final(info)@ == old(info)@.remove(key@),
        match count_at(old(info)@, key@) {
            Ok(c) => r == Ok::<u64, RrdError>(c),
            Err(m) => r matches Err(e) && e@ == RrdErrorView::Internal(m),
        },
{
    match info.remove(key) {
        None => Err(missing(key)),
        Some(InfoValue::Count(c)) => Ok(c),
        Some(_) => Err(unexpected(key)),
    }
}

/// Takes the number under a key out of the map.
pub fn extract_value(info: &mut InfoMap, key: &str) -> (r: RrdResult<Number>)
    ensures
        final(info)@ == old(info)@.remove(key@),
        match value_at(old(info)@, key@) {
            Ok(v) => r matches Ok(n) && n@ == v,
            Err(m) => r matches Err(e) && e@ == RrdErrorView::Internal(m),
        },
{
    match info.remove(key) {
        None => Err(missing(key)),
        Some(InfoValue::Value(v)) => Ok(v),
        Some(_) => Err(unexpected(key)),
    }
}

/// Takes the bytes under a key out of the map.
pub fn extract_blob(info: &mut InfoMap, key: &str) -> (r: RrdResult<Vec<u8>>)
    ensures
        final(info)@ == old(info)@.remove(key@),
        match blob_at(old(info)@, key@) {
            Ok(b) => r matches Ok(v) && v@ == b,
            Err(m) => r matches Err(e) && e@ == RrdErrorView::Internal(m),
        },
{
    match info.remove(key) {
        None => Err(missing(key)),
        Some(InfoValue::Blob(b)) => Ok(b),
        Some(_) => Err(unexpected(key)),
    }
}

/// What the engine's answer for a graph holds, read key by key.
pub struct GraphAnswer {
    /// The bytes of the image.
    pub image: Seq<u8>,
    /// The fields of [`GraphMetadata`], the numbers as their numerals.
    pub graph_left: u64,
    #[allow(missing_docs)]
    pub graph_top: u64,
    #[allow(missing_docs)]
    pub graph_width: u64,
    #[allow(missing_docs)]
    pub graph_height: u64,
    #[allow(missing_docs)]
    pub image_width: u64,
    #[allow(missing_docs)]
    pub image_height: u64,
    #[allow(missing_docs)]
    pub graph_start: Timestamp,
    #[allow(missing_docs)]
    pub graph_end: Timestamp,
    #[allow(missing_docs)]
    pub value_min: Seq<char>,
    #[allow(missing_docs)]
    pub value_max: Seq<char>,
    /// What is left of the answer when the keys above are taken out.
    pub extra_info: Map<Seq<char>, InfoValueView>,
}

/// Why the engine's answer for a graph cannot be read.
#[derive(Debug)]
pub enum GraphFault {
    /// A key is missing or has a value of another kind.
    Error(RrdError),
    /// The start of the graph is later than any [`Timestamp`].
    StartOverflow,
    /// The end of the graph is later than any [`Timestamp`].
    EndOverflow,
}

/// What is wrong with the engine's answer for a graph.
pub enum GraphFaultView {
    /// The message of the internal error.
    Message(Seq<char>),
    #[allow(missing_docs)]
    StartOverflow,
    #[allow(missing_docs)]
    EndOverflow,
}

impl View for GraphFault {
    type V = GraphFaultView;

    open spec fn view(&self) -> GraphFaultView {
        match self {
            GraphFault::Error(RrdError::Internal(m)) => GraphFaultView::Message(m@),
            GraphFault::Error(_) => GraphFaultView::Message(seq![]),
            GraphFault::StartOverflow => GraphFaultView::StartOverflow,
            GraphFault::EndOverflow => GraphFaultView::EndOverflow,
        }
    }
}

/// The time that a count of seconds stands for, if there is such a time.
pub open spec fn time_of_count(c: u64) -> Option<Timestamp> {
    if c <= i64::MAX {
        Some(Timestamp { secs: c as i64 })
    } else {
        None
    }
}

/// Reads the engine's answer for a graph.
///
/// The keys are taken out of the answer one after the other, in this order:
/// `image`, `graph_left`, `graph_top`, `graph_width`, `graph_height`,
/// `image_width`, `image_height`, `graph_start`, `graph_end`, `value_min`,
/// `value_max`.  The first key that is missing, or whose value is of another
/// kind than expected, or that holds a time too late to be written, decides
/// what is wrong.
pub open spec fn graph_answer(m0: Map<Seq<char>, InfoValueView>) -> Result<
    GraphAnswer,
    GraphFaultView,
> {
    let m1 = m0.remove("image"@);
    let m2 = m1.remove("graph_left"@);
    let m3 = m2.remove("graph_top"@);
    let m4 = m3.remove("graph_width"@);
    let m5 = m4.remove("graph_height"@);
    let m6 = m5.remove("image_width"@);
    let m7 = m6.remove("image_height"@);
    let m8 = m7.remove("graph_start"@);
    let m9 = m8.remove("graph_end"@);
    let m10 = m9.remove("value_min"@);
    let m11 = m10.remove("value_max"@);
    match blob_at(m0, "image"@) {
        Err(e) => Err(GraphFaultView::Message(e)),
        Ok(image) => match count_at(m1, "graph_left"@) {
            Err(e) => Err(GraphFaultView::Message(e)),
            Ok(graph_left) => match count_at(m2, "graph_top"@) {
                Err(e) => Err(GraphFaultView::Message(e)),
                Ok(graph_top) => match count_at(m3, "graph_width"@) {
                    Err(e) => Err(GraphFaultView::Message(e)),
                    Ok(graph_width) => match count_at(m4, "graph_height"@) {
                        Err(e) => Err(GraphFaultView::Message(e)),
                        Ok(graph_height) => match count_at(m5, "image_width"@) {
                            Err(e) => Err(GraphFaultView::Message(e)),
                            Ok(image_width) => match count_at(m6, "image_height"@) {
                                Err(e) => Err(GraphFaultView::Message(e)),
                                Ok(image_height) => match count_at(m7, "graph_start"@) {
                                    Err(e) => Err(GraphFaultView::Message(e)),
                                    Ok(start) => match time_of_count(start) {
                                        None => Err(GraphFaultView::StartOverflow),
                                        Some(graph_start) => match count_at(m8, "graph_end"@) {
                                            Err(e) => Err(GraphFaultView::Message(e)),
                                            Ok(end) => match time_of_count(end) {
                                                None => Err(GraphFaultView::EndOverflow),
                                                Some(graph_end) => match value_at(
                                                    m9,
                                                    "value_min"@,
                                                ) {
                                                    Err(e) => Err(GraphFaultView::Message(e)),
                                                    Ok(value_min) => match value_at(
                                                        m10,
                                                        "value_max"@,
                                                    ) {
                                                        Err(e) => Err(GraphFaultView::Message(e)),
                                                        Ok(value_max) => Ok(
                                                            GraphAnswer {
                                                                image,
                                                                graph_left,
                                                                graph_top,
                                                                graph_width,
                                                                graph_height,
                                                                image_width,
                                                                image_height,
                                                                graph_start,
                                                                graph_end,
                                                                value_min,
                                                                value_max,
                                                                extra_info: m11,
                                                            },
                                                        ),
                                                    },
                                                },
                                            },
                                        },
                                    },
                                },
                            },
                        },
                    },
                },
            },
        },
    }
}

impl GraphMetadata {
    /// The metadata is what the answer holds.
    pub open spec fn matches_answer(&self, a: GraphAnswer) -> bool {
        &&& self.graph_left == a.graph_left
        &&& self.graph_top == a.graph_top
        &&& self.graph_width == a.graph_width
        &&& self.graph_height == a.graph_height
        &&& self.image_width == a.image_width
        &&& self.image_height == a.image_height
        &&& self.graph_start == a.graph_start
        &&& self.graph_end == a.graph_end
        &&& self.value_min@ == a.value_min
        &&& self.value_max@ == a.value_max
        &&& self.extra_info@ == a.extra_info
    }
}

fn time_from_count(c: u64) -> (r: Option<Timestamp>)
    ensures
        r == time_of_count(c),
{
    if c <= 0x7fff_ffff_ffff_ffff {
        Some(Timestamp { secs: c as i64 })
    } else {
        None
    }
}

/// Reads the engine's answer for a graph: the image and the metadata, or what
/// is wrong with the answer.
pub fn read_graph_answer(info: InfoMap) -> (r: Result<(Vec<u8>, GraphMetadata), GraphFault>)
    ensures
        match graph_answer(info@) {
            Ok(a) => r matches Ok((image, metadata)) && image@ == a.image
                && metadata.matches_answer(a),
            Err(f) => r matches Err(e) && e@ == f,
        },
        r matches Err(GraphFault::Error(e)) ==> e is Internal,
{
    let mut info = info;
    let image = match extract_blob(&mut info, "image") {
        Ok(v) => v,
        Err(e) => return Err(GraphFault::Error(e)),
    };
    let graph_left = match extract_count(&mut info, "graph_left") {
        Ok(v) => v,
        Err(e) => return Err(GraphFault::Error(e)),
    };
    let graph_top = match extract_count(&mut info, "graph_top") {
        Ok(v) => v,
        Err(e) => return Err(GraphFault::Error(e)),
    };
    let graph_width = match extract_count(&mut info, "graph_width") {
        Ok(v) => v,
        Err(e) => return Err(GraphFault::Error(e)),
    };
    let graph_height = match extract_count(&mut info, "graph_height") {
        Ok(v) => v,
        Err(e) => return Err(GraphFault::Error(e)),
    };
    let image_width = match extract_count(&mut info, "image_width") {
        Ok(v) => v,
        Err(e) => return Err(GraphFault::Error(e)),
    };
    let image_height = match extract_count(&mut info, "image_height") {
        Ok(v) => v,
        Err(e) => return Err(GraphFault::Error(e)),
    };
    let start = match extract_count(&mut info, "graph_start") {
        Ok(v) => v,
        Err(e) => return Err(GraphFault::Error(e)),
    };
    let graph_start = match time_from_count(start) {
        Some(t) => t,
        None => return Err(GraphFault::StartOverflow),
    };
    let end = match extract_count(&mut info, "graph_end") {
        Ok(v) => v,
        Err(e) => return Err(GraphFault::Error(e)),
    };
    let graph_end = match time_from_count(end) {
        Some(t) => t,
        None => return Err(GraphFault::EndOverflow),
    };
    let value_min = match extract_value(&mut info, "value_min") {
        Ok(v) => v,
        Err(e) => return Err(GraphFault::Error(e)),
    };
    let value_max = match extract_value(&mut info, "value_max") {
        Ok(v) => v,
        Err(e) => return Err(GraphFault::Error(e)),
    };
    Ok(
        (
            image,
            GraphMetadata {
                graph_left,
                graph_top,
                graph_width,
                graph_height,
                graph_start,
                graph_end,
                image_width,
                image_height,
                value_min,
                value_max,
                extra_info: info,
            },
        ),
    )
}

/// The image and the metadata of the engine's answer for a graph, or the
/// internal error for a key that is missing or of another kind.
///
/// An answer whose times are too late to be written is not taken.
pub fn graph_metadata(info: InfoMap) -> (r: RrdResult<(Vec<u8>, GraphMetadata)>)
    requires
        graph_answer(info@) != Err::<GraphAnswer, GraphFaultView>(GraphFaultView::StartOverflow),
        graph_answer(info@) != Err::<GraphAnswer, GraphFaultView>(GraphFaultView::EndOverflow),
    ensures
        match graph_answer(info@) {
            Ok(a) => r matches Ok((image, metadata)) && image@ == a.image
                && metadata.matches_answer(a),
            Err(f) => r matches Err(e) && e@ matches RrdErrorView::Internal(m) && f
                == GraphFaultView::Message(m),
        },
{
    match read_graph_answer(info) {
        Ok(v) => Ok(v),
        Err(GraphFault::Error(e)) => Err(e),
        Err(_) => {
            proof {
                assert(false);
            }
            Err(RrdError::PathEncodingError)
        },
    }
}

/// Rendering is repeatable: two lists of arguments that were made from the
/// same image format, properties and elements are the same list.
pub proof fn lemma_graph_is_repeatable(
    image_format: ImageFormat,
    props: GraphProps,
    elements: Seq<GraphElement>,
    first: ArrayOfStrings,
    second: ArrayOfStrings,
)
    requires
        first@ == graph_tokens(image_format, props, elements),
        second@ == graph_tokens(image_format, props, elements),
    ensures
        first@ == second@,
{
}

} // verus!
