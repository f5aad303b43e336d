//! Update a database: add data to it.
use vstd::prelude::*;
use crate::error::{RrdError, RrdErrorView, RrdResult};
use crate::number::{lemma_numeral_is_plain, Number};
use crate::text::{decimal, join, joined, lemma_decimal_digits, push_decimal, push_signed_decimal};
use crate::util::{
    has_nul, is_first_nul, is_plain, lemma_plain_concat, lemma_plain_is_nul_free, nul_free_copy,
    owned_strings, str_texts, ArrayOfStrings,
};
use crate::Timestamp;

verus! {

/// Flags that alter how an update behaves.
#[derive(Debug, Clone, Copy, PartialEq, Eq, Structural)]
pub struct ExtraFlags {
    bits: i32,
}

impl ExtraFlags {
    /// The bit that makes the engine skip updates older than the last update
    /// already present, without a word, rather than return an error.
    pub const SKIP_PAST_UPDATES_BIT: i32 = 0x01;

    /// No flag.
    pub fn empty() -> (f: ExtraFlags)
        ensures
            f.bits() == 0,
    {
        ExtraFlags { bits: 0 }
    }

    /// The flag that makes the engine skip updates older than the last update
    /// already present, without a word, rather than return an error.
    pub fn skip_past_updates() -> (f: ExtraFlags)
        ensures
            f.bits() == 1,
    {
        ExtraFlags { bits: Self::SKIP_PAST_UPDATES_BIT }
    }

    /// The flags that a word stands for, whatever its bits: the engine reads
    /// more bits than this library names.
    pub fn from_bits_retain(bits: i32) -> (f: ExtraFlags)
        ensures
            f.bits() == bits,
    {
        ExtraFlags { bits }
    }

    /// The flags of both.
    pub fn union(self, other: ExtraFlags) -> (f: ExtraFlags)
        ensures
            f.bits() == self.bits() | other.bits(),
    {
        ExtraFlags { bits: self.bits | other.bits }
    }

    /// Whether every flag of `other` is set.
    pub fn contains(&self, other: ExtraFlags) -> (b: bool)
        ensures
            b == (self.bits() & other.bits() == other.bits()),
    {
        self.bits & other.bits == other.bits
    }

    /// Whether no flag is set.
    pub fn is_empty(&self) -> (b: bool)
        ensures
            b == (self.bits() == 0),
    {
        self.bits == 0
    }

    /// The flags as the word that the engine is given.
    #[verifier::when_used_as_spec(spec_bits)]
    pub fn bits(&self) -> (b: i32)
        ensures
            b == self.bits(),
    {
        self.bits
    }

    /// The flags as the word that the engine is given.
    pub closed spec fn spec_bits(&self) -> i32 {
        self.bits
    }
}

/// The value to set for one data source at one time.
#[derive(Debug, Clone, PartialEq)]
#[allow(missing_docs)]
pub enum Datum {
    Unspecified,
    Int(u64),
    Float(Number),
}

/// The time of a batch of data in an update.
#[derive(Debug, Clone, Copy, PartialEq, Eq, Structural)]
pub enum BatchTime {
    /// Let the engine take the time from the system clock.
    Now,
    /// Use a specific time.
    Timestamp(Timestamp),
}

impl From<u64> for Datum {
    fn from(value: u64) -> (d: Self) {
        Datum::Int(value)
    }
}

impl vstd::std_specs::convert::FromSpecImpl<u64> for Datum {
    open spec fn obeys_from_spec() -> bool {
        true
    }

    open spec fn from_spec(value: u64) -> Self {
        Datum::Int(value)
    }
}

impl From<Number> for Datum {
    fn from(value: Number) -> (d: Self) {
        Datum::Float(value)
    }
}

impl vstd::std_specs::convert::FromSpecImpl<Number> for Datum {
    open spec fn obeys_from_spec() -> bool {
        true
    }

    open spec fn from_spec(value: Number) -> Self {
        Datum::Float(value)
    }
}

impl From<Timestamp> for BatchTime {
    fn from(value: Timestamp) -> (t: Self) {
        BatchTime::Timestamp(value)
    }
}

impl vstd::std_specs::convert::FromSpecImpl<Timestamp> for BatchTime {
    open spec fn obeys_from_spec() -> bool {
        true
    }

    open spec fn from_spec(value: Timestamp) -> Self {
        BatchTime::Timestamp(value)
    }
}

impl Datum {
    /// The text of the datum: `U` for none, or the numeral.
    pub open spec fn text(&self) -> Seq<char> {
        match self {
            Datum::Unspecified => seq!['U'],
            Datum::Int(i) => decimal(*i as nat),
            Datum::Float(f) => f@,
        }
    }
}

impl BatchTime {
    /// The text of the time: `N` for now, or the numeral of the seconds.
    pub open spec fn text(&self) -> Seq<char> {
        match self {
            BatchTime::Now => seq!['N'],
            BatchTime::Timestamp(t) => t.text(),
        }
    }
}

/// The text of the data of a batch: before each datum a colon.
pub open spec fn data_text(data: Seq<Datum>) -> Seq<char>
    decreases data.len(),
{
    if data.len() == 0 {
        seq![]
    } else {
        data_text(data.drop_last()) + seq![':'] + data.last().text()
    }
}

/// The token of a batch: `<time>:<datum>:<datum>...`.
pub open spec fn batch_text(batch: (BatchTime, Vec<Datum>)) -> Seq<char> {
    batch.0.text() + data_text(batch.1@)
}

/// The tokens of the batches: one for each, in their order.
pub open spec fn batch_tokens(batches: Seq<(BatchTime, Vec<Datum>)>) -> Seq<Seq<char>> {
    Seq::new(batches.len(), |i: int| batch_text(batches[i]))
}

/// Every batch has `expected_len` data points, or, where none is expected,
/// as many as the first batch.
pub open spec fn sizes_match(
    batches: Seq<(BatchTime, Vec<Datum>)>,
    expected_len: Option<usize>,
) -> bool {
    forall|i: int|
        0 <= i < batches.len() ==> (#[trigger] batches[i]).1.len() == match expected_len {
            Some(n) => n,
            None => batches[0].1.len(),
        }
}

/// If two batches have different numbers of data points, the sizes do not
/// match, whatever is expected: the whole update is refused.
pub proof fn lemma_mixed_sizes_do_not_match(
    batches: Seq<(BatchTime, Vec<Datum>)>,
    expected_len: Option<usize>,
    i: int,
    j: int,
)
    requires
        0 <= i < batches.len(),
        0 <= j < batches.len(),
        batches[i].1.len() != batches[j].1.len(),
    ensures
        !sizes_match(batches, expected_len),
{
}

proof fn lemma_signed_decimal_plain(i: int)
    ensures
        is_plain(crate::text::signed_decimal(i)),
{
    if i < 0 {
        lemma_decimal_digits((-i) as nat);
        lemma_plain_concat(seq!['-'], decimal((-i) as nat));
    } else {
        lemma_decimal_digits(i as nat);
    }
}

fn batch_token(batch: &(BatchTime, Vec<Datum>)) -> (s: String)
    ensures
        s@ == batch_text(*batch),
        is_plain(s@),
{
    let mut s = String::new();
    match &batch.0 {
        BatchTime::Now => {
            s.push('N');
            assert(s@ =~= batch.0.text());
        },
        BatchTime::Timestamp(t) => {
            push_signed_decimal(&mut s, t.secs);
            assert(s@ =~= batch.0.text());
            proof {
                lemma_signed_decimal_plain(t.secs as int);
            }
        },
    }
    let data = &batch.1;
    let n = data.len();
    let mut i: usize = 0;
    assert(s@ =~= batch.0.text() + data_text(data@.take(0)));
    while i < n
        invariant
            i <= n,
            n == data.len(),
            s@ == batch.0.text() + data_text(data@.take(i as int)),
            is_plain(s@),
        decreases n - i,
    {
        let ghost before = s@;
        let ghost done = data_text(data@.take(i as int));
        s.push(':');
        match &data[i] {
            Datum::Unspecified => {
                s.push('U');
            },
            Datum::Int(v) => {
                push_decimal(&mut s, *v);
                proof {
                    lemma_decimal_digits(*v as nat);
                }
            },
            Datum::Float(f) => {
                let t = f.as_str();
                proof {
                    lemma_numeral_is_plain(t@);
                }
                s.append(t);
            },
        }
        proof {
            let d = data@[i as int];
            assert(data@.take(i + 1).drop_last() =~= data@.take(i as int));
            assert(data@.take(i + 1).last() == d);
            assert(s@ =~= (before + seq![':']) + d.text());
            assert(s@ =~= batch.0.text() + (done + seq![':'] + d.text()));
            assert(is_plain(d.text()));
            lemma_plain_concat(before, seq![':']);
            lemma_plain_concat(before + seq![':'], d.text());
        }
        i += 1;
    }
    assert(data@.take(n as int) =~= data@);
    s
}

/// The tokens of the batches of an update, if every batch has as many data
/// points as expected: `expected_len`, or, where that is `None`, as many as
/// the first batch.
pub fn build_datum_args(batches: &[(BatchTime, Vec<Datum>)], expected_len: Option<usize>) -> (r:
    RrdResult<ArrayOfStrings>)
    ensures
        sizes_match(batches@, expected_len) ==> (r matches Ok(a) && a@ == batch_tokens(batches@)),
        !sizes_match(batches@, expected_len) ==> (r matches Err(e) && e@
            == RrdErrorView::InvalidArgument("Batch sizes don't match"@)),
{
    let n = batches.len();
    let mut tokens: Vec<String> = Vec::new();
    let mut expected = expected_len;
    let mut i: usize = 0;
    while i < n
        invariant
            i <= n,
            n == batches@.len(),
            expected == match expected_len {
                Some(e) => Some(e),
                None => if i == 0 {
                    None
                } else {
                    Some(batches@[0].1.len())
                },
            },
            forall|k: int|
                0 <= k < i ==> (#[trigger] batches@[k]).1.len() == match expected_len {
                    Some(e) => e,
                    None => batches@[0].1.len(),
                },
            tokens.deep_view() == batch_tokens(batches@.take(i as int)),
            forall|k: int| 0 <= k < tokens.len() ==> is_plain(#[trigger] tokens.deep_view()[k]),
        decreases n - i,
    {
        let batch = &batches[i];
        let len = batch.1.len();
        let want = match expected {
            Some(e) => e,
            None => {
                expected = Some(len);
                len
            },
        };
        if len != want {
            return Err(RrdError::InvalidArgument(String::from_str("Batch sizes don't match")));
        }
        let token = batch_token(batch);
        let ghost before = tokens.deep_view();
        tokens.push(token);
        proof {
            assert(tokens.deep_view() =~= before.push(batch_text(batches@[i as int])));
            assert(batch_tokens(batches@.take(i + 1)) =~= batch_tokens(
                batches@.take(i as int),
            ).push(batch_text(batches@[i as int])));
        }
        i += 1;
    }
    proof {
        assert(batches@.take(n as int) =~= batches@);
        assert forall|k: int| 0 <= k < tokens.deep_view().len() implies !has_nul(
            #[trigger] tokens.deep_view()[k],
        ) by {
            lemma_plain_is_nul_free(tokens.deep_view()[k]);
        }
    }
    Ok(ArrayOfStrings::from_nul_free(tokens))
}

/// What the engine is given for an update.
#[derive(Debug)]
pub struct UpdateCall {
    /// The path of the database.
    pub filename: String,
    /// The names of the data sources that the data are for, with colons
    /// between; `None` where the data are for all of them.
    pub template: Option<String>,
    /// The flags, as a word.
    pub extra_flags: i32,
    /// One token for each batch.
    pub args: ArrayOfStrings,
}

impl UpdateCall {
    /// The text of the template, if there is one.
    pub open spec fn template_text(&self) -> Option<Seq<char>> {
        match self.template {
            Some(t) => Some(t@),
            None => None,
        }
    }
}

/// Prepares an update of all data sources of a database.
///
/// Each batch must have a datum for each data source, except for computed
/// ones, and all batches must have the same number of data points.
pub fn update_all(filename: &str, extra_flags: ExtraFlags, data: &[(BatchTime, Vec<Datum>)]) -> (r:
    RrdResult<UpdateCall>)
    ensures
        has_nul(filename@) ==> (r matches Err(e) && e@ matches RrdErrorView::NulError(n)
            && is_first_nul(filename@, n.position as int)),
        !has_nul(filename@) && !sizes_match(data@, None) ==> (r matches Err(e) && e@
            == RrdErrorView::InvalidArgument("Batch sizes don't match"@)),
        !has_nul(filename@) && sizes_match(data@, None) ==> (r matches Ok(call) && call.filename@
            == filename@ && call.template is None && call.extra_flags == extra_flags.bits()
            && call.args@ == batch_tokens(data@)),
{
    let filename = nul_free_copy(filename)?;
    let args = build_datum_args(data, None)?;
    Ok(UpdateCall { filename, template: None, extra_flags: extra_flags.bits(), args })
}

/// Prepares an update of the data sources that `ds_names` lists.
///
/// Each batch must have one datum for each name, in the order of the names.
/// The data sources that are not listed get unknown values.
pub fn update(
    filename: &str,
    ds_names: &[&str],
    extra_flags: ExtraFlags,
    data: &[(BatchTime, Vec<Datum>)],
) -> (r: RrdResult<UpdateCall>)
    ensures
        has_nul(filename@) ==> (r matches Err(e) && e@ matches RrdErrorView::NulError(n)
            && is_first_nul(filename@, n.position as int)),
        !has_nul(filename@) && has_nul(joined(str_texts(ds_names@), ":"@)) ==> (r matches Err(e)
            && e@ matches RrdErrorView::NulError(n) && is_first_nul(
            joined(str_texts(ds_names@), ":"@),
            n.position as int,
        )),
        !has_nul(filename@) && !has_nul(joined(str_texts(ds_names@), ":"@)) && !sizes_match(
            data@,
            Some(ds_names@.len() as usize),
        ) ==> (r matches Err(e) && e@ == RrdErrorView::InvalidArgument(
            "Batch sizes don't match"@,
        )),
        !has_nul(filename@) && !has_nul(joined(str_texts(ds_names@), ":"@)) && sizes_match(
            data@,
            Some(ds_names@.len() as usize),
        ) ==> (r matches Ok(call) && call.filename@ == filename@ && call.template_text() == Some(
            joined(str_texts(ds_names@), ":"@),
        ) && call.extra_flags == extra_flags.bits() && call.args@ == batch_tokens(data@)),
{
    let filename = nul_free_copy(filename)?;
    let names = owned_strings(ds_names);
    let template = nul_free_copy(join(&names, ":").as_str())?;
    let args = build_datum_args(data, Some(ds_names.len()))?;
    Ok(UpdateCall { filename, template: Some(template), extra_flags: extra_flags.bits(), args })
}

} // verus!
