//! Create a database.
use vstd::prelude::*;
use crate::error::{InvalidArgument, RrdError, RrdResult};
use crate::number::{denotes_unit_fraction, Number};
use crate::text::{decimal, lemma_concat_assoc, push_decimal, str_text};
use crate::util::{
    all_nul_free, has_nul, is_first_nul, nul_check, nul_free_copy, owned_strings, str_texts,
    ArrayOfStrings, NullTerminatedArrayOfStrings,
};
use crate::{ConsolidationFn, Timestamp};

verus! {

/// The name of a data source as it stands in its definition.
#[derive(Debug, Clone, PartialEq, Eq)]
pub struct DataSourceName {
    name: String,
}

impl View for DataSourceName {
    type V = Seq<char>;

    closed spec fn view(&self) -> Seq<char> {
        self.name@
    }
}

/// The numeral of an index in square brackets, if there is an index.
pub open spec fn index_text(index: Option<u32>) -> Seq<char> {
    match index {
        Some(i) => "["@ + decimal(i as nat) + "]"@,
        None => seq![],
    }
}

impl DataSourceName {
    /// The name of a data source that is not filled from another database.
    pub fn new(name: &str) -> (n: Self)
        ensures
            n@ == name@,
    {
        Self { name: name.to_owned() }
    }

    /// The name of a data source that is filled from the data source
    /// `src_ds_name` of another database, optionally the one at `index` of
    /// the databases given.
    pub fn mapped(name: &str, src_ds_name: &str, index: Option<u32>) -> (n: Self)
        ensures
            n@ == name@ + "="@ + src_ds_name@ + index_text(index),
    {
        let mut s = name.to_owned();
        s.append("=");
        s.append(src_ds_name);
        match index {
            None => {
                assert(s@ =~= s@ + index_text(index));
            },
            Some(i) => {
                let ghost before = s@;
                s.append("[");
                push_decimal(&mut s, i as u64);
                s.append("]");
                proof {
                    lemma_concat_assoc(before, "["@, decimal(i as nat));
                    lemma_concat_assoc(before, "["@ + decimal(i as nat), "]"@);
                }
            },
        }
        Self { name: s }
    }

    /// The name as it stands in the definition.
    pub fn as_str(&self) -> (s: &str)
        ensures
            s@ == self@,
    {
        self.name.as_str()
    }
}

/// The definition of a data source of a new database.
#[derive(Debug, Clone, PartialEq, Eq)]
pub struct DataSource {
    arg: String,
}

impl View for DataSource {
    type V = Seq<char>;

    closed spec fn view(&self) -> Seq<char> {
        self.arg@
    }
}

/// The text of a bound: the numeral, or `U` where the bound is unknown.
pub open spec fn bound_text(bound: Option<Seq<char>>) -> Seq<char> {
    match bound {
        Some(b) => b,
        None => "U"@,
    }
}

/// The numeral of a whole bound, if there is one.
pub open spec fn whole_bound(bound: Option<u64>) -> Option<Seq<char>> {
    match bound {
        Some(b) => Some(decimal(b as nat)),
        None => None,
    }
}

/// The numeral of a bound, if there is one.
pub open spec fn number_bound(bound: Option<Number>) -> Option<Seq<char>> {
    match bound {
        Some(b) => Some(b@),
        None => None,
    }
}

/// The token of a data source that takes values:
/// `DS:<name>:<kind>:<heartbeat>:<min>:<max>`.
pub open spec fn source_text(
    name: Seq<char>,
    kind: Seq<char>,
    heartbeat: u32,
    min: Option<Seq<char>>,
    max: Option<Seq<char>>,
) -> Seq<char> {
    "DS:"@ + name + ":"@ + kind + ":"@ + decimal(heartbeat as nat) + ":"@ + bound_text(min) + ":"@
        + bound_text(max)
}

fn push_whole_bound(s: &mut String, bound: Option<u64>)
    ensures
        final(s)@ == old(s)@ + bound_text(whole_bound(bound)),
{
    match bound {
        Some(b) => push_decimal(s, b),
        None => s.append("U"),
    }
}

fn push_number_bound(s: &mut String, bound: &Option<Number>)
    ensures
        final(s)@ == old(s)@ + bound_text(number_bound(*bound)),
{
    match bound {
        Some(b) => s.append(b.as_str()),
        None => s.append("U"),
    }
}

fn source_head(name: &DataSourceName, kind: &str, heartbeat: u32) -> (s: String)
    ensures
        s@ == "DS:"@ + name@ + ":"@ + kind@ + ":"@ + decimal(heartbeat as nat) + ":"@,
{
    let mut s = String::from_str("DS:");
    s.append(name.as_str());
    s.append(":");
    s.append(kind);
    s.append(":");
    push_decimal(&mut s, heartbeat as u64);
    s.append(":");
    s
}

fn whole_source(
    name: &DataSourceName,
    kind: &str,
    heartbeat: u32,
    min: Option<u64>,
    max: Option<u64>,
) -> (d: DataSource)
    ensures
        d@ == source_text(name@, kind@, heartbeat, whole_bound(min), whole_bound(max)),
{
    let mut s = source_head(name, kind, heartbeat);
    push_whole_bound(&mut s, min);
    s.append(":");
    push_whole_bound(&mut s, max);
    DataSource { arg: s }
}

fn number_source(
    name: &DataSourceName,
    kind: &str,
    heartbeat: u32,
    min: &Option<Number>,
    max: &Option<Number>,
) -> (d: DataSource)
    ensures
        d@ == source_text(name@, kind@, heartbeat, number_bound(*min), number_bound(*max)),
{
    let mut s = source_head(name, kind, heartbeat);
    push_number_bound(&mut s, min);
    s.append(":");
    push_number_bound(&mut s, max);
    DataSource { arg: s }
}

impl DataSource {
    /// A source whose values are stored as they come.
    pub fn gauge(name: DataSourceName, heartbeat: u32, min: Option<Number>, max: Option<Number>) -> (d:
        Self)
        ensures
            d@ == source_text(name@, "GAUGE"@, heartbeat, number_bound(min), number_bound(max)),
    {
        number_source(&name, "GAUGE", heartbeat, &min, &max)
    }

    /// A source whose values only grow, and of which the rate is stored.
    pub fn counter(name: DataSourceName, heartbeat: u32, min: Option<u64>, max: Option<u64>) -> (d:
        Self)
        ensures
            d@ == source_text(name@, "COUNTER"@, heartbeat, whole_bound(min), whole_bound(max)),
    {
        whole_source(&name, "COUNTER", heartbeat, min, max)
    }

    /// Like [`counter`](Self::counter), for values that are not whole.
    pub fn dcounter(
        name: DataSourceName,
        heartbeat: u32,
        min: Option<Number>,
        max: Option<Number>,
    ) -> (d: Self)
        ensures
            d@ == source_text(name@, "DCOUNTER"@, heartbeat, number_bound(min), number_bound(max)),
    {
        number_source(&name, "DCOUNTER", heartbeat, &min, &max)
    }

    /// A source of which the rate of change is stored, whether it grows or
    /// not.
    pub fn derive(name: DataSourceName, heartbeat: u32, min: Option<u64>, max: Option<u64>) -> (d:
        Self)
        ensures
            d@ == source_text(name@, "DERIVE"@, heartbeat, whole_bound(min), whole_bound(max)),
    {
        whole_source(&name, "DERIVE", heartbeat, min, max)
    }

    /// Like [`derive`](Self::derive), for values that are not whole.
    pub fn dderive(
        name: DataSourceName,
        heartbeat: u32,
        min: Option<Number>,
        max: Option<Number>,
    ) -> (d: Self)
        ensures
            d@ == source_text(name@, "DDERIVE"@, heartbeat, number_bound(min), number_bound(max)),
    {
        number_source(&name, "DDERIVE", heartbeat, &min, &max)
    }

    /// A source whose values are counted anew after each reading.
    pub fn absolute(name: DataSourceName, heartbeat: u32, min: Option<u64>, max: Option<u64>) -> (d:
        Self)
        ensures
            d@ == source_text(name@, "ABSOLUTE"@, heartbeat, whole_bound(min), whole_bound(max)),
    {
        whole_source(&name, "ABSOLUTE", heartbeat, min, max)
    }

    /// A source that is computed from other sources by an expression.
    pub fn compute(name: DataSourceName, rpn: &str) -> (d: Self)
        ensures
            d@ == "DS:"@ + name@ + ":COMPUTE:"@ + rpn@,
    {
        let mut s = String::from_str("DS:");
        s.append(name.as_str());
        s.append(":COMPUTE:");
        s.append(rpn);
        Self { arg: s }
    }

    /// Returns the `DS:...` token.
    pub fn as_arg_string(&self) -> (s: String)
        ensures
            s@ == self@,
    {
        self.arg.clone()
    }
}

/// The definition of an archive of a new database.
#[derive(Debug, PartialEq)]
pub struct Archive {
    consolidation_fn: ConsolidationFn,
    xfiles_factor: Number,
    steps: u32,
    rows: u32,
}

/// What an [`Archive`] holds, the factor as its numeral.
pub struct ArchiveView {
    #[allow(missing_docs)]
    pub consolidation_fn: ConsolidationFn,
    #[allow(missing_docs)]
    pub xfiles_factor: Seq<char>,
    #[allow(missing_docs)]
    pub steps: u32,
    #[allow(missing_docs)]
    pub rows: u32,
}

impl ArchiveView {
    /// The token of the archive: `RRA:<function>:<factor>:<steps>:<rows>`.
    pub open spec fn text(self) -> Seq<char> {
        "RRA:"@ + self.consolidation_fn.keyword() + ":"@ + self.xfiles_factor + ":"@ + decimal(
            self.steps as nat,
        ) + ":"@ + decimal(self.rows as nat)
    }
}

impl View for Archive {
    type V = ArchiveView;

    closed spec fn view(&self) -> ArchiveView {
        ArchiveView {
            consolidation_fn: self.consolidation_fn,
            xfiles_factor: self.xfiles_factor@,
            steps: self.steps,
            rows: self.rows,
        }
    }
}

impl Clone for Archive {
    fn clone(&self) -> (r: Self)
        ensures
            r@ == self@,
    {
        proof {
            use_type_invariant(self);
        }
        Archive {
            consolidation_fn: self.consolidation_fn,
            xfiles_factor: self.xfiles_factor.clone(),
            steps: self.steps,
            rows: self.rows,
        }
    }
}

impl Archive {
    #[verifier::type_invariant]
    spec fn well_formed(&self) -> bool {
        denotes_unit_fraction(self.xfiles_factor@)
    }

    /// `xfiles_factor` must be at least 0 and less than 1.
    ///
    /// The engine's documentation allows 1, but the engine refuses it.
    pub fn new(consolidation_fn: ConsolidationFn, xfiles_factor: Number, steps: u32, rows: u32) -> (r:
        Result<Self, InvalidArgument>)
        ensures
            denotes_unit_fraction(xfiles_factor@) ==> (r matches Ok(a) && a@ == ArchiveView {
                consolidation_fn,
                xfiles_factor: xfiles_factor@,
                steps,
                rows,
            }),
            !denotes_unit_fraction(xfiles_factor@) ==> (r matches Err(e) && e.0@
                == "xfiles_factor must be in [0, 1]"@),
    {
        if xfiles_factor.is_unit_fraction() {
            Ok(Self { consolidation_fn, xfiles_factor, steps, rows })
        } else {
            Err(InvalidArgument("xfiles_factor must be in [0, 1]"))
        }
    }

    /// Returns the `RRA:...` token.  Its factor is at least 0 and less than 1.
    pub fn as_arg_string(&self) -> (s: String)
        ensures
            s@ == self@.text(),
            denotes_unit_fraction(self@.xfiles_factor),
    {
        proof {
            use_type_invariant(self);
        }
        let mut s = String::from_str("RRA:");
        s.append(self.consolidation_fn.as_arg_str());
        s.append(":");
        s.append(self.xfiles_factor.as_str());
        s.append(":");
        push_decimal(&mut s, self.steps as u64);
        s.append(":");
        push_decimal(&mut s, self.rows as u64);
        s
    }
}

/// The tokens of the definitions of a new database: first the data sources,
/// then the archives, each in their order.
pub open spec fn create_tokens(data_sources: Seq<DataSource>, archives: Seq<Archive>) -> Seq<
    Seq<char>,
> {
    Seq::new(data_sources.len(), |i: int| data_sources[i]@) + Seq::new(
        archives.len(),
        |i: int| archives[i]@.text(),
    )
}

fn definition_tokens(data_sources: &[DataSource], archives: &[Archive]) -> (r: Vec<String>)
    ensures
        r.deep_view() == create_tokens(data_sources@, archives@),
{
    let mut out: Vec<String> = Vec::new();
    let n = data_sources.len();
    let mut i: usize = 0;
    while i < n
        invariant
            i <= n,
            n == data_sources@.len(),
            out.len() == i,
            forall|k: int| 0 <= k < i ==> (#[trigger] out[k])@ == data_sources@[k]@,
        decreases n - i,
    {
        out.push(data_sources[i].as_arg_string());
        i += 1;
    }
    let m = archives.len();
    let mut j: usize = 0;
    while j < m
        invariant
            j <= m,
            m == archives@.len(),
            n == data_sources@.len(),
            out.len() == n + j,
            forall|k: int| 0 <= k < n ==> (#[trigger] out[k])@ == data_sources@[k]@,
            forall|k: int| 0 <= k < j ==> (#[trigger] out[n + k])@ == archives@[k]@.text(),
        decreases m - j,
    {
        out.push(archives[j].as_arg_string());
        j += 1;
    }
    proof {
        let first = Seq::new(data_sources@.len(), |i: int| data_sources@[i]@);
        let second = Seq::new(archives@.len(), |i: int| archives@[i]@.text());
        assert(out.deep_view().len() == (first + second).len());
        assert forall|k: int| 0 <= k < out.deep_view().len() implies out.deep_view()[k] == (first
            + second)[k] by {
            if k < n {
                assert(out[k]@ == data_sources@[k]@);
                assert((first + second)[k] == first[k]);
            } else {
                assert(out[n + (k - n)]@ == archives@[k - n]@.text());
                assert((first + second)[k] == second[k - n]);
            }
        }
        assert(out.deep_view() =~= first + second);
    }
    out
}

/// What the engine is given to create a database.
#[derive(Debug)]
pub struct CreateCall {
    /// The path of the new database.
    pub filename: String,
    /// The seconds between two primary data points.
    pub pdp_step: u64,
    /// The time before the first update, in seconds since the epoch.
    pub last_up: i64,
    /// 1 if an existing file must not be overwritten, else 0.
    pub no_overwrite: i32,
    /// The paths of the databases from which to fill the new one.
    pub sources: NullTerminatedArrayOfStrings,
    /// The path of the database to take the structure from.
    pub template: Option<String>,
    /// The definitions of the data sources and of the archives.
    pub args: ArrayOfStrings,
}

impl CreateCall {
    /// The text of the template, if there is one.
    pub open spec fn template_text(&self) -> Option<Seq<char>> {
        match self.template {
            Some(t) => Some(t@),
            None => None,
        }
    }
}

/// The first text that holds a NUL byte, with the index of its first NUL,
/// among the texts that a call to create a database checks, in the order in
/// which it checks them: the sources, the file name, the template, the
/// definitions.  `None` if no text holds a NUL byte.
pub open spec fn create_nul_check(
    filename: Seq<char>,
    template: Option<Seq<char>>,
    sources: Seq<Seq<char>>,
    tokens: Seq<Seq<char>>,
    r: Option<crate::error::NulError>,
) -> bool {
    if !all_nul_free(sources) {
        r is Some && nul_check(sources, r)
    } else if has_nul(filename) {
        r is Some && is_first_nul(filename, r->0.position as int)
    } else if template is Some && has_nul(template->0) {
        r is Some && is_first_nul(template->0, r->0.position as int)
    } else if !all_nul_free(tokens) {
        r is Some && nul_check(tokens, r)
    } else {
        r is None
    }
}

/// The NUL error that a result holds, if it holds one.
pub open spec fn nul_error_of<T>(r: RrdResult<T>) -> Option<crate::error::NulError> {
    match r {
        Err(RrdError::NulError(n)) => Some(n),
        _ => None,
    }
}

/// Prepares the creation of a database.
///
/// The call is refused if one of its texts holds a NUL byte.  The texts are
/// checked in this order: the sources, the file name, the template, the
/// definitions of the data sources, the definitions of the archives.
pub fn create(
    filename: &str,
    start: Timestamp,
    step: u64,
    no_overwrite: bool,
    template: Option<&str>,
    sources: &[&str],
    data_sources: &[DataSource],
    round_robin_archives: &[Archive],
) -> (r: RrdResult<CreateCall>)
    ensures
        r is Ok || r matches Err(RrdError::NulError(_)),
        create_nul_check(
            filename@,
            str_text(template),
            str_texts(sources@),
            create_tokens(data_sources@, round_robin_archives@),
            nul_error_of(r),
        ),
        r matches Ok(call) ==> {
            &&& call.filename@ == filename@
            &&& call.pdp_step == step
            &&& call.last_up == start.secs
            &&& call.no_overwrite == (if no_overwrite {
                1i32
            } else {
                0i32
            })
            &&& call.sources@ == str_texts(sources@)
            &&& call.template_text() == str_text(template)
            &&& call.args@ == create_tokens(data_sources@, round_robin_archives@)
        },
{
    let sources = match NullTerminatedArrayOfStrings::new(owned_strings(sources)) {
        Ok(s) => s,
        Err(e) => {
            return Err(e);
        },
    };
    let filename = match nul_free_copy(filename) {
        Ok(f) => f,
        Err(e) => {
            return Err(e);
        },
    };
    let template = match template {
        None => None,
        Some(t) => match nul_free_copy(t) {
            Ok(t) => Some(t),
            Err(e) => {
                return Err(e);
            },
        },
    };
    let args = match ArrayOfStrings::new(definition_tokens(data_sources, round_robin_archives)) {
        Ok(a) => a,
        Err(e) => {
            return Err(e);
        },
    };
    Ok(
        CreateCall {
            filename,
            pdp_step: step,
            last_up: start.secs,
            no_overwrite: if no_overwrite {
                1
            } else {
                0
            },
            sources,
            template,
            args,
        },
    )
}

} // verus!
