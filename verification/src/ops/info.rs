//! What the engine tells about a database or a graph: a map from keys such as
//! `ds[speed].type` to values.
use vstd::prelude::*;
use crate::error::{RrdErrorView, RrdResult};
use crate::number::Number;
use crate::util::{has_nul, is_first_nul, nul_free_copy};

verus! {

/// The tag of a record of the engine's answer, which says what kind of value
/// the record holds.
#[allow(non_camel_case_types)]
#[allow(missing_docs)]
#[derive(Debug, Clone, Copy, PartialEq, Eq, Structural)]
pub enum rrd_info_type_t {
    RD_I_VAL,
    RD_I_CNT,
    RD_I_STR,
    RD_I_INT,
    RD_I_BLO,
}

/// The kind of value that a tag stands for.  The engine numbers the kinds
/// from 0 to 4; no other tag is known.
pub open spec fn info_type(tag: u32) -> Option<rrd_info_type_t> {
    if tag == 0 {
        Some(rrd_info_type_t::RD_I_VAL)
    } else if tag == 1 {
        Some(rrd_info_type_t::RD_I_CNT)
    } else if tag == 2 {
        Some(rrd_info_type_t::RD_I_STR)
    } else if tag == 3 {
        Some(rrd_info_type_t::RD_I_INT)
    } else if tag == 4 {
        Some(rrd_info_type_t::RD_I_BLO)
    } else {
        None
    }
}

impl rrd_info_type_t {
    /// The kind of value that a tag stands for, if the tag is known.
    pub fn from_tag(tag: u32) -> (r: Option<rrd_info_type_t>)
        ensures
            r == info_type(tag),
    {
        match tag {
            0 => Some(rrd_info_type_t::RD_I_VAL),
            1 => Some(rrd_info_type_t::RD_I_CNT),
            2 => Some(rrd_info_type_t::RD_I_STR),
            3 => Some(rrd_info_type_t::RD_I_INT),
            4 => Some(rrd_info_type_t::RD_I_BLO),
            _ => None,
        }
    }
}

/// A value of an [`InfoMap`].
#[derive(Clone, Debug, PartialEq)]
#[allow(missing_docs)]
pub enum InfoValue {
    Value(Number),
    Count(u64),
    String(String),
    Int(i32),
    Blob(Vec<u8>),
}

/// What an [`InfoValue`] holds: a numeral, a count, a text, an integer or
/// bytes.
#[allow(missing_docs)]
pub enum InfoValueView {
    Value(Seq<char>),
    Count(u64),
    String(Seq<char>),
    Int(i32),
    Blob(Seq<u8>),
}

impl View for InfoValue {
    type V = InfoValueView;

    open spec fn view(&self) -> InfoValueView {
        match self {
            InfoValue::Value(v) => InfoValueView::Value(v@),
            InfoValue::Count(c) => InfoValueView::Count(*c),
            InfoValue::String(s) => InfoValueView::String(s@),
            InfoValue::Int(i) => InfoValueView::Int(*i),
            InfoValue::Blob(b) => InfoValueView::Blob(b@),
        }
    }
}

impl InfoValue {
    /// Returns `Some` if this is an `InfoValue::Value`, `None` otherwise.
    pub fn into_value(self) -> (r: Option<Number>)
        ensures
            match self {
                InfoValue::Value(v) => r == Some(v),
                _ => r is None,
            },
    {
        match self {
            InfoValue::Value(v) => Some(v),
            InfoValue::Count(_) | InfoValue::String(_) | InfoValue::Int(_) | InfoValue::Blob(_) => {
                None
            },
        }
    }

    /// Returns `Some` if this is an `InfoValue::Count`, `None` otherwise.
    pub fn into_count(self) -> (r: Option<u64>)
        ensures
            match self {
                InfoValue::Count(c) => r == Some(c),
                _ => r is None,
            },
    {
        match self {
            InfoValue::Count(c) => Some(c),
            InfoValue::Value(_) | InfoValue::String(_) | InfoValue::Int(_) | InfoValue::Blob(_) => {
                None
            },
        }
    }

    /// Returns `Some` if this is an `InfoValue::String`, `None` otherwise.
    pub fn into_string(self) -> (r: Option<String>)
        ensures
            match self {
                InfoValue::String(s) => r == Some(s),
                _ => r is None,
            },
    {
        match self {
            InfoValue::String(s) => Some(s),
            InfoValue::Value(_) | InfoValue::Count(_) | InfoValue::Int(_) | InfoValue::Blob(_) => {
                None
            },
        }
    }

    /// Returns `Some` if this is an `InfoValue::Int`, `None` otherwise.
    pub fn into_int(self) -> (r: Option<i32>)
        ensures
            match self {
                InfoValue::Int(i) => r == Some(i),
                _ => r is None,
            },
    {
        match self {
            InfoValue::Int(i) => Some(i),
            InfoValue::Value(_)
            | InfoValue::Count(_)
            | InfoValue::String(_)
            | InfoValue::Blob(_) => None,
        }
    }

    /// Returns `Some` if this is an `InfoValue::Blob`, `None` otherwise.
    pub fn into_blob(self) -> (r: Option<Vec<u8>>)
        ensures
            match self {
                InfoValue::Blob(b) => r == Some(b),
                _ => r is None,
            },
    {
        match self {
            InfoValue::Blob(b) => Some(b),
            InfoValue::Value(_)
            | InfoValue::Count(_)
            | InfoValue::String(_)
            | InfoValue::Int(_) => None,
        }
    }
}

impl From<Number> for InfoValue {
    fn from(value: Number) -> (r: Self) {
        InfoValue::Value(value)
    }
}

impl vstd::std_specs::convert::FromSpecImpl<Number> for InfoValue {
    open spec fn obeys_from_spec() -> bool {
        true
    }

    open spec fn from_spec(value: Number) -> Self {
        InfoValue::Value(value)
    }
}

impl From<u64> for InfoValue {
    fn from(value: u64) -> (r: Self) {
        InfoValue::Count(value)
    }
}

impl vstd::std_specs::convert::FromSpecImpl<u64> for InfoValue {
    open spec fn obeys_from_spec() -> bool {
        true
    }

    open spec fn from_spec(value: u64) -> Self {
        InfoValue::Count(value)
    }
}

impl From<String> for InfoValue {
    fn from(value: String) -> (r: Self) {
        InfoValue::String(value)
    }
}

impl vstd::std_specs::convert::FromSpecImpl<String> for InfoValue {
    open spec fn obeys_from_spec() -> bool {
        true
    }

    open spec fn from_spec(value: String) -> Self {
        InfoValue::String(value)
    }
}

impl From<i32> for InfoValue {
    fn from(value: i32) -> (r: Self) {
        InfoValue::Int(value)
    }
}

impl vstd::std_specs::convert::FromSpecImpl<i32> for InfoValue {
    open spec fn obeys_from_spec() -> bool {
        true
    }

    open spec fn from_spec(value: i32) -> Self {
        InfoValue::Int(value)
    }
}

impl From<Vec<u8>> for InfoValue {
    fn from(value: Vec<u8>) -> (r: Self) {
        InfoValue::Blob(value)
    }
}

impl vstd::std_specs::convert::FromSpecImpl<Vec<u8>> for InfoValue {
    open spec fn obeys_from_spec() -> bool {
        true
    }

    open spec fn from_spec(value: Vec<u8>) -> Self {
        InfoValue::Blob(value)
    }
}

/// Some entry of the list has the key.
pub open spec fn has_key(entries: Seq<(String, InfoValue)>, key: Seq<char>) -> bool {
    exists|i: int| 0 <= i < entries.len() && (#[trigger] entries[i]).0@ == key
}

/// The index of an entry with the key.
pub open spec fn index_of(entries: Seq<(String, InfoValue)>, key: Seq<char>) -> int {
    choose|i: int| 0 <= i < entries.len() && (#[trigger] entries[i]).0@ == key
}

/// No two entries of the list have the same key.
pub open spec fn distinct_keys(entries: Seq<(String, InfoValue)>) -> bool {
    forall|i: int, j: int|
        0 <= i < entries.len() && 0 <= j < entries.len() && i != j ==> (#[trigger] entries[i]).0@
            != (#[trigger] entries[j]).0@
}

/// The map that a list of entries with distinct keys stands for.
pub open spec fn map_of_entries(entries: Seq<(String, InfoValue)>) -> Map<
    Seq<char>,
    InfoValueView,
> {
    Map::new(
        |key: Seq<char>| has_key(entries, key),
        |key: Seq<char>| entries[index_of(entries, key)].1@,
    )
}

/// The map that a list of records stands for when they are read in their
/// order: of two records with one key, the later one counts.
pub open spec fn map_of_records(records: Seq<(String, InfoValue)>) -> Map<Seq<char>, InfoValueView>
    decreases records.len(),
{
    if records.len() == 0 {
        Map::empty()
    } else {
        map_of_records(records.drop_last()).insert(records.last().0@, records.last().1@)
    }
}

/// A map from keys to values that owns all that it holds.
#[derive(Debug, PartialEq)]
pub struct InfoMap {
    entries: Vec<(String, InfoValue)>,
}

impl View for InfoMap {
    type V = Map<Seq<char>, InfoValueView>;

    closed spec fn view(&self) -> Map<Seq<char>, InfoValueView> {
        map_of_entries(self.entries@)
    }
}

impl InfoMap {
    #[verifier::type_invariant]
    spec fn well_formed(&self) -> bool {
        distinct_keys(self.entries@)
    }

    /// The empty map.
    pub fn new() -> (m: InfoMap)
        ensures
            m@ == Map::<Seq<char>, InfoValueView>::empty(),
    {
        let m = InfoMap { entries: Vec::new() };
        assert(m@ =~= Map::<Seq<char>, InfoValueView>::empty());
        m
    }

    fn position(&self, key: &String) -> (r: Option<usize>)
        ensures
            match r {
                Some(i) => i < self.entries.len() && self.entries[i as int].0@ == key@,
                None => !has_key(self.entries@, key@),
            },
    {
        let n = self.entries.len();
        let mut i: usize = 0;
        while i < n
            invariant
                i <= n,
                n == self.entries.len(),
                forall|k: int| 0 <= k < i ==> (#[trigger] self.entries[k]).0@ != key@,
            decreases n - i,
        {
            if self.entries[i].0 == *key {
                return Some(i);
            }
            i += 1;
        }
        None
    }

    /// The entries of the map: each key once, with its value.
    pub fn entries(&self) -> (e: &Vec<(String, InfoValue)>)
        ensures
            distinct_keys(e@),
            self@ == map_of_entries(e@),
    {
        proof {
            use_type_invariant(self);
        }
        &self.entries
    }

    /// Whether the map has the key.
    pub fn contains_key(&self, key: &str) -> (b: bool)
        ensures
            b == self@.contains_key(key@),
    {
        let key = key.to_owned();
        self.position(&key).is_some()
    }

    /// The value of the key, if the map has the key.
    pub fn get(&self, key: &str) -> (r: Option<&InfoValue>)
        ensures
            match r {
                Some(v) => self@.contains_key(key@) && self@[key@] == v@,
                None => !self@.contains_key(key@),
            },
    {
        proof {
            use_type_invariant(self);
        }
        let key = key.to_owned();
        match self.position(&key) {
            Some(i) => {
                assert(self.entries@[i as int].0@ == key@);
                Some(&self.entries[i].1)
            },
            None => None,
        }
    }

    /// Sets the value of the key, and returns the value that the key had.
    pub fn insert(&mut self, key: String, value: InfoValue) -> (previous: Option<InfoValue>)
        ensures
            final(self)@ == old(self)@.insert(key@, value@),
            match previous {
                Some(v) => old(self)@.contains_key(key@) && old(self)@[key@] == v@,
                None => !old(self)@.contains_key(key@),
            },
    {
        proof {
            use_type_invariant(&*self);
        }
        let ghost before = self.entries@;
        let found = self.position(&key);
        let mut entries: Vec<(String, InfoValue)> = Vec::new();
        std::mem::swap(&mut self.entries, &mut entries);
        match found {
            Some(i) => {
                let ghost k = key@;
                let (_, v) = entries.remove(i);
                entries.insert(i, (key, value));
                proof {
                    let after = entries@;
                    assert(after.len() == before.len());
                    assert forall|j: int| 0 <= j < after.len() implies (#[trigger] after[j]).0@
                        == before[j].0@ by {}
                    assert(before[i as int].0@ == k);
                    assert(after[i as int].0@ == k);
                    assert(distinct_keys(after));
                    assert forall|q: Seq<char>| has_key(after, q) == has_key(before, q) by {
                        if has_key(before, q) {
                            let j = index_of(before, q);
                            assert(after[j].0@ == q);
                        }
                        if has_key(after, q) {
                            let j = index_of(after, q);
                            assert(before[j].0@ == q);
                        }
                    }
                    assert forall|q: Seq<char>| has_key(after, q) implies #[trigger] map_of_entries(
                        after,
                    )[q] == map_of_entries(before).insert(k, value@)[q] by {
                        let j = index_of(after, q);
                        let j0 = index_of(before, q);
                        assert(before[j].0@ == q);
                        assert(j == j0);
                    }
                    assert(map_of_entries(after) =~= map_of_entries(before).insert(k, value@));
                    assert(index_of(before, k) == i);
                }
                std::mem::swap(&mut self.entries, &mut entries);
                Some(v)
            },
            None => {
                let ghost k = key@;
                entries.push((key, value));
                proof {
                    let after = entries@;
                    assert(forall|j: int| 0 <= j < before.len() ==> after[j] == before[j]);
                    assert(after[before.len() as int].0@ == k);
                    assert(distinct_keys(after)) by {
                        assert forall|a: int, b: int|
                            0 <= a < after.len() && 0 <= b < after.len() && a != b implies (
                        #[trigger] after[a]).0@ != (#[trigger] after[b]).0@ by {
                            if a < before.len() {
                                assert(before[a].0@ == after[a].0@);
                            }
                            if b < before.len() {
                                assert(before[b].0@ == after[b].0@);
                            }
                        }
                    }
                    assert forall|q: Seq<char>| has_key(after, q) == (has_key(before, q) || q
                        == k) by {
                        if has_key(before, q) {
                            let j = index_of(before, q);
                            assert(after[j].0@ == q);
                        }
                        if has_key(after, q) {
                            let j = index_of(after, q);
                            if j < before.len() {
                                assert(before[j].0@ == q);
                            }
                        }
                    }
                    assert forall|q: Seq<char>| has_key(after, q) implies #[trigger] map_of_entries(
                        after,
                    )[q] == map_of_entries(before).insert(k, value@)[q] by {
                        let j = index_of(after, q);
                        if q != k {
                            let j0 = index_of(before, q);
                            assert(after[j0].0@ == q);
                            assert(j == j0);
                        } else {
                            assert(j == before.len());
                        }
                    }
                    assert(map_of_entries(after) =~= map_of_entries(before).insert(k, value@));
                }
                std::mem::swap(&mut self.entries, &mut entries);
                None
            },
        }
    }

    /// Takes the key out of the map, and returns the value that it had.
    pub fn remove(&mut self, key: &str) -> (previous: Option<InfoValue>)
        ensures
            final(self)@ == old(self)@.remove(key@),
            match previous {
                Some(v) => old(self)@.contains_key(key@) && old(self)@[key@] == v@,
                None => !old(self)@.contains_key(key@),
            },
    {
        proof {
            use_type_invariant(&*self);
        }
        let ghost before = self.entries@;
        let ghost k = key@;
        let key = key.to_owned();
        match self.position(&key) {
            Some(i) => {
                let mut entries: Vec<(String, InfoValue)> = Vec::new();
                std::mem::swap(&mut self.entries, &mut entries);
                let (_, v) = entries.remove(i);
                proof {
                    let after = entries@;
                    assert(after =~= before.remove(i as int));
                    assert forall|j: int| 0 <= j < after.len() implies #[trigger] after[j] == before[if j
                        < i {
                        j
                    } else {
                        j + 1
                    }] by {}
                    assert(distinct_keys(after)) by {
                        assert forall|a: int, b: int|
                            0 <= a < after.len() && 0 <= b < after.len() && a != b implies (
                        #[trigger] after[a]).0@ != (#[trigger] after[b]).0@ by {
                            let a0 = if a < i { a } else { a + 1 };
                            let b0 = if b < i { b } else { b + 1 };
                            assert(after[a] == before[a0]);
                            assert(after[b] == before[b0]);
                        }
                    }
                    assert(index_of(before, k) == i);
                    assert forall|q: Seq<char>| has_key(after, q) == (has_key(before, q) && q
                        != k) by {
                        if has_key(before, q) && q != k {
                            let j = index_of(before, q);
                            let j1 = if j < i { j } else { j - 1 };
                            assert(after[j1] == before[j]);
                            assert(after[j1].0@ == q);
                        }
                        if has_key(after, q) {
                            let j = index_of(after, q);
                            let j0 = if j < i { j } else { j + 1 };
                            assert(after[j] == before[j0]);
                            assert(before[j0].0@ == q);
                        }
                    }
                    assert forall|q: Seq<char>| has_key(after, q) implies #[trigger] map_of_entries(
                        after,
                    )[q] == map_of_entries(before)[q] by {
                        let j = index_of(after, q);
                        let j0 = if j < i { j } else { j + 1 };
                        assert(after[j] == before[j0]);
                        assert(before[j0].0@ == q);
                        assert(index_of(before, q) == j0);
                    }
                    assert(map_of_entries(after) =~= map_of_entries(before).remove(k));
                }
                std::mem::swap(&mut self.entries, &mut entries);
                Some(v)
            },
            None => {
                assert(self@ =~= old(self)@.remove(k));
                None
            },
        }
    }
}

/// Builds the map from the records of the engine's answer, read in their
/// order.
pub fn build_info_map(records: Vec<(String, InfoValue)>) -> (map: InfoMap)
    ensures
        map@ == map_of_records(records@),
{
    let ghost all = records@;
    let mut records = records;
    let n = records.len();
    let mut reversed: Vec<(String, InfoValue)> = Vec::new();
    while records.len() > 0
        invariant
            n == all.len(),
            records.len() + reversed.len() == n,
            forall|j: int| 0 <= j < reversed.len() ==> #[trigger] reversed[j] == all[n - 1 - j],
            forall|j: int| 0 <= j < records.len() ==> #[trigger] records[j] == all[j],
        decreases records.len(),
    {
        let r = records.pop().unwrap();
        reversed.push(r);
    }
    let mut map = InfoMap::new();
    while reversed.len() > 0
        invariant
            n == all.len(),
            reversed.len() <= n,
            forall|j: int| 0 <= j < reversed.len() ==> #[trigger] reversed[j] == all[n - 1 - j],
            map@ == map_of_records(all.take(n - reversed.len())),
        decreases reversed.len(),
    {
        let ghost i = n - reversed.len();
        let (key, value) = reversed.pop().unwrap();
        proof {
            assert(all.take(i + 1).drop_last() =~= all.take(i));
            assert(all.take(i + 1).last() == all[i]);
        }
        map.insert(key, value);
    }
    assert(all.take(n as int) =~= all);
    map
}

/// Prepares the call that asks the engine about the database `filename`:
/// the name as the engine is given it, if it holds no NUL byte.
pub fn info(filename: &str) -> (r: RrdResult<String>)
    ensures
        has_nul(filename@) ==> (r matches Err(e) && e@ matches RrdErrorView::NulError(n)
            && is_first_nul(filename@, n.position as int)),
        !has_nul(filename@) ==> (r matches Ok(name) && name@ == filename@),
{
    nul_free_copy(filename)
}

} // verus!
