//! Texts in the form that the engine takes them: paths as text, texts
//! without NUL bytes, and arrays of strings with their pointer tables.
use vstd::prelude::*;
use vstd::utf8::{
    decode_utf8, encode_utf8, is_ascii_chars, is_ascii_chars_encode_utf8, valid_utf8,
};
use crate::error::{NulError, RrdError, RrdErrorView, RrdResult};

verus! {

/// `std::path::PathBuf`: a path as the operating system holds it, which need
/// not be text.
#[verifier::external_type_specification]
#[verifier::external_body]
pub struct ExPathBuf(std::path::PathBuf);

/// The bytes of a path, as std holds them in a `PathBuf`: in an encoding
/// that is UTF-8 wherever the path is text.
pub uninterp spec fn path_bytes(path: std::path::PathBuf) -> Seq<u8>;

/// `Path::to_str` on the path.  It yields the text of a path that is valid
/// Unicode, which is one whose bytes are valid UTF-8, and `None` for any
/// other path.
#[verifier::external_body]
fn path_text(path: &std::path::PathBuf) -> (r: Option<&str>)
    ensures
        match r {
            Some(s) => valid_utf8(path_bytes(*path)) && s@ == decode_utf8(path_bytes(*path)),
            None => !valid_utf8(path_bytes(*path)),
        },
{
    path.to_str()
}

/// The text of a path, or the error for a path that is not text.
pub fn text_or_encoding_error(text: Option<&str>) -> (r: RrdResult<&str>)
    ensures
        match text {
            Some(t) => r matches Ok(s) && s@ == t@,
            None => r matches Err(e) && e@ == RrdErrorView::PathEncodingError,
        },
{
    match text {
        Some(t) => Ok(t),
        None => Err(RrdError::PathEncodingError),
    }
}

/// Converts a path to text: the text that the bytes of the path encode, if
/// they are valid UTF-8.  Any other path gives
/// [`RrdError::PathEncodingError`].
pub fn path_to_str(path: &std::path::PathBuf) -> (r: RrdResult<&str>)
    ensures
        valid_utf8(path_bytes(*path)) ==> (r matches Ok(s) && s@ == decode_utf8(
            path_bytes(*path),
        )),
        !valid_utf8(path_bytes(*path)) ==> (r matches Err(e) && e@
            == RrdErrorView::PathEncodingError),
{
    text_or_encoding_error(path_text(path))
}

/// The bytes of the text hold a NUL.
pub open spec fn has_nul(t: Seq<char>) -> bool {
    exists|i: int| 0 <= i < encode_utf8(t).len() && #[trigger] encode_utf8(t)[i] == 0u8
}

/// `p` is the index of the first NUL among the bytes of the text.
pub open spec fn is_first_nul(t: Seq<char>, p: int) -> bool {
    &&& 0 <= p < encode_utf8(t).len()
    &&& encode_utf8(t)[p] == 0u8
    &&& forall|j: int| 0 <= j < p ==> #[trigger] encode_utf8(t)[j] != 0u8
}

/// No text of the list holds a NUL.
pub open spec fn all_nul_free(texts: Seq<Seq<char>>) -> bool {
    forall|i: int| 0 <= i < texts.len() ==> !has_nul(#[trigger] texts[i])
}

/// `texts[i]` is the first text of the list that holds a NUL, and `p` the
/// index of its first NUL.
pub open spec fn is_first_nul_in(texts: Seq<Seq<char>>, i: int, p: int) -> bool {
    &&& 0 <= i < texts.len()
    &&& is_first_nul(texts[i], p)
    &&& all_nul_free(texts.take(i))
}

/// What checking a list of texts for NUL bytes gives: nothing if none has
/// one, else the error for the first NUL of the first text that has one.
pub open spec fn nul_check(texts: Seq<Seq<char>>, r: Option<NulError>) -> bool {
    if r is Some {
        exists|i: int| #[trigger] is_first_nul_in(texts, i, r->0.position as int)
    } else {
        all_nul_free(texts)
    }
}

/// A plain text: each character is an ASCII character other than NUL.
pub open spec fn is_plain(t: Seq<char>) -> bool {
    forall|i: int| 0 <= i < t.len() ==> '\u{1}' <= #[trigger] t[i] <= '\u{7f}'
}

/// A plain text holds no NUL byte.
pub proof fn lemma_plain_is_nul_free(t: Seq<char>)
    requires
        is_plain(t),
    ensures
        !has_nul(t),
{
    assert(is_ascii_chars(t));
    is_ascii_chars_encode_utf8(t);
    assert forall|i: int| 0 <= i < encode_utf8(t).len() implies #[trigger] encode_utf8(t)[i]
        != 0u8 by {
        assert(t[i] as u8 == encode_utf8(t)[i]);
    }
}

/// Two plain texts make a plain text.
pub proof fn lemma_plain_concat(a: Seq<char>, b: Seq<char>)
    requires
        is_plain(a),
        is_plain(b),
    ensures
        is_plain(a + b),
{
    assert forall|i: int| 0 <= i < (a + b).len() implies '\u{1}' <= #[trigger] (a + b)[i]
        <= '\u{7f}' by {
        if i < a.len() {
            assert((a + b)[i] == a[i]);
        } else {
            assert((a + b)[i] == b[i - a.len()]);
        }
    }
}

/// If the check finds a NUL, the list is not free of them.
pub proof fn lemma_nul_found(texts: Seq<Seq<char>>, e: NulError)
    requires
        nul_check(texts, Some(e)),
    ensures
        !all_nul_free(texts),
{
    let r = Some(e);
    let i = choose|i: int| #[trigger] is_first_nul_in(texts, i, r->0.position as int);
    assert(is_first_nul_in(texts, i, e.position as int));
    assert(encode_utf8(texts[i])[e.position as int] == 0u8);
    assert(has_nul(texts[i]));
}

/// The pointer table for `k` strings: entry `i` points to string `i`, and a
/// null-terminated table ends with one null pointer, written `None`.
pub open spec fn pointer_table(k: nat, null_terminated: bool) -> Seq<Option<usize>> {
    let pointers = Seq::new(k, |i: int| Some(i as usize));
    if null_terminated {
        pointers.push(None)
    } else {
        pointers
    }
}

/// The texts of a list of string slices.
pub open spec fn str_texts(texts: Seq<&str>) -> Seq<Seq<char>> {
    Seq::new(texts.len(), |i: int| texts[i]@)
}

/// Copies of the string slices, as strings of their own.
pub fn owned_strings(texts: &[&str]) -> (r: Vec<String>)
    ensures
        r.deep_view() == str_texts(texts@),
{
    let n = texts.len();
    let mut out: Vec<String> = Vec::new();
    let mut i: usize = 0;
    while i < n
        invariant
            i <= n,
            n == texts@.len(),
            out.len() == i,
            forall|k: int| 0 <= k < i ==> (#[trigger] out[k])@ == texts@[k]@,
        decreases n - i,
    {
        out.push(texts[i].to_owned());
        i += 1;
    }
    assert(out.deep_view() =~= str_texts(texts@));
    out
}

/// Looks for the first NUL byte of a text.
pub fn find_nul(s: &str) -> (r: Option<usize>)
    ensures
        match r {
            Some(p) => is_first_nul(s@, p as int),
            None => !has_nul(s@),
        },
{
    let b = s.as_bytes();
    let n = b.len();
    let mut i: usize = 0;
    while i < n
        invariant
            i <= n,
            n == b@.len(),
            b@ == encode_utf8(s@),
            forall|j: int| 0 <= j < i ==> #[trigger] b@[j] != 0u8,
        decreases n - i,
    {
        if b[i] == 0 {
            return Some(i);
        }
        i += 1;
    }
    None
}

/// A copy of the text, if it holds no NUL byte.
pub fn nul_free_copy(s: &str) -> (r: RrdResult<String>)
    ensures
        r is Ok <==> !has_nul(s@),
        match r {
            Ok(t) => t@ == s@,
            Err(e) => e@ matches RrdErrorView::NulError(n) && is_first_nul(s@, n.position as int),
        },
{
    match find_nul(s) {
        Some(p) => {
            assert(encode_utf8(s@)[p as int] == 0u8);
            Err(RrdError::NulError(NulError { position: p }))
        },
        None => Ok(s.to_owned()),
    }
}

/// Checks that no string of the list holds a NUL byte.
pub fn check_nul_free(strings: &Vec<String>) -> (r: Option<NulError>)
    ensures
        nul_check(strings.deep_view(), r),
{
    let n = strings.len();
    let mut i: usize = 0;
    while i < n
        invariant
            i <= n,
            n == strings.len(),
            all_nul_free(strings.deep_view().take(i as int)),
        decreases n - i,
    {
        match find_nul(strings[i].as_str()) {
            Some(p) => {
                assert(strings.deep_view()[i as int] == strings[i as int]@);
                let r = Some(NulError { position: p });
                assert(is_first_nul_in(strings.deep_view(), i as int, r->0.position as int));
                return r;
            },
            None => {},
        }
        assert forall|j: int| 0 <= j < i + 1 implies !has_nul(
            #[trigger] strings.deep_view().take(i + 1)[j],
        ) by {
            if j < i {
                assert(strings.deep_view().take(i as int)[j] == strings.deep_view().take(i + 1)[j]);
            } else {
                assert(strings.deep_view().take(i + 1)[j] == strings[i as int]@);
            }
        }
        i += 1;
    }
    assert(strings.deep_view().take(n as int) =~= strings.deep_view());
    None
}

/// An array of strings as the engine takes it: the strings, each free of NUL
/// bytes, and a table of pointers to them.
///
/// A pointer is written as the index of the string it points to, and the null
/// pointer as `None`.  Whoever calls the engine turns the table into
/// addresses, and keeps the strings alive until the engine has returned.
#[derive(Debug)]
pub struct MaybeNullTerminatedArrayOfStrings<const IS_NULL_TERMINATED: bool> {
    strings: Vec<String>,
    pointers: Vec<Option<usize>>,
}

/// An array of pointers to strings, for calls that also take a length.
pub type ArrayOfStrings = MaybeNullTerminatedArrayOfStrings<false>;

/// An array of pointers to strings that ends with a null pointer, for calls
/// that take no length.
pub type NullTerminatedArrayOfStrings = MaybeNullTerminatedArrayOfStrings<true>;

impl<const IS_NULL_TERMINATED: bool> View for MaybeNullTerminatedArrayOfStrings<
    IS_NULL_TERMINATED,
> {
    type V = Seq<Seq<char>>;

    closed spec fn view(&self) -> Seq<Seq<char>> {
        self.strings.deep_view()
    }
}

impl<const IS_NULL_TERMINATED: bool> MaybeNullTerminatedArrayOfStrings<IS_NULL_TERMINATED> {
    #[verifier::type_invariant]
    spec fn well_formed(&self) -> bool {
        &&& all_nul_free(self.strings.deep_view())
        &&& self.pointers@ == pointer_table(self.strings.len() as nat, IS_NULL_TERMINATED)
    }

    /// Takes the strings if none of them holds a NUL byte.
    pub fn new(strings: Vec<String>) -> (r: RrdResult<Self>)
        ensures
            r is Ok <==> all_nul_free(strings.deep_view()),
            match r {
                Ok(a) => a@ == strings.deep_view() && all_nul_free(strings.deep_view()),
                Err(e) => e@ matches RrdErrorView::NulError(n) && nul_check(
                    strings.deep_view(),
                    Some(n),
                ),
            },
    {
        match check_nul_free(&strings) {
            Some(e) => {
                proof {
                    lemma_nul_found(strings.deep_view(), e);
                }
                Err(RrdError::NulError(e))
            },
            None => Ok(Self::from_nul_free(strings)),
        }
    }

    /// Takes strings of which none holds a NUL byte.
    pub fn from_nul_free(strings: Vec<String>) -> (a: Self)
        requires
            all_nul_free(strings.deep_view()),
        ensures
            a@ == strings.deep_view(),
    {
        let n = strings.len();
        let mut pointers: Vec<Option<usize>> = Vec::new();
        let mut i: usize = 0;
        while i < n
            invariant
                i <= n,
                pointers@ == pointer_table(i as nat, false),
            decreases n - i,
        {
            pointers.push(Some(i));
            assert(pointers@ =~= pointer_table((i + 1) as nat, false));
            i += 1;
        }
        if IS_NULL_TERMINATED {
            pointers.push(None);
        }
        MaybeNullTerminatedArrayOfStrings { strings, pointers }
    }

    /// The pointer table to hand to the engine, or `None` for the null
    /// pointer, which an empty array gives whether it is null-terminated or
    /// not.
    pub fn as_ptr(&self) -> (r: Option<&Vec<Option<usize>>>)
        ensures
            self@.len() == 0 ==> r is None,
            self@.len() > 0 ==> (r matches Some(p) && p@ == pointer_table(
                self@.len(),
                IS_NULL_TERMINATED,
            )),
    {
        proof {
            use_type_invariant(self);
        }
        if self.is_empty() {
            None
        } else {
            Some(&self.pointers)
        }
    }

    /// The number of strings.
    pub fn len(&self) -> (n: usize)
        ensures
            n == self@.len(),
    {
        self.strings.len()
    }

    /// Whether there is no string.
    pub fn is_empty(&self) -> (b: bool)
        ensures
            b == (self@.len() == 0),
    {
        self.strings.len() == 0
    }

    /// The strings, none of which holds a NUL byte.
    pub fn strings(&self) -> (s: &Vec<String>)
        ensures
            s.deep_view() == self@,
            all_nul_free(self@),
    {
        proof {
            use_type_invariant(self);
        }
        &self.strings
    }
}

/// A table for `k` strings has `k` pointers that are not null, and, if it is
/// null-terminated, exactly one null pointer after them.
pub proof fn lemma_pointer_table(k: nat, null_terminated: bool)
    requires
        k <= usize::MAX,
    ensures
        pointer_table(k, null_terminated).len() == k + (if null_terminated {
            1nat
        } else {
            0nat
        }),
        forall|i: int| 0 <= i < k ==> #[trigger] pointer_table(k, null_terminated)[i] == Some(i as usize),
        null_terminated ==> pointer_table(k, null_terminated)[k as int] is None,
{
}

} // verus!
