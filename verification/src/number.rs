//! Numerals for values that are not whole numbers.
//!
//! The engine reads every number as text.  A [`Number`] holds the numeral
//! itself: `NaN`, `inf`, `-inf`, or a decimal numeral with an optional minus
//! sign and an optional fraction.  What the library decides about a number
//! (whether it lies in a range) it decides from the numeral, exactly.
use vstd::prelude::*;
use vstd::utf8::is_ascii_chars;
use crate::error::InvalidArgument;
use crate::text::{ascii_bytes, option, push_pair};

verus! {

/// A decimal digit.
pub open spec fn is_digit(c: char) -> bool {
    '0' <= c <= '9'
}

/// An unsigned decimal numeral: digits, with at most one point, which stands
/// between two digits.
pub open spec fn is_decimal(t: Seq<char>) -> bool {
    &&& t.len() > 0
    &&& is_digit(t[0])
    &&& is_digit(t[t.len() - 1])
    &&& forall|i: int| 0 <= i < t.len() ==> is_digit(#[trigger] t[i]) || t[i] == '.'
    &&& forall|i: int, j: int|
        0 <= i < j < t.len() ==> !(#[trigger] t[i] == '.' && #[trigger] t[j] == '.')
}

/// The numeral of infinity.
pub open spec fn inf_text() -> Seq<char> {
    seq!['i', 'n', 'f']
}

/// The numeral of a value that is not a number.
pub open spec fn nan_text() -> Seq<char> {
    seq!['N', 'a', 'N']
}

/// A numeral without a sign.
pub open spec fn is_magnitude(t: Seq<char>) -> bool {
    t == inf_text() || is_decimal(t)
}

/// The texts that a [`Number`] can hold.
pub open spec fn is_numeral(t: Seq<char>) -> bool {
    ||| t == nan_text()
    ||| is_magnitude(t)
    ||| (t.len() > 0 && t[0] == '-' && is_magnitude(t.skip(1)))
}

/// Position `i` of a decimal numeral lies before its point.
pub open spec fn before_point(t: Seq<char>, i: int) -> bool {
    forall|j: int| 0 <= j <= i ==> #[trigger] t[j] != '.'
}

/// Every digit before the point is zero: the numeral denotes less than one.
pub open spec fn integer_part_is_zero(t: Seq<char>) -> bool {
    forall|i: int| 0 <= i < t.len() && #[trigger] before_point(t, i) ==> t[i] == '0'
}

/// Every digit is zero: the numeral denotes zero.
pub open spec fn denotes_zero(t: Seq<char>) -> bool {
    forall|i: int| 0 <= i < t.len() ==> #[trigger] t[i] == '0' || t[i] == '.'
}

/// The numeral denotes a number that is at least zero and less than one.
/// Minus zero counts as zero.
pub open spec fn denotes_unit_fraction(t: Seq<char>) -> bool {
    if t.len() > 0 && t[0] == '-' {
        is_decimal(t.skip(1)) && denotes_zero(t.skip(1))
    } else {
        is_decimal(t) && integer_part_is_zero(t)
    }
}

/// The numeral denotes a number greater than zero; infinity is one.
pub open spec fn denotes_positive(t: Seq<char>) -> bool {
    t == inf_text() || (is_decimal(t) && !denotes_zero(t))
}

/// The number that a string of digits denotes.
pub open spec fn digits_value(t: Seq<char>) -> nat
    decreases t.len(),
{
    if t.len() == 0 {
        0
    } else {
        digits_value(t.drop_last()) * 10 + (t.last() as nat - 48) as nat
    }
}

/// Ten to the power of `k`.
pub open spec fn power_of_ten(k: nat) -> nat
    decreases k,
{
    if k == 0 {
        1
    } else {
        10 * power_of_ten((k - 1) as nat)
    }
}

/// Every character of the text is a digit.
pub open spec fn all_digits(t: Seq<char>) -> bool {
    forall|i: int| 0 <= i < t.len() ==> is_digit(#[trigger] t[i])
}

/// The index of the point of a decimal numeral, or the length of the numeral
/// if it has no point.
pub open spec fn point_index(t: Seq<char>) -> int {
    if exists|i: int| 0 <= i < t.len() && #[trigger] t[i] == '.' {
        choose|i: int| 0 <= i < t.len() && #[trigger] t[i] == '.'
    } else {
        t.len() as int
    }
}

/// The digits of a decimal numeral before its point.
pub open spec fn whole_digits(t: Seq<char>) -> Seq<char> {
    t.take(point_index(t))
}

/// The digits of a decimal numeral after its point.
pub open spec fn fraction_digits(t: Seq<char>) -> Seq<char> {
    if point_index(t) < t.len() {
        t.skip(point_index(t) + 1)
    } else {
        seq![]
    }
}

/// A string of digits denotes zero exactly if each digit is a zero.
pub proof fn lemma_digits_value_zero(t: Seq<char>)
    requires
        all_digits(t),
    ensures
        digits_value(t) == 0 <==> forall|i: int| 0 <= i < t.len() ==> #[trigger] t[i] == '0',
    decreases t.len(),
{
    if t.len() > 0 {
        let front = t.drop_last();
        assert forall|i: int| 0 <= i < front.len() implies is_digit(#[trigger] front[i]) by {
            assert(front[i] == t[i]);
        }
        lemma_digits_value_zero(front);
        assert(is_digit(t[t.len() - 1]));
        if digits_value(t) == 0 {
            assert forall|i: int| 0 <= i < t.len() implies #[trigger] t[i] == '0' by {
                if i < front.len() {
                    assert(front[i] == t[i]);
                }
            }
        } else {
            if forall|i: int| 0 <= i < t.len() ==> #[trigger] t[i] == '0' {
                assert(t[t.len() - 1] == '0');
                assert forall|i: int| 0 <= i < front.len() implies #[trigger] front[i] == '0' by {
                    assert(front[i] == t[i]);
                }
                assert(false);
            }
        }
    }
}

/// A string of `k` digits denotes a number below ten to the power of `k`:
/// the fraction of a decimal numeral is less than one.
pub proof fn lemma_digits_value_bound(t: Seq<char>)
    requires
        all_digits(t),
    ensures
        digits_value(t) < power_of_ten(t.len()),
    decreases t.len(),
{
    if t.len() > 0 {
        let front = t.drop_last();
        assert forall|i: int| 0 <= i < front.len() implies is_digit(#[trigger] front[i]) by {
            assert(front[i] == t[i]);
        }
        lemma_digits_value_bound(front);
        assert(is_digit(t[t.len() - 1]));
    }
}

/// A decimal numeral is made of its whole digits and, after a point, its
/// fraction digits, and all of them are digits.
pub proof fn lemma_decimal_parts(t: Seq<char>)
    requires
        is_decimal(t),
    ensures
        0 < point_index(t) <= t.len(),
        all_digits(whole_digits(t)),
        all_digits(fraction_digits(t)),
        forall|i: int| 0 <= i < t.len() ==> (before_point(t, i) <==> i < point_index(t)),
        point_index(t) < t.len() ==> t[point_index(t)] == '.',
{
    let p = point_index(t);
    if p < t.len() {
        assert(t[p] == '.');
        assert(!is_digit(t[p]));
    }
    assert forall|i: int| 0 <= i < t.len() && i != p implies #[trigger] t[i] != '.' by {
        if t[i] == '.' {
            if i < p {
                assert(!(t[i] == '.' && t[p] == '.'));
            } else {
                assert(!(t[p] == '.' && t[i] == '.'));
            }
        }
    }
    assert forall|i: int| 0 <= i < whole_digits(t).len() implies is_digit(
        #[trigger] whole_digits(t)[i],
    ) by {
        assert(whole_digits(t)[i] == t[i]);
        assert(is_digit(t[i]) || t[i] == '.');
    }
    assert forall|i: int| 0 <= i < fraction_digits(t).len() implies is_digit(
        #[trigger] fraction_digits(t)[i],
    ) by {
        assert(fraction_digits(t)[i] == t[i + p + 1]);
        assert(is_digit(t[i + p + 1]) || t[i + p + 1] == '.');
    }
    assert forall|i: int| 0 <= i < t.len() implies (before_point(t, i) <==> i < p) by {
        if i >= p {
            assert(t[p] == '.');
        }
    }
}

/// What the two predicates on decimal numerals mean for the number that the
/// numeral denotes, which is its whole digits plus its fraction digits over a
/// power of ten.  The integer part is zero exactly if the whole digits
/// denote zero: then, and only then, the number is less than one.  And the
/// numeral denotes zero exactly if both its whole digits and its fraction
/// digits do.
pub proof fn lemma_decimal_meaning(t: Seq<char>)
    requires
        is_decimal(t),
    ensures
        integer_part_is_zero(t) <==> digits_value(whole_digits(t)) == 0,
        denotes_zero(t) <==> digits_value(whole_digits(t)) == 0 && digits_value(
            fraction_digits(t),
        ) == 0,
        digits_value(fraction_digits(t)) < power_of_ten(fraction_digits(t).len()),
{
    lemma_decimal_parts(t);
    let p = point_index(t);
    let whole = whole_digits(t);
    let fraction = fraction_digits(t);
    lemma_digits_value_zero(whole);
    lemma_digits_value_zero(fraction);
    lemma_digits_value_bound(fraction);
    if integer_part_is_zero(t) {
        assert forall|i: int| 0 <= i < whole.len() implies #[trigger] whole[i] == '0' by {
            assert(whole[i] == t[i]);
            assert(before_point(t, i));
        }
    }
    if digits_value(whole) == 0 {
        assert forall|i: int| 0 <= i < t.len() && #[trigger] before_point(t, i) implies t[i]
            == '0' by {
            assert(whole[i] == t[i]);
        }
    }
    if denotes_zero(t) {
        assert forall|i: int| 0 <= i < whole.len() implies #[trigger] whole[i] == '0' by {
            assert(whole[i] == t[i]);
            assert(is_digit(whole[i]));
        }
        assert forall|i: int| 0 <= i < fraction.len() implies #[trigger] fraction[i] == '0' by {
            assert(fraction[i] == t[i + p + 1]);
            assert(is_digit(fraction[i]));
        }
    }
    if digits_value(whole) == 0 && digits_value(fraction) == 0 {
        assert forall|i: int| 0 <= i < t.len() implies #[trigger] t[i] == '0' || t[i] == '.' by {
            if i < p {
                assert(whole[i] == t[i]);
            } else if i > p {
                assert(fraction[i - p - 1] == t[i]);
            }
        }
    }
}

/// The decimal numeral of a natural number is a string of digits that
/// denotes the number.
pub proof fn lemma_decimal_denotes(n: nat)
    ensures
        all_digits(crate::text::decimal(n)),
        digits_value(crate::text::decimal(n)) == n,
    decreases n,
{
    let t = crate::text::decimal(n);
    if n < 10 {
        assert(t.drop_last() =~= Seq::<char>::empty());
        assert(digits_value(t.drop_last()) == 0);
    } else {
        lemma_decimal_denotes(n / 10);
        assert(t.drop_last() =~= crate::text::decimal(n / 10));
        assert forall|i: int| 0 <= i < t.len() implies is_digit(#[trigger] t[i]) by {
            if i < t.len() - 1 {
                assert(t[i] == crate::text::decimal(n / 10)[i]);
            }
        }
    }
}

/// A numeral has only ASCII characters.
pub proof fn lemma_numeral_is_ascii(t: Seq<char>)
    requires
        is_numeral(t),
    ensures
        is_ascii_chars(t),
{
    if t == nan_text() || t == inf_text() {
        assert(t.len() == 3);
        assert forall|i: int| 0 <= i < t.len() implies '\0' <= #[trigger] t[i] <= '\u{7f}' by {
            assert(i == 0 || i == 1 || i == 2);
        }
    } else if is_decimal(t) {
        assert forall|i: int| 0 <= i < t.len() implies '\0' <= #[trigger] t[i] <= '\u{7f}' by {
            assert(is_digit(t[i]) || t[i] == '.');
        }
    } else {
        let r = t.skip(1);
        assert(r.len() == t.len() - 1);
        if r == inf_text() {
            assert(r.len() == 3);
        }
        assert forall|i: int| 0 <= i < t.len() implies '\0' <= #[trigger] t[i] <= '\u{7f}' by {
            if i > 0 {
                assert(t[i] == r[i - 1]);
                if r == inf_text() {
                    assert(i == 1 || i == 2 || i == 3);
                } else {
                    assert(is_digit(r[i - 1]) || r[i - 1] == '.');
                }
            }
        }
    }
}

/// A numeral is plain text: ASCII characters, none of them NUL.
pub proof fn lemma_numeral_is_plain(t: Seq<char>)
    requires
        is_numeral(t),
    ensures
        crate::util::is_plain(t),
{
    if t == nan_text() || t == inf_text() {
        assert(t.len() == 3);
        assert forall|i: int| 0 <= i < t.len() implies '\u{1}' <= #[trigger] t[i] <= '\u{7f}' by {
            assert(i == 0 || i == 1 || i == 2);
        }
    } else if is_decimal(t) {
        assert forall|i: int| 0 <= i < t.len() implies '\u{1}' <= #[trigger] t[i] <= '\u{7f}' by {
            assert(is_digit(t[i]) || t[i] == '.');
        }
    } else {
        let r = t.skip(1);
        assert(r.len() == t.len() - 1);
        if r == inf_text() {
            assert(r.len() == 3);
        }
        assert forall|i: int| 0 <= i < t.len() implies '\u{1}' <= #[trigger] t[i] <= '\u{7f}' by {
            if i > 0 {
                assert(t[i] == r[i - 1]);
                if r == inf_text() {
                    assert(i == 1 || i == 2 || i == 3);
                } else {
                    assert(is_digit(r[i - 1]) || r[i - 1] == '.');
                }
            }
        }
    }
}

/// A number, held as its numeral.
#[derive(Debug, PartialEq, Eq)]
pub struct Number {
    text: String,
}

impl Clone for Number {
    fn clone(&self) -> (r: Self)
        ensures
            r@ == self@,
    {
        proof {
            use_type_invariant(self);
        }
        Number { text: self.text.clone() }
    }
}

impl View for Number {
    type V = Seq<char>;

    closed spec fn view(&self) -> Seq<char> {
        self.text@
    }
}

impl Number {
    #[verifier::type_invariant]
    spec fn well_formed(&self) -> bool {
        is_numeral(self.text@)
    }

    /// Reads a numeral.  Any other text is refused.
    pub fn parse(s: &str) -> (r: Result<Number, InvalidArgument>)
        ensures
            r is Ok <==> is_numeral(s@),
            r matches Ok(n) ==> n@ == s@,
            r matches Err(e) ==> e.0@ == "Invalid number"@,
    {
        if !s.is_ascii() {
            proof {
                if is_numeral(s@) {
                    lemma_numeral_is_ascii(s@);
                }
            }
            return Err(InvalidArgument("Invalid number"));
        }
        let b = ascii_bytes(s);
        let n = b.len();
        let ghost t = s@;
        if n == 3 && b[0] == 78 && b[1] == 97 && b[2] == 78 {
            assert(t =~= nan_text());
            return Ok(Number { text: s.to_owned() });
        }
        let start: usize = if n > 0 && b[0] == 45 { 1 } else { 0 };
        let ghost m = t.skip(start as int);
        if n - start == 3 && b[start] == 105 && b[start + 1] == 110 && b[start + 2] == 102 {
            assert(m =~= inf_text());
            assert(start == 0 ==> m =~= t);
            return Ok(Number { text: s.to_owned() });
        }
        assert(m != inf_text()) by {
            if m == inf_text() {
                assert(m.len() == 3);
                assert(m[0] == 'i' && m[1] == 'n' && m[2] == 'f');
            }
        }
        assert(t != nan_text()) by {
            if t == nan_text() {
                assert(t.len() == 3);
                assert(t[0] == 'N' && t[1] == 'a' && t[2] == 'N');
            }
        }
        assert(t != inf_text()) by {
            if t == inf_text() {
                assert(t[0] == 'i');
                assert(m =~= t);
            }
        }
        assert(start == 0 ==> m =~= t);
        assert(start == 0 ==> !(t.len() > 0 && t[0] == '-' && is_decimal(t.skip(1)))) by {
            if t.len() > 0 && t[0] == '-' {
                assert(b[0] == 45);
            }
        }
        assert(start == 1 ==> !is_decimal(t)) by {
            if start == 1 {
                assert(t[0] == '-');
            }
        }
        // From here on the text is a numeral exactly when `m` is a decimal.
        assert(is_numeral(t) <==> is_decimal(m));
        if !scan_decimal(b, start, Ghost(t)) {
            return Err(InvalidArgument("Invalid number"));
        }
        Ok(Number { text: s.to_owned() })
    }

    /// The numeral.
    pub fn as_str(&self) -> (s: &str)
        ensures
            s@ == self@,
            is_numeral(s@),
    {
        proof {
            use_type_invariant(self);
        }
        self.text.as_str()
    }

    /// Whether the number is at least zero and less than one.
    pub fn is_unit_fraction(&self) -> (b: bool)
        ensures
            b == denotes_unit_fraction(self@),
    {
        proof {
            use_type_invariant(self);
            lemma_numeral_is_ascii(self.text@);
        }
        let b = ascii_bytes(self.text.as_str());
        let n = b.len();
        let ghost t = self.text@;
        if n == 3 && b[0] == 78 {
            // `NaN`
            assert(t[0] == 'N');
            return false;
        }
        let negative = n > 0 && b[0] == 45;
        let start: usize = if negative { 1 } else { 0 };
        let ghost m = t.skip(start as int);
        assert(start == 0 ==> m =~= t);
        if n - start == 3 && b[start] == 105 {
            // `inf`
            assert(m[0] == 'i');
            return false;
        }
        assert(m != inf_text()) by {
            if m == inf_text() {
                assert(m.len() == 3);
                assert(m[0] == 'i');
            }
        }
        assert(t != nan_text()) by {
            if t == nan_text() {
                assert(t.len() == 3);
                assert(t[0] == 'N');
            }
        }
        assert(is_decimal(m));
        if negative {
            all_zero_from(b, start, Ghost(t))
        } else {
            zero_before_point(b, Ghost(t))
        }
    }

    /// Whether the number is greater than zero.
    pub fn is_positive(&self) -> (b: bool)
        ensures
            b == denotes_positive(self@),
    {
        proof {
            use_type_invariant(self);
            lemma_numeral_is_ascii(self.text@);
        }
        let b = ascii_bytes(self.text.as_str());
        let n = b.len();
        let ghost t = self.text@;
        if n == 3 && b[0] == 78 {
            assert(t[0] == 'N');
            assert(t != inf_text()) by {
                if t == inf_text() {
                    assert(t[0] == 'i');
                }
            }
            return false;
        }
        if n > 0 && b[0] == 45 {
            assert(t[0] == '-');
            assert(t != inf_text()) by {
                if t == inf_text() {
                    assert(t[0] == 'i');
                }
            }
            return false;
        }
        if n == 3 && b[0] == 105 {
            assert(t[0] == 'i');
            assert(t != nan_text()) by {
                if t == nan_text() {
                    assert(t[0] == 'N');
                }
            }
            assert(inf_text()[0] == 'i');
            assert(t == inf_text());
            return true;
        }
        assert(t != inf_text()) by {
            if t == inf_text() {
                assert(t.len() == 3);
                assert(t[0] == 'i');
            }
        }
        assert(t != nan_text()) by {
            if t == nan_text() {
                assert(t.len() == 3);
                assert(t[0] == 'N');
            }
        }
        assert(t.skip(0) =~= t);
        !all_zero_from(b, 0, Ghost(t))
    }
}

impl std::str::FromStr for Number {
    type Err = InvalidArgument;

    fn from_str(s: &str) -> (r: Result<Self, Self::Err>)
        ensures
            r is Ok <==> is_numeral(s@),
            r matches Ok(n) ==> n@ == s@,
            r matches Err(e) ==> e.0@ == "Invalid number"@,
    {
        Number::parse(s)
    }
}

/// The numeral of a number, if there is one.
pub open spec fn number_text(v: Option<Number>) -> Option<Seq<char>> {
    match v {
        Some(n) => Some(n@),
        None => None,
    }
}

/// Appends `name` and the numeral, if there is a number.
pub(crate) fn push_number_option(args: &mut Vec<String>, name: &str, value: &Option<Number>)
    ensures
        final(args).deep_view() == old(args).deep_view() + option(name@, number_text(*value)),
{
    match value {
        Some(n) => {
            push_pair(args, name, n.as_str().to_owned());
        },
        None => {
            assert(args.deep_view() =~= old(args).deep_view() + option(
                name@,
                number_text(*value),
            ));
        },
    }
}

/// Whether the bytes from `start` on are a decimal numeral.
fn scan_decimal(b: &[u8], start: usize, Ghost(t): Ghost<Seq<char>>) -> (ok: bool)
    requires
        start <= b@.len(),
        b@.len() == t.len(),
        is_ascii_chars(t),
        forall|i: int| 0 <= i < t.len() ==> b@[i] == #[trigger] t[i] as u8,
    ensures
        ok == is_decimal(t.skip(start as int)),
{
    let n = b.len();
    let ghost m = t.skip(start as int);
    if n == start {
        return false;
    }
    if !(48 <= b[start] && b[start] <= 57) {
        assert(m[0] == t[start as int]);
        return false;
    }
    if !(48 <= b[n - 1] && b[n - 1] <= 57) {
        assert(m[m.len() - 1] == t[n - 1]);
        return false;
    }
    assert(m[0] == t[start as int]);
    assert(m[m.len() - 1] == t[n - 1]);
    let mut i: usize = start;
    let mut point: Option<usize> = None;
    while i < n
        invariant
            start <= i <= n,
            n == b@.len(),
            b@.len() == t.len(),
            m == t.skip(start as int),
            is_ascii_chars(t),
            forall|k: int| 0 <= k < t.len() ==> b@[k] == #[trigger] t[k] as u8,
            forall|k: int| start <= k < i ==> is_digit(#[trigger] t[k]) || t[k] == '.',
            match point {
                Some(p) => start <= p < i && t[p as int] == '.' && forall|k: int|
                    start <= k < i && k != p ==> #[trigger] t[k] != '.',
                None => forall|k: int| start <= k < i ==> #[trigger] t[k] != '.',
            },
        decreases n - i,
    {
        let c = b[i];
        assert(c == t[i as int] as u8);
        if c == 46 {
            if point.is_some() {
                assert(m[point.unwrap() - start] == '.' && m[i - start] == '.');
                return false;
            }
            point = Some(i);
        } else if !(48 <= c && c <= 57) {
            assert(m[i - start] == t[i as int]);
            return false;
        }
        i += 1;
    }
    assert forall|k: int| 0 <= k < m.len() implies is_digit(#[trigger] m[k]) || m[k] == '.' by {
        assert(m[k] == t[k + start]);
    }
    assert forall|j: int, k: int| 0 <= j < k < m.len() implies !(#[trigger] m[j] == '.'
        && #[trigger] m[k] == '.') by {
        assert(m[j] == t[j + start]);
        assert(m[k] == t[k + start]);
    }
    true
}

/// Whether every byte from `start` on is a zero digit or a point.
fn all_zero_from(b: &[u8], start: usize, Ghost(t): Ghost<Seq<char>>) -> (ok: bool)
    requires
        start <= b@.len(),
        b@.len() == t.len(),
        is_ascii_chars(t),
        forall|i: int| 0 <= i < t.len() ==> b@[i] == #[trigger] t[i] as u8,
    ensures
        ok == denotes_zero(t.skip(start as int)),
{
    let n = b.len();
    let ghost m = t.skip(start as int);
    let mut i: usize = start;
    while i < n
        invariant
            start <= i <= n,
            n == b@.len(),
            b@.len() == t.len(),
            m == t.skip(start as int),
            is_ascii_chars(t),
            forall|k: int| 0 <= k < t.len() ==> b@[k] == #[trigger] t[k] as u8,
            forall|k: int| start <= k < i ==> #[trigger] t[k] == '0' || t[k] == '.',
        decreases n - i,
    {
        let c = b[i];
        assert(c == t[i as int] as u8);
        if c != 48 && c != 46 {
            assert(m[i - start] == t[i as int]);
            return false;
        }
        i += 1;
    }
    assert forall|k: int| 0 <= k < m.len() implies #[trigger] m[k] == '0' || m[k] == '.' by {
        assert(m[k] == t[k + start]);
    }
    true
}

/// Whether every byte before the first point is a zero digit.
fn zero_before_point(b: &[u8], Ghost(t): Ghost<Seq<char>>) -> (ok: bool)
    requires
        b@.len() == t.len(),
        is_ascii_chars(t),
        forall|i: int| 0 <= i < t.len() ==> b@[i] == #[trigger] t[i] as u8,
    ensures
        ok == integer_part_is_zero(t),
{
    let n = b.len();
    let mut i: usize = 0;
    while i < n
        invariant
            i <= n,
            n == b@.len(),
            b@.len() == t.len(),
            is_ascii_chars(t),
            forall|k: int| 0 <= k < t.len() ==> b@[k] == #[trigger] t[k] as u8,
            forall|k: int| 0 <= k < i ==> #[trigger] t[k] == '0',
        decreases n - i,
    {
        let c = b[i];
        assert(c == t[i as int] as u8);
        if c == 46 {
            assert forall|k: int| 0 <= k < t.len() && #[trigger] before_point(t, k) implies t[k]
                == '0' by {
                if k >= i {
                    assert(t[i as int] == '.');
                }
            }
            return true;
        }
        if c != 48 {
            assert(before_point(t, i as int));
            return false;
        }
        i += 1;
    }
    true
}

} // verus!
