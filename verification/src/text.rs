//! Building blocks for command text: decimal and hexadecimal numerals, and
//! token lists.
use itertools::Itertools;
use vstd::prelude::*;
use vstd::string::is_ascii_spec_bytes;
use vstd::utf8::is_ascii_chars;

verus! {

/// `String::push` appends the one character to the end of the string.
pub assume_specification[ std::string::String::push ](s: &mut std::string::String, c: char)
    ensures
        final(s)@ == old(s)@.push(c),
;

/// Concatenation of sequences is associative.
pub proof fn lemma_concat_assoc<A>(a: Seq<A>, b: Seq<A>, c: Seq<A>)
    ensures
        (a + b) + c == a + (b + c),
{
    assert((a + b) + c =~= a + (b + c));
}

/// Appending nothing leaves a list as it is.
pub proof fn lemma_concat_nothing<A>(a: Seq<A>)
    ensures
        a + Seq::<A>::empty() == a,
{
    assert(a + Seq::<A>::empty() =~= a);
}

/// Appending three pieces one after the other appends the three pieces
/// joined.
pub proof fn lemma_concat3<A>(a: Seq<A>, b: Seq<A>, c: Seq<A>, d: Seq<A>)
    ensures
        a + b + c + d == a + (b + c + d),
{
    lemma_concat_assoc(a, b, c);
    lemma_concat_assoc(a, b + c, d);
}

/// Appending four pieces one after the other appends the four pieces joined.
pub proof fn lemma_concat4<A>(a: Seq<A>, b: Seq<A>, c: Seq<A>, d: Seq<A>, e: Seq<A>)
    ensures
        a + b + c + d + e == a + (b + c + d + e),
{
    lemma_concat3(a, b, c, d);
    lemma_concat_assoc(a, b + c + d, e);
}

/// Appending five pieces one after the other appends the five pieces joined.
pub proof fn lemma_concat5<A>(
    a: Seq<A>,
    b: Seq<A>,
    c: Seq<A>,
    d: Seq<A>,
    e: Seq<A>,
    f: Seq<A>,
)
    ensures
        a + b + c + d + e + f == a + (b + c + d + e + f),
{
    lemma_concat4(a, b, c, d, e);
    lemma_concat_assoc(a, b + c + d + e, f);
}

/// Appending six pieces one after the other appends the six pieces joined.
pub proof fn lemma_concat6<A>(
    a: Seq<A>,
    b: Seq<A>,
    c: Seq<A>,
    d: Seq<A>,
    e: Seq<A>,
    f: Seq<A>,
    g: Seq<A>,
)
    ensures
        a + b + c + d + e + f + g == a + (b + c + d + e + f + g),
{
    lemma_concat5(a, b, c, d, e, f);
    lemma_concat_assoc(a, b + c + d + e + f, g);
}

/// The bytes of an ASCII text: one for each character.
pub(crate) fn ascii_bytes(s: &str) -> (b: &[u8])
    requires
        is_ascii_chars(s@),
    ensures
        b@.len() == s@.len(),
        forall|i: int| 0 <= i < s@.len() ==> b@[i] == #[trigger] s@[i] as u8,
{
    broadcast use is_ascii_spec_bytes;

    let b = s.as_bytes();
    assert(vstd::string::is_ascii(s));
    b
}

/// The character for one decimal digit.
pub open spec fn digit_char(d: int) -> char
    recommends
        0 <= d < 10,
{
    ((48 + d) as u8) as char
}

/// The decimal numeral of a natural number, without leading zeros.
pub open spec fn decimal(n: nat) -> Seq<char>
    decreases n,
{
    if n < 10 {
        seq![digit_char(n as int)]
    } else {
        decimal(n / 10).push(digit_char((n % 10) as int))
    }
}

/// The decimal numeral of an integer: a minus sign before a negative one.
pub open spec fn signed_decimal(i: int) -> Seq<char> {
    if i < 0 {
        seq!['-'] + decimal((-i) as nat)
    } else {
        decimal(i as nat)
    }
}

/// Appends the decimal numeral of `n`.
pub(crate) fn push_decimal(s: &mut String, n: u64)
    ensures
        final(s)@ == old(s)@ + decimal(n as nat),
    decreases n,
{
    if n >= 10 {
        push_decimal(s, n / 10);
    }
    let d: u8 = (n % 10) as u8;
    s.push((48u8 + d) as char);
    assert(s@ =~= old(s)@ + decimal(n as nat));
}

/// Appends the decimal numeral of `i`.
pub(crate) fn push_signed_decimal(s: &mut String, i: i64)
    ensures
        final(s)@ == old(s)@ + signed_decimal(i as int),
{
    if i < 0 {
        s.push('-');
        let m: u64 = if i == i64::MIN {
            0x8000_0000_0000_0000u64
        } else {
            (-i) as u64
        };
        push_decimal(s, m);
        assert(s@ =~= old(s)@ + signed_decimal(i as int));
    } else {
        push_decimal(s, i as u64);
    }
}

/// The character for one hexadecimal digit, in upper case.
pub open spec fn hex_digit_char(d: int) -> char
    recommends
        0 <= d < 16,
{
    if d < 10 {
        ((48 + d) as u8) as char
    } else {
        ((55 + d) as u8) as char
    }
}

/// The two hexadecimal digits of a byte, in upper case.
pub open spec fn hex_pair(b: u8) -> Seq<char> {
    seq![hex_digit_char(b as int / 16), hex_digit_char(b as int % 16)]
}

fn hex_digit(d: u8) -> (c: char)
    requires
        d < 16,
    ensures
        c == hex_digit_char(d as int),
{
    if d < 10 {
        (48u8 + d) as char
    } else {
        (55u8 + d) as char
    }
}

/// Appends the two hexadecimal digits of `b`, in upper case.
pub(crate) fn push_hex_pair(s: &mut String, b: u8)
    ensures
        final(s)@ == old(s)@ + hex_pair(b),
{
    s.push(hex_digit(b / 16));
    s.push(hex_digit(b % 16));
    assert(s@ =~= old(s)@ + hex_pair(b));
}

/// The decimal numeral of `n` as a string of its own.
pub(crate) fn decimal_string(n: u64) -> (s: String)
    ensures
        s@ == decimal(n as nat),
{
    let mut s = String::new();
    push_decimal(&mut s, n);
    assert(s@ =~= decimal(n as nat));
    s
}

/// The decimal numeral of `i` as a string of its own.
pub(crate) fn signed_decimal_string(i: i64) -> (s: String)
    ensures
        s@ == signed_decimal(i as int),
{
    let mut s = String::new();
    push_signed_decimal(&mut s, i);
    assert(s@ =~= signed_decimal(i as int));
    s
}

/// The one token `name` if `on` is set, else nothing.
pub open spec fn flag(on: bool, name: Seq<char>) -> Seq<Seq<char>> {
    if on {
        seq![name]
    } else {
        seq![]
    }
}

/// The two tokens `name` and `value`, if there is a value.
pub open spec fn option(name: Seq<char>, value: Option<Seq<char>>) -> Seq<Seq<char>> {
    match value {
        Some(v) => seq![name, v],
        None => seq![],
    }
}

/// The decimal numeral of a count, if there is one.
pub open spec fn count_text(v: Option<u32>) -> Option<Seq<char>> {
    match v {
        Some(n) => Some(decimal(n as nat)),
        None => None,
    }
}

/// The text of a string, if there is one.
pub open spec fn string_text(v: Option<String>) -> Option<Seq<char>> {
    match v {
        Some(s) => Some(s@),
        None => None,
    }
}

/// Appends one token.
pub(crate) fn push_token(args: &mut Vec<String>, token: String)
    ensures
        final(args).deep_view() == old(args).deep_view() + seq![token@],
{
    args.push(token);
    assert(args.deep_view() =~= old(args).deep_view() + seq![token@]);
}

/// Appends a fixed word as one token.
pub(crate) fn push_word(args: &mut Vec<String>, word: &str)
    ensures
        final(args).deep_view() == old(args).deep_view() + seq![word@],
{
    push_token(args, String::from_str(word));
}

/// Appends `name` when `on` is set.
pub(crate) fn push_flag(args: &mut Vec<String>, on: bool, name: &str)
    ensures
        final(args).deep_view() == old(args).deep_view() + flag(on, name@),
{
    if on {
        push_word(args, name);
    } else {
        assert(args.deep_view() =~= old(args).deep_view() + flag(on, name@));
    }
}

/// Appends `name` and then `value`.
pub(crate) fn push_pair(args: &mut Vec<String>, name: &str, value: String)
    ensures
        final(args).deep_view() == old(args).deep_view() + seq![name@, value@],
{
    push_word(args, name);
    push_token(args, value);
    assert(args.deep_view() =~= old(args).deep_view() + seq![name@, value@]);
}

/// Appends `name` and the numeral of the count, if there is a count.
pub(crate) fn push_count_option(args: &mut Vec<String>, name: &str, value: Option<u32>)
    ensures
        final(args).deep_view() == old(args).deep_view() + option(name@, count_text(value)),
{
    match value {
        Some(n) => {
            push_pair(args, name, decimal_string(n as u64));
        },
        None => {
            assert(args.deep_view() =~= old(args).deep_view() + option(name@, count_text(value)));
        },
    }
}

/// Appends `name` and the text, if there is a text.
pub(crate) fn push_text_option(args: &mut Vec<String>, name: &str, value: Option<String>)
    ensures
        final(args).deep_view() == old(args).deep_view() + option(name@, string_text(value)),
{
    match value {
        Some(s) => {
            push_pair(args, name, s);
        },
        None => {
            assert(args.deep_view() =~= old(args).deep_view() + option(
                name@,
                string_text(value),
            ));
        },
    }
}

/// Appends `name` and a copy of the string, if there is a string.
pub(crate) fn push_string_option(args: &mut Vec<String>, name: &str, value: &Option<String>)
    ensures
        final(args).deep_view() == old(args).deep_view() + option(name@, string_text(*value)),
{
    match value {
        Some(s) => {
            push_pair(args, name, s.clone());
        },
        None => {
            assert(args.deep_view() =~= old(args).deep_view() + option(
                name@,
                string_text(*value),
            ));
        },
    }
}

/// The text `prefix` followed by `value`, if there is a value, else nothing.
pub open spec fn suffix(prefix: Seq<char>, value: Option<Seq<char>>) -> Seq<char> {
    match value {
        Some(v) => prefix + v,
        None => seq![],
    }
}

/// The text `word` if `on` is set, else nothing.
pub open spec fn word_if(on: bool, word: Seq<char>) -> Seq<char> {
    if on {
        word
    } else {
        seq![]
    }
}

/// The text of a string slice, if there is one.
pub open spec fn str_text(v: Option<&str>) -> Option<Seq<char>> {
    match v {
        Some(s) => Some(s@),
        None => None,
    }
}

/// Appends `prefix` and then `value`, if there is a value.
pub(crate) fn push_suffix(s: &mut String, prefix: &str, value: Option<&str>)
    ensures
        final(s)@ == old(s)@ + suffix(prefix@, str_text(value)),
{
    match value {
        Some(v) => {
            s.append(prefix);
            s.append(v);
            proof {
                lemma_concat_assoc(old(s)@, prefix@, v@);
            }
        },
        None => {
            assert(s@ =~= old(s)@ + suffix(prefix@, str_text(value)));
        },
    }
}

/// Appends `word` when `on` is set.
pub(crate) fn push_word_if(s: &mut String, on: bool, word: &str)
    ensures
        final(s)@ == old(s)@ + word_if(on, word@),
{
    if on {
        s.append(word);
    } else {
        assert(s@ =~= old(s)@ + word_if(on, word@));
    }
}

/// The texts in their order, with `sep` between each two neighbours.
pub open spec fn joined(items: Seq<Seq<char>>, sep: Seq<char>) -> Seq<char>
    decreases items.len(),
{
    if items.len() == 0 {
        seq![]
    } else if items.len() == 1 {
        items[0]
    } else {
        joined(items.drop_last(), sep) + sep + items.last()
    }
}

/// `Itertools::join` on the strings of a vector: it writes the first string,
/// and then for each further string the separator and the string, all into
/// one new string.
#[verifier::external_body]
pub(crate) fn join(items: &Vec<String>, sep: &str) -> (s: String)
    ensures
        s@ == joined(items.deep_view(), sep@),
{
    items.iter().join(sep)
}

/// A decimal numeral has only digits.
pub proof fn lemma_decimal_digits(n: nat)
    ensures
        decimal(n).len() > 0,
        forall|i: int| 0 <= i < decimal(n).len() ==> '0' <= #[trigger] decimal(n)[i] <= '9',
    decreases n,
{
    if n >= 10 {
        lemma_decimal_digits(n / 10);
    }
}

} // verus!
