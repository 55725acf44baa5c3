//! Character-level helpers on strings.
//!
//! Strings are handled as sequences of `char`s; these helpers move between
//! `String`/`&str` and `Vec<char>`, and give the few std operations the rest
//! of the library needs a contract.

use vstd::prelude::*;

verus! {

/// The characters of `s`, in order.
///
/// Calls `str::chars` and collects the iterator; std documents that `chars`
/// yields every `char` of the string slice in order.
#[verifier::external_body]
pub fn str_chars(s: &str) -> (v: Vec<char>)
    ensures
        v@ == s@,
{
    s.chars().collect()
}

/// A `String` made of the given characters, in order.
///
/// Collects the characters with `String`'s `FromIterator<&char>` impl, which
/// std documents as appending each character in turn.
#[verifier::external_body]
pub fn string_from_chars(v: &[char]) -> (s: String)
    ensures
        s@ == v@,
{
    v.iter().collect()
}

/// Appends one character to `s`.
///
/// Calls `String::push`, documented as appending the given `char` to the end
/// of the string.
#[verifier::external_body]
pub fn push_char(s: &mut String, c: char)
    ensures
        final(s)@ == old(s)@.push(c),
{
    s.push(c);
}

/// A fresh `String` holding the characters of `s`.
pub fn to_owned_string(s: &str) -> (r: String)
    ensures
        r@ == s@,
{
    let mut r = String::new();
    r.append(s);
    r
}

/// The concatenation `a + b`.
pub fn concat2(a: &str, b: &str) -> (r: String)
    ensures
        r@ == a@ + b@,
{
    let mut r = String::new();
    r.append(a);
    r.append(b);
    r
}

/// The concatenation `a + b + c`.
pub fn concat3(a: &str, b: &str, c: &str) -> (r: String)
    ensures
        r@ == a@ + b@ + c@,
{
    let mut r = String::new();
    r.append(a);
    r.append(b);
    r.append(c);
    r
}

/// Whether two strings hold the same characters.
pub fn str_eq(a: &str, b: &str) -> (r: bool)
    ensures
        r == (a@ == b@),
{
    let x = to_owned_string(a);
    let y = to_owned_string(b);
    x == y
}

/// Whether the character sequence `s` ends with a newline.
pub open spec fn ends_with_newline(s: Seq<char>) -> bool {
    s.len() > 0 && s.last() == '\n'
}

/// `s`, with a newline appended unless it already ends with one.
pub open spec fn spec_with_trailing_newline(s: Seq<char>) -> Seq<char> {
    if ends_with_newline(s) {
        s
    } else {
        s.push('\n')
    }
}

/// Whether `s` ends with a newline.
pub fn str_ends_with_newline(s: &str) -> (r: bool)
    ensures
        r == ends_with_newline(s@),
{
    let n = s.unicode_len();
    n > 0 && s.get_char(n - 1) == '\n'
}

/// Returns `s` with a newline appended unless it already ends with one.
pub fn with_trailing_newline(s: String) -> (r: String)
    ensures
        r@ == spec_with_trailing_newline(s@),
{
    let mut s = s;
    if !str_ends_with_newline(s.as_str()) {
        push_char(&mut s, '\n');
    }
    s
}

/// Appends `piece` to `script`, followed by a newline unless `piece` already
/// ends with one.
pub fn push_line(script: &mut String, piece: &str)
    ensures
        final(script)@ == old(script)@ + spec_with_trailing_newline(piece@),
{
    script.append(piece);
    if !str_ends_with_newline(piece) {
        push_char(script, '\n');
    }
}

/// The characters of the strings in `parts`, joined by `sep`.
pub open spec fn join_seq(parts: Seq<Seq<char>>, sep: Seq<char>) -> Seq<char>
    decreases parts.len(),
{
    if parts.len() == 0 {
        Seq::empty()
    } else if parts.len() == 1 {
        parts[0]
    } else {
        join_seq(parts.drop_last(), sep) + sep + parts.last()
    }
}

/// The views of a sequence of strings.
pub open spec fn strings_view(v: Seq<String>) -> Seq<Seq<char>> {
    v.map_values(|s: String| s@)
}

/// Joins the strings of `parts` with `sep` between each pair.
pub fn join_strings(parts: &Vec<String>, sep: &str) -> (r: String)
    ensures
        r@ == join_seq(strings_view(parts@), sep@),
{
    let mut r = String::new();
    let ghost pv = strings_view(parts@);
    let mut i: usize = 0;
    while i < parts.len()
        invariant
            i <= parts.len(),
            pv == strings_view(parts@),
            r@ == join_seq(pv.take(i as int), sep@),
        decreases parts.len() - i,
    {
        if i != 0 {
            r.append(sep);
        }
        r.append(parts[i].as_str());
        assert(pv.take(i + 1).drop_last() =~= pv.take(i as int));
        i = i + 1;
    }
    assert(pv.take(parts.len() as int) =~= pv);
    r
}

/// What `str::to_lowercase` gives for `s`: its lowercase equivalent under
/// the Unicode `Lowercase` property.
pub uninterp spec fn lowercase(s: Seq<char>) -> Seq<char>;

/// The lowercase equivalent of `s`.
///
/// Calls `str::to_lowercase`; its result is named [`lowercase`]. The one
/// further fact stated is that a text of ASCII lowercase letters alone comes
/// back unchanged: each such letter is its own lowercase mapping.
#[verifier::external_body]
pub fn to_lowercase(s: &str) -> (r: String)
    ensures
        r@ == lowercase(s@),
        (forall|i: int| 0 <= i < s@.len() ==> 'a' <= #[trigger] s@[i] <= 'z') ==> r@ == s@,
{
    s.to_lowercase()
}

/// What `str::to_uppercase` gives for `s`: its uppercase equivalent under
/// the Unicode `Uppercase` property.
pub uninterp spec fn uppercase(s: Seq<char>) -> Seq<char>;

/// The uppercase equivalent of `s`.
///
/// Calls `str::to_uppercase`; its result is named [`uppercase`] and nothing
/// more is stated of it.
#[verifier::external_body]
pub fn to_uppercase(s: &str) -> (r: String)
    ensures
        r@ == uppercase(s@),
{
    s.to_uppercase()
}

} // verus!

verus! {

/// The decimal digits of `n`, most significant first.
pub open spec fn spec_decimal(n: nat) -> Seq<char>
    decreases n,
{
    if n < 10 {
        seq![(('0' as u8) + n) as char]
    } else {
        spec_decimal(n / 10) + seq![(('0' as u8) + (n % 10)) as char]
    }
}

/// The digit character of `d`, for `d < 10`.
fn digit_char(d: usize) -> (c: char)
    requires
        d < 10,
    ensures
        c == (('0' as u8) + d) as char,
{
    match d {
        0 => '0',
        1 => '1',
        2 => '2',
        3 => '3',
        4 => '4',
        5 => '5',
        6 => '6',
        7 => '7',
        8 => '8',
        _ => '9',
    }
}

/// The decimal text of `n`.
pub fn usize_to_string(n: usize) -> (s: String)
    ensures
        s@ == spec_decimal(n as nat),
    decreases n,
{
    if n < 10 {
        let mut s = String::new();
        push_char(&mut s, digit_char(n));
        assert(s@ =~= spec_decimal(n as nat));
        s
    } else {
        let mut s = usize_to_string(n / 10);
        push_char(&mut s, digit_char(n % 10));
        assert(s@ =~= spec_decimal(n as nat));
        s
    }
}

/// `s` without its leading `c` characters.
pub open spec fn trim_start(s: Seq<char>, c: char) -> Seq<char>
    decreases s.len(),
{
    if s.len() > 0 && s[0] == c {
        trim_start(s.drop_first(), c)
    } else {
        s
    }
}

/// `s` without its leading `c` characters.
pub fn trim_start_char(s: &str, c: char) -> (r: String)
    ensures
        r@ == trim_start(s@, c),
{
    let chars = str_chars(s);
    let mut i: usize = 0;
    assert(chars@.skip(0) =~= chars@);
    while i < chars.len() && chars[i] == c
        invariant
            i <= chars.len(),
            chars@ == s@,
            trim_start(s@, c) == trim_start(chars@.skip(i as int), c),
        decreases chars.len() - i,
    {
        assert(chars@.skip(i as int).drop_first() =~= chars@.skip(i + 1));
        i = i + 1;
    }
    let mut rest: Vec<char> = Vec::new();
    let mut j: usize = i;
    while j < chars.len()
        invariant
            i <= j <= chars.len(),
            rest@ == chars@.subrange(i as int, j as int),
        decreases chars.len() - j,
    {
        rest.push(chars[j]);
        assert(chars@.subrange(i as int, j + 1) =~= chars@.subrange(i as int, j as int).push(
            chars@[j as int],
        ));
        j = j + 1;
    }
    assert(rest@ =~= chars@.skip(i as int));
    string_from_chars(rest.as_slice())
}

} // verus!

verus! {

/// What the `Debug` format of a list of strings gives: `[` and `]` around
/// the quoted and escaped strings, separated by `, `.
pub uninterp spec fn debug_list(v: Seq<Seq<char>>) -> Seq<char>;

/// The `Debug` format of a list of strings.
///
/// Formats the vector with `{:?}`; the result is named [`debug_list`].
#[verifier::external_body]
pub fn debug_strings(v: &Vec<String>) -> (s: String)
    ensures
        s@ == debug_list(strings_view(v@)),
{
    format!("{:?}", v)
}

} // verus!
