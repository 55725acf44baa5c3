//! Error handling.
//!
//! An [`Error`] is a chain of contextual messages on top of a kind. The kind
//! says where the error came from; when it came from a lower-level failure
//! (I/O, URL parsing, Git, templates, ...) it holds that failure's text.

use vstd::prelude::*;

use crate::text::{str_chars, string_from_chars};

verus! {

/// The kinds of I/O failure that the library tells apart.
#[derive(Debug, Clone, Copy, PartialEq, Eq, Structural)]
pub enum IoErrorKind {
    /// The entity was not found.
    NotFound,
    /// The operation lacked the necessary privileges.
    PermissionDenied,
    /// The entity already exists.
    AlreadyExists,
    /// Any other kind of I/O failure.
    Other,
}

/// A kind of [`Error`].
#[derive(Debug)]
pub enum ErrorKind {
    /// Created from a message alone.
    Custom,
    /// A URL failed to parse; holds the parser's message.
    Url(String),
    /// An I/O failure; holds its kind and message.
    Io(IoErrorKind, String),
    /// TOML deserialization failed; holds the message.
    FromToml(String),
    /// TOML serialization failed; holds the message.
    ToToml(String),
    /// A Git operation failed; holds the message.
    Git(String),
    /// A download failed; holds the message.
    Download(String),
    /// A glob failed; holds the message.
    Glob(String),
    /// A glob pattern failed to parse; holds the message.
    Pattern(String),
    /// A template failed to compile; holds the message.
    Template(String),
    /// A template failed to compile or render; holds the message.
    TemplateRender(String),
    /// A compiled template failed to render; holds the message.
    Render(String),
}

/// An error: a kind, and the contextual messages added to it, innermost
/// first.
#[derive(Debug)]
pub struct Error {
    pub kind: ErrorKind,
    pub messages: Vec<String>,
}

/// The text of the lower-level failure behind a kind, if there is one.
pub open spec fn kind_source(k: ErrorKind) -> Option<Seq<char>> {
    match k {
        ErrorKind::Custom => None,
        ErrorKind::Url(s) => Some(s@),
        ErrorKind::Io(_, s) => Some(s@),
        ErrorKind::FromToml(s) => Some(s@),
        ErrorKind::ToToml(s) => Some(s@),
        ErrorKind::Git(s) => Some(s@),
        ErrorKind::Download(s) => Some(s@),
        ErrorKind::Glob(s) => Some(s@),
        ErrorKind::Pattern(s) => Some(s@),
        ErrorKind::Template(s) => Some(s@),
        ErrorKind::TemplateRender(s) => Some(s@),
        ErrorKind::Render(s) => Some(s@),
    }
}

/// The mathematical value of an error: the text of its source, if any, and
/// its messages, innermost first.
pub type ErrorView = (Option<Seq<char>>, Seq<Seq<char>>);

impl View for Error {
    type V = ErrorView;

    open spec fn view(&self) -> ErrorView {
        (kind_source(self.kind), self.messages@.map_values(|m: String| m@))
    }
}

/// The chain of an error, outermost first: its messages from the last added
/// to the first, then the text of its source.
pub open spec fn spec_chain(e: ErrorView) -> Seq<Seq<char>> {
    e.1.reverse() + match e.0 {
        Some(s) => seq![s],
        None => Seq::empty(),
    }
}

/// Whether `c` is a whitespace character, as `char::is_whitespace` decides
/// (the Unicode `White_Space` property).
pub open spec fn is_whitespace(c: char) -> bool {
    ||| '\t' <= c <= '\r'
    ||| c == ' '
    ||| c == '\u{85}'
    ||| c == '\u{A0}'
    ||| c == '\u{1680}'
    ||| '\u{2000}' <= c <= '\u{200A}'
    ||| c == '\u{2028}'
    ||| c == '\u{2029}'
    ||| c == '\u{202F}'
    ||| c == '\u{205F}'
    ||| c == '\u{3000}'
}

/// `s` without its trailing whitespace.
pub open spec fn trim_end(s: Seq<char>) -> Seq<char>
    decreases s.len(),
{
    if s.len() > 0 && is_whitespace(s.last()) {
        trim_end(s.drop_last())
    } else {
        s
    }
}

/// The text of the messages of `ms`, each followed by a newline.
pub open spec fn lines_of(ms: Seq<Seq<char>>) -> Seq<char>
    decreases ms.len(),
{
    if ms.len() == 0 {
        Seq::empty()
    } else {
        ms[0] + seq!['\n'] + lines_of(ms.drop_first())
    }
}

/// The display of an error: its messages, outermost first, each on a line of
/// its own, then the text of its source, without trailing whitespace.
pub open spec fn spec_error_text(e: ErrorView) -> Seq<char> {
    trim_end(
        lines_of(e.1.reverse()) + match e.0 {
            Some(s) => s,
            None => Seq::empty(),
        },
    )
}

/// `s` with every occurrence of `from`, scanned left to right, replaced by
/// `to`.
pub open spec fn replace_all(s: Seq<char>, from: Seq<char>, to: Seq<char>) -> Seq<char>
    decreases s.len(),
{
    if s.len() == 0 {
        Seq::empty()
    } else if from.len() > 0 && from.len() <= s.len() && s.take(from.len() as int) == from {
        to + replace_all(s.skip(from.len() as int), from, to)
    } else {
        seq![s[0]] + replace_all(s.skip(1), from, to)
    }
}

/// The separator placed between the entries of a pretty error.
pub open spec fn due_to() -> Seq<char> {
    seq!['\n', ' ', ' ', 'd', 'u', 'e', ' ', 't', 'o', ':', ' ']
}

/// The prefix that template errors carry, removed from pretty errors.
pub open spec fn template_error_prefix() -> Seq<char> {
    seq![
        'T',
        'e',
        'm',
        'p',
        'l',
        'a',
        't',
        'e',
        ' ',
        'e',
        'r',
        'r',
        'o',
        'r',
        ':',
        ' ',
    ]
}

/// The pretty display of an error: its display with each line break followed
/// by `  due to: `, and every `Template error: ` removed.
pub open spec fn spec_pretty(e: ErrorView) -> Seq<char> {
    replace_all(
        replace_all(spec_error_text(e), seq!['\n'], due_to()),
        template_error_prefix(),
        Seq::empty(),
    )
}

/// Whether `c` is whitespace.
pub fn char_is_whitespace(c: char) -> (b: bool)
    ensures
        b == is_whitespace(c),
{
    ('\t' <= c && c <= '\r') || c == ' ' || c == '\u{85}' || c == '\u{A0}' || c == '\u{1680}' || (
    '\u{2000}' <= c && c <= '\u{200A}') || c == '\u{2028}' || c == '\u{2029}' || c == '\u{202F}'
        || c == '\u{205F}' || c == '\u{3000}'
}

/// `s` without its trailing whitespace.
pub fn trim_end_chars(s: &Vec<char>) -> (r: Vec<char>)
    ensures
        r@ == trim_end(s@),
{
    let mut n = s.len();
    assert(s@.take(n as int) =~= s@);
    while n > 0 && char_is_whitespace(s[n - 1])
        invariant
            n <= s.len(),
            trim_end(s@) == trim_end(s@.take(n as int)),
        decreases n,
    {
        assert(s@.take(n as int).drop_last() =~= s@.take(n - 1));
        n = n - 1;
    }
    let mut r: Vec<char> = Vec::new();
    let mut i: usize = 0;
    while i < n
        invariant
            n <= s.len(),
            i <= n,
            r@ == s@.take(i as int),
        decreases n - i,
    {
        r.push(s[i]);
        assert(s@.take(i + 1) =~= s@.take(i as int).push(s@[i as int]));
        i = i + 1;
    }
    assert(r@ =~= s@.take(n as int));
    r
}

proof fn lemma_replace_step(s: Seq<char>, from: Seq<char>, to: Seq<char>, i: int)
    requires
        0 <= i < s.len(),
    ensures
        from.len() > 0 && from.len() <= s.len() - i && s.skip(i).take(from.len() as int) == from
            ==> replace_all(s.skip(i), from, to) == to + replace_all(
            s.skip(i + from.len()),
            from,
            to,
        ),
        !(from.len() > 0 && from.len() <= s.len() - i && s.skip(i).take(from.len() as int)
            == from) ==> replace_all(s.skip(i), from, to) == seq![s[i]] + replace_all(
            s.skip(i + 1),
            from,
            to,
        ),
{
    let t = s.skip(i);
    if from.len() <= s.len() - i {
        assert(t.skip(from.len() as int) =~= s.skip(i + from.len()));
    }
    assert(t.skip(1) =~= s.skip(i + 1));
}

/// Whether `from` occurs in `s` at position `i`.
fn occurs_at(s: &Vec<char>, from: &Vec<char>, i: usize) -> (b: bool)
    requires
        i <= s.len(),
    ensures
        b == (from.len() <= s.len() - i && s@.skip(i as int).take(from.len() as int) == from@),
{
    if from.len() > s.len() - i {
        return false;
    }
    let mut j: usize = 0;
    while j < from.len()
        invariant
            from.len() <= s.len() - i,
            j <= from.len(),
            forall|k: int| 0 <= k < j ==> s@[i + k] == from@[k],
        decreases from.len() - j,
    {
        if s[i + j] != from[j] {
            assert(s@.skip(i as int).take(from.len() as int)[j as int] != from@[j as int]);
            return false;
        }
        j = j + 1;
    }
    assert(s@.skip(i as int).take(from.len() as int) =~= from@);
    true
}

/// `s` with every occurrence of `from` replaced by `to`.
pub fn replace_chars(s: &Vec<char>, from: &Vec<char>, to: &Vec<char>) -> (r: Vec<char>)
    ensures
        r@ == replace_all(s@, from@, to@),
{
    let mut out: Vec<char> = Vec::new();
    let mut i: usize = 0;
    assert(s@.skip(0) =~= s@);
    while i < s.len()
        invariant
            i <= s.len(),
            replace_all(s@, from@, to@) == out@ + replace_all(s@.skip(i as int), from@, to@),
        decreases s.len() - i,
    {
        proof {
            lemma_replace_step(s@, from@, to@, i as int);
        }
        if from.len() > 0 && occurs_at(s, from, i) {
            let mut j: usize = 0;
            let ghost before = out@;
            while j < to.len()
                invariant
                    j <= to.len(),
                    out@ == before + to@.take(j as int),
                decreases to.len() - j,
            {
                out.push(to[j]);
                assert(to@.take(j + 1) =~= to@.take(j as int).push(to@[j as int]));
                j = j + 1;
            }
            assert(to@.take(to.len() as int) =~= to@);
            assert(before + (to@ + replace_all(s@.skip(i + from.len()), from@, to@)) =~= out@
                + replace_all(s@.skip(i + from.len()), from@, to@));
            i = i + from.len();
        } else {
            let ghost before = out@;
            out.push(s[i]);
            assert(before + (seq![s@[i as int]] + replace_all(s@.skip(i + 1), from@, to@))
                =~= out@ + replace_all(s@.skip(i + 1), from@, to@));
            i = i + 1;
        }
    }
    assert(s@.skip(s.len() as int) =~= Seq::<char>::empty());
    assert(out@ + Seq::<char>::empty() =~= out@);
    out
}

/// Appends the characters of `s` to `text`.
fn append_chars(text: &mut Vec<char>, s: &str)
    ensures
        final(text)@ == old(text)@ + s@,
{
    let sc = str_chars(s);
    let ghost before = text@;
    let mut j: usize = 0;
    while j < sc.len()
        invariant
            j <= sc.len(),
            text@ == before + sc@.take(j as int),
        decreases sc.len() - j,
    {
        text.push(sc[j]);
        assert(sc@.take(j + 1) =~= sc@.take(j as int).push(sc@[j as int]));
        j = j + 1;
    }
    assert(sc@.take(sc.len() as int) =~= sc@);
}

/// The text of the lower-level failure behind a kind, as a plain value.
fn source_of(kind: &ErrorKind) -> (r: Option<String>)
    ensures
        match r {
            Some(s) => kind_source(*kind) == Some(s@),
            None => kind_source(*kind) is None,
        },
{
    match kind {
        ErrorKind::Custom => None,
        ErrorKind::Url(s) => Some(s.clone()),
        ErrorKind::Io(_, s) => Some(s.clone()),
        ErrorKind::FromToml(s) => Some(s.clone()),
        ErrorKind::ToToml(s) => Some(s.clone()),
        ErrorKind::Git(s) => Some(s.clone()),
        ErrorKind::Download(s) => Some(s.clone()),
        ErrorKind::Glob(s) => Some(s.clone()),
        ErrorKind::Pattern(s) => Some(s.clone()),
        ErrorKind::Template(s) => Some(s.clone()),
        ErrorKind::TemplateRender(s) => Some(s.clone()),
        ErrorKind::Render(s) => Some(s.clone()),
    }
}

proof fn lemma_messages_view_push(v: Seq<String>, s: String)
    ensures
        v.push(s).map_values(|m: String| m@) == v.map_values(|m: String| m@).push(s@),
{
    assert(v.push(s).map_values(|m: String| m@) =~= v.map_values(|m: String| m@).push(s@));
}

impl Error {
    /// An error made from a message alone.
    pub fn custom(message: String) -> (e: Error)
        ensures
            e@ == (None::<Seq<char>>, seq![message@]),
    {
        let mut messages: Vec<String> = Vec::new();
        let ghost m = message;
        messages.push(message);
        let e = Error { kind: ErrorKind::Custom, messages };
        assert(e@.1 =~= seq![m@]);
        e
    }

    /// An error of the given kind, with no message yet.
    pub fn from_kind(kind: ErrorKind) -> (e: Error)
        ensures
            e@ == (kind_source(kind), Seq::<Seq<char>>::empty()),
    {
        let e = Error { kind, messages: Vec::new() };
        assert(e@.1 =~= Seq::<Seq<char>>::empty());
        e
    }

    /// This error with one more message, the new outermost one.
    pub fn context(self, message: String) -> (e: Error)
        ensures
            e.kind == self.kind,
            e@ == (self@.0, self@.1.push(message@)),
    {
        let Error { kind, mut messages } = self;
        proof {
            lemma_messages_view_push(messages@, message);
        }
        messages.push(message);
        Error { kind, messages }
    }

    /// The I/O kind of this error, if it came from an I/O failure.
    pub fn io_kind(&self) -> (r: Option<IoErrorKind>)
        ensures
            r == (match self.kind {
                ErrorKind::Io(k, _) => Some(k),
                _ => None,
            }),
    {
        match &self.kind {
            ErrorKind::Io(k, _) => Some(*k),
            _ => None,
        }
    }

    /// The outermost message of this error, or the text of its source when it
    /// has no message.
    pub fn message(&self) -> (s: String)
        ensures
            s@ == spec_chain(self@)[0] || (spec_chain(self@).len() == 0 && s@.len() == 0),
    {
        let n = self.messages.len();
        if n > 0 {
            let ghost ms = self@.1;
            assert(spec_chain(self@)[0] == ms.reverse()[0]);
            self.messages[n - 1].clone()
        } else {
            match source_of(&self.kind) {
                Some(s) => {
                    assert(spec_chain(self@) =~= seq![s@]);
                    s
                },
                None => {
                    assert(spec_chain(self@) =~= Seq::<Seq<char>>::empty());
                    String::new()
                },
            }
        }
    }

    /// The chain of this error, outermost first: the messages from the last
    /// added to the first, then the text of its source.
    pub fn chain(&self) -> (r: Vec<String>)
        ensures
            r@.map_values(|m: String| m@) == spec_chain(self@),
    {
        let mut r: Vec<String> = Vec::new();
        let n = self.messages.len();
        let ghost ms = self@.1;
        let mut i: usize = 0;
        while i < n
            invariant
                n == ms.len(),
                ms == self@.1,
                i <= n,
                r@.map_values(|m: String| m@) == ms.reverse().take(i as int),
            decreases n - i,
        {
            let m = self.messages[n - 1 - i].clone();
            proof {
                lemma_messages_view_push(r@, m);
            }
            r.push(m);
            assert(ms.reverse().take(i + 1) =~= ms.reverse().take(i as int).push(
                ms.reverse()[i as int],
            ));
            i = i + 1;
        }
        assert(ms.reverse().take(n as int) =~= ms.reverse());
        match source_of(&self.kind) {
            Some(s) => {
                proof {
                    lemma_messages_view_push(r@, s);
                }
                r.push(s);
                assert(r@.map_values(|m: String| m@) =~= spec_chain(self@));
            },
            None => {
                assert(r@.map_values(|m: String| m@) =~= spec_chain(self@));
            },
        }
        r
    }

    /// The display of this error: its messages, outermost first, each on a
    /// line of its own, then the text of its source, without trailing
    /// whitespace.
    pub fn to_string(&self) -> (s: String)
        ensures
            s@ == spec_error_text(self@),
    {
        let chain = self.chain();
        let ghost ms = self@.1.reverse();
        let ghost cv = chain@.map_values(|m: String| m@);
        let n = self.messages.len();
        let mut text: Vec<char> = Vec::new();
        let mut i: usize = 0;
        assert(ms.skip(0) =~= ms);
        assert(text@ + lines_of(ms) =~= lines_of(ms));
        assert(cv.len() == chain@.len());
        assert(spec_chain(self@).len() >= n);
        while i < n
            invariant
                n == self@.1.len(),
                ms == self@.1.reverse(),
                cv == chain@.map_values(|m: String| m@),
                cv == spec_chain(self@),
                cv.len() == chain@.len(),
                cv.len() >= n,
                i <= n,
                lines_of(ms) == text@ + lines_of(ms.skip(i as int)),
            decreases n - i,
        {
            assert(cv[i as int] == chain@[i as int]@);
            assert(cv[i as int] == ms[i as int]);
            let ghost before = text@;
            append_chars(&mut text, chain[i].as_str());
            text.push('\n');
            assert(ms.skip(i as int).drop_first() =~= ms.skip(i + 1));
            assert(lines_of(ms.skip(i as int)) == ms[i as int] + seq!['\n'] + lines_of(
                ms.skip(i + 1),
            ));
            assert(before + (ms[i as int] + seq!['\n'] + lines_of(ms.skip(i + 1))) =~= text@
                + lines_of(ms.skip(i + 1)));
            i = i + 1;
        }
        assert(ms.skip(n as int) =~= Seq::<Seq<char>>::empty());
        assert(text@ + Seq::<char>::empty() =~= text@);
        let ghost lines = text@;
        match source_of(&self.kind) {
            Some(src) => {
                append_chars(&mut text, src.as_str());
            },
            None => {
                assert(lines + Seq::<char>::empty() =~= lines);
            },
        }
        let trimmed = trim_end_chars(&text);
        string_from_chars(trimmed.as_slice())
    }

    /// The pretty display of this error: each line break followed by
    /// `  due to: `, and every `Template error: ` removed.
    pub fn pretty(&self) -> (s: String)
        ensures
            s@ == spec_pretty(self@),
    {
        let text = str_chars(self.to_string().as_str());
        let nl: Vec<char> = vec!['\n'];
        let due: Vec<char> = vec!['\n', ' ', ' ', 'd', 'u', 'e', ' ', 't', 'o', ':', ' '];
        let step = replace_chars(&text, &nl, &due);
        let prefix: Vec<char> = vec![
            'T',
            'e',
            'm',
            'p',
            'l',
            'a',
            't',
            'e',
            ' ',
            'e',
            'r',
            'r',
            'o',
            'r',
            ':',
            ' ',
        ];
        let empty: Vec<char> = Vec::new();
        assert(nl@ =~= seq!['\n']);
        assert(due@ =~= due_to());
        assert(prefix@ =~= template_error_prefix());
        assert(empty@ =~= Seq::<char>::empty());
        let out = replace_chars(&step, &prefix, &empty);
        string_from_chars(out.as_slice())
    }
}

/// The entries of the chain of `e` joined by `\n  due to: `.
pub fn prettyify_error(e: &Error) -> (s: String)
    ensures
        s@ == crate::text::join_seq(spec_chain(e@), due_to()),
{
    let chain = e.chain();
    proof {
        assert(crate::text::strings_view(chain@) =~= chain@.map_values(|m: String| m@));
        reveal_strlit("\n  due to: ");
        assert("\n  due to: "@ =~= due_to());
    }
    crate::text::join_strings(&chain, "\n  due to: ")
}

/// Adds a contextual message to a failure.
pub trait ResultExt<T>: Sized {
    /// This value with `message` added to its failure, if it is one; a
    /// missing value becomes an error made from `message`.
    fn chain(self, message: String) -> Result<T, Error>;
}

impl<T> ResultExt<T> for Result<T, Error> {
    fn chain(self, message: String) -> (r: Result<T, Error>)
        ensures
            match (self, r) {
                (Ok(a), Ok(b)) => a == b,
                (Err(e), Err(f)) => f.kind == e.kind && f@ == (e@.0, e@.1.push(message@)),
                _ => false,
            },
    {
        match self {
            Ok(v) => Ok(v),
            Err(e) => Err(e.context(message)),
        }
    }
}

impl<T> ResultExt<T> for Result<T, ErrorKind> {
    fn chain(self, message: String) -> (r: Result<T, Error>)
        ensures
            match (self, r) {
                (Ok(a), Ok(b)) => a == b,
                (Err(k), Err(f)) => f@ == (kind_source(k), seq![message@]),
                _ => false,
            },
    {
        match self {
            Ok(v) => Ok(v),
            Err(k) => {
                let e = Error::from_kind(k).context(message);
                assert(e@.1 =~= seq![message@]);
                Err(e)
            },
        }
    }
}

impl<T> ResultExt<T> for Option<T> {
    fn chain(self, message: String) -> (r: Result<T, Error>)
        ensures
            match (self, r) {
                (Some(a), Ok(b)) => a == b,
                (None, Err(f)) => f@ == (None::<Seq<char>>, seq![message@]),
                _ => false,
            },
    {
        match self {
            Some(v) => Ok(v),
            None => Err(Error::custom(message)),
        }
    }
}

/// The I/O kind behind an error, if it came from an I/O failure.
pub fn underlying_io_error_kind(error: &Error) -> (r: Option<IoErrorKind>)
    ensures
        r == (match error.kind {
            ErrorKind::Io(k, _) => Some(k),
            _ => None,
        }),
{
    error.io_kind()
}

} // verus!
