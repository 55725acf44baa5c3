//! File system paths as values.
//!
//! A [`PathBuf`] is a path broken into its components: whether it starts at
//! the root, and the sequence of its normal components. Empty components
//! (repeated or trailing separators) and `.` components are dropped when a
//! path is read from text, so two paths that name the same components compare
//! equal, as `std::path::Path` values do.

use vstd::prelude::*;

use crate::text::{join_seq, str_chars, string_from_chars, strings_view, to_owned_string};

verus! {

/// A path: whether it is absolute, and its components in order.
#[derive(Debug, PartialEq, Eq)]
pub struct PathBuf {
    pub(crate) absolute: bool,
    pub(crate) parts: Vec<String>,
}

/// The mathematical value of a path: absolute or not, and its components.
pub type PathView = (bool, Seq<Seq<char>>);

impl View for PathBuf {
    type V = PathView;

    closed spec fn view(&self) -> PathView {
        (self.absolute, strings_view(self.parts@))
    }
}

/// Whether a piece between separators is kept as a component.
pub open spec fn keep_piece(p: Seq<char>) -> bool {
    p.len() > 0 && p != seq!['.']
}

/// Adds the piece `cur` to the components `done` when it is kept.
pub open spec fn flush_piece(done: Seq<Seq<char>>, cur: Seq<char>) -> Seq<Seq<char>> {
    if keep_piece(cur) {
        done.push(cur)
    } else {
        done
    }
}

/// Scanning `s` left to right: the components completed so far and the piece
/// being read.
pub open spec fn scan_pieces(s: Seq<char>) -> (Seq<Seq<char>>, Seq<char>)
    decreases s.len(),
{
    if s.len() == 0 {
        (Seq::empty(), Seq::empty())
    } else {
        let (done, cur) = scan_pieces(s.drop_last());
        if s.last() == '/' {
            (flush_piece(done, cur), Seq::empty())
        } else {
            (done, cur.push(s.last()))
        }
    }
}

/// The components of the path written as `s`.
pub open spec fn spec_components(s: Seq<char>) -> Seq<Seq<char>> {
    let (done, cur) = scan_pieces(s);
    flush_piece(done, cur)
}

/// The path written as `s`.
pub open spec fn spec_parse_path(s: Seq<char>) -> PathView {
    (s.len() > 0 && s[0] == '/', spec_components(s))
}

/// The text of a path: a leading `/` when absolute, then the components
/// separated by `/`.
pub open spec fn spec_path_text(p: PathView) -> Seq<char> {
    (if p.0 {
        seq!['/']
    } else {
        Seq::empty()
    }) + join_seq(p.1, seq!['/'])
}

/// `base` joined with `other`: `other` itself when absolute, otherwise the
/// components of `other` added after those of `base`.
pub open spec fn spec_join(base: PathView, other: PathView) -> PathView {
    if other.0 {
        other
    } else {
        (base.0, base.1 + other.1)
    }
}

/// Whether `base` is a leading part of `p`.
pub open spec fn spec_starts_with(p: PathView, base: PathView) -> bool {
    p.0 == base.0 && base.1.len() <= p.1.len() && p.1.take(base.1.len() as int) == base.1
}

/// What remains of `p` after its leading part `base`, if `base` is one.
pub open spec fn spec_strip_prefix(p: PathView, base: PathView) -> Option<PathView> {
    if spec_starts_with(p, base) {
        Some((false, p.1.skip(base.1.len() as int)))
    } else {
        None
    }
}

/// The path `~`.
pub open spec fn tilde_path() -> PathView {
    (false, seq![seq!['~']])
}

/// `p` with a leading `~` component replaced by `home`.
pub open spec fn spec_expand_tilde(p: PathView, home: PathView) -> PathView {
    match spec_strip_prefix(p, tilde_path()) {
        Some(rest) => spec_join(home, rest),
        None => p,
    }
}

/// `p` with the leading `home` part replaced by `~`.
pub open spec fn spec_replace_home(p: PathView, home: PathView) -> PathView {
    match spec_strip_prefix(p, home) {
        Some(rest) => spec_join(tilde_path(), rest),
        None => p,
    }
}

/// Whether `c` may appear in a component: components hold no separator.
pub open spec fn valid_component(c: Seq<char>) -> bool {
    keep_piece(c) && !c.contains('/')
}

/// Whether every component of `p` is one that reading a path can produce.
pub open spec fn valid_path(p: PathView) -> bool {
    forall|i: int| 0 <= i < p.1.len() ==> valid_component(#[trigger] p.1[i])
}

proof fn lemma_strings_view_push(v: Seq<String>, s: String)
    ensures
        strings_view(v.push(s)) == strings_view(v).push(s@),
{
    assert(strings_view(v.push(s)) =~= strings_view(v).push(s@));
}

/// Adds `cur` to `done` as a component when it is kept.
fn flush_into(done: &mut Vec<String>, cur: &Vec<char>)
    ensures
        strings_view(final(done)@) == flush_piece(strings_view(old(done)@), cur@),
{
    let keep = cur.len() > 0 && !(cur.len() == 1 && cur[0] == '.');
    assert(keep == keep_piece(cur@)) by {
        if cur@.len() == 1 && cur@[0] == '.' {
            assert(cur@ =~= seq!['.']);
        }
    }
    if keep {
        let s = string_from_chars(cur.as_slice());
        proof {
            lemma_strings_view_push(done@, s);
        }
        done.push(s);
    }
}

/// Components of a path are never empty, never `.`, and hold no separator.
proof fn lemma_scan_valid(s: Seq<char>)
    ensures
        forall|i: int|
            0 <= i < scan_pieces(s).0.len() ==> valid_component(#[trigger] scan_pieces(s).0[i]),
        !scan_pieces(s).1.contains('/'),
    decreases s.len(),
{
    if s.len() > 0 {
        lemma_scan_valid(s.drop_last());
        let (done, cur) = scan_pieces(s.drop_last());
        if s.last() != '/' {
            assert forall|j: int| 0 <= j < cur.push(s.last()).len() implies cur.push(
                s.last(),
            )[j] != '/' by {
                if j < cur.len() {
                    assert(!cur.contains('/'));
                    if cur[j] == '/' {
                        assert(cur.contains('/'));
                    }
                }
            }
        } else {
            assert(!Seq::<char>::empty().contains('/'));
        }
    }
}

/// Paths read from text are valid.
pub proof fn lemma_parse_valid(s: Seq<char>)
    ensures
        valid_path(spec_parse_path(s)),
{
    lemma_scan_valid(s);
}

impl PathBuf {
    /// Reads a path from its text.
    pub fn parse(s: &str) -> (p: PathBuf)
        ensures
            p@ == spec_parse_path(s@),
    {
        let chars = str_chars(s);
        let absolute = chars.len() > 0 && chars[0] == '/';
        let mut done: Vec<String> = Vec::new();
        let mut cur: Vec<char> = Vec::new();
        let mut i: usize = 0;
        assert(chars@.take(0) =~= Seq::<char>::empty());
        assert(strings_view(done@) =~= Seq::<Seq<char>>::empty());
        while i < chars.len()
            invariant
                i <= chars.len(),
                chars@ == s@,
                (strings_view(done@), cur@) == scan_pieces(chars@.take(i as int)),
            decreases chars.len() - i,
        {
            let c = chars[i];
            assert(chars@.take(i + 1).drop_last() =~= chars@.take(i as int));
            assert(chars@.take(i + 1).last() == c);
            if c == '/' {
                flush_into(&mut done, &cur);
                cur = Vec::new();
                assert(cur@ =~= Seq::<char>::empty());
            } else {
                cur.push(c);
            }
            i = i + 1;
        }
        assert(chars@.take(chars.len() as int) =~= chars@);
        flush_into(&mut done, &cur);
        PathBuf { absolute, parts: done }
    }

    /// The path written as `s`.
    pub fn from(s: &str) -> (p: PathBuf)
        ensures
            p@ == spec_parse_path(s@),
    {
        PathBuf::parse(s)
    }

    /// The empty relative path.
    pub fn empty() -> (p: PathBuf)
        ensures
            p@ == (false, Seq::<Seq<char>>::empty()),
    {
        let p = PathBuf { absolute: false, parts: Vec::new() };
        assert(p@.1 =~= Seq::<Seq<char>>::empty());
        p
    }

    /// A copy of this path.
    pub fn duplicate(&self) -> (p: PathBuf)
        ensures
            p@ == self@,
    {
        let p = PathBuf { absolute: self.absolute, parts: self.parts.clone() };
        assert(p.parts@ =~= self.parts@);
        p
    }

    /// Whether the path is absolute.
    pub fn is_absolute(&self) -> (b: bool)
        ensures
            b == self@.0,
    {
        self.absolute
    }

    /// The number of components.
    pub fn component_count(&self) -> (n: usize)
        ensures
            n == self@.1.len(),
    {
        self.parts.len()
    }

    /// The text of the path.
    pub fn to_string(&self) -> (s: String)
        ensures
            s@ == spec_path_text(self@),
    {
        proof {
            reveal_strlit("/");
            assert("/"@ =~= seq!['/']);
        }
        let mut s = String::new();
        if self.absolute {
            s.append("/");
        }
        let ghost lead = s@;
        let body = crate::text::join_strings(&self.parts, "/");
        s.append(body.as_str());
        assert(lead =~= (if self@.0 { seq!['/'] } else { Seq::<char>::empty() }));
        s
    }

    /// Whether the two paths have the same components.
    pub fn same_as(&self, other: &PathBuf) -> (b: bool)
        ensures
            b == (self@ == other@),
    {
        if self.absolute != other.absolute || self.parts.len() != other.parts.len() {
            proof {
                if self@ == other@ {
                    assert(self@.1.len() == other@.1.len());
                }
            }
            return false;
        }
        let mut i: usize = 0;
        while i < self.parts.len()
            invariant
                i <= self.parts.len(),
                self.parts.len() == other.parts.len(),
                forall|j: int| 0 <= j < i ==> self@.1[j] == other@.1[j],
            decreases self.parts.len() - i,
        {
            if self.parts[i] != other.parts[i] {
                assert(self@.1[i as int] != other@.1[i as int]);
                return false;
            }
            i = i + 1;
        }
        assert(self@.1 =~= other@.1);
        true
    }

    /// Whether `base` is a leading part of this path.
    pub fn starts_with(&self, base: &PathBuf) -> (b: bool)
        ensures
            b == spec_starts_with(self@, base@),
    {
        if self.absolute != base.absolute || base.parts.len() > self.parts.len() {
            return false;
        }
        let mut i: usize = 0;
        while i < base.parts.len()
            invariant
                i <= base.parts.len(),
                base.parts.len() <= self.parts.len(),
                forall|j: int| 0 <= j < i ==> self@.1[j] == base@.1[j],
            decreases base.parts.len() - i,
        {
            if self.parts[i] != base.parts[i] {
                assert(self@.1.take(base@.1.len() as int)[i as int] != base@.1[i as int]);
                return false;
            }
            i = i + 1;
        }
        assert(self@.1.take(base@.1.len() as int) =~= base@.1);
        true
    }

    /// The components after the leading `n`, as a relative path.
    fn suffix(&self, n: usize) -> (p: PathBuf)
        requires
            n <= self.parts.len(),
        ensures
            p@ == (false, self@.1.skip(n as int)),
    {
        let mut parts: Vec<String> = Vec::new();
        let mut i: usize = n;
        while i < self.parts.len()
            invariant
                n <= i <= self.parts.len(),
                strings_view(parts@) == self@.1.subrange(n as int, i as int),
            decreases self.parts.len() - i,
        {
            let s = self.parts[i].clone();
            proof {
                lemma_strings_view_push(parts@, s);
            }
            parts.push(s);
            assert(self@.1.subrange(n as int, i + 1) =~= self@.1.subrange(n as int, i as int).push(
                self@.1[i as int],
            ));
            i = i + 1;
        }
        assert(self@.1.subrange(n as int, self.parts.len() as int) =~= self@.1.skip(n as int));
        PathBuf { absolute: false, parts }
    }

    /// The components of the path that follow its leading part `base`, if
    /// `base` is one.
    pub fn strip_prefix(&self, base: &PathBuf) -> (r: Option<PathBuf>)
        ensures
            r matches Some(p) ==> spec_strip_prefix(self@, base@) == Some(p@),
            r is None ==> spec_strip_prefix(self@, base@) is None,
    {
        if self.starts_with(base) {
            Some(self.suffix(base.parts.len()))
        } else {
            None
        }
    }

    /// This path joined with `other`.
    pub fn join(&self, other: &PathBuf) -> (p: PathBuf)
        ensures
            p@ == spec_join(self@, other@),
    {
        if other.absolute {
            return other.duplicate();
        }
        let mut parts = self.parts.clone();
        assert(parts@ =~= self.parts@);
        let mut i: usize = 0;
        while i < other.parts.len()
            invariant
                i <= other.parts.len(),
                strings_view(parts@) == self@.1 + other@.1.take(i as int),
            decreases other.parts.len() - i,
        {
            let s = other.parts[i].clone();
            proof {
                lemma_strings_view_push(parts@, s);
            }
            parts.push(s);
            assert(self@.1 + other@.1.take(i + 1) =~= (self@.1 + other@.1.take(i as int)).push(
                other@.1[i as int],
            ));
            i = i + 1;
        }
        assert(other@.1.take(other.parts.len() as int) =~= other@.1);
        PathBuf { absolute: self.absolute, parts }
    }

    /// This path with one more component, `c`, which holds no separator.
    pub fn push_component(&self, c: String) -> (p: PathBuf)
        ensures
            p@ == (self@.0, self@.1.push(c@)),
    {
        let mut parts = self.parts.clone();
        assert(parts@ =~= self.parts@);
        proof {
            lemma_strings_view_push(parts@, c);
        }
        parts.push(c);
        PathBuf { absolute: self.absolute, parts }
    }

    /// This path joined with the path written as `s`.
    pub fn join_str(&self, s: &str) -> (p: PathBuf)
        ensures
            p@ == spec_join(self@, spec_parse_path(s@)),
    {
        let other = PathBuf::parse(s);
        self.join(&other)
    }

    /// The path without its last component, if it has one.
    pub fn parent(&self) -> (r: Option<PathBuf>)
        ensures
            r matches Some(p) ==> self@.1.len() > 0 && p@ == (self@.0, self@.1.drop_last()),
            r is None ==> self@.1.len() == 0,
    {
        if self.parts.len() == 0 {
            None
        } else {
            let mut parts = self.parts.clone();
            assert(parts@ =~= self.parts@);
            parts.pop();
            let p = PathBuf { absolute: self.absolute, parts };
            assert(p@.1 =~= self@.1.drop_last());
            Some(p)
        }
    }

    /// The last component, if there is one.
    pub fn file_name(&self) -> (r: Option<String>)
        ensures
            r matches Some(s) ==> self@.1.len() > 0 && s@ == self@.1.last(),
            r is None ==> self@.1.len() == 0,
    {
        if self.parts.len() == 0 {
            None
        } else {
            Some(self.parts[self.parts.len() - 1].clone())
        }
    }

    /// This path and each of its ancestors, longest first: the path with its
    /// last `k` components removed, for every `k` from zero up to the number
    /// of components.
    pub fn ancestors(&self) -> (r: Vec<PathBuf>)
        ensures
            r@.len() == self@.1.len() + 1,
            forall|k: int|
                0 <= k < r@.len() ==> #[trigger] r@[k]@ == (self@.0, self@.1.take(
                    self@.1.len() - k,
                )),
    {
        let mut r: Vec<PathBuf> = Vec::new();
        let mut cur = self.duplicate();
        assert(self@.1.take(self@.1.len() as int) =~= self@.1);
        let n = self.parts.len();
        let mut k: usize = 0;
        while k < n
            invariant
                n == self@.1.len(),
                k <= n,
                r@.len() == k,
                cur@ == (self@.0, self@.1.take(n - k)),
                forall|j: int|
                    0 <= j < k ==> #[trigger] r@[j]@ == (self@.0, self@.1.take(n - j)),
            decreases n - k,
        {
            let next = cur.parent();
            r.push(cur);
            assert(self@.1.take(n - k).drop_last() =~= self@.1.take(n - (k + 1)));
            cur = next.unwrap();
            k = k + 1;
        }
        r.push(cur);
        r
    }
}

/// Extension methods that replace a leading `~` or home directory.
pub trait PathExt {
    /// This path with a leading `~` component replaced by `home`.
    fn expand_tilde(&self, home: &PathBuf) -> PathBuf;

    /// This path with the leading `home` directory replaced by `~`.
    fn replace_home(&self, home: &PathBuf) -> PathBuf;
}

/// Extension methods that take the path by value.
pub trait PathBufExt: Sized {
    /// This path with a leading `~` component replaced by `home`.
    fn expand_tilde(self, home: &PathBuf) -> Self;

    /// This path with the leading `home` directory replaced by `~`.
    fn replace_home(self, home: &PathBuf) -> Self;
}

/// The path `~`.
pub fn tilde() -> (p: PathBuf)
    ensures
        p@ == tilde_path(),
{
    let t = to_owned_string("~");
    let mut parts: Vec<String> = Vec::new();
    parts.push(t);
    let p = PathBuf { absolute: false, parts };
    proof {
        reveal_strlit("~");
        assert(t@ =~= seq!['~']);
        assert(p@.1 =~= tilde_path().1);
    }
    p
}

/// `path` with a leading `~` component replaced by `home`.
pub fn expand_tilde_path(path: &PathBuf, home: &PathBuf) -> (p: PathBuf)
    ensures
        p@ == spec_expand_tilde(path@, home@),
{
    let t = tilde();
    match path.strip_prefix(&t) {
        Some(rest) => home.join(&rest),
        None => path.duplicate(),
    }
}

/// `path` with the leading `home` directory replaced by `~`.
pub fn replace_home_path(path: &PathBuf, home: &PathBuf) -> (p: PathBuf)
    ensures
        p@ == spec_replace_home(path@, home@),
{
    match path.strip_prefix(home) {
        Some(rest) => tilde().join(&rest),
        None => path.duplicate(),
    }
}

impl PathExt for PathBuf {
    fn expand_tilde(&self, home: &PathBuf) -> (p: PathBuf)
        ensures
            p@ == spec_expand_tilde(self@, home@),
    {
        expand_tilde_path(self, home)
    }

    fn replace_home(&self, home: &PathBuf) -> (p: PathBuf)
        ensures
            p@ == spec_replace_home(self@, home@),
    {
        replace_home_path(self, home)
    }
}

impl PathBufExt for PathBuf {
    fn expand_tilde(self, home: &PathBuf) -> (p: PathBuf)
        ensures
            p@ == spec_expand_tilde(self@, home@),
    {
        expand_tilde_path(&self, home)
    }

    fn replace_home(self, home: &PathBuf) -> (p: PathBuf)
        ensures
            p@ == spec_replace_home(self@, home@),
    {
        replace_home_path(&self, home)
    }
}

/// Whether a file modified at `self_time` is newer than one modified at
/// `other_time`: `false` when either time is unknown (the file is missing).
pub fn newer_than(self_time: Option<u64>, other_time: Option<u64>) -> (b: bool)
    ensures
        b == (match (self_time, other_time) {
            (Some(a), Some(c)) => a > c,
            _ => false,
        }),
{
    match (self_time, other_time) {
        (Some(a), Some(c)) => a > c,
        _ => false,
    }
}

} // verus!

verus! {

/// Replacing the home directory undoes expanding `~`: a path that starts
/// with `~` comes back unchanged.
pub proof fn lemma_replace_home_undoes_expand_tilde(p: PathView, home: PathView)
    requires
        spec_starts_with(p, tilde_path()),
    ensures
        spec_replace_home(spec_expand_tilde(p, home), home) == p,
{
    let rest = p.1.skip(1);
    assert(p.1.take(1) =~= seq![seq!['~']]);
    let e = spec_expand_tilde(p, home);
    assert(e == (home.0, home.1 + rest));
    assert(e.1.take(home.1.len() as int) =~= home.1);
    assert(e.1.skip(home.1.len() as int) =~= rest);
    assert(seq![seq!['~']] + rest =~= p.1);
}

/// Expanding `~` undoes replacing the home directory: a path inside the
/// home directory comes back unchanged.
pub proof fn lemma_expand_tilde_undoes_replace_home(p: PathView, home: PathView)
    requires
        spec_starts_with(p, home),
    ensures
        spec_expand_tilde(spec_replace_home(p, home), home) == p,
{
    let rest = p.1.skip(home.1.len() as int);
    let r = spec_replace_home(p, home);
    assert(r == (false, seq![seq!['~']] + rest));
    assert(r.1.take(1) =~= seq![seq!['~']]);
    assert(r.1.skip(1) =~= rest);
    assert(home.1 + rest =~= p.1);
}

/// A path that does not start with `~` is left alone by expanding `~`, and
/// one outside the home directory by replacing it.
pub proof fn lemma_unrelated_paths_unchanged(p: PathView, home: PathView)
    ensures
        !spec_starts_with(p, tilde_path()) ==> spec_expand_tilde(p, home) == p,
        !spec_starts_with(p, home) ==> spec_replace_home(p, home) == p,
{
}

} // verus!
