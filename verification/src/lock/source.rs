//! Sources: where each is kept on disk, how a Git source is brought to the
//! configured revision, and when a remote or local source is already in
//! place.
//!
//! Cloning, fetching, downloading and looking at the file system are done by
//! the caller; this module decides what to do and what comes of it.

use vstd::prelude::*;

use crate::config::{GitReference, Source};
use crate::context::Context;
use crate::error::Error;
use crate::lock::LockMode;
use crate::text::{concat2, concat3, spec_decimal, to_owned_string, trim_start, trim_start_char, usize_to_string};
use crate::url::Url;
use crate::util::path::{spec_expand_tilde, spec_join, spec_parse_path, spec_path_text, PathBuf, PathView};

verus! {

/// Which revision of a Git repository to check out.
#[derive(Debug, PartialEq, Eq)]
pub enum GitCheckout {
    /// The latest of the default branch (HEAD).
    DefaultBranch,
    /// The tip of a branch.
    Branch(String),
    /// A specific revision.
    Rev(String),
    /// A tag.
    Tag(String),
}

/// The text shown after a URL for a checkout: empty for the default branch,
/// otherwise `@` and the branch, revision or tag.
pub open spec fn spec_checkout_text(c: GitCheckout) -> Seq<char> {
    match c {
        GitCheckout::DefaultBranch => Seq::empty(),
        GitCheckout::Branch(s) => seq!['@'] + s@,
        GitCheckout::Rev(s) => seq!['@'] + s@,
        GitCheckout::Tag(s) => seq!['@'] + s@,
    }
}

/// The checkout that a configured reference asks for.
pub open spec fn spec_checkout_of(r: Option<GitReference>) -> GitCheckout {
    match r {
        None => GitCheckout::DefaultBranch,
        Some(GitReference::Branch(s)) => GitCheckout::Branch(s),
        Some(GitReference::Rev(s)) => GitCheckout::Rev(s),
        Some(GitReference::Tag(s)) => GitCheckout::Tag(s),
    }
}

impl GitCheckout {
    /// The checkout that a configured reference asks for: the default branch
    /// when there is none.
    pub fn from(reference: Option<GitReference>) -> (c: GitCheckout)
        ensures
            c == spec_checkout_of(reference),
    {
        match reference {
            None => GitCheckout::DefaultBranch,
            Some(GitReference::Branch(s)) => GitCheckout::Branch(s),
            Some(GitReference::Rev(s)) => GitCheckout::Rev(s),
            Some(GitReference::Tag(s)) => GitCheckout::Tag(s),
        }
    }

    /// The text shown after a URL for this checkout.
    pub fn to_string(&self) -> (s: String)
        ensures
            s@ == spec_checkout_text(*self),
    {
        proof {
            reveal_strlit("@");
            reveal_strlit("");
            assert("@"@ =~= seq!['@']);
        }
        match self {
            GitCheckout::DefaultBranch => to_owned_string(""),
            GitCheckout::Branch(s) => concat2("@", s.as_str()),
            GitCheckout::Rev(s) => concat2("@", s.as_str()),
            GitCheckout::Tag(s) => concat2("@", s.as_str()),
        }
    }

    /// A copy of this checkout.
    pub fn duplicate(&self) -> (c: GitCheckout)
        ensures
            c == *self,
    {
        match self {
            GitCheckout::DefaultBranch => GitCheckout::DefaultBranch,
            GitCheckout::Branch(s) => GitCheckout::Branch(s.clone()),
            GitCheckout::Rev(s) => GitCheckout::Rev(s.clone()),
            GitCheckout::Tag(s) => GitCheckout::Tag(s.clone()),
        }
    }
}

/// A locked source: where it was installed, and the downloaded file of a
/// remote source.
#[derive(Debug, PartialEq, Eq)]
pub struct LockedSource {
    /// The clone or download directory.
    pub dir: PathBuf,
    /// The downloaded file.
    pub file: Option<PathBuf>,
}

impl LockedSource {
    /// A copy of this locked source.
    pub fn duplicate(&self) -> (s: LockedSource)
        ensures
            s.dir@ == self.dir@,
            match (s.file, self.file) {
                (Some(a), Some(b)) => a@ == b@,
                (None, None) => true,
                _ => false,
            },
    {
        LockedSource {
            dir: self.dir.duplicate(),
            file: match &self.file {
                Some(f) => Some(f.duplicate()),
                None => None,
            },
        }
    }
}

/// The text of a source: the URL of a Git source followed by its checkout,
/// the URL of a remote source, or the directory of a local source.
pub open spec fn spec_source_text(s: Source) -> Seq<char> {
    match s {
        Source::Git { url, reference } => url.serialization@ + spec_checkout_text(
            spec_checkout_of(reference),
        ),
        Source::Remote { url } => url.serialization@,
        Source::Local { dir } => spec_path_text(dir@),
    }
}

impl Source {
    /// The text of this source.
    pub fn to_string(&self) -> (s: String)
        ensures
            s@ == spec_source_text(*self),
    {
        match self {
            Source::Git { url, reference } => {
                let r = match reference {
                    Some(r) => Some(r.duplicate()),
                    None => None,
                };
                let checkout = GitCheckout::from(r);
                concat2(url.as_str(), checkout.to_string().as_str())
            },
            Source::Remote { url } => to_owned_string(url.as_str()),
            Source::Local { dir } => dir.to_string(),
        }
    }
}

/// The path segments of a URL path: the text after a leading `/`, split at
/// each `/`; none when the path does not start with `/`.
pub open spec fn spec_path_segments(path: Seq<char>) -> Option<Seq<Seq<char>>> {
    if path.len() > 0 && path[0] == '/' {
        Some(split_at_slash(path.drop_first()))
    } else {
        None
    }
}

/// `s` split at each `/`, keeping empty pieces.
pub open spec fn split_at_slash(s: Seq<char>) -> Seq<Seq<char>>
    decreases s.len(),
{
    if s.len() == 0 {
        seq![Seq::empty()]
    } else {
        let parts = split_at_slash(s.drop_last());
        if s.last() == '/' {
            parts.push(Seq::empty())
        } else {
            parts.update(parts.len() - 1, parts.last().push(s.last()))
        }
    }
}

/// Splitting always gives at least one piece.
proof fn lemma_split_nonempty(s: Seq<char>)
    ensures
        split_at_slash(s).len() >= 1,
    decreases s.len(),
{
    if s.len() > 0 {
        lemma_split_nonempty(s.drop_last());
    }
}

/// The path segments of a URL, as `url::Url::path_segments` gives them.
pub fn path_segments(url: &Url) -> (r: Option<Vec<String>>)
    ensures
        match r {
            Some(v) => spec_path_segments(url.path@) == Some(crate::text::strings_view(v@)),
            None => spec_path_segments(url.path@) is None,
        },
{
    let chars = crate::text::str_chars(url.path.as_str());
    if chars.len() == 0 || chars[0] != '/' {
        return None;
    }
    let ghost rest = chars@.drop_first();
    let mut parts: Vec<String> = Vec::new();
    let mut cur: Vec<char> = Vec::new();
    let mut i: usize = 1;
    assert(rest.take(0) =~= Seq::<char>::empty());
    while i < chars.len()
        invariant
            1 <= i <= chars.len(),
            rest == chars@.drop_first(),
            crate::text::strings_view(parts@).push(cur@) == split_at_slash(rest.take(i - 1)),
        decreases chars.len() - i,
    {
        let c = chars[i];
        assert(rest.take(i as int).drop_last() =~= rest.take(i - 1));
        assert(rest.take(i as int).last() == c);
        proof {
            lemma_split_nonempty(rest.take(i - 1));
        }
        if c == '/' {
            let s = crate::text::string_from_chars(cur.as_slice());
            let ghost before = parts@;
            parts.push(s);
            assert(crate::text::strings_view(parts@) =~= crate::text::strings_view(before).push(
                s@,
            ));
            cur = Vec::new();
            assert(crate::text::strings_view(parts@).push(cur@) =~= split_at_slash(
                rest.take(i as int),
            ));
        } else {
            let ghost before = cur@;
            cur.push(c);
            assert(crate::text::strings_view(parts@).push(cur@) =~= split_at_slash(
                rest.take(i as int),
            ));
        }
        i = i + 1;
    }
    assert(rest.take(chars.len() - 1) =~= rest);
    let s = crate::text::string_from_chars(cur.as_slice());
    let ghost before = parts@;
    parts.push(s);
    assert(crate::text::strings_view(parts@) =~= crate::text::strings_view(before).push(s@));
    Some(parts)
}

/// What locking a source needs done: clone or check out a Git repository
/// into `dir`, download a file into `dir`, or check a local directory.
#[derive(Debug)]
pub enum SourcePlan {
    /// A Git repository to bring to `checkout` in `dir`.
    Git { dir: PathBuf, url: Url, checkout: GitCheckout },
    /// A file to download from `url` to `file`, inside `dir`.
    Remote { dir: PathBuf, file: PathBuf, url: Url },
    /// A local directory, with `~` expanded.
    Local { dir: PathBuf },
}

/// The directory that a Git source with the given host and path is cloned
/// to: `{clone_dir}/{host}/{path without leading slashes}`.
pub open spec fn spec_git_dir(clone_dir: PathView, host: Seq<char>, path: Seq<char>) -> PathView {
    spec_join(spec_join(clone_dir, spec_parse_path(host)), spec_parse_path(trim_start(path, '/')))
}

/// The name of a downloaded file: the last path segment, or `index` when
/// that is empty.
pub open spec fn spec_download_name(segments: Seq<Seq<char>>) -> Seq<char> {
    if segments.last().len() == 0 {
        seq!['i', 'n', 'd', 'e', 'x']
    } else {
        segments.last()
    }
}

/// `base` with each of `pieces` pushed in turn.
pub open spec fn push_all(base: PathView, pieces: Seq<Seq<char>>) -> PathView
    decreases pieces.len(),
{
    if pieces.len() == 0 {
        base
    } else {
        spec_join(push_all(base, pieces.drop_last()), spec_parse_path(pieces.last()))
    }
}

/// What locking the source `s` needs done, or why it cannot be.
pub open spec fn spec_plan_error(s: Source) -> Option<Seq<char>> {
    match s {
        Source::Git { url, .. } => if url.host is None {
            Some("URL `"@ + url.serialization@ + "` has no host"@)
        } else {
            None
        },
        Source::Remote { url } => if url.host is None {
            Some("URL `"@ + url.serialization@ + "` has no host"@)
        } else if spec_path_segments(url.path@) is None {
            Some("URL `"@ + url.serialization@ + "` is cannot-be-a-base"@)
        } else {
            None
        },
        Source::Local { .. } => None,
    }
}

/// Whether `p` is what locking the source `s` needs done, in the context
/// with the given home, clone and download directories.
pub open spec fn spec_plan(
    s: Source,
    p: SourcePlan,
    home: PathView,
    clone_dir: PathView,
    download_dir: PathView,
) -> bool {
    match s {
        Source::Git { url, reference } => p matches SourcePlan::Git { dir, url: u, checkout }
            && u == url && checkout == spec_checkout_of(reference) && dir@ == spec_git_dir(
            clone_dir,
            url.host.unwrap()@,
            url.path@,
        ),
        Source::Remote { url } => {
            let segs = spec_path_segments(url.path@).unwrap();
            let d = push_all(
                spec_join(download_dir, spec_parse_path(url.host.unwrap()@)),
                segs.drop_last(),
            );
            p matches SourcePlan::Remote { dir, file, url: u } && u == url && dir@ == d && file@
                == spec_join(d, spec_parse_path(spec_download_name(segs)))
        },
        Source::Local { dir } => p matches SourcePlan::Local { dir: d } && d@ == spec_expand_tilde(
            dir@,
            home,
        ),
    }
}

/// The directory that the Git source at `url` is cloned to:
/// `{clone_dir}/{host}/{path}`.
pub fn git_dir(ctx: &Context, url: &Url) -> (r: Result<PathBuf, Error>)
    ensures
        match url.host {
            None => r matches Err(e) && e@ == (
                None::<Seq<char>>,
                seq!["URL `"@ + url.serialization@ + "` has no host"@],
            ),
            Some(h) => r matches Ok(d) && d@ == spec_git_dir(ctx.clone_dir@, h@, url.path@),
        },
{
    let host = match &url.host {
        Some(h) => h.clone(),
        None => {
            return Err(Error::custom(concat3("URL `", url.as_str(), "` has no host")));
        },
    };
    let dir = ctx.clone_dir().join_str(host.as_str());
    let trimmed = trim_start_char(url.path.as_str(), '/');
    Ok(dir.join_str(trimmed.as_str()))
}

/// The directory and file that the remote source at `url` is downloaded
/// to: `{download_dir}/{host}/{segments but the last}` and, inside it, the
/// last segment, or `index` when that is empty.
pub fn remote_dir_and_file(ctx: &Context, url: &Url) -> (r: Result<(PathBuf, PathBuf), Error>)
    ensures
        url.host is None ==> (r matches Err(e) && e@ == (
            None::<Seq<char>>,
            seq!["URL `"@ + url.serialization@ + "` has no host"@],
        )),
        url.host is Some && spec_path_segments(url.path@) is None ==> (r matches Err(e) && e@ == (
            None::<Seq<char>>,
            seq!["URL `"@ + url.serialization@ + "` is cannot-be-a-base"@],
        )),
        url.host is Some && spec_path_segments(url.path@) is Some ==> {
            let segs = spec_path_segments(url.path@).unwrap();
            let d = push_all(
                spec_join(ctx.download_dir@, spec_parse_path(url.host.unwrap()@)),
                segs.drop_last(),
            );
            r matches Ok(p) && p.0@ == d && p.1@ == spec_join(
                d,
                spec_parse_path(spec_download_name(segs)),
            )
        },
{
    let host = match &url.host {
        Some(h) => h.clone(),
        None => {
            return Err(Error::custom(concat3("URL `", url.as_str(), "` has no host")));
        },
    };
    let segments = match path_segments(url) {
        Some(s) => s,
        None => {
            return Err(Error::custom(concat3("URL `", url.as_str(), "` is cannot-be-a-base")));
        },
    };
    let ghost segs = crate::text::strings_view(segments@);
    proof {
        lemma_split_nonempty(url.path@.drop_first());
    }
    let mut dir = ctx.download_dir().join_str(host.as_str());
    let ghost base = dir@;
    let n = segments.len();
    let mut i: usize = 0;
    assert(segs.drop_last().take(0) =~= Seq::<Seq<char>>::empty());
    while i < n - 1
        invariant
            n == segments.len(),
            n >= 1,
            segs == crate::text::strings_view(segments@),
            i <= n - 1,
            dir@ == push_all(base, segs.drop_last().take(i as int)),
        decreases n - 1 - i,
    {
        dir = dir.join_str(segments[i].as_str());
        assert(segs.drop_last().take(i + 1).drop_last() =~= segs.drop_last().take(i as int));
        i = i + 1;
    }
    assert(segs.drop_last().take(n - 1) =~= segs.drop_last());
    let last = segments[n - 1].as_str();
    proof {
        reveal_strlit("index");
    }
    let file = if last.unicode_len() == 0 {
        assert("index"@ =~= seq!['i', 'n', 'd', 'e', 'x']);
        dir.join_str("index")
    } else {
        dir.join_str(last)
    };
    Ok((dir, file))
}

/// Works out what locking `source` needs done: where a Git source is cloned
/// to, where a remote source is downloaded to, or the local directory with
/// `~` expanded.
pub fn plan_lock(ctx: &Context, source: Source) -> (r: Result<SourcePlan, Error>)
    ensures
        match spec_plan_error(source) {
            Some(m) => r matches Err(e) && e@ == (None::<Seq<char>>, seq![m]),
            None => r matches Ok(p) && spec_plan(
                source,
                p,
                ctx.home@,
                ctx.clone_dir@,
                ctx.download_dir@,
            ),
        },
{
    match source {
        Source::Git { url, reference } => {
            let dir = match git_dir(ctx, &url) {
                Ok(d) => d,
                Err(e) => {
                    return Err(e);
                },
            };
            let checkout = GitCheckout::from(reference);
            Ok(SourcePlan::Git { dir, url, checkout })
        },
        Source::Remote { url } => {
            let (dir, file) = match remote_dir_and_file(ctx, &url) {
                Ok(p) => p,
                Err(e) => {
                    return Err(e);
                },
            };
            Ok(SourcePlan::Remote { dir, file, url })
        },
        Source::Local { dir } => Ok(SourcePlan::Local { dir: ctx.expand_tilde(dir) }),
    }
}

} // verus!

verus! {

/// A step of bringing a Git source to its configured revision.
#[derive(Debug, Clone, Copy, PartialEq, Eq, Structural)]
pub enum GitStep {
    /// Open the repository in the clone directory.
    Open,
    /// Check out the configured revision if HEAD is not already at it.
    Checkout,
    /// Fetch from the remote.
    Fetch,
    /// Check out the configured revision, after a fetch.
    CheckoutAfterFetch,
    /// Clone the repository afresh and check out the configured revision.
    Install,
}

/// What follows a step.
#[derive(Debug, Clone, Copy, PartialEq, Eq, Structural)]
pub enum GitNext {
    /// Take this step next.
    Step(GitStep),
    /// The source is locked.
    Done,
    /// Locking failed with the error of the step just taken.
    Fail,
}

/// The first step of locking a Git source in the given mode.
pub open spec fn spec_git_first(mode: LockMode) -> GitStep {
    match mode {
        LockMode::Reinstall => GitStep::Install,
        _ => GitStep::Open,
    }
}

/// What follows `step` in the given mode, when it succeeded or failed.
pub open spec fn spec_git_next(mode: LockMode, step: GitStep, ok: bool) -> GitNext {
    match step {
        GitStep::Open => if !ok {
            GitNext::Step(GitStep::Install)
        } else if mode == LockMode::Update {
            GitNext::Step(GitStep::Fetch)
        } else {
            GitNext::Step(GitStep::Checkout)
        },
        GitStep::Checkout => if ok {
            GitNext::Done
        } else {
            GitNext::Step(GitStep::Fetch)
        },
        GitStep::Fetch => if ok {
            GitNext::Step(GitStep::CheckoutAfterFetch)
        } else {
            GitNext::Fail
        },
        GitStep::CheckoutAfterFetch => if ok {
            GitNext::Done
        } else {
            GitNext::Fail
        },
        GitStep::Install => if ok {
            GitNext::Done
        } else {
            GitNext::Fail
        },
    }
}

/// The first step of locking a Git source: install afresh when
/// reinstalling, otherwise open the existing clone.
pub fn git_first_step(mode: LockMode) -> (s: GitStep)
    ensures
        s == spec_git_first(mode),
{
    match mode {
        LockMode::Reinstall => GitStep::Install,
        _ => GitStep::Open,
    }
}

/// What follows `step`: a clone that cannot be opened is installed afresh;
/// an opened clone is fetched first when updating, otherwise checked out,
/// and fetched and checked out again when that fails; a failed fetch,
/// install, or checkout after a fetch fails the lock.
pub fn git_next_step(mode: LockMode, step: GitStep, ok: bool) -> (n: GitNext)
    ensures
        n == spec_git_next(mode, step, ok),
        step == GitStep::Fetch && ok ==> n == GitNext::Step(GitStep::CheckoutAfterFetch),
        n == GitNext::Done ==> ok && (step == GitStep::Checkout || step
            == GitStep::CheckoutAfterFetch || step == GitStep::Install),
{
    match step {
        GitStep::Open => if !ok {
            GitNext::Step(GitStep::Install)
        } else {
            match mode {
                LockMode::Update => GitNext::Step(GitStep::Fetch),
                _ => GitNext::Step(GitStep::Checkout),
            }
        },
        GitStep::Checkout => if ok {
            GitNext::Done
        } else {
            GitNext::Step(GitStep::Fetch)
        },
        GitStep::Fetch => if ok {
            GitNext::Step(GitStep::CheckoutAfterFetch)
        } else {
            GitNext::Fail
        },
        GitStep::CheckoutAfterFetch => if ok {
            GitNext::Done
        } else {
            GitNext::Fail
        },
        GitStep::Install => if ok {
            GitNext::Done
        } else {
            GitNext::Fail
        },
    }
}

/// How many steps can still follow a step, at most.
pub open spec fn git_steps_left(step: GitStep) -> nat {
    match step {
        GitStep::Open => 3,
        GitStep::Checkout => 2,
        GitStep::Fetch => 1,
        GitStep::CheckoutAfterFetch => 0,
        GitStep::Install => 0,
    }
}

/// Locking a Git source ends: each step is followed by one with fewer steps
/// left, so at most four steps are taken.
pub proof fn lemma_git_steps_end(mode: LockMode, step: GitStep, ok: bool)
    ensures
        spec_git_next(mode, step, ok) matches GitNext::Step(s) ==> git_steps_left(s)
            < git_steps_left(step),
        git_steps_left(spec_git_first(mode)) <= 3,
{
}

/// A successful fetch is always followed by checking out the configured
/// revision, in every mode; and locking is done only right after a step
/// that succeeded in bringing the clone to that revision: a checkout, a
/// checkout after a fetch, or a fresh install. So in particular `--update`
/// never stops at the fetch, and no failed step ends the locking as done.
pub proof fn lemma_fetch_then_checkout(mode: LockMode, step: GitStep, ok: bool)
    ensures
        spec_git_next(mode, GitStep::Fetch, true) == GitNext::Step(GitStep::CheckoutAfterFetch),
        spec_git_next(mode, step, ok) == GitNext::Done ==> ok && (step == GitStep::Checkout
            || step == GitStep::CheckoutAfterFetch || step == GitStep::Install),
        spec_git_next(mode, GitStep::Fetch, false) == GitNext::Fail,
{
}

/// Reinstalling never reuses an existing clone, and the other modes never
/// install afresh while an existing clone opens.
pub proof fn lemma_git_modes(mode: LockMode)
    ensures
        mode == LockMode::Reinstall ==> spec_git_first(mode) == GitStep::Install,
        mode != LockMode::Reinstall ==> spec_git_first(mode) == GitStep::Open,
        spec_git_next(mode, GitStep::Open, true) != GitNext::Step(GitStep::Install),
        mode == LockMode::Update ==> spec_git_next(mode, GitStep::Open, true) == GitNext::Step(
            GitStep::Fetch,
        ),
{
}

/// The status shown when a clone is already at the configured revision:
/// `{url}{checkout}`.
pub fn checked_message(url: &Url, checkout: &GitCheckout) -> (s: String)
    ensures
        s@ == url.serialization@ + spec_checkout_text(*checkout),
{
    concat2(url.as_str(), checkout.to_string().as_str())
}

/// The status shown when a clone was moved to another revision:
/// `{url}{checkout} ({current} to {expected})`, each object id cut to its
/// first seven characters.
pub fn updated_message(url: &Url, checkout: &GitCheckout, current: &str, expected: &str) -> (s: String)
    requires
        current@.len() >= 7,
        expected@.len() >= 7,
    ensures
        s@ == url.serialization@ + spec_checkout_text(*checkout) + " ("@ + current@.take(7)
            + " to "@ + expected@.take(7) + ")"@,
{
    let head = checked_message(url, checkout);
    let cur = current.substring_char(0, 7);
    let exp = expected.substring_char(0, 7);
    let s = concat3(head.as_str(), " (", cur);
    let s = concat3(s.as_str(), " to ", exp);
    let s = concat2(s.as_str(), ")");
    assert(cur@ =~= current@.take(7));
    assert(exp@ =~= expected@.take(7));
    s
}

/// Whether a remote source needs no download: in the normal mode, when its
/// file is already present.
pub fn remote_is_current(mode: LockMode, file_exists: bool) -> (b: bool)
    ensures
        b == (mode == LockMode::Normal && file_exists),
{
    match mode {
        LockMode::Normal => file_exists,
        _ => false,
    }
}

/// The error of a local source that matches other than one directory.
pub open spec fn spec_local_error(dir: PathView, found: Option<nat>) -> Seq<char> {
    match found {
        Some(n) => "`"@ + spec_path_text(dir) + "` matches "@ + spec_decimal(n) + " directories"@,
        None => "`"@ + spec_path_text(dir) + "` is not a dir"@,
    }
}

/// The directory of a local source `dir` (with `~` expanded): `dir` itself
/// when it is a directory; otherwise the one directory that `dir` matches
/// as a glob pattern. `matched` holds the directories that the pattern
/// matched, or `None` when it is not a valid pattern.
pub fn lock_local(dir: PathBuf, is_dir: bool, matched: Option<Vec<PathBuf>>) -> (r: Result<
    LockedSource,
    Error,
>)
    ensures
        is_dir ==> (r matches Ok(s) && s.dir == dir && s.file is None),
        !is_dir ==> match matched {
            Some(v) => if v.len() == 1 {
                r matches Ok(s) && s.dir == v[0] && s.file is None
            } else {
                r matches Err(e) && e@ == (
                    None::<Seq<char>>,
                    seq![spec_local_error(dir@, Some(v.len() as nat))],
                )
            },
            None => r matches Err(e) && e@ == (
                None::<Seq<char>>,
                seq![spec_local_error(dir@, None)],
            ),
        },
{
    if is_dir {
        return Ok(LockedSource { dir, file: None });
    }
    match matched {
        Some(mut v) => {
            if v.len() == 1 {
                let d = v.remove(0);
                Ok(LockedSource { dir: d, file: None })
            } else {
                let text = dir.to_string();
                let m = concat3("`", text.as_str(), "` matches ");
                let m = concat3(m.as_str(), usize_to_string(v.len()).as_str(), " directories");
                Err(Error::custom(m))
            }
        },
        None => {
            let text = dir.to_string();
            Err(Error::custom(concat3("`", text.as_str(), "` is not a dir")))
        },
    }
}

} // verus!

verus! {

/// The identity of a reference: its kind and its name.
pub open spec fn reference_key(r: Option<GitReference>) -> Option<(int, Seq<char>)> {
    match r {
        None => None,
        Some(GitReference::Branch(s)) => Some((0, s@)),
        Some(GitReference::Rev(s)) => Some((1, s@)),
        Some(GitReference::Tag(s)) => Some((2, s@)),
    }
}

/// The identity of a source: plugins whose sources have the same identity
/// share one installation.
pub enum SourceKey {
    Git(Seq<char>, Option<(int, Seq<char>)>),
    Remote(Seq<char>),
    Local(PathView),
}

/// The identity of a source: the URL of a Git source with its reference,
/// the URL of a remote source, or the directory of a local source.
pub open spec fn source_key(s: Source) -> SourceKey {
    match s {
        Source::Git { url, reference } => SourceKey::Git(
            url.serialization@,
            reference_key(reference),
        ),
        Source::Remote { url } => SourceKey::Remote(url.serialization@),
        Source::Local { dir } => SourceKey::Local(dir@),
    }
}

/// Whether two references are the same.
fn same_reference(a: &Option<GitReference>, b: &Option<GitReference>) -> (r: bool)
    ensures
        r == (reference_key(*a) == reference_key(*b)),
{
    match (a, b) {
        (None, None) => true,
        (Some(GitReference::Branch(x)), Some(GitReference::Branch(y))) => crate::text::str_eq(x.as_str(), y.as_str()),
        (Some(GitReference::Rev(x)), Some(GitReference::Rev(y))) => crate::text::str_eq(x.as_str(), y.as_str()),
        (Some(GitReference::Tag(x)), Some(GitReference::Tag(y))) => crate::text::str_eq(x.as_str(), y.as_str()),
        _ => false,
    }
}

/// Whether two sources have the same identity.
pub fn same_source(a: &Source, b: &Source) -> (r: bool)
    ensures
        r == (source_key(*a) == source_key(*b)),
{
    match (a, b) {
        (Source::Git { url: u, reference: r }, Source::Git { url: v, reference: q }) => {
            u.same_as(v) && same_reference(r, q)
        },
        (Source::Remote { url: u }, Source::Remote { url: v }) => u.same_as(v),
        (Source::Local { dir: d }, Source::Local { dir: e }) => d.same_as(e),
        _ => false,
    }
}

impl Source {
    /// A copy of this source.
    pub fn duplicate(&self) -> (s: Source)
        ensures
            source_key(s) == source_key(*self),
            spec_source_text(s) == spec_source_text(*self),
            s is Remote <==> *self is Remote,
    {
        match self {
            Source::Git { url, reference } => Source::Git {
                url: url.duplicate(),
                reference: match reference {
                    Some(r) => Some(r.duplicate()),
                    None => None,
                },
            },
            Source::Remote { url } => Source::Remote { url: url.duplicate() },
            Source::Local { dir } => Source::Local { dir: dir.duplicate() },
        }
    }
}

} // verus!
