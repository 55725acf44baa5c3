//! Locking an external plugin: rendering its directory and file patterns,
//! and choosing its files from what the patterns match.
//!
//! Matching patterns against the file system is done by the caller: locking
//! asks for a glob with [`PluginLockState::Glob`] and carries on in
//! [`resume`] with what was found.

use vstd::prelude::*;

use crate::config::{ExternalPlugin, Source};
use crate::context::Context;
use crate::error::{Error, ErrorKind, ErrorView};
use crate::lock::source::LockedSource;
use crate::lock::LockedExternalPlugin;
use crate::template::{pairs_view, render_plain, template_render_plain};
use crate::text::{concat2, concat3, strings_view, to_owned_string};
use crate::util::path::{spec_join, spec_parse_path, spec_path_text, PathBuf, PathView};

verus! {

/// What rendering the template `t` with the string entries `data` gives:
/// the output, or the error, whose message names the template.
pub open spec fn spec_render(t: Seq<char>, data: Seq<(Seq<char>, Seq<char>)>) -> Result<
    Seq<char>,
    ErrorView,
> {
    match template_render_plain(t, data) {
        Ok(s) => Ok(s),
        Err((compiling, m)) => Err(
            (
                Some(m),
                seq![
                    if compiling {
                        "failed to compile template `"@ + t + "`"@
                    } else {
                        "failed to render template `"@ + t + "`"@
                    },
                ],
            ),
        ),
    }
}

/// Renders the template `t` with the string entries `data`.
pub fn render_template(t: &str, data: &Vec<(String, String)>) -> (r: Result<String, Error>)
    ensures
        match spec_render(t@, pairs_view(data@)) {
            Ok(s) => r matches Ok(x) && x@ == s,
            Err(ev) => r matches Err(e) && e@ == ev,
        },
{
    match render_plain(t, data) {
        Ok(s) => Ok(s),
        Err((compiling, m)) => {
            let e = if compiling {
                let c = concat3("failed to compile template `", t, "`");
                Error::from_kind(ErrorKind::Template(m)).context(c)
            } else {
                let c = concat3("failed to render template `", t, "`");
                Error::from_kind(ErrorKind::Render(m)).context(c)
            };
            assert(e@.1.len() == 1);
            assert(e@.1 =~= seq![e@.1[0]]);
            Err(e)
        },
    }
}

/// The result of rendering each of `ts` in turn: all outputs, or the error
/// of the first that fails.
pub open spec fn spec_render_all(ts: Seq<Seq<char>>, data: Seq<(Seq<char>, Seq<char>)>) -> Result<
    Seq<Seq<char>>,
    ErrorView,
>
    decreases ts.len(),
{
    if ts.len() == 0 {
        Ok(Seq::empty())
    } else {
        match spec_render_all(ts.drop_last(), data) {
            Err(e) => Err(e),
            Ok(done) => match spec_render(ts.last(), data) {
                Err(e) => Err(e),
                Ok(s) => Ok(done.push(s)),
            },
        }
    }
}

/// Once a prefix fails to render, the whole list fails with that error.
proof fn lemma_render_all_prefix(ts: Seq<Seq<char>>, data: Seq<(Seq<char>, Seq<char>)>, m: int)
    requires
        0 <= m <= ts.len(),
        spec_render_all(ts.take(m), data) is Err,
    ensures
        spec_render_all(ts, data) == spec_render_all(ts.take(m), data),
    decreases ts.len() - m,
{
    if m == ts.len() {
        assert(ts.take(m) =~= ts);
    } else {
        assert(ts.drop_last().take(m) =~= ts.take(m));
        lemma_render_all_prefix(ts.drop_last(), data, m);
    }
}

/// Renders each of `ts` in turn.
fn render_all(ts: &Vec<String>, data: &Vec<(String, String)>) -> (r: Result<Vec<String>, Error>)
    ensures
        match spec_render_all(strings_view(ts@), pairs_view(data@)) {
            Ok(v) => r matches Ok(x) && strings_view(x@) == v,
            Err(ev) => r matches Err(e) && e@ == ev,
        },
{
    let ghost tv = strings_view(ts@);
    let mut out: Vec<String> = Vec::new();
    let mut i: usize = 0;
    assert(tv.take(0) =~= Seq::<Seq<char>>::empty());
    assert(strings_view(out@) =~= Seq::<Seq<char>>::empty());
    while i < ts.len()
        invariant
            i <= ts.len(),
            tv == strings_view(ts@),
            spec_render_all(tv.take(i as int), pairs_view(data@)) == Ok::<
                Seq<Seq<char>>,
                ErrorView,
            >(strings_view(out@)),
        decreases ts.len() - i,
    {
        assert(tv.take(i + 1).drop_last() =~= tv.take(i as int));
        assert(tv.take(i + 1).last() == ts@[i as int]@);
        match render_template(ts[i].as_str(), data) {
            Ok(s) => {
                let ghost before = out@;
                out.push(s);
                assert(strings_view(out@) =~= strings_view(before).push(s@));
            },
            Err(e) => {
                proof {
                    lemma_render_all_prefix(tv, pairs_view(data@), i + 1);
                }
                return Err(e);
            },
        }
        i = i + 1;
    }
    assert(tv.take(ts.len() as int) =~= tv);
    Ok(out)
}

/// A plugin part way through locking.
#[derive(Debug)]
pub struct PluginLocker {
    /// The name of the plugin.
    pub name: String,
    /// The directory that the plugin's source resides in.
    pub source_dir: PathBuf,
    /// The rendered plugin directory, if the plugin configures one.
    pub plugin_dir: Option<PathBuf>,
    /// The directory that file patterns are matched in.
    pub dir: PathBuf,
    /// The templates to apply.
    pub apply: Vec<String>,
    /// The hooks of the plugin.
    pub hooks: Vec<(String, String)>,
    /// The entries that patterns are rendered with.
    pub data: Vec<(String, String)>,
    /// The rendered `use` patterns, when the plugin configures them.
    pub uses: Option<Vec<String>>,
    /// The global match patterns not tried yet, in order.
    pub remaining: Vec<String>,
}

/// Where locking a plugin stands.
#[derive(Debug)]
pub enum PluginLockState {
    /// The files in `locker.dir` that match `patterns` are needed, sorted by
    /// file name; pass them to [`resume`].
    Glob { locker: PluginLocker, patterns: Vec<String> },
    /// Locking is finished.
    Done(Result<LockedExternalPlugin, Error>),
}

/// The entries that the directory of a plugin is rendered with.
pub open spec fn base_data(data_dir: Seq<char>, name: Seq<char>) -> Seq<(Seq<char>, Seq<char>)> {
    seq![("data_dir"@, data_dir), ("name"@, name)]
}

/// The hooks of a plugin: none when it configures none.
pub open spec fn spec_hooks(h: Option<Vec<(String, String)>>) -> Seq<(Seq<char>, Seq<char>)> {
    match h {
        Some(v) => pairs_view(v@),
        None => Seq::empty(),
    }
}

/// The templates a plugin applies: its own, or else the global ones.
pub open spec fn spec_apply(a: Option<Vec<String>>, global: Seq<String>) -> Seq<Seq<char>> {
    match a {
        Some(v) => strings_view(v@),
        None => strings_view(global),
    }
}

/// Whether `p` is the locked plugin made from `locker` with the given
/// files.
pub open spec fn spec_finished(p: LockedExternalPlugin, locker: PluginLocker, files: Seq<PathBuf>) -> bool {
    &&& p.name == locker.name
    &&& p.source_dir == locker.source_dir
    &&& p.plugin_dir == locker.plugin_dir
    &&& p.files@ == files
    &&& p.apply == locker.apply
    &&& p.hooks == locker.hooks
}

/// What trying the next global match pattern of `locker` gives: with none
/// left, the plugin locked with no files; otherwise the error of rendering
/// the pattern, or a request for its matches with the pattern taken off the
/// list.
pub open spec fn spec_next_match(locker: PluginLocker, s: PluginLockState) -> bool {
    if locker.remaining.len() == 0 {
        s matches PluginLockState::Done(Ok(p)) && spec_finished(p, locker, Seq::empty())
    } else {
        match spec_render(locker.remaining@[0]@, pairs_view(locker.data@)) {
            Err(ev) => s matches PluginLockState::Done(Err(e)) && e@ == ev,
            Ok(pat) => s matches PluginLockState::Glob { locker: l, patterns } && strings_view(
                patterns@,
            ) == seq![pat] && l.remaining@ == locker.remaining@.drop_first() && l.name
                == locker.name && l.source_dir == locker.source_dir && l.plugin_dir
                == locker.plugin_dir && l.dir == locker.dir && l.apply == locker.apply && l.hooks
                == locker.hooks && l.data == locker.data && l.uses == locker.uses,
        }
    }
}

/// Tries the next global match pattern: renders it and asks for its
/// matches; with none left, the plugin is locked with no files.
pub fn next_match(locker: PluginLocker) -> (s: PluginLockState)
    ensures
        spec_next_match(locker, s),
{
    let mut locker = locker;
    if locker.remaining.len() == 0 {
        let PluginLocker { name, source_dir, plugin_dir, apply, hooks, .. } = locker;
        let files: Vec<PathBuf> = Vec::new();
        assert(files@ =~= Seq::<PathBuf>::empty());
        return PluginLockState::Done(
            Ok(LockedExternalPlugin { name, source_dir, plugin_dir, files, apply, hooks }),
        );
    }
    let ghost before = locker.remaining@;
    let g = locker.remaining.remove(0);
    assert(locker.remaining@ =~= before.drop_first());
    match render_template(g.as_str(), &locker.data) {
        Err(e) => PluginLockState::Done(Err(e)),
        Ok(pattern) => {
            let mut patterns: Vec<String> = Vec::new();
            patterns.push(pattern);
            assert(strings_view(patterns@) =~= seq![pattern@]);
            PluginLockState::Glob { locker, patterns }
        },
    }
}

/// The message when no file matches the `use` patterns of a plugin.
pub open spec fn no_files_message(patterns: Seq<Seq<char>>) -> Seq<char> {
    "failed to find any files matching any of `"@ + crate::text::debug_list(patterns) + "`"@
}

/// Carries on locking with the files found for the patterns asked for:
/// the files matching the `use` patterns (it is an error when there are
/// none), or those of the first global pattern that matches any.
pub fn resume(locker: PluginLocker, found: Result<Vec<PathBuf>, Error>) -> (s: PluginLockState)
    ensures
        match found {
            Err(e) => s == PluginLockState::Done(Err(e)),
            Ok(files) => match locker.uses {
                Some(us) => if files.len() == 0 {
                    s matches PluginLockState::Done(Err(e)) && e@ == (
                        None::<Seq<char>>,
                        seq![no_files_message(strings_view(us@))],
                    )
                } else {
                    s matches PluginLockState::Done(Ok(p)) && spec_finished(p, locker, files@)
                },
                None => if files.len() > 0 {
                    s matches PluginLockState::Done(Ok(p)) && spec_finished(p, locker, files@)
                } else {
                    spec_next_match(locker, s)
                },
            },
        },
{
    match found {
        Err(e) => PluginLockState::Done(Err(e)),
        Ok(files) => {
            let n = files.len();
            match &locker.uses {
                Some(us) => {
                    if n == 0 {
                        let list = crate::text::debug_strings(us);
                        let m = concat3(
                            "failed to find any files matching any of `",
                            list.as_str(),
                            "`",
                        );
                        return PluginLockState::Done(Err(Error::custom(m)));
                    }
                },
                None => {
                    if n == 0 {
                        return next_match(locker);
                    }
                },
            }
            let PluginLocker { name, source_dir, plugin_dir, apply, hooks, .. } = locker;
            PluginLockState::Done(
                Ok(LockedExternalPlugin { name, source_dir, plugin_dir, files, apply, hooks }),
            )
        },
    }
}

} // verus!

verus! {

/// The plugin directory of a plugin: its `dir` rendered with `data` and
/// joined to the source directory, if it configures one; or the error of
/// rendering it.
pub open spec fn spec_plugin_dir(
    dir: Option<String>,
    source_dir: PathView,
    data: Seq<(Seq<char>, Seq<char>)>,
) -> Result<Option<PathView>, ErrorView> {
    match dir {
        None => Ok(None),
        Some(d) => match spec_render(d@, data) {
            Err(e) => Err(e),
            Ok(r) => Ok(Some(spec_join(source_dir, spec_parse_path(r)))),
        },
    }
}

/// Whether `l` holds what locking `plugin` starts from: its name, source
/// directory, rendered plugin directory, the directory that patterns are
/// matched in, the templates to apply, its hooks, and the entries that
/// patterns are rendered with.
pub open spec fn spec_locker_for(
    l: PluginLocker,
    plugin: ExternalPlugin,
    source_dir: PathBuf,
    global_apply: Seq<String>,
    data_dir: Seq<char>,
) -> bool {
    let data0 = base_data(data_dir, plugin.name@);
    &&& l.name == plugin.name
    &&& l.source_dir == source_dir
    &&& spec_plugin_dir(plugin.dir, source_dir@, data0) matches Ok(pd) && match pd {
        Some(p) => l.plugin_dir matches Some(x) && x@ == p && l.dir@ == p,
        None => l.plugin_dir is None && l.dir@ == source_dir@,
    }
    &&& strings_view(l.apply@) == spec_apply(plugin.apply, global_apply)
    &&& pairs_view(l.hooks@) == spec_hooks(plugin.hooks)
    &&& pairs_view(l.data@) == data0.push(("dir"@, spec_path_text(l.dir@)))
}

proof fn lemma_pairs_view_push(v: Seq<(String, String)>, p: (String, String))
    ensures
        pairs_view(v.push(p)) == pairs_view(v).push((p.0@, p.1@)),
{
    assert(pairs_view(v.push(p)) =~= pairs_view(v).push((p.0@, p.1@)));
}

/// Starts locking the external plugin `plugin`, whose source was locked as
/// `locked_source`.
///
/// A remote plugin is locked at once, with the downloaded file. Otherwise
/// its directory is rendered, then its `use` patterns are rendered and
/// matched all together, or else the global `match` patterns are rendered
/// and matched one at a time until one matches any file. The templates
/// applied are the plugin's own, or else `global_apply`.
pub fn lock(
    ctx: &Context,
    locked_source: LockedSource,
    global_matches: &Vec<String>,
    global_apply: &Vec<String>,
    plugin: ExternalPlugin,
) -> (s: PluginLockState)
    requires
        plugin.source is Remote ==> locked_source.file is Some,
    ensures
        plugin.source is Remote ==> (s matches PluginLockState::Done(Ok(p)) && p.name
            == plugin.name && p.source_dir == locked_source.dir && p.plugin_dir is None && p.files@
            == seq![locked_source.file.unwrap()] && strings_view(p.apply@) == spec_apply(
            plugin.apply,
            global_apply@,
        ) && pairs_view(p.hooks@) == spec_hooks(plugin.hooks)),
        !(plugin.source is Remote) ==> match spec_plugin_dir(
            plugin.dir,
            locked_source.dir@,
            base_data(spec_path_text(ctx.data_dir@), plugin.name@),
        ) {
            Err(ev) => s matches PluginLockState::Done(Err(e)) && e@ == ev,
            Ok(_) => match plugin.uses {
                Some(us) => (exists|l: PluginLocker|
                    spec_locker_for(
                        l,
                        plugin,
                        locked_source.dir,
                        global_apply@,
                        spec_path_text(ctx.data_dir@),
                    ) && match spec_render_all(strings_view(us@), pairs_view(l.data@)) {
                        Err(ev) => s matches PluginLockState::Done(Err(e)) && e@ == ev,
                        Ok(pats) => s matches PluginLockState::Glob { locker: g, patterns }
                            && strings_view(patterns@) == pats && (g.uses matches Some(u)
                            && strings_view(u@) == pats) && g.remaining@.len() == 0 && g.name
                            == l.name && g.source_dir == l.source_dir && g.plugin_dir
                            == l.plugin_dir && g.dir == l.dir && g.apply == l.apply && g.hooks
                            == l.hooks && g.data == l.data,
                    }),
                None => (exists|l: PluginLocker|
                    spec_locker_for(
                        l,
                        plugin,
                        locked_source.dir,
                        global_apply@,
                        spec_path_text(ctx.data_dir@),
                    ) && l.uses is None && strings_view(l.remaining@) == strings_view(
                        global_matches@,
                    ) && spec_next_match(l, s)),
            },
        },
{
    let ghost pl = plugin;
    let ExternalPlugin { name, source, dir, uses, apply, profiles: _, hooks } = plugin;
    let apply = match apply {
        Some(a) => a,
        None => global_apply.clone(),
    };
    let hooks = match hooks {
        Some(h) => h,
        None => Vec::new(),
    };
    assert(pairs_view(hooks@) =~= spec_hooks(pl.hooks));
    assert(strings_view(apply@) =~= spec_apply(pl.apply, global_apply@));
    if source.is_remote() {
        let LockedSource { dir: source_dir, file } = locked_source;
        let mut files: Vec<PathBuf> = Vec::new();
        files.push(file.unwrap());
        assert(files@ =~= seq![locked_source.file.unwrap()]);
        return PluginLockState::Done(
            Ok(LockedExternalPlugin { name, source_dir, plugin_dir: None, files, apply, hooks }),
        );
    }
    proof {
        reveal_strlit("data_dir");
        reveal_strlit("name");
        reveal_strlit("dir");
    }
    let mut data: Vec<(String, String)> = Vec::new();
    data.push((to_owned_string("data_dir"), ctx.data_dir().to_string()));
    data.push((to_owned_string("name"), name.clone()));
    assert(pairs_view(data@) =~= base_data(spec_path_text(ctx.data_dir@), pl.name@));
    let source_dir = locked_source.dir;
    let plugin_dir = match dir {
        Some(d) => match render_template(d.as_str(), &data) {
            Ok(r) => Some(source_dir.join_str(r.as_str())),
            Err(e) => {
                return PluginLockState::Done(Err(e));
            },
        },
        None => None,
    };
    let pdir = match &plugin_dir {
        Some(p) => p.duplicate(),
        None => source_dir.duplicate(),
    };
    let ghost before = data@;
    let entry = (to_owned_string("dir"), pdir.to_string());
    proof {
        lemma_pairs_view_push(before, entry);
    }
    data.push(entry);
    match uses {
        Some(us) => {
            let mut locker = PluginLocker {
                name,
                source_dir,
                plugin_dir,
                dir: pdir,
                apply,
                hooks,
                data,
                uses: None,
                remaining: Vec::new(),
            };
            assert(spec_locker_for(
                locker,
                pl,
                locked_source.dir,
                global_apply@,
                spec_path_text(ctx.data_dir@),
            ));
            let ghost l = locker;
            match render_all(&us, &locker.data) {
                Err(e) => PluginLockState::Done(Err(e)),
                Ok(patterns) => {
                    locker.uses = Some(patterns.clone());
                    PluginLockState::Glob { locker, patterns }
                },
            }
        },
        None => {
            let locker = PluginLocker {
                name,
                source_dir,
                plugin_dir,
                dir: pdir,
                apply,
                hooks,
                data,
                uses: None,
                remaining: global_matches.clone(),
            };
            assert(spec_locker_for(
                locker,
                pl,
                locked_source.dir,
                global_apply@,
                spec_path_text(ctx.data_dir@),
            ));
            let ghost l = locker;
            let s = next_match(locker);
            assert(spec_next_match(l, s));
            s
        },
    }
}

} // verus!

verus! {

/// Each request for the matches of a global pattern takes that pattern off
/// the list, so locking a plugin asks for at most one glob per global
/// pattern.
pub proof fn lemma_next_match_progress(l: PluginLocker, s: PluginLockState)
    requires
        spec_next_match(l, s),
        s is Glob,
    ensures
        s->locker.remaining.len() < l.remaining.len(),
{
}

} // verus!
