//! Locking: installing plugin sources, finding the files of each plugin,
//! and turning a configuration into a locked one.

pub mod source;
pub mod plugin;
pub mod clean;
pub mod script;

use vstd::prelude::*;

use indexmap::IndexMap;

use crate::config::{Config, ExternalPlugin, InlinePlugin, Plugin, Shell, Source};
use crate::config::profile::{profiles_view, spec_matches_profile, MatchesProfile};
use crate::context::{same_context, Context};
use crate::error::{Error, ErrorView};
use crate::config::normalize::errors_view;
use crate::lock::source::{same_source, source_key, SourceKey};
use crate::template::{insert_all, lemma_insert_all_step, spec_default_template_list, spec_default_matches};
use crate::template_map::{map_get_index, map_insert, map_len, template_entries};
use crate::text::strings_view;
use crate::util::path::PathBuf;

verus! {

/// How sources are installed when locking.
#[derive(Debug, Clone, Copy, PartialEq, Eq, Structural)]
pub enum LockMode {
    /// Install missing sources, and check out the configured revision of
    /// those already installed.
    Normal,
    /// Update every source to its latest revision.
    Update,
    /// Reinstall every source.
    Reinstall,
}

/// A locked external plugin.
#[derive(Debug, PartialEq, Eq)]
pub struct LockedExternalPlugin {
    /// The name of this plugin.
    pub name: String,
    /// The directory that this plugin's source resides in.
    pub source_dir: PathBuf,
    /// The directory that this plugin resides in (inside the source
    /// directory).
    pub plugin_dir: Option<PathBuf>,
    /// The files to use in the plugin directory.
    pub files: Vec<PathBuf>,
    /// What templates to apply to each file.
    pub apply: Vec<String>,
    /// Hooks executed during template evaluation, by name.
    pub hooks: Vec<(String, String)>,
}

/// A locked plugin.
#[derive(Debug, PartialEq, Eq)]
pub enum LockedPlugin {
    External(LockedExternalPlugin),
    Inline(InlinePlugin),
}

impl LockedExternalPlugin {
    /// The directory of the plugin: its plugin directory, or else its source
    /// directory.
    pub fn dir(&self) -> (d: &PathBuf)
        ensures
            d@ == (match self.plugin_dir {
                Some(p) => p@,
                None => self.source_dir@,
            }),
    {
        match &self.plugin_dir {
            Some(p) => p,
            None => &self.source_dir,
        }
    }
}

/// The plugins of `items` whose source has the identity `k`, in order.
pub open spec fn filter_key(items: Seq<(usize, ExternalPlugin)>, k: SourceKey) -> Seq<
    (usize, ExternalPlugin),
>
    decreases items.len(),
{
    if items.len() == 0 {
        Seq::empty()
    } else {
        let f = filter_key(items.drop_last(), k);
        if source_key(items.last().1.source) == k {
            f.push(items.last())
        } else {
            f
        }
    }
}

/// No plugin of `items` has a source with identity `k`, so none is kept.
proof fn lemma_filter_none(items: Seq<(usize, ExternalPlugin)>, k: SourceKey)
    requires
        forall|i: int| 0 <= i < items.len() ==> source_key(#[trigger] items[i].1.source) != k,
    ensures
        filter_key(items, k) == Seq::<(usize, ExternalPlugin)>::empty(),
    decreases items.len(),
{
    if items.len() > 0 {
        lemma_filter_none(items.drop_last(), k);
        assert(source_key(items[items.len() - 1].1.source) != k);
    }
}

/// Whether `groups` groups `items` by source: one group per identity, each
/// holding, in order, exactly the plugins of `items` with that identity, and
/// none of them empty.
pub open spec fn spec_grouped(
    groups: Seq<(Source, Vec<(usize, ExternalPlugin)>)>,
    items: Seq<(usize, ExternalPlugin)>,
) -> bool {
    &&& forall|j: int| 0 <= j < groups.len() ==> (#[trigger] groups[j]).1@.len() > 0
    &&& forall|j: int, l: int|
        0 <= j < l < groups.len() ==> source_key(#[trigger] groups[j].0) != source_key(
            #[trigger] groups[l].0,
        )
    &&& forall|j: int|
        0 <= j < groups.len() ==> (#[trigger] groups[j]).1@ == filter_key(
            items,
            source_key(groups[j].0),
        )
    &&& forall|i: int|
        0 <= i < items.len() ==> exists|j: int|
            0 <= j < groups.len() && source_key(#[trigger] groups[j].0) == source_key(
                #[trigger] items[i].1.source,
            )
}

/// The position of the group whose source has the identity of `s`.
fn find_group(groups: &Vec<(Source, Vec<(usize, ExternalPlugin)>)>, s: &Source) -> (r: Option<
    usize,
>)
    ensures
        match r {
            Some(j) => j < groups.len() && source_key(groups@[j as int].0) == source_key(*s),
            None => forall|l: int|
                0 <= l < groups.len() ==> source_key(#[trigger] groups@[l].0) != source_key(*s),
        },
{
    let mut j: usize = 0;
    while j < groups.len()
        invariant
            j <= groups.len(),
            forall|l: int| 0 <= l < j ==> source_key(#[trigger] groups@[l].0) != source_key(*s),
        decreases groups.len() - j,
    {
        if same_source(&groups[j].0, s) {
            return Some(j);
        }
        j = j + 1;
    }
    None
}

/// Groups the plugins of `items` by the identity of their source, so that
/// each source is installed once.
pub fn group_plugins(items: Vec<(usize, ExternalPlugin)>) -> (groups: Vec<
    (Source, Vec<(usize, ExternalPlugin)>),
>)
    ensures
        spec_grouped(groups@, items@),
{
    let ghost all = items@;
    let mut rest = items;
    let mut groups: Vec<(Source, Vec<(usize, ExternalPlugin)>)> = Vec::new();
    let mut i: usize = 0;
    let total = rest.len();
    while rest.len() > 0
        invariant
            total == all.len(),
            i + rest.len() == all.len(),
            rest@ == all.skip(i as int),
            spec_grouped(groups@, all.take(i as int)),
        decreases rest.len(),
    {
        let item = rest.remove(0);
        assert(all[i as int] == item);
        let ghost done = all.take(i as int);
        assert(all.take(i + 1) =~= done.push(item));
        assert(all.take(i + 1).drop_last() =~= done);
        let ghost k = source_key(item.1.source);
        let pos = find_group(&groups, &item.1.source);
        if let Some(j) = pos {
            let ghost old_groups = groups@;
            let mut g = groups.remove(j);
            g.1.push(item);
            groups.insert(j, g);
            proof {
                assert forall|l: int| 0 <= l < groups@.len() implies (#[trigger] groups@[l]).1@.len()
                    > 0 by {
                    if l != j {
                        assert(groups@[l] == old_groups[l]);
                    }
                }
                assert forall|l: int| 0 <= l < groups@.len() implies (#[trigger] groups@[l]).1@
                    == filter_key(all.take(i + 1), source_key(groups@[l].0)) by {
                    if l != j {
                        assert(groups@[l] == old_groups[l]);
                    }
                }
                assert forall|x: int| 0 <= x < all.take(i + 1).len() implies exists|l: int|
                    0 <= l < groups@.len() && source_key(#[trigger] groups@[l].0) == source_key(
                        #[trigger] all.take(i + 1)[x].1.source,
                    ) by {
                    if x < i {
                        assert(all.take(i + 1)[x] == done[x]);
                        let l0 = choose|l: int|
                            0 <= l < old_groups.len() && source_key(#[trigger] old_groups[l].0)
                                == source_key(done[x].1.source);
                        assert(groups@[l0].0 == old_groups[l0].0);
                    } else {
                        assert(groups@[j as int].0 == old_groups[j as int].0);
                    }
                }
                assert forall|a: int, b: int|
                    0 <= a < b < groups@.len() implies source_key(#[trigger] groups@[a].0)
                    != source_key(#[trigger] groups@[b].0) by {
                    assert(groups@[a].0 == old_groups[a].0);
                    assert(groups@[b].0 == old_groups[b].0);
                }
            }
        } else {
            let ghost old_groups = groups@;
            proof {
                assert forall|x: int| 0 <= x < done.len() implies source_key(
                    #[trigger] done[x].1.source,
                ) != k by {
                    let l0 = choose|l: int|
                        0 <= l < old_groups.len() && source_key(#[trigger] old_groups[l].0)
                            == source_key(done[x].1.source);
                }
                lemma_filter_none(done, k);
            }
            let source = item.1.source.duplicate();
            let mut members: Vec<(usize, ExternalPlugin)> = Vec::new();
            members.push(item);
            groups.push((source, members));
            proof {
                assert forall|l: int| 0 <= l < groups@.len() implies (#[trigger] groups@[l]).1@.len()
                    > 0 by {
                    if l < old_groups.len() {
                        assert(groups@[l] == old_groups[l]);
                    }
                }
                assert(filter_key(all.take(i + 1), k) =~= seq![item]);
                assert forall|l: int| 0 <= l < groups@.len() implies (#[trigger] groups@[l]).1@
                    == filter_key(all.take(i + 1), source_key(groups@[l].0)) by {
                    if l < old_groups.len() {
                        assert(groups@[l] == old_groups[l]);
                    } else {
                        assert(groups@[l].1@ =~= seq![item]);
                    }
                }
                assert forall|x: int| 0 <= x < all.take(i + 1).len() implies exists|l: int|
                    0 <= l < groups@.len() && source_key(#[trigger] groups@[l].0) == source_key(
                        #[trigger] all.take(i + 1)[x].1.source,
                    ) by {
                    if x < i {
                        assert(all.take(i + 1)[x] == done[x]);
                        let l0 = choose|l: int|
                            0 <= l < old_groups.len() && source_key(#[trigger] old_groups[l].0)
                                == source_key(done[x].1.source);
                        assert(groups@[l0] == old_groups[l0]);
                    } else {
                        assert(groups@[old_groups.len() as int].0 == source);
                    }
                }
                assert forall|a: int, b: int|
                    0 <= a < b < groups@.len() implies source_key(#[trigger] groups@[a].0)
                    != source_key(#[trigger] groups@[b].0) by {
                    assert(groups@[a] == old_groups[a]);
                    if b < old_groups.len() {
                        assert(groups@[b] == old_groups[b]);
                    }
                }
            }
        }
        i = i + 1;
    }
    assert(all.take(all.len() as int) =~= all);
    groups
}

/// The external plugins of `ps` used under `profile`, with their positions.
pub open spec fn spec_externals(ps: Seq<Plugin>, profile: Option<Seq<char>>) -> Seq<
    (usize, ExternalPlugin),
>
    decreases ps.len(),
{
    if ps.len() == 0 {
        Seq::empty()
    } else {
        let f = spec_externals(ps.drop_last(), profile);
        match ps.last() {
            Plugin::External(p) => if spec_matches_profile(profiles_view(p.profiles), profile) {
                f.push(((ps.len() - 1) as usize, p))
            } else {
                f
            },
            Plugin::Inline(_) => f,
        }
    }
}

/// The inline plugins of `ps` used under `profile`, locked as they are,
/// with their positions.
pub open spec fn spec_inlines(ps: Seq<Plugin>, profile: Option<Seq<char>>) -> Seq<
    (usize, LockedPlugin),
>
    decreases ps.len(),
{
    if ps.len() == 0 {
        Seq::empty()
    } else {
        let f = spec_inlines(ps.drop_last(), profile);
        match ps.last() {
            Plugin::Inline(p) => if spec_matches_profile(profiles_view(p.profiles), profile) {
                f.push(((ps.len() - 1) as usize, LockedPlugin::Inline(p)))
            } else {
                f
            },
            Plugin::External(_) => f,
        }
    }
}

/// What locking a configuration needs: the templates in use, the file
/// patterns and templates that plugins fall back on, the external plugins
/// grouped by source, and the inline plugins, already locked.
#[derive(Debug)]
pub struct LockPlan {
    /// The built-in templates of the shell, with the configured ones added
    /// over them.
    pub templates: IndexMap<String, String>,
    /// The global file patterns.
    pub matches: Vec<String>,
    /// The global templates to apply.
    pub apply: Vec<String>,
    /// The external plugins in use, with their positions, grouped by source.
    pub groups: Vec<(Source, Vec<(usize, ExternalPlugin)>)>,
    /// The inline plugins in use, with their positions.
    pub inlines: Vec<(usize, LockedPlugin)>,
}

/// The global file patterns: the configured ones, or the shell's.
pub open spec fn spec_global_matches(m: Option<Vec<String>>, shell: Shell) -> Seq<Seq<char>> {
    match m {
        Some(v) => strings_view(v@),
        None => spec_default_matches(shell),
    }
}

/// The global templates to apply: the configured ones, or `source`.
pub open spec fn spec_global_apply(a: Option<Vec<String>>) -> Seq<Seq<char>> {
    match a {
        Some(v) => strings_view(v@),
        None => seq!["source"@],
    }
}

impl Config {
    /// Works out what locking this configuration needs under the context
    /// `ctx`: the templates (the shell's built-in ones with the configured
    /// ones inserted over them), the global file patterns and templates, the
    /// external plugins used under the profile grouped by source, and the
    /// inline plugins used under the profile.
    pub fn lock(self, ctx: &Context) -> (plan: LockPlan)
        ensures
            template_entries(plan.templates) == insert_all(
                spec_default_template_list(self.shell),
                template_entries(self.templates),
            ),
            strings_view(plan.matches@) == spec_global_matches(self.matches, self.shell),
            strings_view(plan.apply@) == spec_global_apply(self.apply),
            spec_grouped(
                plan.groups@,
                spec_externals(self.plugins@, crate::url::opt_view(ctx.profile)),
            ),
            plan.inlines@ == spec_inlines(self.plugins@, crate::url::opt_view(ctx.profile)),
    {
        let ghost cfg = self;
        let Config { shell, matches, apply, templates, plugins } = self;
        let mut map = shell.default_templates();
        let ghost t = template_entries(templates);
        let n = map_len(&templates);
        let mut i: usize = 0;
        assert(t.skip(0) =~= t);
        while i < n
            invariant
                n == t.len(),
                t == template_entries(templates),
                i <= n,
                insert_all(template_entries(map), t.skip(i as int)) == insert_all(
                    spec_default_template_list(shell),
                    t,
                ),
            decreases n - i,
        {
            let (name, source) = map_get_index(&templates, i);
            proof {
                lemma_insert_all_step(template_entries(map), t, i as int);
            }
            map_insert(&mut map, name, source);
            i = i + 1;
        }
        assert(t.skip(n as int) =~= Seq::<(Seq<char>, Seq<char>)>::empty());
        let matches = match matches {
            Some(m) => m,
            None => shell.default_matches(),
        };
        let apply = match apply {
            Some(a) => a,
            None => shell.default_apply(),
        };
        let ghost ps = plugins@;
        let ghost profile = crate::url::opt_view(ctx.profile);
        let mut rest = plugins;
        let mut externals: Vec<(usize, ExternalPlugin)> = Vec::new();
        let mut inlines: Vec<(usize, LockedPlugin)> = Vec::new();
        let total = rest.len();
        let mut k: usize = 0;
        while rest.len() > 0
            invariant
                total == ps.len(),
                k + rest.len() == ps.len(),
                rest@ == ps.skip(k as int),
                profile == crate::url::opt_view(ctx.profile),
                externals@ == spec_externals(ps.take(k as int), profile),
                inlines@ == spec_inlines(ps.take(k as int), profile),
            decreases rest.len(),
        {
            let plugin = rest.remove(0);
            assert(ps[k as int] == plugin);
            assert(ps.take(k + 1).drop_last() =~= ps.take(k as int));
            assert(ps.take(k + 1).last() == plugin);
            match plugin {
                Plugin::External(p) => {
                    if p.matches_profile(ctx) {
                        externals.push((k, p));
                    }
                },
                Plugin::Inline(p) => {
                    if p.matches_profile(ctx) {
                        inlines.push((k, LockedPlugin::Inline(p)));
                    }
                },
            }
            k = k + 1;
        }
        assert(ps.take(total as int) =~= ps);
        let groups = group_plugins(externals);
        LockPlan { templates: map, matches, apply, groups, inlines }
    }
}

/// A locked configuration.
#[derive(Debug)]
pub struct LockedConfig {
    /// The context that was used to generate this locked configuration.
    pub ctx: Context,
    /// Each locked plugin, in the order of the configuration.
    pub plugins: Vec<LockedPlugin>,
    /// The templates, by name.
    pub templates: IndexMap<String, String>,
    /// The errors that occurred while locking.
    pub errors: Vec<Error>,
}

/// What installing one source gave: the error of the source, or the
/// position and result of locking each plugin that uses it.
pub type SourceOutcome = Result<Vec<(usize, Result<LockedExternalPlugin, Error>)>, Error>;

/// The errors of the sources that failed to install, in order.
pub open spec fn source_errors(os: Seq<SourceOutcome>) -> Seq<ErrorView>
    decreases os.len(),
{
    if os.len() == 0 {
        Seq::empty()
    } else {
        match os.last() {
            Err(e) => source_errors(os.drop_last()).push(e@),
            Ok(_) => source_errors(os.drop_last()),
        }
    }
}

/// The plugin results of the sources that installed, in order.
pub open spec fn installed(os: Seq<SourceOutcome>) -> Seq<
    Vec<(usize, Result<LockedExternalPlugin, Error>)>,
>
    decreases os.len(),
{
    if os.len() == 0 {
        Seq::empty()
    } else {
        match os.last() {
            Err(_) => installed(os.drop_last()),
            Ok(v) => installed(os.drop_last()).push(v),
        }
    }
}

/// The errors of the plugins that failed to lock, in order.
pub open spec fn item_errors(v: Seq<(usize, Result<LockedExternalPlugin, Error>)>) -> Seq<ErrorView>
    decreases v.len(),
{
    if v.len() == 0 {
        Seq::empty()
    } else {
        match v.last().1 {
            Err(e) => item_errors(v.drop_last()).push(e@),
            Ok(_) => item_errors(v.drop_last()),
        }
    }
}

/// The locked plugins, with their positions, in order.
pub open spec fn item_successes(v: Seq<(usize, Result<LockedExternalPlugin, Error>)>) -> Seq<
    (usize, LockedPlugin),
>
    decreases v.len(),
{
    if v.len() == 0 {
        Seq::empty()
    } else {
        match v.last().1 {
            Ok(p) => item_successes(v.drop_last()).push((v.last().0, LockedPlugin::External(p))),
            Err(_) => item_successes(v.drop_last()),
        }
    }
}

/// The errors of the plugins of each list, in order.
pub open spec fn lists_errors(ls: Seq<Vec<(usize, Result<LockedExternalPlugin, Error>)>>) -> Seq<
    ErrorView,
>
    decreases ls.len(),
{
    if ls.len() == 0 {
        Seq::empty()
    } else {
        lists_errors(ls.drop_last()) + item_errors(ls.last()@)
    }
}

/// The locked plugins of each list, in order.
pub open spec fn lists_successes(ls: Seq<Vec<(usize, Result<LockedExternalPlugin, Error>)>>) -> Seq<
    (usize, LockedPlugin),
>
    decreases ls.len(),
{
    if ls.len() == 0 {
        Seq::empty()
    } else {
        lists_successes(ls.drop_last()) + item_successes(ls.last()@)
    }
}

/// Whether the positions of `s` never decrease.
pub open spec fn sorted_by_position(s: Seq<(usize, LockedPlugin)>) -> bool {
    forall|a: int, b: int| 0 <= a <= b < s.len() ==> #[trigger] s[a].0 <= #[trigger] s[b].0
}

/// Sorts `items` by position, keeping the order of equal positions.
pub fn sort_by_position(items: Vec<(usize, LockedPlugin)>) -> (r: Vec<(usize, LockedPlugin)>)
    ensures
        sorted_by_position(r@),
        r@.to_multiset() == items@.to_multiset(),
{
    let ghost all = items@;
    let mut rest = items;
    let mut out: Vec<(usize, LockedPlugin)> = Vec::new();
    let mut i: usize = 0;
    let total = rest.len();
    assert(all.take(0) =~= Seq::<(usize, LockedPlugin)>::empty());
    while rest.len() > 0
        invariant
            total == all.len(),
            i + rest.len() == all.len(),
            rest@ == all.skip(i as int),
            sorted_by_position(out@),
            out@.to_multiset() == all.take(i as int).to_multiset(),
        decreases rest.len(),
    {
        let x = rest.remove(0);
        assert(all[i as int] == x);
        assert(all.take(i + 1) =~= all.take(i as int).push(x));
        let mut k: usize = 0;
        while k < out.len() && out[k].0 <= x.0
            invariant
                k <= out.len(),
                forall|a: int| 0 <= a < k ==> #[trigger] out@[a].0 <= x.0,
            decreases out.len() - k,
        {
            k = k + 1;
        }
        let ghost before = out@;
        out.insert(k, x);
        proof {
            assert(out@ =~= before.insert(k as int, x));
            vstd::seq_lib::to_multiset_insert(before, k as int, x);
            vstd::seq_lib::to_multiset_build(all.take(i as int), x);
            assert(before.insert(k as int, x).to_multiset() == before.to_multiset().insert(x));
            assert(all.take(i as int).push(x).to_multiset() == all.take(
                i as int,
            ).to_multiset().insert(x));
            assert forall|a: int, b: int| 0 <= a <= b < out@.len() implies #[trigger] out@[a].0
                <= #[trigger] out@[b].0 by {
                if a < k && b < k {
                    assert(out@[a] == before[a] && out@[b] == before[b]);
                } else if a < k && b == k {
                    assert(out@[a] == before[a]);
                } else if a < k {
                    assert(out@[a] == before[a] && out@[b] == before[b - 1]);
                } else if a == k && b == k {
                } else if a == k {
                    assert(out@[b] == before[b - 1]);
                    assert(before[k as int].0 > x.0);
                    assert(before[k as int].0 <= before[b - 1].0);
                } else {
                    assert(out@[a] == before[a - 1] && out@[b] == before[b - 1]);
                }
            }
        }
        i = i + 1;
    }
    assert(all.take(total as int) =~= all);
    out
}

/// Splits the outcomes of installing sources into the errors of the
/// sources that failed and the plugin results of those that installed.
fn split_outcomes(outcomes: Vec<SourceOutcome>) -> (r: (
    Vec<Error>,
    Vec<Vec<(usize, Result<LockedExternalPlugin, Error>)>>,
))
    ensures
        errors_view(r.0@) == source_errors(outcomes@),
        r.1@ == installed(outcomes@),
{
    let ghost os = outcomes@;
    let mut rest = outcomes;
    let mut errors: Vec<Error> = Vec::new();
    let mut lists: Vec<Vec<(usize, Result<LockedExternalPlugin, Error>)>> = Vec::new();
    let total = rest.len();
    let mut i: usize = 0;
    assert(os.take(0) =~= Seq::<SourceOutcome>::empty());
    assert(errors_view(errors@) =~= Seq::<ErrorView>::empty());
    while rest.len() > 0
        invariant
            total == os.len(),
            i + rest.len() == os.len(),
            rest@ == os.skip(i as int),
            errors_view(errors@) == source_errors(os.take(i as int)),
            lists@ == installed(os.take(i as int)),
        decreases rest.len(),
    {
        let o = rest.remove(0);
        assert(os[i as int] == o);
        assert(os.take(i + 1).drop_last() =~= os.take(i as int));
        match o {
            Err(e) => {
                let ghost before = errors@;
                errors.push(e);
                assert(errors_view(errors@) =~= errors_view(before).push(e@));
            },
            Ok(v) => {
                lists.push(v);
            },
        }
        i = i + 1;
    }
    assert(os.take(total as int) =~= os);
    (errors, lists)
}

/// Adds the errors of the plugin results of `lists` to `errors`, and
/// returns the locked plugins with their positions.
fn split_results(
    lists: Vec<Vec<(usize, Result<LockedExternalPlugin, Error>)>>,
    errors: &mut Vec<Error>,
) -> (succ: Vec<(usize, LockedPlugin)>)
    ensures
        errors_view(final(errors)@) == errors_view(old(errors)@) + lists_errors(lists@),
        succ@ == lists_successes(lists@),
{
    let ghost ls = lists@;
    let ghost start = errors_view(errors@);
    let mut rest = lists;
    let mut succ: Vec<(usize, LockedPlugin)> = Vec::new();
    let total = rest.len();
    let mut j: usize = 0;
    assert(ls.take(0) =~= Seq::<Vec<(usize, Result<LockedExternalPlugin, Error>)>>::empty());
    assert(start + lists_errors(ls.take(0)) =~= start);
    while rest.len() > 0
        invariant
            total == ls.len(),
            j + rest.len() == ls.len(),
            rest@ == ls.skip(j as int),
            start == errors_view(old(errors)@),
            errors_view(errors@) == start + lists_errors(ls.take(j as int)),
            succ@ == lists_successes(ls.take(j as int)),
        decreases rest.len(),
    {
        let v = rest.remove(0);
        assert(ls[j as int] == v);
        assert(ls.take(j + 1).drop_last() =~= ls.take(j as int));
        let ghost vs = v@;
        let ghost e0 = errors_view(errors@);
        let ghost s0 = succ@;
        let mut items = v;
        let n = items.len();
        let mut m: usize = 0;
        assert(vs.take(0) =~= Seq::<(usize, Result<LockedExternalPlugin, Error>)>::empty());
        assert(e0 + item_errors(vs.take(0)) =~= e0);
        assert(s0 + item_successes(vs.take(0)) =~= s0);
        while items.len() > 0
            invariant
                n == vs.len(),
                m + items.len() == vs.len(),
                items@ == vs.skip(m as int),
                errors_view(errors@) == e0 + item_errors(vs.take(m as int)),
                succ@ == s0 + item_successes(vs.take(m as int)),
            decreases items.len(),
        {
            let (idx, res) = items.remove(0);
            assert(vs[m as int] == (idx, res));
            assert(vs.take(m + 1).drop_last() =~= vs.take(m as int));
            match res {
                Err(e) => {
                    let ghost before = errors@;
                    errors.push(e);
                    assert(errors_view(errors@) =~= errors_view(before).push(e@));
                    assert(e0 + item_errors(vs.take(m + 1)) =~= (e0 + item_errors(
                        vs.take(m as int),
                    )).push(e@));
                    assert(s0 + item_successes(vs.take(m + 1)) =~= s0 + item_successes(
                        vs.take(m as int),
                    ));
                },
                Ok(p) => {
                    succ.push((idx, LockedPlugin::External(p)));
                    assert(s0 + item_successes(vs.take(m + 1)) =~= (s0 + item_successes(
                        vs.take(m as int),
                    )).push((idx, LockedPlugin::External(p))));
                    assert(e0 + item_errors(vs.take(m + 1)) =~= e0 + item_errors(
                        vs.take(m as int),
                    ));
                },
            }
            m = m + 1;
        }
        assert(vs.take(n as int) =~= vs);
        assert(start + lists_errors(ls.take(j + 1)) =~= start + lists_errors(ls.take(j as int))
            + item_errors(vs));
        assert(lists_successes(ls.take(j + 1)) =~= lists_successes(ls.take(j as int))
            + item_successes(vs));
        j = j + 1;
    }
    assert(ls.take(total as int) =~= ls);
    succ
}

/// The plugins of `items`, without their positions.
fn strip_positions(items: Vec<(usize, LockedPlugin)>) -> (r: Vec<LockedPlugin>)
    ensures
        r@ == items@.map_values(|x: (usize, LockedPlugin)| x.1),
{
    let ghost all = items@;
    let mut rest = items;
    let mut out: Vec<LockedPlugin> = Vec::new();
    let total = rest.len();
    let mut i: usize = 0;
    while rest.len() > 0
        invariant
            total == all.len(),
            i + rest.len() == all.len(),
            rest@ == all.skip(i as int),
            out@ == all.take(i as int).map_values(|x: (usize, LockedPlugin)| x.1),
        decreases rest.len(),
    {
        let (_, p) = rest.remove(0);
        assert(all[i as int].1 == p);
        out.push(p);
        assert(all.take(i + 1).map_values(|x: (usize, LockedPlugin)| x.1) =~= all.take(
            i as int,
        ).map_values(|x: (usize, LockedPlugin)| x.1).push(p));
        i = i + 1;
    }
    assert(all.take(total as int) =~= all);
    out
}

impl LockedConfig {
    /// Puts together the locked configuration from the outcomes of
    /// installing each source: the errors of the sources that failed, then
    /// those of the plugins that failed to lock; and the locked plugins,
    /// external and inline, in the order of their positions.
    pub fn assemble(
        ctx: &Context,
        templates: IndexMap<String, String>,
        inlines: Vec<(usize, LockedPlugin)>,
        outcomes: Vec<SourceOutcome>,
    ) -> (lc: LockedConfig)
        ensures
            same_context(lc.ctx, *ctx),
            lc.templates == templates,
            errors_view(lc.errors@) == source_errors(outcomes@) + lists_errors(
                installed(outcomes@),
            ),
            exists|sorted: Seq<(usize, LockedPlugin)>|
                sorted_by_position(sorted) && sorted.to_multiset() == (lists_successes(
                    installed(outcomes@),
                ) + inlines@).to_multiset() && lc.plugins@ == sorted.map_values(
                    |x: (usize, LockedPlugin)| x.1,
                ),
    {
        let (mut errors, lists) = split_outcomes(outcomes);
        let mut all = split_results(lists, &mut errors);
        let mut inlines = inlines;
        let ghost a = all@;
        let ghost b = inlines@;
        all.append(&mut inlines);
        assert(all@ =~= a + b);
        let sorted = sort_by_position(all);
        let ghost sv = sorted@;
        let plugins = strip_positions(sorted);
        LockedConfig { ctx: ctx.duplicate(), plugins, templates, errors }
    }
}

/// Whether two contexts agree on what a lock file records: the version,
/// home, configuration directory, data directory, config file and profile.
pub open spec fn same_settings(a: Context, b: Context) -> bool {
    &&& a.version@ == b.version@
    &&& a.home@ == b.home@
    &&& a.config_dir@ == b.config_dir@
    &&& a.data_dir@ == b.data_dir@
    &&& a.config_file@ == b.config_file@
    &&& crate::url::opt_view(a.profile) == crate::url::opt_view(b.profile)
}

/// The paths that must exist for the plugins of `ps` to be usable: for each
/// external plugin in turn, its directory and then its files.
pub open spec fn spec_paths_to_check(ps: Seq<LockedPlugin>) -> Seq<crate::util::path::PathView>
    decreases ps.len(),
{
    if ps.len() == 0 {
        Seq::empty()
    } else {
        spec_paths_to_check(ps.drop_last()) + match ps.last() {
            LockedPlugin::External(p) => seq![crate::lock::clean::plugin_dir_view(p)]
                + crate::lock::clean::paths_view(p.files@),
            LockedPlugin::Inline(_) => Seq::empty(),
        }
    }
}

impl LockedConfig {
    /// The paths that must exist for this locked configuration to be
    /// usable: for each external plugin in turn, its directory and then its
    /// files.
    pub fn paths_to_check(&self) -> (r: Vec<PathBuf>)
        ensures
            crate::lock::clean::paths_view(r@) == spec_paths_to_check(self.plugins@),
    {
        let ghost ps = self.plugins@;
        let mut r: Vec<PathBuf> = Vec::new();
        let mut i: usize = 0;
        while i < self.plugins.len()
            invariant
                i <= self.plugins.len(),
                ps == self.plugins@,
                crate::lock::clean::paths_view(r@) == spec_paths_to_check(ps.take(i as int)),
            decreases self.plugins.len() - i,
        {
            assert(ps.take(i + 1).drop_last() =~= ps.take(i as int));
            assert(ps.take(i + 1).last() == ps[i as int]);
            match &self.plugins[i] {
                LockedPlugin::External(p) => {
                    let ghost base = crate::lock::clean::paths_view(r@);
                    r.push(p.dir().duplicate());
                    let mut j: usize = 0;
                    assert(crate::lock::clean::paths_view(r@) =~= base + seq![
                        crate::lock::clean::plugin_dir_view(*p),
                    ] + crate::lock::clean::paths_view(p.files@.take(0)));
                    while j < p.files.len()
                        invariant
                            j <= p.files.len(),
                            crate::lock::clean::paths_view(r@) == base + seq![
                                crate::lock::clean::plugin_dir_view(*p),
                            ] + crate::lock::clean::paths_view(p.files@.take(j as int)),
                        decreases p.files.len() - j,
                    {
                        let ghost before = crate::lock::clean::paths_view(r@);
                        r.push(p.files[j].duplicate());
                        assert(p.files@.take(j + 1) =~= p.files@.take(j as int).push(
                            p.files@[j as int],
                        ));
                        assert(crate::lock::clean::paths_view(r@) =~= before.push(
                            p.files@[j as int]@,
                        ));
                        assert(crate::lock::clean::paths_view(p.files@.take(j + 1))
                            =~= crate::lock::clean::paths_view(p.files@.take(j as int)).push(
                            p.files@[j as int]@,
                        ));
                        j = j + 1;
                    }
                    assert(p.files@.take(p.files.len() as int) =~= p.files@);
                },
                LockedPlugin::Inline(_) => {
                    assert(spec_paths_to_check(ps.take(i + 1)) =~= spec_paths_to_check(
                        ps.take(i as int),
                    ));
                },
            }
            i = i + 1;
        }
        assert(ps.take(ps.len() as int) =~= ps);
        r
    }

    /// Whether this locked configuration can be used as it is under `ctx`:
    /// it was made with the same settings, and each path of
    /// [`LockedConfig::paths_to_check`] exists, as `exists` tells in the same
    /// order.
    pub fn verify(&self, ctx: &Context, exists: &Vec<bool>) -> (b: bool)
        requires
            exists.len() == spec_paths_to_check(self.plugins@).len(),
        ensures
            b == (same_settings(self.ctx, *ctx) && forall|k: int|
                0 <= k < exists.len() ==> #[trigger] exists@[k]),
    {
        let same = self.ctx.version == ctx.version && self.ctx.home.same_as(&ctx.home)
            && self.ctx.config_dir.same_as(&ctx.config_dir) && self.ctx.data_dir.same_as(
            &ctx.data_dir,
        ) && self.ctx.config_file.same_as(&ctx.config_file) && match (
            &self.ctx.profile,
            &ctx.profile,
        ) {
            (Some(a), Some(c)) => crate::text::str_eq(a.as_str(), c.as_str()),
            (None, None) => true,
            _ => false,
        };
        if !same {
            return false;
        }
        let mut k: usize = 0;
        while k < exists.len()
            invariant
                k <= exists.len(),
                forall|j: int| 0 <= j < k ==> #[trigger] exists@[j],
            decreases exists.len() - k,
        {
            if !exists[k] {
                return false;
            }
            k = k + 1;
        }
        true
    }
}

/// A locked configuration is usable under the context it was assembled
/// with: its settings are those of that context, so it verifies once each
/// of its paths exists.
pub proof fn lemma_assembled_settings_verify(lc: LockedConfig, ctx: Context, exists: Seq<bool>)
    requires
        same_context(lc.ctx, ctx),
        forall|k: int| 0 <= k < exists.len() ==> #[trigger] exists[k],
    ensures
        same_settings(lc.ctx, ctx) && forall|k: int| 0 <= k < exists.len() ==> #[trigger] exists[k],
{
}

} // verus!
