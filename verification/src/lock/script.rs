//! Generating the shell script of a locked configuration: each template
//! that an external plugin applies is rendered for it, and each inline
//! plugin is rendered as it is.

use indexmap::IndexMap;
use vstd::prelude::*;

use crate::config::InlinePlugin;
use crate::context::{Color, Context, LogLine, Message, Verbosity};
use crate::error::{Error, ErrorKind, ErrorView};
use crate::lock::clean::plugin_dir_view;
use crate::lock::{LockedConfig, LockedExternalPlugin, LockedPlugin};
use crate::template::{
    engine_add_template, engine_new, engine_render, engine_render_inline, engine_templates,
    insert_all, lemma_insert_all_keys, lemma_insert_all_step, pairs_view, template_add_error,
    template_render_inline, template_render_named,
};
use crate::template_map::{key_index, map_get_index, map_len, template_entries};
use crate::text::{concat3, push_line, spec_with_trailing_newline, strings_view, to_owned_string};
use crate::util::path::{spec_path_text, PathBuf};

verus! {

/// The name and error text of the first of `e` that fails to be added to
/// an engine, if any.
pub open spec fn first_add_error(e: Seq<(Seq<char>, Seq<char>)>) -> Option<(Seq<char>, Seq<char>)>
    decreases e.len(),
{
    if e.len() == 0 {
        None
    } else {
        let r = first_add_error(e.drop_last());
        if r is Some {
            r
        } else {
            match template_add_error(e.last().0, e.last().1) {
                Some(m) => Some((e.last().0, m)),
                None => None,
            }
        }
    }
}

proof fn lemma_first_add_error_prefix(e: Seq<(Seq<char>, Seq<char>)>, m: int)
    requires
        0 <= m <= e.len(),
        first_add_error(e.take(m)) is Some,
    ensures
        first_add_error(e) == first_add_error(e.take(m)),
    decreases e.len() - m,
{
    if m == e.len() {
        assert(e.take(m) =~= e);
    } else {
        assert(e.drop_last().take(m) =~= e.take(m));
        lemma_first_add_error_prefix(e.drop_last(), m);
    }
}

/// An engine holding the templates of `m`, added in order; or the error of
/// the first that fails to compile.
pub fn build_engine(m: &IndexMap<String, String>) -> (r: Result<upon::Engine<'static>, Error>)
    ensures
        match first_add_error(template_entries(*m)) {
            Some(b) => r matches Err(e) && e@ == (
                Some(b.1),
                seq!["failed to compile template `"@ + b.0 + "`"@],
            ),
            None => r matches Ok(engine) && engine_templates(engine) == insert_all(
                Seq::empty(),
                template_entries(*m),
            ),
        },
{
    let ghost t = template_entries(*m);
    let mut engine = engine_new();
    let n = map_len(m);
    let mut i: usize = 0;
    assert(t.take(0) =~= Seq::<(Seq<char>, Seq<char>)>::empty());
    assert(t.skip(0) =~= t);
    while i < n
        invariant
            n == t.len(),
            t == template_entries(*m),
            i <= n,
            first_add_error(t.take(i as int)) is None,
            insert_all(engine_templates(engine), t.skip(i as int)) == insert_all(
                Seq::empty(),
                t,
            ),
        decreases n - i,
    {
        let (name, source) = map_get_index(m, i);
        assert(t.take(i + 1).drop_last() =~= t.take(i as int));
        assert(t.take(i + 1).last() == t[i as int]);
        proof {
            lemma_insert_all_step(engine_templates(engine), t, i as int);
        }
        let context = concat3("failed to compile template `", name.as_str(), "`");
        match engine_add_template(&mut engine, name, source) {
            Some(message) => {
                proof {
                    lemma_first_add_error_prefix(t, i + 1);
                }
                let e = Error::from_kind(ErrorKind::Template(message)).context(context);
                assert(e@.1 =~= seq![context@]);
                return Err(e);
            },
            None => {},
        }
        i = i + 1;
    }
    assert(t.skip(n as int) =~= Seq::<(Seq<char>, Seq<char>)>::empty());
    assert(t.take(n as int) =~= t);
    Ok(engine)
}

/// The texts of the files of a plugin.
pub open spec fn files_text(files: Seq<PathBuf>) -> Seq<Seq<char>> {
    files.map_values(|f: PathBuf| spec_path_text(f@))
}

/// The output of applying the templates `names` of the engine templates
/// `e` to the external plugin `p`: each rendered output with a newline
/// added when it lacks one; or the error of the first that fails.
pub open spec fn spec_external_text(
    e: Seq<(Seq<char>, Seq<char>)>,
    p: LockedExternalPlugin,
    names: Seq<Seq<char>>,
) -> Result<Seq<char>, ErrorView>
    decreases names.len(),
{
    if names.len() == 0 {
        Ok(Seq::empty())
    } else {
        match spec_external_text(e, p, names.drop_last()) {
            Err(ev) => Err(ev),
            Ok(done) => match template_render_named(
                e,
                names.last(),
                p.name@,
                spec_path_text(plugin_dir_view(p)),
                files_text(p.files@),
                pairs_view(p.hooks@),
            ) {
                Ok(out) => Ok(done + spec_with_trailing_newline(out)),
                Err(m) => Err(
                    (Some(m), seq!["failed to render template `"@ + names.last() + "`"@]),
                ),
            },
        }
    }
}

/// The hooks of an inline plugin: none when it configures none.
pub open spec fn inline_hooks(p: InlinePlugin) -> Option<Seq<(Seq<char>, Seq<char>)>> {
    match p.hooks {
        Some(h) => Some(pairs_view(h@)),
        None => None,
    }
}

/// The output of an inline plugin, with a newline added when it lacks one;
/// or the error of compiling or rendering it.
pub open spec fn spec_inline_text(e: Seq<(Seq<char>, Seq<char>)>, p: InlinePlugin) -> Result<
    Seq<char>,
    ErrorView,
> {
    match template_render_inline(e, p.raw@, p.name@, inline_hooks(p)) {
        Ok(out) => Ok(spec_with_trailing_newline(out)),
        Err((compiling, m)) => Err(
            (
                Some(m),
                seq![
                    if compiling {
                        "failed to compile inline plugin `"@ + p.name@ + "`"@
                    } else {
                        "failed to render inline plugin `"@ + p.name@ + "`"@
                    },
                ],
            ),
        ),
    }
}

/// The script of the plugins `ps`, rendered with the engine templates `e`:
/// the output of each plugin in turn, or the error of the first that fails.
pub open spec fn spec_script(e: Seq<(Seq<char>, Seq<char>)>, ps: Seq<LockedPlugin>) -> Result<
    Seq<char>,
    ErrorView,
>
    decreases ps.len(),
{
    if ps.len() == 0 {
        Ok(Seq::empty())
    } else {
        match spec_script(e, ps.drop_last()) {
            Err(ev) => Err(ev),
            Ok(done) => match ps.last() {
                LockedPlugin::External(p) => match spec_external_text(
                    e,
                    p,
                    strings_view(p.apply@),
                ) {
                    Ok(t) => Ok(done + t),
                    Err(ev) => Err(ev),
                },
                LockedPlugin::Inline(p) => match spec_inline_text(e, p) {
                    Ok(t) => Ok(done + t),
                    Err(ev) => Err(ev),
                },
            },
        }
    }
}

proof fn lemma_script_prefix(e: Seq<(Seq<char>, Seq<char>)>, ps: Seq<LockedPlugin>, m: int)
    requires
        0 <= m <= ps.len(),
        spec_script(e, ps.take(m)) is Err,
    ensures
        spec_script(e, ps) == spec_script(e, ps.take(m)),
    decreases ps.len() - m,
{
    if m == ps.len() {
        assert(ps.take(m) =~= ps);
    } else {
        assert(ps.drop_last().take(m) =~= ps.take(m));
        lemma_script_prefix(e, ps.drop_last(), m);
    }
}

proof fn lemma_external_prefix(
    e: Seq<(Seq<char>, Seq<char>)>,
    p: LockedExternalPlugin,
    names: Seq<Seq<char>>,
    m: int,
)
    requires
        0 <= m <= names.len(),
        spec_external_text(e, p, names.take(m)) is Err,
    ensures
        spec_external_text(e, p, names) == spec_external_text(e, p, names.take(m)),
    decreases names.len() - m,
{
    if m == names.len() {
        assert(names.take(m) =~= names);
    } else {
        assert(names.drop_last().take(m) =~= names.take(m));
        lemma_external_prefix(e, p, names.drop_last(), m);
    }
}

/// Whether every template that an external plugin of `ps` applies is among
/// `t`.
pub open spec fn applied_templates_exist(t: Seq<(Seq<char>, Seq<char>)>, ps: Seq<LockedPlugin>) -> bool {
    forall|i: int, j: int|
        #![trigger ps[i], ps[i]->External_0.apply@[j]]
        0 <= i < ps.len() && ps[i] is External && 0 <= j < ps[i]->External_0.apply.len()
            ==> key_index(t, ps[i]->External_0.apply@[j]@) >= 0
}

/// The texts of the files of a plugin.
fn file_texts(files: &Vec<PathBuf>) -> (r: Vec<String>)
    ensures
        r@.map_values(|f: String| f@) == files_text(files@),
{
    let mut r: Vec<String> = Vec::new();
    let mut i: usize = 0;
    while i < files.len()
        invariant
            i <= files.len(),
            r@.map_values(|f: String| f@) == files_text(files@.take(i as int)),
        decreases files.len() - i,
    {
        let ghost before = r@;
        let text = files[i].to_string();
        r.push(text);
        assert(files@.take(i + 1) =~= files@.take(i as int).push(files@[i as int]));
        assert(files_text(files@.take(i + 1)) =~= files_text(files@.take(i as int)).push(
            spec_path_text(files@[i as int]@),
        ));
        assert(r@.map_values(|f: String| f@) =~= before.map_values(|f: String| f@).push(text@));
        i = i + 1;
    }
    assert(files@.take(files.len() as int) =~= files@);
    r
}

/// A copy of a list of string pairs.
fn clone_pairs(v: &Vec<(String, String)>) -> (r: Vec<(String, String)>)
    ensures
        r@ == v@,
{
    let mut r: Vec<(String, String)> = Vec::new();
    let mut i: usize = 0;
    while i < v.len()
        invariant
            i <= v.len(),
            r@ == v@.take(i as int),
        decreases v.len() - i,
    {
        let (a, b) = &v[i];
        r.push((a.clone(), b.clone()));
        assert(v@.take(i + 1) =~= v@.take(i as int).push(v@[i as int]));
        i = i + 1;
    }
    assert(v@.take(v.len() as int) =~= v@);
    r
}

/// The line that logs a status when the output is verbose.
fn verbose_status(ctx: &Context, prefix: &str, name: &String, log: &mut Vec<LogLine>)
    ensures
        final(log)@.len() == old(log)@.len() + (if ctx.output.verbosity == Verbosity::Verbose {
            1int
        } else {
            0int
        }),
        forall|i: int| 0 <= i < old(log)@.len() ==> final(log)@[i] == old(log)@[i],
{
    if ctx.verbosity().at_least(Verbosity::Verbose) {
        let line = ctx.log_status(Color::Cyan, prefix, &Message::Borrowed(name.clone()));
        log.push(line);
    }
}

impl LockedConfig {
    /// Whether every template that an external plugin applies exists.
    pub fn applied_templates_exist(&self) -> (b: bool)
        ensures
            b == applied_templates_exist(template_entries(self.templates), self.plugins@),
    {
        let ghost t = template_entries(self.templates);
        let ghost ps = self.plugins@;
        let mut i: usize = 0;
        while i < self.plugins.len()
            invariant
                i <= self.plugins.len(),
                ps == self.plugins@,
                t == template_entries(self.templates),
                forall|a: int, j: int|
                    #![trigger ps[a], ps[a]->External_0.apply@[j]]
                    0 <= a < i && ps[a] is External && 0 <= j < ps[a]->External_0.apply.len()
                        ==> key_index(t, ps[a]->External_0.apply@[j]@) >= 0,
            decreases self.plugins.len() - i,
        {
            if let LockedPlugin::External(p) = &self.plugins[i] {
                let mut j: usize = 0;
                while j < p.apply.len()
                    invariant
                        j <= p.apply.len(),
                        ps == self.plugins@,
                        i < ps.len(),
                        ps[i as int] == LockedPlugin::External(*p),
                        t == template_entries(self.templates),
                        forall|k: int| 0 <= k < j ==> key_index(t, #[trigger] p.apply@[k]@) >= 0,
                    decreases p.apply.len() - j,
                {
                    if !crate::template_map::map_contains_key(&self.templates, p.apply[j].as_str()) {
                        assert(ps[i as int]->External_0.apply@[j as int] == p.apply@[j as int]);
                        return false;
                    }
                    j = j + 1;
                }
            }
            i = i + 1;
        }
        true
    }

    /// Generates the script: for each plugin in turn, the templates that
    /// an external plugin applies rendered for it, or the inline plugin
    /// rendered as it is, each output followed by a newline when it lacks
    /// one.
    ///
    /// The templates are compiled first; the first that fails gives the
    /// error. When the output is verbose, a status line for each plugin
    /// rendered is pushed to `log`.
    pub fn script(&self, ctx: &Context, log: &mut Vec<LogLine>) -> (r: Result<String, Error>)
        requires
            applied_templates_exist(template_entries(self.templates), self.plugins@),
        ensures
            match first_add_error(template_entries(self.templates)) {
                Some(b) => r matches Err(e) && e@ == (
                    Some(b.1),
                    seq!["failed to compile template `"@ + b.0 + "`"@],
                ),
                None => match spec_script(
                    insert_all(Seq::empty(), template_entries(self.templates)),
                    self.plugins@,
                ) {
                    Ok(s) => r matches Ok(x) && x@ == s,
                    Err(ev) => r matches Err(e) && e@ == ev,
                },
            },
    {
        let ghost t = template_entries(self.templates);
        let engine = match build_engine(&self.templates) {
            Ok(engine) => engine,
            Err(e) => {
                return Err(e);
            },
        };
        let ghost et = engine_templates(engine);
        let ghost ps = self.plugins@;
        let mut script = String::new();
        let mut i: usize = 0;
        while i < self.plugins.len()
            invariant
                i <= self.plugins.len(),
                ps == self.plugins@,
                t == template_entries(self.templates),
                et == engine_templates(engine),
                et == insert_all(Seq::empty(), t),
                first_add_error(t) is None,
                applied_templates_exist(t, ps),
                spec_script(et, ps.take(i as int)) == Ok::<Seq<char>, ErrorView>(script@),
            decreases self.plugins.len() - i,
        {
            assert(ps.take(i + 1).drop_last() =~= ps.take(i as int));
            assert(ps.take(i + 1).last() == ps[i as int]);
            match &self.plugins[i] {
                LockedPlugin::External(plugin) => {
                    let ghost base = script@;
                    let ghost names = strings_view(plugin.apply@);
                    let files = file_texts(&plugin.files);
                    let dir = plugin.dir().to_string();
                    let mut j: usize = 0;
                    assert(names.take(0) =~= Seq::<Seq<char>>::empty());
                    assert(base + Seq::<char>::empty() =~= base);
                    while j < plugin.apply.len()
                        invariant
                            j <= plugin.apply.len(),
                            names == strings_view(plugin.apply@),
                            ps == self.plugins@,
                            i < ps.len(),
                            ps[i as int] == LockedPlugin::External(*plugin),
                            et == engine_templates(engine),
                            et == insert_all(Seq::empty(), t),
                            first_add_error(t) is None,
                            t == template_entries(self.templates),
                            applied_templates_exist(t, ps),
                            spec_script(et, ps.take(i as int)) == Ok::<Seq<char>, ErrorView>(base),
                            files@.map_values(|f: String| f@) == files_text(plugin.files@),
                            dir@ == spec_path_text(plugin_dir_view(*plugin)),
                            spec_external_text(et, *plugin, names.take(j as int)) matches Ok(
                                done,
                            ) && script@ == base + done,
                        decreases plugin.apply.len() - j,
                    {
                        let name = plugin.apply[j].as_str();
                        assert(names.take(j + 1).drop_last() =~= names.take(j as int));
                        assert(names.take(j + 1).last() == name@);
                        proof {
                            assert(ps[i as int]->External_0.apply@[j as int] == plugin.apply@[j as int]);
                            assert(key_index(t, name@) >= 0);
                            crate::template_map::lemma_key_index(t, name@);
                            lemma_insert_all_keys(Seq::empty(), t, name@);
                            assert(t[key_index(t, name@)].0 == name@);
                        }
                        match engine_render(
                            &engine,
                            name,
                            plugin.name.as_str(),
                            dir.as_str(),
                            &files,
                            &plugin.hooks,
                        ) {
                            Ok(out) => {
                                let ghost before = script@;
                                push_line(&mut script, out.as_str());
                                assert(script@ =~= base + (spec_external_text(
                                    et,
                                    *plugin,
                                    names.take(j as int),
                                )->Ok_0 + spec_with_trailing_newline(out@)));
                            },
                            Err(m) => {
                                let c = concat3("failed to render template `", name, "`");
                                let ghost mv = m@;
                                let e = Error::from_kind(ErrorKind::TemplateRender(m)).context(c);
                                assert(e@.1 =~= seq![c@]);
                                proof {
                                    let ev = (Some(mv), seq![c@]);
                                    assert(spec_external_text(et, *plugin, names.take(j + 1))
                                        == Err::<Seq<char>, ErrorView>(ev));
                                    lemma_external_prefix(et, *plugin, names, j + 1);
                                    assert(spec_external_text(et, *plugin, names) == Err::<
                                        Seq<char>,
                                        ErrorView,
                                    >(ev));
                                    assert(ps.take(i + 1).drop_last() =~= ps.take(i as int));
                                    assert(ps.take(i + 1).last() == LockedPlugin::External(
                                        *plugin,
                                    ));
                                    assert(spec_script(et, ps.take(i + 1)) == Err::<
                                        Seq<char>,
                                        ErrorView,
                                    >(ev));
                                    lemma_script_prefix(et, ps, i + 1);
                                }
                                return Err(e);
                            },
                        }
                        j = j + 1;
                    }
                    assert(names.take(plugin.apply.len() as int) =~= names);
                    verbose_status(ctx, "Rendered", &plugin.name, log);
                },
                LockedPlugin::Inline(plugin) => {
                    let hooks = match &plugin.hooks {
                        Some(h) => Some(clone_pairs(h)),
                        None => None,
                    };
                    assert(crate::template::opt_pairs_view(hooks) =~= inline_hooks(*plugin));
                    match engine_render_inline(
                        &engine,
                        plugin.raw.as_str(),
                        plugin.name.as_str(),
                        &hooks,
                    ) {
                        Ok(out) => {
                            push_line(&mut script, out.as_str());
                        },
                        Err((compiling, m)) => {
                            let e = if compiling {
                                let c = concat3(
                                    "failed to compile inline plugin `",
                                    plugin.name.as_str(),
                                    "`",
                                );
                                Error::from_kind(ErrorKind::Template(m)).context(c)
                            } else {
                                let c = concat3(
                                    "failed to render inline plugin `",
                                    plugin.name.as_str(),
                                    "`",
                                );
                                Error::from_kind(ErrorKind::TemplateRender(m)).context(c)
                            };
                            assert(e@.1.len() == 1);
                            assert(e@.1 =~= seq![e@.1[0]]);
                            proof {
                                lemma_script_prefix(et, ps, i + 1);
                            }
                            return Err(e);
                        },
                    }
                    verbose_status(ctx, "Inlined", &plugin.name, log);
                },
            }
            i = i + 1;
        }
        assert(ps.take(ps.len() as int) =~= ps);
        Ok(script)
    }
}

} // verus!
