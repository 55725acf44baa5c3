//! Templates: the built-in ones, and compiling and rendering with `upon`.
//!
//! Compiling and rendering are done by the `upon` template engine. What it
//! produces for given inputs is named by the spec functions below; the
//! library states its own logic over those names.

use indexmap::IndexMap;
use std::collections::BTreeMap;
use vstd::prelude::*;

use crate::config::Shell;
use crate::template_map::{entries_get, entries_insert, key_index, lemma_key_index_push, map_insert, map_new, template_entries};
use crate::text::{to_owned_string, with_trailing_newline};

verus! {

/// The views of a list of string pairs.
pub open spec fn pairs_view(v: Seq<(String, String)>) -> Seq<(Seq<char>, Seq<char>)> {
    v.map_values(|p: (String, String)| (p.0@, p.1@))
}

/// What compiling `source` with a new `upon::Engine` gives: the text of the
/// compile error, or `None` when it compiles.
pub uninterp spec fn template_compile_error(source: Seq<char>) -> Option<Seq<char>>;

/// What compiling `source` with a new `upon::Engine` and rendering it with
/// the string entries `data` gives: the output, or whether compiling failed
/// together with the text of the error.
pub uninterp spec fn template_render_plain(
    source: Seq<char>,
    data: Seq<(Seq<char>, Seq<char>)>,
) -> Result<Seq<char>, (bool, Seq<char>)>;

/// Compiles `source` with a new engine.
///
/// Calls `upon::Engine::compile`; returns the `Display` text of its error.
/// The result is named [`template_compile_error`].
#[verifier::external_body]
pub fn check_template(source: &str) -> (r: Option<String>)
    ensures
        crate::url::opt_view(r) == template_compile_error(source@),
{
    match upon::Engine::new().compile(source) {
        Ok(_) => None,
        Err(e) => Some(e.to_string()),
    }
}

/// Compiles `source` with a new engine and renders it with the string
/// entries `data`.
///
/// Calls `upon::Engine::compile` and `upon::Template::render_from`, then
/// `Renderer::to_string`. The result is named [`template_render_plain`].
#[verifier::external_body]
pub fn render_plain(source: &str, data: &Vec<(String, String)>) -> (r: Result<String, (bool, String)>)
    ensures
        match r {
            Ok(s) => template_render_plain(source@, pairs_view(data@)) == Ok::<
                Seq<char>,
                (bool, Seq<char>),
            >(s@),
            Err((c, e)) => template_render_plain(source@, pairs_view(data@)) == Err::<
                Seq<char>,
                (bool, Seq<char>),
            >((c, e@)),
        },
{
    let engine = upon::Engine::new();
    let template = engine.compile(source).map_err(|e| (true, e.to_string()))?;
    let ctx: BTreeMap<String, String> = data.iter().cloned().collect();
    template.render_from(&engine, &upon::Value::from(ctx)).to_string().map_err(|e| (false, e.to_string()))
}

/// Declares `upon::Engine` to Verus; its values are opaque.
#[verifier::external_type_specification]
#[verifier::external_body]
pub struct ExEngine<'a>(upon::Engine<'a>);

/// The templates that have been added to an engine, in the order they were
/// first added, each with its latest source.
pub uninterp spec fn engine_templates(e: upon::Engine<'static>) -> Seq<(Seq<char>, Seq<char>)>;

/// What adding the template `source` under the name `name` to an engine
/// gives: the text of the compile error, or `None` when it compiles.
pub uninterp spec fn template_add_error(name: Seq<char>, source: Seq<char>) -> Option<Seq<char>>;

/// What rendering the template `name` of an engine holding the templates
/// `entries` gives, for a plugin with the given name, directory, files and
/// hooks: the output, or the text of the render error.
pub uninterp spec fn template_render_named(
    entries: Seq<(Seq<char>, Seq<char>)>,
    name: Seq<char>,
    plugin: Seq<char>,
    dir: Seq<char>,
    files: Seq<Seq<char>>,
    hooks: Seq<(Seq<char>, Seq<char>)>,
) -> Result<Seq<char>, Seq<char>>;

/// What compiling the inline source `raw` with an engine holding the
/// templates `entries`, and rendering it for a plugin with the given name and
/// hooks (none when the plugin configures none), gives: the output, or
/// whether compiling failed together with the text of the error.
pub uninterp spec fn template_render_inline(
    entries: Seq<(Seq<char>, Seq<char>)>,
    raw: Seq<char>,
    plugin: Seq<char>,
    hooks: Option<Seq<(Seq<char>, Seq<char>)>>,
) -> Result<Seq<char>, (bool, Seq<char>)>;

/// The view of hooks that may be absent.
pub open spec fn opt_pairs_view(h: Option<Vec<(String, String)>>) -> Option<Seq<(Seq<char>, Seq<char>)>> {
    match h {
        Some(v) => Some(pairs_view(v@)),
        None => None,
    }
}

/// A new engine for scripts: it holds no template, and has the functions
/// `nl` (appends a newline to a string that lacks one) and `get` (looks up a
/// key of a map).
///
/// Calls `upon::Engine::new` and `Engine::add_function`; the new engine
/// holds no template.
#[verifier::external_body]
pub fn engine_new() -> (e: upon::Engine<'static>)
    ensures
        engine_templates(e) == Seq::<(Seq<char>, Seq<char>)>::empty(),
{
    let mut e = upon::Engine::new();
    e.add_function("nl", |v: upon::Value| match v {
        upon::Value::String(s) => upon::Value::String(with_trailing_newline(s)),
        v => v,
    });
    e.add_function("get", |m: &BTreeMap<String, upon::Value>, k: &str| m.get(k).cloned());
    e
}

/// Adds the template `source` under the name `name`.
///
/// Calls `upon::Engine::add_template`, which compiles the source and, when
/// it compiles, stores it under the name, replacing any template of that
/// name; the error is returned by its `Display` text and leaves the engine as
/// it was. The error is named [`template_add_error`].
#[verifier::external_body]
pub fn engine_add_template(e: &mut upon::Engine<'static>, name: String, source: String) -> (r:
    Option<String>)
    ensures
        match r {
            None => template_add_error(name@, source@) is None && engine_templates(*final(e))
                == entries_insert(engine_templates(*old(e)), name@, source@),
            Some(m) => template_add_error(name@, source@) == Some(m@) && engine_templates(
                *final(e),
            ) == engine_templates(*old(e)),
        },
{
    match e.add_template(name, source) {
        Ok(()) => None,
        Err(err) => Some(err.to_string()),
    }
}

/// Renders the template `name` of the engine for a plugin with the given
/// name, directory, files and hooks.
///
/// Calls `Engine::template`, `TemplateRef::render_from` and
/// `Renderer::to_string`; the result is named [`template_render_named`].
#[verifier::external_body]
pub fn engine_render(
    e: &upon::Engine<'static>,
    name: &str,
    plugin: &str,
    dir: &str,
    files: &Vec<String>,
    hooks: &Vec<(String, String)>,
) -> (r: Result<String, String>)
    requires
        crate::template_map::key_index(engine_templates(*e), name@) >= 0,
    ensures
        match r {
            Ok(s) => template_render_named(engine_templates(*e), name@, plugin@, dir@, files@.map_values(|f: String| f@), pairs_view(hooks@)) == Ok::<Seq<char>, Seq<char>>(s@),
            Err(m) => template_render_named(engine_templates(*e), name@, plugin@, dir@, files@.map_values(|f: String| f@), pairs_view(hooks@)) == Err::<Seq<char>, Seq<char>>(m@),
        },
{
    let hooks: BTreeMap<String, String> = hooks.iter().cloned().collect();
    let data = BTreeMap::from([("name", upon::Value::from(plugin)), ("dir", upon::Value::from(dir)), ("files", upon::Value::from(files.clone())), ("hooks", upon::Value::from(hooks))]);
    e.template(name).render_from(&upon::Value::from(data)).to_string().map_err(|err| err.to_string())
}

/// Compiles the inline source `raw` with the engine and renders it for a
/// plugin with the given name and hooks; absent hooks are given to the
/// template as no value.
///
/// Calls `Engine::compile`, `Template::render_from` and
/// `Renderer::to_string`; the result is named [`template_render_inline`].
#[verifier::external_body]
pub fn engine_render_inline(
    e: &upon::Engine<'static>,
    raw: &str,
    plugin: &str,
    hooks: &Option<Vec<(String, String)>>,
) -> (r: Result<String, (bool, String)>)
    ensures
        match r {
            Ok(s) => template_render_inline(engine_templates(*e), raw@, plugin@, opt_pairs_view(*hooks)) == Ok::<Seq<char>, (bool, Seq<char>)>(s@),
            Err((c, m)) => template_render_inline(engine_templates(*e), raw@, plugin@, opt_pairs_view(*hooks)) == Err::<Seq<char>, (bool, Seq<char>)>((c, m@)),
        },
{
    let hooks = match hooks {
        Some(h) => upon::Value::from(h.iter().cloned().collect::<BTreeMap<String, String>>()),
        None => upon::Value::None,
    };
    let data = upon::Value::from(BTreeMap::from([("name", upon::Value::from(plugin)), ("hooks", hooks)]));
    let template = e.compile(raw).map_err(|err| (true, err.to_string()))?;
    template.render_from(e, &data).to_string().map_err(|err| (false, err.to_string()))
}

/// The names and sources of the built-in templates of a shell, in order.
pub open spec fn spec_default_template_list(shell: Shell) -> Seq<(Seq<char>, Seq<char>)> {
    match shell {
        Shell::Bash => seq![
            ("PATH"@, "export PATH=\"{{ dir }}:$PATH\""@),
            ("source"@, "{{ hooks?.pre | nl }}{% for file in files %}source \"{{ file }}\"\n{% endfor %}{{ hooks?.post | nl }}"@),
        ],
        Shell::Zsh => seq![
            ("PATH"@, "export PATH=\"{{ dir }}:$PATH\""@),
            ("path"@, "path=( \"{{ dir }}\" $path )"@),
            ("fpath"@, "fpath=( \"{{ dir }}\" $fpath )"@),
            ("source"@, "{{ hooks?.pre | nl }}{% for file in files %}source \"{{ file }}\"\n{% endfor %}{{ hooks?.post | nl }}"@),
        ],
    }
}

/// The entries after inserting each pair of `list` in turn into `e`.
pub open spec fn insert_all(
    e: Seq<(Seq<char>, Seq<char>)>,
    list: Seq<(Seq<char>, Seq<char>)>,
) -> Seq<(Seq<char>, Seq<char>)>
    decreases list.len(),
{
    if list.len() == 0 {
        e
    } else {
        insert_all(entries_insert(e, list[0].0, list[0].1), list.drop_first())
    }
}

/// Inserting the entries of `list` from position `i` on finishes what
/// inserting them all starts.
pub proof fn lemma_insert_all_step(
    e: Seq<(Seq<char>, Seq<char>)>,
    list: Seq<(Seq<char>, Seq<char>)>,
    i: int,
)
    requires
        0 <= i < list.len(),
    ensures
        insert_all(e, list.skip(i)) == insert_all(
            entries_insert(e, list[i].0, list[i].1),
            list.skip(i + 1),
        ),
{
    assert(list.skip(i).drop_first() =~= list.skip(i + 1));
}

/// A key is present after inserting pairs exactly when it was present
/// before or one of the pairs has it.
pub proof fn lemma_insert_all_keys(
    e: Seq<(Seq<char>, Seq<char>)>,
    list: Seq<(Seq<char>, Seq<char>)>,
    k: Seq<char>,
)
    ensures
        key_index(insert_all(e, list), k) >= 0 <==> (key_index(e, k) >= 0 || exists|j: int|
            0 <= j < list.len() && (#[trigger] list[j]).0 == k),
    decreases list.len(),
{
    if list.len() > 0 {
        let e1 = entries_insert(e, list[0].0, list[0].1);
        lemma_insert_keys(e, list[0].0, list[0].1, k);
        lemma_insert_all_keys(e1, list.drop_first(), k);
        if exists|j: int| 0 <= j < list.drop_first().len() && (#[trigger] list.drop_first()[j]).0 == k {
            let j = choose|j: int| 0 <= j < list.drop_first().len() && (#[trigger] list.drop_first()[j]).0 == k;
            assert(list[j + 1] == list.drop_first()[j]);
        }
        if exists|j: int| 0 <= j < list.len() && (#[trigger] list[j]).0 == k {
            let j = choose|j: int| 0 <= j < list.len() && (#[trigger] list[j]).0 == k;
            if j > 0 {
                assert(list.drop_first()[j - 1] == list[j]);
            }
        }
    }
}

/// A key is present after one insertion exactly when it was present before
/// or it is the inserted key.
pub proof fn lemma_insert_keys(
    e: Seq<(Seq<char>, Seq<char>)>,
    k1: Seq<char>,
    v: Seq<char>,
    k: Seq<char>,
)
    ensures
        key_index(entries_insert(e, k1, v), k) >= 0 <==> (key_index(e, k) >= 0 || k == k1),
{
    let e2 = entries_insert(e, k1, v);
    crate::template_map::lemma_key_index(e, k);
    crate::template_map::lemma_key_index(e, k1);
    crate::template_map::lemma_key_index(e2, k);
    if key_index(e, k1) >= 0 {
        let i = key_index(e, k1);
        assert forall|j: int| 0 <= j < e.len() implies (#[trigger] e2[j]).0 == e[j].0 by {}
        if key_index(e, k) >= 0 {
            assert(e2[key_index(e, k)].0 == k);
        }
        if key_index(e2, k) >= 0 {
            assert(e[key_index(e2, k)].0 == k);
        }
    } else {
        assert forall|j: int| 0 <= j < e.len() implies (#[trigger] e2[j]) == e[j] by {}
        assert(e2[e.len() as int].0 == k1);
        if key_index(e, k) >= 0 {
            assert(e2[key_index(e, k)].0 == k);
        }
        if key_index(e2, k) >= 0 && k != k1 {
            assert(key_index(e2, k) < e.len());
            assert(e[key_index(e2, k)].0 == k);
        }
        if k == k1 {
            assert(e2[e.len() as int].0 == k);
        }
    }
}

/// The built-in file patterns of a shell, tried in order.
pub open spec fn spec_default_matches(shell: Shell) -> Seq<Seq<char>> {
    match shell {
        Shell::Bash => seq![
            "{{ name }}.plugin.bash"@,
            "{{ name }}.plugin.sh"@,
            "{{ name }}.bash"@,
            "{{ name }}.sh"@,
            "*.plugin.bash"@,
            "*.plugin.sh"@,
            "*.bash"@,
            "*.sh"@,
        ],
        Shell::Zsh => seq![
            "{{ name }}.plugin.zsh"@,
            "{{ name }}.zsh"@,
            "{{ name }}.sh"@,
            "{{ name }}.zsh-theme"@,
            "*.plugin.zsh"@,
            "*.zsh"@,
            "*.sh"@,
            "*.zsh-theme"@,
        ],
    }
}

/// The default file patterns, as documented: for Zsh the files named after
/// the plugin (`.plugin.zsh`, `.zsh`, `.sh`, `.zsh-theme`), then any
/// `*.plugin.zsh`, `*.zsh`, `*.sh` and `*.zsh-theme` file; for Bash the same
/// with `.plugin.bash`, `.plugin.sh`, `.bash` and `.sh`. So a `.plugin.*`
/// file is always tried before a plain one of the same shell.
pub proof fn lemma_default_matches_documented(shell: Shell)
    ensures
        shell == Shell::Zsh ==> spec_default_matches(shell) == seq![
            "{{ name }}.plugin.zsh"@,
            "{{ name }}.zsh"@,
            "{{ name }}.sh"@,
            "{{ name }}.zsh-theme"@,
            "*.plugin.zsh"@,
            "*.zsh"@,
            "*.sh"@,
            "*.zsh-theme"@,
        ],
        shell == Shell::Bash ==> spec_default_matches(shell) == seq![
            "{{ name }}.plugin.bash"@,
            "{{ name }}.plugin.sh"@,
            "{{ name }}.bash"@,
            "{{ name }}.sh"@,
            "*.plugin.bash"@,
            "*.plugin.sh"@,
            "*.bash"@,
            "*.sh"@,
        ],
        shell == Shell::Zsh ==> spec_default_matches(shell)[4] == "*.plugin.zsh"@
            && spec_default_matches(shell)[5] == "*.zsh"@,
        shell == Shell::Bash ==> spec_default_matches(shell)[4] == "*.plugin.bash"@
            && spec_default_matches(shell)[6] == "*.bash"@,
{
}

/// The built-in directory templates put the plugin directory in front of
/// what the variable held: looking up `PATH` gives
/// `export PATH="{{ dir }}:$PATH"` in both shells, and for Zsh `path` gives
/// `path=( "{{ dir }}" $path )` and `fpath` gives
/// `fpath=( "{{ dir }}" $fpath )`.
pub proof fn lemma_dir_templates_prepend(shell: Shell)
    ensures
        entries_get(spec_default_template_list(shell), "PATH"@) == Some(
            "export PATH=\"{{ dir }}:$PATH\""@,
        ),
        shell == Shell::Zsh ==> entries_get(spec_default_template_list(shell), "path"@) == Some(
            "path=( \"{{ dir }}\" $path )"@,
        ),
        shell == Shell::Zsh ==> entries_get(spec_default_template_list(shell), "fpath"@) == Some(
            "fpath=( \"{{ dir }}\" $fpath )"@,
        ),
{
    reveal_strlit("PATH");
    reveal_strlit("path");
    reveal_strlit("fpath");
    reveal_strlit("source");
    let l = spec_default_template_list(shell);
    assert("path"@[0] != "PATH"@[0]);
    assert("fpath"@.len() != "PATH"@.len() && "fpath"@.len() != "path"@.len());
    assert("source"@.len() != "PATH"@.len() && "source"@.len() != "fpath"@.len());
    assert("source"@[0] != "path"@[0]);
    assert("path"@ != "PATH"@);
    let e0 = Seq::<(Seq<char>, Seq<char>)>::empty();
    lemma_key_index_push(e0, l[0], "PATH"@);
    lemma_key_index_push(e0, l[0], "path"@);
    lemma_key_index_push(e0, l[0], "fpath"@);
    match shell {
        Shell::Bash => {
            assert(l =~= e0.push(l[0]).push(l[1]));
            lemma_key_index_push(e0.push(l[0]), l[1], "PATH"@);
        },
        Shell::Zsh => {
            let e1 = e0.push(l[0]);
            let e2 = e1.push(l[1]);
            let e3 = e2.push(l[2]);
            assert(l =~= e3.push(l[3]));
            lemma_key_index_push(e1, l[1], "PATH"@);
            lemma_key_index_push(e1, l[1], "path"@);
            lemma_key_index_push(e1, l[1], "fpath"@);
            lemma_key_index_push(e2, l[2], "PATH"@);
            lemma_key_index_push(e2, l[2], "path"@);
            lemma_key_index_push(e2, l[2], "fpath"@);
            lemma_key_index_push(e3, l[3], "PATH"@);
            lemma_key_index_push(e3, l[3], "path"@);
            lemma_key_index_push(e3, l[3], "fpath"@);
        },
    }
}

/// Adds `s` at the end of `v`.
fn push_str(v: &mut Vec<String>, s: &str)
    ensures
        final(v)@.map_values(|x: String| x@) == old(v)@.map_values(|x: String| x@).push(s@),
{
    let t = to_owned_string(s);
    let ghost before = v@;
    v.push(t);
    assert(v@.map_values(|x: String| x@) =~= before.map_values(|x: String| x@).push(s@));
}

impl Shell {
    /// The built-in templates of this shell, by name.
    pub fn default_templates(&self) -> (m: IndexMap<String, String>)
        ensures
            template_entries(m) == spec_default_template_list(*self),
    {
        proof {
            reveal_strlit("PATH");
            reveal_strlit("path");
            reveal_strlit("fpath");
            reveal_strlit("source");
        }
        let mut m = map_new();
        let source = "{{ hooks?.pre | nl }}{% for file in files %}source \"{{ file }}\"\n{% endfor %}{{ hooks?.post | nl }}";
        let path_template = "export PATH=\"{{ dir }}:$PATH\"";
        let ghost e0 = Seq::<(Seq<char>, Seq<char>)>::empty();
        let ghost e1 = e0.push(("PATH"@, path_template@));
        assert("source"@.len() == 6 && "PATH"@.len() == 4 && "fpath"@.len() == 5);
        assert("path"@[0] == 'p' && "PATH"@[0] == 'P' && "path"@.len() == 4);
        assert("source"@ != "PATH"@ && "path"@ != "PATH"@ && "fpath"@ != "PATH"@);
        assert("source"@ != "path"@ && "source"@ != "fpath"@ && "fpath"@ != "path"@);
        proof {
            lemma_key_index_push(e0, ("PATH"@, path_template@), "PATH"@);
        }
        map_insert(&mut m, to_owned_string("PATH"), to_owned_string(path_template));
        assert(template_entries(m) =~= e1);
        match self {
            Shell::Bash => {
                proof {
                    lemma_key_index_push(e0, ("PATH"@, path_template@), "source"@);
                }
                map_insert(&mut m, to_owned_string("source"), to_owned_string(source));
                assert(template_entries(m) =~= spec_default_template_list(*self));
            },
            Shell::Zsh => {
                let p = "path=( \"{{ dir }}\" $path )";
                let f = "fpath=( \"{{ dir }}\" $fpath )";
                let ghost e2 = e1.push(("path"@, p@));
                let ghost e3 = e2.push(("fpath"@, f@));
                proof {
                    lemma_key_index_push(e0, ("PATH"@, path_template@), "path"@);
                    lemma_key_index_push(e0, ("PATH"@, path_template@), "fpath"@);
                    lemma_key_index_push(e0, ("PATH"@, path_template@), "source"@);
                    lemma_key_index_push(e1, ("path"@, p@), "fpath"@);
                    lemma_key_index_push(e1, ("path"@, p@), "source"@);
                    lemma_key_index_push(e2, ("fpath"@, f@), "source"@);
                }
                map_insert(&mut m, to_owned_string("path"), to_owned_string(p));
                assert(template_entries(m) =~= e2);
                map_insert(&mut m, to_owned_string("fpath"), to_owned_string(f));
                assert(template_entries(m) =~= e3);
                map_insert(&mut m, to_owned_string("source"), to_owned_string(source));
                assert(template_entries(m) =~= spec_default_template_list(*self));
            },
        }
        m
    }

    /// The built-in file patterns of this shell, tried in order.
    pub fn default_matches(&self) -> (v: Vec<String>)
        ensures
            v@.map_values(|x: String| x@) == spec_default_matches(*self),
    {
        let mut v: Vec<String> = Vec::new();
        match self {
            Shell::Bash => {
                push_str(&mut v, "{{ name }}.plugin.bash");
                push_str(&mut v, "{{ name }}.plugin.sh");
                push_str(&mut v, "{{ name }}.bash");
                push_str(&mut v, "{{ name }}.sh");
                push_str(&mut v, "*.plugin.bash");
                push_str(&mut v, "*.plugin.sh");
                push_str(&mut v, "*.bash");
                push_str(&mut v, "*.sh");
            },
            Shell::Zsh => {
                push_str(&mut v, "{{ name }}.plugin.zsh");
                push_str(&mut v, "{{ name }}.zsh");
                push_str(&mut v, "{{ name }}.sh");
                push_str(&mut v, "{{ name }}.zsh-theme");
                push_str(&mut v, "*.plugin.zsh");
                push_str(&mut v, "*.zsh");
                push_str(&mut v, "*.sh");
                push_str(&mut v, "*.zsh-theme");
            },
        }
        assert(v@.map_values(|x: String| x@) =~= spec_default_matches(*self));
        v
    }

    /// The template names applied by default: `source`.
    pub fn default_apply(&self) -> (v: Vec<String>)
        ensures
            v@.map_values(|x: String| x@) == seq!["source"@],
    {
        let mut v: Vec<String> = Vec::new();
        push_str(&mut v, "source");
        assert(v@.map_values(|x: String| x@) =~= seq!["source"@]);
        v
    }
}

} // verus!
