//! Normalizing a raw config from the file into a [`Config`].
//!
//! Each plugin gets exactly one source: Gist and GitHub repositories become
//! Git URLs, the deprecated `protocol` key is read as `proto`, unknown keys
//! are reported as warnings, and the templates that plugins apply are checked
//! to exist.

use indexmap::IndexMap;
use vstd::prelude::*;

use crate::config::file::{
    spec_gist_text, spec_protocol_name, spec_protocol_prefix, GitProtocol, RawConfig, RawPlugin,
    RestValue,
};
use crate::config::{Config, ExternalPlugin, InlinePlugin, Plugin, Shell, Source};
use crate::error::{Error, ErrorKind, ErrorView};
use crate::template::{check_template, spec_default_template_list, template_compile_error};
use crate::template_map::{
    key_index, lemma_key_index, map_contains_key, map_get_index, map_len, template_entries,
};
use crate::text::{concat2, concat3, to_owned_string};
use crate::url::{url_parse, Url, UrlView};

verus! {

/// The view of the value of an unknown key: the text of a string value, or
/// `None` for any other value.
pub open spec fn rest_value_view(v: RestValue) -> Option<Seq<char>> {
    match v {
        RestValue::String(s) => Some(s@),
        RestValue::Other => None,
    }
}

/// The view of the unknown keys of a table, in order.
pub open spec fn rest_view(rest: Seq<(String, RestValue)>) -> Seq<(Seq<char>, Option<Seq<char>>)> {
    rest.map_values(|p: (String, RestValue)| (p.0@, rest_value_view(p.1)))
}

/// The position of the first entry with key `k`, or `-1`.
pub open spec fn rest_key_index(r: Seq<(Seq<char>, Option<Seq<char>>)>, k: Seq<char>) -> int
    decreases r.len(),
{
    if r.len() == 0 {
        -1
    } else if r[0].0 == k {
        0
    } else {
        let i = rest_key_index(r.drop_first(), k);
        if i >= 0 {
            i + 1
        } else {
            -1
        }
    }
}

/// `rest_key_index` finds the first entry with the key.
pub proof fn lemma_rest_key_index(r: Seq<(Seq<char>, Option<Seq<char>>)>, k: Seq<char>)
    ensures
        -1 <= rest_key_index(r, k) < r.len(),
        rest_key_index(r, k) >= 0 ==> r[rest_key_index(r, k)].0 == k,
        forall|j: int|
            0 <= j < r.len() && (rest_key_index(r, k) < 0 || j < rest_key_index(r, k)) ==> r[j].0
                != k,
    decreases r.len(),
{
    if r.len() > 0 && r[0].0 != k {
        let d = r.drop_first();
        lemma_rest_key_index(d, k);
        assert forall|j: int| 1 <= j < r.len() implies #[trigger] r[j] == d[j - 1] by {}
    }
}

/// The Git protocol named by `s`, if it names one.
pub open spec fn spec_parse_protocol(s: Seq<char>) -> Option<GitProtocol> {
    if s == spec_protocol_name(GitProtocol::Git) {
        Some(GitProtocol::Git)
    } else if s == spec_protocol_name(GitProtocol::Https) {
        Some(GitProtocol::Https)
    } else if s == spec_protocol_name(GitProtocol::Ssh) {
        Some(GitProtocol::Ssh)
    } else {
        None
    }
}

/// The names of the protocols differ from one another.
pub proof fn lemma_protocol_names_distinct()
    ensures
        spec_protocol_name(GitProtocol::Git) != spec_protocol_name(GitProtocol::Https),
        spec_protocol_name(GitProtocol::Git) != spec_protocol_name(GitProtocol::Ssh),
        spec_protocol_name(GitProtocol::Https) != spec_protocol_name(GitProtocol::Ssh),
        forall|p: GitProtocol| #[trigger] spec_parse_protocol(spec_protocol_name(p)) == Some(p),
{
    assert(spec_protocol_name(GitProtocol::Git)[0] == 'g');
    assert(spec_protocol_name(GitProtocol::Ssh)[0] == 's');
    assert(spec_protocol_name(GitProtocol::Https).len() == 5);
}

/// The protocol held as a string under the key `k`, if the entry exists and
/// names a protocol.
pub open spec fn spec_rest_protocol(r: Seq<(Seq<char>, Option<Seq<char>>)>, k: Seq<char>) -> Option<
    GitProtocol,
> {
    let i = rest_key_index(r, k);
    if i >= 0 {
        match r[i].1 {
            Some(s) => spec_parse_protocol(s),
            None => None,
        }
    } else {
        None
    }
}

/// The entries left after popping the protocol under `k`: the entry is
/// removed exactly when its value was read as a protocol.
pub open spec fn spec_rest_after_pop(r: Seq<(Seq<char>, Option<Seq<char>>)>, k: Seq<char>) -> Seq<
    (Seq<char>, Option<Seq<char>>),
> {
    if spec_rest_protocol(r, k) is Some {
        r.remove(rest_key_index(r, k))
    } else {
        r
    }
}

/// The keys of the entries of a table view, in order.
pub open spec fn rest_keys(r: Seq<(Seq<char>, Option<Seq<char>>)>) -> Seq<Seq<char>> {
    r.map_values(|p: (Seq<char>, Option<Seq<char>>)| p.0)
}

/// The warning about an unused key: ``unused config key: `{prefix}{key}` ``.
pub open spec fn unused_key_message(prefix: Seq<char>, key: Seq<char>) -> Seq<char> {
    "unused config key: `"@ + prefix + key + "`"@
}

/// The warnings about the unused keys `keys`, in order.
pub open spec fn unused_key_messages(prefix: Seq<char>, keys: Seq<Seq<char>>) -> Seq<Seq<char>> {
    keys.map_values(|k: Seq<char>| unused_key_message(prefix, k))
}

/// The view of a list of errors.
pub open spec fn errors_view(v: Seq<Error>) -> Seq<ErrorView> {
    v.map_values(|e: Error| e@)
}

/// The views of errors made from the messages `ms` alone.
pub open spec fn custom_errors(ms: Seq<Seq<char>>) -> Seq<ErrorView> {
    ms.map_values(|m: Seq<char>| (None::<Seq<char>>, seq![m]))
}

/// Making errors from messages distributes over concatenation.
pub proof fn lemma_custom_errors_add(a: Seq<Seq<char>>, b: Seq<Seq<char>>)
    ensures
        custom_errors(a + b) == custom_errors(a) + custom_errors(b),
{
    assert(custom_errors(a + b) =~= custom_errors(a) + custom_errors(b));
}

/// Whether a template of the given name exists: built in for `shell`, or
/// among the configured templates `t`.
pub open spec fn known_template(shell: Shell, t: Seq<(Seq<char>, Seq<char>)>, n: Seq<char>) -> bool {
    key_index(spec_default_template_list(shell), n) >= 0 || key_index(t, n) >= 0
}

/// The first of `names` that names no template, if any.
pub open spec fn first_unknown_template(
    shell: Shell,
    t: Seq<(Seq<char>, Seq<char>)>,
    names: Seq<Seq<char>>,
) -> Option<Seq<char>>
    decreases names.len(),
{
    if names.len() == 0 {
        None
    } else if !known_template(shell, t, names[0]) {
        Some(names[0])
    } else {
        first_unknown_template(shell, t, names.drop_first())
    }
}

/// The views of an optional list of names: empty when there is no list.
pub open spec fn opt_names(v: Option<Vec<String>>) -> Seq<Seq<char>> {
    match v {
        Some(v) => v@.map_values(|s: String| s@),
        None => Seq::empty(),
    }
}

/// The error about an unknown template.
pub open spec fn unknown_template_message(n: Seq<char>) -> Seq<char> {
    "unknown template `"@ + n + "`"@
}

/// Scanning a prefix of names finds no unknown template, then the rest
/// decides.
proof fn lemma_first_unknown_step(
    shell: Shell,
    t: Seq<(Seq<char>, Seq<char>)>,
    names: Seq<Seq<char>>,
    i: int,
)
    requires
        0 <= i < names.len(),
        forall|j: int| 0 <= j < i ==> known_template(shell, t, #[trigger] names[j]),
    ensures
        first_unknown_template(shell, t, names) == first_unknown_template(
            shell,
            t,
            names.skip(i),
        ),
    decreases i,
{
    if i == 0 {
        assert(names.skip(0) =~= names);
    } else {
        assert(names.skip(1).skip(i - 1) =~= names.skip(i));
        assert forall|j: int| 0 <= j < i - 1 implies known_template(
            shell,
            t,
            #[trigger] names.skip(1)[j],
        ) by {
            assert(names.skip(1)[j] == names[j + 1]);
        }
        lemma_first_unknown_step(shell, t, names.skip(1), i - 1);
        assert(names.drop_first() =~= names.skip(1));
    }
}

/// Checks that every template name in `apply` exists, built in for `shell`
/// or among `templates`.
pub fn validate_template_names(
    shell: Shell,
    apply: &Option<Vec<String>>,
    templates: &IndexMap<String, String>,
) -> (r: Result<(), Error>)
    ensures
        match first_unknown_template(shell, template_entries(*templates), opt_names(*apply)) {
            None => r is Ok,
            Some(n) => r matches Err(e) && e@ == (
                None::<Seq<char>>,
                seq![unknown_template_message(n)],
            ),
        },
{
    let ghost t = template_entries(*templates);
    match apply {
        None => {
            assert(opt_names(*apply) =~= Seq::<Seq<char>>::empty());
            assert(first_unknown_template(shell, t, Seq::<Seq<char>>::empty()) is None);
            Ok(())
        },
        Some(names) => {
            let ghost ns = names@.map_values(|s: String| s@);
            let defaults = shell.default_templates();
            let mut i: usize = 0;
            while i < names.len()
                invariant
                    i <= names.len(),
                    ns == names@.map_values(|s: String| s@),
                    ns == opt_names(*apply),
                    t == template_entries(*templates),
                    template_entries(defaults) == spec_default_template_list(shell),
                    forall|j: int| 0 <= j < i ==> known_template(shell, t, #[trigger] ns[j]),
                decreases names.len() - i,
            {
                let name = names[i].as_str();
                let known = map_contains_key(&defaults, name) || map_contains_key(
                    templates,
                    name,
                );
                proof {
                    lemma_first_unknown_step(shell, t, ns, i as int);
                }
                if !known {
                    assert(ns[i as int] == name@);
                    assert(ns.skip(i as int)[0] == ns[i as int]);
                    return Err(
                        Error::custom(concat3("unknown template `", name, "`")),
                    );
                }
                i = i + 1;
            }
            proof {
                assert(ns.skip(ns.len() as int) =~= Seq::<Seq<char>>::empty());
                if ns.len() > 0 {
                    lemma_first_unknown_step(shell, t, ns, ns.len() - 1);
                    assert(ns.skip(ns.len() - 1).drop_first() =~= Seq::<Seq<char>>::empty());
                }
            }
            Ok(())
        },
    }
}

/// Reports each key of `rest`, in order, as an unused key: pushes
/// ``unused config key: `{prefix}{key}` `` to `warnings`.
pub fn check_extra_toml(rest: &Vec<(String, RestValue)>, prefix: &str, warnings: &mut Vec<Error>)
    ensures
        errors_view(final(warnings)@) == errors_view(old(warnings)@) + custom_errors(
            unused_key_messages(prefix@, rest_keys(rest_view(rest@))),
        ),
{
    let ghost keys = rest_keys(rest_view(rest@));
    let ghost start = errors_view(warnings@);
    let mut i: usize = 0;
    while i < rest.len()
        invariant
            i <= rest.len(),
            keys == rest_keys(rest_view(rest@)),
            errors_view(warnings@) == start + custom_errors(
                unused_key_messages(prefix@, keys.take(i as int)),
            ),
        decreases rest.len() - i,
    {
        let message = concat3("unused config key: `", prefix, rest[i].0.as_str());
        let message = concat2(message.as_str(), "`");
        let ghost before = warnings@;
        warnings.push(Error::custom(message));
        proof {
            assert(keys[i as int] == rest[i as int].0@);
            assert(keys.take(i + 1) =~= keys.take(i as int).push(keys[i as int]));
            assert(errors_view(warnings@) =~= errors_view(before).push(warnings@.last()@));
            assert(custom_errors(unused_key_messages(prefix@, keys.take(i + 1))) =~= custom_errors(
                unused_key_messages(prefix@, keys.take(i as int)),
            ).push((None::<Seq<char>>, seq![unused_key_message(prefix@, keys[i as int])])));
        }
        i = i + 1;
    }
    assert(keys.take(rest.len() as int) =~= keys);
}

/// Pops the value under the key `key` when it is a string that names a Git
/// protocol, and returns that protocol.
pub fn try_pop_toml_value(rest: &mut Vec<(String, RestValue)>, key: &str) -> (r: Option<
    GitProtocol,
>)
    ensures
        r == spec_rest_protocol(rest_view(old(rest)@), key@),
        rest_view(final(rest)@) == spec_rest_after_pop(rest_view(old(rest)@), key@),
{
    let ghost rv = rest_view(rest@);
    proof {
        lemma_rest_key_index(rv, key@);
    }
    let k = to_owned_string(key);
    let mut i: usize = 0;
    while i < rest.len()
        invariant
            i <= rest.len(),
            rv == rest_view(rest@),
            rest@ == old(rest)@,
            k@ == key@,
            forall|j: int| 0 <= j < i ==> #[trigger] rv[j].0 != key@,
            -1 <= rest_key_index(rv, key@) < rv.len(),
            rest_key_index(rv, key@) >= 0 ==> rv[rest_key_index(rv, key@)].0 == key@,
            forall|j: int|
                0 <= j < rv.len() && (rest_key_index(rv, key@) < 0 || j < rest_key_index(
                    rv,
                    key@,
                )) ==> rv[j].0 != key@,
        decreases rest.len() - i,
    {
        assert(rv[i as int].0 == rest@[i as int].0@);
        assert(rv[i as int].1 == rest_value_view(rest@[i as int].1));
        if rest[i].0 == k {
            proof {
                lemma_protocol_names_distinct();
            }
            assert(rest_key_index(rv, key@) == i);
            let parsed = match &rest[i].1 {
                RestValue::String(s) => match GitProtocol::from_str(s.as_str()) {
                    Ok(p) => Some(p),
                    Err(_) => None,
                },
                RestValue::Other => None,
            };
            assert(parsed == spec_rest_protocol(rv, key@));
            if parsed.is_some() {
                let ghost before = rest@;
                rest.remove(i);
                assert(rest_view(rest@) =~= rv.remove(i as int));
            }
            return parsed;
        }
        i = i + 1;
    }
    None
}

} // verus!

verus! {

/// The number of source fields that a raw plugin sets.
pub open spec fn source_count(raw: RawPlugin) -> int {
    (if raw.git is Some { 1int } else { 0int }) + (if raw.gist is Some { 1int } else { 0int }) + (
    if raw.github is Some { 1int } else { 0int }) + (if raw.remote is Some { 1int } else { 0int })
        + (if raw.local is Some { 1int } else { 0int }) + (if raw.inline is Some { 1int } else { 0int })
}

/// The protocol a plugin asks for: `proto`, or else the deprecated
/// `protocol` key when it names a protocol.
pub open spec fn effective_proto(raw: RawPlugin) -> Option<GitProtocol> {
    if raw.proto is Some {
        raw.proto
    } else {
        spec_rest_protocol(rest_view(raw.rest@), "protocol"@)
    }
}

/// The unknown keys of a plugin once the deprecated `protocol` key has been
/// read.
pub open spec fn plugin_rest_keys(raw: RawPlugin) -> Seq<Seq<char>> {
    if raw.proto is Some {
        rest_keys(rest_view(raw.rest@))
    } else {
        rest_keys(spec_rest_after_pop(rest_view(raw.rest@), "protocol"@))
    }
}

/// The prefix of the keys of the plugin `name`: `plugins.{name}.`.
pub open spec fn plugin_prefix(name: Seq<char>) -> Seq<char> {
    "plugins."@ + name + "."@
}

/// The warning about the deprecated `protocol` key of the plugin `name`.
pub open spec fn deprecated_protocol_message(name: Seq<char>) -> Seq<char> {
    "use of deprecated config key: `plugins."@ + name + ".protocol`, please use `plugins."@ + name
        + ".proto` instead"@
}

/// The warnings that normalizing the plugin `name` gives, in order.
pub open spec fn spec_plugin_warnings(raw: RawPlugin, name: Seq<char>) -> Seq<Seq<char>> {
    (if raw.proto is None && effective_proto(raw) is Some {
        seq![deprecated_protocol_message(name)]
    } else {
        Seq::empty()
    }) + unused_key_messages(plugin_prefix(name), plugin_rest_keys(raw))
}

/// The text of the URL of a repository on `host`, cloned with `proto` (HTTPS
/// when none is given).
pub open spec fn repo_url_text(proto: Option<GitProtocol>, host: Seq<char>, repo: Seq<char>) -> Seq<
    char,
> {
    spec_protocol_prefix(
        match proto {
            Some(p) => p,
            None => GitProtocol::Https,
        },
    ) + host + seq!['/'] + repo
}

/// The text of the Gist repository of a raw plugin.
pub open spec fn gist_repo_text(raw: RawPlugin) -> Seq<char> {
    spec_gist_text(crate::url::opt_view(raw.gist.unwrap().owner), raw.gist.unwrap().identifier@)
}

/// The text of the GitHub repository of a raw plugin.
pub open spec fn github_repo_text(raw: RawPlugin) -> Seq<char> {
    raw.github.unwrap().owner@ + seq!['/'] + raw.github.unwrap().name@
}

/// The text of the Gist URL of a raw plugin.
pub open spec fn gist_url_text(raw: RawPlugin) -> Seq<char> {
    repo_url_text(effective_proto(raw), "gist.github.com"@, gist_repo_text(raw))
}

/// The text of the GitHub URL of a raw plugin.
pub open spec fn github_url_text(raw: RawPlugin) -> Seq<char> {
    repo_url_text(effective_proto(raw), "github.com"@, github_repo_text(raw))
}

/// The text of a failed parse.
pub open spec fn parse_error_text(r: Result<UrlView, Seq<char>>) -> Seq<char> {
    match r {
        Ok(_) => Seq::empty(),
        Err(e) => e,
    }
}

/// An error view made from a message alone.
pub open spec fn message_error(m: Seq<char>) -> ErrorView {
    (None::<Seq<char>>, seq![m])
}

/// Why normalizing the raw plugin `name` fails, if it does.
pub open spec fn spec_plugin_error(
    raw: RawPlugin,
    name: Seq<char>,
    shell: Shell,
    t: Seq<(Seq<char>, Seq<char>)>,
) -> Option<ErrorView> {
    let proto = effective_proto(raw);
    let n = source_count(raw);
    if n == 0 {
        Some(message_error("plugin `"@ + name + "` has no source fields"@))
    } else if n > 1 {
        Some(message_error("plugin `"@ + name + "` has multiple source fields"@))
    } else if raw.gist is Some && url_parse(gist_url_text(raw)) is Err {
        Some(
            (
                Some(parse_error_text(url_parse(gist_url_text(raw)))),
                seq!["failed to construct Gist URL using `"@ + gist_repo_text(raw) + "`"@],
            ),
        )
    } else if raw.github is Some && url_parse(github_url_text(raw)) is Err {
        Some(
            (
                Some(parse_error_text(url_parse(github_url_text(raw)))),
                seq!["failed to construct GitHub URL using `"@ + github_repo_text(raw) + "`"@],
            ),
        )
    } else if raw.inline is Some {
        if proto is Some {
            Some(message_error("the `proto` field is not supported by inline plugins"@))
        } else if raw.reference is Some {
            Some(
                message_error(
                    "the `branch`, `tag`, and `rev` fields are not supported by inline plugins"@,
                ),
            )
        } else if raw.dir is Some {
            Some(message_error("the `dir` field is not supported by inline plugins"@))
        } else if raw.uses is Some {
            Some(message_error("the `use` field is not supported by inline plugins"@))
        } else if raw.apply is Some {
            Some(message_error("the `apply` field is not supported by inline plugins"@))
        } else {
            None
        }
    } else if raw.git is None && raw.gist is None && raw.github is None && raw.reference is Some {
        Some(
            message_error(
                "the `branch`, `tag`, and `rev` fields are not supported by this plugin type"@,
            ),
        )
    } else if proto is Some && raw.gist is None && raw.github is None {
        Some(message_error("the `proto` field is not supported by this plugin type"@))
    } else {
        match first_unknown_template(shell, t, opt_names(raw.apply)) {
            Some(u) => Some(message_error(unknown_template_message(u))),
            None => None,
        }
    }
}

/// Whether `s` is the source that the raw plugin (with a single external
/// source field) describes.
pub open spec fn spec_plugin_source(raw: RawPlugin, s: Source) -> bool {
    if raw.git is Some {
        s == Source::Git { url: raw.git.unwrap(), reference: raw.reference }
    } else if raw.gist is Some {
        s matches Source::Git { url, reference } && reference == raw.reference && url_parse(
            gist_url_text(raw),
        ) == Ok::<UrlView, Seq<char>>(url@)
    } else if raw.github is Some {
        s matches Source::Git { url, reference } && reference == raw.reference && url_parse(
            github_url_text(raw),
        ) == Ok::<UrlView, Seq<char>>(url@)
    } else if raw.remote is Some {
        s == Source::Remote { url: raw.remote.unwrap() }
    } else {
        s == Source::Local { dir: raw.local.unwrap() }
    }
}

/// Whether `p` is the normalized form of the raw plugin `name`.
pub open spec fn spec_normalized_plugin(p: Plugin, raw: RawPlugin, name: Seq<char>) -> bool {
    if raw.inline is Some {
        &&& p matches Plugin::Inline(ip)
        &&& p->Inline_0.name@ == name
        &&& p->Inline_0.raw == raw.inline.unwrap()
        &&& p->Inline_0.profiles == raw.profiles
        &&& p->Inline_0.hooks == raw.hooks
    } else {
        &&& p matches Plugin::External(ep)
        &&& p->External_0.name@ == name
        &&& spec_plugin_source(raw, p->External_0.source)
        &&& p->External_0.dir == raw.dir
        &&& p->External_0.uses == raw.uses
        &&& p->External_0.apply == raw.apply
        &&& p->External_0.profiles == raw.profiles
        &&& p->External_0.hooks == raw.hooks
    }
}

/// The URL of a repository on `host`, cloned with `proto` (HTTPS when none
/// is given).
fn repo_url(proto: Option<GitProtocol>, host: &str, repo: &str) -> (r: Result<Url, String>)
    ensures
        match r {
            Ok(u) => url_parse(repo_url_text(proto, host@, repo@)) == Ok::<UrlView, Seq<char>>(
                u@,
            ),
            Err(e) => url_parse(repo_url_text(proto, host@, repo@)) == Err::<UrlView, Seq<char>>(
                e@,
            ),
        },
{
    proof {
        reveal_strlit("/");
    }
    let p = match proto {
        Some(p) => p,
        None => GitProtocol::Https,
    };
    let text = concat3(p.prefix(), host, "/");
    let text = concat2(text.as_str(), repo);
    assert("/"@ =~= seq!['/']);
    assert(text@ =~= repo_url_text(proto, host@, repo@));
    Url::parse(text.as_str())
}

/// Normalizes the raw plugin `name` into a [`Plugin`], which is simpler and
/// easier to handle: Gist and GitHub sources become [`Source::Git`].
///
/// Warnings about the deprecated `protocol` key and about unknown keys are
/// pushed to `warnings`, whether or not normalizing succeeds.
pub fn normalize_plugin(
    raw_plugin: RawPlugin,
    name: String,
    shell: Shell,
    templates: &IndexMap<String, String>,
    warnings: &mut Vec<Error>,
) -> (r: Result<Plugin, Error>)
    ensures
        errors_view(final(warnings)@) == errors_view(old(warnings)@) + custom_errors(
            spec_plugin_warnings(raw_plugin, name@),
        ),
        match spec_plugin_error(raw_plugin, name@, shell, template_entries(*templates)) {
            Some(ev) => r matches Err(e) && e@ == ev,
            None => r matches Ok(p) && spec_normalized_plugin(p, raw_plugin, name@),
        },
{
    let ghost raw = raw_plugin;
    let ghost start = errors_view(warnings@);
    let RawPlugin {
        git,
        gist,
        github,
        remote,
        local,
        inline,
        proto,
        reference,
        dir,
        uses,
        apply,
        profiles,
        hooks,
        rest,
    } = raw_plugin;
    let is_reference_some = reference.is_some();
    let is_gist_or_github = gist.is_some() || github.is_some();
    let mut rest = rest;
    let mut proto = proto;
    proof {
        reveal_strlit("protocol");
    }
    if proto.is_none() {
        let popped = try_pop_toml_value(&mut rest, "protocol");
        if let Some(protocol) = popped {
            let m = concat3(
                "use of deprecated config key: `plugins.",
                name.as_str(),
                ".protocol`, please use `plugins.",
            );
            let m = concat3(m.as_str(), name.as_str(), ".proto` instead");
            let ghost before = warnings@;
            warnings.push(Error::custom(m));
            assert(errors_view(warnings@) =~= errors_view(before).push(
                message_error(deprecated_protocol_message(name@)),
            ));
            proto = Some(protocol);
        }
    }
    assert(proto == effective_proto(raw));
    assert(rest_keys(rest_view(rest@)) == plugin_rest_keys(raw));
    let ghost mid = errors_view(warnings@);
    let prefix = concat3("plugins.", name.as_str(), ".");
    check_extra_toml(&rest, prefix.as_str(), warnings);
    proof {
        let d: Seq<Seq<char>> = if raw.proto is None && effective_proto(raw) is Some {
            seq![deprecated_protocol_message(name@)]
        } else {
            Seq::empty()
        };
        let u = unused_key_messages(plugin_prefix(name@), plugin_rest_keys(raw));
        assert(mid == start + custom_errors(d));
        assert(custom_errors(d + u) =~= custom_errors(d) + custom_errors(u));
        assert(errors_view(warnings@) =~= start + custom_errors(d + u));
    }
    let mut n: u8 = 0;
    if git.is_some() {
        n = n + 1;
    }
    if gist.is_some() {
        n = n + 1;
    }
    if github.is_some() {
        n = n + 1;
    }
    if remote.is_some() {
        n = n + 1;
    }
    if local.is_some() {
        n = n + 1;
    }
    if inline.is_some() {
        n = n + 1;
    }
    if n == 0 {
        return Err(Error::custom(concat3("plugin `", name.as_str(), "` has no source fields")));
    }
    if n > 1 {
        return Err(
            Error::custom(concat3("plugin `", name.as_str(), "` has multiple source fields")),
        );
    }
    match inline {
        Some(raw_source) => {
            if proto.is_some() {
                return Err(
                    Error::custom(
                        to_owned_string("the `proto` field is not supported by inline plugins"),
                    ),
                );
            }
            if is_reference_some {
                return Err(
                    Error::custom(
                        to_owned_string(
                            "the `branch`, `tag`, and `rev` fields are not supported by inline plugins",
                        ),
                    ),
                );
            }
            if dir.is_some() {
                return Err(
                    Error::custom(
                        to_owned_string("the `dir` field is not supported by inline plugins"),
                    ),
                );
            }
            if uses.is_some() {
                return Err(
                    Error::custom(
                        to_owned_string("the `use` field is not supported by inline plugins"),
                    ),
                );
            }
            if apply.is_some() {
                return Err(
                    Error::custom(
                        to_owned_string("the `apply` field is not supported by inline plugins"),
                    ),
                );
            }
            Ok(Plugin::Inline(InlinePlugin { name, raw: raw_source, profiles, hooks }))
        },
        None => {
            let source = if let Some(url) = git {
                Source::Git { url, reference }
            } else if let Some(repo) = gist {
                let text = repo.to_string();
                match repo_url(proto, "gist.github.com", text.as_str()) {
                    Ok(url) => Source::Git { url, reference },
                    Err(e) => {
                        let m = concat3("failed to construct Gist URL using `", text.as_str(), "`");
                        let err = Error::from_kind(ErrorKind::Url(e)).context(m);
                        assert(err@.1 =~= seq![m@]);
                        return Err(err);
                    },
                }
            } else if let Some(repo) = github {
                let text = repo.to_string();
                match repo_url(proto, "github.com", text.as_str()) {
                    Ok(url) => Source::Git { url, reference },
                    Err(e) => {
                        let m = concat3(
                            "failed to construct GitHub URL using `",
                            text.as_str(),
                            "`",
                        );
                        let err = Error::from_kind(ErrorKind::Url(e)).context(m);
                        assert(err@.1 =~= seq![m@]);
                        return Err(err);
                    },
                }
            } else if let Some(url) = remote {
                Source::Remote { url }
            } else {
                Source::Local { dir: local.unwrap() }
            };
            if !source.is_git() && is_reference_some {
                return Err(
                    Error::custom(
                        to_owned_string(
                            "the `branch`, `tag`, and `rev` fields are not supported by this plugin type",
                        ),
                    ),
                );
            } else if proto.is_some() && !is_gist_or_github {
                return Err(
                    Error::custom(
                        to_owned_string("the `proto` field is not supported by this plugin type"),
                    ),
                );
            }
            match validate_template_names(shell, &apply, templates) {
                Ok(()) => {},
                Err(e) => {
                    return Err(e);
                },
            }
            Ok(Plugin::External(ExternalPlugin { name, source, dir, uses, apply, profiles, hooks }))
        },
    }
}

} // verus!

verus! {

/// The name and error text of the first template of `e` that fails to
/// compile, if any.
pub open spec fn first_bad_template(e: Seq<(Seq<char>, Seq<char>)>) -> Option<
    (Seq<char>, Seq<char>),
>
    decreases e.len(),
{
    if e.len() == 0 {
        None
    } else {
        let r = first_bad_template(e.drop_last());
        if r is Some {
            r
        } else {
            match template_compile_error(e.last().1) {
                Some(m) => Some((e.last().0, m)),
                None => None,
            }
        }
    }
}

/// Once a prefix holds a template that fails to compile, the whole list
/// reports that one.
proof fn lemma_first_bad_template_prefix(e: Seq<(Seq<char>, Seq<char>)>, m: int)
    requires
        0 <= m <= e.len(),
        first_bad_template(e.take(m)) is Some,
    ensures
        first_bad_template(e) == first_bad_template(e.take(m)),
    decreases e.len() - m,
{
    if m == e.len() {
        assert(e.take(m) =~= e);
    } else {
        assert(e.drop_last().take(m) =~= e.take(m));
        lemma_first_bad_template_prefix(e.drop_last(), m);
    }
}

/// The position of the first plugin of `ps` that fails to normalize, or the
/// length of `ps` when none does.
pub open spec fn first_failing_plugin(
    ps: Seq<(String, RawPlugin)>,
    shell: Shell,
    t: Seq<(Seq<char>, Seq<char>)>,
) -> int
    decreases ps.len(),
{
    if ps.len() == 0 {
        0
    } else {
        let k = first_failing_plugin(ps.drop_last(), shell, t);
        if k < ps.len() - 1 {
            k
        } else if spec_plugin_error(ps.last().1, ps.last().0@, shell, t) is Some {
            ps.len() - 1
        } else {
            ps.len() as int
        }
    }
}

/// Once a prefix holds a plugin that fails, the whole list reports that one.
proof fn lemma_first_failing_prefix(
    ps: Seq<(String, RawPlugin)>,
    shell: Shell,
    t: Seq<(Seq<char>, Seq<char>)>,
    m: int,
)
    requires
        0 <= m <= ps.len(),
        first_failing_plugin(ps.take(m), shell, t) < m,
    ensures
        first_failing_plugin(ps, shell, t) == first_failing_plugin(ps.take(m), shell, t),
    decreases ps.len() - m,
{
    if m == ps.len() {
        assert(ps.take(m) =~= ps);
    } else {
        assert(ps.drop_last().take(m) =~= ps.take(m));
        lemma_first_failing_prefix(ps.drop_last(), shell, t, m);
    }
}

/// The warnings of the plugins of `ps`, in order.
pub open spec fn plugins_warnings(ps: Seq<(String, RawPlugin)>) -> Seq<Seq<char>>
    decreases ps.len(),
{
    if ps.len() == 0 {
        Seq::empty()
    } else {
        plugins_warnings(ps.drop_last()) + spec_plugin_warnings(ps.last().1, ps.last().0@)
    }
}

/// The shell of a raw config: the configured one, Zsh by default.
pub open spec fn config_shell(raw: RawConfig) -> Shell {
    match raw.shell {
        Some(s) => s,
        None => Shell::Zsh,
    }
}

/// Why normalizing a raw config fails, if it does.
pub open spec fn spec_config_error(raw: RawConfig) -> Option<ErrorView> {
    let t = template_entries(raw.templates);
    let shell = config_shell(raw);
    let ps = raw.plugins@;
    let k = first_failing_plugin(ps, shell, t);
    match first_bad_template(t) {
        Some(b) => Some((Some(b.1), seq!["failed to compile template `"@ + b.0 + "`"@])),
        None => match first_unknown_template(shell, t, opt_names(raw.apply)) {
            Some(u) => Some(message_error(unknown_template_message(u))),
            None => if k < ps.len() {
                let ev = spec_plugin_error(ps[k].1, ps[k].0@, shell, t).unwrap();
                Some((ev.0, ev.1.push("failed to normalize plugin `"@ + ps[k].0@ + "`"@)))
            } else {
                None
            },
        },
    }
}

/// The warnings that normalizing a raw config gives, in order: its unknown
/// keys, then the warnings of each plugin normalized.
pub open spec fn spec_config_warnings(raw: RawConfig) -> Seq<Seq<char>> {
    let t = template_entries(raw.templates);
    let shell = config_shell(raw);
    let ps = raw.plugins@;
    let k = first_failing_plugin(ps, shell, t);
    unused_key_messages(""@, rest_keys(rest_view(raw.rest@))) + if first_bad_template(t) is None
        && first_unknown_template(shell, t, opt_names(raw.apply)) is None {
        plugins_warnings(
            ps.take(
                if k < ps.len() {
                    k + 1
                } else {
                    ps.len() as int
                },
            ),
        )
    } else {
        Seq::empty()
    }
}

/// Checks that every template of `templates` compiles; on failure, the
/// error names the first that does not.
fn check_templates(templates: &IndexMap<String, String>) -> (r: Result<(), Error>)
    ensures
        match first_bad_template(template_entries(*templates)) {
            None => r is Ok,
            Some(b) => r matches Err(e) && e@ == (
                Some(b.1),
                seq!["failed to compile template `"@ + b.0 + "`"@],
            ),
        },
{
    let ghost t = template_entries(*templates);
    let n = map_len(templates);
    let mut i: usize = 0;
    while i < n
        invariant
            n == t.len(),
            t == template_entries(*templates),
            i <= n,
            first_bad_template(t.take(i as int)) is None,
        decreases n - i,
    {
        let (name, source) = map_get_index(templates, i);
        assert(t.take(i + 1).drop_last() =~= t.take(i as int));
        assert(t.take(i + 1).last() == t[i as int]);
        match check_template(source.as_str()) {
            Some(message) => {
                proof {
                    lemma_first_bad_template_prefix(t, i + 1);
                }
                let context = concat3("failed to compile template `", name.as_str(), "`");
                let e = Error::from_kind(ErrorKind::Template(message)).context(context);
                assert(e@.1 =~= seq![context@]);
                return Err(e);
            },
            None => {},
        }
        i = i + 1;
    }
    assert(t.take(n as int) =~= t);
    Ok(())
}

/// Normalizes a raw config from the file into a [`Config`].
///
/// Every template must compile, every template that `apply` names must
/// exist, and every plugin must normalize; the first failure is returned.
/// Warnings about unknown keys and deprecated ones are pushed to `warnings`
/// as they are found.
pub fn normalize(raw_config: RawConfig, warnings: &mut Vec<Error>) -> (r: Result<Config, Error>)
    ensures
        errors_view(final(warnings)@) == errors_view(old(warnings)@) + custom_errors(
            spec_config_warnings(raw_config),
        ),
        match spec_config_error(raw_config) {
            Some(ev) => r matches Err(e) && e@ == ev,
            None => r matches Ok(c) && {
                &&& c.shell == config_shell(raw_config)
                &&& c.matches == raw_config.matches
                &&& c.apply == raw_config.apply
                &&& c.templates == raw_config.templates
                &&& c.plugins.len() == raw_config.plugins.len()
                &&& forall|j: int|
                    0 <= j < c.plugins.len() ==> spec_normalized_plugin(
                        #[trigger] c.plugins@[j],
                        raw_config.plugins@[j].1,
                        raw_config.plugins@[j].0@,
                    )
            },
        },
{
    let ghost raw = raw_config;
    let ghost start = errors_view(warnings@);
    let RawConfig { shell, matches, apply, templates, plugins, rest } = raw_config;
    check_extra_toml(&rest, "", warnings);
    let ghost after_rest = errors_view(warnings@);
    let ghost t = template_entries(templates);
    match check_templates(&templates) {
        Ok(()) => {},
        Err(e) => {
            assert(errors_view(warnings@) =~= start + custom_errors(spec_config_warnings(raw)));
            return Err(e);
        },
    }
    let shell = match shell {
        Some(s) => s,
        None => Shell::default(),
    };
    match validate_template_names(shell, &apply, &templates) {
        Ok(()) => {},
        Err(e) => {
            assert(errors_view(warnings@) =~= start + custom_errors(spec_config_warnings(raw)));
            return Err(e);
        },
    }
    let ghost ps = plugins@;
    let mut remaining = plugins;
    let mut normalized: Vec<Plugin> = Vec::new();
    let total = remaining.len();
    assert(ps.len() == total);
    let mut i: usize = 0;
    while remaining.len() > 0
        invariant
            ps == raw.plugins@,
            ps.len() <= usize::MAX,
            raw == raw_config,
            start == errors_view(old(warnings)@),
            templates == raw.templates,
            t == template_entries(templates),
            shell == config_shell(raw),
            i + remaining.len() == ps.len(),
            remaining@ == ps.skip(i as int),
            normalized.len() == i,
            first_bad_template(t) is None,
            first_unknown_template(shell, t, opt_names(raw.apply)) is None,
            after_rest == start + custom_errors(
                unused_key_messages(""@, rest_keys(rest_view(raw.rest@))),
            ),
            first_failing_plugin(ps.take(i as int), shell, t) == i,
            errors_view(warnings@) == after_rest + custom_errors(plugins_warnings(ps.take(i as int))),
            forall|j: int|
                0 <= j < i ==> spec_normalized_plugin(
                    #[trigger] normalized@[j],
                    ps[j].1,
                    ps[j].0@,
                ),
        decreases remaining.len(),
    {
        let (name, plugin) = remaining.remove(0);
        assert(ps[i as int] == (name, plugin));
        let context = concat3("failed to normalize plugin `", name.as_str(), "`");
        let ghost before = errors_view(warnings@);
        let result = normalize_plugin(plugin, name, shell, &templates, warnings);
        proof {
            assert(ps.take(i + 1).drop_last() =~= ps.take(i as int));
            assert(ps.take(i + 1).last() == ps[i as int]);
            let w = spec_plugin_warnings(ps[i as int].1, ps[i as int].0@);
            assert(custom_errors(plugins_warnings(ps.take(i as int)) + w) =~= custom_errors(
                plugins_warnings(ps.take(i as int)),
            ) + custom_errors(w));
        }
        match result {
            Ok(p) => {
                normalized.push(p);
            },
            Err(e) => {
                proof {
                    lemma_first_failing_prefix(ps, shell, t, i + 1);
                }
                let e = e.context(context);
                proof {
                    let w = spec_plugin_warnings(ps[i as int].1, ps[i as int].0@);
                    let u = unused_key_messages(""@, rest_keys(rest_view(raw.rest@)));
                    assert(first_failing_plugin(ps, shell, t) == i);
                    assert(plugins_warnings(ps.take(i + 1)) == plugins_warnings(ps.take(i as int))
                        + w);
                    assert(spec_config_warnings(raw) == u + plugins_warnings(ps.take(i + 1)));
                    assert(errors_view(warnings@) == after_rest + custom_errors(
                        plugins_warnings(ps.take(i as int)),
                    ) + custom_errors(w));
                    lemma_custom_errors_add(
                        plugins_warnings(ps.take(i as int)), w);
                    lemma_custom_errors_add(
                        unused_key_messages(""@, rest_keys(rest_view(raw.rest@))),
                        plugins_warnings(ps.take(i + 1)),
                    );
                }
                assert(errors_view(warnings@) =~= start + custom_errors(
                    spec_config_warnings(raw),
                ));
                return Err(e);
            },
        }
        i = i + 1;
    }
    assert(ps.take(ps.len() as int) =~= ps);
    proof {
        lemma_custom_errors_add(
            unused_key_messages(""@, rest_keys(rest_view(raw.rest@))),
            plugins_warnings(ps),
        );
    }
    assert(errors_view(warnings@) =~= start + custom_errors(spec_config_warnings(raw)));
    Ok(Config { shell, matches, apply, templates, plugins: normalized })
}

} // verus!
