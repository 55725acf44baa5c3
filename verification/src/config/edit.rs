//! Editing the configuration file: adding and removing plugins.
//!
//! The file is edited as a `toml_edit` document, so that its comments and
//! layout are kept. Reading and writing the file are done by the caller.

use vstd::prelude::*;

use crate::config::file::RawPlugin;
use crate::config::{spec_shell_name, Shell};
use crate::error::{Error, ErrorKind};
use crate::text::{concat2, concat3, to_owned_string};

verus! {

/// A plugin to add to the configuration file.
#[derive(Debug)]
pub struct EditPlugin {
    /// The plugin, as it is written in the file.
    pub inner: RawPlugin,
}

impl EditPlugin {
    /// The plugin to add that is written as `raw_plugin`.
    pub fn from(raw_plugin: RawPlugin) -> (p: EditPlugin)
        ensures
            p.inner == raw_plugin,
    {
        EditPlugin { inner: raw_plugin }
    }
}

/// What the `plugins` entry of the configuration file holds.
#[derive(Debug, Clone, Copy, PartialEq, Eq, Structural)]
pub enum PluginsEntry {
    /// There is no `plugins` entry.
    Missing,
    /// The `plugins` entry is a table.
    Table,
    /// The `plugins` entry is something else.
    Other,
}

/// Decides whether the plugin `name` may be added: the `plugins` entry must
/// be missing (it is then created, as an implicit table) or a table, and no
/// plugin of that name may exist. Returns whether the `plugins` table must
/// be created.
pub fn check_add(entry: PluginsEntry, name_taken: bool, name: &str) -> (r: Result<bool, Error>)
    ensures
        entry == PluginsEntry::Other ==> (r matches Err(e) && e@ == (
            None::<Seq<char>>,
            seq!["current `plugins` entry is not a table"@],
        )),
        entry != PluginsEntry::Other && name_taken ==> (r matches Err(e) && e@ == (
            None::<Seq<char>>,
            seq!["plugin with name `"@ + name@ + "` already exists"@],
        )),
        entry != PluginsEntry::Other && !name_taken ==> r == Ok::<bool, Error>(
            entry == PluginsEntry::Missing,
        ),
{
    match entry {
        PluginsEntry::Other => Err(
            Error::custom(crate::text::to_owned_string("current `plugins` entry is not a table")),
        ),
        _ => {
            if name_taken {
                Err(Error::custom(concat3("plugin with name `", name, "` already exists")))
            } else {
                Ok(entry == PluginsEntry::Missing)
            }
        },
    }
}


#[verifier::external_type_specification]
#[verifier::external_body]
pub struct ExDocumentMut(toml_edit::DocumentMut);

#[verifier::external_type_specification]
#[verifier::external_body]
pub struct ExItem(toml_edit::Item);

/// Whether `toml_edit` parses `s` as a TOML document.
pub uninterp spec fn toml_document_parses(s: Seq<char>) -> bool;

/// The kind of `plugins` entry that the document parsed from `s` has, as
/// [`document_plugins_kind`] tells it.
pub uninterp spec fn text_plugins_kind(s: Seq<char>) -> u8;

/// The plugin names that the document parsed from `s` has, as
/// [`document_plugin_names`] tells them.
pub uninterp spec fn text_plugin_names(s: Seq<char>) -> Set<Seq<char>>;

/// What the `plugins` entry of a document holds, as `Table::get` finds it:
/// [`no_plugins`], [`plugins_table`], [`plugins_inline_table`] or
/// [`plugins_other`].
pub uninterp spec fn document_plugins_kind(doc: toml_edit::DocumentMut) -> u8;

/// The names of the plugins in the `plugins` table of a document: the keys
/// of its non-empty items.
pub uninterp spec fn document_plugin_names(doc: toml_edit::DocumentMut) -> Set<Seq<char>>;

/// The non-empty top-level items of a document, by key.
pub uninterp spec fn document_entries(doc: toml_edit::DocumentMut) -> Map<Seq<char>, toml_edit::Item>;

/// The non-empty items of the table stored as plugin `name` in the
/// `plugins` table of a document; none when there is no such table.
pub uninterp spec fn document_plugin_entries(doc: toml_edit::DocumentMut, name: Seq<char>) -> Option<
    Map<Seq<char>, toml_edit::Item>,
>;

/// The text of a document as `toml_edit` writes it out.
pub uninterp spec fn document_text_of(doc: toml_edit::DocumentMut) -> Seq<char>;

/// The document has no `plugins` entry.
pub open spec fn no_plugins() -> u8 {
    0
}

/// The `plugins` entry is a table.
pub open spec fn plugins_table() -> u8 {
    1
}

/// The `plugins` entry is an inline table.
pub open spec fn plugins_inline_table() -> u8 {
    2
}

/// The `plugins` entry is some other item.
pub open spec fn plugins_other() -> u8 {
    3
}

/// Parses `s` as a document with `toml_edit`'s `FromStr` for `DocumentMut`;
/// an error is given as its message. The result depends on the text alone.
#[verifier::external_body]
fn parse_document(s: &str) -> (r: Result<toml_edit::DocumentMut, String>)
    ensures
        r is Ok <==> toml_document_parses(s@),
        r matches Ok(d) ==> document_plugins_kind(d) == text_plugins_kind(s@)
            && document_plugin_names(d) == text_plugin_names(s@),
{
    match s.parse::<toml_edit::DocumentMut>() {
        Ok(doc) => Ok(doc),
        Err(e) => Err(e.to_string()),
    }
}

/// Looks up the `plugins` entry of `doc` with `Table::get`, which skips
/// empty items, and tells a table, an inline table and any other item
/// apart.
#[verifier::external_body]
fn plugins_kind_of(doc: &toml_edit::DocumentMut) -> (r: u8)
    ensures
        r == document_plugins_kind(*doc),
{
    match doc.get("plugins") {
        None => 0,
        Some(toml_edit::Item::Table(_)) => 1,
        Some(toml_edit::Item::Value(toml_edit::Value::InlineTable(_))) => 2,
        Some(_) => 3,
    }
}

/// Whether the `plugins` table of `doc` has a non-empty item `name`, by
/// `Table::contains_key`.
#[verifier::external_body]
fn has_plugin(doc: &toml_edit::DocumentMut, name: &str) -> (r: bool)
    requires
        document_plugins_kind(*doc) == plugins_table(),
    ensures
        r == document_plugin_names(*doc).contains(name@),
{
    match doc.get("plugins") {
        Some(toml_edit::Item::Table(t)) => t.contains_key(name),
        _ => false,
    }
}

/// Inserts an empty implicit `plugins` table into `doc` with
/// `Table::insert`; an implicit table without entries is not displayed.
#[verifier::external_body]
fn insert_plugins_table(doc: &mut toml_edit::DocumentMut)
    requires
        document_plugins_kind(*old(doc)) == no_plugins(),
    ensures
        document_plugins_kind(*final(doc)) == plugins_table(),
        document_plugin_names(*final(doc)) == Set::<Seq<char>>::empty(),
        forall|n: Seq<char>| #[trigger] document_plugin_entries(*final(doc), n) is None,
{
    let mut plugins = toml_edit::Table::new();
    plugins.set_implicit(true);
    doc.insert("plugins", toml_edit::Item::Table(plugins));
}

/// Sets the item `name` of the `plugins` table of `doc` to a new table that
/// holds the non-empty top-level items of `plugin` under their keys, copied
/// with `Item::clone`; the new table's header is preceded by a blank line.
/// The other items of the `plugins` table are left alone.
#[verifier::external_body]
fn insert_plugin(doc: &mut toml_edit::DocumentMut, name: &str, plugin: &toml_edit::DocumentMut)
    requires
        document_plugins_kind(*old(doc)) == plugins_table(),
        !document_plugin_names(*old(doc)).contains(name@),
    ensures
        document_plugins_kind(*final(doc)) == plugins_table(),
        document_plugin_names(*final(doc)) == document_plugin_names(*old(doc)).insert(name@),
        document_plugin_entries(*final(doc), name@) == Some(document_entries(*plugin)),
        forall|n: Seq<char>|
            n != name@ ==> #[trigger] document_plugin_entries(*final(doc), n)
                == document_plugin_entries(*old(doc), n),
{
    let mut table = toml_edit::Table::new();
    table.decor_mut().set_prefix("\n");
    for (k, v) in plugin.as_table().iter() {
        table[k] = v.clone();
    }
    doc["plugins"][name] = toml_edit::Item::Table(table);
}

/// Sets the item `name` of the `plugins` entry of `doc` to an empty item,
/// by `doc["plugins"][name] = Item::None`. A missing `plugins` entry
/// becomes an inline table first; the indexing panics on any entry that is
/// neither missing, a table nor an inline table.
#[verifier::external_body]
fn remove_plugin(doc: &mut toml_edit::DocumentMut, name: &str)
    requires
        document_plugins_kind(*old(doc)) != plugins_other(),
    ensures
        document_plugins_kind(*old(doc)) == no_plugins() ==> document_plugins_kind(*final(doc))
            == plugins_inline_table(),
        document_plugins_kind(*old(doc)) == plugins_inline_table() ==> document_plugins_kind(
            *final(doc),
        ) == plugins_inline_table(),
        document_plugins_kind(*old(doc)) == plugins_table() ==> {
            &&& document_plugins_kind(*final(doc)) == plugins_table()
            &&& document_plugin_names(*final(doc)) == document_plugin_names(*old(doc)).remove(
                name@,
            )
            &&& document_plugin_entries(*final(doc), name@) is None
            &&& forall|n: Seq<char>|
                n != name@ ==> #[trigger] document_plugin_entries(*final(doc), n)
                    == document_plugin_entries(*old(doc), n)
        },
{
    doc["plugins"][name] = toml_edit::Item::None;
}

/// The text of `doc`, by its `Display`, which depends on the document
/// alone; the layout is `toml_edit`'s, named `document_text_of`.
#[verifier::external_body]
fn document_text(doc: &toml_edit::DocumentMut) -> (s: String)
    ensures
        s@ == document_text_of(*doc),
{
    doc.to_string()
}

/// An editable configuration file.
#[derive(Debug)]
pub struct EditConfig {
    /// The parsed TOML document.
    doc: toml_edit::DocumentMut,
}

/// The comment that a new configuration file starts with.
pub open spec fn default_config_header() -> Seq<char> {
    "# `sheldon` configuration file\n# ----------------------------\n#\n# You can modify this file directly or you can use one of the following\n# `sheldon` commands which are provided to assist in editing the config file:\n#\n# - `sheldon add` to add a new plugin to the config file\n# - `sheldon edit` to open up the config file in the default editor\n# - `sheldon remove` to remove a plugin from the config file\n#\n# See the documentation for more https://github.com/rossmacarthur/sheldon#readme\n"@
}

/// The text of a new configuration file: the header comment, the shell
/// when one is given, and an empty `plugins` table.
pub open spec fn spec_default_text(shell: Option<Shell>) -> Seq<char> {
    default_config_header() + match shell {
        Some(s) => "\nshell = \""@ + spec_shell_name(s) + "\"\n"@,
        None => Seq::empty(),
    } + "\n[plugins]\n"@
}

impl EditConfig {
    /// What the `plugins` entry holds: none, a table, an inline table or
    /// something else.
    pub closed spec fn plugins_kind(&self) -> u8 {
        document_plugins_kind(self.doc)
    }

    /// The names of the plugins in the `plugins` table.
    pub closed spec fn plugin_names(&self) -> Set<Seq<char>> {
        document_plugin_names(self.doc)
    }

    /// The non-empty top-level items of the config, by key.
    pub closed spec fn entries(&self) -> Map<Seq<char>, toml_edit::Item> {
        document_entries(self.doc)
    }

    /// The items of the table stored as plugin `name`, if there is one.
    pub closed spec fn plugin_entries(&self, name: Seq<char>) -> Option<Map<Seq<char>, toml_edit::Item>> {
        document_plugin_entries(self.doc, name)
    }

    /// The text of the config, as `toml_edit` writes the document out.
    pub closed spec fn text(&self) -> Seq<char> {
        document_text_of(self.doc)
    }

    /// Reads a config from the given TOML text: the document parsed from
    /// `s`. Fails, with the message "failed to deserialize contents as TOML"
    /// over the parser's error, exactly when the text is not a TOML
    /// document.
    pub fn from_str(s: &str) -> (r: Result<EditConfig, Error>)
        ensures
            r is Ok <==> toml_document_parses(s@),
            r matches Ok(c) ==> c.plugins_kind() == text_plugins_kind(s@) && c.plugin_names()
                == text_plugin_names(s@),
            r matches Err(e) ==> e@.1 == seq!["failed to deserialize contents as TOML"@],
    {
        match parse_document(s) {
            Ok(doc) => Ok(EditConfig { doc }),
            Err(message) => {
                let e = Error::from_kind(ErrorKind::FromToml(message)).context(
                    to_owned_string("failed to deserialize contents as TOML"),
                );
                assert(e@.1 =~= seq!["failed to deserialize contents as TOML"@]);
                Err(e)
            },
        }
    }

    /// What the `plugins` entry holds: `0` none, `1` a table, `2` an inline
    /// table, `3` something else.
    pub fn plugins_entry_kind(&self) -> (k: u8)
        ensures
            k == self.plugins_kind(),
    {
        plugins_kind_of(&self.doc)
    }

    /// The text of a new config file for the given shell.
    pub fn default_text(shell: Option<Shell>) -> (s: String)
        ensures
            s@ == spec_default_text(shell),
    {
        let header = to_owned_string(
            "# `sheldon` configuration file\n# ----------------------------\n#\n# You can modify this file directly or you can use one of the following\n# `sheldon` commands which are provided to assist in editing the config file:\n#\n# - `sheldon add` to add a new plugin to the config file\n# - `sheldon edit` to open up the config file in the default editor\n# - `sheldon remove` to remove a plugin from the config file\n#\n# See the documentation for more https://github.com/rossmacarthur/sheldon#readme\n",
        );
        let with_shell = match shell {
            Some(sh) => {
                let name = sh.to_string();
                let line = concat3("\nshell = \"", name.as_str(), "\"\n");
                concat2(header.as_str(), line.as_str())
            },
            None => header,
        };
        let r = concat2(with_shell.as_str(), "\n[plugins]\n");
        proof {
            assert(match shell {
                Some(s) => with_shell@ == default_config_header() + ("\nshell = \""@ + spec_shell_name(s) + "\"\n"@),
                None => with_shell@ == default_config_header() + Seq::<char>::empty(),
            });
        }
        r
    }

    /// Adds the plugin `name`, whose settings are the top-level entries of
    /// `plugin`, to the `plugins` table, which is created when there is
    /// none; the other plugins stay as they were. Fails, leaving the config
    /// as it was, when the `plugins` entry is not a table or a plugin of that
    /// name exists.
    pub fn add(&mut self, name: &str, plugin: &EditConfig) -> (r: Result<(), Error>)
        ensures
            old(self).plugins_kind() == plugins_inline_table() || old(self).plugins_kind()
                == plugins_other() ==> (r matches Err(e) && e@ == (
                None::<Seq<char>>,
                seq!["current `plugins` entry is not a table"@],
            ) && *final(self) == *old(self)),
            old(self).plugins_kind() == plugins_table() && old(self).plugin_names().contains(
                name@,
            ) ==> (r matches Err(e) && e@ == (
                None::<Seq<char>>,
                seq!["plugin with name `"@ + name@ + "` already exists"@],
            ) && *final(self) == *old(self)),
            old(self).plugins_kind() == no_plugins() ==> {
                &&& r is Ok
                &&& final(self).plugins_kind() == plugins_table()
                &&& final(self).plugin_names() == Set::<Seq<char>>::empty().insert(name@)
                &&& final(self).plugin_entries(name@) == Some(plugin.entries())
                &&& forall|n: Seq<char>|
                    n != name@ ==> #[trigger] final(self).plugin_entries(n) is None
            },
            old(self).plugins_kind() == plugins_table() && !old(self).plugin_names().contains(
                name@,
            ) ==> {
                &&& r is Ok
                &&& final(self).plugins_kind() == plugins_table()
                &&& final(self).plugin_names() == old(self).plugin_names().insert(name@)
                &&& final(self).plugin_entries(name@) == Some(plugin.entries())
                &&& forall|n: Seq<char>|
                    n != name@ ==> #[trigger] final(self).plugin_entries(n) == old(
                        self,
                    ).plugin_entries(n)
            },
    {
        let kind = plugins_kind_of(&self.doc);
        let (entry, taken) = if kind == 0 {
            (PluginsEntry::Missing, false)
        } else if kind == 1 {
            (PluginsEntry::Table, has_plugin(&self.doc, name))
        } else {
            (PluginsEntry::Other, false)
        };
        match check_add(entry, taken, name) {
            Err(e) => Err(e),
            Ok(create) => {
                if create {
                    insert_plugins_table(&mut self.doc);
                }
                insert_plugin(&mut self.doc, name, &plugin.doc);
                Ok(())
            },
        }
    }

    /// Removes the plugin `name` by setting its item of the `plugins` entry
    /// to an empty one: a missing `plugins` entry becomes an empty inline
    /// table, and in a `plugins` table the other plugins stay as they were.
    /// The `plugins` entry must be missing, a table or an inline table.
    pub fn remove(&mut self, name: &str)
        requires
            old(self).plugins_kind() != plugins_other(),
        ensures
            old(self).plugins_kind() == no_plugins() ==> final(self).plugins_kind()
                == plugins_inline_table(),
            old(self).plugins_kind() == plugins_inline_table() ==> final(self).plugins_kind()
                == plugins_inline_table(),
            old(self).plugins_kind() == plugins_table() ==> {
                &&& final(self).plugins_kind() == plugins_table()
                &&& final(self).plugin_names() == old(self).plugin_names().remove(name@)
                &&& final(self).plugin_entries(name@) is None
                &&& forall|n: Seq<char>|
                    n != name@ ==> #[trigger] final(self).plugin_entries(n) == old(
                        self,
                    ).plugin_entries(n)
            },
    {
        remove_plugin(&mut self.doc, name);
    }

    /// The text of the config, as `toml_edit` lays it out.
    pub fn to_string(&self) -> (s: String)
        ensures
            s@ == self.text(),
    {
        document_text(&self.doc)
    }
}

/// Removing a plugin that was just added to a `plugins` table that lacked
/// it gives back the plugins that the table had: the same names, and no
/// entry under the name.
pub proof fn lemma_remove_undoes_add(
    before: EditConfig,
    added: EditConfig,
    removed: EditConfig,
    name: Seq<char>,
)
    requires
        before.plugins_kind() == plugins_table(),
        !before.plugin_names().contains(name),
        added.plugin_names() == before.plugin_names().insert(name),
        removed.plugin_names() == added.plugin_names().remove(name),
        removed.plugin_entries(name) is None,
        forall|n: Seq<char>|
            n != name ==> #[trigger] added.plugin_entries(n) == before.plugin_entries(n),
        forall|n: Seq<char>|
            n != name ==> #[trigger] removed.plugin_entries(n) == added.plugin_entries(n),
    ensures
        removed.plugin_names() == before.plugin_names(),
        forall|n: Seq<char>|
            n != name ==> #[trigger] removed.plugin_entries(n) == before.plugin_entries(n),
{
    assert(removed.plugin_names() =~= before.plugin_names());
    assert forall|n: Seq<char>| n != name implies #[trigger] removed.plugin_entries(n)
        == before.plugin_entries(n) by {
        assert(added.plugin_entries(n) == before.plugin_entries(n));
    }
}

} // verus!
