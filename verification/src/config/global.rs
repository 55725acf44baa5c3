//! Global settings that apply to all plugins, built up one setting at a
//! time.

use vstd::prelude::*;

use crate::template::{pairs_view, spec_default_matches};
use crate::template_map::{entries_insert, key_index, lemma_key_index};
use crate::text::{strings_view, to_owned_string};
use crate::util::path::PathBuf;

verus! {

/// Global settings that apply to all plugins.
#[derive(Debug)]
pub struct Global {
    /// The root folder.
    pub root: Option<PathBuf>,
    /// Which files to match and use in a plugin's directory: the first
    /// pattern that matches any file is used.
    pub matches: Vec<String>,
    /// The default list of template names to apply to each matched file.
    pub apply: Vec<String>,
    /// The templates configured by the user, by name.
    pub templates: Vec<(String, String)>,
}

/// Adds `s` at the end of `v`.
fn push_owned(v: &mut Vec<String>, s: &str)
    ensures
        strings_view(final(v)@) == strings_view(old(v)@).push(s@),
{
    let ghost before = v@;
    v.push(to_owned_string(s));
    assert(strings_view(v@) =~= strings_view(before).push(s@));
}

impl Global {
    /// The default global settings: no root, the Zsh file patterns, the
    /// `source` template applied, and no templates of the user's.
    pub fn default() -> (g: Global)
        ensures
            g.root is None,
            strings_view(g.matches@) == spec_default_matches(crate::config::Shell::Zsh),
            strings_view(g.apply@) == seq!["source"@],
            g.templates@.len() == 0,
    {
        let mut matches: Vec<String> = Vec::new();
        push_owned(&mut matches, "{{ name }}.plugin.zsh");
        push_owned(&mut matches, "{{ name }}.zsh");
        push_owned(&mut matches, "{{ name }}.sh");
        push_owned(&mut matches, "{{ name }}.zsh-theme");
        push_owned(&mut matches, "*.plugin.zsh");
        push_owned(&mut matches, "*.zsh");
        push_owned(&mut matches, "*.sh");
        push_owned(&mut matches, "*.zsh-theme");
        let mut apply: Vec<String> = Vec::new();
        push_owned(&mut apply, "source");
        assert(strings_view(matches@) =~= spec_default_matches(crate::config::Shell::Zsh));
        assert(strings_view(apply@) =~= seq!["source"@]);
        Global { root: None, matches, apply, templates: Vec::new() }
    }

    /// New default global settings.
    pub fn new() -> (g: Global)
        ensures
            g.root is None,
            strings_view(g.matches@) == spec_default_matches(crate::config::Shell::Zsh),
            strings_view(g.apply@) == seq!["source"@],
            g.templates@.len() == 0,
    {
        Global::default()
    }

    /// These settings with the root directory set to `root`.
    pub fn root(self, root: PathBuf) -> (g: Global)
        ensures
            g.root == Some(root),
            g.matches == self.matches,
            g.apply == self.apply,
            g.templates == self.templates,
    {
        Global { root: Some(root), ..self }
    }

    /// These settings with the default file patterns set to `matches`.
    pub fn matches(self, matches: Vec<String>) -> (g: Global)
        ensures
            g.root == self.root,
            g.matches == matches,
            g.apply == self.apply,
            g.templates == self.templates,
    {
        Global { matches, ..self }
    }

    /// These settings with the default templates to apply set to `apply`.
    pub fn apply(self, apply: Vec<String>) -> (g: Global)
        ensures
            g.root == self.root,
            g.matches == self.matches,
            g.apply == apply,
            g.templates == self.templates,
    {
        Global { apply, ..self }
    }

    /// These settings with the template `template` added under `name`,
    /// replacing a template of that name.
    pub fn template(self, name: String, template: String) -> (g: Global)
        ensures
            g.root == self.root,
            g.matches == self.matches,
            g.apply == self.apply,
            pairs_view(g.templates@) == entries_insert(pairs_view(self.templates@), name@, template@),
    {
        let Global { root, matches, apply, mut templates } = self;
        let ghost tv = pairs_view(templates@);
        proof {
            lemma_key_index(tv, name@);
        }
        let mut i: usize = 0;
        while i < templates.len()
            invariant
                i <= templates.len(),
                tv == pairs_view(templates@),
                templates@ == self.templates@,
                root == self.root,
                matches == self.matches,
                apply == self.apply,
                forall|j: int| 0 <= j < i ==> tv[j].0 != name@,
                -1 <= key_index(tv, name@) < tv.len(),
                key_index(tv, name@) >= 0 ==> tv[key_index(tv, name@)].0 == name@,
                forall|j: int|
                    0 <= j < tv.len() && (key_index(tv, name@) < 0 || j < key_index(tv, name@))
                        ==> tv[j].0 != name@,
            decreases templates.len() - i,
        {
            assert(tv[i as int].0 == templates@[i as int].0@);
            if templates[i].0 == name {
                assert(key_index(tv, name@) == i);
                templates.set(i, (name, template));
                assert(pairs_view(templates@) =~= tv.update(i as int, (name@, template@)));
                return Global { root, matches, apply, templates };
            }
            i = i + 1;
        }
        let ghost before = templates@;
        templates.push((name, template));
        assert(pairs_view(templates@) =~= tv.push((name@, template@)));
        Global { root, matches, apply, templates }
    }
}

} // verus!
