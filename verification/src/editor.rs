//! Opening the config file in the default text editor: which editor to
//! use, and what to do with a temporary file left from an earlier edit.
//!
//! Spawning the editor, prompting and reading files are done by the caller.

use vstd::prelude::*;

use crate::error::{is_whitespace, Error};
use crate::text::{concat2, concat3, str_eq, string_from_chars, str_chars, strings_view, to_owned_string};
use crate::util::path::{spec_parse_path, PathBuf, PathView};

verus! {

/// The environment variables that may name an editor, in order.
pub open spec fn editor_env_vars() -> Seq<Seq<char>> {
    seq!["VISUAL"@, "EDITOR"@]
}

/// The editors tried when no environment variable names one, in order.
pub open spec fn fallback_editors() -> Seq<Seq<char>> {
    seq!["code --wait"@, "nano"@, "vim"@, "vi"@, "emacs"@]
}

/// The choice the user must provide when deciding what to do with an
/// existing temporary file.
#[derive(Debug, Clone, Copy, PartialEq, Eq, Structural)]
pub enum Choice {
    Abort,
    Reopen,
    Overwrite,
}

/// Produced when the user's answer is not a choice; holds the answer.
#[derive(Debug)]
pub struct ParseChoiceError(pub String);

/// The choice that an answer names, if any: `a`, `r` or `o`, in either
/// case.
pub open spec fn spec_choice(s: Seq<char>) -> Option<Choice> {
    if s == seq!['a'] || s == seq!['A'] {
        Some(Choice::Abort)
    } else if s == seq!['r'] || s == seq!['R'] {
        Some(Choice::Reopen)
    } else if s == seq!['o'] || s == seq!['O'] {
        Some(Choice::Overwrite)
    } else {
        None
    }
}

impl Choice {
    /// Reads a choice: `a` or `A` aborts, `r` or `R` reopens, `o` or `O`
    /// overwrites.
    pub fn from_str(s: &str) -> (r: Result<Choice, ParseChoiceError>)
        ensures
            match r {
                Ok(c) => spec_choice(s@) == Some(c),
                Err(e) => spec_choice(s@) is None && e.0@ == s@,
            },
    {
        proof {
            reveal_strlit("a");
            reveal_strlit("A");
            reveal_strlit("r");
            reveal_strlit("R");
            reveal_strlit("o");
            reveal_strlit("O");
            assert("a"@ =~= seq!['a'] && "A"@ =~= seq!['A'] && "r"@ =~= seq!['r']);
            assert("R"@ =~= seq!['R'] && "o"@ =~= seq!['o'] && "O"@ =~= seq!['O']);
            assert(seq!['r'] != seq!['a'] && seq!['r'] != seq!['A']) by {
                assert(seq!['r'][0] != seq!['a'][0] && seq!['r'][0] != seq!['A'][0]);
            }
            assert(seq!['R'] != seq!['a'] && seq!['R'] != seq!['A']) by {
                assert(seq!['R'][0] != seq!['a'][0] && seq!['R'][0] != seq!['A'][0]);
            }
            assert(seq!['o'] != seq!['a'] && seq!['o'] != seq!['A'] && seq!['o'] != seq!['r']
                && seq!['o'] != seq!['R']) by {
                assert(seq!['o'][0] != seq!['a'][0]);
            }
            assert(seq!['O'] != seq!['a'] && seq!['O'] != seq!['A'] && seq!['O'] != seq!['r']
                && seq!['O'] != seq!['R']) by {
                assert(seq!['O'][0] != seq!['a'][0]);
            }
        }
        if str_eq(s, "a") || str_eq(s, "A") {
            Ok(Choice::Abort)
        } else if str_eq(s, "r") || str_eq(s, "R") {
            Ok(Choice::Reopen)
        } else if str_eq(s, "o") || str_eq(s, "O") {
            Ok(Choice::Overwrite)
        } else {
            Err(ParseChoiceError(to_owned_string(s)))
        }
    }
}

impl ParseChoiceError {
    /// The message of this error.
    pub fn to_string(&self) -> (s: String)
        ensures
            s@ == "`"@ + self.0@ + "` is not a valid choice"@,
    {
        concat3("`", self.0.as_str(), "` is not a valid choice")
    }
}

/// The words of `s`: its maximal runs of non-whitespace characters, in
/// order.
pub open spec fn spec_words(s: Seq<char>) -> Seq<Seq<char>> {
    let (done, cur) = scan_words(s);
    if cur.len() > 0 {
        done.push(cur)
    } else {
        done
    }
}

/// Scanning `s` left to right: the words completed so far and the word
/// being read.
pub open spec fn scan_words(s: Seq<char>) -> (Seq<Seq<char>>, Seq<char>)
    decreases s.len(),
{
    if s.len() == 0 {
        (Seq::empty(), Seq::empty())
    } else {
        let (done, cur) = scan_words(s.drop_last());
        if is_whitespace(s.last()) {
            if cur.len() > 0 {
                (done.push(cur), Seq::empty())
            } else {
                (done, Seq::empty())
            }
        } else {
            (done, cur.push(s.last()))
        }
    }
}

/// The words of `s`, split at whitespace.
pub fn split_whitespace(s: &str) -> (r: Vec<String>)
    ensures
        strings_view(r@) == spec_words(s@),
{
    let chars = str_chars(s);
    let mut done: Vec<String> = Vec::new();
    let mut cur: Vec<char> = Vec::new();
    let mut i: usize = 0;
    assert(chars@.take(0) =~= Seq::<char>::empty());
    assert(strings_view(done@) =~= Seq::<Seq<char>>::empty());
    while i < chars.len()
        invariant
            i <= chars.len(),
            chars@ == s@,
            (strings_view(done@), cur@) == scan_words(chars@.take(i as int)),
        decreases chars.len() - i,
    {
        let c = chars[i];
        assert(chars@.take(i + 1).drop_last() =~= chars@.take(i as int));
        assert(chars@.take(i + 1).last() == c);
        if crate::error::char_is_whitespace(c) {
            if cur.len() > 0 {
                let w = string_from_chars(cur.as_slice());
                let ghost before = done@;
                done.push(w);
                assert(strings_view(done@) =~= strings_view(before).push(w@));
            }
            cur = Vec::new();
            assert(cur@ =~= Seq::<char>::empty());
        } else {
            cur.push(c);
        }
        i = i + 1;
    }
    assert(chars@.take(chars.len() as int) =~= chars@);
    if cur.len() > 0 {
        let w = string_from_chars(cur.as_slice());
        let ghost before = done@;
        done.push(w);
        assert(strings_view(done@) =~= strings_view(before).push(w@));
    }
    done
}

/// The binary and arguments of the command `cmd`: its first word as a
/// path, and the other words; none when it has no word.
pub fn to_bin_and_args(cmd: &str) -> (r: Option<(PathBuf, Vec<String>)>)
    ensures
        match r {
            Some((bin, args)) => spec_words(cmd@).len() > 0 && bin@ == spec_parse_path(
                spec_words(cmd@)[0],
            ) && strings_view(args@) == spec_words(cmd@).drop_first(),
            None => spec_words(cmd@).len() == 0,
        },
{
    let mut words = split_whitespace(cmd);
    if words.len() == 0 {
        return None;
    }
    let ghost all = strings_view(words@);
    let first = words.remove(0);
    assert(strings_view(words@) =~= all.drop_first());
    Some((PathBuf::parse(first.as_str()), words))
}

/// Whether the binary written as `bin` is found on the `PATH`.
///
/// Calls `which::which`; the answer depends on the environment and the
/// file system, so nothing is stated of it.
#[verifier::external_body]
fn is_on_path(bin: &str) -> bool {
    which::which(bin).is_ok()
}

/// The default editor.
#[derive(Debug)]
pub struct Editor {
    /// The path to the editor binary.
    pub bin: PathBuf,
    /// Extra args for the editor that might be required.
    pub args: Vec<String>,
}

/// The editor commands tried, in order: the values of the environment
/// variables `VISUAL` and `EDITOR` that are set, then the fallback editors.
pub open spec fn editor_commands(visual: Option<Seq<char>>, editor: Option<Seq<char>>) -> Seq<
    Seq<char>,
> {
    (match visual {
        Some(v) => seq![v],
        None => Seq::empty(),
    }) + (match editor {
        Some(e) => seq![e],
        None => Seq::empty(),
    }) + fallback_editors()
}

/// The index of the command chosen among `cmds[i..]`: the first one with a
/// word whose entry in `found` is true, where `found` holds one entry for
/// each command with a word, in order, and `k` is the entry of `cmds[i]`.
pub open spec fn chosen_from(cmds: Seq<Seq<char>>, found: Seq<bool>, i: int, k: int) -> Option<
    int,
>
    decreases cmds.len() - i,
{
    if i < 0 || i >= cmds.len() {
        None
    } else if spec_words(cmds[i]).len() > 0 {
        if 0 <= k < found.len() && found[k] {
            Some(i)
        } else {
            chosen_from(cmds, found, i + 1, k + 1)
        }
    } else {
        chosen_from(cmds, found, i + 1, k)
    }
}

/// The first of the commands `cmds` that has a word and whose binary is
/// found, as `found` tells for each command with a word in order.
pub fn choose_editor(cmds: &Vec<String>, found: &Vec<bool>) -> (r: Result<Editor, Error>)
    ensures
        match chosen_from(strings_view(cmds@), found@, 0, 0) {
            Some(i) => r matches Ok(ed) && 0 <= i < cmds.len() && spec_words(cmds@[i]@).len() > 0
                && ed.bin@ == spec_parse_path(spec_words(cmds@[i]@)[0]) && strings_view(ed.args@)
                == spec_words(cmds@[i]@).drop_first(),
            None => r matches Err(e) && e@ == (
                None::<Seq<char>>,
                seq!["failed to determine default editor"@],
            ),
        },
{
    let ghost cv = strings_view(cmds@);
    let mut i: usize = 0;
    let mut k: usize = 0;
    while i < cmds.len()
        invariant
            k <= i <= cmds.len(),
            cv == strings_view(cmds@),
            chosen_from(cv, found@, 0, 0) == chosen_from(cv, found@, i as int, k as int),
        decreases cmds.len() - i,
    {
        assert(cv[i as int] == cmds@[i as int]@);
        match to_bin_and_args(cmds[i].as_str()) {
            Some((bin, args)) => {
                if k < found.len() && found[k] {
                    return Ok(Editor { bin, args });
                }
                k = k + 1;
            },
            None => {},
        }
        i = i + 1;
    }
    Err(Error::custom(to_owned_string("failed to determine default editor")))
}

impl Editor {
    /// The default editor: the first command with a binary on the `PATH`
    /// among the values of `VISUAL` and `EDITOR` that are set, then the
    /// fallback editors.
    pub fn default(visual: Option<String>, editor: Option<String>) -> (r: Result<Editor, Error>)
        ensures
            r matches Ok(ed) ==> exists|i: int|
                0 <= i < editor_commands(crate::url::opt_view(visual), crate::url::opt_view(editor)).len()
                    && spec_words(#[trigger] editor_commands(crate::url::opt_view(visual), crate::url::opt_view(editor))[i]).len() > 0
                    && ed.bin@ == spec_parse_path(spec_words(editor_commands(crate::url::opt_view(visual), crate::url::opt_view(editor))[i])[0]),
            r matches Err(e) ==> e@ == (
                None::<Seq<char>>,
                seq!["failed to determine default editor"@],
            ),
    {
        let ghost cs = editor_commands(crate::url::opt_view(visual), crate::url::opt_view(editor));
        let mut cmds: Vec<String> = Vec::new();
        if let Some(v) = visual {
            cmds.push(v);
        }
        if let Some(e) = editor {
            cmds.push(e);
        }
        cmds.push(to_owned_string("code --wait"));
        cmds.push(to_owned_string("nano"));
        cmds.push(to_owned_string("vim"));
        cmds.push(to_owned_string("vi"));
        cmds.push(to_owned_string("emacs"));
        assert(cmds@.map_values(|s: String| s@) =~= cs);
        let mut found: Vec<bool> = Vec::new();
        let mut i: usize = 0;
        while i < cmds.len()
            invariant
                i <= cmds.len(),
            decreases cmds.len() - i,
        {
            if let Some((bin, _)) = to_bin_and_args(cmds[i].as_str()) {
                found.push(is_on_path(bin.to_string().as_str()));
            }
            i = i + 1;
        }
        let r = choose_editor(&cmds, &found);
        proof {
            if r is Ok {
                let i = chosen_from(strings_view(cmds@), found@, 0, 0)->Some_0;
                assert(strings_view(cmds@)[i] == cmds@[i]@);
                assert(cmds@.map_values(|s: String| s@)[i] == cmds@[i]@);
            }
        }
        r
    }
}

/// Whether an edit of a config file writes the current contents to the
/// temporary file before opening it: yes when there is no temporary file,
/// no when the existing one already holds them; otherwise the user's choice
/// decides (aborting is an error), or without a prompt the file is
/// overwritten.
pub fn edit_overwrites(temp_exists: bool, same_contents: bool, choice: Option<Choice>) -> (r: Result<
    bool,
    Error,
>)
    ensures
        !temp_exists ==> r == Ok::<bool, Error>(true),
        temp_exists && same_contents ==> r == Ok::<bool, Error>(false),
        temp_exists && !same_contents ==> match choice {
            None => r == Ok::<bool, Error>(true),
            Some(Choice::Reopen) => r == Ok::<bool, Error>(false),
            Some(Choice::Overwrite) => r == Ok::<bool, Error>(true),
            Some(Choice::Abort) => r matches Err(e) && e@ == (
                None::<Seq<char>>,
                seq!["aborted!"@],
            ),
        },
{
    if !temp_exists {
        Ok(true)
    } else if same_contents {
        Ok(false)
    } else {
        match choice {
            None => Ok(true),
            Some(Choice::Reopen) => Ok(false),
            Some(Choice::Overwrite) => Ok(true),
            Some(Choice::Abort) => Err(Error::custom(to_owned_string("aborted!"))),
        }
    }
}

/// What comes of an edit once the editor exits: an error when it failed
/// (`status` is how it exited) or when nothing changed; otherwise the new
/// contents are taken.
pub fn after_edit(success: bool, unchanged: bool, status: &str) -> (r: Result<(), Error>)
    ensures
        !success ==> (r matches Err(e) && e@ == (
            None::<Seq<char>>,
            seq!["editor terminated with "@ + status@],
        )),
        success && unchanged ==> (r matches Err(e) && e@ == (
            None::<Seq<char>>,
            seq!["aborted, no changes!"@],
        )),
        success && !unchanged ==> r is Ok,
{
    if !success {
        Err(Error::custom(concat2("editor terminated with ", status)))
    } else if unchanged {
        Err(Error::custom(to_owned_string("aborted, no changes!")))
    } else {
        Ok(())
    }
}

} // verus!
