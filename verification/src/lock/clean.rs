//! Cleaning the clone and download directories: which of the paths found
//! there are kept, because a plugin uses them, and which are removed.
//!
//! Walking the directories and removing paths is done by the caller, which
//! asks a [`CleanPlan`] about each path it meets.

use vstd::prelude::*;

use crate::lock::{LockedConfig, LockedPlugin};
use crate::util::path::{spec_starts_with, PathBuf, PathView};

verus! {

/// The views of a sequence of paths.
pub open spec fn paths_view(v: Seq<PathBuf>) -> Seq<PathView> {
    v.map_values(|p: PathBuf| p@)
}

/// The path `p` and all of its ancestors.
pub open spec fn ancestors_set(p: PathView) -> Set<PathView> {
    Set::new(|a: PathView| exists|k: int| 0 <= k <= p.1.len() && a == (p.0, p.1.take(k)))
}

/// The paths that cleaning keeps: source directories (which it does not
/// enter), parent directories (which it does not remove), and files (which
/// it does not remove from the download directory).
#[derive(Debug)]
pub struct CleanPlan {
    /// Directories that are kept whole.
    pub source_dirs: Vec<PathBuf>,
    /// Directories that are kept, though their other contents may go.
    pub parent_dirs: Vec<PathBuf>,
    /// Files that are kept.
    pub files: Vec<PathBuf>,
}

/// Whether `p` is among `v`.
pub fn contains_path(v: &Vec<PathBuf>, p: &PathBuf) -> (b: bool)
    ensures
        b == paths_view(v@).contains(p@),
{
    let ghost pv = paths_view(v@);
    let mut i: usize = 0;
    while i < v.len()
        invariant
            i <= v.len(),
            pv == paths_view(v@),
            forall|j: int| 0 <= j < i ==> pv[j] != p@,
        decreases v.len() - i,
    {
        if v[i].same_as(p) {
            assert(pv[i as int] == p@);
            return true;
        }
        i = i + 1;
    }
    false
}

impl CleanPlan {
    /// Whether the walk of the clone directory enters `p`: it skips each
    /// source directory, with everything inside it.
    pub fn enters_clone_entry(&self, p: &PathBuf) -> (b: bool)
        ensures
            b == !paths_view(self.source_dirs@).contains(p@),
    {
        !contains_path(&self.source_dirs, p)
    }

    /// Whether `p`, met in the clone directory, is removed: all but the
    /// parent directories are.
    pub fn removes_clone_entry(&self, p: &PathBuf) -> (b: bool)
        ensures
            b == !paths_view(self.parent_dirs@).contains(p@),
    {
        !contains_path(&self.parent_dirs, p)
    }

    /// Whether `p`, met in the download directory, is removed: all but the
    /// kept files and the parent directories are.
    pub fn removes_download_entry(&self, p: &PathBuf) -> (b: bool)
        ensures
            b == (!paths_view(self.files@).contains(p@) && !paths_view(
                self.parent_dirs@,
            ).contains(p@)),
    {
        !contains_path(&self.files, p) && !contains_path(&self.parent_dirs, p)
    }
}

/// The directory of a locked external plugin.
pub open spec fn plugin_dir_view(p: crate::lock::LockedExternalPlugin) -> PathView {
    match p.plugin_dir {
        Some(d) => d@,
        None => p.source_dir@,
    }
}

/// Whether `x` is the source directory of one of the external plugins of
/// `ps`.
pub open spec fn is_source_dir(ps: Seq<LockedPlugin>, x: PathView) -> bool {
    exists|i: int|
        0 <= i < ps.len() && (#[trigger] ps[i]) is External && ps[i]->External_0.source_dir@ == x
}

/// Whether `x` is the directory of one of the external plugins of `ps`, or
/// an ancestor of it.
pub open spec fn is_plugin_parent(ps: Seq<LockedPlugin>, x: PathView) -> bool {
    exists|i: int|
        0 <= i < ps.len() && (#[trigger] ps[i]) is External && ancestors_set(
            plugin_dir_view(ps[i]->External_0),
        ).contains(x)
}

/// Whether `x` is a file of one of the external plugins of `ps` inside the
/// download directory `d`.
pub open spec fn is_downloaded_file(ps: Seq<LockedPlugin>, d: PathView, x: PathView) -> bool {
    exists|i: int, j: int|
        #![trigger ps[i], ps[i]->External_0.files@[j]]
        0 <= i < ps.len() && ps[i] is External && 0 <= j < ps[i]->External_0.files.len()
            && ps[i]->External_0.files@[j]@ == x && spec_starts_with(x, d)
}

/// Adds `p` and its ancestors to `v`.
pub fn push_ancestors(v: &mut Vec<PathBuf>, p: &PathBuf)
    ensures
        forall|x: PathView| #[trigger] paths_view(final(v)@).contains(x) <==> (paths_view(
            old(v)@,
        ).contains(x) || ancestors_set(p@).contains(x)),
{
    let ghost start = paths_view(v@);
    let anc = p.ancestors();
    let mut i: usize = 0;
    while i < anc.len()
        invariant
            i <= anc.len(),
            anc@.len() == p@.1.len() + 1,
            forall|k: int|
                0 <= k < anc@.len() ==> #[trigger] anc@[k]@ == (p@.0, p@.1.take(p@.1.len() - k)),
            start == paths_view(old(v)@),
            forall|x: PathView| #[trigger] paths_view(v@).contains(x) <==> (start.contains(x)
                || exists|k: int| 0 <= k < i && anc@[k]@ == x),
        decreases anc.len() - i,
    {
        let a = anc[i].duplicate();
        let ghost before = paths_view(v@);
        v.push(a);
        assert(paths_view(v@) =~= before.push(a@));
        assert forall|x: PathView| #[trigger] paths_view(v@).contains(x) <==> (start.contains(x)
            || exists|k: int| 0 <= k < i + 1 && anc@[k]@ == x) by {
            if paths_view(v@).contains(x) {
                let idx = choose|idx: int| 0 <= idx < paths_view(v@).len() && paths_view(v@)[idx] == x;
                if idx < before.len() {
                    assert(before[idx] == x);
                    assert(before.contains(x));
                }
            }
            if exists|k: int| 0 <= k < i + 1 && anc@[k]@ == x {
                let k = choose|k: int| 0 <= k < i + 1 && anc@[k]@ == x;
                if k == i {
                    assert(paths_view(v@)[before.len() as int] == x);
                } else {
                    assert(before.contains(x));
                    let idx = choose|idx: int| 0 <= idx < before.len() && before[idx] == x;
                    assert(before.push(a@)[idx] == before[idx]);
                    assert(paths_view(v@)[idx] == x);
                }
            }
            if start.contains(x) {
                assert(before.contains(x));
                let idx = choose|idx: int| 0 <= idx < before.len() && before[idx] == x;
                assert(before.push(a@)[idx] == before[idx]);
                assert(paths_view(v@)[idx] == x);
            }
        }
        i = i + 1;
    }
    assert forall|x: PathView| #[trigger] paths_view(v@).contains(x) <==> (start.contains(x)
        || ancestors_set(p@).contains(x)) by {
        if exists|k: int| 0 <= k < anc.len() && anc@[k]@ == x {
            let k = choose|k: int| 0 <= k < anc.len() && anc@[k]@ == x;
            assert(ancestors_set(p@).contains(x));
        }
        if ancestors_set(p@).contains(x) {
            let k = choose|k: int| 0 <= k <= p@.1.len() && x == (p@.0, p@.1.take(k));
            assert(anc@[p@.1.len() - k]@ == x);
        }
    }
}

} // verus!

verus! {

pub proof fn lemma_push_contains(s: Seq<PathView>, a: PathView, x: PathView)
    ensures
        s.push(a).contains(x) <==> (s.contains(x) || a == x),
{
    if s.push(a).contains(x) {
        let idx = choose|idx: int| 0 <= idx < s.push(a).len() && s.push(a)[idx] == x;
        if idx < s.len() {
            assert(s[idx] == x);
        }
    }
    if s.contains(x) {
        let idx = choose|idx: int| 0 <= idx < s.len() && s[idx] == x;
        assert(s.push(a)[idx] == x);
    }
    if a == x {
        assert(s.push(a)[s.len() as int] == x);
    }
}

proof fn lemma_source_dir_step(ps: Seq<LockedPlugin>, i: int, x: PathView)
    requires
        0 <= i < ps.len(),
    ensures
        is_source_dir(ps.take(i + 1), x) <==> (is_source_dir(ps.take(i), x) || (ps[i] is External
            && ps[i]->External_0.source_dir@ == x)),
{
    if is_source_dir(ps.take(i + 1), x) {
        let k = choose|k: int|
            0 <= k < ps.take(i + 1).len() && (#[trigger] ps.take(i + 1)[k]) is External && ps.take(
                i + 1,
            )[k]->External_0.source_dir@ == x;
        if k < i {
            assert(ps.take(i)[k] == ps.take(i + 1)[k]);
        }
    }
    if is_source_dir(ps.take(i), x) {
        let k = choose|k: int|
            0 <= k < ps.take(i).len() && (#[trigger] ps.take(i)[k]) is External && ps.take(
                i,
            )[k]->External_0.source_dir@ == x;
        assert(ps.take(i + 1)[k] == ps.take(i)[k]);
    }
    if ps[i] is External && ps[i]->External_0.source_dir@ == x {
        assert(ps.take(i + 1)[i] == ps[i]);
    }
}

proof fn lemma_parent_step(ps: Seq<LockedPlugin>, i: int, x: PathView)
    requires
        0 <= i < ps.len(),
    ensures
        is_plugin_parent(ps.take(i + 1), x) <==> (is_plugin_parent(ps.take(i), x) || (
        ps[i] is External && ancestors_set(plugin_dir_view(ps[i]->External_0)).contains(x))),
{
    if is_plugin_parent(ps.take(i + 1), x) {
        let k = choose|k: int|
            0 <= k < ps.take(i + 1).len() && (#[trigger] ps.take(i + 1)[k]) is External
                && ancestors_set(plugin_dir_view(ps.take(i + 1)[k]->External_0)).contains(x);
        if k < i {
            assert(ps.take(i)[k] == ps.take(i + 1)[k]);
        }
    }
    if is_plugin_parent(ps.take(i), x) {
        let k = choose|k: int|
            0 <= k < ps.take(i).len() && (#[trigger] ps.take(i)[k]) is External && ancestors_set(
                plugin_dir_view(ps.take(i)[k]->External_0),
            ).contains(x);
        assert(ps.take(i + 1)[k] == ps.take(i)[k]);
    }
    if ps[i] is External && ancestors_set(plugin_dir_view(ps[i]->External_0)).contains(x) {
        assert(ps.take(i + 1)[i] == ps[i]);
    }
}

/// Whether `x` is one of `files` inside `d`.
pub open spec fn in_files(files: Seq<PathBuf>, d: PathView, x: PathView) -> bool {
    exists|j: int| 0 <= j < files.len() && (#[trigger] files[j])@ == x && spec_starts_with(x, d)
}

proof fn lemma_file_step(ps: Seq<LockedPlugin>, d: PathView, i: int, x: PathView)
    requires
        0 <= i < ps.len(),
    ensures
        is_downloaded_file(ps.take(i + 1), d, x) <==> (is_downloaded_file(ps.take(i), d, x) || (
        ps[i] is External && in_files(ps[i]->External_0.files@, d, x))),
{
    if is_downloaded_file(ps.take(i + 1), d, x) {
        let (k, j) = choose|k: int, j: int|
            #![trigger ps.take(i + 1)[k], ps.take(i + 1)[k]->External_0.files@[j]]
            0 <= k < ps.take(i + 1).len() && ps.take(i + 1)[k] is External && 0 <= j < ps.take(
                i + 1,
            )[k]->External_0.files.len() && ps.take(i + 1)[k]->External_0.files@[j]@ == x
                && spec_starts_with(x, d);
        if k < i {
            assert(ps.take(i)[k] == ps.take(i + 1)[k]);
        } else {
            assert(ps[i]->External_0.files@[j]@ == x);
        }
    }
    if is_downloaded_file(ps.take(i), d, x) {
        let (k, j) = choose|k: int, j: int|
            #![trigger ps.take(i)[k], ps.take(i)[k]->External_0.files@[j]]
            0 <= k < ps.take(i).len() && ps.take(i)[k] is External && 0 <= j < ps.take(
                i,
            )[k]->External_0.files.len() && ps.take(i)[k]->External_0.files@[j]@ == x
                && spec_starts_with(x, d);
        assert(ps.take(i + 1)[k] == ps.take(i)[k]);
        assert(ps.take(i + 1)[k]->External_0.files@[j]@ == x);
    }
    if ps[i] is External && in_files(ps[i]->External_0.files@, d, x) {
        let j = choose|j: int|
            0 <= j < ps[i]->External_0.files@.len() && (#[trigger] ps[i]->External_0.files@[j])@
                == x && spec_starts_with(x, d);
        assert(ps.take(i + 1)[i] == ps[i]);
        assert(ps.take(i + 1)[i]->External_0.files@[j]@ == x);
    }
}

/// Adds to `v` the files of `files` inside `d`.
fn push_files_inside(v: &mut Vec<PathBuf>, files: &Vec<PathBuf>, d: &PathBuf)
    ensures
        forall|x: PathView| #[trigger] paths_view(final(v)@).contains(x) <==> (paths_view(
            old(v)@,
        ).contains(x) || in_files(files@, d@, x)),
{
    let ghost start = paths_view(v@);
    let mut j: usize = 0;
    while j < files.len()
        invariant
            j <= files.len(),
            start == paths_view(old(v)@),
            forall|x: PathView| #[trigger] paths_view(v@).contains(x) <==> (start.contains(x)
                || in_files(files@.take(j as int), d@, x)),
        decreases files.len() - j,
    {
        let ghost before = paths_view(v@);
        let inside = files[j].starts_with(d);
        if inside {
            v.push(files[j].duplicate());
            assert(paths_view(v@) =~= before.push(files@[j as int]@));
        }
        assert forall|x: PathView| #[trigger] paths_view(v@).contains(x) <==> (start.contains(x)
            || in_files(files@.take(j + 1), d@, x)) by {
            if inside {
                lemma_push_contains(before, files@[j as int]@, x);
            }
            if in_files(files@.take(j + 1), d@, x) {
                let k = choose|k: int|
                    0 <= k < files@.take(j + 1).len() && (#[trigger] files@.take(j + 1)[k])@ == x
                        && spec_starts_with(x, d@);
                if k < j {
                    assert(files@.take(j as int)[k] == files@.take(j + 1)[k]);
                } else {
                    assert(files@.take(j + 1)[k] == files@[j as int]);
                }
            }
            if inside && x == files@[j as int]@ {
                assert(files@.take(j + 1)[j as int] == files@[j as int]);
                assert(in_files(files@.take(j + 1), d@, x));
            }
            if in_files(files@.take(j as int), d@, x) {
                let k = choose|k: int|
                    0 <= k < files@.take(j as int).len() && (#[trigger] files@.take(j as int)[k])@
                        == x && spec_starts_with(x, d@);
                assert(files@.take(j + 1)[k] == files@.take(j as int)[k]);
            }
        }
        j = j + 1;
    }
    assert(files@.take(files.len() as int) =~= files@);
}

impl LockedConfig {
    /// What cleaning keeps: the source directories of the external plugins,
    /// the directory of each and all its ancestors along with the clone and
    /// download directories, and their files inside the download directory.
    pub fn clean(&self) -> (plan: CleanPlan)
        ensures
            forall|x: PathView| #[trigger] paths_view(plan.source_dirs@).contains(x)
                <==> is_source_dir(self.plugins@, x),
            forall|x: PathView| #[trigger] paths_view(plan.parent_dirs@).contains(x)
                <==> (is_plugin_parent(self.plugins@, x) || x == self.ctx.clone_dir@ || x
                == self.ctx.download_dir@),
            forall|x: PathView| #[trigger] paths_view(plan.files@).contains(x)
                <==> is_downloaded_file(self.plugins@, self.ctx.download_dir@, x),
    {
        let ghost ps = self.plugins@;
        let ghost dd = self.ctx.download_dir@;
        let mut source_dirs: Vec<PathBuf> = Vec::new();
        let mut parent_dirs: Vec<PathBuf> = Vec::new();
        let mut files: Vec<PathBuf> = Vec::new();
        let mut i: usize = 0;
        while i < self.plugins.len()
            invariant
                i <= self.plugins.len(),
                ps == self.plugins@,
                dd == self.ctx.download_dir@,
                forall|x: PathView| #[trigger] paths_view(source_dirs@).contains(x)
                    <==> is_source_dir(ps.take(i as int), x),
                forall|x: PathView| #[trigger] paths_view(parent_dirs@).contains(x)
                    <==> is_plugin_parent(ps.take(i as int), x),
                forall|x: PathView| #[trigger] paths_view(files@).contains(x)
                    <==> is_downloaded_file(ps.take(i as int), dd, x),
            decreases self.plugins.len() - i,
        {
            let ghost s0 = paths_view(source_dirs@);
            let ghost p0 = paths_view(parent_dirs@);
            let ghost f0 = paths_view(files@);
            match &self.plugins[i] {
                LockedPlugin::External(locked) => {
                    source_dirs.push(locked.source_dir.duplicate());
                    assert(paths_view(source_dirs@) =~= s0.push(locked.source_dir@));
                    push_ancestors(&mut parent_dirs, locked.dir());
                    push_files_inside(&mut files, &locked.files, &self.ctx.download_dir);
                    assert forall|x: PathView| #[trigger] paths_view(source_dirs@).contains(x)
                        <==> is_source_dir(ps.take(i + 1), x) by {
                        lemma_push_contains(s0, locked.source_dir@, x);
                        lemma_source_dir_step(ps, i as int, x);
                    }
                    assert forall|x: PathView| #[trigger] paths_view(parent_dirs@).contains(x)
                        <==> is_plugin_parent(ps.take(i + 1), x) by {
                        lemma_parent_step(ps, i as int, x);
                    }
                    assert forall|x: PathView| #[trigger] paths_view(files@).contains(x)
                        <==> is_downloaded_file(ps.take(i + 1), dd, x) by {
                        lemma_file_step(ps, dd, i as int, x);
                    }
                },
                LockedPlugin::Inline(_) => {
                    assert forall|x: PathView| #[trigger] paths_view(source_dirs@).contains(x)
                        <==> is_source_dir(ps.take(i + 1), x) by {
                        lemma_source_dir_step(ps, i as int, x);
                    }
                    assert forall|x: PathView| #[trigger] paths_view(parent_dirs@).contains(x)
                        <==> is_plugin_parent(ps.take(i + 1), x) by {
                        lemma_parent_step(ps, i as int, x);
                    }
                    assert forall|x: PathView| #[trigger] paths_view(files@).contains(x)
                        <==> is_downloaded_file(ps.take(i + 1), dd, x) by {
                        lemma_file_step(ps, dd, i as int, x);
                    }
                },
            }
            i = i + 1;
        }
        assert(ps.take(ps.len() as int) =~= ps);
        let ghost p1 = paths_view(parent_dirs@);
        parent_dirs.push(self.ctx.clone_dir.duplicate());
        let ghost p2 = paths_view(parent_dirs@);
        assert(p2 =~= p1.push(self.ctx.clone_dir@));
        parent_dirs.push(self.ctx.download_dir.duplicate());
        assert(paths_view(parent_dirs@) =~= p2.push(self.ctx.download_dir@));
        assert forall|x: PathView| #[trigger] paths_view(parent_dirs@).contains(x)
            <==> (is_plugin_parent(ps, x) || x == self.ctx.clone_dir@ || x
            == self.ctx.download_dir@) by {
            lemma_push_contains(p1, self.ctx.clone_dir@, x);
            lemma_push_contains(p2, self.ctx.download_dir@, x);
        }
        CleanPlan { source_dirs, parent_dirs, files }
    }
}

/// Cleaning keeps what the plugins use: it does not enter their source
/// directories, and it removes neither their directories nor any ancestor
/// of them, nor the clone and download directories, nor their files in the
/// download directory.
pub proof fn lemma_clean_keeps_plugins(lc: LockedConfig, plan: CleanPlan, i: int)
    requires
        0 <= i < lc.plugins.len(),
        lc.plugins@[i] is External,
        forall|x: PathView| #[trigger] paths_view(plan.source_dirs@).contains(x)
            <==> is_source_dir(lc.plugins@, x),
        forall|x: PathView| #[trigger] paths_view(plan.parent_dirs@).contains(x)
            <==> (is_plugin_parent(lc.plugins@, x) || x == lc.ctx.clone_dir@ || x
            == lc.ctx.download_dir@),
        forall|x: PathView| #[trigger] paths_view(plan.files@).contains(x)
            <==> is_downloaded_file(lc.plugins@, lc.ctx.download_dir@, x),
    ensures
        paths_view(plan.source_dirs@).contains(lc.plugins@[i]->External_0.source_dir@),
        forall|k: int|
            0 <= k <= plugin_dir_view(lc.plugins@[i]->External_0).1.len() ==> paths_view(
                plan.parent_dirs@,
            ).contains(
                (
                    plugin_dir_view(lc.plugins@[i]->External_0).0,
                    #[trigger] plugin_dir_view(lc.plugins@[i]->External_0).1.take(k),
                ),
            ),
        paths_view(plan.parent_dirs@).contains(lc.ctx.clone_dir@),
        paths_view(plan.parent_dirs@).contains(lc.ctx.download_dir@),
        forall|j: int|
            0 <= j < lc.plugins@[i]->External_0.files.len() && spec_starts_with(
                #[trigger] lc.plugins@[i]->External_0.files@[j]@,
                lc.ctx.download_dir@,
            ) ==> paths_view(plan.files@).contains(lc.plugins@[i]->External_0.files@[j]@),
{
    let p = lc.plugins@[i]->External_0;
    assert(is_source_dir(lc.plugins@, p.source_dir@));
    assert forall|k: int| 0 <= k <= plugin_dir_view(p).1.len() implies paths_view(
        plan.parent_dirs@,
    ).contains((plugin_dir_view(p).0, #[trigger] plugin_dir_view(p).1.take(k))) by {
        assert(ancestors_set(plugin_dir_view(p)).contains(
            (plugin_dir_view(p).0, plugin_dir_view(p).1.take(k)),
        ));
        assert(is_plugin_parent(
            lc.plugins@,
            (plugin_dir_view(p).0, plugin_dir_view(p).1.take(k)),
        ));
    }
    assert forall|j: int|
        0 <= j < p.files.len() && spec_starts_with(
            #[trigger] p.files@[j]@,
            lc.ctx.download_dir@,
        ) implies paths_view(plan.files@).contains(p.files@[j]@) by {
        assert(lc.plugins@[i]->External_0.files@[j] == p.files@[j]);
        assert(is_downloaded_file(lc.plugins@, lc.ctx.download_dir@, p.files@[j]@));
    }
}

} // verus!
