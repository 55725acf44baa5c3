//! What cleaning keeps, worked out from the configuration: the clone
//! directory of each Git source and the download of each remote source.

use vstd::prelude::*;

use crate::config::{Config, Plugin, Source};
use crate::context::Context;
use crate::error::{Error, ErrorView};
use crate::lock::clean::{ancestors_set, paths_view, CleanPlan};
use crate::lock::source::{
    git_dir, remote_dir_and_file, spec_download_name, spec_git_dir, spec_path_segments, push_all,
};
use crate::util::path::{spec_join, spec_parse_path, PathView};

verus! {

/// What a plugin keeps: its source directory (kept whole), the directory
/// whose ancestors are kept, and its downloaded file; or the error of
/// working out where its source is.
pub open spec fn clean_entry(p: Plugin, clone_dir: PathView, download_dir: PathView) -> Result<
    (Option<PathView>, Option<PathView>, Option<PathView>),
    Seq<char>,
> {
    match p {
        Plugin::External(e) => match e.source {
            Source::Git { url, .. } => match url.host {
                None => Err("URL `"@ + url.serialization@ + "` has no host"@),
                Some(h) => {
                    let d = spec_git_dir(clone_dir, h@, url.path@);
                    Ok((Some(d), Some(d), None))
                },
            },
            Source::Remote { url } => match url.host {
                None => Err("URL `"@ + url.serialization@ + "` has no host"@),
                Some(h) => match spec_path_segments(url.path@) {
                    None => Err("URL `"@ + url.serialization@ + "` is cannot-be-a-base"@),
                    Some(segs) => {
                        let d = push_all(
                            spec_join(download_dir, spec_parse_path(h@)),
                            segs.drop_last(),
                        );
                        Ok(
                            (
                                None,
                                Some(d),
                                Some(spec_join(d, spec_parse_path(spec_download_name(segs)))),
                            ),
                        )
                    },
                },
            },
            Source::Local { .. } => Ok((None, None, None)),
        },
        Plugin::Inline(_) => Ok((None, None, None)),
    }
}

/// The position of the first plugin of `ps` whose source cannot be worked
/// out, or the length of `ps`.
pub open spec fn first_clean_error(ps: Seq<Plugin>, c: PathView, d: PathView) -> int
    decreases ps.len(),
{
    if ps.len() == 0 {
        0
    } else {
        let k = first_clean_error(ps.drop_last(), c, d);
        if k < ps.len() - 1 {
            k
        } else if clean_entry(ps.last(), c, d) is Err {
            ps.len() - 1
        } else {
            ps.len() as int
        }
    }
}

proof fn lemma_first_clean_error_prefix(ps: Seq<Plugin>, c: PathView, d: PathView, m: int)
    requires
        0 <= m <= ps.len(),
        first_clean_error(ps.take(m), c, d) < m,
    ensures
        first_clean_error(ps, c, d) == first_clean_error(ps.take(m), c, d),
    decreases ps.len() - m,
{
    if m == ps.len() {
        assert(ps.take(m) =~= ps);
    } else {
        assert(ps.drop_last().take(m) =~= ps.take(m));
        lemma_first_clean_error_prefix(ps.drop_last(), c, d, m);
    }
}

/// Whether one of the plugins of `ps` keeps `x` in the place `which` of its
/// entry (0: source directory, 1: ancestors of a directory, 2: file).
pub open spec fn kept_by(ps: Seq<Plugin>, c: PathView, d: PathView, which: int, x: PathView) -> bool {
    exists|i: int| 0 <= i < ps.len() && entry_keeps(#[trigger] clean_entry(ps[i], c, d), which, x)
}

/// Whether the entry `e` keeps `x` in the place `which`.
pub open spec fn entry_keeps(
    e: Result<(Option<PathView>, Option<PathView>, Option<PathView>), Seq<char>>,
    which: int,
    x: PathView,
) -> bool {
    match e {
        Err(_) => false,
        Ok(t) => if which == 0 {
            t.0 == Some(x)
        } else if which == 1 {
            match t.1 {
                Some(p) => ancestors_set(p).contains(x),
                None => false,
            }
        } else {
            t.2 == Some(x)
        },
    }
}

proof fn lemma_kept_step(ps: Seq<Plugin>, c: PathView, d: PathView, which: int, i: int, x: PathView)
    requires
        0 <= i < ps.len(),
    ensures
        kept_by(ps.take(i + 1), c, d, which, x) <==> (kept_by(ps.take(i), c, d, which, x)
            || entry_keeps(clean_entry(ps[i], c, d), which, x)),
{
    if kept_by(ps.take(i + 1), c, d, which, x) {
        let k = choose|k: int|
            0 <= k < ps.take(i + 1).len() && entry_keeps(
                #[trigger] clean_entry(ps.take(i + 1)[k], c, d),
                which,
                x,
            );
        if k < i {
            assert(ps.take(i)[k] == ps.take(i + 1)[k]);
        }
    }
    if kept_by(ps.take(i), c, d, which, x) {
        let k = choose|k: int|
            0 <= k < ps.take(i).len() && entry_keeps(
                #[trigger] clean_entry(ps.take(i)[k], c, d),
                which,
                x,
            );
        assert(ps.take(i + 1)[k] == ps.take(i)[k]);
    }
    assert(ps.take(i + 1)[i] == ps[i]);
}

/// What cleaning keeps, worked out from the configuration: the clone
/// directory of each Git source (kept whole), that directory and the
/// download directory of each remote source with all their ancestors, the
/// clone and download directories themselves, and each downloaded file.
pub fn clean(ctx: &Context, config: &Config) -> (r: Result<CleanPlan, Error>)
    ensures
        ({
            let ps = config.plugins@;
            let c = ctx.clone_dir@;
            let d = ctx.download_dir@;
            let k = first_clean_error(ps, c, d);
            if k < ps.len() {
                r matches Err(e) && e@ == (
                    None::<Seq<char>>,
                    seq![clean_entry(ps[k], c, d)->Err_0],
                )
            } else {
                r matches Ok(plan) && (forall|x: PathView|
                    #[trigger] paths_view(plan.source_dirs@).contains(x) <==> kept_by(
                        ps,
                        c,
                        d,
                        0,
                        x,
                    )) && (forall|x: PathView|
                    #[trigger] paths_view(plan.parent_dirs@).contains(x) <==> (kept_by(
                        ps,
                        c,
                        d,
                        1,
                        x,
                    ) || x == c || x == d)) && (forall|x: PathView|
                    #[trigger] paths_view(plan.files@).contains(x) <==> kept_by(ps, c, d, 2, x))
            }
        }),
{
    let ghost ps = config.plugins@;
    let ghost c = ctx.clone_dir@;
    let ghost d = ctx.download_dir@;
    let mut source_dirs: Vec<crate::util::path::PathBuf> = Vec::new();
    let mut parent_dirs: Vec<crate::util::path::PathBuf> = Vec::new();
    let mut files: Vec<crate::util::path::PathBuf> = Vec::new();
    let mut i: usize = 0;
    while i < config.plugins.len()
        invariant
            i <= config.plugins.len(),
            ps == config.plugins@,
            c == ctx.clone_dir@,
            d == ctx.download_dir@,
            first_clean_error(ps.take(i as int), c, d) == i,
            forall|x: PathView| #[trigger] paths_view(source_dirs@).contains(x) <==> kept_by(
                ps.take(i as int),
                c,
                d,
                0,
                x,
            ),
            forall|x: PathView| #[trigger] paths_view(parent_dirs@).contains(x) <==> kept_by(
                ps.take(i as int),
                c,
                d,
                1,
                x,
            ),
            forall|x: PathView| #[trigger] paths_view(files@).contains(x) <==> kept_by(
                ps.take(i as int),
                c,
                d,
                2,
                x,
            ),
        decreases config.plugins.len() - i,
    {
        assert(ps.take(i + 1).drop_last() =~= ps.take(i as int));
        assert(ps.take(i + 1).last() == ps[i as int]);
        let ghost s0 = paths_view(source_dirs@);
        let ghost f0 = paths_view(files@);
        match &config.plugins[i] {
            Plugin::External(p) => match &p.source {
                Source::Git { url, .. } => {
                    let dir = match git_dir(ctx, url) {
                        Ok(dir) => dir,
                        Err(e) => {
                            proof {
                                lemma_first_clean_error_prefix(ps, c, d, i + 1);
                            }
                            return Err(e);
                        },
                    };
                    crate::lock::clean::push_ancestors(&mut parent_dirs, &dir);
                    source_dirs.push(dir);
                    proof {
                        assert(paths_view(source_dirs@) =~= s0.push(dir@));
                        assert forall|x: PathView| #[trigger] paths_view(source_dirs@).contains(x)
                            <==> kept_by(ps.take(i + 1), c, d, 0, x) by {
                            crate::lock::clean::lemma_push_contains(s0, dir@, x);
                            lemma_kept_step(ps, c, d, 0, i as int, x);
                        }
                        assert forall|x: PathView| #[trigger] paths_view(parent_dirs@).contains(x)
                            <==> kept_by(ps.take(i + 1), c, d, 1, x) by {
                            lemma_kept_step(ps, c, d, 1, i as int, x);
                        }
                        assert forall|x: PathView| #[trigger] paths_view(files@).contains(x)
                            <==> kept_by(ps.take(i + 1), c, d, 2, x) by {
                            lemma_kept_step(ps, c, d, 2, i as int, x);
                        }
                    }
                },
                Source::Remote { url } => {
                    let (dir, file) = match remote_dir_and_file(ctx, url) {
                        Ok(p) => p,
                        Err(e) => {
                            proof {
                                lemma_first_clean_error_prefix(ps, c, d, i + 1);
                            }
                            return Err(e);
                        },
                    };
                    crate::lock::clean::push_ancestors(&mut parent_dirs, &dir);
                    files.push(file);
                    proof {
                        assert(paths_view(files@) =~= f0.push(file@));
                        assert forall|x: PathView| #[trigger] paths_view(source_dirs@).contains(x)
                            <==> kept_by(ps.take(i + 1), c, d, 0, x) by {
                            lemma_kept_step(ps, c, d, 0, i as int, x);
                        }
                        assert forall|x: PathView| #[trigger] paths_view(parent_dirs@).contains(x)
                            <==> kept_by(ps.take(i + 1), c, d, 1, x) by {
                            lemma_kept_step(ps, c, d, 1, i as int, x);
                        }
                        assert forall|x: PathView| #[trigger] paths_view(files@).contains(x)
                            <==> kept_by(ps.take(i + 1), c, d, 2, x) by {
                            crate::lock::clean::lemma_push_contains(f0, file@, x);
                            lemma_kept_step(ps, c, d, 2, i as int, x);
                        }
                    }
                },
                Source::Local { .. } => {
                    proof {
                        assert forall|x: PathView| #[trigger] paths_view(source_dirs@).contains(x)
                            <==> kept_by(ps.take(i + 1), c, d, 0, x) by {
                            lemma_kept_step(ps, c, d, 0, i as int, x);
                        }
                        assert forall|x: PathView| #[trigger] paths_view(parent_dirs@).contains(x)
                            <==> kept_by(ps.take(i + 1), c, d, 1, x) by {
                            lemma_kept_step(ps, c, d, 1, i as int, x);
                        }
                        assert forall|x: PathView| #[trigger] paths_view(files@).contains(x)
                            <==> kept_by(ps.take(i + 1), c, d, 2, x) by {
                            lemma_kept_step(ps, c, d, 2, i as int, x);
                        }
                    }
                },
            },
            Plugin::Inline(_) => {
                proof {
                    assert forall|x: PathView| #[trigger] paths_view(source_dirs@).contains(x)
                        <==> kept_by(ps.take(i + 1), c, d, 0, x) by {
                        lemma_kept_step(ps, c, d, 0, i as int, x);
                    }
                    assert forall|x: PathView| #[trigger] paths_view(parent_dirs@).contains(x)
                        <==> kept_by(ps.take(i + 1), c, d, 1, x) by {
                        lemma_kept_step(ps, c, d, 1, i as int, x);
                    }
                    assert forall|x: PathView| #[trigger] paths_view(files@).contains(x)
                        <==> kept_by(ps.take(i + 1), c, d, 2, x) by {
                        lemma_kept_step(ps, c, d, 2, i as int, x);
                    }
                }
            },
        }
        i = i + 1;
    }
    assert(ps.take(ps.len() as int) =~= ps);
    let ghost p1 = paths_view(parent_dirs@);
    parent_dirs.push(ctx.clone_dir.duplicate());
    let ghost p2 = paths_view(parent_dirs@);
    assert(p2 =~= p1.push(c));
    parent_dirs.push(ctx.download_dir.duplicate());
    assert(paths_view(parent_dirs@) =~= p2.push(d));
    assert forall|x: PathView| #[trigger] paths_view(parent_dirs@).contains(x) <==> (kept_by(
        ps,
        c,
        d,
        1,
        x,
    ) || x == c || x == d) by {
        crate::lock::clean::lemma_push_contains(p1, c, x);
        crate::lock::clean::lemma_push_contains(p2, d, x);
    }
    Ok(CleanPlan { source_dirs, parent_dirs, files })
}

} // verus!
