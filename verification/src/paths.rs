//! Path text and the workspace layout: downloads per L4T version, staging
//! and logs per profile and version. Paths are held as their (UTF-8) text.
use vstd::prelude::*;
use crate::text::{cat, cat3, lemma_after_last, opt_view, owned};

verus! {

/// A path that starts at the file-system root.
pub open spec fn is_absolute(p: Seq<char>) -> bool {
    p.len() > 0 && p[0] == '/'
}

/// The text of `base` with `component` adjoined, as `Path::join` builds
/// it on Unix: an absolute component replaces the path; otherwise the
/// component follows the base, with a `/` in between when the base is
/// non-empty and does not already end in `/`.
pub open spec fn spec_path_join(base: Seq<char>, component: Seq<char>) -> Seq<char> {
    if is_absolute(component) {
        component
    } else if base.len() > 0 && base.last() != '/' {
        base + seq!['/'] + component
    } else {
        base + component
    }
}

/// `base` adjoined with `component`, as `Path::join` adjoins them.
pub(crate) fn path_join(base: &str, component: &str) -> (r: String)
    ensures
        r@ == spec_path_join(base@, component@),
{
    if component.unicode_len() > 0 && component.get_char(0) == '/' {
        return owned(component);
    }
    let n = base.unicode_len();
    if n > 0 && base.get_char(n - 1) != '/' {
        proof {
            reveal_strlit("/");
        }
        assert("/"@ =~= seq!['/']);
        cat3(base, "/", component)
    } else {
        cat(base, component)
    }
}

/// The workspace layout under a base directory: downloads keyed by the
/// L4T version, staging and logs keyed by profile and version, so that
/// boards and JetPack releases never collide.
#[derive(Debug, Clone)]
pub struct Paths {
    /// The base of the workspace.
    pub base: String,
    /// `<base>/downloads/<version>`: the BSP and rootfs tarballs.
    pub downloads: String,
    /// `<base>/work/<profile>-<version>`: the extracted BSP.
    pub work: String,
    /// `<work>/Linux_for_Tegra`.
    pub l4t_dir: String,
    /// `<base>/logs/<profile>-<version>`.
    pub logs: String,
}

/// The slot of a profile and an L4T version, `<profile>-<version>`.
pub open spec fn slot(profile: Seq<char>, version: Seq<char>) -> Seq<char> {
    profile + seq!['-'] + version
}

/// `<base>/downloads/<version>`.
pub open spec fn downloads_dir(base: Seq<char>, version: Seq<char>) -> Seq<char> {
    spec_path_join(spec_path_join(base, "downloads"@), version)
}

/// `<base>/work/<profile>-<version>`.
pub open spec fn work_dir(base: Seq<char>, profile: Seq<char>, version: Seq<char>) -> Seq<char> {
    spec_path_join(spec_path_join(base, "work"@), slot(profile, version))
}

/// `<base>/work/<profile>-<version>/Linux_for_Tegra`.
pub open spec fn l4t_dir(base: Seq<char>, profile: Seq<char>, version: Seq<char>) -> Seq<char> {
    spec_path_join(work_dir(base, profile, version), "Linux_for_Tegra"@)
}

/// `<base>/logs/<profile>-<version>`.
pub open spec fn logs_dir(base: Seq<char>, profile: Seq<char>, version: Seq<char>) -> Seq<char> {
    spec_path_join(spec_path_join(base, "logs"@), slot(profile, version))
}

/// The base of the workspace: the explicit `--work-dir`, else
/// `$JETSON_WORK_DIR`, else the repo when run from a checkout, else
/// `$HOME/.cache/jetson-flash` (the repo root when `HOME` is not set).
pub open spec fn spec_workspace_base(
    work_dir: Option<Seq<char>>,
    env_work_dir: Option<Seq<char>>,
    repo_root: Seq<char>,
    from_checkout: bool,
    home: Option<Seq<char>>,
) -> Seq<char> {
    match work_dir {
        Some(w) => w,
        None => match env_work_dir {
            Some(w) => w,
            None => if from_checkout {
                repo_root
            } else {
                match home {
                    Some(h) => spec_path_join(spec_path_join(h, ".cache"@), "jetson-flash"@),
                    None => repo_root,
                }
            },
        },
    }
}

/// Chooses the base of the workspace (see [`spec_workspace_base`]).
pub fn workspace_base(
    work_dir: Option<String>,
    env_work_dir: Option<String>,
    repo_root: &str,
    from_checkout: bool,
    home: Option<String>,
) -> (r: String)
    ensures
        r@ == spec_workspace_base(opt_view(work_dir), opt_view(env_work_dir), repo_root@, from_checkout, opt_view(home)),
{
    if let Some(w) = work_dir {
        return w;
    }
    if let Some(w) = env_work_dir {
        return w;
    }
    if from_checkout {
        return String::from_str(repo_root);
    }
    match home {
        Some(h) => {
            let cache = path_join(h.as_str(), ".cache");
            path_join(cache.as_str(), "jetson-flash")
        },
        None => String::from_str(repo_root),
    }
}

impl Paths {
    /// The layout of the workspace under `base` for `profile` and L4T
    /// `version`.
    pub fn new(base: &str, profile: &str, version: &str) -> (r: Paths)
        ensures
            r.base@ == base@,
            r.downloads@ == downloads_dir(base@, version@),
            r.work@ == work_dir(base@, profile@, version@),
            r.l4t_dir@ == l4t_dir(base@, profile@, version@),
            r.logs@ == logs_dir(base@, profile@, version@),
    {
        let slot = cat3(profile, "-", version);
        assert("-"@ =~= seq!['-']) by {
            reveal_strlit("-");
        }
        let downloads = path_join(path_join(base, "downloads").as_str(), version);
        let work = path_join(path_join(base, "work").as_str(), slot.as_str());
        let l4t_dir = path_join(work.as_str(), "Linux_for_Tegra");
        let logs = path_join(path_join(base, "logs").as_str(), slot.as_str());
        Paths { base: String::from_str(base), downloads, work, l4t_dir, logs }
    }

    /// The staged root file system, `<l4t_dir>/rootfs`.
    pub fn rootfs(&self) -> (r: String)
        ensures
            r@ == spec_path_join(self.l4t_dir@, "rootfs"@),
    {
        path_join(self.l4t_dir.as_str(), "rootfs")
    }
}

/// Two slots are equal only for the same profile and version, when
/// versions hold no `-`.
pub proof fn lemma_slot_injective(p1: Seq<char>, v1: Seq<char>, p2: Seq<char>, v2: Seq<char>)
    requires
        !v1.contains('-'),
        !v2.contains('-'),
        slot(p1, v1) == slot(p2, v2),
    ensures
        p1 == p2,
        v1 == v2,
{
    lemma_after_last(p1, '-', v1);
    lemma_after_last(p2, '-', v2);
    assert(slot(p1, v1).subrange(0, p1.len() as int) =~= p1);
    assert(slot(p2, v2).subrange(0, p2.len() as int) =~= p2);
}

/// `prefix + c + rest` joined as a relative component under the same
/// directory: different components give different paths.
proof fn lemma_join_cancels(dir: Seq<char>, a: Seq<char>, b: Seq<char>)
    requires
        dir.len() > 0,
        dir.last() != '/',
        !is_absolute(a),
        !is_absolute(b),
        a != b,
    ensures
        spec_path_join(dir, a) != spec_path_join(dir, b),
{
    let n = dir.len() + 1;
    assert(spec_path_join(dir, a).subrange(n as int, spec_path_join(dir, a).len() as int) =~= a);
    assert(spec_path_join(dir, b).subrange(n as int, spec_path_join(dir, b).len() as int) =~= b);
}

/// Boards and JetPack releases never collide: under one base, two
/// different (profile, version) pairs get different staging and log
/// directories, and two versions different download directories (for
/// profiles and versions that are relative names, versions without `-`).
pub proof fn law_slots_never_collide(base: Seq<char>, p1: Seq<char>, v1: Seq<char>, p2: Seq<char>, v2: Seq<char>)
    requires
        !is_absolute(p1),
        !is_absolute(p2),
        !v1.contains('-'),
        !v2.contains('-'),
        p1 != p2 || v1 != v2,
        !is_absolute(v1),
        !is_absolute(v2),
    ensures
        work_dir(base, p1, v1) != work_dir(base, p2, v2),
        logs_dir(base, p1, v1) != logs_dir(base, p2, v2),
        v1 != v2 ==> downloads_dir(base, v1) != downloads_dir(base, v2),
{
    reveal_strlit("work");
    reveal_strlit("logs");
    reveal_strlit("downloads");
    let s1 = slot(p1, v1);
    let s2 = slot(p2, v2);
    if s1 == s2 {
        lemma_slot_injective(p1, v1, p2, v2);
    }
    assert(!is_absolute(s1)) by {
        if p1.len() > 0 {
            assert(s1[0] == p1[0]);
        }
    }
    assert(!is_absolute(s2)) by {
        if p2.len() > 0 {
            assert(s2[0] == p2[0]);
        }
    }
    let w = spec_path_join(base, "work"@);
    assert(w.len() > 0 && w.last() == 'k');
    lemma_join_cancels(w, s1, s2);
    let l = spec_path_join(base, "logs"@);
    assert(l.len() > 0 && l.last() == 's');
    lemma_join_cancels(l, s1, s2);
    let d = spec_path_join(base, "downloads"@);
    assert(d.len() > 0 && d.last() == 's');
    if v1 != v2 {
        lemma_join_cancels(d, v1, v2);
    }
}

} // verus!
