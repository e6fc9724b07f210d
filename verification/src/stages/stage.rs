//! Staging: extracting the BSP and the sample rootfs found in the
//! downloads directory into the staging directory, and
//! applying NVIDIA's binaries. Each step is skipped when its result is
//! already in place.
use vstd::prelude::*;
use crate::error::{Error, ErrorView};
use crate::logging::Level;
use crate::paths::{path_join, spec_path_join, Paths};
use crate::plan::{
    flag_after, passed_over, CommandView, OnFailure, add_guarded, add_log, add_probe, add_step, cmd_in, guarded, plan_view, step, Command, Effect,
    EffectView, Guard, Instr, InstrView, Probe, ProbeView,
};
use crate::text::{
    cat, ends_with, has_prefix, has_suffix, lemma_lex_lt_irreflexive, lemma_lex_lt_total,
    lemma_lex_lt_transitive, less_than, lex_lt, owned, starts_with,
};

verus! {

pub open spec fn is_tarball(name: Seq<char>, prefix: Seq<char>, suffix: Seq<char>) -> bool {
    starts_with(name, prefix) && ends_with(name, suffix)
}

/// `name` is a matching entry of `names` that no matching entry precedes.
pub open spec fn is_least_tarball(names: Seq<Seq<char>>, prefix: Seq<char>, suffix: Seq<char>, name: Seq<char>) -> bool {
    &&& names.contains(name)
    &&& is_tarball(name, prefix, suffix)
    &&& forall|i: int| 0 <= i < names.len() && is_tarball(#[trigger] names[i], prefix, suffix) ==> !lex_lt(names[i], name)
}

/// The first entry of `names` (in name order) that starts with `prefix`
/// and ends with `suffix`.
pub open spec fn least_tarball(names: Seq<Seq<char>>, prefix: Seq<char>, suffix: Seq<char>) -> Option<Seq<char>> {
    if exists|n: Seq<char>| is_least_tarball(names, prefix, suffix, n) {
        Some(choose|n: Seq<char>| is_least_tarball(names, prefix, suffix, n))
    } else {
        None
    }
}

/// At most one entry is the least match.
pub proof fn law_least_tarball_is_unique(
    names: Seq<Seq<char>>,
    prefix: Seq<char>,
    suffix: Seq<char>,
    a: Seq<char>,
    b: Seq<char>,
)
    requires
        is_least_tarball(names, prefix, suffix, a),
        is_least_tarball(names, prefix, suffix, b),
    ensures
        a == b,
{
    if a != b {
        let ia = choose|i: int| 0 <= i < names.len() && names[i] == a;
        let ib = choose|i: int| 0 <= i < names.len() && names[i] == b;
        assert(!lex_lt(names[ia], b));
        assert(!lex_lt(names[ib], a));
        lemma_lex_lt_total(a, b);
    }
}

/// A listing with a matching entry has a least matching entry.
proof fn lemma_least_tarball_exists(names: Seq<Seq<char>>, prefix: Seq<char>, suffix: Seq<char>) -> (m: Seq<char>)
    requires
        exists|i: int| 0 <= i < names.len() && is_tarball(#[trigger] names[i], prefix, suffix),
    ensures
        is_least_tarball(names, prefix, suffix, m),
    decreases names.len(),
{
    let init = names.drop_last();
    let last = names.last();
    if exists|i: int| 0 <= i < init.len() && is_tarball(#[trigger] init[i], prefix, suffix) {
        let m0 = lemma_least_tarball_exists(init, prefix, suffix);
        let j = choose|j: int| 0 <= j < init.len() && init[j] == m0;
        assert(names[j] == m0);
        if is_tarball(last, prefix, suffix) && lex_lt(last, m0) {
            assert forall|i: int| 0 <= i < names.len() && is_tarball(#[trigger] names[i], prefix, suffix) implies !lex_lt(names[i], last) by {
                if i < names.len() - 1 {
                    assert(names[i] == init[i]);
                    if lex_lt(names[i], last) {
                        lemma_lex_lt_transitive(names[i], last, m0);
                    }
                } else {
                    lemma_lex_lt_irreflexive(last);
                }
            }
            assert(names[names.len() - 1] == last);
            last
        } else {
            assert forall|i: int| 0 <= i < names.len() && is_tarball(#[trigger] names[i], prefix, suffix) implies !lex_lt(names[i], m0) by {
                if i < names.len() - 1 {
                    assert(names[i] == init[i]);
                }
            }
            m0
        }
    } else {
        assert forall|i: int| 0 <= i < names.len() && is_tarball(#[trigger] names[i], prefix, suffix) implies !lex_lt(names[i], last) by {
            if i < names.len() - 1 {
                assert(names[i] == init[i]);
                assert(!is_tarball(init[i], prefix, suffix));
            } else {
                lemma_lex_lt_irreflexive(last);
            }
        }
        let w = choose|i: int| 0 <= i < names.len() && is_tarball(#[trigger] names[i], prefix, suffix);
        if w < names.len() - 1 {
            assert(names[w] == init[w]);
        }
        assert(names[names.len() - 1] == last);
        last
    }
}

/// No tarball is found exactly when no entry of the listing starts with
/// `prefix` and ends with `suffix`.
pub proof fn law_no_tarball_iff_no_match(names: Seq<Seq<char>>, prefix: Seq<char>, suffix: Seq<char>)
    ensures
        least_tarball(names, prefix, suffix) is None
            <==> forall|i: int| 0 <= i < names.len() ==> !is_tarball(#[trigger] names[i], prefix, suffix),
{
    if exists|i: int| 0 <= i < names.len() && is_tarball(#[trigger] names[i], prefix, suffix) {
        let m = lemma_least_tarball_exists(names, prefix, suffix);
        assert(is_least_tarball(names, prefix, suffix, m));
    } else {
        assert forall|n: Seq<char>| !is_least_tarball(names, prefix, suffix, n) by {
            if names.contains(n) && is_tarball(n, prefix, suffix) {
                let k = choose|k: int| 0 <= k < names.len() && names[k] == n;
                assert(is_tarball(names[k], prefix, suffix));
            }
        }
    }
}

/// The first entry (in name order) that starts with `prefix` and ends with
/// `suffix`, if any.
pub fn find_tarball(names: &Vec<String>, prefix: &str, suffix: &str) -> (r: Option<String>)
    ensures
        match r {
            Some(n) => least_tarball(names.deep_view(), prefix@, suffix@) == Some(n@),
            None => least_tarball(names.deep_view(), prefix@, suffix@) is None,
        },
{
    let ghost views = names.deep_view();
    let mut best: Option<String> = None;
    let mut i: usize = 0;
    while i < names.len()
        invariant
            i <= names.len(),
            views == names.deep_view(),
            match best {
                Some(b) => {
                    &&& views.take(i as int).contains(b@)
                    &&& is_tarball(b@, prefix@, suffix@)
                    &&& forall|k: int| 0 <= k < i && is_tarball(#[trigger] views[k], prefix@, suffix@) ==> !lex_lt(views[k], b@)
                },
                None => forall|k: int| 0 <= k < i ==> !is_tarball(#[trigger] views[k], prefix@, suffix@),
            },
        decreases names.len() - i,
    {
        let name = names[i].as_str();
        assert(views[i as int] == name@);
        if has_prefix(name, prefix) && has_suffix(name, suffix) {
            let better = match &best {
                Some(b) => less_than(name, b.as_str()),
                None => true,
            };
            if better {
                proof {
                    match best {
                        Some(b) => {
                            assert forall|k: int| 0 <= k < i + 1 && is_tarball(#[trigger] views[k], prefix@, suffix@) implies !lex_lt(views[k], name@) by {
                                if k < i {
                                    if lex_lt(views[k], name@) {
                                        lemma_lex_lt_transitive(views[k], name@, b@);
                                    }
                                } else {
                                    lemma_lex_lt_irreflexive(name@);
                                }
                            }
                        },
                        None => {
                            lemma_lex_lt_irreflexive(name@);
                        },
                    }
                    assert(views.take(i + 1)[i as int] == name@);
                }
                best = Some(names[i].clone());
            } else {
                proof {
                    let b = best->0;
                    let j = choose|j: int| 0 <= j < views.take(i as int).len() && views.take(i as int)[j] == b@;
                    assert(views.take(i + 1)[j] == b@);
                }
            }
        } else {
            proof {
                if best is Some {
                    let b = best->0;
                    let j = choose|j: int| 0 <= j < views.take(i as int).len() && views.take(i as int)[j] == b@;
                    assert(views.take(i + 1)[j] == b@);
                }
            }
        }
        i = i + 1;
    }
    assert(views.take(i as int) =~= views);
    match best {
        Some(b) => {
            proof {
                assert(is_least_tarball(views, prefix@, suffix@, b@));
                let c = choose|n: Seq<char>| is_least_tarball(views, prefix@, suffix@, n);
                law_least_tarball_is_unique(views, prefix@, suffix@, b@, c);
            }
            Some(b)
        },
        None => {
            proof {
                assert forall|n: Seq<char>| !is_least_tarball(views, prefix@, suffix@, n) by {
                    if views.contains(n) {
                        let k = choose|k: int| 0 <= k < views.len() && views[k] == n;
                        assert(!is_tarball(views[k], prefix@, suffix@));
                    }
                }
            }
            None
        },
    }
}

pub open spec fn bsp_prefix() -> Seq<char> {
    "Jetson_Linux_R"@
}

pub open spec fn rootfs_prefix() -> Seq<char> {
    "Tegra_Linux_Sample-Root-Filesystem_R"@
}

pub open spec fn tarball_suffix() -> Seq<char> {
    "_aarch64.tbz2"@
}

/// Staging from the BSP tarball `bsp` and rootfs tarball `rootfs` into
/// the staging directory `work`.
pub open spec fn staging_plan(work: Seq<char>, l4t: Seq<char>, bsp: Seq<char>, rootfs: Seq<char>) -> Seq<InstrView> {
    let rootfs_dir = spec_path_join(l4t, "rootfs"@);
    seq![
        step(EffectView::MakeDirs { path: work, context: "mkdir "@ + work }),
        step(EffectView::SudoValidate),
        InstrView::Probe(ProbeView::Exists(l4t)),
        guarded(Guard::IfFlag, EffectView::Log(Level::Info, "reusing existing Linux_for_Tegra/ (BSP already extracted)"@)),
        guarded(Guard::UnlessFlag, EffectView::Log(Level::Heading, "extract BSP -> Linux_for_Tegra/"@)),
        guarded(Guard::UnlessFlag, EffectView::Run(cmd_in("tar"@, seq!["xf"@, bsp], work))),
        InstrView::Probe(ProbeView::Exists(spec_path_join(rootfs_dir, "etc/os-release"@))),
        guarded(Guard::IfFlag, EffectView::Log(Level::Info, "rootfs already extracted; skipping"@)),
        guarded(Guard::UnlessFlag, EffectView::Log(Level::Heading, "extract sample rootfs -> rootfs/"@)),
        guarded(Guard::UnlessFlag, EffectView::Run(cmd_in("sudo"@, seq!["tar"@, "xpf"@, rootfs, "-C"@, "rootfs/"@], l4t))),
        InstrView::Probe(ProbeView::IsFile(spec_path_join(l4t, "tools/l4t_flash_prerequisites.sh"@))),
        guarded(Guard::IfFlag, EffectView::Log(Level::Heading, "l4t_flash_prerequisites.sh"@)),
        guarded(Guard::IfFlag, EffectView::Run(cmd_in("sudo"@, seq!["./tools/l4t_flash_prerequisites.sh"@], l4t))),
        InstrView::Probe(ProbeView::Exists(spec_path_join(rootfs_dir, "usr/lib/aarch64-linux-gnu/tegra"@))),
        guarded(Guard::IfFlag, EffectView::Log(Level::Info, "NVIDIA binaries already applied; skipping apply_binaries.sh"@)),
        guarded(Guard::UnlessFlag, EffectView::Log(Level::Heading, "apply_binaries.sh"@)),
        guarded(Guard::UnlessFlag, EffectView::Run(cmd_in("sudo"@, seq!["./apply_binaries.sh"@], l4t))),
        step(EffectView::Log(Level::Success, "Rootfs staged at "@ + l4t + "/rootfs"@)),
    ]
}

/// The stage stage for the entries of the downloads directory
/// `downloads` (`None` when it could not be listed): fails when either
/// tarball is missing, else stages from the first BSP and first rootfs
/// tarball in name order.
pub open spec fn stage_plan(downloads: Seq<char>, work: Seq<char>, l4t: Seq<char>, listing: Option<Seq<Seq<char>>>) -> Seq<InstrView> {
    let names = match listing {
        Some(n) => n,
        None => Seq::empty(),
    };
    match least_tarball(names, bsp_prefix(), tarball_suffix()) {
        None => seq![step(EffectView::Fail(ErrorView::Missing(
            "BSP tarball (Jetson_Linux_R*_aarch64.tbz2) not found in downloads/; run `fetch`"@,
        )))],
        Some(bsp) => match least_tarball(names, rootfs_prefix(), tarball_suffix()) {
            None => seq![step(EffectView::Fail(ErrorView::Missing("rootfs tarball not found in downloads/; run `fetch`"@)))],
            Some(rootfs) => staging_plan(
                work,
                l4t,
                spec_path_join(downloads, bsp),
                spec_path_join(downloads, rootfs),
            ),
        },
    }
}

/// The view of an optional list of names.
pub open spec fn listing_view(listing: Option<Vec<String>>) -> Option<Seq<Seq<char>>> {
    match listing {
        Some(v) => Some(v.deep_view()),
        None => None,
    }
}

/// Appends the staging steps.
fn add_staging(r: &mut Vec<Instr>, work: &str, l4t: &str, bsp: &str, rootfs: &str)
    ensures
        plan_view(final(r)@) == plan_view(old(r)@) + staging_plan(work@, l4t@, bsp@, rootfs@),
{
    let rootfs_dir = path_join(l4t, "rootfs");
    add_step(r, Effect::MakeDirs { path: owned(work), context: cat("mkdir ", work) });
    add_step(r, Effect::SudoValidate);
    add_probe(r, Probe::Exists(owned(l4t)));
    add_guarded(r, Guard::IfFlag, Effect::Log(Level::Info, owned("reusing existing Linux_for_Tegra/ (BSP already extracted)")));
    add_guarded(r, Guard::UnlessFlag, Effect::Log(Level::Heading, owned("extract BSP -> Linux_for_Tegra/")));
    let args = vec![owned("xf"), owned(bsp)];
    assert(args.deep_view() =~= seq!["xf"@, bsp@]);
    add_guarded(r, Guard::UnlessFlag, Effect::Run(Command::new_in("tar", args, work)));
    add_probe(r, Probe::Exists(path_join(rootfs_dir.as_str(), "etc/os-release")));
    add_guarded(r, Guard::IfFlag, Effect::Log(Level::Info, owned("rootfs already extracted; skipping")));
    add_guarded(r, Guard::UnlessFlag, Effect::Log(Level::Heading, owned("extract sample rootfs -> rootfs/")));
    let args = vec![owned("tar"), owned("xpf"), owned(rootfs), owned("-C"), owned("rootfs/")];
    assert(args.deep_view() =~= seq!["tar"@, "xpf"@, rootfs@, "-C"@, "rootfs/"@]);
    add_guarded(r, Guard::UnlessFlag, Effect::Run(Command::new_in("sudo", args, l4t)));
    add_probe(r, Probe::IsFile(path_join(l4t, "tools/l4t_flash_prerequisites.sh")));
    add_guarded(r, Guard::IfFlag, Effect::Log(Level::Heading, owned("l4t_flash_prerequisites.sh")));
    let args = vec![owned("./tools/l4t_flash_prerequisites.sh")];
    assert(args.deep_view() =~= seq!["./tools/l4t_flash_prerequisites.sh"@]);
    add_guarded(r, Guard::IfFlag, Effect::Run(Command::new_in("sudo", args, l4t)));
    add_probe(r, Probe::Exists(path_join(rootfs_dir.as_str(), "usr/lib/aarch64-linux-gnu/tegra")));
    add_guarded(r, Guard::IfFlag, Effect::Log(Level::Info, owned("NVIDIA binaries already applied; skipping apply_binaries.sh")));
    add_guarded(r, Guard::UnlessFlag, Effect::Log(Level::Heading, owned("apply_binaries.sh")));
    let args = vec![owned("./apply_binaries.sh")];
    assert(args.deep_view() =~= seq!["./apply_binaries.sh"@]);
    add_guarded(r, Guard::UnlessFlag, Effect::Run(Command::new_in("sudo", args, l4t)));
    add_log(r, Level::Success, cat(cat("Rootfs staged at ", l4t).as_str(), "/rootfs"));
    assert(plan_view(r@) =~= plan_view(old(r)@) + staging_plan(work@, l4t@, bsp@, rootfs@));
}

/// The stage stage, given the entry names of the downloads directory
/// (`None` when it could not be listed).
pub fn plan(paths: &Paths, listing: Option<Vec<String>>) -> (r: Vec<Instr>)
    ensures
        plan_view(r@) == stage_plan(paths.downloads@, paths.work@, paths.l4t_dir@, listing_view(listing)),
{
    let names = match listing {
        Some(n) => n,
        None => Vec::new(),
    };
    assert(names.deep_view() == match listing_view(listing) { Some(n) => n, None => Seq::<Seq<char>>::empty() }) by {
        if listing is None {
            assert(names.deep_view() =~= Seq::<Seq<char>>::empty());
        }
    }
    let mut r: Vec<Instr> = Vec::new();
    let work = paths.work.as_str();
    let downloads = paths.downloads.as_str();
    let bsp = find_tarball(&names, "Jetson_Linux_R", "_aarch64.tbz2");
    match bsp {
        None => {
            add_step(&mut r, Effect::Fail(Error::Missing(owned(
                "BSP tarball (Jetson_Linux_R*_aarch64.tbz2) not found in downloads/; run `fetch`",
            ))));
        },
        Some(bsp_name) => {
            let rootfs = find_tarball(&names, "Tegra_Linux_Sample-Root-Filesystem_R", "_aarch64.tbz2");
            match rootfs {
                None => {
                    add_step(&mut r, Effect::Fail(Error::Missing(owned("rootfs tarball not found in downloads/; run `fetch`"))));
                },
                Some(rootfs_name) => {
                    let bsp_path = path_join(downloads, bsp_name.as_str());
                    let rootfs_path = path_join(downloads, rootfs_name.as_str());
                    add_staging(&mut r, work, paths.l4t_dir.as_str(), bsp_path.as_str(), rootfs_path.as_str());
                },
            }
        },
    }
    assert(plan_view(r@) =~= stage_plan(paths.downloads@, paths.work@, paths.l4t_dir@, listing_view(listing)));
    r
}

/// When both tarballs are in the listing, staging counts NVIDIA's
/// binaries as applied only when `<l4t>/rootfs/usr/lib/aarch64-linux-gnu/tegra`
/// exists: that probe is answered just before `sudo ./apply_binaries.sh`
/// (run from `l4t`), which runs exactly when the directory is absent.
pub proof fn law_binaries_applied_unless_tegra_libs_present(
    downloads: Seq<char>,
    work: Seq<char>,
    l4t: Seq<char>,
    names: Seq<Seq<char>>,
    flag: bool,
    present: bool,
)
    requires
        least_tarball(names, "Jetson_Linux_R"@, "_aarch64.tbz2"@) is Some,
        least_tarball(names, "Tegra_Linux_Sample-Root-Filesystem_R"@, "_aarch64.tbz2"@) is Some,
    ensures
        ({
            let p = stage_plan(downloads, work, l4t, Some(names));
            let probe = p[13];
            let after = flag_after(p[15], flag_after(p[14], flag_after(probe, flag, Ok(present)), Ok(true)), Ok(true));
            &&& p.len() == 18
            &&& probe == InstrView::Probe(ProbeView::Exists(
                spec_path_join(spec_path_join(l4t, "rootfs"@), "usr/lib/aarch64-linux-gnu/tegra"@),
            ))
            &&& p[16] == InstrView::Act {
                guard: Guard::UnlessFlag,
                effect: EffectView::Run(CommandView {
                    program: "sudo"@,
                    args: seq!["./apply_binaries.sh"@],
                    cwd: Some(l4t),
                    live: false,
                }),
                on_failure: OnFailure::Abort,
            }
            &&& after == present
            &&& passed_over(p[16], after) == present
        }),
{
    let p = stage_plan(downloads, work, l4t, Some(names));
    assert(p[16] matches InstrView::Act { effect: EffectView::Run(c), .. } && c.args =~= seq!["./apply_binaries.sh"@]);
}

/// Staging from tarballs `bsp` and `rootfs`: the BSP is extracted with
/// `tar xf` in `work` only when `l4t` does not exist yet; the sample
/// rootfs is extracted with `sudo tar xpf .. -C rootfs/` in `l4t` only
/// when `rootfs/etc/os-release` does not exist yet; the flash
/// prerequisites script runs only when the BSP ships it.
pub proof fn law_staging_extracts_only_what_is_missing(work: Seq<char>, l4t: Seq<char>, bsp: Seq<char>, rootfs: Seq<char>)
    ensures
        ({
            let p = staging_plan(work, l4t, bsp, rootfs);
            &&& p[2] == InstrView::Probe(ProbeView::Exists(l4t))
            &&& p[5] == InstrView::Act {
                guard: Guard::UnlessFlag,
                effect: EffectView::Run(CommandView { program: "tar"@, args: seq!["xf"@, bsp], cwd: Some(work), live: false }),
                on_failure: OnFailure::Abort,
            }
            &&& p[6] == InstrView::Probe(ProbeView::Exists(
                spec_path_join(spec_path_join(l4t, "rootfs"@), "etc/os-release"@),
            ))
            &&& p[9] == InstrView::Act {
                guard: Guard::UnlessFlag,
                effect: EffectView::Run(CommandView {
                    program: "sudo"@,
                    args: seq!["tar"@, "xpf"@, rootfs, "-C"@, "rootfs/"@],
                    cwd: Some(l4t),
                    live: false,
                }),
                on_failure: OnFailure::Abort,
            }
            &&& p[10] == InstrView::Probe(ProbeView::IsFile(spec_path_join(l4t, "tools/l4t_flash_prerequisites.sh"@)))
            &&& p[12] == InstrView::Act {
                guard: Guard::IfFlag,
                effect: EffectView::Run(CommandView {
                    program: "sudo"@,
                    args: seq!["./tools/l4t_flash_prerequisites.sh"@],
                    cwd: Some(l4t),
                    live: false,
                }),
                on_failure: OnFailure::Abort,
            }
            &&& forall|k: int| (3 <= k < 6 || 7 <= k < 10 || k == 11) ==> (#[trigger] p[k]) matches InstrView::Act { on_failure: OnFailure::Abort, .. }
        }),
{
    let p = staging_plan(work, l4t, bsp, rootfs);
    assert(p[5] matches InstrView::Act { effect: EffectView::Run(c), .. } && c.args =~= seq!["xf"@, bsp]);
    assert(p[9] matches InstrView::Act { effect: EffectView::Run(c), .. } && c.args =~= seq!["tar"@, "xpf"@, rootfs, "-C"@, "rootfs/"@]);
    assert(p[12] matches InstrView::Act { effect: EffectView::Run(c), .. } && c.args =~= seq!["./tools/l4t_flash_prerequisites.sh"@]);
}

/// Staging extracts the least BSP tarball and the least sample rootfs
/// tarball (in name order) of the listing, both from the downloads
/// directory; when either is missing the stage only fails, naming it.
pub proof fn law_stage_takes_tarballs_from_downloads(downloads: Seq<char>, work: Seq<char>, l4t: Seq<char>, names: Seq<Seq<char>>)
    ensures
        ({
            let p = stage_plan(downloads, work, l4t, Some(names));
            let b = least_tarball(names, "Jetson_Linux_R"@, "_aarch64.tbz2"@);
            let f = least_tarball(names, "Tegra_Linux_Sample-Root-Filesystem_R"@, "_aarch64.tbz2"@);
            match (b, f) {
                (Some(bn), Some(fb)) => {
                    &&& p[5] matches InstrView::Act { effect: EffectView::Run(c), .. }
                        && c.args == seq!["xf"@, spec_path_join(downloads, bn)]
                    &&& p[9] matches InstrView::Act { effect: EffectView::Run(c), .. }
                        && c.args == seq!["tar"@, "xpf"@, spec_path_join(downloads, fb), "-C"@, "rootfs/"@]
                },
                (None, _) => p == seq![InstrView::Act {
                    guard: Guard::Always,
                    effect: EffectView::Fail(ErrorView::Missing(
                        "BSP tarball (Jetson_Linux_R*_aarch64.tbz2) not found in downloads/; run `fetch`"@,
                    )),
                    on_failure: OnFailure::Abort,
                }],
                (Some(_), None) => p == seq![InstrView::Act {
                    guard: Guard::Always,
                    effect: EffectView::Fail(ErrorView::Missing("rootfs tarball not found in downloads/; run `fetch`"@)),
                    on_failure: OnFailure::Abort,
                }],
            }
        }),
{
    let b = least_tarball(names, "Jetson_Linux_R"@, "_aarch64.tbz2"@);
    let f = least_tarball(names, "Tegra_Linux_Sample-Root-Filesystem_R"@, "_aarch64.tbz2"@);
    if b is Some && f is Some {
        law_staging_extracts_only_what_is_missing(work, l4t, spec_path_join(downloads, b->0), spec_path_join(downloads, f->0));
    }
}

} // verus!
