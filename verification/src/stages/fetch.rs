//! Downloading the BSP and sample rootfs tarballs into the downloads
//! directory of the L4T version.
use vstd::prelude::*;
use crate::config::Config;
use crate::logging::Level;
use crate::paths::{path_join, spec_path_join, Paths};
use crate::plan::{
    CommandView, OnFailure, add_guarded, add_log, add_probe, add_step, cmd_live, guarded, plan_view, step, Command, Effect,
    EffectView, Guard, Instr, InstrView, Probe, ProbeView,
};
use crate::text::{after_last, after_last_slash, cat, cat3, lemma_after_last, owned};

verus! {

/// The file a URL downloads to: its last path segment.
pub open spec fn spec_file_name(url: Seq<char>) -> Seq<char> {
    after_last(url, '/')
}

/// Fetching one URL into the directory `work`: skipped when the file is
/// already there, else downloaded with `wget` on the terminal.
pub open spec fn fetch_one_plan(work: Seq<char>, url: Seq<char>) -> Seq<InstrView> {
    let file = spec_file_name(url);
    seq![
        InstrView::Probe(ProbeView::Exists(spec_path_join(work, file))),
        guarded(Guard::IfFlag, EffectView::Log(Level::Info, "skip "@ + file + " (already present)"@)),
        guarded(Guard::UnlessFlag, EffectView::Log(Level::Heading, "fetch "@ + url)),
        guarded(
            Guard::UnlessFlag,
            EffectView::Run(cmd_live("wget"@, seq!["--content-disposition"@, "-O"@, file, url], work)),
        ),
    ]
}

/// The fetch stage: create the downloads directory `work`, fetch the BSP,
/// then the rootfs.
pub open spec fn fetch_plan(work: Seq<char>, bsp_url: Seq<char>, rootfs_url: Seq<char>) -> Seq<InstrView> {
    seq![step(EffectView::MakeDirs { path: work, context: "mkdir "@ + work })]
        + fetch_one_plan(work, bsp_url)
        + fetch_one_plan(work, rootfs_url)
        + seq![step(EffectView::Log(Level::Success, "Tarballs in "@ + work + "."@))]
}

/// The file a URL downloads to.
pub fn file_name(url: &str) -> (r: String)
    ensures
        r@ == spec_file_name(url@),
{
    after_last_slash(url)
}

/// Appends the fetch of one URL.
fn add_fetch_one(r: &mut Vec<Instr>, work: &str, url: &str)
    ensures
        plan_view(final(r)@) == plan_view(old(r)@) + fetch_one_plan(work@, url@),
{
    let file = file_name(url);
    let dest = path_join(work, file.as_str());
    add_probe(r, Probe::Exists(dest));
    add_guarded(r, Guard::IfFlag, Effect::Log(Level::Info, cat3("skip ", file.as_str(), " (already present)")));
    add_guarded(r, Guard::UnlessFlag, Effect::Log(Level::Heading, cat("fetch ", url)));
    let args = vec![owned("--content-disposition"), owned("-O"), file.clone(), owned(url)];
    assert(args.deep_view() =~= seq!["--content-disposition"@, "-O"@, file@, url@]);
    add_guarded(r, Guard::UnlessFlag, Effect::Run(Command::new_live("wget", args, work)));
    assert(plan_view(r@) =~= plan_view(old(r)@) + fetch_one_plan(work@, url@));
}

/// The fetch stage.
pub fn plan(cfg: &Config, paths: &Paths) -> (r: Vec<Instr>)
    ensures
        plan_view(r@) == fetch_plan(paths.downloads@, cfg.l4t.bsp_url@, cfg.l4t.rootfs_url@),
{
    let work = paths.downloads.as_str();
    let mut r: Vec<Instr> = Vec::new();
    add_step(&mut r, Effect::MakeDirs { path: owned(work), context: cat("mkdir ", work) });
    add_fetch_one(&mut r, work, cfg.l4t.bsp_url.as_str());
    add_fetch_one(&mut r, work, cfg.l4t.rootfs_url.as_str());
    add_log(&mut r, Level::Success, cat3("Tarballs in ", work, "."));
    assert(plan_view(r@) =~= fetch_plan(paths.downloads@, cfg.l4t.bsp_url@, cfg.l4t.rootfs_url@));
    r
}

/// A download goes to the URL's last segment: a URL that ends in
/// `/<name>` is fetched as `<name>`.
pub proof fn law_download_named_after_last_segment(prefix: Seq<char>, name: Seq<char>)
    requires
        !name.contains('/'),
    ensures
        spec_file_name(prefix + seq!['/'] + name) == name,
{
    lemma_after_last(prefix, '/', name);
}

/// The fetch stage creates the downloads directory, then for the BSP and
/// then the rootfs URL asks whether `<downloads>/<name>` exists (the
/// URL's last segment) and, only when it does not, downloads the URL into
/// that file with `wget`, live, from the downloads directory.
pub proof fn law_fetch_downloads_each_tarball_once(
    downloads: Seq<char>,
    bsp_dir: Seq<char>,
    bsp_name: Seq<char>,
    rootfs_dir: Seq<char>,
    rootfs_name: Seq<char>,
)
    requires
        !bsp_name.contains('/'),
        !rootfs_name.contains('/'),
    ensures
        ({
            let bsp = bsp_dir + seq!['/'] + bsp_name;
            let rootfs = rootfs_dir + seq!['/'] + rootfs_name;
            let p = fetch_plan(downloads, bsp, rootfs);
            &&& p.len() == 10
            &&& p[0] == InstrView::Act {
                guard: Guard::Always,
                effect: EffectView::MakeDirs { path: downloads, context: "mkdir "@ + downloads },
                on_failure: OnFailure::Abort,
            }
            &&& p[1] == InstrView::Probe(ProbeView::Exists(spec_path_join(downloads, bsp_name)))
            &&& p[4] == InstrView::Act {
                guard: Guard::UnlessFlag,
                effect: EffectView::Run(CommandView {
                    program: "wget"@,
                    args: seq!["--content-disposition"@, "-O"@, bsp_name, bsp],
                    cwd: Some(downloads),
                    live: true,
                }),
                on_failure: OnFailure::Abort,
            }
            &&& p[5] == InstrView::Probe(ProbeView::Exists(spec_path_join(downloads, rootfs_name)))
            &&& p[8] == InstrView::Act {
                guard: Guard::UnlessFlag,
                effect: EffectView::Run(CommandView {
                    program: "wget"@,
                    args: seq!["--content-disposition"@, "-O"@, rootfs_name, rootfs],
                    cwd: Some(downloads),
                    live: true,
                }),
                on_failure: OnFailure::Abort,
            }
            &&& p[2] matches InstrView::Act { .. } && p[3] matches InstrView::Act { .. }
        }),
{
    let bsp = bsp_dir + seq!['/'] + bsp_name;
    let rootfs = rootfs_dir + seq!['/'] + rootfs_name;
    lemma_after_last(bsp_dir, '/', bsp_name);
    lemma_after_last(rootfs_dir, '/', rootfs_name);
    let p = fetch_plan(downloads, bsp, rootfs);
    assert(p[4] matches InstrView::Act { effect: EffectView::Run(c), .. } && c.args =~= seq!["--content-disposition"@, "-O"@, bsp_name, bsp]);
    assert(p[8] matches InstrView::Act { effect: EffectView::Run(c), .. } && c.args =~= seq!["--content-disposition"@, "-O"@, rootfs_name, rootfs]);
}

} // verus!
