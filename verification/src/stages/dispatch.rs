//! Which plan each stage of the pipeline runs, from the configuration,
//! the workspace layout and what the host reports for the stages that
//! need it.
use vstd::prelude::*;
use crate::config::Config;
use crate::error::Error;
use crate::paths::Paths;
use crate::pipeline::Step;
use crate::plan::{plan_view, Instr};
use crate::stages::check::{self, check_plan, UsbState};
use crate::stages::deps::{self, deps_plan};
use crate::stages::fetch::{self, fetch_plan};
use crate::stages::flash::{self, flash_plan};
use crate::stages::preconfig::{self, is_uuid_v4_text, preconfig_plan};
use crate::stages::stage::{self, listing_view, stage_plan};

verus! {

/// The plan of `step`. The staging plan is built from the entries that
/// `list_dir` gives for the downloads directory, and the check plan from
/// what `detect` finds on the USB bus; neither is asked otherwise. The
/// preconfig plan gets fresh connection ids.
pub fn plan_for<L: FnOnce(&str) -> Option<Vec<String>>, D: FnOnce() -> Result<UsbState, Error>>(
    step: Step,
    cfg: &Config,
    paths: &Paths,
    list_dir: L,
    detect: D,
) -> (r: Result<Vec<Instr>, Error>)
    requires
        forall|d: &str| call_requires(list_dir, (d,)),
        call_requires(detect, ()),
    ensures
        match step {
            Step::Deps => r matches Ok(p) && plan_view(p@) == deps_plan(),
            Step::Fetch => r matches Ok(p)
                && plan_view(p@) == fetch_plan(paths.downloads@, cfg.l4t.bsp_url@, cfg.l4t.rootfs_url@),
            Step::Stage => r matches Ok(p) && exists|d: &str, listing: Option<Vec<String>>|
                d@ == paths.downloads@ && call_ensures(list_dir, (d,), listing)
                && plan_view(p@) == stage_plan(paths.downloads@, paths.work@, paths.l4t_dir@, listing_view(listing)),
            Step::Preconfig => r matches Ok(p) && exists|eth: Seq<char>, wifi: Seq<char>|
                is_uuid_v4_text(eth) && is_uuid_v4_text(wifi)
                && plan_view(p@) == preconfig_plan(*cfg, *paths, eth, wifi),
            Step::Check => exists|found: Result<UsbState, Error>| call_ensures(detect, (), found) && match found {
                Ok(state) => r matches Ok(p) && plan_view(p@) == check_plan(state),
                Err(e) => r matches Err(x) && x@ == e@,
            },
            Step::Flash => r matches Ok(p)
                && plan_view(p@) == flash_plan(paths.l4t_dir@, cfg.board.name@, cfg.board.external_device@),
        },
{
    match step {
        Step::Deps => Ok(deps::plan()),
        Step::Fetch => Ok(fetch::plan(cfg, paths)),
        Step::Stage => {
            let d = paths.downloads.as_str();
            let listing = list_dir(d);
            let ghost got = listing;
            let r = stage::plan(paths, listing);
            assert(plan_view(r@) == stage_plan(paths.downloads@, paths.work@, paths.l4t_dir@, listing_view(got)));
            Ok(r)
        },
        Step::Preconfig => Ok(preconfig::plan_with_fresh_ids(cfg, paths)),
        Step::Check => {
            match detect() {
                Ok(state) => Ok(check::plan(state)),
                Err(e) => Err(e),
            }
        },
        Step::Flash => Ok(flash::plan(cfg, paths)),
    }
}

} // verus!
