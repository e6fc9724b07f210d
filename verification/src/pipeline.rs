//! The stages of the flash pipeline and the order in which a full run
//! takes them.
use vstd::prelude::*;
use crate::error::Error;

verus! {

/// One stage of the pipeline.
#[derive(Debug, Clone, Copy, PartialEq, Eq, Structural)]
pub enum Step {
    /// Install host apt dependencies.
    Deps,
    /// Download BSP + sample rootfs tarballs.
    Fetch,
    /// Extract BSP, populate rootfs, run `apply_binaries.sh`.
    Stage,
    /// Bake identity / headless / network into the rootfs.
    Preconfig,
    /// Verify the board is in APX recovery.
    Check,
    /// Flash to NVMe + internal QSPI.
    Flash,
}

/// The full pipeline in execution order (what `run_all` does).
pub const ALL: [Step; 6] = [
    Step::Deps,
    Step::Fetch,
    Step::Stage,
    Step::Preconfig,
    Step::Check,
    Step::Flash,
];

/// The full pipeline in execution order.
pub open spec fn spec_all() -> Seq<Step> {
    seq![Step::Deps, Step::Fetch, Step::Stage, Step::Preconfig, Step::Check, Step::Flash]
}

pub open spec fn spec_step_name(step: Step) -> Seq<char> {
    match step {
        Step::Deps => "deps"@,
        Step::Fetch => "fetch"@,
        Step::Stage => "stage"@,
        Step::Preconfig => "preconfig"@,
        Step::Check => "check"@,
        Step::Flash => "flash"@,
    }
}

impl Step {
    pub fn name(self) -> (r: &'static str)
        ensures
            r@ == spec_step_name(self),
    {
        match self {
            Step::Deps => "deps",
            Step::Fetch => "fetch",
            Step::Stage => "stage",
            Step::Preconfig => "preconfig",
            Step::Check => "check",
            Step::Flash => "flash",
        }
    }
}

/// The stages of a full run, in order.
pub fn all_steps() -> (r: Vec<Step>)
    ensures
        r@ == spec_all(),
{
    let r = vec![Step::Deps, Step::Fetch, Step::Stage, Step::Preconfig, Step::Check, Step::Flash];
    assert(r@ =~= spec_all());
    r
}

/// What the pipeline does next.
#[derive(Debug)]
pub enum PipelineAction {
    /// Run this stage and report its result.
    Run(Step),
    /// The pipeline is over, with this result.
    Finish(Result<(), Error>),
}

/// Drives a sequence of stages: each is run in turn, and the run stops at
/// the first error.
pub struct PipelineRun {
    steps: Vec<Step>,
    next: usize,
    done: bool,
}

impl PipelineRun {
    pub closed spec fn spec_steps(&self) -> Seq<Step> {
        self.steps@
    }

    /// How many stages have been handed out.
    pub closed spec fn spec_started(&self) -> nat {
        self.next as nat
    }

    pub closed spec fn spec_done(&self) -> bool {
        self.done
    }

    pub closed spec fn wf(&self) -> bool {
        self.next <= self.steps.len()
    }

    /// A full run: every stage, in pipeline order.
    pub fn all() -> (r: PipelineRun)
        ensures
            r.wf(),
            r.spec_steps() == spec_all(),
            r.spec_started() == 0,
            !r.spec_done(),
    {
        PipelineRun { steps: all_steps(), next: 0, done: false }
    }

    /// A run of one stage.
    pub fn single(step: Step) -> (r: PipelineRun)
        ensures
            r.wf(),
            r.spec_steps() == seq![step],
            r.spec_started() == 0,
            !r.spec_done(),
    {
        let steps = vec![step];
        assert(steps@ =~= seq![step]);
        PipelineRun { steps, next: 0, done: false }
    }

    /// Takes the result of the stage handed out last (`None` before the
    /// first) and says what to do next.
    pub fn next(&mut self, last: Option<Result<(), Error>>) -> (r: PipelineAction)
        requires
            old(self).wf(),
            !old(self).spec_done(),
        ensures
            final(self).wf(),
            final(self).spec_steps() == old(self).spec_steps(),
            match last {
                Some(Err(e)) => r matches PipelineAction::Finish(Err(f)) && f@ == e@ && final(self).spec_done(),
                _ => if old(self).spec_started() < old(self).spec_steps().len() {
                    r == PipelineAction::Run(old(self).spec_steps()[old(self).spec_started() as int])
                        && final(self).spec_started() == old(self).spec_started() + 1
                        && !final(self).spec_done()
                } else {
                    r matches PipelineAction::Finish(Ok(())) && final(self).spec_done()
                },
            },
    {
        if let Some(Err(e)) = last {
            self.done = true;
            return PipelineAction::Finish(Err(e));
        }
        if self.next < self.steps.len() {
            let s = self.steps[self.next];
            self.next = self.next + 1;
            PipelineAction::Run(s)
        } else {
            self.done = true;
            PipelineAction::Finish(Ok(()))
        }
    }
}

/// Every stage has its own name.
pub proof fn law_step_names_are_distinct(a: Step, b: Step)
    ensures
        spec_step_name(a) == spec_step_name(b) ==> a == b,
{
    reveal_strlit("deps");
    reveal_strlit("fetch");
    reveal_strlit("stage");
    reveal_strlit("preconfig");
    reveal_strlit("check");
    reveal_strlit("flash");
    if spec_step_name(a) == spec_step_name(b) && a != b {
        assert(spec_step_name(a).len() != spec_step_name(b).len() || spec_step_name(a)[0] != spec_step_name(b)[0]
            || spec_step_name(a)[1] != spec_step_name(b)[1]);
    }
}

} // verus!
