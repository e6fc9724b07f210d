//! Stage plans and the machine that runs them.
//!
//! A stage is a list of instructions. A probe asks the host a yes/no
//! question (does a path exist, does a command succeed, does a file hold a
//! text) and remembers the answer in a flag; an action (log a line, run a
//! command, write a root-owned file, fail) may be guarded by that flag, and
//! says what a failure of its effect means: stop the stage, ignore it, or
//! remember success in the flag. [`PlanRun`] decides, reply by reply,
//! what the host is asked to do next; the host only performs the I/O.
use vstd::prelude::*;
use crate::error::{Error, ErrorView};
use crate::logging::Level;
use crate::text::{copy_opt, copy_strings, opt_view};

verus! {

/// A command line to run, with its working directory (the current one
/// when `None`). A `live` command shares the terminal; otherwise its
/// output is captured to the step's log.
#[derive(Debug)]
pub struct Command {
    pub program: String,
    pub args: Vec<String>,
    pub cwd: Option<String>,
    pub live: bool,
}

pub struct CommandView {
    pub program: Seq<char>,
    pub args: Seq<Seq<char>>,
    pub cwd: Option<Seq<char>>,
    pub live: bool,
}

impl View for Command {
    type V = CommandView;

    open spec fn view(&self) -> CommandView {
        CommandView {
            program: self.program@,
            args: self.args.deep_view(),
            cwd: opt_view(self.cwd),
            live: self.live,
        }
    }
}

/// A yes/no question about the host.
#[derive(Debug)]
pub enum Probe {
    Exists(String),
    IsFile(String),
    IsDir(String),
    /// The command runs and exits successfully.
    Succeeds(Command),
    /// The file can be read and holds `needle`.
    Contains { path: String, needle: String },
    /// The file can be read and does not hold `needle`.
    Lacks { path: String, needle: String },
}

pub enum ProbeView {
    Exists(Seq<char>),
    IsFile(Seq<char>),
    IsDir(Seq<char>),
    Succeeds(CommandView),
    Contains { path: Seq<char>, needle: Seq<char> },
    Lacks { path: Seq<char>, needle: Seq<char> },
}

impl View for Probe {
    type V = ProbeView;

    open spec fn view(&self) -> ProbeView {
        match self {
            Probe::Exists(p) => ProbeView::Exists(p@),
            Probe::IsFile(p) => ProbeView::IsFile(p@),
            Probe::IsDir(p) => ProbeView::IsDir(p@),
            Probe::Succeeds(c) => ProbeView::Succeeds(c@),
            Probe::Contains { path, needle } => ProbeView::Contains { path: path@, needle: needle@ },
            Probe::Lacks { path, needle } => ProbeView::Lacks { path: path@, needle: needle@ },
        }
    }
}

/// Something a stage does.
#[derive(Debug)]
pub enum Effect {
    /// Show a message and keep it in the log.
    Log(Level, String),
    /// Refresh the sudo credential cache (may prompt on the terminal).
    SudoValidate,
    Run(Command),
    /// Create a directory and its parents; `context` describes a failure.
    MakeDirs { path: String, context: String },
    /// Install `content` as the root-owned file `dst` with `mode`.
    WriteRootFile { dst: String, mode: String, content: String },
    /// Stop the stage with this error.
    Fail(Error),
}

pub enum EffectView {
    Log(Level, Seq<char>),
    SudoValidate,
    Run(CommandView),
    MakeDirs { path: Seq<char>, context: Seq<char> },
    WriteRootFile { dst: Seq<char>, mode: Seq<char>, content: Seq<char> },
    Fail(ErrorView),
}

impl View for Effect {
    type V = EffectView;

    open spec fn view(&self) -> EffectView {
        match self {
            Effect::Log(l, m) => EffectView::Log(*l, m@),
            Effect::SudoValidate => EffectView::SudoValidate,
            Effect::Run(c) => EffectView::Run(c@),
            Effect::MakeDirs { path, context } => EffectView::MakeDirs { path: path@, context: context@ },
            Effect::WriteRootFile { dst, mode, content } => EffectView::WriteRootFile {
                dst: dst@,
                mode: mode@,
                content: content@,
            },
            Effect::Fail(e) => EffectView::Fail(e@),
        }
    }
}

/// When an action applies, given the flag of the latest probe.
#[derive(Debug, Clone, Copy, PartialEq, Eq, Structural)]
pub enum Guard {
    Always,
    IfFlag,
    UnlessFlag,
}

/// What a failed effect means.
#[derive(Debug, Clone, Copy, PartialEq, Eq, Structural)]
pub enum OnFailure {
    /// The stage stops with the effect's error.
    Abort,
    /// The stage goes on.
    Ignore,
    /// The stage goes on; the flag records whether the effect succeeded.
    Record,
}

#[derive(Debug)]
pub enum Instr {
    Probe(Probe),
    Act { guard: Guard, effect: Effect, on_failure: OnFailure },
}

pub enum InstrView {
    Probe(ProbeView),
    Act { guard: Guard, effect: EffectView, on_failure: OnFailure },
}

impl View for Instr {
    type V = InstrView;

    open spec fn view(&self) -> InstrView {
        match self {
            Instr::Probe(p) => InstrView::Probe(p@),
            Instr::Act { guard, effect, on_failure } => InstrView::Act {
                guard: *guard,
                effect: effect@,
                on_failure: *on_failure,
            },
        }
    }
}

/// The view of a plan.
pub open spec fn plan_view(plan: Seq<Instr>) -> Seq<InstrView> {
    plan.map_values(|i: Instr| i@)
}

/// An unconditional action that stops the stage if it fails.
pub open spec fn step(effect: EffectView) -> InstrView {
    InstrView::Act { guard: Guard::Always, effect, on_failure: OnFailure::Abort }
}

/// An action that applies when `guard` holds and stops the stage if it fails.
pub open spec fn guarded(guard: Guard, effect: EffectView) -> InstrView {
    InstrView::Act { guard, effect, on_failure: OnFailure::Abort }
}

/// A command view with no working directory, captured.
pub open spec fn cmd(program: Seq<char>, args: Seq<Seq<char>>) -> CommandView {
    CommandView { program, args, cwd: None, live: false }
}

/// A command view run in `cwd`, captured.
pub open spec fn cmd_in(program: Seq<char>, args: Seq<Seq<char>>, cwd: Seq<char>) -> CommandView {
    CommandView { program, args, cwd: Some(cwd), live: false }
}

/// A command view run in `cwd`, sharing the terminal.
pub open spec fn cmd_live(program: Seq<char>, args: Seq<Seq<char>>, cwd: Seq<char>) -> CommandView {
    CommandView { program, args, cwd: Some(cwd), live: true }
}

/// A `sudo` command view, captured, run from the current directory.
pub open spec fn sudo(args: Seq<Seq<char>>) -> CommandView {
    cmd("sudo"@, args)
}

impl Command {
    /// A captured command run from the current directory.
    pub fn new(program: &str, args: Vec<String>) -> (r: Command)
        ensures
            r@ == cmd(program@, args.deep_view()),
    {
        Command { program: String::from_str(program), args, cwd: None, live: false }
    }

    /// A captured command run in `cwd`.
    pub fn new_in(program: &str, args: Vec<String>, cwd: &str) -> (r: Command)
        ensures
            r@ == cmd_in(program@, args.deep_view(), cwd@),
    {
        Command { program: String::from_str(program), args, cwd: Some(String::from_str(cwd)), live: false }
    }

    /// A command run in `cwd` that shares the terminal.
    pub fn new_live(program: &str, args: Vec<String>, cwd: &str) -> (r: Command)
        ensures
            r@ == cmd_live(program@, args.deep_view(), cwd@),
    {
        Command { program: String::from_str(program), args, cwd: Some(String::from_str(cwd)), live: true }
    }

    pub fn copy(&self) -> (r: Command)
        ensures
            r@ == self@,
    {
        Command {
            program: self.program.clone(),
            args: copy_strings(&self.args),
            cwd: copy_opt(&self.cwd),
            live: self.live,
        }
    }
}

impl Probe {
    pub fn copy(&self) -> (r: Probe)
        ensures
            r@ == self@,
    {
        match self {
            Probe::Exists(p) => Probe::Exists(p.clone()),
            Probe::IsFile(p) => Probe::IsFile(p.clone()),
            Probe::IsDir(p) => Probe::IsDir(p.clone()),
            Probe::Succeeds(c) => Probe::Succeeds(c.copy()),
            Probe::Contains { path, needle } => Probe::Contains { path: path.clone(), needle: needle.clone() },
            Probe::Lacks { path, needle } => Probe::Lacks { path: path.clone(), needle: needle.clone() },
        }
    }
}

impl Effect {
    pub fn copy(&self) -> (r: Effect)
        ensures
            r@ == self@,
    {
        match self {
            Effect::Log(l, m) => Effect::Log(*l, m.clone()),
            Effect::SudoValidate => Effect::SudoValidate,
            Effect::Run(c) => Effect::Run(c.copy()),
            Effect::MakeDirs { path, context } => Effect::MakeDirs { path: path.clone(), context: context.clone() },
            Effect::WriteRootFile { dst, mode, content } => Effect::WriteRootFile {
                dst: dst.clone(),
                mode: mode.clone(),
                content: content.clone(),
            },
            Effect::Fail(e) => Effect::Fail(e.copy()),
        }
    }
}

/// Appends `instr` to `plan`.
pub fn push_instr(plan: &mut Vec<Instr>, instr: Instr)
    ensures
        plan_view(final(plan)@) == plan_view(old(plan)@).push(instr@),
{
    plan.push(instr);
    assert(plan_view(plan@) =~= plan_view(old(plan)@).push(instr@));
}

/// Appends an unconditional action that stops the stage if it fails.
pub fn add_step(plan: &mut Vec<Instr>, effect: Effect)
    ensures
        plan_view(final(plan)@) == plan_view(old(plan)@).push(step(effect@)),
{
    push_instr(plan, Instr::Act { guard: Guard::Always, effect, on_failure: OnFailure::Abort });
}

/// Appends a guarded action that stops the stage if it fails.
pub fn add_guarded(plan: &mut Vec<Instr>, guard: Guard, effect: Effect)
    ensures
        plan_view(final(plan)@) == plan_view(old(plan)@).push(guarded(guard, effect@)),
{
    push_instr(plan, Instr::Act { guard, effect, on_failure: OnFailure::Abort });
}

/// Appends an unconditional message.
pub fn add_log(plan: &mut Vec<Instr>, level: Level, msg: String)
    ensures
        plan_view(final(plan)@) == plan_view(old(plan)@).push(step(EffectView::Log(level, msg@))),
{
    add_step(plan, Effect::Log(level, msg));
}

/// Appends a probe.
pub fn add_probe(plan: &mut Vec<Instr>, probe: Probe)
    ensures
        plan_view(final(plan)@) == plan_view(old(plan)@).push(InstrView::Probe(probe@)),
{
    push_instr(plan, Instr::Probe(probe));
}

// ---------------------------------------------------------------------
// Running a plan
// ---------------------------------------------------------------------

/// What the host is asked to do next.
#[derive(Debug)]
pub enum Request {
    /// Answer the probe: reply `Ok(answer)`.
    Probe(Probe),
    /// Perform the effect: reply `Ok(true)` on success, `Err` otherwise.
    Perform(Effect),
    /// The stage is over, with this result.
    Finished(Result<(), Error>),
}

pub enum RequestView {
    Probe(ProbeView),
    Perform(EffectView),
    Finished(Result<(), ErrorView>),
}

pub open spec fn result_view(r: Result<(), Error>) -> Result<(), ErrorView> {
    match r {
        Ok(()) => Ok(()),
        Err(e) => Err(e@),
    }
}

impl View for Request {
    type V = RequestView;

    open spec fn view(&self) -> RequestView {
        match self {
            Request::Probe(p) => RequestView::Probe(p@),
            Request::Perform(e) => RequestView::Perform(e@),
            Request::Finished(r) => RequestView::Finished(result_view(*r)),
        }
    }
}

/// The host's reply to the previous request, as seen by the plan.
pub open spec fn reply_view(r: Result<bool, Error>) -> Result<bool, ErrorView> {
    match r {
        Ok(b) => Ok(b),
        Err(e) => Err(e@),
    }
}

pub open spec fn guard_holds(guard: Guard, flag: bool) -> bool {
    match guard {
        Guard::Always => true,
        Guard::IfFlag => flag,
        Guard::UnlessFlag => !flag,
    }
}

/// An action whose guard does not hold is passed over.
pub open spec fn passed_over(instr: InstrView, flag: bool) -> bool {
    match instr {
        InstrView::Probe(_) => false,
        InstrView::Act { guard, .. } => !guard_holds(guard, flag),
    }
}

/// The first instruction at or after `pc` that is not passed over
/// (`plan.len()` when there is none).
pub open spec fn next_live(plan: Seq<InstrView>, pc: int, flag: bool) -> int
    decreases plan.len() - pc,
{
    if pc < 0 || pc >= plan.len() {
        plan.len() as int
    } else if passed_over(plan[pc], flag) {
        next_live(plan, pc + 1, flag)
    } else {
        pc
    }
}

/// The flag after `instr` got `reply`: a probe stores its answer, an
/// action that records stores whether it succeeded.
pub open spec fn flag_after(instr: InstrView, flag: bool, reply: Result<bool, ErrorView>) -> bool {
    match instr {
        InstrView::Probe(_) => reply == Ok::<bool, ErrorView>(true),
        InstrView::Act { on_failure, .. } => if on_failure == OnFailure::Record {
            reply is Ok
        } else {
            flag
        },
    }
}

/// The error that stops the stage when `instr` got `reply`.
pub open spec fn stops_with(instr: InstrView, reply: Result<bool, ErrorView>) -> Option<ErrorView> {
    match instr {
        InstrView::Act { on_failure, .. } => if on_failure == OnFailure::Abort {
            match reply {
                Err(e) => Some(e),
                Ok(_) => None,
            }
        } else {
            None
        },
        InstrView::Probe(_) => None,
    }
}

/// The request made for the live instruction at `pc` (finishing when the
/// plan is done or the instruction is a failure).
pub open spec fn request_at(plan: Seq<InstrView>, pc: int) -> RequestView {
    if pc < 0 || pc >= plan.len() {
        RequestView::Finished(Ok(()))
    } else {
        match plan[pc] {
            InstrView::Probe(p) => RequestView::Probe(p),
            InstrView::Act { effect, .. } => match effect {
                EffectView::Fail(e) => RequestView::Finished(Err(e)),
                _ => RequestView::Perform(effect),
            },
        }
    }
}

/// Runs a plan, one request at a time.
pub struct PlanRun {
    plan: Vec<Instr>,
    pc: usize,
    flag: bool,
    pending: bool,
    outcome: Option<Result<(), Error>>,
}

impl PlanRun {
    pub closed spec fn spec_plan(&self) -> Seq<InstrView> {
        plan_view(self.plan@)
    }

    /// The position of the instruction the last request came from, or of
    /// the next instruction to look at.
    pub closed spec fn spec_pc(&self) -> int {
        self.pc as int
    }

    pub closed spec fn spec_flag(&self) -> bool {
        self.flag
    }

    /// A request was made for the instruction at `spec_pc` and awaits its
    /// reply.
    pub closed spec fn spec_pending(&self) -> bool {
        self.pending
    }

    /// How the stage ended, once it has.
    pub closed spec fn spec_outcome(&self) -> Option<Result<(), ErrorView>> {
        match self.outcome {
            Some(r) => Some(result_view(r)),
            None => None,
        }
    }

    pub closed spec fn wf(&self) -> bool {
        &&& self.pc <= self.plan.len()
        &&& self.pending ==> self.pc < self.plan.len()
        &&& self.pending ==> self.outcome is None
    }

    /// A run of `plan` that has not started.
    pub fn new(plan: Vec<Instr>) -> (r: PlanRun)
        ensures
            r.wf(),
            r.spec_plan() == plan_view(plan@),
            r.spec_pc() == 0,
            !r.spec_flag(),
            !r.spec_pending(),
            r.spec_outcome() is None,
    {
        PlanRun { plan, pc: 0, flag: false, pending: false, outcome: None }
    }

    /// Takes the reply to the previous request (ignored on the first
    /// call and once the stage is over) and says what to do next.
    pub fn next(&mut self, reply: Result<bool, Error>) -> (r: Request)
        requires
            old(self).wf(),
        ensures
            final(self).wf(),
            final(self).spec_plan() == old(self).spec_plan(),
            ({
                let plan = old(self).spec_plan();
                let rv = reply_view(reply);
                match old(self).spec_outcome() {
                    Some(o) => r@ == RequestView::Finished(o) && final(self).spec_outcome() == Some(o),
                    None => {
                        let instr = plan[old(self).spec_pc()];
                        let stop = if old(self).spec_pending() { stops_with(instr, rv) } else { None };
                        let flag = if old(self).spec_pending() {
                            flag_after(instr, old(self).spec_flag(), rv)
                        } else {
                            old(self).spec_flag()
                        };
                        let from = if old(self).spec_pending() {
                            old(self).spec_pc() + 1
                        } else {
                            old(self).spec_pc()
                        };
                        let at = next_live(plan, from, flag);
                        match stop {
                            Some(e) => r@ == RequestView::Finished(Err(e))
                                && final(self).spec_outcome() == Some(Err::<(), ErrorView>(e)),
                            None => {
                                &&& r@ == request_at(plan, at)
                                &&& final(self).spec_flag() == flag
                                &&& final(self).spec_pc() == at
                                &&& (r@ is Finished) == (final(self).spec_outcome() is Some)
                                &&& final(self).spec_pending() == !(r@ is Finished)
                                &&& (r@ matches RequestView::Finished(o) ==> final(self).spec_outcome() == Some(o))
                            },
                        }
                    },
                }
            }),
    {
        if let Some(o) = &self.outcome {
            let copy = match o {
                Ok(()) => Ok(()),
                Err(e) => Err(e.copy()),
            };
            return Request::Finished(copy);
        }
        let ghost plan = plan_view(self.plan@);
        if self.pending {
            let ghost instr = plan[self.pc as int];
            assert(self.plan@[self.pc as int]@ == instr);
            self.pending = false;
            match &self.plan[self.pc] {
                Instr::Probe(_) => {
                    self.flag = match &reply {
                        Ok(b) => *b,
                        Err(_) => false,
                    };
                },
                Instr::Act { on_failure, .. } => {
                    match on_failure {
                        OnFailure::Abort => {
                            if let Err(e) = reply {
                                let kept = e.copy();
                                self.outcome = Some(Err(kept));
                                return Request::Finished(Err(e));
                            }
                        },
                        OnFailure::Ignore => {},
                        OnFailure::Record => {
                            self.flag = reply.is_ok();
                        },
                    }
                },
            }
            self.pc = self.pc + 1;
        }
        let ghost from = self.pc as int;
        let ghost flag0 = self.flag;
        while self.pc < self.plan.len() && self.passes_over(self.pc)
            invariant
                self.pc <= self.plan.len(),
                plan == plan_view(self.plan@),
                !self.pending,
                self.outcome is None,
                self.flag == flag0,
                next_live(plan, from, self.flag) == next_live(plan, self.pc as int, self.flag),
            decreases self.plan.len() - self.pc,
        {
            self.pc = self.pc + 1;
        }
        if self.pc == self.plan.len() {
            self.outcome = Some(Ok(()));
            return Request::Finished(Ok(()));
        }
        assert(self.plan@[self.pc as int]@ == plan[self.pc as int]);
        match &self.plan[self.pc] {
            Instr::Probe(p) => {
                let q = p.copy();
                self.pending = true;
                Request::Probe(q)
            },
            Instr::Act { effect, .. } => {
                match effect {
                    Effect::Fail(e) => {
                        let kept = e.copy();
                        let given = e.copy();
                        self.outcome = Some(Err(kept));
                        Request::Finished(Err(given))
                    },
                    _ => {
                        let q = effect.copy();
                        self.pending = true;
                        Request::Perform(q)
                    },
                }
            },
        }
    }

    /// Is the instruction at `pc` an action whose guard does not hold?
    fn passes_over(&self, pc: usize) -> (r: bool)
        requires
            pc < self.plan.len(),
        ensures
            r == passed_over(plan_view(self.plan@)[pc as int], self.flag),
    {
        assert(plan_view(self.plan@)[pc as int] == self.plan@[pc as int]@);
        match &self.plan[pc] {
            Instr::Probe(_) => false,
            Instr::Act { guard, .. } => match guard {
                Guard::Always => false,
                Guard::IfFlag => !self.flag,
                Guard::UnlessFlag => self.flag,
            },
        }
    }
}

} // verus!
