use vstd::prelude::*;
use crate::project::Project;
use crate::text::{concat2, is_text, views};

verus! {

/// A build-system kind with a registered generator.
#[derive(Clone, Copy, Debug, PartialEq, Eq, Structural)]
pub enum BuildSystem {
    Makefile,
    VisualStudio,
}

/// The build system named by a tag, if one is registered under it.
pub open spec fn build_system_of(tag: Seq<char>) -> Option<BuildSystem> {
    if tag == "Makefile"@ {
        Some(BuildSystem::Makefile)
    } else if tag == "VisualStudio"@ {
        Some(BuildSystem::VisualStudio)
    } else {
        None
    }
}

pub fn build_system_kind(tag: &String) -> (r: Option<BuildSystem>)
    ensures
        r == build_system_of(tag@),
{
    if is_text(tag, "Makefile") {
        Some(BuildSystem::Makefile)
    } else if is_text(tag, "VisualStudio") {
        Some(BuildSystem::VisualStudio)
    } else {
        None
    }
}

/// One step of artifact generation for a project.
#[derive(Clone, Debug)]
pub enum GenerationStep {
    Generate(BuildSystem),
    /// A tag with no registered generator: reported, and the other tags still run.
    Unsupported(String),
}

pub open spec fn step_for(tag: Seq<char>, s: GenerationStep) -> bool {
    match build_system_of(tag) {
        Some(b) => s == GenerationStep::Generate(b),
        None => s matches GenerationStep::Unsupported(t) && t@ == tag,
    }
}

/// One generation step per build-system tag of the project, in declared order.
pub fn generate_build_configs(project: &Project) -> (r: Vec<GenerationStep>)
    ensures
        r@.len() == project.build_systems@.len(),
        forall|k: int| 0 <= k < r@.len() ==> step_for(project.build_systems@[k]@, #[trigger] r@[k]),
{
    let tags = &project.build_systems;
    let mut out: Vec<GenerationStep> = Vec::new();
    let mut i: usize = 0;
    while i < tags.len()
        invariant
            i <= tags@.len(),
            tags@ == project.build_systems@,
            out@.len() == i,
            forall|k: int| 0 <= k < i ==> step_for(tags@[k]@, #[trigger] out@[k]),
        decreases tags.len() - i,
    {
        let step = match build_system_kind(&tags[i]) {
            Some(b) => GenerationStep::Generate(b),
            None => GenerationStep::Unsupported(tags[i].clone()),
        };
        out.push(step);
        i = i + 1;
    }
    out
}

/// The directories of a project's tree: its root, then its source, include and
/// output directories, and for the IDE-style artifact an intermediate directory
/// inside the output directory.
pub open spec fn directories_spec(p: Project, intermediate: bool) -> Seq<Seq<char>> {
    let base = seq![
        p.name@,
        p.name@ + "/"@ + p.structure.src_dir@,
        p.name@ + "/"@ + p.structure.include_dir@,
        p.name@ + "/"@ + p.structure.output_dir@,
    ];
    if intermediate {
        base.push(p.name@ + "/"@ + p.structure.output_dir@ + "/Intermediate"@)
    } else {
        base
    }
}

pub fn project_directories(project: &Project, intermediate: bool) -> (r: Vec<String>)
    ensures
        views(r@) == directories_spec(*project, intermediate),
{
    let p = project;
    let mut v: Vec<String> = Vec::new();
    v.push(p.name.clone());
    let mut a = concat2(p.name.as_str(), "/");
    a.append(p.structure.src_dir.as_str());
    v.push(a);
    let mut b = concat2(p.name.as_str(), "/");
    b.append(p.structure.include_dir.as_str());
    v.push(b);
    let mut c = concat2(p.name.as_str(), "/");
    c.append(p.structure.output_dir.as_str());
    v.push(c);
    if intermediate {
        let mut d = concat2(p.name.as_str(), "/");
        d.append(p.structure.output_dir.as_str());
        d.append("/Intermediate");
        v.push(d);
    }
    assert(views(v@) =~= directories_spec(*p, intermediate));
    v
}

/// The build system a run uses for a project: the run's explicit choice, else the
/// project's first tag, else `Makefile`.
pub open spec fn chosen_tag(choice: Option<Seq<char>>, p: Project) -> Seq<char> {
    match choice {
        Some(c) => c,
        None => if p.build_systems@.len() > 0 {
            p.build_systems@[0]@
        } else {
            "Makefile"@
        },
    }
}

/// An external build tool to run, with its arguments, in a working directory.
#[derive(Clone, Debug)]
pub struct BuildCommand {
    pub program: String,
    pub args: Vec<String>,
    pub dir: String,
}

/// What building a project takes.
#[derive(Clone, Debug)]
pub enum BuildPlan {
    Run(BuildCommand),
    /// The chosen tag has no build tool: reported, and the project is not failed.
    Unsupported(String),
}

pub open spec fn plan_for(choice: Option<Seq<char>>, p: Project, r: BuildPlan) -> bool {
    let tag = chosen_tag(choice, p);
    match build_system_of(tag) {
        Some(BuildSystem::Makefile) => r matches BuildPlan::Run(c) && c.program@ == "make"@ && c.args@.len() == 0
            && c.dir@ == p.name@,
        Some(BuildSystem::VisualStudio) => r matches BuildPlan::Run(c) && c.program@ == "msbuild.exe"@
            && c.args@.len() == 1 && c.args@[0]@ == p.name@ + ".sln"@ && c.dir@ == p.name@,
        None => r matches BuildPlan::Unsupported(t) && t@ == tag,
    }
}

/// The build step of a project, for the run's explicit choice of build system if any.
pub fn build_project(project: &Project, build_system: Option<&String>) -> (r: BuildPlan)
    ensures
        plan_for(
            match build_system {
                Some(s) => Some(s@),
                None => None,
            },
            *project,
            r,
        ),
{
    let tag: String = match build_system {
        Some(s) => s.clone(),
        None => if project.build_systems.len() > 0 {
            project.build_systems[0].clone()
        } else {
            String::from_str("Makefile")
        },
    };
    match build_system_kind(&tag) {
        Some(BuildSystem::Makefile) => BuildPlan::Run(
            BuildCommand { program: String::from_str("make"), args: Vec::new(), dir: project.name.clone() },
        ),
        Some(BuildSystem::VisualStudio) => {
            let mut args: Vec<String> = Vec::new();
            args.push(concat2(project.name.as_str(), ".sln"));
            BuildPlan::Run(
                BuildCommand { program: String::from_str("msbuild.exe"), args, dir: project.name.clone() },
            )
        },
        None => BuildPlan::Unsupported(tag),
    }
}

/// Where the current project of a run stands.
#[derive(Clone, Copy, Debug, PartialEq, Eq, Structural)]
pub enum Stage {
    Pending,
    DependenciesInstalled,
    ConfigsGenerated,
}

/// The step at which a project failed.
#[derive(Clone, Copy, Debug, PartialEq, Eq, Structural)]
pub enum FailedAt {
    Install,
    Generate,
    Build,
}

/// The final state of one project of a run.
#[derive(Clone, Debug)]
pub enum Outcome {
    Built,
    Failed { stage: FailedAt, detail: String },
}

/// What the run asks to be done next; the index is the project's place in build order.
#[derive(Clone, Copy, Debug, PartialEq, Eq, Structural)]
pub enum Action {
    Install(usize),
    Generate(usize),
    Build(usize),
    Finish,
}

/// How the last action went.
#[derive(Clone, Debug)]
pub enum Event {
    Succeeded,
    Failed(String),
}

/// A sequential run over `total` projects in build order. Projects before
/// `current` are finished with the outcomes in `outcomes`; `stage` is where the
/// current one stands.
pub struct BatchRun {
    pub total: usize,
    pub current: usize,
    pub stage: Stage,
    pub outcomes: Vec<Outcome>,
}

/// The step that a project at `stage` fails in.
pub open spec fn failed_at(stage: Stage) -> FailedAt {
    match stage {
        Stage::Pending => FailedAt::Install,
        Stage::DependenciesInstalled => FailedAt::Generate,
        Stage::ConfigsGenerated => FailedAt::Build,
    }
}

pub open spec fn stage_rank(stage: Stage) -> int {
    match stage {
        Stage::Pending => 0,
        Stage::DependenciesInstalled => 1,
        Stage::ConfigsGenerated => 2,
    }
}

/// `after` is `before` once the current project's step has ended with `event`: a
/// success moves the project to its next stage, a success of the build finishes it
/// as built, and a failure finishes it as failed at that step; a finished project
/// hands over to the next one.
pub open spec fn steps_to(before: BatchRun, event: Event, after: BatchRun) -> bool {
    &&& after.total == before.total
    &&& match event {
        Event::Succeeded => if before.stage == Stage::ConfigsGenerated {
            &&& after.current == before.current + 1
            &&& after.stage == Stage::Pending
            &&& after.outcomes@ == before.outcomes@.push(Outcome::Built)
        } else {
            &&& after.current == before.current
            &&& after.stage == (if before.stage == Stage::Pending {
                Stage::DependenciesInstalled
            } else {
                Stage::ConfigsGenerated
            })
            &&& after.outcomes@ == before.outcomes@
        },
        Event::Failed(e) => {
            &&& after.current == before.current + 1
            &&& after.stage == Stage::Pending
            &&& after.outcomes@ == before.outcomes@.push(
                Outcome::Failed { stage: failed_at(before.stage), detail: e },
            )
        },
    }
}

impl BatchRun {
    pub open spec fn wf(&self) -> bool {
        &&& self.current <= self.total
        &&& self.outcomes@.len() == self.current
        &&& self.current == self.total ==> self.stage == Stage::Pending
    }

    /// The action for the current state.
    pub open spec fn action(&self) -> Action {
        if self.current >= self.total {
            Action::Finish
        } else {
            match self.stage {
                Stage::Pending => Action::Install(self.current),
                Stage::DependenciesInstalled => Action::Generate(self.current),
                Stage::ConfigsGenerated => Action::Build(self.current),
            }
        }
    }

    /// How many steps are left at most.
    pub open spec fn remaining(&self) -> int {
        3 * (self.total - self.current) - stage_rank(self.stage)
    }

    /// Whether every project was built.
    pub open spec fn all_built(&self) -> bool {
        &&& self.current == self.total
        &&& forall|k: int| 0 <= k < self.outcomes@.len() ==> #[trigger] self.outcomes@[k] matches Outcome::Built
    }

    /// A run over `total` projects, none attempted yet.
    pub fn new(total: usize) -> (r: Self)
        ensures
            r.wf(),
            r.total == total,
            r.current == 0,
            r.stage == Stage::Pending,
            r.outcomes@.len() == 0,
    {
        BatchRun { total, current: 0, stage: Stage::Pending, outcomes: Vec::new() }
    }

    pub fn next_action(&self) -> (r: Action)
        requires
            self.wf(),
        ensures
            r == self.action(),
    {
        if self.current >= self.total {
            Action::Finish
        } else {
            match self.stage {
                Stage::Pending => Action::Install(self.current),
                Stage::DependenciesInstalled => Action::Generate(self.current),
                Stage::ConfigsGenerated => Action::Build(self.current),
            }
        }
    }

    /// Takes in how the current action went.
    pub fn step(&mut self, event: Event)
        requires
            old(self).wf(),
            old(self).current < old(self).total,
        ensures
            final(self).wf(),
            steps_to(*old(self), event, *final(self)),
            final(self).remaining() < old(self).remaining(),
    {
        match event {
            Event::Succeeded => {
                match self.stage {
                    Stage::Pending => {
                        self.stage = Stage::DependenciesInstalled;
                    },
                    Stage::DependenciesInstalled => {
                        self.stage = Stage::ConfigsGenerated;
                    },
                    Stage::ConfigsGenerated => {
                        self.outcomes.push(Outcome::Built);
                        self.current = self.current + 1;
                        self.stage = Stage::Pending;
                    },
                }
            },
            Event::Failed(e) => {
                let stage = match self.stage {
                    Stage::Pending => FailedAt::Install,
                    Stage::DependenciesInstalled => FailedAt::Generate,
                    Stage::ConfigsGenerated => FailedAt::Build,
                };
                self.outcomes.push(Outcome::Failed { stage, detail: e });
                self.current = self.current + 1;
                self.stage = Stage::Pending;
            },
        }
    }

    /// Whether the run has finished with every project built.
    pub fn succeeded(&self) -> (r: bool)
        requires
            self.wf(),
        ensures
            r == self.all_built(),
    {
        if self.current < self.total {
            return false;
        }
        let mut i: usize = 0;
        while i < self.outcomes.len()
            invariant
                i <= self.outcomes@.len(),
                forall|k: int| 0 <= k < i ==> #[trigger] self.outcomes@[k] matches Outcome::Built,
            decreases self.outcomes.len() - i,
        {
            match &self.outcomes[i] {
                Outcome::Built => {},
                Outcome::Failed { .. } => {
                    return false;
                },
            }
            i = i + 1;
        }
        true
    }
}

/// A project that fails at any step is finished as failed at that step, the
/// outcomes of earlier projects stay as they were, and the run goes on with the
/// next project in build order, starting at its install.
pub proof fn lemma_failure_is_contained(before: BatchRun, detail: String, after: BatchRun)
    requires
        before.wf(),
        before.current < before.total,
        steps_to(before, Event::Failed(detail), after),
    ensures
        after.wf(),
        after.current == before.current + 1,
        after.outcomes@[before.current as int] == (Outcome::Failed { stage: failed_at(before.stage), detail }),
        forall|k: int| 0 <= k < before.current ==> after.outcomes@[k] == before.outcomes@[k],
        after.current < after.total ==> after.action() == Action::Install(after.current),
{
}

/// Every step of a run brings it closer to its end: after at most three steps per
/// project the run asks for nothing more, whatever failed on the way.
pub proof fn lemma_run_progresses(before: BatchRun, event: Event, after: BatchRun)
    requires
        before.wf(),
        before.current < before.total,
        steps_to(before, event, after),
    ensures
        after.wf(),
        0 <= after.remaining() < before.remaining(),
        after.remaining() == 0 <==> after.action() == Action::Finish,
{
}

/// The install locations of the IDE build tool, 2019 editions before 2022 ones.
pub open spec fn msbuild_locations() -> Seq<Seq<char>> {
    seq![
        "C:\\Program Files (x86)\\Microsoft Visual Studio\\2019\\Community\\MSBuild\\Current\\Bin\\MSBuild.exe"@,
        "C:\\Program Files (x86)\\Microsoft Visual Studio\\2019\\Professional\\MSBuild\\Current\\Bin\\MSBuild.exe"@,
        "C:\\Program Files (x86)\\Microsoft Visual Studio\\2019\\Enterprise\\MSBuild\\Current\\Bin\\MSBuild.exe"@,
        "C:\\Program Files\\Microsoft Visual Studio\\2022\\Community\\MSBuild\\Current\\Bin\\MSBuild.exe"@,
        "C:\\Program Files\\Microsoft Visual Studio\\2022\\Professional\\MSBuild\\Current\\Bin\\MSBuild.exe"@,
        "C:\\Program Files\\Microsoft Visual Studio\\2022\\Enterprise\\MSBuild\\Current\\Bin\\MSBuild.exe"@,
    ]
}

/// Where the IDE build tool is looked for, in order.
pub fn msbuild_candidates() -> (r: Vec<String>)
    ensures
        views(r@) == msbuild_locations(),
{
    let mut v: Vec<String> = Vec::new();
    v.push(String::from_str("C:\\Program Files (x86)\\Microsoft Visual Studio\\2019\\Community\\MSBuild\\Current\\Bin\\MSBuild.exe"));
    v.push(String::from_str("C:\\Program Files (x86)\\Microsoft Visual Studio\\2019\\Professional\\MSBuild\\Current\\Bin\\MSBuild.exe"));
    v.push(String::from_str("C:\\Program Files (x86)\\Microsoft Visual Studio\\2019\\Enterprise\\MSBuild\\Current\\Bin\\MSBuild.exe"));
    v.push(String::from_str("C:\\Program Files\\Microsoft Visual Studio\\2022\\Community\\MSBuild\\Current\\Bin\\MSBuild.exe"));
    v.push(String::from_str("C:\\Program Files\\Microsoft Visual Studio\\2022\\Professional\\MSBuild\\Current\\Bin\\MSBuild.exe"));
    v.push(String::from_str("C:\\Program Files\\Microsoft Visual Studio\\2022\\Enterprise\\MSBuild\\Current\\Bin\\MSBuild.exe"));
    assert(views(v@) =~= msbuild_locations());
    v
}

/// No candidate location holds the build tool.
#[derive(Clone, Copy, Debug, PartialEq, Eq, Structural)]
pub struct ToolNotFound;

/// The first candidate location that holds the build tool; `present[i]` tells
/// whether `candidates[i]` exists.
pub fn find_msbuild_executable(candidates: &Vec<String>, present: &Vec<bool>) -> (r: Result<String, ToolNotFound>)
    requires
        candidates@.len() == present@.len(),
    ensures
        match r {
            Ok(path) => exists|i: int|
                0 <= i < present@.len() && present@[i] && path@ == candidates@[i]@ && forall|l: int|
                    0 <= l < i ==> !present@[l],
            Err(_) => forall|i: int| 0 <= i < present@.len() ==> !present@[i],
        },
{
    let mut i: usize = 0;
    while i < present.len()
        invariant
            i <= present@.len(),
            candidates@.len() == present@.len(),
            forall|l: int| 0 <= l < i ==> !present@[l],
        decreases present.len() - i,
    {
        if present[i] {
            return Ok(candidates[i].clone());
        }
        i = i + 1;
    }
    Err(ToolNotFound)
}

} // verus!
