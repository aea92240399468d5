use vstd::prelude::*;
use crate::text::is_text;

verus! {

/// What a project produces when it is linked.
#[derive(Clone, Copy, Debug, PartialEq, Eq, Structural)]
pub enum ProjectKind {
    Executable,
    StaticLibrary,
    SharedLibrary,
}

/// The kind named by a project's type tag: `StaticLib`, `SharedLib`, anything else an executable.
pub open spec fn kind_of(project_type: Seq<char>) -> ProjectKind {
    if project_type == "StaticLib"@ {
        ProjectKind::StaticLibrary
    } else if project_type == "SharedLib"@ {
        ProjectKind::SharedLibrary
    } else {
        ProjectKind::Executable
    }
}

/// Maps a project's type tag to its kind.
pub fn project_kind(project_type: &String) -> (r: ProjectKind)
    ensures
        r == kind_of(project_type@),
{
    if is_text(project_type, "StaticLib") {
        ProjectKind::StaticLibrary
    } else if is_text(project_type, "SharedLib") {
        ProjectKind::SharedLibrary
    } else {
        ProjectKind::Executable
    }
}

/// One named dependency with an opaque version string.
#[derive(Clone, Debug)]
pub struct Dependency {
    pub name: String,
    pub version: String,
}

/// Relative locations of sources, headers and build output inside a project.
#[derive(Clone, Debug)]
pub struct ProjectStructure {
    pub src_dir: String,
    pub include_dir: String,
    pub output_dir: String,
}

/// One buildable unit. Dependencies keep the order in which they were declared.
#[derive(Clone, Debug)]
pub struct Project {
    pub name: String,
    pub project_type: String,
    pub compiler: String,
    pub language: String,
    pub build_systems: Vec<String>,
    pub dependencies: Vec<Dependency>,
    pub structure: ProjectStructure,
    pub visual_studio_version: String,
    pub additional_include_dirs: Vec<String>,
    pub preprocessor_definitions: Vec<String>,
    pub compiler_flags: Vec<String>,
    pub linker_flags: Vec<String>,
    pub configurations: Vec<String>,
    pub platforms: Vec<String>,
    pub character_set: String,
    pub output_name: Option<String>,
}

/// No two dependencies of the list share a name.
pub open spec fn unique_names(deps: Seq<Dependency>) -> bool {
    forall|a: int, b: int| 0 <= a < b < deps.len() ==> deps[a].name@ != deps[b].name@
}

/// Whether no two dependencies of the list share a name.
pub fn dependency_names_unique(deps: &Vec<Dependency>) -> (r: bool)
    ensures
        r == unique_names(deps@),
{
    let mut b: usize = 0;
    while b < deps.len()
        invariant
            b <= deps@.len(),
            forall|x: int, y: int| 0 <= x < y < b ==> deps@[x].name@ != deps@[y].name@,
        decreases deps.len() - b,
    {
        let mut a: usize = 0;
        while a < b
            invariant
                a <= b < deps@.len(),
                forall|x: int, y: int| 0 <= x < y < b ==> deps@[x].name@ != deps@[y].name@,
                forall|x: int| 0 <= x < a ==> deps@[x].name@ != deps@[b as int].name@,
            decreases b - a,
        {
            if deps[a].name.eq(&deps[b].name) {
                return false;
            }
            a = a + 1;
        }
        b = b + 1;
    }
    true
}

/// A batch of project descriptors.
#[derive(Clone, Debug)]
pub struct ProjectsFile {
    pub projects: Vec<Project>,
}

impl Project {
    /// The kind of this project.
    pub open spec fn kind(&self) -> ProjectKind {
        kind_of(self.project_type@)
    }

    /// A well-formed project declares each dependency name once.
    pub open spec fn wf(&self) -> bool {
        unique_names(self.dependencies@)
    }

    /// The names of the declared dependencies, in declared order.
    pub open spec fn dep_names(&self) -> Seq<Seq<char>> {
        self.dependencies@.map_values(|d: Dependency| d.name@)
    }
}

pub fn default_src_dir() -> (r: String)
    ensures
        r@ == "src"@,
{
    String::from_str("src")
}

pub fn default_include_dir() -> (r: String)
    ensures
        r@ == "include"@,
{
    String::from_str("include")
}

pub fn default_output_dir() -> (r: String)
    ensures
        r@ == "build"@,
{
    String::from_str("build")
}

/// Visual Studio 2022.
pub fn default_visual_studio_version() -> (r: String)
    ensures
        r@ == "17"@,
{
    String::from_str("17")
}

pub fn default_configurations() -> (r: Vec<String>)
    ensures
        r@.len() == 2,
        r@[0]@ == "Debug"@,
        r@[1]@ == "Release"@,
{
    let mut v: Vec<String> = Vec::new();
    v.push(String::from_str("Debug"));
    v.push(String::from_str("Release"));
    v
}

pub fn default_platforms() -> (r: Vec<String>)
    ensures
        r@.len() == 1,
        r@[0]@ == "x64"@,
{
    let mut v: Vec<String> = Vec::new();
    v.push(String::from_str("x64"));
    v
}

pub fn default_character_set() -> (r: String)
    ensures
        r@ == "Unicode"@,
{
    String::from_str("Unicode")
}

impl Default for ProjectStructure {
    fn default() -> (r: Self)
        ensures
            r.src_dir@ == "src"@,
            r.include_dir@ == "include"@,
            r.output_dir@ == "build"@,
    {
        ProjectStructure {
            src_dir: default_src_dir(),
            include_dir: default_include_dir(),
            output_dir: default_output_dir(),
        }
    }
}

} // verus!
