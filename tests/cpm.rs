use cpm::compiler::Compiler;
use cpm::makefile::{format_dependencies, format_include_paths, format_lib_paths, generate_makefile, map_language_standard};
use cpm::orchestrator::{
    build_project, find_msbuild_executable, generate_build_configs, msbuild_candidates, project_directories, Action,
    BatchRun, BuildPlan, BuildSystem, Event, FailedAt, GenerationStep, Outcome, ToolNotFound,
};
use cpm::packages::{install_package, install_project_dependencies};
use cpm::project::{
    default_character_set, default_configurations, default_platforms, default_visual_studio_version,
    dependency_names_unique, project_kind, Dependency, Project, ProjectKind, ProjectStructure,
};
use cpm::resolver::{resolve_dependencies, resolve_order, ResolveError};
use cpm::vs::{
    configuration_settings,
    generate_project_configurations, generate_property_sheets, generate_visual_studio, map_configuration_type,
    map_subsystem, visual_studio_files,
};

fn project(name: &str, deps: &[&str]) -> Project {
    Project {
        name: name.to_string(),
        project_type: "Console".to_string(),
        compiler: "gcc".to_string(),
        language: "C++17".to_string(),
        build_systems: vec!["Makefile".to_string()],
        dependencies: deps
            .iter()
            .map(|d| Dependency { name: d.to_string(), version: "1.0".to_string() })
            .collect(),
        structure: ProjectStructure::default(),
        visual_studio_version: default_visual_studio_version(),
        additional_include_dirs: vec![],
        preprocessor_definitions: vec![],
        compiler_flags: vec![],
        linker_flags: vec![],
        configurations: default_configurations(),
        platforms: default_platforms(),
        character_set: default_character_set(),
        output_name: None,
    }
}

fn names(order: &[&Project]) -> Vec<String> {
    order.iter().map(|p| p.name.clone()).collect()
}

#[test]
fn resolve_puts_dependency_first_in_either_input_order() {
    let ab = vec![project("A", &[]), project("B", &["A"])];
    let ba = vec![project("B", &["A"]), project("A", &[])];
    assert_eq!(names(&resolve_dependencies(&ab).unwrap()), vec!["A", "B"]);
    assert_eq!(names(&resolve_dependencies(&ba).unwrap()), vec!["A", "B"]);
}

#[test]
fn resolve_lists_every_project_once_after_its_dependencies() {
    let batch = vec![
        project("app", &["net", "log"]),
        project("net", &["log", "zlib"]),
        project("log", &[]),
        project("tool", &[]),
    ];
    let order = names(&resolve_dependencies(&batch).unwrap());
    assert_eq!(order, vec!["log", "net", "app", "tool"]);
}

#[test]
fn resolve_is_the_same_on_repeated_calls() {
    let batch = vec![project("c", &["b", "a"]), project("b", &["a"]), project("a", &[]), project("d", &["c"])];
    let first = resolve_order(&batch).unwrap();
    let second = resolve_order(&batch).unwrap();
    assert_eq!(first, second);
    assert_eq!(first, vec![2, 1, 0, 3]);
}

#[test]
fn resolve_skips_dependencies_outside_the_batch() {
    let batch = vec![project("A", &["boost", "fmt"])];
    assert_eq!(names(&resolve_dependencies(&batch).unwrap()), vec!["A"]);
}

#[test]
fn resolve_reports_a_cycle() {
    let batch = vec![project("A", &["B"]), project("B", &["C"]), project("C", &["A"]), project("D", &[])];
    match resolve_dependencies(&batch) {
        Err(ResolveError::CyclicDependency { cycle }) => assert_eq!(cycle, vec!["A", "B", "C"]),
        Ok(_) => panic!("a cycle must be reported"),
    }
    let selfish = vec![project("S", &["S"])];
    assert_eq!(resolve_order(&selfish), Err(vec![0]));
}

#[test]
fn resolve_of_an_empty_batch_is_empty() {
    let batch: Vec<Project> = vec![];
    assert_eq!(resolve_order(&batch), Ok(vec![]));
}

#[test]
fn makefile_of_dependent_project_names_its_dependency() {
    let b = project("B", &["A"]);
    let text = generate_makefile(&b);
    assert!(text.contains("INCLUDES=-IB/include -Ideps/A/include\n"));
    assert!(text.contains("LIBS=-lA\n"));
    assert!(text.contains("LIBPATHS=-LB/lib -Ldeps/A/lib\n"));
}

#[test]
fn makefile_maps_the_language_standard() {
    let text = generate_makefile(&project("P", &[]));
    assert!(text.contains("CFLAGS=-std=c++17 -Wall -O2\n"));
    assert!(!text.contains("C++17"));
    assert_eq!(map_language_standard("C89"), "c89");
    assert_eq!(map_language_standard("Fortran"), "c11");
}

#[test]
fn makefile_link_step_follows_project_kind() {
    let mut p = project("L", &[]);
    p.project_type = "StaticLib".to_string();
    let text = generate_makefile(&p);
    assert!(text.contains("\n\tar rcs $@ $^\n"));
    p.project_type = "SharedLib".to_string();
    let text = generate_makefile(&p);
    assert!(text.contains("\n\t$(CC) $(CFLAGS) $(INCLUDES) $(LIBPATHS) -shared -o $@ $^ $(LIBS)\n"));
    p.project_type = "Console".to_string();
    let text = generate_makefile(&p);
    assert!(text.contains("\n\t$(CC) $(CFLAGS) $(INCLUDES) $(LIBPATHS) -o $@ $^ $(LIBS)\n"));
    assert!(!text.contains("ar rcs"));
    assert_eq!(project_kind(&"StaticLib".to_string()), ProjectKind::StaticLibrary);
}

#[test]
fn makefile_full_text() {
    let mut p = project("core", &["zlib"]);
    p.compiler = "clang".to_string();
    p.language = "C99".to_string();
    let expected = "CC=clang++\n\
CFLAGS=-std=c99 -Wall -O2\n\
SRCS=$(wildcard src/*.c)\n\
OBJS=$(SRCS:.c=.o)\n\
LIBS=-lzlib\n\
INCLUDES=-Icore/include -Ideps/zlib/include\n\
LIBPATHS=-Lcore/lib -Ldeps/zlib/lib\n\
TARGET=build/core\n\
all: $(TARGET)\n\
$(TARGET): $(OBJS)\n\
\tmkdir -p build\n\
\t$(CC) $(CFLAGS) $(INCLUDES) $(LIBPATHS) -o $@ $^ $(LIBS)\n\
clean:\n\
\trm -f $(OBJS) $(TARGET)\n";
    assert_eq!(generate_makefile(&p), expected);
}

#[test]
fn format_helpers() {
    let p = project("X", &["a", "b"]);
    assert_eq!(format_dependencies(&p.dependencies), "-la -lb");
    assert_eq!(format_dependencies(&vec![]), "");
    assert_eq!(format_include_paths(&p), "-IX/include -Ideps/a/include -Ideps/b/include");
    assert_eq!(format_lib_paths(&p), "-LX/lib -Ldeps/a/lib -Ldeps/b/lib");
}

#[test]
fn compiler_table() {
    let c = Compiler::new("MSVC");
    assert_eq!((c.name.as_str(), c.command.as_str(), c.flags.as_str()), ("MSVC", "cl", "/EHsc"));
    let c = Compiler::new("Clang");
    assert_eq!(c.command, "clang++");
    let c = Compiler::new("G++");
    assert_eq!((c.name.as_str(), c.command.as_str()), ("GCC", "g++"));
    let c = Compiler::new("tcc");
    assert_eq!(c.flags, "-Wall -O2");
}

fn count(text: &str, needle: &str) -> usize {
    text.matches(needle).count()
}

#[test]
fn ide_artifact_has_one_block_per_pair() {
    let mut p = project("G", &["A"]);
    p.platforms = vec!["x64".to_string(), "Win32".to_string()];
    p.configurations = vec!["Debug".to_string(), "Release".to_string(), "Profile".to_string()];
    let files = visual_studio_files(&p, "1234", "C:\\work\\G");
    assert_eq!(count(&files.solution, ".ActiveCfg = "), 6);
    assert_eq!(count(&files.solution, ".Build.0 = "), 6);
    assert!(files.solution.contains("        Profile|Win32 = Profile|Win32\n"));
    assert_eq!(count(&files.project, "<ItemDefinitionGroup Condition="), 6);
    assert_eq!(count(&files.project, "<PropertyGroup Condition="), 6);
    assert_eq!(count(&files.project, "<Link>"), 6);
    assert_eq!(count(&files.project, "<ProjectConfiguration Include="), 6);
    let first = files.solution.find("Debug|x64 = ").unwrap();
    let second = files.solution.find("Release|x64 = ").unwrap();
    let third = files.solution.find("Debug|Win32 = ").unwrap();
    assert!(first < second && second < third);
}

#[test]
fn ide_artifact_settings() {
    let mut p = project("G", &["A"]);
    p.configurations = vec!["DEBUG".to_string(), "Release".to_string()];
    p.preprocessor_definitions = vec!["WIN32".to_string(), "NDEBUG".to_string()];
    p.project_type = "SharedLib".to_string();
    let files = visual_studio_files(&p, "abcd", "C:\\w");
    assert!(files.project.contains("<UseDebugLibraries>true</UseDebugLibraries>"));
    assert!(files.project.contains("<Optimization>MaxSpeed</Optimization>"));
    assert!(files.project.contains("<PreprocessorDefinitions>WIN32;NDEBUG;%(PreprocessorDefinitions)</PreprocessorDefinitions>"));
    assert!(files.project.contains("<AdditionalIncludeDirectories>include;..\\deps\\A\\include;%(AdditionalIncludeDirectories)"));
    assert!(files.project.contains("<AdditionalDependencies>kernel32.lib;user32.lib;A.lib</AdditionalDependencies>"));
    assert!(files.project.contains("<ConfigurationType>DynamicLibrary</ConfigurationType>"));
    assert!(files.project.contains("<SubSystem>Windows</SubSystem>"));
    assert!(files.project.contains("<LanguageStandard>stdcpp17</LanguageStandard>"));
    assert!(files.project.contains("<ProjectGuid>{abcd}</ProjectGuid>"));
    assert!(files.solution.contains("\"G.vcxproj\", \"{abcd}\""));
    assert!(files.solution.contains("# Visual Studio Version 17\n"));
    assert_eq!(map_configuration_type("StaticLib"), "StaticLibrary");
    assert_eq!(map_subsystem("Console"), "Console");
}

#[test]
fn ide_artifact_draws_a_fresh_identifier() {
    let p = project("G", &[]);
    let files = generate_visual_studio(&p, "C:\\w");
    assert_eq!(files.guid.len(), 36);
    assert_eq!(files.guid.matches('-').count(), 4);
    for (i, ch) in files.guid.chars().enumerate() {
        if i == 8 || i == 13 || i == 18 || i == 23 {
            assert_eq!(ch, '-');
        } else {
            assert!(ch.is_ascii_digit() || ('a'..='f').contains(&ch));
        }
    }
    assert_eq!(files.guid.chars().nth(14), Some('4'));
    assert!(files.solution.contains(&format!("{{{}}}", files.guid)));
}

#[test]
fn ide_fragments() {
    let p = project("G", &[]);
    let configs = generate_project_configurations(&p);
    assert_eq!(count(&configs, "<ProjectConfiguration Include=\""), 2);
    assert!(configs.contains("    <ProjectConfiguration Include=\"Debug|x64\">\n      <Configuration>Debug</Configuration>\n"));
    let sheets = generate_property_sheets(&p);
    assert_eq!(count(&sheets, "<ImportGroup Label=\"PropertySheets\""), 2);
}

#[test]
fn generation_steps_report_unsupported_systems() {
    let mut p = project("G", &[]);
    p.build_systems = vec!["Ninja".to_string(), "VisualStudio".to_string(), "Makefile".to_string()];
    let steps = generate_build_configs(&p);
    assert_eq!(steps.len(), 3);
    assert!(matches!(&steps[0], GenerationStep::Unsupported(t) if t == "Ninja"));
    assert!(matches!(steps[1], GenerationStep::Generate(BuildSystem::VisualStudio)));
    assert!(matches!(steps[2], GenerationStep::Generate(BuildSystem::Makefile)));
    let dirs = project_directories(&p, true);
    assert_eq!(dirs, vec!["G", "G/src", "G/include", "G/build", "G/build/Intermediate"]);
}

#[test]
fn build_plan_selection() {
    let mut p = project("G", &[]);
    match build_project(&p, None) {
        BuildPlan::Run(c) => {
            assert_eq!(c.program, "make");
            assert_eq!(c.dir, "G");
        }
        BuildPlan::Unsupported(_) => panic!("make expected"),
    }
    let vs = "VisualStudio".to_string();
    match build_project(&p, Some(&vs)) {
        BuildPlan::Run(c) => {
            assert_eq!(c.program, "msbuild.exe");
            assert_eq!(c.args, vec!["G.sln"]);
        }
        BuildPlan::Unsupported(_) => panic!("msbuild expected"),
    }
    p.build_systems = vec![];
    assert!(matches!(build_project(&p, None), BuildPlan::Run(c) if c.program == "make"));
    p.build_systems = vec!["Bazel".to_string()];
    assert!(matches!(build_project(&p, None), BuildPlan::Unsupported(t) if t == "Bazel"));
}

fn drive(run: &mut BatchRun, fail_install_of: usize) {
    loop {
        match run.next_action() {
            Action::Finish => break,
            Action::Install(i) if i == fail_install_of => run.step(Event::Failed("download failed".to_string())),
            _ => run.step(Event::Succeeded),
        }
    }
}

#[test]
fn run_continues_after_an_install_failure() {
    let mut run = BatchRun::new(3);
    drive(&mut run, 1);
    assert!(matches!(run.outcomes[0], Outcome::Built));
    assert!(matches!(&run.outcomes[1], Outcome::Failed { stage: FailedAt::Install, detail } if detail == "download failed"));
    assert!(matches!(run.outcomes[2], Outcome::Built));
    assert!(!run.succeeded());
}

#[test]
fn run_of_all_successes_succeeds() {
    let mut run = BatchRun::new(2);
    assert_eq!(run.next_action(), Action::Install(0));
    run.step(Event::Succeeded);
    assert_eq!(run.next_action(), Action::Generate(0));
    run.step(Event::Succeeded);
    assert_eq!(run.next_action(), Action::Build(0));
    run.step(Event::Failed("exit code 2".to_string()));
    assert!(matches!(run.outcomes[0], Outcome::Failed { stage: FailedAt::Build, .. }));
    assert_eq!(run.next_action(), Action::Install(1));
    let mut ok = BatchRun::new(2);
    drive(&mut ok, 99);
    assert!(ok.succeeded());
}

#[test]
fn install_plans() {
    let i = install_package("fmt", "10.1");
    assert_eq!(i.url, "http://example.com/packages/fmt/10.1.zip");
    assert_eq!(i.archive, "deps/fmt_10.1.zip");
    assert_eq!(i.extract_to, "deps/fmt");
    let plans = install_project_dependencies(&project("P", &["z", "a"]));
    assert_eq!(plans.len(), 2);
    assert_eq!(plans[0].name, "z");
    assert_eq!(plans[1].url, "http://example.com/packages/a/1.0.zip");
}

#[test]
fn build_tool_locator_takes_first_present_candidate() {
    let candidates = msbuild_candidates();
    assert_eq!(candidates.len(), 6);
    let present = vec![false, false, true, false, true, false];
    assert_eq!(find_msbuild_executable(&candidates, &present), Ok(candidates[2].clone()));
    assert!(candidates[2].contains("2019\\Enterprise"));
    assert_eq!(find_msbuild_executable(&candidates, &vec![false; 6]), Err(ToolNotFound));
}

#[test]
fn configuration_names_decide_debug_and_optimization() {
    let d = configuration_settings("debug");
    assert!(d.use_debug_libraries && !d.whole_program_optimization);
    assert_eq!(d.optimization, "Disabled");
    let r = configuration_settings("release");
    assert!(!r.use_debug_libraries && r.whole_program_optimization);
    assert_eq!(r.optimization, "MaxSpeed");
    let other = configuration_settings("Debug");
    assert!(!other.use_debug_libraries);
    let mut p = project("G", &[]);
    p.configurations = vec!["Debug".to_string()];
    let files = visual_studio_files(&p, "g", "C:\\w");
    assert!(files.project.contains("<UseDebugLibraries>true</UseDebugLibraries>"));
    assert!(files.project.contains("<WholeProgramOptimization>false</WholeProgramOptimization>"));
}

#[test]
fn dependency_names_must_be_distinct() {
    assert!(dependency_names_unique(&project("P", &["a", "b", "c"]).dependencies));
    assert!(dependency_names_unique(&vec![]));
    assert!(!dependency_names_unique(&project("P", &["a", "b", "a"]).dependencies));
}

#[test]
fn solution_entries_follow_platform_then_configuration_order() {
    let mut p = project("G", &[]);
    p.platforms = vec!["x64".to_string(), "ARM64".to_string()];
    p.configurations = vec!["Debug".to_string(), "Release".to_string()];
    let files = visual_studio_files(&p, "g", "C:\\w");
    let start = files.solution.find("preSolution\n").unwrap() + "preSolution\n".len();
    let section: Vec<&str> = files.solution[start..].lines().take(4).collect();
    assert_eq!(
        section,
        vec![
            "        Debug|x64 = Debug|x64",
            "        Release|x64 = Release|x64",
            "        Debug|ARM64 = Debug|ARM64",
            "        Release|ARM64 = Release|ARM64",
        ]
    );
}
