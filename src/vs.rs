use vstd::prelude::*;
use vstd::arithmetic::div_mod::lemma_fundamental_div_mod_converse;
use crate::makefile::{names_of, wrap_all, wrap_names};
use crate::project::Project;
use crate::text::{concat3, join, join_strings, lines_text, render_lines, str_is, views};

verus! {

/// What `str::to_lowercase` makes of a text.
pub uninterp spec fn lower_of(s: Seq<char>) -> Seq<char>;

/// Relies on `str::to_lowercase`: the result depends on the characters alone.
#[verifier::external_body]
fn lowercase(s: &str) -> (r: String)
    ensures
        r@ == lower_of(s@),
{
    s.to_lowercase()
}

/// Every line of every block, blocks in order.
pub open spec fn flat(blocks: Seq<Seq<Seq<char>>>) -> Seq<Seq<char>>
    decreases blocks.len(),
{
    if blocks.len() == 0 {
        Seq::empty()
    } else {
        flat(blocks.drop_last()) + blocks.last()
    }
}

/// Every (configuration, platform) pair: platforms in declared order, and for each
/// platform the configurations in declared order.
pub open spec fn config_pairs(platforms: Seq<Seq<char>>, configs: Seq<Seq<char>>) -> Seq<(Seq<char>, Seq<char>)>
    decreases platforms.len(),
{
    if platforms.len() == 0 {
        Seq::empty()
    } else {
        config_pairs(platforms.drop_last(), configs) + configs.map_values(|c: Seq<char>| (c, platforms.last()))
    }
}

pub open spec fn project_pairs(p: Project) -> Seq<(Seq<char>, Seq<char>)> {
    config_pairs(views(p.platforms@), views(p.configurations@))
}

/// There are as many pairs as platforms times configurations.
pub proof fn lemma_config_pairs_len(platforms: Seq<Seq<char>>, configs: Seq<Seq<char>>)
    ensures
        config_pairs(platforms, configs).len() == platforms.len() * configs.len(),
    decreases platforms.len(),
{
    if platforms.len() > 0 {
        lemma_config_pairs_len(platforms.drop_last(), configs);
        let n = platforms.len() as int;
        let m = configs.len() as int;
        assert((n - 1) * m + m == n * m) by (nonlinear_arith);
    }
}

/// The solution header line for a Visual Studio version.
pub open spec fn vs_version_line(version: Seq<char>) -> Seq<char> {
    if version == "15"@ {
        "# Visual Studio 15"@
    } else if version == "16"@ {
        "# Visual Studio Version 16"@
    } else {
        "# Visual Studio Version 17"@
    }
}

/// The platform toolset of a Visual Studio version.
pub open spec fn vs_toolset(version: Seq<char>) -> Seq<char> {
    if version == "15"@ {
        "v141"@
    } else if version == "16"@ {
        "v142"@
    } else {
        "v143"@
    }
}

pub open spec fn configuration_type(project_type: Seq<char>) -> Seq<char> {
    if project_type == "StaticLib"@ {
        "StaticLibrary"@
    } else if project_type == "SharedLib"@ {
        "DynamicLibrary"@
    } else {
        "Application"@
    }
}

pub open spec fn subsystem(project_type: Seq<char>) -> Seq<char> {
    if project_type == "SharedLib"@ {
        "Windows"@
    } else {
        "Console"@
    }
}

/// The IDE's language-standard token for a language tag; unknown tags get C++17.
pub open spec fn vs_standard(language: Seq<char>) -> Seq<char> {
    if language == "C89"@ {
        "stdc89"@
    } else if language == "C99"@ {
        "stdc99"@
    } else if language == "C11"@ {
        "stdc11"@
    } else if language == "C17"@ {
        "stdc17"@
    } else if language == "C++98"@ {
        "stdcpp98"@
    } else if language == "C++11"@ {
        "stdcpp11"@
    } else if language == "C++14"@ {
        "stdcpp14"@
    } else if language == "C++20"@ {
        "stdcpp20"@
    } else if language == "C++23"@ {
        "stdcpplatest"@
    } else {
        "stdcpp17"@
    }
}

/// The project's include directory, its additional ones, then one per dependency.
pub open spec fn vs_includes(p: Project) -> Seq<char> {
    join(
        seq![p.structure.include_dir@] + views(p.additional_include_dirs@) + wrap_all(
            names_of(p.dependencies@),
            "..\\deps\\"@,
            "\\include"@,
        ),
        ";"@,
    )
}

/// One library directory per dependency.
pub open spec fn vs_lib_dirs(p: Project) -> Seq<char> {
    join(wrap_all(names_of(p.dependencies@), "..\\deps\\"@, "\\lib"@), ";"@)
}

/// The platform base libraries, then one library per dependency.
pub open spec fn vs_libraries(p: Project) -> Seq<char> {
    join(seq!["kernel32.lib"@, "user32.lib"@] + wrap_all(names_of(p.dependencies@), ""@, ".lib"@), ";"@)
}

pub open spec fn vs_definitions(p: Project) -> Seq<char> {
    if p.preprocessor_definitions@.len() == 0 {
        "%(PreprocessorDefinitions)"@
    } else {
        join(views(p.preprocessor_definitions@), ";"@) + ";%(PreprocessorDefinitions)"@
    }
}

/// The condition that selects one (configuration, platform) pair.
pub open spec fn pair_condition(c: Seq<char>, pl: Seq<char>) -> Seq<char> {
    "'$(Configuration)|$(Platform)'=='"@ + c + "|"@ + pl + "'"@
}

pub open spec fn flag(b: bool) -> Seq<char> {
    if b {
        "true"@
    } else {
        "false"@
    }
}

/// The kinds of per-pair blocks of the two IDE files.
#[derive(Clone, Copy, Debug, PartialEq, Eq, Structural)]
pub enum BlockKind {
    SolutionEntry,
    ProjectPlatforms,
    ProjectConfiguration,
    PropertyGroup,
    PropertySheet,
    ItemDefinition,
}

/// The lines of one block of kind `kind` for the pair (`c`, `pl`).
pub open spec fn block_spec(kind: BlockKind, p: Project, guid: Seq<char>, c: Seq<char>, pl: Seq<char>) -> Seq<Seq<char>> {
    let cp = c + "|"@ + pl;
    match kind {
        BlockKind::SolutionEntry => seq!["        "@ + cp + " = "@ + cp],
        BlockKind::ProjectPlatforms => seq![
            "        {"@ + guid + "}."@ + cp + ".ActiveCfg = "@ + cp,
            "        {"@ + guid + "}."@ + cp + ".Build.0 = "@ + cp,
        ],
        BlockKind::ProjectConfiguration => seq![
            "    <ProjectConfiguration Include=\""@ + cp + "\">"@,
            "      <Configuration>"@ + c + "</Configuration>"@,
            "      <Platform>"@ + pl + "</Platform>"@,
            "    </ProjectConfiguration>"@,
        ],
        BlockKind::PropertyGroup => seq![
            "  <PropertyGroup Condition=\""@ + pair_condition(c, pl) + "\" Label=\"Configuration\">"@,
            "    <ConfigurationType>"@ + configuration_type(p.project_type@) + "</ConfigurationType>"@,
            "    <UseDebugLibraries>"@ + flag(lower_of(c) == "debug"@) + "</UseDebugLibraries>"@,
            "    <PlatformToolset>"@ + vs_toolset(p.visual_studio_version@) + "</PlatformToolset>"@,
            "    <WholeProgramOptimization>"@ + flag(lower_of(c) == "release"@) + "</WholeProgramOptimization>"@,
            "    <CharacterSet>"@ + p.character_set@ + "</CharacterSet>"@,
            "  </PropertyGroup>"@,
        ],
        BlockKind::PropertySheet => seq![
            "  <ImportGroup Label=\"PropertySheets\" Condition=\""@ + pair_condition(c, pl) + "\">"@,
            "    <Import Project=\"$(UserRootDir)\\Microsoft.Cpp.$(Platform).user.props\""@,
            "            Condition=\"exists('$(UserRootDir)\\Microsoft.Cpp.$(Platform).user.props')\""@,
            "            Label=\"LocalAppDataPlatform\" />"@,
            "  </ImportGroup>"@,
        ],
        BlockKind::ItemDefinition => seq![
            "  <ItemDefinitionGroup Condition=\""@ + pair_condition(c, pl) + "\">"@,
            "    <ClCompile>"@,
            "      <WarningLevel>Level3</WarningLevel>"@,
            "      <Optimization>"@ + (if lower_of(c) == "release"@ { "MaxSpeed"@ } else { "Disabled"@ }) + "</Optimization>"@,
            "      <PreprocessorDefinitions>"@ + vs_definitions(p) + "</PreprocessorDefinitions>"@,
            "      <AdditionalIncludeDirectories>"@ + vs_includes(p) + ";%(AdditionalIncludeDirectories)</AdditionalIncludeDirectories>"@,
            "      <AdditionalOptions>"@ + join(views(p.compiler_flags@), " "@) + " %(AdditionalOptions)</AdditionalOptions>"@,
            "      <LanguageStandard>"@ + vs_standard(p.language@) + "</LanguageStandard>"@,
            "    </ClCompile>"@,
            "    <Link>"@,
            "      <SubSystem>"@ + subsystem(p.project_type@) + "</SubSystem>"@,
            "      <GenerateDebugInformation>true</GenerateDebugInformation>"@,
            "      <AdditionalLibraryDirectories>"@ + vs_lib_dirs(p) + ";%(AdditionalLibraryDirectories)</AdditionalLibraryDirectories>"@,
            "      <AdditionalDependencies>"@ + vs_libraries(p) + "</AdditionalDependencies>"@,
            "      <AdditionalOptions>"@ + join(views(p.linker_flags@), " "@) + " %(AdditionalOptions)</AdditionalOptions>"@,
            "    </Link>"@,
            "  </ItemDefinitionGroup>"@,
        ],
    }
}

/// The blocks of one kind, one per (configuration, platform) pair, in pair order.
pub open spec fn blocks_spec(kind: BlockKind, p: Project, guid: Seq<char>) -> Seq<Seq<Seq<char>>> {
    project_pairs(p).map_values(|q: (Seq<char>, Seq<char>)| block_spec(kind, p, guid, q.0, q.1))
}

/// The views of a list of (configuration, platform) pairs.
pub open spec fn pair_views(v: Seq<(String, String)>) -> Seq<(Seq<char>, Seq<char>)> {
    v.map_values(|q: (String, String)| (q.0@, q.1@))
}

/// Settings of the IDE files that are the same for every pair.
struct VsSettings {
    toolset: &'static str,
    config_type: &'static str,
    definitions: String,
    includes: String,
    lib_dirs: String,
    libraries: String,
    compiler_flags: String,
    linker_flags: String,
    standard: &'static str,
    subsystem: &'static str,
}

spec fn settings_of(s: VsSettings, p: Project) -> bool {
    &&& s.toolset@ == vs_toolset(p.visual_studio_version@)
    &&& s.config_type@ == configuration_type(p.project_type@)
    &&& s.definitions@ == vs_definitions(p)
    &&& s.includes@ == vs_includes(p)
    &&& s.lib_dirs@ == vs_lib_dirs(p)
    &&& s.libraries@ == vs_libraries(p)
    &&& s.compiler_flags@ == join(views(p.compiler_flags@), " "@)
    &&& s.linker_flags@ == join(views(p.linker_flags@), " "@)
    &&& s.standard@ == vs_standard(p.language@)
    &&& s.subsystem@ == subsystem(p.project_type@)
}

fn toolset_of(version: &str) -> (r: &'static str)
    ensures
        r@ == vs_toolset(version@),
{
    if str_is(version, "15") {
        "v141"
    } else if str_is(version, "16") {
        "v142"
    } else {
        "v143"
    }
}

fn version_line(version: &str) -> (r: &'static str)
    ensures
        r@ == vs_version_line(version@),
{
    if str_is(version, "15") {
        "# Visual Studio 15"
    } else if str_is(version, "16") {
        "# Visual Studio Version 16"
    } else {
        "# Visual Studio Version 17"
    }
}

/// The IDE's configuration type for a project's type tag.
pub fn map_configuration_type(project_type: &str) -> (r: &'static str)
    ensures
        r@ == configuration_type(project_type@),
{
    if str_is(project_type, "StaticLib") {
        "StaticLibrary"
    } else if str_is(project_type, "SharedLib") {
        "DynamicLibrary"
    } else {
        "Application"
    }
}

/// The linker subsystem for a project's type tag.
pub fn map_subsystem(project_type: &str) -> (r: &'static str)
    ensures
        r@ == subsystem(project_type@),
{
    if str_is(project_type, "SharedLib") {
        "Windows"
    } else {
        "Console"
    }
}

/// The IDE's language-standard token for a language tag.
pub fn map_language_standard(language: &str) -> (r: &'static str)
    ensures
        r@ == vs_standard(language@),
{
    if str_is(language, "C89") {
        "stdc89"
    } else if str_is(language, "C99") {
        "stdc99"
    } else if str_is(language, "C11") {
        "stdc11"
    } else if str_is(language, "C17") {
        "stdc17"
    } else if str_is(language, "C++98") {
        "stdcpp98"
    } else if str_is(language, "C++11") {
        "stdcpp11"
    } else if str_is(language, "C++14") {
        "stdcpp14"
    } else if str_is(language, "C++20") {
        "stdcpp20"
    } else if str_is(language, "C++23") {
        "stdcpplatest"
    } else {
        "stdcpp17"
    }
}

/// A copy of a list of strings.
fn copy_strings(v: &Vec<String>) -> (r: Vec<String>)
    ensures
        views(r@) == views(v@),
{
    let mut out: Vec<String> = Vec::new();
    let mut i: usize = 0;
    while i < v.len()
        invariant
            i <= v@.len(),
            views(out@) =~= views(v@.subrange(0, i as int)),
        decreases v.len() - i,
    {
        let ghost prev = out@;
        out.push(v[i].clone());
        proof {
            assert(views(prev).len() == prev.len());
            assert(out@ == prev.push(out@.last()));
            assert forall|k: int| 0 <= k <= i implies views(out@)[k] == views(v@.subrange(0, i + 1))[k] by {
                if k < i {
                    assert(out@[k] == prev[k]);
                    assert(views(prev)[k] == views(v@.subrange(0, i as int))[k]);
                }
            }
            assert(views(out@) =~= views(v@.subrange(0, i + 1)));
        }
        i = i + 1;
    }
    assert(v@.subrange(0, v@.len() as int) =~= v@);
    out
}

fn settings(p: &Project) -> (r: VsSettings)
    ensures
        settings_of(r, *p),
{
    let definitions = if p.preprocessor_definitions.len() == 0 {
        String::from_str("%(PreprocessorDefinitions)")
    } else {
        let mut d = join_strings(&p.preprocessor_definitions, ";");
        d.append(";%(PreprocessorDefinitions)");
        d
    };
    let mut inc: Vec<String> = Vec::new();
    inc.push(p.structure.include_dir.clone());
    let mut extra = copy_strings(&p.additional_include_dirs);
    inc.append(&mut extra);
    let mut deps_inc = wrap_names(&p.dependencies, "..\\deps\\", "\\include");
    inc.append(&mut deps_inc);
    assert(views(inc@) =~= seq![p.structure.include_dir@] + views(p.additional_include_dirs@) + wrap_all(
        names_of(p.dependencies@),
        "..\\deps\\"@,
        "\\include"@,
    ));
    let lib_dir_parts = wrap_names(&p.dependencies, "..\\deps\\", "\\lib");
    let mut libs: Vec<String> = Vec::new();
    libs.push(String::from_str("kernel32.lib"));
    libs.push(String::from_str("user32.lib"));
    let mut dep_libs = wrap_names(&p.dependencies, "", ".lib");
    libs.append(&mut dep_libs);
    assert(views(libs@) =~= seq!["kernel32.lib"@, "user32.lib"@] + wrap_all(names_of(p.dependencies@), ""@, ".lib"@));
    VsSettings {
        toolset: toolset_of(p.visual_studio_version.as_str()),
        config_type: map_configuration_type(p.project_type.as_str()),
        definitions,
        includes: join_strings(&inc, ";"),
        lib_dirs: join_strings(&lib_dir_parts, ";"),
        libraries: join_strings(&libs, ";"),
        compiler_flags: join_strings(&p.compiler_flags, " "),
        linker_flags: join_strings(&p.linker_flags, " "),
        standard: map_language_standard(p.language.as_str()),
        subsystem: map_subsystem(p.project_type.as_str()),
    }
}

fn tagged(open: &str, x: &str, close: &str) -> (r: String)
    ensures
        r@ == open@ + x@ + close@,
{
    concat3(open, x, close)
}

fn condition(c: &String, pl: &String) -> (r: String)
    ensures
        r@ == pair_condition(c@, pl@),
{
    let mut s = concat3("'$(Configuration)|$(Platform)'=='", c.as_str(), "|");
    s.append(pl.as_str());
    s.append("'");
    s
}

fn flag_text(b: bool) -> (r: &'static str)
    ensures
        r@ == flag(b),
{
    if b {
        "true"
    } else {
        "false"
    }
}

/// The settings that follow from a configuration's name.
#[derive(Clone, Copy, Debug, PartialEq, Eq)]
pub struct ConfigurationSettings {
    pub use_debug_libraries: bool,
    pub whole_program_optimization: bool,
    pub optimization: &'static str,
}

/// The settings of a configuration, given its name in lower case: `debug` turns on
/// the debug libraries, `release` turns on whole-program optimization and
/// optimizes for speed; anything else leaves both off and disables optimization.
pub fn configuration_settings(lowered: &str) -> (r: ConfigurationSettings)
    ensures
        r.use_debug_libraries == (lowered@ == "debug"@),
        r.whole_program_optimization == (lowered@ == "release"@),
        r.optimization@ == (if lowered@ == "release"@ {
            "MaxSpeed"@
        } else {
            "Disabled"@
        }),
{
    let release = str_is(lowered, "release");
    ConfigurationSettings {
        use_debug_libraries: str_is(lowered, "debug"),
        whole_program_optimization: release,
        optimization: if release {
            "MaxSpeed"
        } else {
            "Disabled"
        },
    }
}

/// The lines of one block of kind `kind` for the pair (`c`, `pl`).
#[verifier::rlimit(40)]
fn block(kind: BlockKind, p: &Project, s: &VsSettings, guid: &str, c: &String, pl: &String) -> (r: Vec<String>)
    requires
        settings_of(*s, *p),
    ensures
        views(r@) == block_spec(kind, *p, guid@, c@, pl@),
{
    let mut cp = concat3(c.as_str(), "|", pl.as_str());
    let mut v: Vec<String> = Vec::new();
    match kind {
        BlockKind::SolutionEntry => {
            let mut l = concat3("        ", cp.as_str(), " = ");
            l.append(cp.as_str());
            v.push(l);
        },
        BlockKind::ProjectPlatforms => {
            let mut a = concat3("        {", guid, "}.");
            a.append(cp.as_str());
            a.append(".ActiveCfg = ");
            a.append(cp.as_str());
            v.push(a);
            let mut b = concat3("        {", guid, "}.");
            b.append(cp.as_str());
            b.append(".Build.0 = ");
            b.append(cp.as_str());
            v.push(b);
        },
        BlockKind::ProjectConfiguration => {
            v.push(tagged("    <ProjectConfiguration Include=\"", cp.as_str(), "\">"));
            v.push(tagged("      <Configuration>", c.as_str(), "</Configuration>"));
            v.push(tagged("      <Platform>", pl.as_str(), "</Platform>"));
            v.push(String::from_str("    </ProjectConfiguration>"));
        },
        BlockKind::PropertyGroup => {
            let lower = lowercase(c.as_str());
            let cs = configuration_settings(lower.as_str());
            let cond = condition(c, pl);
            v.push(tagged("  <PropertyGroup Condition=\"", cond.as_str(), "\" Label=\"Configuration\">"));
            v.push(tagged("    <ConfigurationType>", s.config_type, "</ConfigurationType>"));
            v.push(tagged("    <UseDebugLibraries>", flag_text(cs.use_debug_libraries), "</UseDebugLibraries>"));
            v.push(tagged("    <PlatformToolset>", s.toolset, "</PlatformToolset>"));
            v.push(tagged(
                "    <WholeProgramOptimization>",
                flag_text(cs.whole_program_optimization),
                "</WholeProgramOptimization>",
            ));
            v.push(tagged("    <CharacterSet>", p.character_set.as_str(), "</CharacterSet>"));
            v.push(String::from_str("  </PropertyGroup>"));
        },
        BlockKind::PropertySheet => {
            let cond = condition(c, pl);
            v.push(tagged("  <ImportGroup Label=\"PropertySheets\" Condition=\"", cond.as_str(), "\">"));
            v.push(String::from_str("    <Import Project=\"$(UserRootDir)\\Microsoft.Cpp.$(Platform).user.props\""));
            v.push(String::from_str(
                "            Condition=\"exists('$(UserRootDir)\\Microsoft.Cpp.$(Platform).user.props')\"",
            ));
            v.push(String::from_str("            Label=\"LocalAppDataPlatform\" />"));
            v.push(String::from_str("  </ImportGroup>"));
        },
        BlockKind::ItemDefinition => {
            let lower = lowercase(c.as_str());
            let optimization = configuration_settings(lower.as_str()).optimization;
            let cond = condition(c, pl);
            v.push(tagged("  <ItemDefinitionGroup Condition=\"", cond.as_str(), "\">"));
            v.push(String::from_str("    <ClCompile>"));
            v.push(String::from_str("      <WarningLevel>Level3</WarningLevel>"));
            v.push(tagged("      <Optimization>", optimization, "</Optimization>"));
            v.push(tagged("      <PreprocessorDefinitions>", s.definitions.as_str(), "</PreprocessorDefinitions>"));
            v.push(tagged(
                "      <AdditionalIncludeDirectories>",
                s.includes.as_str(),
                ";%(AdditionalIncludeDirectories)</AdditionalIncludeDirectories>",
            ));
            v.push(tagged("      <AdditionalOptions>", s.compiler_flags.as_str(), " %(AdditionalOptions)</AdditionalOptions>"));
            v.push(tagged("      <LanguageStandard>", s.standard, "</LanguageStandard>"));
            v.push(String::from_str("    </ClCompile>"));
            v.push(String::from_str("    <Link>"));
            v.push(tagged("      <SubSystem>", s.subsystem, "</SubSystem>"));
            v.push(String::from_str("      <GenerateDebugInformation>true</GenerateDebugInformation>"));
            v.push(tagged(
                "      <AdditionalLibraryDirectories>",
                s.lib_dirs.as_str(),
                ";%(AdditionalLibraryDirectories)</AdditionalLibraryDirectories>",
            ));
            v.push(tagged("      <AdditionalDependencies>", s.libraries.as_str(), "</AdditionalDependencies>"));
            v.push(tagged("      <AdditionalOptions>", s.linker_flags.as_str(), " %(AdditionalOptions)</AdditionalOptions>"));
            v.push(String::from_str("    </Link>"));
            v.push(String::from_str("  </ItemDefinitionGroup>"));
        },
    }
    assert(views(v@) =~= block_spec(kind, *p, guid@, c@, pl@));
    v
}

/// One block of kind `kind` per pair, in pair order.
pub open spec fn block_seq(kind: BlockKind, p: Project, guid: Seq<char>, pairs: Seq<(Seq<char>, Seq<char>)>) -> Seq<Seq<Seq<char>>> {
    pairs.map_values(|q: (Seq<char>, Seq<char>)| block_spec(kind, p, guid, q.0, q.1))
}

/// The lines of the solution file.
pub open spec fn solution_spec(p: Project, guid: Seq<char>) -> Seq<Seq<char>> {
    seq![
        "Microsoft Visual Studio Solution File, Format Version 12.00"@,
        vs_version_line(p.visual_studio_version@),
        "Project(\"{8BC9CEB8-8B4A-11D0-8D11-00A0C91BC942}\") = \""@ + p.name@ + "\", \""@ + p.name@
            + ".vcxproj\", \"{"@ + guid + "}\""@,
        "EndProject"@,
        "Global"@,
        "    GlobalSection(SolutionConfigurationPlatforms) = preSolution"@,
    ] + flat(blocks_spec(BlockKind::SolutionEntry, p, guid)) + seq![
        "    EndGlobalSection"@,
        "    GlobalSection(ProjectConfigurationPlatforms) = postSolution"@,
    ] + flat(blocks_spec(BlockKind::ProjectPlatforms, p, guid)) + seq!["    EndGlobalSection"@, "EndGlobal"@]
}

/// The name of the built binary: the explicit one, else the project's name.
pub open spec fn output_name_of(p: Project) -> Seq<char> {
    match p.output_name {
        Some(n) => n@,
        None => p.name@,
    }
}

/// The lines of the project file; `dir` is the absolute directory of the project.
pub open spec fn project_file_spec(p: Project, guid: Seq<char>, dir: Seq<char>) -> Seq<Seq<char>> {
    let out = p.structure.output_dir@;
    let oname = output_name_of(p);
    seq![
        "<Project DefaultTargets=\"Build\" xmlns=\"http://schemas.microsoft.com/developer/msbuild/2003\">"@,
        "  <ItemGroup Label=\"ProjectConfigurations\">"@,
    ] + flat(blocks_spec(BlockKind::ProjectConfiguration, p, guid)) + seq![
        "  </ItemGroup>"@,
        "  <PropertyGroup Label=\"Globals\">"@,
        "    <ProjectGuid>{"@ + guid + "}</ProjectGuid>"@,
        "    <RootNamespace>"@ + p.name@ + "</RootNamespace>"@,
        "    <WindowsTargetPlatformVersion>10.0</WindowsTargetPlatformVersion>"@,
        "  </PropertyGroup>"@,
        "  <Import Project=\"$(VCTargetsPath)\\Microsoft.Cpp.Default.props\" />"@,
    ] + flat(blocks_spec(BlockKind::PropertyGroup, p, guid)) + seq![
        "  <Import Project=\"$(VCTargetsPath)\\Microsoft.Cpp.props\" />"@,
        "  <ImportGroup Label=\"ExtensionSettings\">"@,
        "  </ImportGroup>"@,
        "  <ImportGroup Label=\"Shared\">"@,
        "  </ImportGroup>"@,
    ] + flat(blocks_spec(BlockKind::PropertySheet, p, guid)) + seq![
        "  <PropertyGroup Label=\"UserMacros\" />"@,
        "  <PropertyGroup>"@,
        "    <OutDir>"@ + dir + "\\\\"@ + out + "\\\\</OutDir>"@,
        "    <IntDir>"@ + dir + "\\\\"@ + out + "\\\\Intermediate\\\\</IntDir>"@,
        "    <TargetName>"@ + oname + "</TargetName>"@,
        "    <TargetPath>"@ + dir + "\\\\"@ + out + "\\\\"@ + oname + ".exe</TargetPath>"@,
        "    <LinkIncremental>false</LinkIncremental>"@,
        "  </PropertyGroup>"@,
    ] + flat(blocks_spec(BlockKind::ItemDefinition, p, guid)) + seq![
        "  <ItemGroup>"@,
        "    <ClCompile Include=\""@ + p.structure.src_dir@ + "\\\\**\\\\*.cpp\" />"@,
        "  </ItemGroup>"@,
        "  <ItemGroup>"@,
        "    <ClInclude Include=\""@ + p.structure.include_dir@ + "\\\\**\\\\*.h\" />"@,
        "  </ItemGroup>"@,
        "  <Import Project=\"$(VCTargetsPath)\\Microsoft.Cpp.targets\" />"@,
        "  <ImportGroup Label=\"ExtensionTargets\">"@,
        "  </ImportGroup>"@,
        "</Project>"@,
    ]
}

/// Every (configuration, platform) pair, platform-major.
fn pairs_of(platforms: &Vec<String>, configs: &Vec<String>) -> (r: Vec<(String, String)>)
    ensures
        pair_views(r@) == config_pairs(views(platforms@), views(configs@)),
{
    let ghost cf = views(configs@);
    let mut out: Vec<(String, String)> = Vec::new();
    let mut i: usize = 0;
    while i < platforms.len()
        invariant
            i <= platforms@.len(),
            cf == views(configs@),
            pair_views(out@) =~= config_pairs(views(platforms@.subrange(0, i as int)), cf),
        decreases platforms.len() - i,
    {
        let ghost base = out@;
        let ghost pl = platforms@[i as int]@;
        let mut j: usize = 0;
        while j < configs.len()
            invariant
                i < platforms@.len(),
                j <= configs@.len(),
                cf == views(configs@),
                pl == platforms@[i as int]@,
                pair_views(out@) =~= pair_views(base) + cf.subrange(0, j as int).map_values(
                    |c: Seq<char>| (c, pl),
                ),
            decreases configs.len() - j,
        {
            let ghost prev = out@;
            out.push((configs[j].clone(), platforms[i].clone()));
            proof {
                assert(out@ == prev.push(out@.last()));
                assert(pair_views(out@) =~= pair_views(prev).push((configs@[j as int]@, pl)));
                assert(cf.subrange(0, j + 1).map_values(|c: Seq<char>| (c, pl)) =~= cf.subrange(
                    0,
                    j as int,
                ).map_values(|c: Seq<char>| (c, pl)).push((cf[j as int], pl)));
            }
            j = j + 1;
        }
        proof {
            let sub = views(platforms@.subrange(0, i + 1));
            assert(sub.drop_last() =~= views(platforms@.subrange(0, i as int)));
            assert(sub.last() == pl);
            assert(cf.subrange(0, configs@.len() as int) =~= cf);
        }
        i = i + 1;
    }
    assert(platforms@.subrange(0, platforms@.len() as int) =~= platforms@);
    out
}

/// The blocks of kind `kind` for each pair, one after another.
fn blocks(kind: BlockKind, p: &Project, s: &VsSettings, guid: &str, pairs: &Vec<(String, String)>) -> (r: Vec<String>)
    requires
        settings_of(*s, *p),
    ensures
        views(r@) == flat(block_seq(kind, *p, guid@, pair_views(pairs@))),
{
    let mut out: Vec<String> = Vec::new();
    let mut i: usize = 0;
    while i < pairs.len()
        invariant
            i <= pairs@.len(),
            settings_of(*s, *p),
            views(out@) =~= flat(block_seq(kind, *p, guid@, pair_views(pairs@.subrange(0, i as int)))),
        decreases pairs.len() - i,
    {
        let mut b = block(kind, p, s, guid, &pairs[i].0, &pairs[i].1);
        let ghost prev = out@;
        let ghost bv = b@;
        out.append(&mut b);
        proof {
            let bs = block_seq(kind, *p, guid@, pair_views(pairs@.subrange(0, i + 1)));
            assert(bs.drop_last() =~= block_seq(kind, *p, guid@, pair_views(pairs@.subrange(0, i as int))));
            assert(out@ == prev + bv);
            assert(views(out@) =~= views(prev) + views(bv));
        }
        i = i + 1;
    }
    assert(pairs@.subrange(0, pairs@.len() as int) =~= pairs@);
    out
}

fn push_str(v: &mut Vec<String>, lit: &str)
    ensures
        views(final(v)@) == views(old(v)@).push(lit@),
{
    let ghost prev = v@;
    v.push(String::from_str(lit));
    assert(v@ == prev.push(v@.last()));
    assert(views(v@) =~= views(prev).push(lit@));
}

fn push_line(v: &mut Vec<String>, line: String)
    ensures
        views(final(v)@) == views(old(v)@).push(line@),
{
    let ghost prev = v@;
    v.push(line);
    assert(v@ == prev.push(v@.last()));
    assert(views(v@) =~= views(prev).push(line@));
}

fn push_all(v: &mut Vec<String>, mut more: Vec<String>)
    ensures
        views(final(v)@) == views(old(v)@) + views(more@),
{
    let ghost prev = v@;
    let ghost mv = more@;
    v.append(&mut more);
    assert(v@ == prev + mv);
    assert(views(v@) =~= views(prev) + views(mv));
}

/// The blocks of kind `kind` of a project.
fn project_blocks(kind: BlockKind, p: &Project, s: &VsSettings, guid: &str, pairs: &Vec<(String, String)>) -> (r: Vec<String>)
    requires
        settings_of(*s, *p),
        pair_views(pairs@) == project_pairs(*p),
    ensures
        views(r@) == flat(blocks_spec(kind, *p, guid@)),
{
    let r = blocks(kind, p, s, guid, pairs);
    assert(block_seq(kind, *p, guid@, pair_views(pairs@)) =~= blocks_spec(kind, *p, guid@));
    r
}

/// The lines of the solution file of a project whose identifier is `guid`.
pub fn solution_lines(project: &Project, guid: &str) -> (r: Vec<String>)
    ensures
        views(r@) == solution_spec(*project, guid@),
{
    let p = project;
    let s = settings(p);
    let pairs = pairs_of(&p.platforms, &p.configurations);
    let mut v: Vec<String> = Vec::new();
    push_str(&mut v, "Microsoft Visual Studio Solution File, Format Version 12.00");
    push_str(&mut v, version_line(p.visual_studio_version.as_str()));
    let mut head = concat3("Project(\"{8BC9CEB8-8B4A-11D0-8D11-00A0C91BC942}\") = \"", p.name.as_str(), "\", \"");
    head.append(p.name.as_str());
    head.append(".vcxproj\", \"{");
    head.append(guid);
    head.append("}\"");
    push_line(&mut v, head);
    push_str(&mut v, "EndProject");
    push_str(&mut v, "Global");
    push_str(&mut v, "    GlobalSection(SolutionConfigurationPlatforms) = preSolution");
    push_all(&mut v, project_blocks(BlockKind::SolutionEntry, p, &s, guid, &pairs));
    push_str(&mut v, "    EndGlobalSection");
    push_str(&mut v, "    GlobalSection(ProjectConfigurationPlatforms) = postSolution");
    push_all(&mut v, project_blocks(BlockKind::ProjectPlatforms, p, &s, guid, &pairs));
    push_str(&mut v, "    EndGlobalSection");
    push_str(&mut v, "EndGlobal");
    assert(views(v@) =~= solution_spec(*p, guid@));
    v
}

/// The lines of the project file of a project whose identifier is `guid` and whose
/// absolute directory is `solution_dir`.
pub fn project_file_lines(project: &Project, guid: &str, solution_dir: &str) -> (r: Vec<String>)
    requires
        project.wf(),
    ensures
        views(r@) == project_file_spec(*project, guid@, solution_dir@),
{
    let p = project;
    let s = settings(p);
    let pairs = pairs_of(&p.platforms, &p.configurations);
    let out = p.structure.output_dir.as_str();
    let oname = match &p.output_name {
        Some(n) => n.as_str(),
        None => p.name.as_str(),
    };
    let mut v: Vec<String> = Vec::new();
    push_str(&mut v, "<Project DefaultTargets=\"Build\" xmlns=\"http://schemas.microsoft.com/developer/msbuild/2003\">");
    push_str(&mut v, "  <ItemGroup Label=\"ProjectConfigurations\">");
    push_all(&mut v, project_blocks(BlockKind::ProjectConfiguration, p, &s, guid, &pairs));
    push_str(&mut v, "  </ItemGroup>");
    push_str(&mut v, "  <PropertyGroup Label=\"Globals\">");
    push_line(&mut v, tagged("    <ProjectGuid>{", guid, "}</ProjectGuid>"));
    push_line(&mut v, tagged("    <RootNamespace>", p.name.as_str(), "</RootNamespace>"));
    push_str(&mut v, "    <WindowsTargetPlatformVersion>10.0</WindowsTargetPlatformVersion>");
    push_str(&mut v, "  </PropertyGroup>");
    push_str(&mut v, "  <Import Project=\"$(VCTargetsPath)\\Microsoft.Cpp.Default.props\" />");
    push_all(&mut v, project_blocks(BlockKind::PropertyGroup, p, &s, guid, &pairs));
    push_str(&mut v, "  <Import Project=\"$(VCTargetsPath)\\Microsoft.Cpp.props\" />");
    push_str(&mut v, "  <ImportGroup Label=\"ExtensionSettings\">");
    push_str(&mut v, "  </ImportGroup>");
    push_str(&mut v, "  <ImportGroup Label=\"Shared\">");
    push_str(&mut v, "  </ImportGroup>");
    push_all(&mut v, project_blocks(BlockKind::PropertySheet, p, &s, guid, &pairs));
    push_str(&mut v, "  <PropertyGroup Label=\"UserMacros\" />");
    push_str(&mut v, "  <PropertyGroup>");
    let mut od = concat3("    <OutDir>", solution_dir, "\\\\");
    od.append(out);
    od.append("\\\\</OutDir>");
    push_line(&mut v, od);
    let mut id = concat3("    <IntDir>", solution_dir, "\\\\");
    id.append(out);
    id.append("\\\\Intermediate\\\\</IntDir>");
    push_line(&mut v, id);
    push_line(&mut v, tagged("    <TargetName>", oname, "</TargetName>"));
    let mut tp = concat3("    <TargetPath>", solution_dir, "\\\\");
    tp.append(out);
    tp.append("\\\\");
    tp.append(oname);
    tp.append(".exe</TargetPath>");
    push_line(&mut v, tp);
    push_str(&mut v, "    <LinkIncremental>false</LinkIncremental>");
    push_str(&mut v, "  </PropertyGroup>");
    push_all(&mut v, project_blocks(BlockKind::ItemDefinition, p, &s, guid, &pairs));
    push_str(&mut v, "  <ItemGroup>");
    push_line(&mut v, tagged("    <ClCompile Include=\"", p.structure.src_dir.as_str(), "\\\\**\\\\*.cpp\" />"));
    push_str(&mut v, "  </ItemGroup>");
    push_str(&mut v, "  <ItemGroup>");
    push_line(&mut v, tagged("    <ClInclude Include=\"", p.structure.include_dir.as_str(), "\\\\**\\\\*.h\" />"));
    push_str(&mut v, "  </ItemGroup>");
    push_str(&mut v, "  <Import Project=\"$(VCTargetsPath)\\Microsoft.Cpp.targets\" />");
    push_str(&mut v, "  <ImportGroup Label=\"ExtensionTargets\">");
    push_str(&mut v, "  </ImportGroup>");
    push_str(&mut v, "</Project>");
    assert(views(v@) =~= project_file_spec(*p, guid@, solution_dir@));
    v
}

/// The project-configuration entries of the project file.
pub fn generate_project_configurations(project: &Project) -> (r: String)
    ensures
        r@ == lines_text(flat(blocks_spec(BlockKind::ProjectConfiguration, *project, ""@))),
{
    let s = settings(project);
    let pairs = pairs_of(&project.platforms, &project.configurations);
    let lines = project_blocks(BlockKind::ProjectConfiguration, project, &s, "", &pairs);
    render_lines(&lines)
}

/// The property-sheet imports of the project file.
pub fn generate_property_sheets(project: &Project) -> (r: String)
    ensures
        r@ == lines_text(flat(blocks_spec(BlockKind::PropertySheet, *project, ""@))),
{
    let s = settings(project);
    let pairs = pairs_of(&project.platforms, &project.configurations);
    let lines = project_blocks(BlockKind::PropertySheet, project, &s, "", &pairs);
    render_lines(&lines)
}

/// A lower-case hexadecimal digit.
pub open spec fn is_lower_hex(c: char) -> bool {
    ('0' <= c && c <= '9') || ('a' <= c && c <= 'f')
}

/// `s` is a random (version 4) identifier in lower-case hyphenated form.
pub open spec fn is_v4_identifier(s: Seq<char>) -> bool {
    &&& s.len() == 36
    &&& s[8] == '-' && s[13] == '-' && s[18] == '-' && s[23] == '-'
    &&& s[14] == '4'
    &&& forall|i: int| 0 <= i < 36 && i != 8 && i != 13 && i != 18 && i != 23 ==> is_lower_hex(#[trigger] s[i])
}

/// Relies on uuid's `Uuid::new_v4` for a fresh random identifier, and on its
/// hyphenated `Display`: 36 lower-case hexadecimal digits and hyphens, with the
/// version digit `4`.
#[verifier::external_body]
fn new_project_guid() -> (r: String)
    ensures
        is_v4_identifier(r@),
{
    uuid::Uuid::new_v4().hyphenated().to_string()
}

/// The two files of the IDE-style artifact and the identifier that they share.
pub struct VsFiles {
    pub guid: String,
    pub solution: String,
    pub project: String,
}

/// The IDE-style artifact of a project for a given identifier.
pub fn visual_studio_files(project: &Project, guid: &str, solution_dir: &str) -> (r: VsFiles)
    requires
        project.wf(),
    ensures
        r.guid@ == guid@,
        r.solution@ == lines_text(solution_spec(*project, guid@)),
        r.project@ == lines_text(project_file_spec(*project, guid@, solution_dir@)),
{
    let sln = solution_lines(project, guid);
    let proj = project_file_lines(project, guid, solution_dir);
    VsFiles { guid: String::from_str(guid), solution: render_lines(&sln), project: render_lines(&proj) }
}

/// The IDE-style artifact of a project under a freshly drawn identifier.
pub fn generate_visual_studio(project: &Project, solution_dir: &str) -> (r: VsFiles)
    requires
        project.wf(),
    ensures
        is_v4_identifier(r.guid@),
        r.solution@ == lines_text(solution_spec(*project, r.guid@)),
        r.project@ == lines_text(project_file_spec(*project, r.guid@, solution_dir@)),
{
    let guid = new_project_guid();
    visual_studio_files(project, guid.as_str(), solution_dir)
}

proof fn lemma_flat_len(blocks: Seq<Seq<Seq<char>>>, l: nat)
    requires
        forall|i: int| 0 <= i < blocks.len() ==> #[trigger] blocks[i].len() == l,
    ensures
        flat(blocks).len() == blocks.len() * l,
    decreases blocks.len(),
{
    if blocks.len() > 0 {
        lemma_flat_len(blocks.drop_last(), l);
        let n = blocks.len() as int;
        assert((n - 1) * l + l == n * l) by (nonlinear_arith);
    }
}

/// For N platforms and M configurations the solution file lists N×M
/// configuration-platform entries, and the project file holds N×M property groups
/// and N×M compile-and-link definition groups, one of each per pair.
pub proof fn lemma_cross_product_blocks(p: Project, guid: Seq<char>)
    ensures
        project_pairs(p).len() == p.platforms@.len() * p.configurations@.len(),
        flat(blocks_spec(BlockKind::SolutionEntry, p, guid)).len() == p.platforms@.len() * p.configurations@.len(),
        blocks_spec(BlockKind::PropertyGroup, p, guid).len() == p.platforms@.len() * p.configurations@.len(),
        blocks_spec(BlockKind::ItemDefinition, p, guid).len() == p.platforms@.len() * p.configurations@.len(),
        blocks_spec(BlockKind::ProjectConfiguration, p, guid).len() == p.platforms@.len() * p.configurations@.len(),
{
    lemma_config_pairs_len(views(p.platforms@), views(p.configurations@));
    let b = blocks_spec(BlockKind::SolutionEntry, p, guid);
    assert forall|i: int| 0 <= i < b.len() implies #[trigger] b[i].len() == 1 by {}
    lemma_flat_len(b, 1);
}

proof fn lemma_config_pair_at(platforms: Seq<Seq<char>>, configs: Seq<Seq<char>>, k: int)
    requires
        0 <= k < platforms.len() * configs.len(),
    ensures
        configs.len() > 0,
        0 <= k / (configs.len() as int) < platforms.len(),
        0 <= k % (configs.len() as int) < configs.len(),
        config_pairs(platforms, configs)[k] == (
            configs[k % (configs.len() as int)],
            platforms[k / (configs.len() as int)],
        ),
    decreases platforms.len(),
{
    let n = platforms.len() as int;
    let m = configs.len() as int;
    assert(n > 0 && m > 0) by (nonlinear_arith)
        requires
            0 <= k < n * m,
            n >= 0,
            m >= 0,
    ;
    lemma_config_pairs_len(platforms.drop_last(), configs);
    assert((n - 1) * m + m == n * m) by (nonlinear_arith);
    if k < (n - 1) * m {
        lemma_config_pair_at(platforms.drop_last(), configs, k);
    } else {
        let i = k - (n - 1) * m;
        lemma_fundamental_div_mod_converse(k, m, n - 1, i);
    }
}

proof fn lemma_flat_single_lines(blocks: Seq<Seq<Seq<char>>>, k: int)
    requires
        forall|i: int| 0 <= i < blocks.len() ==> #[trigger] blocks[i].len() == 1,
        0 <= k < blocks.len(),
    ensures
        flat(blocks)[k] == blocks[k][0],
    decreases blocks.len(),
{
    let b = blocks.drop_last();
    assert forall|i: int| 0 <= i < b.len() implies #[trigger] b[i].len() == 1 by {
        assert(b[i] == blocks[i]);
    }
    lemma_flat_len(b, 1);
    if k < blocks.len() - 1 {
        lemma_flat_single_lines(b, k);
    }
}

/// With M configurations, the `k`-th pair of a project, the `k`-th entry of the
/// solution's configuration section and the `k`-th property group and
/// compile-and-link definition group of the project file are all for
/// configuration `k mod M` on platform `k div M`: platforms in declared order, and
/// for each platform its configurations in declared order.
pub proof fn lemma_cross_product_order(p: Project, guid: Seq<char>, k: int)
    requires
        0 <= k < p.platforms@.len() * p.configurations@.len(),
    ensures
        ({
            let m = p.configurations@.len() as int;
            let c = p.configurations@[k % m]@;
            let pl = p.platforms@[k / m]@;
            &&& project_pairs(p)[k] == (c, pl)
            &&& flat(blocks_spec(BlockKind::SolutionEntry, p, guid))[k] == "        "@ + (c + "|"@ + pl) + " = "@ + (c
                + "|"@ + pl)
            &&& blocks_spec(BlockKind::PropertyGroup, p, guid)[k] == block_spec(BlockKind::PropertyGroup, p, guid, c, pl)
            &&& blocks_spec(BlockKind::ItemDefinition, p, guid)[k] == block_spec(BlockKind::ItemDefinition, p, guid, c, pl)
        }),
{
    let pls = views(p.platforms@);
    let cfs = views(p.configurations@);
    lemma_config_pair_at(pls, cfs, k);
    lemma_config_pairs_len(pls, cfs);
    let b = blocks_spec(BlockKind::SolutionEntry, p, guid);
    assert forall|i: int| 0 <= i < b.len() implies #[trigger] b[i].len() == 1 by {}
    lemma_flat_single_lines(b, k);
}

} // verus!
