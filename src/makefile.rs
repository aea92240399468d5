use vstd::prelude::*;
use crate::compiler::{compiler_entry, Compiler};
use crate::project::{kind_of, project_kind, unique_names, Dependency, Project, ProjectKind};
use crate::text::{concat2, concat3, join, join_strings, lines_text, render_lines, str_is, views};

verus! {

/// Each name between `pre` and `suf`.
pub open spec fn wrap_all(names: Seq<Seq<char>>, pre: Seq<char>, suf: Seq<char>) -> Seq<Seq<char>> {
    names.map_values(|d: Seq<char>| pre + d + suf)
}

/// The names of a list of dependencies, in order.
pub open spec fn names_of(deps: Seq<Dependency>) -> Seq<Seq<char>> {
    deps.map_values(|d: Dependency| d.name@)
}

/// The compiler's `-std=` token for a language tag; unknown tags get C11.
pub open spec fn make_standard(language: Seq<char>) -> Seq<char> {
    if language == "C89"@ {
        "c89"@
    } else if language == "C99"@ {
        "c99"@
    } else if language == "C17"@ {
        "c17"@
    } else if language == "C++98"@ {
        "c++98"@
    } else if language == "C++11"@ {
        "c++11"@
    } else if language == "C++14"@ {
        "c++14"@
    } else if language == "C++17"@ {
        "c++17"@
    } else if language == "C++20"@ {
        "c++20"@
    } else if language == "C++23"@ {
        "c++23"@
    } else {
        "c11"@
    }
}

/// One `-l<name>` per dependency.
pub open spec fn lib_flags(deps: Seq<Dependency>) -> Seq<char> {
    join(wrap_all(names_of(deps), "-l"@, ""@), " "@)
}

/// The project's own include directory, then `deps/<name>/include` per dependency.
pub open spec fn include_flags(p: Project) -> Seq<char> {
    join(
        seq!["-I"@ + p.name@ + "/"@ + p.structure.include_dir@]
            + wrap_all(names_of(p.dependencies@), "-Ideps/"@, "/include"@),
        " "@,
    )
}

/// The project's own library directory, then `deps/<name>/lib` per dependency.
pub open spec fn lib_path_flags(p: Project) -> Seq<char> {
    join(
        seq!["-L"@ + p.name@ + "/lib"@] + wrap_all(names_of(p.dependencies@), "-Ldeps/"@, "/lib"@),
        " "@,
    )
}

/// The command of the default rule that produces the target from the objects.
pub open spec fn link_step(kind: ProjectKind) -> Seq<char> {
    match kind {
        ProjectKind::StaticLibrary => "\tar rcs $@ $^"@,
        ProjectKind::SharedLibrary => "\t$(CC) $(CFLAGS) $(INCLUDES) $(LIBPATHS) -shared -o $@ $^ $(LIBS)"@,
        ProjectKind::Executable => "\t$(CC) $(CFLAGS) $(INCLUDES) $(LIBPATHS) -o $@ $^ $(LIBS)"@,
    }
}

/// The lines of a project's build script.
pub open spec fn makefile_spec(p: Project) -> Seq<Seq<char>> {
    seq![
        "CC="@ + compiler_entry(p.compiler@).1,
        "CFLAGS=-std="@ + make_standard(p.language@) + " -Wall -O2"@,
        "SRCS=$(wildcard "@ + p.structure.src_dir@ + "/*.c)"@,
        "OBJS=$(SRCS:.c=.o)"@,
        "LIBS="@ + lib_flags(p.dependencies@),
        "INCLUDES="@ + include_flags(p),
        "LIBPATHS="@ + lib_path_flags(p),
        "TARGET="@ + p.structure.output_dir@ + "/"@ + p.name@,
        "all: $(TARGET)"@,
        "$(TARGET): $(OBJS)"@,
        "\tmkdir -p "@ + p.structure.output_dir@,
        link_step(kind_of(p.project_type@)),
        "clean:"@,
        "\trm -f $(OBJS) $(TARGET)"@,
    ]
}

/// The text of a project's build script.
pub open spec fn makefile_text(p: Project) -> Seq<char> {
    lines_text(makefile_spec(p))
}

/// Each dependency's name between `pre` and `suf`.
pub(crate) fn wrap_names(deps: &Vec<Dependency>, pre: &str, suf: &str) -> (r: Vec<String>)
    ensures
        views(r@) == wrap_all(names_of(deps@), pre@, suf@),
{
    let mut v: Vec<String> = Vec::new();
    let mut i: usize = 0;
    while i < deps.len()
        invariant
            i <= deps@.len(),
            views(v@) =~= wrap_all(names_of(deps@.subrange(0, i as int)), pre@, suf@),
        decreases deps.len() - i,
    {
        let ghost prev = v@;
        v.push(concat3(pre, deps[i].name.as_str(), suf));
        proof {
            let w = wrap_all(names_of(deps@.subrange(0, i + 1)), pre@, suf@);
            let w0 = wrap_all(names_of(deps@.subrange(0, i as int)), pre@, suf@);
            assert(views(prev).len() == prev.len());
            assert(w0.len() == i);
            assert(prev.len() == i);
            assert(v@ == prev.push(v@.last()));
            assert forall|k: int| 0 <= k <= i implies views(v@)[k] == w[k] by {
                if k < i {
                    assert(v@[k] == prev[k]);
                    assert(views(prev)[k] == w0[k]);
                    assert(deps@.subrange(0, i + 1)[k] == deps@.subrange(0, i as int)[k]);
                }
            }
            assert(views(v@) =~= w);
        }
        i = i + 1;
    }
    assert(deps@.subrange(0, deps@.len() as int) =~= deps@);
    v
}

/// The library list of the build script.
pub fn format_dependencies(dependencies: &Vec<Dependency>) -> (r: String)
    requires
        unique_names(dependencies@),
    ensures
        r@ == lib_flags(dependencies@),
{
    let parts = wrap_names(dependencies, "-l", "");
    join_strings(&parts, " ")
}

/// The include-path list of the build script.
pub fn format_include_paths(project: &Project) -> (r: String)
    requires
        project.wf(),
    ensures
        r@ == include_flags(*project),
{
    let mut first = concat3("-I", project.name.as_str(), "/");
    first.append(project.structure.include_dir.as_str());
    let mut parts: Vec<String> = Vec::new();
    parts.push(first);
    let mut rest = wrap_names(&project.dependencies, "-Ideps/", "/include");
    parts.append(&mut rest);
    assert(views(parts@) =~= seq!["-I"@ + project.name@ + "/"@ + project.structure.include_dir@]
        + wrap_all(names_of(project.dependencies@), "-Ideps/"@, "/include"@));
    join_strings(&parts, " ")
}

/// The library-path list of the build script.
pub fn format_lib_paths(project: &Project) -> (r: String)
    requires
        project.wf(),
    ensures
        r@ == lib_path_flags(*project),
{
    let first = concat3("-L", project.name.as_str(), "/lib");
    let mut parts: Vec<String> = Vec::new();
    parts.push(first);
    let mut rest = wrap_names(&project.dependencies, "-Ldeps/", "/lib");
    parts.append(&mut rest);
    assert(views(parts@) =~= seq!["-L"@ + project.name@ + "/lib"@]
        + wrap_all(names_of(project.dependencies@), "-Ldeps/"@, "/lib"@));
    join_strings(&parts, " ")
}

/// The compiler's `-std=` token for a language tag.
pub fn map_language_standard(language: &str) -> (r: &'static str)
    ensures
        r@ == make_standard(language@),
{
    if str_is(language, "C89") {
        "c89"
    } else if str_is(language, "C99") {
        "c99"
    } else if str_is(language, "C17") {
        "c17"
    } else if str_is(language, "C++98") {
        "c++98"
    } else if str_is(language, "C++11") {
        "c++11"
    } else if str_is(language, "C++14") {
        "c++14"
    } else if str_is(language, "C++17") {
        "c++17"
    } else if str_is(language, "C++20") {
        "c++20"
    } else if str_is(language, "C++23") {
        "c++23"
    } else {
        "c11"
    }
}

/// The lines of a project's build script.
pub fn makefile_lines(project: &Project) -> (r: Vec<String>)
    requires
        project.wf(),
    ensures
        views(r@) == makefile_spec(*project),
{
    let p = project;
    let compiler = Compiler::new(p.compiler.as_str());
    let mut v: Vec<String> = Vec::new();
    v.push(concat2("CC=", compiler.command.as_str()));
    v.push(concat3("CFLAGS=-std=", map_language_standard(p.language.as_str()), " -Wall -O2"));
    v.push(concat3("SRCS=$(wildcard ", p.structure.src_dir.as_str(), "/*.c)"));
    v.push(String::from_str("OBJS=$(SRCS:.c=.o)"));
    let libs = format_dependencies(&p.dependencies);
    v.push(concat2("LIBS=", libs.as_str()));
    let includes = format_include_paths(p);
    v.push(concat2("INCLUDES=", includes.as_str()));
    let lib_paths = format_lib_paths(p);
    v.push(concat2("LIBPATHS=", lib_paths.as_str()));
    let mut target = concat3("TARGET=", p.structure.output_dir.as_str(), "/");
    target.append(p.name.as_str());
    v.push(target);
    v.push(String::from_str("all: $(TARGET)"));
    v.push(String::from_str("$(TARGET): $(OBJS)"));
    v.push(concat2("\tmkdir -p ", p.structure.output_dir.as_str()));
    let link = match project_kind(&p.project_type) {
        ProjectKind::StaticLibrary => String::from_str("\tar rcs $@ $^"),
        ProjectKind::SharedLibrary => String::from_str(
            "\t$(CC) $(CFLAGS) $(INCLUDES) $(LIBPATHS) -shared -o $@ $^ $(LIBS)",
        ),
        ProjectKind::Executable => String::from_str("\t$(CC) $(CFLAGS) $(INCLUDES) $(LIBPATHS) -o $@ $^ $(LIBS)"),
    };
    v.push(link);
    v.push(String::from_str("clean:"));
    v.push(String::from_str("\trm -f $(OBJS) $(TARGET)"));
    assert(views(v@) =~= makefile_spec(*p));
    v
}

/// The text of a project's build script, as it is written to `<name>/Makefile`.
pub fn generate_makefile(project: &Project) -> (r: String)
    requires
        project.wf(),
    ensures
        r@ == makefile_text(*project),
{
    let lines = makefile_lines(project);
    render_lines(&lines)
}

/// The link step of the build script follows the project's kind: the archive tool
/// for a static library, shared-object flags for a shared library, a plain link
/// for an executable.
pub proof fn lemma_link_step_follows_kind(p: Project)
    ensures
        makefile_spec(p)[11] == link_step(p.kind()),
        p.kind() == ProjectKind::StaticLibrary ==> makefile_spec(p)[11] == "\tar rcs $@ $^"@,
        p.kind() == ProjectKind::SharedLibrary ==> makefile_spec(p)[11]
            == "\t$(CC) $(CFLAGS) $(INCLUDES) $(LIBPATHS) -shared -o $@ $^ $(LIBS)"@,
        p.kind() == ProjectKind::Executable ==> makefile_spec(p)[11]
            == "\t$(CC) $(CFLAGS) $(INCLUDES) $(LIBPATHS) -o $@ $^ $(LIBS)"@,
{
}

} // verus!
