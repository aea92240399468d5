use vstd::prelude::*;
use crate::project::{Dependency, Project};
use crate::text::concat3;

verus! {

/// Where one package version is fetched from, where its archive is kept, and where
/// it is unpacked.
#[derive(Clone, Debug)]
pub struct PackageInstall {
    pub name: String,
    pub version: String,
    pub url: String,
    pub archive: String,
    pub extract_to: String,
}

pub open spec fn package_url(name: Seq<char>, version: Seq<char>) -> Seq<char> {
    "http://example.com/packages/"@ + name + "/"@ + version + ".zip"@
}

pub open spec fn package_archive(name: Seq<char>, version: Seq<char>) -> Seq<char> {
    "deps/"@ + name + "_"@ + version + ".zip"@
}

pub open spec fn package_dir(name: Seq<char>) -> Seq<char> {
    "deps/"@ + name
}

/// The install of `name` at `version` is described by `i`.
pub open spec fn describes(i: PackageInstall, name: Seq<char>, version: Seq<char>) -> bool {
    &&& i.name@ == name
    &&& i.version@ == version
    &&& i.url@ == package_url(name, version)
    &&& i.archive@ == package_archive(name, version)
    &&& i.extract_to@ == package_dir(name)
}

/// The directory a package is unpacked into.
pub fn package_directory(package: &str) -> (r: String)
    ensures
        r@ == package_dir(package@),
{
    let mut s = String::from_str("deps/");
    s.append(package);
    s
}

/// How to install one package version.
pub fn install_package(package: &str, version: &str) -> (r: PackageInstall)
    ensures
        describes(r, package@, version@),
{
    let mut url = concat3("http://example.com/packages/", package, "/");
    url.append(version);
    url.append(".zip");
    let mut archive = concat3("deps/", package, "_");
    archive.append(version);
    archive.append(".zip");
    PackageInstall {
        name: String::from_str(package),
        version: String::from_str(version),
        url,
        archive,
        extract_to: package_directory(package),
    }
}

/// How to install every dependency of a project, in declared order; the installs
/// are meant to run in this order and stop at the first that fails.
pub fn install_project_dependencies(project: &Project) -> (r: Vec<PackageInstall>)
    requires
        project.wf(),
    ensures
        r@.len() == project.dependencies@.len(),
        forall|k: int|
            0 <= k < r@.len() ==> describes(
                #[trigger] r@[k],
                project.dependencies@[k].name@,
                project.dependencies@[k].version@,
            ),
{
    let deps: &Vec<Dependency> = &project.dependencies;
    let mut out: Vec<PackageInstall> = Vec::new();
    let mut i: usize = 0;
    while i < deps.len()
        invariant
            i <= deps@.len(),
            deps@ == project.dependencies@,
            out@.len() == i,
            forall|k: int| 0 <= k < i ==> describes(#[trigger] out@[k], deps@[k].name@, deps@[k].version@),
        decreases deps.len() - i,
    {
        out.push(install_package(deps[i].name.as_str(), deps[i].version.as_str()));
        i = i + 1;
    }
    out
}

} // verus!
