// A build orchestrator for native projects: it orders a batch of project
// descriptors so that dependencies come first, renders each project's build
// configuration (a Makefile, or an IDE solution and project file), plans the
// installs of its dependencies and the external build step, and runs the batch
// as a state machine in which one project's failure does not stop the others.
use vstd::prelude::*;

pub mod compiler;
pub mod makefile;
pub mod orchestrator;
pub mod packages;
pub mod project;
pub mod resolver;
pub mod text;
pub mod vs;

verus! {

} // verus!
