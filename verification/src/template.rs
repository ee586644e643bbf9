//! Decisions taken while a new parachain project is set up from a template.

use vstd::prelude::*;
use vstd::string::*;

verus! {

/// Where the container-chain templates live.
pub const TANSSI_REPOSITORY: &'static str = "https://github.com/moondance-labs/tanssi";

/// How a template becomes a project.
#[derive(Debug, Clone, Copy, PartialEq, Eq, Structural)]
pub enum Strategy {
    /// Clone, copy everything over, then write chain spec and network configuration.
    Standard,
    /// Clone, extract node and runtime, then merge the workspace dependencies.
    Tanssi,
    /// Clone and strip the history, nothing more.
    Clone,
}

/// Picks the strategy by who provides the template; the first provider asked wins.
pub fn strategy_for(provided_by_pop: bool, provided_by_tanssi: bool) -> (strategy: Strategy)
    ensures
        provided_by_pop ==> strategy == Strategy::Standard,
        !provided_by_pop && provided_by_tanssi ==> strategy == Strategy::Tanssi,
        !provided_by_pop && !provided_by_tanssi ==> strategy == Strategy::Clone,
{
    if provided_by_pop {
        Strategy::Standard
    } else if provided_by_tanssi {
        Strategy::Tanssi
    } else {
        Strategy::Clone
    }
}

/// Where a workspace dependency comes from.
#[derive(Debug, PartialEq, Eq)]
pub struct DependencySource {
    pub path: Option<String>,
    pub git: Option<String>,
    pub tag: Option<String>,
}

pub struct DependencySourceView {
    pub path: Option<Seq<char>>,
    pub git: Option<Seq<char>>,
    pub tag: Option<Seq<char>>,
}

impl View for DependencySource {
    type V = DependencySourceView;

    open spec fn view(&self) -> DependencySourceView {
        DependencySourceView {
            path: crate::cli::text_of(self.path),
            git: crate::cli::text_of(self.git),
            tag: crate::cli::text_of(self.tag),
        }
    }
}

/// A dependency that was local to the template's repository is taken from that
/// repository at `tag` instead; any other stays as it is.
pub open spec fn upstream(source: DependencySourceView, tag: Seq<char>) -> DependencySourceView {
    if source.path is Some {
        DependencySourceView { path: None, git: Some(TANSSI_REPOSITORY@), tag: Some(tag) }
    } else {
        source
    }
}

/// Re-points a dependency of the template's workspace for use outside of it.
pub fn upstream_dependency(source: DependencySource, tag: &str) -> (out: DependencySource)
    ensures
        out@ == upstream(source@, tag@),
{
    if source.path.is_some() {
        DependencySource {
            path: None,
            git: Some(String::from_str(TANSSI_REPOSITORY)),
            tag: Some(String::from_str(tag)),
        }
    } else {
        source
    }
}

/// The project's own runtime is taken from the `runtime` directory beside it.
pub fn local_runtime() -> (out: DependencySource)
    ensures
        out@ == (DependencySourceView { path: Some("runtime"@), git: None, tag: None }),
{
    DependencySource { path: Some(String::from_str("runtime")), git: None, tag: None }
}

/// The directory of `template` below `directory` in the templates' repository.
pub fn template_directory(directory: &str, template: &str) -> (path: String)
    ensures
        path@ == directory@ + "/"@ + template@,
{
    String::from_str(directory).concat("/").concat(template)
}

/// The name of the node of a container chain made from `template`.
pub fn container_node_name(template: &str) -> (name: String)
    ensures
        name@ == "container-chain-"@ + template@ + "-node"@,
{
    String::from_str("container-chain-").concat(template).concat("-node")
}

/// The name of the runtime package of a container chain made from `template`.
pub fn container_runtime_name(template: &str) -> (name: String)
    ensures
        name@ == "container-chain-template-"@ + template@ + "-runtime"@,
{
    String::from_str("container-chain-template-").concat(template).concat("-runtime")
}

} // verus!
