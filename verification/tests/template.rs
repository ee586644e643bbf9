use pop_cli::template::{
    container_node_name, container_runtime_name, local_runtime, strategy_for, template_directory,
    upstream_dependency, DependencySource, Strategy, TANSSI_REPOSITORY,
};

#[test]
fn first_provider_wins() {
    assert_eq!(strategy_for(true, false), Strategy::Standard);
    assert_eq!(strategy_for(true, true), Strategy::Standard);
    assert_eq!(strategy_for(false, true), Strategy::Tanssi);
    assert_eq!(strategy_for(false, false), Strategy::Clone);
}

#[test]
fn local_dependency_is_taken_from_upstream() {
    let local = DependencySource {
        path: Some("../primitives".to_string()),
        git: None,
        tag: None,
    };
    let out = upstream_dependency(local, "v0.7.0");
    assert_eq!(
        out,
        DependencySource {
            path: None,
            git: Some("https://github.com/moondance-labs/tanssi".to_string()),
            tag: Some("v0.7.0".to_string()),
        }
    );
    assert_eq!(TANSSI_REPOSITORY, "https://github.com/moondance-labs/tanssi");
}

#[test]
fn remote_dependency_stays() {
    let remote = DependencySource {
        path: None,
        git: Some("https://github.com/paritytech/polkadot-sdk".to_string()),
        tag: Some("v1.0".to_string()),
    };
    let out = upstream_dependency(remote, "v0.7.0");
    assert_eq!(out.git.as_deref(), Some("https://github.com/paritytech/polkadot-sdk"));
    assert_eq!(out.tag.as_deref(), Some("v1.0"));
    assert_eq!(out.path, None);
}

#[test]
fn runtime_is_local() {
    assert_eq!(
        local_runtime(),
        DependencySource { path: Some("runtime".to_string()), git: None, tag: None }
    );
}

#[test]
fn container_chain_names() {
    assert_eq!(container_node_name("simple"), "container-chain-simple-node");
    assert_eq!(container_runtime_name("simple"), "container-chain-template-simple-runtime");
    assert_eq!(template_directory("container-chains/nodes", "simple"), "container-chains/nodes/simple");
}
