use node_lifecycle::config::{NodeMetaData, SocketAddress};
use node_lifecycle::node::{classify_exit, ChildExitCode, Node, StdioMode, StopError, StopEvent};

fn meta() -> NodeMetaData {
    NodeMetaData::new("/work/node".to_string(), "algod -l 0.0.0.0:4160").unwrap()
}

fn net() -> SocketAddress {
    SocketAddress {
        ip: 0x7f000001,
        port: 4160,
    }
}

fn rest() -> SocketAddress {
    SocketAddress {
        ip: 0x7f000001,
        port: 8080,
    }
}

#[test]
fn start_stop_the_node() {
    let builder = Node::builder(meta()).log_to_stdout(false);
    let mut node = builder.build("/tmp/instance-0".to_string());

    // No addresses before the node is started.
    assert!(node.rest_api_addr().is_none());
    assert!(node.net_addr().is_none());

    node.start(Some(net()), rest());
    // Addresses are available once the node is started.
    assert!(node.rest_api_addr().is_some());
    assert!(node.net_addr().is_some());

    assert!(node.stop(StopEvent::Killed(None)).is_ok());
    // Addresses are deleted after the node is stopped.
    assert!(node.rest_api_addr().is_none());
    assert!(node.net_addr().is_none());

    // Restart the node.
    node.start(Some(net()), rest());
    assert!(node.rest_api_addr().is_some());
    assert!(node.net_addr().is_some());
    assert_eq!(
        node.stop(StopEvent::Killed(None)),
        Ok(ChildExitCode::Success)
    );
}

#[test]
fn fresh_node_has_no_addresses() {
    let node = Node::builder(meta()).build("/tmp/instance-1".to_string());
    assert!(node.net_addr().is_none());
    assert!(node.rest_api_addr().is_none());
    assert!(!node.is_running());
}

#[test]
fn started_node_publishes_addresses() {
    let mut node = Node::builder(meta()).build("/tmp/instance-2".to_string());
    node.start(Some(net()), rest());
    assert_eq!(node.rest_api_addr(), Some(rest()));
    assert_eq!(node.net_addr(), Some(net()));
    assert!(node.is_running());
}

#[test]
fn non_relay_node_has_no_net_address() {
    let mut node = Node::builder(meta()).build("/tmp/instance-3".to_string());
    node.start(None, rest());
    assert_eq!(node.net_addr(), None);
    assert_eq!(node.rest_api_addr(), Some(rest()));
}

#[test]
fn stop_twice_is_noop_success() {
    let mut node = Node::builder(meta()).build("/tmp/instance-4".to_string());
    node.start(Some(net()), rest());
    assert_eq!(
        node.stop(StopEvent::Killed(Some(0))),
        Ok(ChildExitCode::Success)
    );
    // The second stop observes no child and is a no-op success.
    assert_eq!(node.stop(StopEvent::NoChild), Ok(ChildExitCode::Success));
    assert!(node.net_addr().is_none());
    assert!(node.rest_api_addr().is_none());
}

#[test]
fn stop_before_any_start_is_noop_success() {
    let mut node = Node::builder(meta()).build("/tmp/instance-5".to_string());
    assert_eq!(node.stop(StopEvent::NoChild), Ok(ChildExitCode::Success));
}

#[test]
fn process_exited_zero_yields_success() {
    let mut node = Node::builder(meta()).build("/tmp/instance-6".to_string());
    node.start(Some(net()), rest());
    assert_eq!(
        node.stop(StopEvent::AlreadyExited(Some(0))),
        Ok(ChildExitCode::Success)
    );
    assert!(!node.is_running());
}

#[test]
fn process_exited_137_yields_failure() {
    let mut node = Node::builder(meta()).build("/tmp/instance-7".to_string());
    node.start(Some(net()), rest());
    assert_eq!(
        node.stop(StopEvent::AlreadyExited(Some(137))),
        Ok(ChildExitCode::ErrorCode(Some(137)))
    );
    assert!(!node.is_running());
}

#[test]
fn signal_killed_child_counts_as_success() {
    let mut node = Node::builder(meta()).build("/tmp/instance-8".to_string());
    node.start(Some(net()), rest());
    assert_eq!(
        node.stop(StopEvent::Killed(None)),
        Ok(ChildExitCode::Success)
    );
}

#[test]
fn io_failure_surfaces_but_clears_addresses() {
    let mut node = Node::builder(meta()).build("/tmp/instance-9".to_string());
    node.start(Some(net()), rest());
    assert_eq!(node.stop(StopEvent::IoFailure), Err(StopError::Io));
    // Addresses are cleared even on the failure path...
    assert!(node.net_addr().is_none());
    assert!(node.rest_api_addr().is_none());
    // ...and the handle is kept, so the harness may try again.
    assert!(node.is_running());
    assert_eq!(
        node.stop(StopEvent::Killed(None)),
        Ok(ChildExitCode::Success)
    );
    assert!(!node.is_running());
}

#[test]
fn classify_exit_exact_values() {
    assert_eq!(classify_exit(Some(0)), ChildExitCode::Success);
    assert_eq!(classify_exit(None), ChildExitCode::Success);
    assert_eq!(classify_exit(Some(1)), ChildExitCode::ErrorCode(Some(1)));
    assert_eq!(
        classify_exit(Some(137)),
        ChildExitCode::ErrorCode(Some(137))
    );
    assert_eq!(classify_exit(Some(-9)), ChildExitCode::ErrorCode(Some(-9)));
}

#[test]
fn builder_overrides_logging() {
    let node = Node::builder(meta())
        .log_to_stdout(true)
        .build("/tmp/instance-10".to_string());
    assert!(node.config().log_to_stdout);
    let quiet = Node::builder(meta()).build("/tmp/instance-11".to_string());
    assert!(!quiet.config().log_to_stdout);
}

#[test]
fn stdio_mode_follows_logging_option() {
    let loud = Node::builder(meta())
        .log_to_stdout(true)
        .build("/tmp/instance-13".to_string());
    assert_eq!(loud.stdio_mode(), StdioMode::Inherit);
    let quiet = Node::builder(meta()).build("/tmp/instance-14".to_string());
    assert_eq!(quiet.stdio_mode(), StdioMode::Discard);
}

#[test]
fn build_sets_instance_path() {
    let node = Node::builder(meta()).build("/tmp/instance-12".to_string());
    assert_eq!(node.config().path, "/tmp/instance-12");
    assert_eq!(node.meta().path, "/work/node");
    assert_eq!(node.meta().start_command, "algod");
}

#[test]
fn start_args_append_data_dir_flag() {
    let node = Node::builder(meta()).build("/data/n0".to_string());
    assert_eq!(
        node.start_args(),
        vec!["-l", "0.0.0.0:4160", "-d", "/data/n0"]
            .into_iter()
            .map(String::from)
            .collect::<Vec<String>>()
    );
}

#[test]
fn start_args_append_stdout_flag_when_logging() {
    let node = Node::builder(meta())
        .log_to_stdout(true)
        .build("/data/n1".to_string());
    assert_eq!(
        node.start_args(),
        vec!["-l", "0.0.0.0:4160", "-d", "/data/n1", "-o"]
            .into_iter()
            .map(String::from)
            .collect::<Vec<String>>()
    );
}

#[test]
fn start_args_are_assembled_fresh_each_time() {
    let mut node = Node::builder(meta()).build("/data/n2".to_string());
    let first = node.start_args();
    node.start(Some(net()), rest());
    node.stop(StopEvent::Killed(None)).unwrap();
    // A restart assembles the same list again, with no duplicated flags.
    assert_eq!(node.start_args(), first);
}
