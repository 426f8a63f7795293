//! The node lifecycle: building instances, starting and stopping them, and
//! classifying how their processes exited.

use vstd::prelude::*;

use crate::config::{NodeConfig, NodeMetaData, SocketAddress};

verus! {

/// Classification of how a node's child process ended.
#[derive(Debug, Clone, Copy, PartialEq, Eq)]
pub enum ChildExitCode {
    /// The process exited with code 0, was terminated by a signal (the
    /// harness itself requested the kill), or there was nothing to stop.
    Success,
    /// The process exited with the given non-zero code.
    ErrorCode(Option<i32>),
}

/// The success/failure mapping applied to a terminated process's exit code:
/// code 0 and signal termination (no code available) count as success, any
/// other numeric code is a failure carrying that code.
pub open spec fn classification(code: Option<i32>) -> ChildExitCode {
    match code {
        Some(c) => if c == 0 {
            ChildExitCode::Success
        } else {
            ChildExitCode::ErrorCode(Some(c))
        },
        None => ChildExitCode::Success,
    }
}

/// Classifies a terminated process's exit code.
pub fn classify_exit(code: Option<i32>) -> (r: ChildExitCode)
    ensures
        r == classification(code),
{
    match code {
        Some(c) => if c == 0 {
            ChildExitCode::Success
        } else {
            ChildExitCode::ErrorCode(Some(c))
        },
        None => ChildExitCode::Success,
    }
}

/// How one of the child process's standard streams is redirected.
#[derive(Debug, Clone, Copy, PartialEq, Eq)]
pub enum StdioMode {
    /// The stream is shared with the harness's own.
    Inherit,
    /// The stream is discarded.
    Discard,
}

/// What the harness observed of the child process when asked to stop it.
/// The harness performs the non-blocking exit check, the kill and the
/// blocking wait; the library decides what each observation means.
#[derive(Debug, Clone, Copy, PartialEq, Eq)]
pub enum StopEvent {
    /// No process handle is held.
    NoChild,
    /// The process had already exited, with the given exit code (`None`
    /// when it was terminated by a signal).
    AlreadyExited(Option<i32>),
    /// The process was still running; it was killed and then waited for,
    /// ending with the given exit code.
    Killed(Option<i32>),
    /// Querying, killing or waiting for the process failed with an I/O
    /// error. The handle is still held.
    IoFailure,
}

/// Failure during a stop, reported to the caller after the addresses have
/// been cleared. The harness maps this back to its own I/O error.
#[derive(Debug, Clone, Copy, PartialEq, Eq)]
pub enum StopError {
    Io,
}

/// An observation is consistent with a node's state when it reports a
/// missing process handle exactly for a node that holds none.
pub open spec fn stop_event_consistent(n: Node, event: StopEvent) -> bool {
    (event is NoChild) <==> !n.spec_running()
}

/// Everything `stop` guarantees: the addresses are cleared whatever
/// happened, the rest of the configuration and the metadata are untouched,
/// and the result and the new process state are determined by the
/// observation.
pub open spec fn stop_post(
    pre: Node,
    post: Node,
    event: StopEvent,
    r: Result<ChildExitCode, StopError>,
) -> bool {
    &&& post.spec_net_addr() is None
    &&& post.spec_rest_api_addr() is None
    &&& post.spec_conf().log_to_stdout == pre.spec_conf().log_to_stdout
    &&& post.spec_conf().path == pre.spec_conf().path
    &&& post.spec_meta() == pre.spec_meta()
    &&& match event {
        StopEvent::NoChild => r == Ok::<ChildExitCode, StopError>(ChildExitCode::Success)
            && !post.spec_running(),
        StopEvent::AlreadyExited(code) => r == Ok::<ChildExitCode, StopError>(
            classification(code),
        ) && !post.spec_running(),
        StopEvent::Killed(code) => r == Ok::<ChildExitCode, StopError>(classification(code))
            && !post.spec_running(),
        StopEvent::IoFailure => r == Err::<ChildExitCode, StopError>(StopError::Io)
            && post.spec_running() == pre.spec_running(),
    }
}

/// The final argument list for launching a node: the metadata's base
/// arguments, then the data-directory flag `-d` followed by the instance's
/// directory, then — when stdout logging is enabled — the flag `-o`
/// directing the node to log to stdout rather than a file.
pub open spec fn assembled_args(
    base: Seq<Seq<char>>,
    dir: Seq<char>,
    log_to_stdout: bool,
) -> Seq<Seq<char>> {
    let with_dir = base + seq!["-d"@, dir];
    if log_to_stdout {
        with_dir + seq!["-o"@]
    } else {
        with_dir
    }
}

/// One node instance: its logical process state, its configuration and its
/// metadata. The real process handle lives with the harness, which keeps it
/// in step with this record through `start` and `stop`.
pub struct Node {
    /// Whether a process handle is currently held for this instance.
    running: bool,
    /// Node's startup configuration.
    conf: NodeConfig,
    /// Node's process metadata resolved from the setup descriptor.
    meta: NodeMetaData,
}

impl Node {
    /// Whether a process handle is currently held.
    pub closed spec fn spec_running(self) -> bool {
        self.running
    }

    /// The instance's configuration.
    pub closed spec fn spec_conf(self) -> NodeConfig {
        self.conf
    }

    /// The instance's metadata.
    pub closed spec fn spec_meta(self) -> NodeMetaData {
        self.meta
    }

    /// The discovered peer-to-peer address, if any.
    pub open spec fn spec_net_addr(self) -> Option<SocketAddress> {
        self.spec_conf().net_addr
    }

    /// The discovered REST API address, if any.
    pub open spec fn spec_rest_api_addr(self) -> Option<SocketAddress> {
        self.spec_conf().rest_api_addr
    }

    /// The instance invariant: discovered addresses are only ever held
    /// while a process is running.
    pub open spec fn inv(self) -> bool {
        !self.spec_running() ==> self.spec_net_addr() is None && self.spec_rest_api_addr() is None
    }

    /// Creates a NodeBuilder for the given metadata.
    pub fn builder(meta: NodeMetaData) -> (r: NodeBuilder)
        ensures
            r.spec_conf().log_to_stdout == false,
            r.spec_conf().path@ == Seq::<char>::empty(),
            r.spec_conf().net_addr is None,
            r.spec_conf().rest_api_addr is None,
            r.spec_meta() == meta,
    {
        NodeBuilder::new(meta)
    }

    /// Assembles the full argument list for launching this instance: the
    /// base arguments from the metadata, the data-directory flag with the
    /// instance's directory, and the stdout-logging flag when enabled. The
    /// metadata's base list itself is left untouched, so restarting
    /// assembles the same list again.
    pub fn start_args(&self) -> (args: Vec<String>)
        ensures
            args.deep_view() == assembled_args(
                self.spec_meta().start_args.deep_view(),
                self.spec_conf().path@,
                self.spec_conf().log_to_stdout,
            ),
    {
        let ghost base = self.meta.start_args.deep_view();
        let mut args = self.meta.start_args.clone();
        proof {
            assert(args@ =~= self.meta.start_args@);
            assert(args.deep_view() =~~= base);
        }
        let ghost with_base = args.deep_view();
        args.push("-d".to_owned());
        args.push(self.conf.path.clone());
        proof {
            assert(args.deep_view() =~~= with_base + seq!["-d"@, self.conf.path@]);
        }
        let ghost with_dir = args.deep_view();
        if self.conf.log_to_stdout {
            args.push("-o".to_owned());
            proof {
                assert(args.deep_view() =~~= with_dir + seq!["-o"@]);
            }
        }
        args
    }

    /// The redirection chosen for the child's stdout and stderr: inherited
    /// from the harness when stdout logging is enabled, otherwise
    /// discarded. (Stdin is always discarded, whatever the configuration.)
    pub fn stdio_mode(&self) -> (r: StdioMode)
        ensures
            r is Inherit <==> self.spec_conf().log_to_stdout,
    {
        if self.conf.log_to_stdout {
            StdioMode::Inherit
        } else {
            StdioMode::Discard
        }
    }

    /// Records a successful start: the process was spawned and address
    /// discovery completed with the given addresses. A REST API address is
    /// expected of every configuration that starts successfully; only
    /// relay-configured nodes report a peer-to-peer address. Calling this
    /// on an instance that is already running replaces the previous
    /// process state.
    pub fn start(&mut self, net_addr: Option<SocketAddress>, rest_api_addr: SocketAddress)
        ensures
            final(self).spec_running(),
            final(self).spec_net_addr() == net_addr,
            final(self).spec_rest_api_addr() == Some(rest_api_addr),
            final(self).spec_conf().log_to_stdout == old(self).spec_conf().log_to_stdout,
            final(self).spec_conf().path == old(self).spec_conf().path,
            final(self).spec_meta() == old(self).spec_meta(),
            final(self).inv(),
    {
        self.running = true;
        self.conf.net_addr = net_addr;
        self.conf.rest_api_addr = Some(rest_api_addr);
    }

    /// Stops the node instance, given the harness's observation of the
    /// process. Idempotent: with no process held it is a no-op success.
    /// The discovered addresses are cleared on every path, the error path
    /// included; the process handle is released on every path except an
    /// I/O failure, where the harness keeps it and may try again.
    pub fn stop(&mut self, event: StopEvent) -> (r: Result<ChildExitCode, StopError>)
        requires
            stop_event_consistent(*old(self), event),
        ensures
            stop_post(*old(self), *final(self), event, r),
            final(self).inv(),
    {
        self.conf.net_addr = None;
        self.conf.rest_api_addr = None;
        match event {
            StopEvent::NoChild => Ok(ChildExitCode::Success),
            StopEvent::AlreadyExited(code) => {
                self.running = false;
                Ok(classify_exit(code))
            },
            StopEvent::Killed(code) => {
                self.running = false;
                Ok(classify_exit(code))
            },
            StopEvent::IoFailure => Err(StopError::Io),
        }
    }

    /// Returns the network address of the node.
    /// Non-relay nodes do not have this address configured.
    pub fn net_addr(&self) -> (r: Option<SocketAddress>)
        ensures
            r == self.spec_net_addr(),
    {
        self.conf.net_addr
    }

    /// Returns the REST API address of the node.
    pub fn rest_api_addr(&self) -> (r: Option<SocketAddress>)
        ensures
            r == self.spec_rest_api_addr(),
    {
        self.conf.rest_api_addr
    }

    /// Whether a process handle is currently held for this instance.
    pub fn is_running(&self) -> (r: bool)
        ensures
            r == self.spec_running(),
    {
        self.running
    }

    /// The instance's configuration.
    pub fn config(&self) -> (r: &NodeConfig)
        ensures
            *r == self.spec_conf(),
    {
        &self.conf
    }

    /// The instance's metadata.
    pub fn meta(&self) -> (r: &NodeMetaData)
        ensures
            *r == self.spec_meta(),
    {
        &self.meta
    }
}

/// Builds node instances: holds the resolved metadata and the default
/// configuration, applies option overrides, and yields fresh `Node` values.
pub struct NodeBuilder {
    /// Node's startup configuration.
    conf: NodeConfig,
    /// Node's process metadata resolved from the setup descriptor.
    meta: NodeMetaData,
}

impl NodeBuilder {
    /// The builder's configuration defaults.
    pub closed spec fn spec_conf(self) -> NodeConfig {
        self.conf
    }

    /// The resolved metadata that every built instance shares.
    pub closed spec fn spec_meta(self) -> NodeMetaData {
        self.meta
    }

    /// Creates a new builder around the resolved metadata, with the
    /// default configuration.
    pub fn new(meta: NodeMetaData) -> (r: Self)
        ensures
            r.spec_conf().log_to_stdout == false,
            r.spec_conf().path@ == Seq::<char>::empty(),
            r.spec_conf().net_addr is None,
            r.spec_conf().rest_api_addr is None,
            r.spec_meta() == meta,
    {
        NodeBuilder { conf: Default::default(), meta }
    }

    /// Sets whether to log the node's output to the harness's own stdout.
    pub fn log_to_stdout(self, log_to_stdout: bool) -> (r: Self)
        ensures
            r.spec_conf().log_to_stdout == log_to_stdout,
            r.spec_conf().path == self.spec_conf().path,
            r.spec_conf().net_addr == self.spec_conf().net_addr,
            r.spec_conf().rest_api_addr == self.spec_conf().rest_api_addr,
            r.spec_meta() == self.spec_meta(),
    {
        let mut b = self;
        b.conf.log_to_stdout = log_to_stdout;
        b
    }

    /// Creates a `Node` for the staged directory `target`: its
    /// configuration is the builder's defaults with the path replaced, no
    /// addresses are set and no process is held. (The harness stages the
    /// directory's contents before calling this.)
    pub fn build(&self, target: String) -> (node: Node)
        ensures
            node.spec_conf().log_to_stdout == self.spec_conf().log_to_stdout,
            node.spec_conf().path == target,
            node.spec_net_addr() is None,
            node.spec_rest_api_addr() is None,
            !node.spec_running(),
            node.spec_meta().same_as(self.spec_meta()),
            node.inv(),
    {
        Node {
            running: false,
            conf: NodeConfig {
                log_to_stdout: self.conf.log_to_stdout,
                path: target,
                net_addr: None,
                rest_api_addr: None,
            },
            meta: self.meta.duplicate(),
        }
    }
}

/// Law: stopping twice in a row is safe, and the second stop is a no-op
/// success. A stop that returns `Ok` leaves the node without a process, so
/// the next stop necessarily observes no child, returns `Ok(Success)`, and
/// leaves both addresses cleared.
pub proof fn lemma_stop_twice_is_noop_success(
    n0: Node,
    n1: Node,
    e1: StopEvent,
    r1: Result<ChildExitCode, StopError>,
    n2: Node,
    e2: StopEvent,
    r2: Result<ChildExitCode, StopError>,
)
    requires
        stop_post(n0, n1, e1, r1),
        r1 is Ok,
        stop_event_consistent(n1, e2),
        stop_post(n1, n2, e2, r2),
    ensures
        e2 is NoChild,
        r2 == Ok::<ChildExitCode, StopError>(ChildExitCode::Success),
        n2.spec_net_addr() is None,
        n2.spec_rest_api_addr() is None,
{
}

} // verus!
