//! Node configuration: socket addresses as plain values, the per-instance
//! runtime configuration, and the start-command metadata resolved from the
//! setup descriptor.

use vstd::prelude::*;

verus! {

/// A socket address held as plain values: the IP as an integer (an IPv4
/// address sits in the low 32 bits, an IPv6 address uses all 128) and the
/// port. The lifecycle manager only carries addresses around; it never
/// inspects them, so this representation is all it needs.
#[derive(Debug, Clone, Copy, PartialEq, Eq, Structural)]
pub struct SocketAddress {
    pub ip: u128,
    pub port: u16,
}

/// Failure to resolve the setup descriptor's contents into node metadata.
#[derive(Debug, Clone, Copy, PartialEq, Eq, Structural)]
pub enum ConfigError {
    /// The start command holds no executable token.
    EmptyStartCommand,
}

/// Startup configuration of one node instance.
///
/// Invariant (maintained by `Node`): both addresses are `None` whenever no
/// process is running for this configuration.
#[derive(Debug, Clone)]
pub struct NodeConfig {
    /// Setting this option to true will enable node logging to stdout.
    pub log_to_stdout: bool,
    /// The path of the instance's working/data directory.
    pub path: String,
    /// The node's peer-to-peer network address, once discovered.
    pub net_addr: Option<SocketAddress>,
    /// The node's REST API address, once discovered.
    pub rest_api_addr: Option<SocketAddress>,
}

impl Default for NodeConfig {
    /// The default configuration: no logging to stdout, an empty path and
    /// no discovered addresses.
    fn default() -> (r: Self)
        ensures
            r.log_to_stdout == false,
            r.path@ == Seq::<char>::empty(),
            r.net_addr is None,
            r.rest_api_addr is None,
    {
        NodeConfig {
            log_to_stdout: false,
            path: String::new(),
            net_addr: None,
            rest_api_addr: None,
        }
    }
}

/// Whether a character counts as whitespace when the start command is
/// split into its tokens: the characters with Unicode's `White_Space`
/// property, the same set `char::is_whitespace` accepts.
pub open spec fn is_space_char(c: char) -> bool {
    let u = c as u32;
    ||| u == 0x09 || u == 0x0A || u == 0x0B || u == 0x0C || u == 0x0D || u == 0x20
    ||| u == 0x85 || u == 0xA0 || u == 0x1680
    ||| (0x2000 <= u && u <= 0x200A)
    ||| u == 0x2028 || u == 0x2029 || u == 0x202F || u == 0x205F || u == 0x3000
}

/// Runtime check matching `is_space_char`.
fn is_space(c: char) -> (r: bool)
    ensures
        r == is_space_char(c),
{
    let u = c as u32;
    u == 0x09 || u == 0x0A || u == 0x0B || u == 0x0C || u == 0x0D || u == 0x20 || u == 0x85
        || u == 0xA0 || u == 0x1680 || (0x2000 <= u && u <= 0x200A) || u == 0x2028 || u == 0x2029
        || u == 0x202F || u == 0x205F || u == 0x3000
}

/// Length of the maximal whitespace-free prefix of `s`.
pub open spec fn token_len(s: Seq<char>) -> nat
    decreases s.len(),
{
    if s.len() == 0 || is_space_char(s[0]) {
        0
    } else {
        (1 + token_len(s.drop_first())) as nat
    }
}

proof fn lemma_token_len_le(s: Seq<char>)
    ensures
        token_len(s) <= s.len(),
    decreases s.len(),
{
    if s.len() != 0 && !is_space_char(s[0]) {
        lemma_token_len_le(s.drop_first());
    }
}

/// The whitespace-separated tokens of `s`, in order: each token is a
/// maximal run of non-whitespace characters.
pub open spec fn tokens_of(s: Seq<char>) -> Seq<Seq<char>>
    decreases s.len(),
    via tokens_of_decreases
{
    if s.len() == 0 {
        Seq::empty()
    } else if is_space_char(s[0]) {
        tokens_of(s.drop_first())
    } else {
        seq![s.take(token_len(s) as int)] + tokens_of(s.skip(token_len(s) as int))
    }
}

#[via_fn]
proof fn tokens_of_decreases(s: Seq<char>) {
    if s.len() != 0 && !is_space_char(s[0]) {
        lemma_token_len_le(s);
    }
}

/// If the first `k` characters of `s` are not whitespace and `s` either
/// ends at `k` or has whitespace there, then `k` is the first token's length.
proof fn lemma_token_len_at(s: Seq<char>, k: int)
    requires
        0 <= k <= s.len(),
        forall|m: int| 0 <= m < k ==> !is_space_char(s[m]),
        k == s.len() || is_space_char(s[k]),
    ensures
        token_len(s) == k,
    decreases k,
{
    if k > 0 {
        let t = s.drop_first();
        assert forall|m: int| 0 <= m < k - 1 implies !is_space_char(t[m]) by {
            assert(t[m] == s[m + 1]);
        }
        assert(k - 1 == t.len() || is_space_char(t[k - 1]));
        lemma_token_len_at(t, k - 1);
    }
}

/// Scans from `start` (a non-whitespace position) to the end of the token
/// that begins there.
fn token_end(s: &str, n: usize, start: usize) -> (j: usize)
    requires
        n == s@.len(),
        start < n,
        !is_space_char(s@[start as int]),
    ensures
        start < j <= n,
        forall|m: int| start <= m < j ==> !is_space_char(s@[m]),
        j == n || is_space_char(s@[j as int]),
{
    let mut j: usize = start + 1;
    while j < n
        invariant
            n == s@.len(),
            start < j <= n,
            forall|m: int| start <= m < j ==> !is_space_char(s@[m]),
        decreases n - j,
    {
        if is_space(s.get_char(j)) {
            return j;
        }
        j = j + 1;
    }
    j
}

/// Splits a string into its whitespace-separated tokens.
pub fn split_whitespace_tokens(s: &str) -> (tokens: Vec<String>)
    ensures
        tokens.deep_view() == tokens_of(s@),
{
    let n = s.unicode_len();
    let mut tokens: Vec<String> = Vec::new();
    proof {
        assert(tokens.deep_view() =~~= Seq::<Seq<char>>::empty());
        assert(s@.skip(0) =~= s@);
    }
    let mut i: usize = 0;
    while i < n
        invariant
            n == s@.len(),
            i <= n,
            tokens.deep_view() + tokens_of(s@.skip(i as int)) == tokens_of(s@),
        decreases n - i,
    {
        if is_space(s.get_char(i)) {
            proof {
                let rest = s@.skip(i as int);
                assert(rest[0] == s@[i as int]);
                assert(rest.drop_first() =~= s@.skip(i + 1));
            }
            i = i + 1;
        } else {
            let j = token_end(s, n, i);
            let tok = s.substring_char(i, j).to_owned();
            proof {
                let rest = s@.skip(i as int);
                assert forall|m: int| 0 <= m < j - i implies !is_space_char(rest[m]) by {
                    assert(rest[m] == s@[i + m]);
                }
                if (j as int) < rest.len() {
                    assert(rest[j - i] == s@[j as int]);
                }
                lemma_token_len_at(rest, j - i);
                assert(rest.take(j - i) =~= s@.subrange(i as int, j as int));
                assert(rest.skip(j - i) =~= s@.skip(j as int));
                assert(tokens_of(rest) == seq![tok@] + tokens_of(s@.skip(j as int)));
            }
            let ghost tokens_before = tokens.deep_view();
            tokens.push(tok);
            proof {
                assert(tokens.deep_view() =~~= tokens_before.push(tok@));
                assert(tokens_before.push(tok@) + tokens_of(s@.skip(j as int)) =~~= tokens_before
                    + (seq![tok@] + tokens_of(s@.skip(j as int))));
            }
            i = j;
        }
    }
    proof {
        assert(s@.skip(n as int) =~= Seq::<char>::empty());
        assert(tokens.deep_view() + tokens_of(s@.skip(n as int)) =~~= tokens.deep_view());
    }
    tokens
}

/// The node metadata resolved from the setup descriptor: where to run the
/// start command, the executable, and its base arguments.
#[derive(Debug, Clone, PartialEq, Eq)]
pub struct NodeMetaData {
    /// The absolute path of where to run the start command.
    pub path: String,
    /// The executable: the first token of the descriptor's start command.
    pub start_command: String,
    /// The remaining tokens of the start command, in order. The executable
    /// token itself is never among them.
    pub start_args: Vec<String>,
}

impl NodeMetaData {
    /// Field-by-field equality of two metadata records, comparing the
    /// argument vectors by their contents.
    pub open spec fn same_as(self, other: Self) -> bool {
        &&& self.path == other.path
        &&& self.start_command == other.start_command
        &&& self.start_args@ == other.start_args@
    }

    /// Resolves the two fields of the setup descriptor into metadata. The
    /// start command is split on whitespace; its first token is the
    /// executable and the rest become the argument list. A command with no
    /// tokens is rejected.
    pub fn new(path: String, start_command: &str) -> (r: Result<NodeMetaData, ConfigError>)
        ensures
            tokens_of(start_command@).len() == 0 <==> r is Err,
            r matches Err(e) ==> e == ConfigError::EmptyStartCommand,
            r matches Ok(meta) ==> {
                &&& meta.path == path
                &&& meta.start_command@ == tokens_of(start_command@)[0]
                &&& meta.start_args.deep_view() == tokens_of(start_command@).drop_first()
            },
    {
        let mut tokens = split_whitespace_tokens(start_command);
        if tokens.len() == 0 {
            proof {
                assert(tokens.deep_view().len() == tokens@.len());
            }
            return Err(ConfigError::EmptyStartCommand);
        }
        proof {
            assert(tokens.deep_view().len() == tokens@.len());
        }
        let ghost all = tokens.deep_view();
        let command = tokens.remove(0);
        proof {
            assert(tokens.deep_view() =~~= all.drop_first());
            assert(command@ == all[0]);
        }
        Ok(NodeMetaData { path, start_command: command, start_args: tokens })
    }

    /// A verified copy of the record. (The derived `Clone` is opaque to the
    /// verifier, so the builder uses this instead.)
    pub fn duplicate(&self) -> (r: Self)
        ensures
            r.same_as(*self),
    {
        let args = self.start_args.clone();
        proof {
            assert(args@ =~= self.start_args@);
        }
        NodeMetaData {
            path: self.path.clone(),
            start_command: self.start_command.clone(),
            start_args: args,
        }
    }
}

} // verus!
