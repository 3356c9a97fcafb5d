//! The decisions of the external-process orchestrator: what to invoke, and
//! how the outcome of a process run is read.

use vstd::prelude::*;
use vstd::string::*;

verus! {

/// The character views of a sequence of strings.
pub open spec fn views(v: Seq<String>) -> Seq<Seq<char>> {
    v.map_values(|s: String| s@)
}

/// `dir` followed by `/` and `name`.
pub open spec fn path_join(dir: Seq<char>, name: Seq<char>) -> Seq<char> {
    dir + seq!['/'] + name
}

/// A command line to run: program, fully spelled-out arguments and an
/// optional working directory.
#[derive(Debug)]
pub struct Invocation {
    pub program: String,
    pub args: Vec<String>,
    pub cwd: Option<String>,
}

/// What became of an attempt to run an external process.
#[derive(Debug)]
pub enum ProcessStatus {
    /// The process could not be started; the message of the I/O failure.
    SpawnFailed(String),
    /// The process ran; its exit code (`None` when it was killed by a
    /// signal) and what it wrote to stdout and to stderr.
    Exited { code: Option<i32>, stdout: String, stderr: String },
}

impl ProcessStatus {
    /// A process succeeded when it ran and exited with code zero.
    pub open spec fn spec_succeeded(&self) -> bool {
        match self {
            ProcessStatus::Exited { code, .. } => *code == Some(0i32),
            _ => false,
        }
    }

    pub fn succeeded(&self) -> (r: bool)
        ensures
            r == self.spec_succeeded(),
    {
        match self {
            ProcessStatus::Exited { code, .. } => match code {
                Some(c) => *c == 0,
                None => false,
            },
            _ => false,
        }
    }
}

/// What became of reading an artifact that a tool was expected to write.
#[derive(Debug)]
pub enum ArtifactRead {
    /// Nothing at the expected path.
    Missing,
    /// The path exists but reading it failed; the message of the failure.
    Failed(String),
    /// The artifact's bytes.
    Bytes(Vec<u8>),
}

/// `dir/name`.
pub fn join_path(dir: &str, name: &str) -> (r: String)
    ensures
        r@ == path_join(dir@, name@),
{
    proof {
        reveal_strlit("/");
    }
    let mut r = String::from_str(dir);
    r.append("/");
    r.append(name);
    r
}

/// Appends `s` to `args` as an owned string.
pub fn push_arg(args: &mut Vec<String>, s: &str)
    ensures
        views(final(args)@) == views(old(args)@).push(s@),
{
    args.push(String::from_str(s));
    assert(views(final(args)@) =~= views(old(args)@).push(s@));
}

/// Whether two strings hold the same characters.
pub fn str_eq(a: &str, b: &str) -> (r: bool)
    ensures
        r == (a@ == b@),
{
    let n = a.unicode_len();
    if n != b.unicode_len() {
        return false;
    }
    let mut i: usize = 0;
    while i < n
        invariant
            n == a@.len(),
            n == b@.len(),
            i <= n,
            a@.subrange(0, i as int) == b@.subrange(0, i as int),
        decreases n - i,
    {
        if a.get_char(i) != b.get_char(i) {
            return false;
        }
        assert(a@.subrange(0, i as int + 1) =~= a@.subrange(0, i as int).push(a@[i as int]));
        assert(b@.subrange(0, i as int + 1) =~= b@.subrange(0, i as int).push(b@[i as int]));
        i = i + 1;
    }
    assert(a@ =~= a@.subrange(0, n as int));
    assert(b@ =~= b@.subrange(0, n as int));
    true
}

} // verus!
