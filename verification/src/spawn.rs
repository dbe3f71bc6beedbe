//! The sidecar launch request: which bundled executable to start, with what
//! environment overrides and arguments, and which launches are rejected
//! outright. The executable is identified by a bare name resolved inside
//! the application bundle — never by a filesystem path — so an identifier
//! containing a path separator is invalid and is refused before any process
//! creation is attempted.

use vstd::prelude::*;

verus! {

/// Why a sidecar launch failed. Every variant is fatal for application
/// startup: the shell is not meant to run without its backend.
#[derive(Clone, Copy, Debug, PartialEq, Eq, Structural)]
pub enum SpawnError {
    /// The identifier is empty or contains a path separator, so it cannot
    /// name an executable inside the bundle.
    InvalidIdentifier,
    /// No executable of that name exists in the bundle.
    NotFound,
    /// The executable exists but cannot be run (permissions, missing
    /// dependencies).
    NotExecutable,
    /// The operating system refused to create the process.
    OsRefused,
}

/// A bundle-relative executable identifier is valid when it is non-empty
/// and free of path separators.
pub open spec fn valid_identifier(s: Seq<char>) -> bool {
    &&& s.len() > 0
    &&& forall|i: int| 0 <= i < s.len() ==> s[i] != '/' && s[i] != '\\'
}

/// Decides validity of an executable identifier.
pub fn identifier_is_valid(s: &str) -> (b: bool)
    ensures
        b == valid_identifier(s@),
{
    let n = s.unicode_len();
    if n == 0 {
        return false;
    }
    let mut i: usize = 0;
    while i < n
        invariant
            n == s@.len(),
            i <= n,
            forall|j: int| 0 <= j < i ==> s@[j] != '/' && s@[j] != '\\',
        decreases n - i,
    {
        let c = s.get_char(i);
        if c == '/' || c == '\\' {
            return false;
        }
        i = i + 1;
    }
    true
}

/// Everything needed to launch the sidecar: the bundle-relative executable
/// identifier, environment overrides handed to the child (such as the
/// resolved resource directory), and process arguments. Immutable in spirit
/// once boot begins; built once from configuration.
#[derive(Debug)]
pub struct SidecarSpec {
    pub program: String,
    pub env: Vec<(String, String)>,
    pub args: Vec<String>,
}

impl SidecarSpec {
    /// A launch request is well formed exactly when its identifier is a
    /// valid bundle-relative executable name.
    pub open spec fn wf(self) -> bool {
        valid_identifier(self.program@)
    }

    /// Builds a launch request. Exactly the invalid identifiers are
    /// rejected, with `InvalidIdentifier`; every valid identifier is
    /// accepted, whatever the environment and arguments.
    pub fn new(program: String, env: Vec<(String, String)>, args: Vec<String>) -> (r: Result<
        SidecarSpec,
        SpawnError,
    >)
        ensures
            r is Ok <==> valid_identifier(program@),
            r matches Ok(s) ==> s.program@ == program@ && s.env@ == env@ && s.args@ == args@
                && s.wf(),
            r is Err ==> r == Err::<SidecarSpec, SpawnError>(SpawnError::InvalidIdentifier),
    {
        if identifier_is_valid(program.as_str()) {
            Ok(SidecarSpec { program, env, args })
        } else {
            Err(SpawnError::InvalidIdentifier)
        }
    }

    /// Adds one environment override for the child process.
    pub fn push_env(&mut self, key: String, value: String)
        ensures
            final(self).program == old(self).program,
            final(self).env@ == old(self).env@.push((key, value)),
            final(self).args == old(self).args,
            final(self).wf() == old(self).wf(),
    {
        self.env.push((key, value));
    }

    /// Adds one process argument for the child process.
    pub fn push_arg(&mut self, arg: String)
        ensures
            final(self).program == old(self).program,
            final(self).env == old(self).env,
            final(self).args@ == old(self).args@.push(arg),
            final(self).wf() == old(self).wf(),
    {
        self.args.push(arg);
    }
}

} // verus!
