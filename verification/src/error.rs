use vstd::prelude::*;

verus! {

/// The closed set of failure kinds that the engine reports.
#[derive(Debug, Clone, Copy, PartialEq, Eq, Structural)]
pub enum ErrorKind {
    /// The input violates a rule.
    InvalidArgument,
    /// The backend reported a failure.
    PluginFailure,
    /// An internal invariant is broken.
    Bug,
    /// The state found after applying disagrees with the state asked for.
    VerificationError,
    /// The input is well formed but not supported.
    NotImplementedError,
}

/// A failure: its kind, and a message for the user.
#[derive(Debug)]
pub struct NmstateError {
    kind: ErrorKind,
    msg: String,
}

impl Clone for NmstateError {
    fn clone(&self) -> (e: Self)
        ensures
            e.spec_kind() == self.spec_kind(),
            e.spec_msg() == self.spec_msg(),
    {
        NmstateError { kind: self.kind, msg: self.msg.clone() }
    }
}

impl NmstateError {
    /// The kind of the failure.
    pub closed spec fn spec_kind(&self) -> ErrorKind {
        self.kind
    }

    /// The message of the failure.
    pub closed spec fn spec_msg(&self) -> Seq<char> {
        self.msg@
    }

    /// A failure of the given kind with the given message.
    pub fn new(kind: ErrorKind, msg: String) -> (e: Self)
        ensures
            e.spec_kind() == kind,
            e.spec_msg() == msg@,
    {
        NmstateError { kind, msg }
    }

    /// An error of the given kind whose message is the literal `msg`.
    pub fn with_text(kind: ErrorKind, msg: &str) -> (e: Self)
        ensures
            e.spec_kind() == kind,
            e.spec_msg() == msg@,
    {
        NmstateError { kind, msg: msg.to_owned() }
    }

    /// The kind of the failure.
    #[verifier::when_used_as_spec(spec_kind)]
    pub fn kind(&self) -> (k: ErrorKind)
        ensures
            k == self.spec_kind(),
    {
        self.kind
    }

    /// The message of the failure.
    pub fn msg(&self) -> (m: &str)
        ensures
            m@ == self.spec_msg(),
    {
        self.msg.as_str()
    }
}

} // verus!
