//! How a child process ended.

use vstd::prelude::*;

verus! {

/// The mathematical value of an [`ExitStatus`].
pub struct ExitStatusView {
    pub code: u32,
    pub signal: Option<Seq<char>>,
}

/// The exit code of a child process, and the name of the signal that ended
/// it when one did.
#[derive(Debug, Clone, PartialEq, Eq)]
pub struct ExitStatus {
    code: u32,
    signal: Option<String>,
}

impl View for ExitStatus {
    type V = ExitStatusView;

    closed spec fn view(&self) -> ExitStatusView {
        ExitStatusView {
            code: self.code,
            signal: match self.signal {
                Some(s) => Some(s@),
                None => None,
            },
        }
    }
}

impl ExitStatusView {
    /// A status is a success when the process returned zero and no signal
    /// ended it.
    pub open spec fn success(self) -> bool {
        self.signal is None && self.code == 0
    }
}

impl ExitStatus {
    /// The status of a process that returned `code`.
    pub fn with_exit_code(code: u32) -> (status: ExitStatus)
        ensures
            status@ == (ExitStatusView { code, signal: None }),
    {
        ExitStatus { code, signal: None }
    }

    /// The status of a process that the signal named `signal` ended.  Its
    /// exit code reads as 1.
    pub fn with_signal(signal: &str) -> (status: ExitStatus)
        ensures
            status@ == (ExitStatusView { code: 1, signal: Some(signal@) }),
    {
        ExitStatus { code: 1, signal: Some(String::from_str(signal)) }
    }

    /// True when the process completed successfully.
    pub fn success(&self) -> (ok: bool)
        ensures
            ok == self@.success(),
    {
        match &self.signal {
            None => self.code == 0,
            Some(_) => false,
        }
    }

    /// The exit code the status was built with.
    pub fn exit_code(&self) -> (code: u32)
        ensures
            code == self@.code,
    {
        self.code
    }

    /// The name of the signal, when one ended the process.
    pub fn signal(&self) -> (name: Option<&str>)
        ensures
            name is Some == self@.signal is Some,
            name matches Some(s) ==> self@.signal == Some(s@),
    {
        match &self.signal {
            Some(s) => Some(s.as_str()),
            None => None,
        }
    }

    /// A copy of this status with the same value.
    pub fn duplicate(&self) -> (copy: ExitStatus)
        ensures
            copy@ == self@,
    {
        let signal = match &self.signal {
            Some(s) => Some(s.clone()),
            None => None,
        };
        ExitStatus { code: self.code, signal }
    }
}

} // verus!
