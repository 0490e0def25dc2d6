use vstd::prelude::*;

verus! {

/// The errors of the library. Each variant but the first carries its full message.
#[derive(Debug)]
pub enum BError {
    /// No `workspace.json` on the search path.
    InvalidWorkspaceError,
    /// A settings or build-config document that cannot be read.
    ParseError(String),
    /// A template reference that cannot be expanded.
    CtxKeyError(String),
    /// A value that names nothing usable, such as a missing build config.
    ValueError(String),
    /// A workspace whose settings name directories that are not there.
    WsError(String),
    /// A build config that the workspace does not support.
    CliError(String),
    /// Setup asked for a workspace that is not empty.
    WorkspaceNotEmpty(String),
    /// A file or directory probe that failed.
    IOError(String),
    /// A command that cannot run from inside a set-up workspace.
    CmdInsideWorkspace(String),
}

impl BError {
    /// The human-readable message of the error.
    pub fn message(&self) -> (r: String)
        ensures
            self matches BError::ParseError(m) ==> r@ == m@,
            self matches BError::CtxKeyError(m) ==> r@ == m@,
            self matches BError::ValueError(m) ==> r@ == m@,
            self matches BError::WsError(m) ==> r@ == m@,
            self matches BError::CliError(m) ==> r@ == m@,
            self matches BError::WorkspaceNotEmpty(m) ==> r@ == m@,
            self matches BError::IOError(m) ==> r@ == m@,
            self matches BError::CmdInsideWorkspace(m) ==> r@ == m@,
    {
        match self {
            BError::InvalidWorkspaceError => String::from_str(
                "Invalid bakery workspace: no 'workspace.json' found in the work dir, ~/.bakery or /etc/bakery",
            ),
            BError::ParseError(m) => m.clone(),
            BError::CtxKeyError(m) => m.clone(),
            BError::ValueError(m) => m.clone(),
            BError::WsError(m) => m.clone(),
            BError::CliError(m) => m.clone(),
            BError::WorkspaceNotEmpty(m) => m.clone(),
            BError::IOError(m) => m.clone(),
            BError::CmdInsideWorkspace(m) => m.clone(),
        }
    }
}

} // verus!
