//! Session state and the launch command built from a resolved path.

use vstd::prelude::*;

use crate::machine::{Action, Step};

verus! {

/// One plugin instance's session state: the path of the last successful
/// resolution, empty until then. It lives only as long as the instance;
/// nothing is persisted across restarts.
pub struct CMakeTools {
    pub lsp_path: String,
}

impl CMakeTools {
    /// A fresh session: no path has been resolved yet.
    pub fn new() -> (r: Self)
        ensures
            r.lsp_path@ == Seq::<char>::empty(),
    {
        CMakeTools { lsp_path: String::new() }
    }

    /// Begins a resolution cycle: the machine first asks whether the cached
    /// path is a regular file, before anything else is consulted.
    pub fn start_resolution(&self) -> (r: (Step, Vec<Action>))
        ensures
            r.0 matches Step::CacheCheck { cached } && cached@ == self.lsp_path@,
            r.1@.len() == 1,
            r.1@[0] matches Action::CheckFile { path } && path@ == self.lsp_path@,
    {
        let cached = self.lsp_path.clone();
        let check = self.lsp_path.clone();
        (Step::CacheCheck { cached }, vec![Action::CheckFile { path: check }])
    }

    /// Records a successful resolution, so that later cycles of this session
    /// can short-circuit on the cached path.
    pub fn note_resolved(&mut self, path: &String)
        ensures
            final(self).lsp_path@ == path@,
    {
        self.lsp_path = path.clone();
    }
}

/// What the host needs to spawn the resolved binary: the executable path, the
/// fixed argument list, and the (empty) environment overrides.
pub struct LaunchCommand {
    pub command: String,
    pub args: Vec<String>,
    pub env: Vec<(String, String)>,
}

/// Wraps a resolved path into the invocation the editor spawns: the path
/// itself, the single fixed argument `stdio`, and no environment overrides.
pub fn language_server_command(path: &String) -> (r: LaunchCommand)
    ensures
        r.command@ == path@,
        r.args@.len() == 1,
        r.args@[0]@ == "stdio"@,
        r.env@.len() == 0,
{
    LaunchCommand {
        command: path.clone(),
        args: vec![String::from_str("stdio")],
        env: Vec::new(),
    }
}

} // verus!
