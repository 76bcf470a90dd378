use vstd::prelude::*;

use crate::command::CargoCommand;

verus! {

/// What an instrumented build is asked to do.
#[derive(Debug)]
pub struct PgoInstrumentArgs {
    /// Cargo command that will be used for PGO-instrumented compilation.
    pub command: CargoCommand,
    /// Do not remove profiles that were gathered during previous runs.
    pub keep_profiles: bool,
    /// Additional arguments that will be passed to the executed `cargo` command.
    pub cargo_args: Vec<String>,
    /// The environment variables that will be set for the executed `cargo`
    /// command, applied in order (a later entry overrides an earlier one).
    pub cargo_env: Vec<(String, String)>,
}

/// The same request, for a shortcut whose cargo command is fixed elsewhere.
#[derive(Debug)]
pub struct PgoInstrumentShortcutArgs {
    /// Do not remove profiles that were gathered during previous runs.
    keep_profiles: bool,
    /// Additional arguments that will be passed to the executed `cargo` command.
    cargo_args: Vec<String>,
    /// The environment variables that will be set for the executed `cargo` command.
    cargo_env: Vec<(String, String)>,
}

impl PgoInstrumentShortcutArgs {
    pub closed spec fn keep_profiles_spec(&self) -> bool {
        self.keep_profiles
    }

    pub closed spec fn cargo_args_spec(&self) -> Seq<String> {
        self.cargo_args@
    }

    pub closed spec fn cargo_env_spec(&self) -> Seq<(String, String)> {
        self.cargo_env@
    }

    pub fn new(keep_profiles: bool, cargo_args: Vec<String>, cargo_env: Vec<(String, String)>) -> (r:
        Self)
        ensures
            r.keep_profiles_spec() == keep_profiles,
            r.cargo_args_spec() == cargo_args@,
            r.cargo_env_spec() == cargo_env@,
    {
        PgoInstrumentShortcutArgs { keep_profiles, cargo_args, cargo_env }
    }

    /// Completes the request with the cargo command to run.
    pub fn into_full_args(self, command: CargoCommand) -> (r: PgoInstrumentArgs)
        ensures
            r.command == command,
            r.keep_profiles == self.keep_profiles_spec(),
            r.cargo_args@ == self.cargo_args_spec(),
            r.cargo_env@ == self.cargo_env_spec(),
    {
        let PgoInstrumentShortcutArgs { keep_profiles, cargo_args, cargo_env: env } = self;
        PgoInstrumentArgs { command, keep_profiles, cargo_args, cargo_env: env }
    }
}

} // verus!
