use vstd::prelude::*;

use crate::args::PgoInstrumentArgs;
use crate::command::{
    base_rustflags, build_invocation, env_value, env_view, invocation_args, invocation_rustflags, opt_string_view,
    profile_generate_flag, profile_generate_flag_spec, rustflags_key, strings_view, CargoCommand,
    CargoInvocation,
};
use crate::event::{artifact_kind, artifact_kind_spec, BuildEvent};
use crate::report::{
    artifact_notice, artifact_notice_spec, clear_notice, clear_notice_spec, finished_notice,
    finished_notice_spec, guidance, guidance_spec, lines_view, storage_notice, storage_notice_spec,
    Level, LogLine, Tone,
};

verus! {

/// Why an instrumented build did not succeed.
#[derive(Debug, PartialEq, Eq)]
pub enum RunFailure {
    /// A record of cargo's output could not be decoded; consumption stopped there.
    Decode(String),
    /// Cargo exited with a failure status.
    ToolchainFailed,
}

/// What is done to the profile directory before the build.
#[derive(Debug)]
pub struct PreparePlan {
    /// Whether the directory's contents are removed first.
    pub clear: bool,
    /// Shown before the contents are removed, when they are.
    pub clear_notice: Option<LogLine>,
    /// Shown once the directory is ready.
    pub storage_notice: LogLine,
}

/// Decides what happens to the profile directory `dir`: its contents are
/// removed unless earlier profiles are to be kept.
pub fn prepare_plan(keep_profiles: bool, dir: &str) -> (r: PreparePlan)
    ensures
        r.clear == !keep_profiles,
        match r.clear_notice {
            Some(l) => r.clear && l@ == clear_notice_spec(),
            None => !r.clear,
        },
        r.storage_notice@ == storage_notice_spec(dir@),
{
    let clear_notice = if keep_profiles {
        None
    } else {
        Some(clear_notice())
    };
    PreparePlan { clear: !keep_profiles, clear_notice, storage_notice: storage_notice(dir) }
}

/// The state of a run as the event stream is consumed.
pub ghost struct RunState {
    pub command: CargoCommand,
    pub profile_dir: Seq<char>,
    /// The message of the record that could not be decoded, once one was met.
    pub aborted: Option<Seq<char>>,
}

/// An instrumented build whose progress is being consumed.
pub struct InstrumentRun {
    command: CargoCommand,
    profile_dir: String,
    aborted: Option<String>,
}

impl View for InstrumentRun {
    type V = RunState;

    closed spec fn view(&self) -> RunState {
        RunState {
            command: self.command,
            profile_dir: self.profile_dir@,
            aborted: match self.aborted {
                Some(e) => Some(e@),
                None => None,
            },
        }
    }
}

/// What the orchestrator does with one record.
#[derive(Debug)]
pub struct Reaction {
    /// Lines to show the operator, in order.
    pub lines: Vec<LogLine>,
    /// Whether the record goes on to the generic handler.
    pub forward: bool,
}

/// A decoded record, or the message of a record that could not be decoded.
pub type Record = Result<BuildEvent, String>;

/// The lines shown for an event.
pub open spec fn event_lines(s: RunState, e: BuildEvent) -> Seq<(Level, Seq<(Seq<char>, Tone)>)> {
    match e {
        BuildEvent::ArtifactProduced { executable, target_name, target_kinds } => {
            match executable {
                Some(p) => if s.command == CargoCommand::Build {
                    seq![
                        artifact_notice_spec(artifact_kind_spec(target_kinds@), target_name@),
                        guidance_spec(p@, s.profile_dir, target_name@),
                    ]
                } else {
                    Seq::empty()
                },
                None => Seq::empty(),
            }
        },
        BuildEvent::BuildFinished { success } => seq![finished_notice_spec(success)],
        BuildEvent::Other => Seq::empty(),
    }
}

/// The lines shown for a record: none once the run is aborted.
pub open spec fn record_lines(s: RunState, r: Record) -> Seq<(Level, Seq<(Seq<char>, Tone)>)> {
    if s.aborted is Some {
        Seq::empty()
    } else {
        match r {
            Ok(e) => event_lines(s, e),
            Err(_) => Seq::empty(),
        }
    }
}

/// Whether a record goes on to the generic handler.
pub open spec fn record_forwarded(s: RunState, r: Record) -> bool {
    s.aborted is None && r matches Ok(BuildEvent::Other)
}

/// The state after a record: the first undecodable record aborts the run.
pub open spec fn next_state(s: RunState, r: Record) -> RunState {
    match r {
        Err(m) => if s.aborted is None {
            RunState { aborted: Some(m@), ..s }
        } else {
            s
        },
        Ok(_) => s,
    }
}

/// The state after a sequence of records.
pub open spec fn state_after(s: RunState, rs: Seq<Record>) -> RunState
    decreases rs.len(),
{
    if rs.len() == 0 {
        s
    } else {
        next_state(state_after(s, rs.drop_last()), rs.last())
    }
}

/// The lines shown for a sequence of records, in order.
pub open spec fn lines_after(s: RunState, rs: Seq<Record>) -> Seq<(Level, Seq<(Seq<char>, Tone)>)>
    decreases rs.len(),
{
    if rs.len() == 0 {
        Seq::empty()
    } else {
        lines_after(s, rs.drop_last()) + record_lines(state_after(s, rs.drop_last()), rs.last())
    }
}

/// Whether `r` is how a run in state `s` ends when cargo exits with
/// `exit_success`: a decode failure, else cargo's exit status decides.
pub open spec fn is_outcome(s: RunState, exit_success: bool, r: Result<(), RunFailure>) -> bool {
    match s.aborted {
        Some(m) => match r {
            Err(RunFailure::Decode(x)) => x@ == m,
            _ => false,
        },
        None => if exit_success {
            r is Ok
        } else {
            r matches Err(RunFailure::ToolchainFailed)
        },
    }
}

/// A run ready to start, with the cargo process to launch for it.
pub struct Launch {
    pub run: InstrumentRun,
    pub invocation: CargoInvocation,
}

impl InstrumentRun {
    /// Starts a run that writes profiles into `profile_dir`: the cargo
    /// invocation carries the profile-generating flag for that directory.
    pub fn launch(args: PgoInstrumentArgs, profile_dir: String, inherited_rustflags: Option<String>) -> (r:
        Launch)
        ensures
            r.run@ == (RunState { command: args.command, profile_dir: profile_dir@, aborted: None }),
            strings_view(r.invocation.args@) == invocation_args(
                args.command,
                strings_view(args.cargo_args@),
            ),
            env_view(r.invocation.env@) == env_view(args.cargo_env@).push(
                (
                    rustflags_key(),
                    invocation_rustflags(
                        env_view(args.cargo_env@),
                        opt_string_view(inherited_rustflags),
                        profile_generate_flag_spec(profile_dir@),
                    ),
                ),
            ),
    {
        let flags = profile_generate_flag(profile_dir.as_str());
        let invocation = build_invocation(
            args.command,
            flags.as_str(),
            args.cargo_args,
            args.cargo_env,
            inherited_rustflags,
        );
        Launch { run: InstrumentRun { command: args.command, profile_dir, aborted: None }, invocation }
    }

    /// Whether an undecodable record has stopped the run.
    pub fn is_aborted(&self) -> (r: bool)
        ensures
            r == self@.aborted is Some,
    {
        self.aborted.is_some()
    }

    /// Takes the next record of cargo's output. A record that cannot be
    /// decoded stops the run: it and every later record give the decode failure.
    pub fn observe(&mut self, record: Record) -> (r: Result<Reaction, RunFailure>)
        ensures
            final(self)@ == next_state(old(self)@, record),
            match r {
                Ok(re) => final(self)@.aborted is None && lines_view(re.lines@) == record_lines(
                    old(self)@,
                    record,
                ) && re.forward == record_forwarded(old(self)@, record),
                Err(RunFailure::Decode(m)) => final(self)@.aborted == Some(m@),
                Err(RunFailure::ToolchainFailed) => false,
            },
    {
        if let Some(m) = &self.aborted {
            return Err(RunFailure::Decode(m.clone()));
        }
        match record {
            Err(m) => {
                self.aborted = Some(m.clone());
                Err(RunFailure::Decode(m))
            },
            Ok(BuildEvent::ArtifactProduced { executable, target_name, target_kinds }) => {
                let mut lines: Vec<LogLine> = Vec::new();
                if let Some(p) = &executable {
                    if let CargoCommand::Build = self.command {
                        lines.push(artifact_notice(artifact_kind(&target_kinds), target_name.as_str()));
                        lines.push(guidance(p.as_str(), self.profile_dir.as_str(), target_name.as_str()));
                    }
                }
                Ok(Reaction { lines, forward: false })
            },
            Ok(BuildEvent::BuildFinished { success }) => {
                let mut lines: Vec<LogLine> = Vec::new();
                lines.push(finished_notice(success));
                Ok(Reaction { lines, forward: false })
            },
            Ok(BuildEvent::Other) => Ok(Reaction { lines: Vec::new(), forward: true }),
        }
    }

    /// How the run ends once cargo has exited with `exit_success`.
    pub fn finish(&self, exit_success: bool) -> (r: Result<(), RunFailure>)
        ensures
            is_outcome(self@, exit_success, r),
    {
        match &self.aborted {
            Some(m) => Err(RunFailure::Decode(m.clone())),
            None => if exit_success {
                Ok(())
            } else {
                Err(RunFailure::ToolchainFailed)
            },
        }
    }
}

/// Records taken one after the other: consuming `a + b` is consuming `a`, then `b`.
proof fn lemma_split(s: RunState, a: Seq<Record>, b: Seq<Record>)
    ensures
        state_after(s, a + b) == state_after(state_after(s, a), b),
        lines_after(s, a + b) == lines_after(s, a) + lines_after(state_after(s, a), b),
    decreases b.len(),
{
    if b.len() == 0 {
        assert(a + b =~= a);
        assert(lines_after(s, a) + Seq::empty() =~= lines_after(s, a));
    } else {
        lemma_split(s, a, b.drop_last());
        assert((a + b).drop_last() =~= a + b.drop_last());
        assert((a + b).last() == b.last());
        let t = state_after(s, a);
        assert(lines_after(s, a) + lines_after(t, b.drop_last()) + record_lines(
            state_after(t, b.drop_last()),
            b.last(),
        ) =~= lines_after(s, a) + (lines_after(t, b.drop_last()) + record_lines(
            state_after(t, b.drop_last()),
            b.last(),
        )));
    }
}

/// Once a run is aborted, records change nothing and show nothing.
proof fn lemma_aborted_stays(s: RunState, rs: Seq<Record>)
    requires
        s.aborted is Some,
    ensures
        state_after(s, rs) == s,
        lines_after(s, rs) == Seq::<(Level, Seq<(Seq<char>, Tone)>)>::empty(),
    decreases rs.len(),
{
    if rs.len() > 0 {
        lemma_aborted_stays(s, rs.drop_last());
        assert(Seq::<(Level, Seq<(Seq<char>, Tone)>)>::empty() + Seq::empty() =~= Seq::empty());
    }
}

/// Records that all decode leave the state as it was.
proof fn lemma_decoded_keep_state(s: RunState, rs: Seq<Record>)
    requires
        forall|i: int| 0 <= i < rs.len() ==> (#[trigger] rs[i]) is Ok,
    ensures
        state_after(s, rs) == s,
    decreases rs.len(),
{
    if rs.len() > 0 {
        assert forall|i: int| 0 <= i < rs.drop_last().len() implies (#[trigger] rs.drop_last()[i]) is Ok by {
            assert(rs.drop_last()[i] == rs[i]);
        }
        lemma_decoded_keep_state(s, rs.drop_last());
        assert(rs.last() == rs[rs.len() - 1]);
    }
}

/// Cargo's exit status decides the outcome of a run whose records all
/// decoded, whatever cargo reported at the end of the build: success exactly
/// when cargo exited successfully, a toolchain failure otherwise.
pub proof fn exit_status_decides(s: RunState, rs: Seq<Record>, exit_success: bool, r: Result<(), RunFailure>)
    requires
        s.aborted is None,
        forall|i: int| 0 <= i < rs.len() ==> (#[trigger] rs[i]) is Ok,
    ensures
        is_outcome(state_after(s, rs), exit_success, r) == (if exit_success {
            r is Ok
        } else {
            r matches Err(RunFailure::ToolchainFailed)
        }),
{
    lemma_decoded_keep_state(s, rs);
}

/// A record that cannot be decoded ends consumption: no record after it
/// shows anything or changes the state, and the run ends in a decode failure
/// whatever cargo's exit status.
pub proof fn decode_error_stops(
    s: RunState,
    before: Seq<Record>,
    m: String,
    after: Seq<Record>,
    exit_success: bool,
    r: Result<(), RunFailure>,
)
    ensures
        state_after(s, before.push(Err(m)) + after) == state_after(s, before.push(Err(m))),
        lines_after(s, before.push(Err(m)) + after) == lines_after(s, before.push(Err(m))),
        is_outcome(state_after(s, before.push(Err(m)) + after), exit_success, r) ==> r matches Err(
            RunFailure::Decode(_),
        ),
{
    let head = before.push(Err(m));
    assert(head.drop_last() =~= before);
    let t = state_after(s, head);
    assert(t.aborted is Some);
    lemma_aborted_stays(t, after);
    lemma_split(s, head, after);
    assert(lines_after(s, head) + Seq::empty() =~= lines_after(s, head));
}

/// The cargo process of a run gets the profile-generating flag for the
/// run's directory as the last of the rustc flags in force, whatever
/// environment the caller gives, and the caller's arguments follow the
/// subcommand's own, each once and in their order.
pub proof fn launch_passes_flag_and_args(
    command: CargoCommand,
    cargo_args: Seq<Seq<char>>,
    cargo_env: Seq<(Seq<char>, Seq<char>)>,
    inherited: Option<Seq<char>>,
    dir: Seq<char>,
)
    ensures
        env_value(
            cargo_env.push(
                (
                    rustflags_key(),
                    invocation_rustflags(cargo_env, inherited, profile_generate_flag_spec(dir)),
                ),
            ),
            rustflags_key(),
        ) == Some(base_rustflags(cargo_env, inherited) + " "@ + profile_generate_flag_spec(dir)),
        invocation_args(command, cargo_args).len() == 3 + cargo_args.len(),
        invocation_args(command, cargo_args).subrange(3, 3 + cargo_args.len() as int) == cargo_args,
{
    let e = cargo_env.push(
        (rustflags_key(), invocation_rustflags(cargo_env, inherited, profile_generate_flag_spec(dir))),
    );
    assert(e.last().0 == rustflags_key());
    assert(invocation_args(command, cargo_args).subrange(3, 3 + cargo_args.len() as int) =~= cargo_args);
}

} // verus!
