use cargo_pgo::args::PgoInstrumentArgs;
use cargo_pgo::command::CargoCommand;
use cargo_pgo::event::{BuildEvent, TargetKind};
use cargo_pgo::instrument::{prepare_plan, InstrumentRun, Record, RunFailure};
use cargo_pgo::report::{Level, Tone};

fn start(command: CargoCommand, dir: &str) -> InstrumentRun {
    let args = PgoInstrumentArgs {
        command,
        keep_profiles: false,
        cargo_args: vec!["--release".to_string()],
        cargo_env: vec![],
    };
    InstrumentRun::launch(args, dir.to_string(), None).run
}

fn artifact(exe: Option<&str>, target: &str) -> Record {
    Ok(BuildEvent::ArtifactProduced {
        executable: exe.map(|s| s.to_string()),
        target_name: target.to_string(),
        target_kinds: vec![TargetKind::Bin],
    })
}

#[test]
fn launch_carries_flag_for_directory() {
    let args = PgoInstrumentArgs {
        command: CargoCommand::Build,
        keep_profiles: true,
        cargo_args: vec!["--release".to_string()],
        cargo_env: vec![("A".to_string(), "b".to_string())],
    };
    let launch = InstrumentRun::launch(args, "/work/target/pgo-profiles".to_string(), None);
    assert_eq!(
        launch.invocation.args,
        vec!["build", "--message-format", "json-diagnostic-rendered-ansi", "--release"]
    );
    assert_eq!(launch.invocation.env.len(), 2);
    assert_eq!(launch.invocation.env[1].0, "RUSTFLAGS");
    assert_eq!(launch.invocation.env[1].1, " -Cprofile-generate=/work/target/pgo-profiles");
    assert!(!launch.run.is_aborted());
}

#[test]
fn artifact_then_success_build() {
    let mut run = start(CargoCommand::Build, "/pgo");
    let r1 = run.observe(artifact(Some("/t/release/foo"), "foo")).unwrap();
    assert!(!r1.forward);
    assert_eq!(r1.lines.len(), 2);
    assert_eq!(r1.lines[0].level, Level::Info);
    assert_eq!(r1.lines[0].text(), "PGO-instrumented binary foo built successfully.");
    let guidance = r1.lines[1].text();
    assert!(guidance.starts_with("Now run /t/release/foo on your workload.\n"));
    assert!(guidance.ends_with("LLVM_PROFILE_FILE=/pgo/foo_%m_%p.profraw"));
    let r2 = run.observe(Ok(BuildEvent::BuildFinished { success: true })).unwrap();
    assert_eq!(r2.lines.len(), 1);
    assert_eq!(r2.lines[0].level, Level::Info);
    assert_eq!(r2.lines[0].text(), "PGO instrumentation build finished successfully.");
    assert_eq!(r2.lines[0].segments[1].tone, Tone::Green);
    assert_eq!(run.finish(true), Ok(()));
}

#[test]
fn no_guidance_without_executable() {
    let mut run = start(CargoCommand::Build, "/pgo");
    let r = run.observe(artifact(None, "lib")).unwrap();
    assert!(r.lines.is_empty());
    assert!(!r.forward);
}

#[test]
fn no_guidance_outside_build() {
    let mut run = start(CargoCommand::Test, "/pgo");
    let r = run.observe(artifact(Some("/t/foo"), "foo")).unwrap();
    assert!(r.lines.is_empty());
}

#[test]
fn other_records_are_forwarded() {
    let mut run = start(CargoCommand::Build, "/pgo");
    let r = run.observe(Ok(BuildEvent::Other)).unwrap();
    assert!(r.lines.is_empty());
    assert!(r.forward);
}

#[test]
fn exit_status_wins_over_reported_failure() {
    let mut run = start(CargoCommand::Build, "/pgo");
    let r = run.observe(Ok(BuildEvent::BuildFinished { success: false })).unwrap();
    assert_eq!(r.lines.len(), 1);
    assert_eq!(r.lines[0].level, Level::Error);
    assert_eq!(r.lines[0].text(), "PGO instrumentation build has failed.");
    assert_eq!(r.lines[0].segments[1].tone, Tone::Red);
    assert_eq!(run.finish(true), Ok(()));
    assert_eq!(run.finish(false), Err(RunFailure::ToolchainFailed));
}

#[test]
fn failed_exit_is_toolchain_failure() {
    let mut run = start(CargoCommand::Build, "/pgo");
    run.observe(Ok(BuildEvent::BuildFinished { success: true })).unwrap();
    assert_eq!(run.finish(false), Err(RunFailure::ToolchainFailed));
}

#[test]
fn decode_error_aborts_run() {
    let mut run = start(CargoCommand::Build, "/pgo");
    assert!(run.observe(Ok(BuildEvent::Other)).is_ok());
    let bad = run.observe(Err("expected value at line 1".to_string()));
    assert_eq!(bad.unwrap_err(), RunFailure::Decode("expected value at line 1".to_string()));
    assert!(run.is_aborted());
    let later = run.observe(artifact(Some("/t/foo"), "foo"));
    assert_eq!(later.unwrap_err(), RunFailure::Decode("expected value at line 1".to_string()));
    let later = run.observe(Err("second".to_string()));
    assert_eq!(later.unwrap_err(), RunFailure::Decode("expected value at line 1".to_string()));
    assert_eq!(run.finish(true), Err(RunFailure::Decode("expected value at line 1".to_string())));
}

#[test]
fn prepare_clears_unless_kept() {
    let plan = prepare_plan(false, "/pgo");
    assert!(plan.clear);
    assert_eq!(plan.clear_notice.unwrap().text(), "PGO profile directory will be cleared.");
    assert_eq!(plan.storage_notice.text(), "PGO profiles will be stored into /pgo.");
    assert_eq!(plan.storage_notice.segments[1].tone, Tone::Path);
    let plan = prepare_plan(true, "/pgo");
    assert!(!plan.clear);
    assert!(plan.clear_notice.is_none());
    assert_eq!(plan.storage_notice.text(), "PGO profiles will be stored into /pgo.");
}
