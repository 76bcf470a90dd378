use cargo_pgo::args::PgoInstrumentShortcutArgs;
use cargo_pgo::command::{build_invocation, profile_generate_flag, CargoCommand};
use cargo_pgo::event::{artifact_kind, TargetKind};

fn strings(v: &[&str]) -> Vec<String> {
    v.iter().map(|s| s.to_string()).collect()
}

fn pair(k: &str, v: &str) -> (String, String) {
    (k.to_string(), v.to_string())
}

#[test]
fn command_names() {
    assert_eq!(CargoCommand::Build.to_str(), "build");
    assert_eq!(CargoCommand::Test.to_str(), "test");
    assert_eq!(CargoCommand::Run.to_str(), "run");
    assert_eq!(CargoCommand::Bench.to_str(), "bench");
}

#[test]
fn flag_names_directory() {
    assert_eq!(profile_generate_flag("/tmp/pgo"), "-Cprofile-generate=/tmp/pgo");
    assert_eq!(profile_generate_flag(""), "-Cprofile-generate=");
}

#[test]
fn invocation_keeps_arguments_in_order() {
    let inv = build_invocation(
        CargoCommand::Build,
        "-Cprofile-generate=/p",
        strings(&["--release", "--bin", "x", "--release"]),
        vec![],
        None,
    );
    assert_eq!(
        inv.args,
        strings(&["build", "--message-format", "json-diagnostic-rendered-ansi", "--release", "--bin", "x", "--release"])
    );
    assert_eq!(inv.env, vec![pair("RUSTFLAGS", " -Cprofile-generate=/p")]);
}

#[test]
fn invocation_without_arguments() {
    let inv = build_invocation(CargoCommand::Test, "-Cx", vec![], vec![], None);
    assert_eq!(inv.args, strings(&["test", "--message-format", "json-diagnostic-rendered-ansi"]));
}

#[test]
fn flag_appended_to_inherited_rustflags() {
    let inv = build_invocation(
        CargoCommand::Run,
        "-Cprofile-generate=/p",
        vec![],
        vec![pair("FOO", "1")],
        Some("-Ctarget-cpu=native".to_string()),
    );
    assert_eq!(
        inv.env,
        vec![pair("FOO", "1"), pair("RUSTFLAGS", "-Ctarget-cpu=native -Cprofile-generate=/p")]
    );
}

#[test]
fn caller_rustflags_override_inherited() {
    let inv = build_invocation(
        CargoCommand::Bench,
        "-Cprofile-generate=/p",
        vec![],
        vec![pair("RUSTFLAGS", "-Ca"), pair("X", "y"), pair("RUSTFLAGS", "-Cb")],
        Some("-Cinherited".to_string()),
    );
    assert_eq!(
        inv.env,
        vec![
            pair("RUSTFLAGS", "-Ca"),
            pair("X", "y"),
            pair("RUSTFLAGS", "-Cb"),
            pair("RUSTFLAGS", "-Cb -Cprofile-generate=/p"),
        ]
    );
}

#[test]
fn shortcut_args_complete() {
    let short = PgoInstrumentShortcutArgs::new(true, strings(&["-p", "a"]), vec![pair("K", "V")]);
    let full = short.into_full_args(CargoCommand::Test);
    assert_eq!(full.command, CargoCommand::Test);
    assert!(full.keep_profiles);
    assert_eq!(full.cargo_args, strings(&["-p", "a"]));
    assert_eq!(full.cargo_env, vec![pair("K", "V")]);
}

#[test]
fn artifact_kind_words() {
    assert_eq!(artifact_kind(&vec![TargetKind::Bin]), "binary");
    assert_eq!(artifact_kind(&vec![TargetKind::Bench]), "benchmark");
    assert_eq!(artifact_kind(&vec![TargetKind::Example]), "example");
    assert_eq!(artifact_kind(&vec![TargetKind::Lib, TargetKind::Test]), "artifact");
    assert_eq!(artifact_kind(&vec![]), "artifact");
    assert_eq!(artifact_kind(&vec![TargetKind::Lib, TargetKind::Example, TargetKind::Bin]), "example");
}
