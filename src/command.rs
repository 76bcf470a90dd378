use vstd::prelude::*;

verus! {

/// A cargo subcommand that can be run with instrumentation.
#[derive(Debug, Clone, Copy, PartialEq, Eq, Structural)]
pub enum CargoCommand {
    Build,
    Test,
    Run,
    Bench,
}

/// The name under which cargo knows the subcommand.
pub open spec fn command_name(c: CargoCommand) -> Seq<char> {
    match c {
        CargoCommand::Build => "build"@,
        CargoCommand::Test => "test"@,
        CargoCommand::Run => "run"@,
        CargoCommand::Bench => "bench"@,
    }
}

impl CargoCommand {
    pub fn to_str(&self) -> (r: &'static str)
        ensures
            r@ == command_name(*self),
    {
        match self {
            CargoCommand::Build => "build",
            CargoCommand::Test => "test",
            CargoCommand::Run => "run",
            CargoCommand::Bench => "bench",
        }
    }
}

/// The rustc flag that makes an instrumented binary write its profiles into `dir`.
pub open spec fn profile_generate_flag_spec(dir: Seq<char>) -> Seq<char> {
    "-Cprofile-generate="@ + dir
}

pub fn profile_generate_flag(dir: &str) -> (r: String)
    ensures
        r@ == profile_generate_flag_spec(dir@),
{
    let s = String::from_str("-Cprofile-generate=");
    s.concat(dir)
}

/// What a list of strings holds, string by string.
pub open spec fn strings_view(v: Seq<String>) -> Seq<Seq<char>> {
    v.map_values(|s: String| s@)
}

/// What a list of environment entries holds, entry by entry.
pub open spec fn env_view(e: Seq<(String, String)>) -> Seq<(Seq<char>, Seq<char>)> {
    e.map_values(|p: (String, String)| (p.0@, p.1@))
}

/// The value that `key` ends up with once the entries are applied in order:
/// the last entry with that key wins.
pub open spec fn env_value(env: Seq<(Seq<char>, Seq<char>)>, key: Seq<char>) -> Option<Seq<char>>
    decreases env.len(),
{
    if env.len() == 0 {
        None
    } else if env.last().0 == key {
        Some(env.last().1)
    } else {
        env_value(env.drop_last(), key)
    }
}

/// What an optional string holds.
pub open spec fn opt_string_view(o: Option<String>) -> Option<Seq<char>> {
    match o {
        Some(s) => Some(s@),
        None => None,
    }
}

/// The environment variable through which cargo hands flags to rustc.
pub open spec fn rustflags_key() -> Seq<char> {
    "RUSTFLAGS"@
}

/// The output format asked of cargo, so that its progress can be decoded.
pub open spec fn message_format() -> Seq<char> {
    "json-diagnostic-rendered-ansi"@
}

/// The arguments of the invocation: subcommand, message format, then the
/// caller's arguments in their order.
pub open spec fn invocation_args(command: CargoCommand, cargo_args: Seq<Seq<char>>) -> Seq<Seq<char>> {
    seq![command_name(command), "--message-format"@, message_format()] + cargo_args
}

/// The rustc flags in force before the instrumentation flag is added: the
/// caller's own `RUSTFLAGS` entry if it has one, else the inherited value.
pub open spec fn base_rustflags(
    cargo_env: Seq<(Seq<char>, Seq<char>)>,
    inherited: Option<Seq<char>>,
) -> Seq<char> {
    match env_value(cargo_env, rustflags_key()) {
        Some(v) => v,
        None => match inherited {
            Some(v) => v,
            None => Seq::empty(),
        },
    }
}

/// The `RUSTFLAGS` value of the invocation: the flags in force, a space, then `flags`.
pub open spec fn invocation_rustflags(
    cargo_env: Seq<(Seq<char>, Seq<char>)>,
    inherited: Option<Seq<char>>,
    flags: Seq<char>,
) -> Seq<char> {
    base_rustflags(cargo_env, inherited) + " "@ + flags
}

/// A cargo process to launch: its arguments, and the environment entries
/// applied, in order, on top of the inherited environment.
pub struct CargoInvocation {
    pub args: Vec<String>,
    pub env: Vec<(String, String)>,
}

fn is_rustflags_key(k: &String) -> (r: bool)
    ensures
        r == (k@ == rustflags_key()),
{
    let key = String::from_str("RUSTFLAGS");
    *k == key
}

/// Position of the entry that decides the value of `RUSTFLAGS`, if any.
fn find_rustflags(env: &Vec<(String, String)>) -> (r: Option<usize>)
    ensures
        match r {
            Some(j) => j < env@.len() && env_value(env_view(env@), rustflags_key()) == Some(
                env@[j as int].1@,
            ),
            None => env_value(env_view(env@), rustflags_key()) is None,
        },
{
    let mut found: Option<usize> = None;
    let mut i: usize = 0;
    while i < env.len()
        invariant
            i <= env@.len(),
            match found {
                Some(j) => j < i && env_value(env_view(env@.take(i as int)), rustflags_key())
                    == Some(env@[j as int].1@),
                None => env_value(env_view(env@.take(i as int)), rustflags_key()) is None,
            },
        decreases env@.len() - i,
    {
        let ghost before = env_view(env@.take(i as int));
        let ghost after = env_view(env@.take(i + 1));
        assert(after.drop_last() =~= before);
        assert(after.last() == (env@[i as int].0@, env@[i as int].1@));
        if is_rustflags_key(&env[i].0) {
            found = Some(i);
        }
        i = i + 1;
    }
    assert(env@.take(env@.len() as int) =~= env@);
    found
}

/// Builds the cargo invocation of an instrumented build: the subcommand asks
/// for decodable output and passes the caller's arguments on verbatim; `flags`
/// is appended to the rustc flags in force (`RUSTFLAGS` of `cargo_env`, else
/// `inherited_rustflags`), and the caller's entries come first in the
/// environment, followed by the resulting `RUSTFLAGS`.
pub fn build_invocation(
    command: CargoCommand,
    flags: &str,
    cargo_args: Vec<String>,
    cargo_env: Vec<(String, String)>,
    inherited_rustflags: Option<String>,
) -> (r: CargoInvocation)
    ensures
        strings_view(r.args@) == invocation_args(command, strings_view(cargo_args@)),
        env_view(r.env@) == env_view(cargo_env@).push(
            (
                rustflags_key(),
                invocation_rustflags(env_view(cargo_env@), opt_string_view(inherited_rustflags), flags@),
            ),
        ),
{
    let mut args: Vec<String> = Vec::new();
    args.push(String::from_str(command.to_str()));
    args.push(String::from_str("--message-format"));
    args.push(String::from_str("json-diagnostic-rendered-ansi"));
    let ghost prefix = strings_view(args@);
    let mut i: usize = 0;
    while i < cargo_args.len()
        invariant
            i <= cargo_args@.len(),
            prefix == seq![command_name(command), "--message-format"@, message_format()],
            strings_view(args@) == prefix + strings_view(cargo_args@.take(i as int)),
        decreases cargo_args@.len() - i,
    {
        let ghost args0 = args@;
        args.push(cargo_args[i].clone());
        proof {
            assert(strings_view(args@) =~= strings_view(args0).push(cargo_args@[i as int]@));
            assert(strings_view(cargo_args@.take(i + 1)) =~= strings_view(
                cargo_args@.take(i as int),
            ).push(cargo_args@[i as int]@));
        }
        i = i + 1;
    }
    assert(cargo_args@.take(cargo_args@.len() as int) =~= cargo_args@);
    let mut rustflags = match find_rustflags(&cargo_env) {
        Some(j) => cargo_env[j].1.clone(),
        None => match inherited_rustflags {
            Some(s) => s,
            None => String::new(),
        },
    };
    rustflags.append(" ");
    rustflags.append(flags);
    let mut env = cargo_env;
    let ghost env0 = env@;
    env.push((String::from_str("RUSTFLAGS"), rustflags));
    assert(env_view(env@) =~= env_view(env0).push(
        (rustflags_key(), env@.last().1@),
    ));
    CargoInvocation { args, env }
}

} // verus!
