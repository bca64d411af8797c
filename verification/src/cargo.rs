//! The cargo commands that run in a sandbox, and what of the caller's
//! environment goes with them.

use crate::container_type::ContainerType;
use crate::error::SandboxError;
use crate::text::{clone_texts, first_of, lemma_first_is_unique, position, same_text};
use vstd::prelude::*;

verus! {

/// One run of a command in a container of a purpose.
#[derive(Clone, Debug, PartialEq)]
pub struct Run {
    pub command: Vec<String>,
    pub container_type: ContainerType,
}

impl View for Run {
    type V = (Seq<Seq<char>>, ContainerType);

    open spec fn view(&self) -> (Seq<Seq<char>>, ContainerType) {
        (self.command.deep_view(), self.container_type)
    }
}

/// The runs of a list, each as its command and its purpose.
pub open spec fn run_views(runs: Seq<Run>) -> Seq<(Seq<Seq<char>>, ContainerType)> {
    Seq::new(runs.len(), |i: int| runs[i]@)
}

/// The words that call cargo: by itself, or through `riff`.
pub open spec fn cargo_words(riff: bool) -> Seq<Seq<char>> {
    if riff {
        seq!["riff"@, "run"@, "cargo"@]
    } else {
        seq!["cargo"@]
    }
}

/// The command that runs cargo with the given arguments.
pub fn make_cargo_cmd(riff: bool, args: Vec<String>) -> (cargo_cmd: Vec<String>)
    ensures
        cargo_cmd.deep_view() == cargo_words(riff) + args.deep_view(),
{
    let mut args = args;
    let mut cargo_cmd: Vec<String> = Vec::new();
    if riff {
        cargo_cmd.push(String::from_str("riff"));
        cargo_cmd.push(String::from_str("run"));
    }
    cargo_cmd.push(String::from_str("cargo"));
    let ghost words = cargo_cmd;
    let ghost given = args;
    cargo_cmd.append(&mut args);
    proof {
        assert(words.deep_view() =~= cargo_words(riff));
        assert(cargo_cmd.deep_view() =~= words.deep_view() + given.deep_view());
    }
    cargo_cmd
}

/// The list with `insert` put in behind the first `needle`.
pub open spec fn inserted_after(texts: Seq<Seq<char>>, needle: Seq<char>, insert: Seq<char>) -> Seq<
    Seq<char>,
> {
    texts.insert(first_of(texts, needle) + 1, insert)
}

/// Puts `insert` in behind the first argument that equals `needle`.
pub fn insert_after(args: &mut Vec<String>, needle: &str, insert: String)
    requires
        old(args).deep_view().contains(needle@),
    ensures
        final(args).deep_view() == inserted_after(old(args).deep_view(), needle@, insert@),
{
    match position(args, needle) {
        Some(index) => {
            proof {
                lemma_first_is_unique(args.deep_view(), needle@, index as int);
            }
            let ghost before = args.deep_view();
            assert(index < args.len());
            args.insert(index + 1, insert);
            assert(args.deep_view() =~= before.insert(index + 1, insert@));
        },
        None => {},
    }
}

/// The runs of a build: one, in a container for building.
pub fn cargo_build(args: Vec<String>) -> (run: Run)
    ensures
        run@ == (cargo_words(false) + args.deep_view(), ContainerType::Build),
{
    Run { command: make_cargo_cmd(false, args), container_type: ContainerType::Build }
}

/// The runs of a check: one, in a container for building.
pub fn cargo_check(args: Vec<String>) -> (run: Run)
    ensures
        run@ == (cargo_words(false) + args.deep_view(), ContainerType::Build),
{
    Run { command: make_cargo_cmd(false, args), container_type: ContainerType::Build }
}

/// What `cargo publish` with the given command runs. The package is verified
/// first, in a container for building, unless `--no-verify` is given; that
/// run is made a dry one. It is published second, in a container for
/// publishing, unless `--dry-run` is given. Where neither is given, each of
/// the two runs gets its own flag behind `publish`.
pub open spec fn publish_runs(command: Seq<Seq<char>>) -> Seq<(Seq<Seq<char>>, ContainerType)> {
    let verifies = !command.contains("--no-verify"@);
    let publishes = !command.contains("--dry-run"@);
    let verifying = if publishes {
        inserted_after(command, "publish"@, "--dry-run"@)
    } else {
        command
    };
    let publishing = if verifies {
        inserted_after(command, "publish"@, "--very-verify"@)
    } else {
        command
    };
    if verifies && publishes {
        seq![(verifying, ContainerType::Build), (publishing, ContainerType::Publish)]
    } else if verifies {
        seq![(verifying, ContainerType::Build)]
    } else if publishes {
        seq![(publishing, ContainerType::Publish)]
    } else {
        Seq::empty()
    }
}

/// Whether a list of texts holds `needle`.
fn holds(texts: &Vec<String>, needle: &str) -> (held: bool)
    ensures
        held == texts.deep_view().contains(needle@),
{
    match position(texts, needle) {
        Some(i) => {
            assert(texts.deep_view()[i as int] == needle@);
            true
        },
        None => false,
    }
}

/// The runs of a publication, in their order. [`next_run`] says which of them
/// is made when: none after one that failed.
pub fn cargo_publish(args: Vec<String>) -> (runs: Vec<Run>)
    requires
        !args.deep_view().contains("--no-verify"@) && !args.deep_view().contains("--dry-run"@)
            ==> args.deep_view().contains("publish"@),
    ensures
        run_views(runs@) == publish_runs(cargo_words(false) + args.deep_view()),
{
    let ghost given = args.deep_view();
    let cargo_cmd = make_cargo_cmd(false, args);
    let ghost command = cargo_cmd.deep_view();
    proof {
        reveal_strlit("cargo");
        reveal_strlit("publish");
        reveal_strlit("--no-verify");
        reveal_strlit("--dry-run");
        assert("cargo"@.len() == 5);
        assert("publish"@.len() == 7);
        assert("--no-verify"@.len() == 11);
        assert("--dry-run"@.len() == 9);
        assert(command[0] == "cargo"@);
        assert forall|needle: Seq<char>| needle != "cargo"@ implies (#[trigger] command.contains(
            needle,
        ) <==> given.contains(needle)) by {
            if command.contains(needle) {
                let i = choose|i: int| 0 <= i < command.len() && command[i] == needle;
                assert(given[i - 1] == needle);
            }
            if given.contains(needle) {
                let i = choose|i: int| 0 <= i < given.len() && given[i] == needle;
                assert(command[i + 1] == needle);
            }
        }
        assert(command.contains("--no-verify"@) <==> given.contains("--no-verify"@));
        assert(command.contains("--dry-run"@) <==> given.contains("--dry-run"@));
        assert(command.contains("publish"@) <==> given.contains("publish"@));
    }
    let verifies = !holds(&cargo_cmd, "--no-verify");
    let publishes = !holds(&cargo_cmd, "--dry-run");
    let mut runs: Vec<Run> = Vec::new();
    if verifies {
        let mut verifying = clone_texts(&cargo_cmd);
        assert(verifying.deep_view() =~= command);
        if publishes {
            insert_after(&mut verifying, "publish", String::from_str("--dry-run"));
        }
        runs.push(Run { command: verifying, container_type: ContainerType::Build });
    }
    if publishes {
        let mut publishing = clone_texts(&cargo_cmd);
        assert(publishing.deep_view() =~= command);
        if verifies {
            insert_after(&mut publishing, "publish", String::from_str("--very-verify"));
        }
        runs.push(Run { command: publishing, container_type: ContainerType::Publish });
    }
    assert(run_views(runs@) =~= publish_runs(command));
    runs
}

/// What follows when `finished` runs of `count` have been made and the last
/// of them ended as `last`: the failure where it failed, and with it the end
/// of the whole; else the next run's position, or nothing where all are made.
pub open spec fn following(count: nat, finished: usize, last: Result<(), SandboxError>) -> Result<
    Option<usize>,
    SandboxError,
> {
    match last {
        Err(failure) => Err(failure),
        Ok(_) => if finished < count {
            Ok(Some(finished))
        } else {
            Ok(None)
        },
    }
}

/// Decides what follows a run: a failed run ends the sequence with its
/// failure, and no later run is made. Before the first run, `finished` is 0
/// and `last` is `Ok`.
pub fn next_run(runs: &Vec<Run>, finished: usize, last: Result<(), SandboxError>) -> (next: Result<
    Option<usize>,
    SandboxError,
>)
    ensures
        next == following(runs@.len(), finished, last),
{
    match last {
        Err(failure) => Err(failure),
        Ok(_) => if finished < runs.len() {
            Ok(Some(finished))
        } else {
            Ok(None)
        },
    }
}

/// A publication whose verification fails publishes nothing. Where neither
/// `--no-verify` nor `--dry-run` is given, the first run verifies, in a
/// container for building, and the second publishes; after a failure of the
/// first, what follows is that failure and no run.
pub proof fn lemma_failed_verification_ends_publication(
    command: Seq<Seq<char>>,
    failure: SandboxError,
)
    requires
        !command.contains("--no-verify"@),
        !command.contains("--dry-run"@),
    ensures
        publish_runs(command).len() == 2,
        publish_runs(command)[0].1 == ContainerType::Build,
        publish_runs(command)[1].1 == ContainerType::Publish,
        following(2, 1, Err(failure)) == Err::<Option<usize>, SandboxError>(failure),
        following(2, 1, Ok(())) == Ok::<Option<usize>, SandboxError>(Some(1usize)),
{
}

/// The runs that a command line asks for, by its first argument: those of a
/// build, of a check or of a publication, or `None` where the argument names
/// no command.
pub open spec fn planned(argv: Seq<Seq<char>>) -> Option<Seq<(Seq<Seq<char>>, ContainerType)>> {
    let command = cargo_words(false) + argv;
    if argv[0] == "build"@ || argv[0] == "check"@ {
        Some(seq![(command, ContainerType::Build)])
    } else if argv[0] == "publish"@ {
        Some(publish_runs(command))
    } else {
        None
    }
}

/// The runs that a command line asks for. The arguments, the first of which
/// names the command, are handed on to cargo as they are.
pub fn plan(argv: Vec<String>) -> (runs: Option<Vec<Run>>)
    requires
        argv@.len() > 0,
    ensures
        match runs {
            Some(runs) => planned(argv.deep_view()) == Some(run_views(runs@)),
            None => planned(argv.deep_view()) is None,
        },
{
    assert(argv.deep_view()[0] == argv@[0]@);
    let mut runs: Vec<Run> = Vec::new();
    if same_text(argv[0].as_str(), "build") {
        runs.push(cargo_build(argv));
    } else if same_text(argv[0].as_str(), "check") {
        runs.push(cargo_check(argv));
    } else if same_text(argv[0].as_str(), "publish") {
        proof {
            reveal_strlit("build");
            reveal_strlit("check");
            reveal_strlit("publish");
            assert("publish"@.len() == 7 && "build"@.len() == 5 && "check"@.len() == 5);
        }
        return Some(cargo_publish(argv));
    } else {
        return None;
    }
    assert(run_views(runs@) =~= seq![
        (cargo_words(false) + argv.deep_view(), ContainerType::Build),
    ]);
    Some(runs)
}

/// Whether an environment variable of this name goes into the sandbox.
pub open spec fn passes(key: Seq<char>) -> bool {
    key == "CARGO_BUILD_JOBS"@ || key == "RUST_RECURSION_COUNT"@
}

/// Whether an environment variable of this name goes into the sandbox. All
/// others are withheld.
pub fn should_pass_key(key: &str) -> (pass: bool)
    ensures
        pass == passes(key@),
{
    same_text(key, "CARGO_BUILD_JOBS") || same_text(key, "RUST_RECURSION_COUNT")
}

/// The entries that go into the sandbox, of variables given as names with
/// values: for each that passes, in the order given, the name, `=` and the
/// value.
pub open spec fn forwarded(vars: Seq<(Seq<char>, Seq<char>)>) -> Seq<Seq<char>>
    decreases vars.len(),
{
    if vars.len() == 0 {
        Seq::empty()
    } else {
        let before = forwarded(vars.drop_last());
        if passes(vars.last().0) {
            before.push(vars.last().0 + "="@ + vars.last().1)
        } else {
            before
        }
    }
}

/// The part of an environment that goes into the sandbox.
pub fn get_env(vars: &Vec<(String, String)>) -> (env: Vec<String>)
    ensures
        env.deep_view() == forwarded(vars.deep_view()),
{
    let mut env: Vec<String> = Vec::new();
    let mut i: usize = 0;
    assert(vars.deep_view().take(0) =~= Seq::empty());
    assert(env.deep_view() =~= Seq::empty());
    while i < vars.len()
        invariant
            i <= vars@.len(),
            env.deep_view() == forwarded(vars.deep_view().take(i as int)),
        decreases vars@.len() - i,
    {
        let ghost before = env.deep_view();
        let ghost seen = vars.deep_view().take(i + 1);
        assert(seen.drop_last() =~= vars.deep_view().take(i as int));
        assert(seen.last() == (vars@[i as int].0@, vars@[i as int].1@));
        if should_pass_key(vars[i].0.as_str()) {
            let mut entry = vars[i].0.clone();
            entry.append("=");
            entry.append(vars[i].1.as_str());
            env.push(entry);
            assert(env.deep_view() =~= before.push(vars@[i as int].0@ + "="@ + vars@[i as int].1@));
        }
        i = i + 1;
    }
    assert(vars.deep_view().take(i as int) =~= vars.deep_view());
    env
}

} // verus!
