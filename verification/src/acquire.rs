//! Acquisition: what one tick of an item runs to capture its raw text.
//!
//! The decision is pure: an item's kind, the configured shell and the item's
//! extra environment determine the command. The embedding program executes
//! it (reads the file, or spawns the process with the environment merged
//! into its own) and reports the captured text or a failure.

use vstd::prelude::*;
use vstd::string::*;

use crate::item::ItemKind;

verus! {

/// Why one tick's acquisition produced no text. Any of these aborts the tick:
/// it is logged, nothing is written, and the next tick proceeds normally.
#[derive(Debug, Clone, Copy, PartialEq, Eq, Structural)]
pub enum AcquisitionFailure {
    /// The file could not be opened or read.
    IoError,
    /// The child process could not be spawned.
    SpawnError,
    /// The captured output was not valid UTF-8.
    NotUtf8,
}

/// The outside work one tick performs to capture raw text.
#[derive(Debug, Clone, PartialEq, Eq)]
pub enum AcquireCommand {
    /// Read the whole file at `path` as text.
    ReadFile { path: String },
    /// Spawn `path` with `args`, with `env` merged over the inherited process
    /// environment, and capture its standard output.
    Run { path: String, args: Vec<String>, env: Vec<(String, String)> },
}

/// Mathematical image of an `AcquireCommand`.
pub enum AcquireCommandV {
    ReadFile { path: Seq<char> },
    Run { path: Seq<char>, args: Seq<Seq<char>>, env: Seq<(Seq<char>, Seq<char>)> },
}

impl View for AcquireCommand {
    type V = AcquireCommandV;

    open spec fn view(&self) -> AcquireCommandV {
        match self {
            AcquireCommand::ReadFile { path } => AcquireCommandV::ReadFile { path: path@ },
            AcquireCommand::Run { path, args, env } => AcquireCommandV::Run {
                path: path@,
                args: args.deep_view(),
                env: env.deep_view(),
            },
        }
    }
}

/// The command an item's kind acquires with: a file read for `File`, the
/// executable itself for `Command`, and `<shell> -c <script>` for `Shell`.
/// `Command` and `Shell` both carry the item's extra environment.
pub open spec fn acquisition_spec(
    kind: ItemKind,
    shell: Seq<char>,
    env: Seq<(Seq<char>, Seq<char>)>,
) -> AcquireCommandV {
    match kind {
        ItemKind::File { path } => AcquireCommandV::ReadFile { path: path@ },
        ItemKind::Command { path, args } => AcquireCommandV::Run {
            path: path@,
            args: args.deep_view(),
            env: env,
        },
        ItemKind::Shell { script } => AcquireCommandV::Run {
            path: shell,
            args: seq!["-c"@, script@],
            env: env,
        },
    }
}

fn clone_strings(v: &Vec<String>) -> (r: Vec<String>)
    ensures
        r.deep_view() == v.deep_view(),
{
    let mut r: Vec<String> = Vec::new();
    let mut i: usize = 0;
    while i < v.len()
        invariant
            0 <= i <= v@.len(),
            r@.len() == i,
            forall|t: int| 0 <= t < i ==> (#[trigger] r@[t])@ == v@[t]@,
        decreases v@.len() - i,
    {
        r.push(v[i].clone());
        i = i + 1;
    }
    proof {
        assert(r.deep_view() =~~= v.deep_view());
    }
    r
}

fn clone_string_pairs(v: &Vec<(String, String)>) -> (r: Vec<(String, String)>)
    ensures
        r.deep_view() == v.deep_view(),
{
    let mut r: Vec<(String, String)> = Vec::new();
    let mut i: usize = 0;
    while i < v.len()
        invariant
            0 <= i <= v@.len(),
            r@.len() == i,
            forall|t: int|
                0 <= t < i ==> (#[trigger] r@[t]).0@ == v@[t].0@ && r@[t].1@ == v@[t].1@,
        decreases v@.len() - i,
    {
        let pair = &v[i];
        r.push((pair.0.clone(), pair.1.clone()));
        i = i + 1;
    }
    proof {
        assert(r.deep_view() =~~= v.deep_view());
    }
    r
}

/// Decide what one tick of an item runs, without running it.
pub fn plan_acquisition(kind: &ItemKind, shell: &str, env: &Vec<(String, String)>) -> (r:
    AcquireCommand)
    ensures
        r@ == acquisition_spec(*kind, shell@, env.deep_view()),
{
    match kind {
        ItemKind::File { path } => AcquireCommand::ReadFile { path: path.clone() },
        ItemKind::Command { path, args } => AcquireCommand::Run {
            path: path.clone(),
            args: clone_strings(args),
            env: clone_string_pairs(env),
        },
        ItemKind::Shell { script } => {
            let mut args: Vec<String> = Vec::new();
            args.push(String::from_str("-c"));
            args.push(script.clone());
            proof {
                assert(args.deep_view() =~~= seq!["-c"@, script@]);
            }
            AcquireCommand::Run {
                path: String::from_str(shell),
                args,
                env: clone_string_pairs(env),
            }
        },
    }
}

} // verus!
