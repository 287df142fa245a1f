//! The install run: where the archive comes from and goes to, and the decisions
//! between its stages. The caller performs each action and reports back what
//! happened as an event.

use vstd::prelude::*;

use crate::triple::{render, TargetTriple};

verus! {

/// The stage at which a run failed.
#[derive(Debug, Clone, Copy, PartialEq, Eq, Structural)]
pub enum Failure {
    Download,
    Unpack,
    Spawn,
}

/// Where a run stands.
#[derive(Debug, Clone, Copy, PartialEq, Eq, Structural)]
pub enum Stage {
    Idle,
    Downloading,
    Extracting,
    Unpacking,
    Installing,
    Done,
    Failed(Failure),
}

/// What the caller reports after performing an action.
#[derive(Debug, Clone, Copy, PartialEq, Eq, Structural)]
pub enum Event {
    Start,
    Fetched,
    FetchFailed,
    Decoded,
    Unpacked,
    UnpackFailed,
    Spawned,
    SpawnFailed,
}

/// What the caller is to do next.
#[derive(Debug, Clone, Copy, PartialEq, Eq, Structural)]
pub enum Action {
    /// Fetch the archive from its locator.
    Fetch,
    /// Treat the fetched bytes as a gzip stream.
    Decompress,
    /// Unpack the decompressed tar stream into the extraction directory.
    Unpack,
    /// Start the bundled installer, without waiting for it.
    RunInstaller,
    /// Show the final status and end the run.
    Finish,
    /// The event does not apply to the stage: nothing to do.
    Nothing,
}

/// The next stage and action for a stage and an event.
pub open spec fn next(stage: Stage, event: Event) -> (Stage, Action) {
    match (stage, event) {
        (Stage::Idle, Event::Start) => (Stage::Downloading, Action::Fetch),
        (Stage::Downloading, Event::Fetched) => (Stage::Extracting, Action::Decompress),
        (Stage::Downloading, Event::FetchFailed) => (
            Stage::Failed(Failure::Download),
            Action::Finish,
        ),
        (Stage::Extracting, Event::Decoded) => (Stage::Unpacking, Action::Unpack),
        (Stage::Unpacking, Event::Unpacked) => (Stage::Installing, Action::RunInstaller),
        (Stage::Unpacking, Event::UnpackFailed) => (Stage::Failed(Failure::Unpack), Action::Finish),
        (Stage::Installing, Event::Spawned) => (Stage::Done, Action::Finish),
        (Stage::Installing, Event::SpawnFailed) => (Stage::Failed(Failure::Spawn), Action::Finish),
        _ => (stage, Action::Nothing),
    }
}

/// Whether a stage ends the run.
pub open spec fn is_terminal(stage: Stage) -> bool {
    stage == Stage::Done || stage is Failed
}

/// The stage reached from `stage` after the events, in order.
pub open spec fn run_stage(stage: Stage, events: Seq<Event>) -> Stage
    decreases events.len(),
{
    if events.len() == 0 {
        stage
    } else {
        run_stage(next(stage, events[0]).0, events.drop_first())
    }
}

/// The actions decided from `stage` over the events, in order.
pub open spec fn run_actions(stage: Stage, events: Seq<Event>) -> Seq<Action>
    decreases events.len(),
{
    if events.len() == 0 {
        Seq::empty()
    } else {
        seq![next(stage, events[0]).1] + run_actions(next(stage, events[0]).0, events.drop_first())
    }
}

/// The status line shown while a run is in the stage.
pub open spec fn status_of(stage: Stage) -> Seq<char> {
    match stage {
        Stage::Idle => ""@,
        Stage::Downloading => "Downloading..."@,
        Stage::Extracting => "Extracting..."@,
        Stage::Unpacking => "Unpacking..."@,
        Stage::Installing => "Running install.sh..."@,
        Stage::Done => "Done"@,
        Stage::Failed(Failure::Download) => "Failed to download"@,
        Stage::Failed(Failure::Unpack) => "Failed to unpack"@,
        Stage::Failed(Failure::Spawn) => "Failed to run install.sh"@,
    }
}

/// The name of the directory that the archive of a version and identifier
/// unpacks into: `rust-<version>-<triple>`.
pub open spec fn dir_name(version: Seq<char>, triple: Seq<char>) -> Seq<char> {
    "rust-"@ + version + "-"@ + triple
}

/// The download locator of the archive for a version and identifier.
pub open spec fn locator(version: Seq<char>, triple: Seq<char>) -> Seq<char> {
    "https://static.rust-lang.org/dist/"@ + dir_name(version, triple) + ".tar.gz"@
}

/// The installer inside the unpacked tree: the archive holds a directory of the
/// same name as the one it is unpacked into.
pub open spec fn installer(version: Seq<char>, triple: Seq<char>) -> Seq<char> {
    dir_name(version, triple) + "/"@ + dir_name(version, triple) + "/install.sh"@
}

/// Once a run has ended, later events change nothing and call for nothing.
pub proof fn lemma_terminal_absorbs(stage: Stage, events: Seq<Event>)
    requires
        is_terminal(stage),
    ensures
        run_stage(stage, events) == stage,
        run_actions(stage, events).len() == events.len(),
        forall|i: int|
            0 <= i < events.len() ==> #[trigger] run_actions(stage, events)[i] == Action::Nothing,
    decreases events.len(),
{
    if events.len() > 0 {
        lemma_terminal_absorbs(stage, events.drop_first());
        let tail = run_actions(stage, events.drop_first());
        assert forall|i: int| 0 <= i < events.len() implies #[trigger] run_actions(
            stage,
            events,
        )[i] == Action::Nothing by {
            if i > 0 {
                assert(run_actions(stage, events)[i] == tail[i - 1]);
            }
        }
    }
}

/// A run whose download fails ends failed at the download, whatever is reported
/// afterwards, and is never told to unpack or to start the installer.
pub proof fn lemma_download_failure_ends_run(rest: Seq<Event>)
    ensures
        run_stage(Stage::Idle, seq![Event::Start, Event::FetchFailed] + rest) == Stage::Failed(
            Failure::Download,
        ),
        !run_actions(Stage::Idle, seq![Event::Start, Event::FetchFailed] + rest).contains(
            Action::Unpack,
        ),
        !run_actions(Stage::Idle, seq![Event::Start, Event::FetchFailed] + rest).contains(
            Action::RunInstaller,
        ),
{
    let ev = seq![Event::Start, Event::FetchFailed] + rest;
    let failed = Stage::Failed(Failure::Download);
    assert(ev.drop_first() =~= seq![Event::FetchFailed] + rest);
    assert(ev.drop_first().drop_first() =~= rest);
    lemma_terminal_absorbs(failed, rest);
    let e1 = ev.drop_first();
    assert(ev[0] == Event::Start && e1[0] == Event::FetchFailed);
    assert(run_stage(Stage::Downloading, e1) == run_stage(failed, rest));
    assert(run_stage(Stage::Idle, ev) == run_stage(Stage::Downloading, e1));
    assert(run_actions(Stage::Downloading, e1) == seq![Action::Finish] + run_actions(failed, rest));
    assert(run_actions(Stage::Idle, ev) == seq![Action::Fetch] + run_actions(
        Stage::Downloading,
        e1,
    ));
    let acts = run_actions(Stage::Idle, ev);
    assert(acts =~= seq![Action::Fetch, Action::Finish] + run_actions(failed, rest));
    assert forall|i: int| 0 <= i < acts.len() implies acts[i] != Action::Unpack && acts[i]
        != Action::RunInstaller by {
        if i >= 2 {
            assert(acts[i] == run_actions(failed, rest)[i - 2]);
        }
    }
}

/// A run that downloads and unpacks but cannot start the installer ends failed
/// at the start of the installer, after having been told to unpack.
pub proof fn lemma_spawn_failure_after_unpack(rest: Seq<Event>)
    ensures
        run_stage(
            Stage::Idle,
            seq![Event::Start, Event::Fetched, Event::Decoded, Event::Unpacked, Event::SpawnFailed]
                + rest,
        ) == Stage::Failed(Failure::Spawn),
        run_actions(
            Stage::Idle,
            seq![Event::Start, Event::Fetched, Event::Decoded, Event::Unpacked, Event::SpawnFailed]
                + rest,
        ).subrange(0, 5) == seq![
            Action::Fetch,
            Action::Decompress,
            Action::Unpack,
            Action::RunInstaller,
            Action::Finish,
        ],
{
    let ev = seq![Event::Start, Event::Fetched, Event::Decoded, Event::Unpacked, Event::SpawnFailed]
        + rest;
    let failed = Stage::Failed(Failure::Spawn);
    let e1 = ev.drop_first();
    let e2 = e1.drop_first();
    let e3 = e2.drop_first();
    let e4 = e3.drop_first();
    assert(e1 =~= seq![Event::Fetched, Event::Decoded, Event::Unpacked, Event::SpawnFailed] + rest);
    assert(e2 =~= seq![Event::Decoded, Event::Unpacked, Event::SpawnFailed] + rest);
    assert(e3 =~= seq![Event::Unpacked, Event::SpawnFailed] + rest);
    assert(e4 =~= seq![Event::SpawnFailed] + rest);
    assert(e4.drop_first() =~= rest);
    lemma_terminal_absorbs(failed, rest);
    let tail = run_actions(failed, rest);
    assert(run_stage(Stage::Installing, e4) == run_stage(failed, rest));
    assert(run_stage(Stage::Unpacking, e3) == run_stage(Stage::Installing, e4));
    assert(run_stage(Stage::Extracting, e2) == run_stage(Stage::Unpacking, e3));
    assert(run_stage(Stage::Downloading, e1) == run_stage(Stage::Extracting, e2));
    assert(run_stage(Stage::Idle, ev) == run_stage(Stage::Downloading, e1));
    assert(run_actions(Stage::Installing, e4) == seq![Action::Finish] + tail);
    assert(run_actions(Stage::Unpacking, e3) == seq![Action::RunInstaller] + run_actions(
        Stage::Installing,
        e4,
    ));
    assert(run_actions(Stage::Extracting, e2) == seq![Action::Unpack] + run_actions(
        Stage::Unpacking,
        e3,
    ));
    assert(run_actions(Stage::Downloading, e1) == seq![Action::Decompress] + run_actions(
        Stage::Extracting,
        e2,
    ));
    assert(run_actions(Stage::Idle, ev) == seq![Action::Fetch] + run_actions(
        Stage::Downloading,
        e1,
    ));
    assert(run_actions(Stage::Idle, ev) =~= seq![
        Action::Fetch,
        Action::Decompress,
        Action::Unpack,
        Action::RunInstaller,
        Action::Finish,
    ] + tail);
    assert(run_actions(Stage::Idle, ev).subrange(0, 5) =~= seq![
        Action::Fetch,
        Action::Decompress,
        Action::Unpack,
        Action::RunInstaller,
        Action::Finish,
    ]);
}

/// Decides the next stage and action for a stage and an event.
pub fn step(stage: Stage, event: Event) -> (r: (Stage, Action))
    ensures
        r == next(stage, event),
{
    match (stage, event) {
        (Stage::Idle, Event::Start) => (Stage::Downloading, Action::Fetch),
        (Stage::Downloading, Event::Fetched) => (Stage::Extracting, Action::Decompress),
        (Stage::Downloading, Event::FetchFailed) => (
            Stage::Failed(Failure::Download),
            Action::Finish,
        ),
        (Stage::Extracting, Event::Decoded) => (Stage::Unpacking, Action::Unpack),
        (Stage::Unpacking, Event::Unpacked) => (Stage::Installing, Action::RunInstaller),
        (Stage::Unpacking, Event::UnpackFailed) => (Stage::Failed(Failure::Unpack), Action::Finish),
        (Stage::Installing, Event::Spawned) => (Stage::Done, Action::Finish),
        (Stage::Installing, Event::SpawnFailed) => (Stage::Failed(Failure::Spawn), Action::Finish),
        _ => (stage, Action::Nothing),
    }
}

/// Feeds the events to a run that starts idle; returns the stage reached and the
/// actions decided, in order.
pub fn run_events(events: &Vec<Event>) -> (r: (Stage, Vec<Action>))
    ensures
        r.0 == run_stage(Stage::Idle, events@),
        r.1@ == run_actions(Stage::Idle, events@),
{
    let mut stage = Stage::Idle;
    let mut actions: Vec<Action> = Vec::new();
    let mut i: usize = 0;
    proof {
        assert(events@.skip(0) =~= events@);
        assert(actions@ + run_actions(stage, events@) =~= run_actions(stage, events@));
    }
    while i < events.len()
        invariant
            i <= events@.len(),
            run_stage(stage, events@.skip(i as int)) == run_stage(Stage::Idle, events@),
            actions@ + run_actions(stage, events@.skip(i as int)) == run_actions(
                Stage::Idle,
                events@,
            ),
        decreases events@.len() - i,
    {
        let (s, a) = step(stage, events[i]);
        proof {
            let rest = events@.skip(i as int);
            assert(rest[0] == events@[i as int]);
            assert(rest.drop_first() =~= events@.skip(i + 1));
            assert(actions@.push(a) + run_actions(s, rest.drop_first()) =~= actions@
                + run_actions(stage, rest));
        }
        actions.push(a);
        stage = s;
        i = i + 1;
    }
    proof {
        assert(events@.skip(i as int) =~= Seq::<Event>::empty());
        assert(actions@ + Seq::<Action>::empty() =~= actions@);
    }
    (stage, actions)
}

/// The status line for a stage.
pub fn status_message(stage: Stage) -> (r: String)
    ensures
        r@ == status_of(stage),
{
    let m = match stage {
        Stage::Idle => "",
        Stage::Downloading => "Downloading...",
        Stage::Extracting => "Extracting...",
        Stage::Unpacking => "Unpacking...",
        Stage::Installing => "Running install.sh...",
        Stage::Done => "Done",
        Stage::Failed(Failure::Download) => "Failed to download",
        Stage::Failed(Failure::Unpack) => "Failed to unpack",
        Stage::Failed(Failure::Spawn) => "Failed to run install.sh",
    };
    String::from_str(m)
}

/// `rust-<version>-<triple>`, the extraction directory.
pub fn extract_dir(version: &str, triple: &TargetTriple) -> (r: String)
    ensures
        r@ == dir_name(version@, render(triple@)),
{
    let mut d = String::from_str("rust-");
    d.append(version);
    d.append("-");
    let t = triple.str();
    d.append(t.as_str());
    d
}

/// The download locator of the archive for a version and identifier.
pub fn download_url(version: &str, triple: &TargetTriple) -> (r: String)
    ensures
        r@ == locator(version@, render(triple@)),
{
    let mut u = String::from_str("https://static.rust-lang.org/dist/");
    let d = extract_dir(version, triple);
    u.append(d.as_str());
    u.append(".tar.gz");
    u
}

/// The path of the bundled installer within the extraction directory.
pub fn installer_path(version: &str, triple: &TargetTriple) -> (r: String)
    ensures
        r@ == installer(version@, render(triple@)),
{
    let d = extract_dir(version, triple);
    let mut p = String::from_str(d.as_str());
    p.append("/");
    p.append(d.as_str());
    p.append("/install.sh");
    p
}

} // verus!
