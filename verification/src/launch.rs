//! The session orchestrator's decisions: what to launch, when the launch
//! has failed, and what closing a game means for the session.

use vstd::prelude::*;
use crate::games::{Game, GamesStore};
use crate::locator::{probe_step, LocateRetry, ProbeStep};
use crate::presence::{set_update, PresenceUpdateView};
use crate::session::{
    launch_details, AppState, AppStateView, GameStateView, SessionEnd, SessionEndView,
    SessionStart,
};
use crate::settings::PlaytimeMode;
use crate::text::same_text;

verus! {

/// Why a launch failed. No session exists after any of these.
#[derive(Clone, Copy, Debug, PartialEq, Eq, Structural)]
pub enum LaunchError {
    /// No game is saved under the id.
    GameNotFound,
    /// The shortcut names no working directory.
    MissingWorkingDir,
    /// The shortcut names no target relative to its working directory.
    MissingRelativePath,
    /// The executable's path has no parent directory to run it in.
    NoParentDirectory,
    /// The process did not appear within the probes allowed.
    ProcessNotFound,
}

impl LaunchError {
    /// The error in words.
    pub fn message(&self) -> (r: String)
        ensures
            r@ == match self {
                LaunchError::GameNotFound => "Game not found in store"@,
                LaunchError::MissingWorkingDir => "Missing working directory in .lnk file"@,
                LaunchError::MissingRelativePath => "Missing relative path in .lnk file"@,
                LaunchError::NoParentDirectory => "Failed to get parent directory"@,
                LaunchError::ProcessNotFound => "Couldn't find game process"@,
            },
    {
        match self {
            LaunchError::GameNotFound => "Game not found in store".to_owned(),
            LaunchError::MissingWorkingDir => "Missing working directory in .lnk file".to_owned(),
            LaunchError::MissingRelativePath => "Missing relative path in .lnk file".to_owned(),
            LaunchError::NoParentDirectory => "Failed to get parent directory".to_owned(),
            LaunchError::ProcessNotFound => "Couldn't find game process".to_owned(),
        }
    }
}

/// Calls `std::path::Path::extension` on `path` and hands the extension
/// back where it is text. Nothing is claimed of the result: how a path
/// splits into components depends on the platform.
#[verifier::external_body]
fn path_extension(path: &str) -> (r: Option<String>) {
    match std::path::Path::new(path).extension() {
        Some(extension) => extension.to_str().map(String::from),
        None => None,
    }
}

/// Calls `std::path::Path::parent` on `path` and hands the parent back
/// where it is text. Nothing is claimed of the result: how a path splits
/// into components depends on the platform.
#[verifier::external_body]
fn path_parent(path: &str) -> (r: Option<String>) {
    match std::path::Path::new(path).parent() {
        Some(parent) => parent.to_str().map(String::from),
        None => None,
    }
}

/// Whether a file with this extension is a shortcut to the executable
/// rather than the executable itself.
pub fn is_shortcut(extension: Option<&str>) -> (r: bool)
    ensures
        r == (extension matches Some(e) && e@ == "lnk"@),
{
    match extension {
        Some(e) => same_text(e, "lnk"),
        None => false,
    }
}

/// A game that is about to be launched.
#[derive(Debug)]
pub struct LaunchPlan {
    pub game: Game,
    /// Whether the game's executable path is a shortcut, to be resolved
    /// before anything is spawned.
    pub shortcut: bool,
}

/// Looks up the game to launch and tells whether its executable is given
/// as a shortcut.
pub fn open_game(store: &GamesStore, game_id: &str) -> (r: Result<LaunchPlan, LaunchError>)
    requires
        store.wf(),
    ensures
        match r {
            Ok(plan) => store@.dom().contains(game_id@) && plan.game@ == store@[game_id@],
            Err(e) => e == LaunchError::GameNotFound && !store@.dom().contains(game_id@),
        },
{
    match store.get(game_id) {
        None => Err(LaunchError::GameNotFound),
        Some(game) => {
            let shortcut = match path_extension(game.exe_file_path.as_str()) {
                Some(extension) => is_shortcut(Some(extension.as_str())),
                None => is_shortcut(None),
            };
            Ok(LaunchPlan { game, shortcut })
        },
    }
}

/// Where a shortcut points: the target relative to a working directory,
/// and the arguments to pass.
#[derive(Debug)]
pub struct ShortcutTarget {
    pub working_dir: String,
    pub relative_path: String,
    pub args: String,
}

/// Turns what a shortcut file holds into a target. A shortcut without
/// arguments passes none.
pub fn handle_open_lnk(
    working_dir: Option<String>,
    relative_path: Option<String>,
    arguments: Option<String>,
) -> (r: Result<ShortcutTarget, LaunchError>)
    ensures
        match r {
            Ok(target) => working_dir matches Some(w) && relative_path matches Some(p)
                && target.working_dir@ == w@ && target.relative_path@ == p@ && target.args@
                == match arguments {
                Some(a) => a@,
                None => Seq::<char>::empty(),
            },
            Err(LaunchError::MissingWorkingDir) => working_dir is None,
            Err(LaunchError::MissingRelativePath) => working_dir is Some && relative_path is None,
            Err(_) => false,
        },
{
    let working_dir = match working_dir {
        Some(w) => w,
        None => {
            return Err(LaunchError::MissingWorkingDir);
        },
    };
    let relative_path = match relative_path {
        Some(p) => p,
        None => {
            return Err(LaunchError::MissingRelativePath);
        },
    };
    let args = match arguments {
        Some(a) => a,
        None => String::new(),
    };
    Ok(ShortcutTarget { working_dir, relative_path, args })
}

/// The process to spawn.
#[derive(Debug)]
pub struct SpawnRequest {
    pub program: String,
    /// The directory to run the program in: the one that holds it.
    pub working_dir: String,
    /// The one argument to pass, if any.
    pub args: Option<String>,
}

/// Builds the request to spawn `exe_path` in `parent`, its own directory,
/// with `args` as its argument unless `args` is empty.
pub fn spawn_request_in(exe_path: &str, parent: Option<String>, args: &str) -> (r: Result<
    SpawnRequest,
    LaunchError,
>)
    ensures
        match r {
            Ok(request) => parent matches Some(dir) && request.program@ == exe_path@
                && request.working_dir@ == dir@ && match request.args {
                Some(a) => a@ == args@ && args@.len() > 0,
                None => args@.len() == 0,
            },
            Err(e) => e == LaunchError::NoParentDirectory && parent is None,
        },
{
    match parent {
        None => Err(LaunchError::NoParentDirectory),
        Some(dir) => {
            let args = if args.is_empty() {
                None
            } else {
                Some(args.to_owned())
            };
            Ok(SpawnRequest { program: exe_path.to_owned(), working_dir: dir, args })
        },
    }
}

/// Builds the request to spawn `exe_path` in the directory that holds it,
/// with `args` as its argument unless `args` is empty. Which directory
/// that is, and whether there is one, is the platform's answer.
pub fn spawn_request(exe_path: &str, args: &str) -> (r: Result<SpawnRequest, LaunchError>)
    ensures
        match r {
            Ok(request) => request.program@ == exe_path@ && match request.args {
                Some(a) => a@ == args@ && args@.len() > 0,
                None => args@.len() == 0,
            },
            Err(e) => e == LaunchError::NoParentDirectory,
        },
{
    spawn_request_in(exe_path, path_parent(exe_path), args)
}

/// A launch in progress: the game was spawned, and the launcher looks for
/// its process.
#[derive(Debug)]
pub struct Launch {
    pub game_id: String,
    pub game: Game,
    pub retry: LocateRetry,
}

/// What the launcher does after a probe.
#[derive(Debug)]
pub enum LaunchStep {
    /// The process was found and the session stands.
    Started(SessionStart),
    /// Wait a second and probe again.
    Retry,
    /// The launch has failed; no session was made.
    Failed(LaunchError),
}

/// The state once the session of `game` under `pid` stands.
pub open spec fn after_start(s: AppStateView, game_id: Seq<char>, pid: u32) -> AppStateView {
    AppStateView {
        game: Some(GameStateView { id: game_id, pid, current_playtime: 0 }),
        tracking: s.settings.playtime_mode,
        stop_requested: false,
        owed: 0,
        ..s
    }
}

impl Launch {
    /// The launch of a game that was just spawned.
    pub fn new(game_id: String, game: Game) -> (r: Self)
        ensures
            r.game_id == game_id,
            r.game == game,
            r.retry.probes == 0,
    {
        Launch { game_id, game, retry: LocateRetry::new() }
    }

    /// Takes the result of one probe of the process table at `now` (seconds
    /// since the Unix epoch). A process that was found makes the session;
    /// any other probe leaves the state as it is, and the probe that
    /// exhausts the retry fails the launch.
    pub fn probe(&mut self, state: &mut AppState, found: Option<u32>, now: u64) -> (r: LaunchStep)
        ensures
            final(self).game_id == old(self).game_id,
            final(self).game == old(self).game,
            final(self).retry.probes == if old(self).retry.probes < crate::locator::MAX_PROBES {
                old(self).retry.probes + 1
            } else {
                old(self).retry.probes as int
            },
            match probe_step(old(self).retry.probes as nat, found) {
                ProbeStep::Found(pid) => r matches LaunchStep::Started(start) && final(state)@
                    == after_start(old(state)@, old(self).game_id@, pid) && start.game_id@ == old(self).game_id@ && start.strategy == old(state)@.settings.playtime_mode
                    && start.presence@ == match old(state)@.presence {
                    Some(mode) => set_update(
                        mode,
                        launch_details(old(self).game_id@, old(self).game@, old(state)@.settings),
                        now,
                    ),
                    None => PresenceUpdateView::Keep,
                },
                ProbeStep::Retry => r is Retry && final(state)@ == old(state)@,
                ProbeStep::GiveUp => r matches LaunchStep::Failed(e) && e
                    == LaunchError::ProcessNotFound && final(state)@ == old(state)@,
            },
    {
        match self.retry.record(found) {
            ProbeStep::Found(pid) => LaunchStep::Started(
                state.start_session(self.game_id.as_str(), &self.game, pid, now),
            ),
            ProbeStep::Retry => LaunchStep::Retry,
            ProbeStep::GiveUp => LaunchStep::Failed(LaunchError::ProcessNotFound),
        }
    }
}

/// The state after a launcher has made the probes of `probes` in turn,
/// after `made` earlier ones, for the game `game_id`.
pub open spec fn after_probes(
    s: AppStateView,
    game_id: Seq<char>,
    made: nat,
    probes: Seq<Option<u32>>,
) -> AppStateView
    decreases probes.len(),
{
    if probes.len() == 0 {
        s
    } else {
        match probe_step(made, probes[0]) {
            ProbeStep::Found(pid) => after_start(s, game_id, pid),
            ProbeStep::Retry => after_probes(s, game_id, made + 1, probes.drop_first()),
            ProbeStep::GiveUp => s,
        }
    }
}

/// A launch whose process never appears leaves the state as it found it,
/// however long it probes: a failed launch makes no session.
pub proof fn lemma_failed_launch_makes_no_session(
    s: AppStateView,
    game_id: Seq<char>,
    made: nat,
    probes: Seq<Option<u32>>,
)
    requires
        forall|i: int| 0 <= i < probes.len() ==> probes[i] is None,
    ensures
        after_probes(s, game_id, made, probes) == s,
    decreases probes.len(),
{
    if probes.len() > 0 {
        assert(probes[0] is None);
        let rest = probes.drop_first();
        assert forall|i: int| 0 <= i < rest.len() implies rest[i] is None by {
            assert(rest[i] == probes[i + 1]);
        }
        lemma_failed_launch_makes_no_session(s, game_id, made + 1, rest);
    }
}

/// What the caller has to do to close the running game.
#[derive(Debug)]
pub struct CloseOutcome {
    /// The process to send a termination signal to.
    pub kill: Option<u32>,
    /// The end of the session, where closing ends it at once.
    pub ended: Option<SessionEnd>,
}

/// The state after the user asked to close the running game.
pub open spec fn after_close(s: AppStateView) -> AppStateView {
    if s.game is None {
        s
    } else if s.tracking == PlaytimeMode::Classic {
        AppStateView { stop_requested: true, ..s }
    } else {
        s.ended()
    }
}

/// Closes the running game. The tracked process, if any, is to be
/// terminated. A polled session is asked to stop, and ends at its next
/// tick, whether or not the process dies; a session tracked by reports has
/// no tick, and ends here, with what a failed flush left owed as its
/// remainder.
pub fn close_game(state: &mut AppState) -> (r: CloseOutcome)
    ensures
        final(state)@ == after_close(old(state)@),
        r.kill == match old(state)@.game {
            Some(g) => Some(g.pid),
            None => None,
        },
        match r.ended {
            Some(end) => old(state)@.game is Some && old(state)@.tracking == PlaytimeMode::ExStatic
                && end@ == (SessionEndView {
                game_id: old(state)@.game->0.id,
                remainder: old(state)@.owed,
                presence: old(state)@.presence_reset(),
            }),
            None => old(state)@.game is None || old(state)@.tracking == PlaytimeMode::Classic,
        },
{
    let kill = match &state.game {
        Some(game) => Some(game.pid),
        None => None,
    };
    if kill.is_none() {
        return CloseOutcome { kill, ended: None };
    }
    match state.tracking {
        PlaytimeMode::Classic => {
            state.stop_requested = true;
            CloseOutcome { kill, ended: None }
        },
        PlaytimeMode::ExStatic => {
            let ended = state.end_session();
            CloseOutcome { kill, ended }
        },
    }
}

} // verus!
