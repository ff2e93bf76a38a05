//! The session state: which game runs, under which process, and how many
//! seconds the running session has counted.

use vstd::prelude::*;
use crate::games::{
    with_first_played, with_last_played, with_playtime, Game, GameView, GamesStore, StoreError,
};
use crate::presence::{
    reset_update, set_update, DiscordGameDetails, DiscordGameDetailsView, DiscordPresence,
    DiscordPresenceMode, PresenceUpdate, PresenceUpdateView,
};
use crate::settings::{PlaytimeMode, Settings, SettingsView};

verus! {

/// The seconds that one periodic flush of a polled session persists.
pub const FLUSH_PERIOD: u64 = 60;

/// The running game.
#[derive(Debug)]
pub struct GameState {
    /// The id under which the game is saved.
    pub id: String,
    /// The process that runs it.
    pub pid: u32,
    /// Seconds counted for this session so far.
    pub current_playtime: u64,
}

/// What a `GameState` value holds.
pub struct GameStateView {
    pub id: Seq<char>,
    pub pid: u32,
    pub current_playtime: u64,
}

impl View for GameState {
    type V = GameStateView;

    open spec fn view(&self) -> GameStateView {
        GameStateView { id: self.id@, pid: self.pid, current_playtime: self.current_playtime }
    }
}

impl Default for GameState {
    fn default() -> (r: Self)
        ensures
            r@ == (GameStateView { id: Seq::empty(), pid: 0, current_playtime: 0 }),
    {
        GameState { id: String::new(), pid: 0, current_playtime: 0 }
    }
}

impl Clone for GameState {
    fn clone(&self) -> (r: Self)
        ensures
            r@ == self@,
    {
        GameState { id: self.id.clone(), pid: self.pid, current_playtime: self.current_playtime }
    }
}

/// The one record that the launcher, the tracking strategies and the
/// commands share. A session exists exactly while `game` is set.
#[derive(Debug)]
pub struct AppState {
    pub game: Option<GameState>,
    /// The strategy that tracks the running session: the configured mode as
    /// it was when the session began.
    pub tracking: PlaytimeMode,
    /// Whether the user asked to end the running session.
    pub stop_requested: bool,
    /// Seconds of the running session that were handed out to be flushed
    /// and of which the caller reported that the flush failed. They go out
    /// again with the next flush.
    pub owed: u64,
    /// The presence adapter, once it is connected.
    pub presence: Option<DiscordPresence>,
    pub settings: Settings,
}

/// What an `AppState` value holds.
pub struct AppStateView {
    pub game: Option<GameStateView>,
    pub tracking: PlaytimeMode,
    pub stop_requested: bool,
    pub owed: u64,
    pub presence: Option<DiscordPresenceMode>,
    pub settings: SettingsView,
}

impl View for AppState {
    type V = AppStateView;

    open spec fn view(&self) -> AppStateView {
        AppStateView {
            game: match self.game {
                Some(g) => Some(g@),
                None => None,
            },
            tracking: self.tracking,
            stop_requested: self.stop_requested,
            owed: self.owed,
            presence: match self.presence {
                Some(p) => Some(p.mode),
                None => None,
            },
            settings: self.settings@,
        }
    }
}

impl AppStateView {
    /// The seconds of the running session that the current count holds
    /// beyond the last flush. Under `Classic` a flush takes every full
    /// period, so the rest of the count modulo the period is open; under
    /// `ExStatic` every report is flushed on receipt and nothing is open.
    pub open spec fn uncollected(self) -> nat {
        match self.game {
            Some(g) => if self.tracking == PlaytimeMode::Classic {
                (g.current_playtime % FLUSH_PERIOD) as nat
            } else {
                0
            },
            None => 0,
        }
    }

    /// The seconds of the running session that persistence has not got
    /// yet: those that no flush has taken, and those whose flush failed.
    pub open spec fn unflushed(self) -> nat {
        match self.game {
            Some(_) => self.uncollected() + (self.owed as nat),
            None => 0,
        }
    }

    /// Whether the counters have room for `ticks` more ticks and for the
    /// flush that goes with them.
    pub open spec fn has_room(self, ticks: nat) -> bool {
        self.game matches Some(g) ==> g.current_playtime + ticks <= u64::MAX && self.owed
            + FLUSH_PERIOD <= u64::MAX
    }

    /// Whether a failed flush of `seconds` for the game `game_id` can be
    /// taken note of: that game runs, and the debt fits its counter.
    pub open spec fn can_owe(self, game_id: Seq<char>, seconds: u64) -> bool {
        self.game matches Some(g) && g.id == game_id && self.owed + seconds + FLUSH_PERIOD
            <= u64::MAX
    }

    /// The state after the caller reported that a flush of `seconds` for
    /// the game `game_id` failed.
    pub open spec fn owing(self, game_id: Seq<char>, seconds: u64) -> AppStateView {
        if self.can_owe(game_id, seconds) {
            AppStateView { owed: (self.owed + seconds) as u64, ..self }
        } else {
            self
        }
    }

    /// The update that returns presence to its state between games.
    pub open spec fn presence_reset(self) -> PresenceUpdateView {
        match self.presence {
            Some(mode) => reset_update(mode),
            None => PresenceUpdateView::Keep,
        }
    }

    /// The state once the running session is over.
    pub open spec fn ended(self) -> AppStateView {
        AppStateView { game: None, stop_requested: false, owed: 0, ..self }
    }
}

/// What the caller has to do once a session stands: record the first
/// start of the game, announce that it runs, update presence and start the
/// strategy.
#[derive(Debug)]
pub struct SessionStart {
    pub game_id: String,
    /// What to tell the presence service.
    pub presence: PresenceUpdate,
    /// The strategy to start.
    pub strategy: PlaytimeMode,
}

/// What the caller has to do once a session is over: flush the remainder,
/// record the time of play, update presence and announce that no game runs.
#[derive(Debug)]
pub struct SessionEnd {
    pub game_id: String,
    /// The seconds still to flush: what no flush has taken yet, and what
    /// an earlier flush failed to persist.
    pub remainder: u64,
    /// What to tell the presence service.
    pub presence: PresenceUpdate,
}

/// What a `SessionEnd` value holds.
pub struct SessionEndView {
    pub game_id: Seq<char>,
    pub remainder: u64,
    pub presence: PresenceUpdateView,
}

impl View for SessionEnd {
    type V = SessionEndView;

    open spec fn view(&self) -> SessionEndView {
        SessionEndView {
            game_id: self.game_id@,
            remainder: self.remainder,
            presence: self.presence@,
        }
    }
}

/// The games once the end of a session is settled: the remainder flushed
/// where the counter has room for it, and the time of play recorded. An
/// unknown game settles nothing.
pub open spec fn settled(
    games: Map<Seq<char>, GameView>,
    id: Seq<char>,
    remainder: u64,
    now: u64,
) -> Map<Seq<char>, GameView> {
    if !games.dom().contains(id) {
        games
    } else if games[id].playtime + remainder > u64::MAX {
        with_last_played(games, id, now)
    } else {
        with_last_played(with_playtime(games, id, remainder), id, now)
    }
}

/// What settling the end of a session reports: the first step that failed.
pub open spec fn settle_result(
    games: Map<Seq<char>, GameView>,
    id: Seq<char>,
    remainder: u64,
) -> Result<(), StoreError> {
    if !games.dom().contains(id) {
        Err(StoreError::GameNotFound)
    } else if games[id].playtime + remainder > u64::MAX {
        Err(StoreError::PlaytimeOverflow)
    } else {
        Ok(())
    }
}

impl SessionStart {
    /// Records `now` (seconds since the Unix epoch) as the first start of
    /// the game, unless the store holds a first start already.
    pub fn apply(&self, store: &mut GamesStore, now: u64) -> (r: Result<(), StoreError>)
        requires
            old(store).wf(),
        ensures
            final(store).wf(),
            final(store).base_path() == old(store).base_path(),
            match r {
                Ok(_) => old(store)@.dom().contains(self.game_id@) && final(store)@
                    == with_first_played(old(store)@, self.game_id@, now),
                Err(e) => e == StoreError::GameNotFound && !old(store)@.dom().contains(
                    self.game_id@,
                ) && final(store)@ == old(store)@,
            },
    {
        store.set_first_played(self.game_id.as_str(), now)
    }
}

impl SessionEnd {
    /// Settles the end of the session in the store at `now` (seconds since
    /// the Unix epoch): flushes the remainder, then records the time of
    /// play. A failed flush does not keep the time from being recorded.
    pub fn apply(&self, store: &mut GamesStore, now: u64) -> (r: Result<(), StoreError>)
        requires
            old(store).wf(),
        ensures
            final(store).wf(),
            final(store).base_path() == old(store).base_path(),
            final(store)@ == settled(old(store)@, self.game_id@, self.remainder, now),
            r == settle_result(old(store)@, self.game_id@, self.remainder),
    {
        let flushed = store.update_playtime(self.game_id.as_str(), self.remainder);
        let recorded = store.update_last_played(self.game_id.as_str(), now);
        match flushed {
            Err(e) => Err(e),
            Ok(_) => match recorded {
                Err(e) => Err(e),
                Ok(_) => Ok(()),
            },
        }
    }
}

/// The identity under which a launched game is shown: hidden where the game
/// is sensitive and the user asked to hide such games.
pub open spec fn launch_details(
    game_id: Seq<char>,
    game: GameView,
    settings: SettingsView,
) -> DiscordGameDetailsView {
    DiscordGameDetailsView {
        id: game_id,
        title: game.title,
        image_url: game.image_url,
        nsfw_mode: game.is_nsfw && settings.disable_presence_on_nsfw,
    }
}

impl AppState {
    /// The state at startup: no session, presence not connected yet.
    pub fn new(settings: Settings) -> (r: Self)
        ensures
            r@ == (AppStateView {
                game: None,
                tracking: settings.playtime_mode,
                stop_requested: false,
                owed: 0,
                presence: None,
                settings: settings@,
            }),
    {
        AppState {
            game: None,
            tracking: settings.playtime_mode,
            stop_requested: false,
            owed: 0,
            presence: None,
            settings,
        }
    }

    /// Installs the session of a game whose process was located, started at
    /// `now` (seconds since the Unix epoch). The session is tracked under
    /// the mode configured at this moment; a later change of the setting
    /// leaves it alone.
    pub fn start_session(&mut self, game_id: &str, game: &Game, pid: u32, now: u64) -> (r:
        SessionStart)
        ensures
            final(self)@ == (AppStateView {
                game: Some(GameStateView { id: game_id@, pid, current_playtime: 0 }),
                tracking: old(self)@.settings.playtime_mode,
                stop_requested: false,
                owed: 0,
                ..old(self)@
            }),
            r.game_id@ == game_id@,
            r.strategy == old(self)@.settings.playtime_mode,
            r.presence@ == match old(self)@.presence {
                Some(mode) => set_update(
                    mode,
                    launch_details(game_id@, game@, old(self)@.settings),
                    now,
                ),
                None => PresenceUpdateView::Keep,
            },
    {
        self.game = Some(GameState { id: game_id.to_owned(), pid, current_playtime: 0 });
        self.tracking = self.settings.playtime_mode;
        self.stop_requested = false;
        self.owed = 0;
        let presence = match &self.presence {
            Some(p) => {
                let details = DiscordGameDetails::new(
                    game_id.to_owned(),
                    game.title.clone(),
                    game.image_url.clone(),
                    game.is_nsfw && self.settings.disable_presence_on_nsfw,
                );
                p.set(&details, now)
            },
            None => PresenceUpdate::Keep,
        };
        SessionStart { game_id: game_id.to_owned(), presence, strategy: self.tracking }
    }

    /// Ends the running session, if there is one: the exit branch of its
    /// strategy. It clears the session and says what is left to flush. On a
    /// state without a session it does nothing, so no session ends twice.
    pub fn end_session(&mut self) -> (r: Option<SessionEnd>)
        requires
            old(self)@.unflushed() <= u64::MAX,
        ensures
            match old(self)@.game {
                Some(g) => r matches Some(end) && end@ == (SessionEndView {
                    game_id: g.id,
                    remainder: old(self)@.unflushed() as u64,
                    presence: old(self)@.presence_reset(),
                }) && final(self)@ == old(self)@.ended(),
                None => r is None && final(self)@ == old(self)@,
            },
    {
        match self.game.take() {
            None => None,
            Some(game) => {
                let uncollected = match self.tracking {
                    PlaytimeMode::Classic => game.current_playtime % FLUSH_PERIOD,
                    PlaytimeMode::ExStatic => 0,
                };
                let remainder = uncollected + self.owed;
                let presence = match &self.presence {
                    Some(p) => p.reset(),
                    None => PresenceUpdate::Keep,
                };
                self.stop_requested = false;
                self.owed = 0;
                Some(SessionEnd { game_id: game.id, remainder, presence })
            },
        }
    }

    /// Whether the counters have room for one more tick.
    pub fn can_tick(&self) -> (r: bool)
        ensures
            r == self@.has_room(1),
    {
        match &self.game {
            Some(game) => game.current_playtime < u64::MAX && self.owed <= u64::MAX
                - FLUSH_PERIOD,
            None => true,
        }
    }

    /// Takes note that a flush of `seconds` for the game `game_id` failed:
    /// while that game runs, the seconds stay owed and go out again with
    /// the next flush. It says whether it took note; it does not where no
    /// such game runs or the debt would overrun its counter.
    pub fn flush_failed(&mut self, game_id: &str, seconds: u64) -> (r: bool)
        ensures
            r == old(self)@.can_owe(game_id@, seconds),
            final(self)@ == old(self)@.owing(game_id@, seconds),
    {
        let concerned = match &self.game {
            Some(game) => crate::text::same_text(game.id.as_str(), game_id),
            None => false,
        };
        if !concerned {
            return false;
        }
        match self.owed.checked_add(seconds) {
            Some(owed) => {
                if owed <= u64::MAX - FLUSH_PERIOD {
                    self.owed = owed;
                    true
                } else {
                    false
                }
            },
            None => false,
        }
    }

    /// Changes the presence mode in the settings and, where presence is
    /// connected, in the adapter; returns what to tell the presence service.
    pub fn set_discord_presence_mode(&mut self, to: DiscordPresenceMode) -> (r: PresenceUpdate)
        ensures
            final(self)@ == (AppStateView {
                presence: match old(self)@.presence {
                    Some(_) => Some(to),
                    None => None,
                },
                settings: SettingsView { discord_presence_mode: to, ..old(self)@.settings },
                ..old(self)@
            }),
            r@ == match old(self)@.presence {
                Some(_) => reset_update(to),
                None => PresenceUpdateView::Keep,
            },
    {
        self.settings.discord_presence_mode = to;
        match &mut self.presence {
            Some(p) => p.set_mode(to),
            None => PresenceUpdate::Keep,
        }
    }
}

impl Default for AppState {
    fn default() -> (r: Self)
        ensures
            r@ == (AppStateView {
                game: None,
                tracking: PlaytimeMode::Classic,
                stop_requested: false,
                owed: 0,
                presence: None,
                settings: SettingsView::initial(),
            }),
    {
        AppState::new(Settings::default())
    }
}

} // verus!
