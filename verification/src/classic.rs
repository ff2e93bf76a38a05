//! The foreground-poll strategy: once a second the caller observes the
//! tracked process and the foreground window, and `tick` decides what the
//! observation means for the session.

use vstd::prelude::*;
use crate::games::{with_playtime, GameView};
use crate::session::{
    AppState, AppStateView, GameStateView, SessionEnd, SessionEndView, FLUSH_PERIOD,
};
use crate::settings::PlaytimeMode;

verus! {

/// Whether the tracked process owns the foreground window.
#[derive(Clone, Copy, Debug, PartialEq, Eq, Structural)]
pub enum Foreground {
    /// It does. Also the answer on a platform that cannot tell: there
    /// every tick counts, at reduced precision.
    Focused,
    /// Another window is in front.
    Unfocused,
    /// The window system gave no answer this time.
    Unknown,
}

/// Who owns the foreground, seen from the process `pid`: `active_window`
/// names the process of the foreground window, and is `None` where the
/// window system gave no answer.
pub open spec fn foreground_of(active_window: Option<u32>, pid: u32) -> Foreground {
    match active_window {
        None => Foreground::Unknown,
        Some(owner) => if owner == pid {
            Foreground::Focused
        } else {
            Foreground::Unfocused
        },
    }
}

impl Foreground {
    /// Decides whether the process `pid` owns the foreground window.
    pub fn of(active_window: Option<u32>, pid: u32) -> (r: Self)
        ensures
            r == foreground_of(active_window, pid),
    {
        match active_window {
            None => Foreground::Unknown,
            Some(owner) => if owner == pid {
                Foreground::Focused
            } else {
                Foreground::Unfocused
            },
        }
    }
}

/// What the caller saw at one tick.
#[derive(Clone, Copy, Debug, PartialEq, Eq, Structural)]
pub struct TickObservation {
    /// The process that was observed: the one the loop tracks.
    pub pid: u32,
    /// Whether the process table still holds that process.
    pub process_alive: bool,
    pub foreground: Foreground,
}

/// What the caller has to do after a tick.
#[derive(Debug)]
pub enum TickOutcome {
    /// No game runs under the observed process: the loop ends and nothing
    /// is flushed.
    NoSession,
    /// Nothing to do but wait for the next tick: the session is tracked by
    /// reports, or the foreground is unknown.
    Skipped,
    /// The game is in the background: announce that playtime is paused.
    Paused,
    /// One second was counted: announce `total`, and flush `flush` seconds
    /// where it is set. Where that flush fails, report it with
    /// `AppState::flush_failed`: the seconds then go out again.
    Counted { total: u64, flush: Option<u64> },
    /// The session is over: the loop ends after what `SessionEnd` asks for.
    Ended(SessionEnd),
}

/// What a `TickOutcome` value holds.
pub enum TickOutcomeView {
    NoSession,
    Skipped,
    Paused,
    Counted { total: u64, flush: Option<u64> },
    Ended(SessionEndView),
}

impl View for TickOutcome {
    type V = TickOutcomeView;

    open spec fn view(&self) -> TickOutcomeView {
        match self {
            TickOutcome::NoSession => TickOutcomeView::NoSession,
            TickOutcome::Skipped => TickOutcomeView::Skipped,
            TickOutcome::Paused => TickOutcomeView::Paused,
            TickOutcome::Counted { total, flush } => TickOutcomeView::Counted {
                total: *total,
                flush: *flush,
            },
            TickOutcome::Ended(end) => TickOutcomeView::Ended(end@),
        }
    }
}

/// Whether the observation is one of the running session's process. A
/// loop whose session was ended or replaced behind its back observes a
/// process that the state no longer tracks.
pub open spec fn tick_concerns(s: AppStateView, obs: TickObservation) -> bool {
    s.game matches Some(g) && g.pid == obs.pid
}

/// Whether the tick ends the session: the user asked for it, or the
/// process of a polled session is gone.
pub open spec fn tick_ends(s: AppStateView, obs: TickObservation) -> bool {
    tick_concerns(s, obs) && (s.stop_requested || (s.tracking == PlaytimeMode::Classic
        && !obs.process_alive))
}

/// Whether the tick counts a second: a polled session whose process lives
/// and owns the foreground.
pub open spec fn tick_counts(s: AppStateView, obs: TickObservation) -> bool {
    tick_concerns(s, obs) && !s.stop_requested && s.tracking == PlaytimeMode::Classic
        && obs.process_alive && obs.foreground == Foreground::Focused
}

/// The state after a tick.
pub open spec fn after_tick(s: AppStateView, obs: TickObservation) -> AppStateView {
    if tick_ends(s, obs) {
        s.ended()
    } else if tick_counts(s, obs) {
        AppStateView {
            game: Some(
                GameStateView {
                    current_playtime: (s.game->0.current_playtime + 1) as u64,
                    ..s.game->0
                },
            ),
            owed: 0,
            ..s
        }
    } else {
        s
    }
}

/// The seconds that a tick which counts takes out of the count: a full
/// period whenever the count reaches a multiple of it.
pub open spec fn tick_collects(s: AppStateView) -> nat {
    if (s.game->0.current_playtime + 1) % (FLUSH_PERIOD as int) == 0 {
        FLUSH_PERIOD as nat
    } else {
        0
    }
}

/// The seconds that the tick hands to persistence: with a tick that
/// counts, what it collects and what an earlier flush failed to persist;
/// all that is unflushed when the session ends; nothing otherwise.
pub open spec fn tick_flush(s: AppStateView, obs: TickObservation) -> nat {
    if tick_ends(s, obs) {
        s.unflushed()
    } else if tick_counts(s, obs) {
        tick_collects(s) + (s.owed as nat)
    } else {
        0
    }
}

/// What the tick asks of the caller.
pub open spec fn tick_outcome(s: AppStateView, obs: TickObservation) -> TickOutcomeView {
    if !tick_concerns(s, obs) {
        TickOutcomeView::NoSession
    } else if tick_ends(s, obs) {
        TickOutcomeView::Ended(
            SessionEndView {
                game_id: s.game->0.id,
                remainder: s.unflushed() as u64,
                presence: s.presence_reset(),
            },
        )
    } else if s.tracking != PlaytimeMode::Classic {
        TickOutcomeView::Skipped
    } else {
        match obs.foreground {
            Foreground::Focused => TickOutcomeView::Counted {
                total: (s.game->0.current_playtime + 1) as u64,
                flush: if tick_flush(s, obs) == 0 {
                    None
                } else {
                    Some(tick_flush(s, obs) as u64)
                },
            },
            Foreground::Unfocused => TickOutcomeView::Paused,
            Foreground::Unknown => TickOutcomeView::Skipped,
        }
    }
}

/// The foreground-poll strategy.
#[derive(Debug)]
pub struct ClassicPlaytime;

impl ClassicPlaytime {
    /// Advances the session by one tick. The caller observes, calls this
    /// while it holds the state, lets go of the state, does what the
    /// outcome asks, and only then sleeps for a second.
    pub fn tick(state: &mut AppState, obs: TickObservation) -> (r: TickOutcome)
        requires
            old(state)@.has_room(1),
        ensures
            final(state)@ == after_tick(old(state)@, obs),
            r@ == tick_outcome(old(state)@, obs),
    {
        let concerned = match &state.game {
            Some(game) => game.pid == obs.pid,
            None => false,
        };
        if !concerned {
            return TickOutcome::NoSession;
        }
        let polled = match state.tracking {
            PlaytimeMode::Classic => true,
            PlaytimeMode::ExStatic => false,
        };
        if state.stop_requested || (polled && !obs.process_alive) {
            match state.end_session() {
                Some(end) => {
                    return TickOutcome::Ended(end);
                },
                None => {
                    return TickOutcome::NoSession;
                },
            }
        }
        if !polled {
            return TickOutcome::Skipped;
        }
        match obs.foreground {
            Foreground::Unknown => TickOutcome::Skipped,
            Foreground::Unfocused => TickOutcome::Paused,
            Foreground::Focused => {
                let mut total: u64 = 0;
                match &mut state.game {
                    Some(game) => {
                        game.current_playtime = game.current_playtime + 1;
                        total = game.current_playtime;
                    },
                    None => {},
                }
                let collected = if total % FLUSH_PERIOD == 0 {
                    FLUSH_PERIOD
                } else {
                    0
                };
                let due = collected + state.owed;
                state.owed = 0;
                let flush = if due == 0 {
                    None
                } else {
                    Some(due)
                };
                TickOutcome::Counted { total, flush }
            },
        }
    }
}

/// The state after the observations of `ticks`, one per tick.
pub open spec fn after_ticks(s: AppStateView, ticks: Seq<TickObservation>) -> AppStateView
    decreases ticks.len(),
{
    if ticks.len() == 0 {
        s
    } else {
        after_ticks(after_tick(s, ticks[0]), ticks.drop_first())
    }
}

/// The seconds handed to persistence over `ticks`: the sum of all periodic
/// flushes and of the final remainder.
pub open spec fn flushed_over(s: AppStateView, ticks: Seq<TickObservation>) -> nat
    decreases ticks.len(),
{
    if ticks.len() == 0 {
        0
    } else {
        tick_flush(s, ticks[0]) + flushed_over(after_tick(s, ticks[0]), ticks.drop_first())
    }
}

/// The seconds counted over `ticks`: the ticks at which the running game
/// was in the foreground.
pub open spec fn counted_over(s: AppStateView, ticks: Seq<TickObservation>) -> nat
    decreases ticks.len(),
{
    if ticks.len() == 0 {
        0
    } else {
        (if tick_counts(s, ticks[0]) {
            1nat
        } else {
            0nat
        }) + counted_over(after_tick(s, ticks[0]), ticks.drop_first())
    }
}

/// Time is conserved over any run of a polled session: what was flushed
/// and what is still open make up what was open at the start and what was
/// counted since. No second is persisted twice and none is lost.
pub proof fn lemma_flushes_balance(s: AppStateView, ticks: Seq<TickObservation>)
    requires
        s.has_room(ticks.len()),
    ensures
        flushed_over(s, ticks) + after_ticks(s, ticks).unflushed() == s.unflushed() + counted_over(
            s,
            ticks,
        ),
    decreases ticks.len(),
{
    if ticks.len() > 0 {
        let next = after_tick(s, ticks[0]);
        assert(tick_flush(s, ticks[0]) + next.unflushed() == s.unflushed() + (if tick_counts(
            s,
            ticks[0],
        ) {
            1nat
        } else {
            0nat
        }));
        lemma_flushes_balance(next, ticks.drop_first());
    }
}

/// A tick at which the game that runs under `pid` is in the foreground.
pub open spec fn foreground_tick(pid: u32) -> TickObservation {
    TickObservation { pid, process_alive: true, foreground: Foreground::Focused }
}

/// N foreground ticks of the process `pid`, and then the tick that finds
/// the process gone.
pub open spec fn played(pid: u32, n: nat) -> Seq<TickObservation> {
    Seq::new(n, |i: int| foreground_tick(pid)).push(
        TickObservation { pid, process_alive: false, foreground: Foreground::Unknown },
    )
}

/// A fresh polled session without a request to stop.
pub open spec fn fresh_polled(s: AppStateView) -> bool {
    s.game matches Some(g) && g.current_playtime == 0 && s.tracking == PlaytimeMode::Classic
        && !s.stop_requested && s.owed == 0
}

/// No double counting: a fresh polled session that sees N foreground ticks
/// and then the exit of its process has flushed exactly N seconds, the
/// periodic flushes and the final remainder together, and is over.
pub proof fn lemma_no_double_counting(s: AppStateView, n: nat)
    requires
        fresh_polled(s),
        n < u64::MAX,
    ensures
        flushed_over(s, played(s.game->0.pid, n)) == n,
        after_ticks(s, played(s.game->0.pid, n)).game is None,
{
    lemma_played(s, n);
    lemma_flushes_balance(s, played(s.game->0.pid, n));
}

proof fn lemma_played(s: AppStateView, n: nat)
    requires
        s.game is Some,
        s.tracking == PlaytimeMode::Classic,
        !s.stop_requested,
        s.game->0.current_playtime + n < u64::MAX,
    ensures
        counted_over(s, played(s.game->0.pid, n)) == n,
        after_ticks(s, played(s.game->0.pid, n)).game is None,
    decreases n,
{
    let pid = s.game->0.pid;
    let ticks = played(pid, n);
    if n == 0 {
        assert(ticks.drop_first() =~= Seq::<TickObservation>::empty());
        assert(tick_ends(s, ticks[0]));
        let next = after_tick(s, ticks[0]);
        assert(after_ticks(next, ticks.drop_first()) == next);
        assert(counted_over(next, ticks.drop_first()) == 0);
    } else {
        assert(ticks[0] == foreground_tick(pid));
        assert(ticks.drop_first() =~= played(pid, (n - 1) as nat));
        lemma_played(after_tick(s, ticks[0]), (n - 1) as nat);
    }
}

/// What happens to a polled session, as far as its time goes: a tick, or
/// the caller's word that the flush it was handed failed.
#[derive(Clone, Copy, Debug, PartialEq, Eq, Structural)]
pub enum TrackEvent {
    Tick(TickObservation),
    /// A flush of so many seconds for the running game failed.
    FlushFailed(u64),
}

/// The state after an event.
pub open spec fn after_event(s: AppStateView, event: TrackEvent) -> AppStateView {
    match event {
        TrackEvent::Tick(obs) => after_tick(s, obs),
        TrackEvent::FlushFailed(seconds) => match s.game {
            Some(g) => s.owing(g.id, seconds),
            None => s,
        },
    }
}

/// The seconds that an event brings to persistence: what a tick hands
/// out, and, taken back, what a failed flush did not bring there.
pub open spec fn event_persists(s: AppStateView, event: TrackEvent) -> int {
    match event {
        TrackEvent::Tick(obs) => tick_flush(s, obs) as int,
        TrackEvent::FlushFailed(seconds) => if s.game matches Some(g) && s.can_owe(g.id, seconds) {
            -(seconds as int)
        } else {
            0
        },
    }
}

/// The state after the events of `events` in turn.
pub open spec fn after_events(s: AppStateView, events: Seq<TrackEvent>) -> AppStateView
    decreases events.len(),
{
    if events.len() == 0 {
        s
    } else {
        after_events(after_event(s, events[0]), events.drop_first())
    }
}

/// The seconds that reached persistence over `events`.
pub open spec fn persisted_by(s: AppStateView, events: Seq<TrackEvent>) -> int
    decreases events.len(),
{
    if events.len() == 0 {
        0
    } else {
        event_persists(s, events[0]) + persisted_by(
            after_event(s, events[0]),
            events.drop_first(),
        )
    }
}

/// The seconds counted over `events`.
pub open spec fn counted_by(s: AppStateView, events: Seq<TrackEvent>) -> nat
    decreases events.len(),
{
    if events.len() == 0 {
        0
    } else {
        (match events[0] {
            TrackEvent::Tick(obs) => if tick_counts(s, obs) {
                1nat
            } else {
                0nat
            },
            TrackEvent::FlushFailed(_) => 0nat,
        }) + counted_by(after_event(s, events[0]), events.drop_first())
    }
}

/// A failed flush is neither dropped nor doubled: over any run of ticks
/// and failed flushes, what reached persistence and what is still
/// unflushed make up what was unflushed at the start and what was counted
/// since. The seconds of a failed flush stay owed until a later flush
/// takes them along.
pub proof fn lemma_failed_flushes_stay_owed(s: AppStateView, events: Seq<TrackEvent>)
    requires
        s.has_room(events.len()),
    ensures
        persisted_by(s, events) + after_events(s, events).unflushed() == s.unflushed()
            + counted_by(s, events),
    decreases events.len(),
{
    if events.len() > 0 {
        let next = after_event(s, events[0]);
        assert(next.has_room((events.len() - 1) as nat));
        lemma_failed_flushes_stay_owed(next, events.drop_first());
    }
}

/// After a failed flush the next tick that counts hands the seconds out
/// again, with what it collects itself, and the session goes on.
pub proof fn lemma_failed_flush_is_retried(s: AppStateView, seconds: u64, obs: TickObservation)
    requires
        s.game matches Some(g) && s.can_owe(g.id, seconds),
        tick_counts(s, obs),
    ensures
        tick_counts(s.owing(s.game->0.id, seconds), obs),
        tick_flush(s.owing(s.game->0.id, seconds), obs) == tick_flush(s, obs) + seconds,
        after_tick(s.owing(s.game->0.id, seconds), obs) == after_tick(s, obs),
        after_tick(s, obs).owed == 0,
{
}

/// The saved games after every flush of `ticks` was added to the playtime
/// of `id`, tick by tick.
pub open spec fn persisted_over(
    games: Map<Seq<char>, GameView>,
    id: Seq<char>,
    s: AppStateView,
    ticks: Seq<TickObservation>,
) -> Map<Seq<char>, GameView>
    decreases ticks.len(),
{
    if ticks.len() == 0 {
        games
    } else {
        persisted_over(
            with_playtime(games, id, tick_flush(s, ticks[0]) as u64),
            id,
            after_tick(s, ticks[0]),
            ticks.drop_first(),
        )
    }
}

/// The flushes of a run reach the saved game as one sum: flushing tick by
/// tick leaves the records that one flush of the total would leave.
pub proof fn lemma_persisted_total(
    games: Map<Seq<char>, GameView>,
    id: Seq<char>,
    s: AppStateView,
    ticks: Seq<TickObservation>,
)
    requires
        games.dom().contains(id),
        games[id].playtime + flushed_over(s, ticks) <= u64::MAX,
    ensures
        persisted_over(games, id, s, ticks) == with_playtime(
            games,
            id,
            flushed_over(s, ticks) as u64,
        ),
    decreases ticks.len(),
{
    if ticks.len() == 0 {
        assert(with_playtime(games, id, 0) =~= games);
    } else {
        let first = tick_flush(s, ticks[0]);
        let next = with_playtime(games, id, first as u64);
        lemma_persisted_total(next, id, after_tick(s, ticks[0]), ticks.drop_first());
        let rest = flushed_over(after_tick(s, ticks[0]), ticks.drop_first());
        assert(with_playtime(next, id, rest as u64) =~= with_playtime(
            games,
            id,
            (first + rest) as u64,
        ));
    }
}

/// A fresh polled session that sees N foreground ticks and then the exit
/// of its process has added exactly N seconds to the playtime of its game.
pub proof fn lemma_played_is_persisted(
    games: Map<Seq<char>, GameView>,
    id: Seq<char>,
    s: AppStateView,
    n: nat,
)
    requires
        fresh_polled(s),
        games.dom().contains(id),
        games[id].playtime + n <= u64::MAX,
        n < u64::MAX,
    ensures
        persisted_over(games, id, s, played(s.game->0.pid, n))[id].playtime == games[id].playtime
            + n,
{
    lemma_no_double_counting(s, n);
    lemma_persisted_total(games, id, s, played(s.game->0.pid, n));
}

} // verus!
