//! The external-report strategy: a cooperating observer pushes time reports,
//! and `handle` decides whether a report belongs to the running session.

use vstd::prelude::*;
use crate::locator::{get_pid_from_process_path, located, ProcessEntry};
use crate::session::{AppState, AppStateView, GameStateView};
use crate::settings::PlaytimeMode;

verus! {

/// One report of the observer, its time already rounded to whole seconds.
#[derive(Debug)]
pub struct ExStaticReport {
    /// The seconds played since the last report.
    pub seconds: u64,
    /// The executable that the observer watched.
    pub process_path: String,
}

/// What the caller has to do after a report.
#[derive(Debug)]
pub enum ReportOutcome {
    /// The report does not concern the running session: nothing happens.
    Ignored,
    /// The report would overrun the counter of the session: it is dropped.
    Rejected,
    /// The report was counted: flush `seconds` for `game_id` at once and
    /// announce `total`. The seconds are those of the report and those
    /// that an earlier flush failed to persist. Where this flush fails,
    /// report it with `AppState::flush_failed`.
    Flushed { game_id: String, seconds: u64, total: u64 },
}

/// What a `ReportOutcome` value holds.
pub enum ReportOutcomeView {
    Ignored,
    Rejected,
    Flushed { game_id: Seq<char>, seconds: u64, total: u64 },
}

impl View for ReportOutcome {
    type V = ReportOutcomeView;

    open spec fn view(&self) -> ReportOutcomeView {
        match self {
            ReportOutcome::Ignored => ReportOutcomeView::Ignored,
            ReportOutcome::Rejected => ReportOutcomeView::Rejected,
            ReportOutcome::Flushed { game_id, seconds, total } => ReportOutcomeView::Flushed {
                game_id: game_id@,
                seconds: *seconds,
                total: *total,
            },
        }
    }
}

/// Whether a report concerns the running session: the session is tracked
/// by reports, and the reported executable resolves to its process.
pub open spec fn report_concerns(s: AppStateView, resolved: Option<u32>) -> bool {
    s.game matches Some(g) && s.tracking == PlaytimeMode::ExStatic && resolved == Some(g.pid)
}

/// Whether the counters of the session have room for `seconds` more.
pub open spec fn report_fits(s: AppStateView, seconds: u64) -> bool {
    s.game matches Some(g) && g.current_playtime + seconds <= u64::MAX && s.owed + seconds
        <= u64::MAX
}

/// Whether a report is counted.
pub open spec fn report_counts(s: AppStateView, seconds: u64, resolved: Option<u32>) -> bool {
    report_concerns(s, resolved) && report_fits(s, seconds)
}

/// The state after a report of `seconds` whose executable resolved to
/// `resolved`.
pub open spec fn after_report(s: AppStateView, seconds: u64, resolved: Option<u32>) -> AppStateView {
    if report_counts(s, seconds, resolved) {
        AppStateView {
            game: Some(
                GameStateView {
                    current_playtime: (s.game->0.current_playtime + seconds) as u64,
                    ..s.game->0
                },
            ),
            owed: 0,
            ..s
        }
    } else {
        s
    }
}

/// The seconds that a report hands to persistence: its own, and those that
/// an earlier flush failed to persist.
pub open spec fn report_flush(s: AppStateView, seconds: u64, resolved: Option<u32>) -> nat {
    if report_counts(s, seconds, resolved) {
        (seconds + s.owed) as nat
    } else {
        0
    }
}

/// What a report asks of the caller.
pub open spec fn report_outcome(s: AppStateView, seconds: u64, resolved: Option<u32>) -> ReportOutcomeView {
    if !report_concerns(s, resolved) {
        ReportOutcomeView::Ignored
    } else if !report_fits(s, seconds) {
        ReportOutcomeView::Rejected
    } else {
        ReportOutcomeView::Flushed {
            game_id: s.game->0.id,
            seconds: (seconds + s.owed) as u64,
            total: (s.game->0.current_playtime + seconds) as u64,
        }
    }
}

/// The external-report strategy.
#[derive(Debug)]
pub struct ExStaticPlaytime;

impl ExStaticPlaytime {
    /// Handles one report against the session and a snapshot of the
    /// process table, looked up once.
    pub fn handle(
        state: &mut AppState,
        report: &ExStaticReport,
        processes: &Vec<ProcessEntry>,
        match_command_line: bool,
    ) -> (r: ReportOutcome)
        ensures
            final(state)@ == after_report(
                old(state)@,
                report.seconds,
                located(processes@, report.process_path@, match_command_line),
            ),
            r@ == report_outcome(
                old(state)@,
                report.seconds,
                located(processes@, report.process_path@, match_command_line),
            ),
    {
        match state.tracking {
            PlaytimeMode::Classic => {
                return ReportOutcome::Ignored;
            },
            PlaytimeMode::ExStatic => {},
        }
        if state.game.is_none() {
            return ReportOutcome::Ignored;
        }
        let resolved = get_pid_from_process_path(
            processes,
            report.process_path.as_str(),
            match_command_line,
        );
        let owed = state.owed;
        let outcome = match &mut state.game {
            None => ReportOutcome::Ignored,
            Some(game) => {
                match resolved {
                    None => ReportOutcome::Ignored,
                    Some(pid) => {
                        if pid != game.pid {
                            ReportOutcome::Ignored
                        } else {
                            match (
                                game.current_playtime.checked_add(report.seconds),
                                owed.checked_add(report.seconds),
                            ) {
                                (Some(total), Some(due)) => {
                                    game.current_playtime = total;
                                    ReportOutcome::Flushed {
                                        game_id: game.id.clone(),
                                        seconds: due,
                                        total,
                                    }
                                },
                                _ => ReportOutcome::Rejected,
                            }
                        }
                    },
                }
            },
        };
        match &outcome {
            ReportOutcome::Flushed { .. } => {
                state.owed = 0;
            },
            _ => {},
        }
        outcome
    }
}

/// Process isolation: a report whose executable resolves to another process
/// than the session's, or to none, changes nothing and flushes nothing.
pub proof fn lemma_pid_isolation(s: AppStateView, seconds: u64, resolved: Option<u32>)
    requires
        s.game matches Some(g) && resolved != Some(g.pid),
    ensures
        after_report(s, seconds, resolved) == s,
        report_flush(s, seconds, resolved) == 0,
        report_outcome(s, seconds, resolved) == ReportOutcomeView::Ignored,
{
}

/// Mode gating: while the configured mode is `Classic`, or while no game
/// runs, a report changes nothing and flushes nothing. A session runs under
/// the mode it began with, so the law speaks of states whose session, if
/// any, began under the mode that is configured now.
pub proof fn lemma_mode_gating(s: AppStateView, seconds: u64, resolved: Option<u32>)
    requires
        s.game is None || s.settings.playtime_mode == PlaytimeMode::Classic,
        s.game is Some ==> s.tracking == s.settings.playtime_mode,
    ensures
        after_report(s, seconds, resolved) == s,
        report_flush(s, seconds, resolved) == 0,
        report_outcome(s, seconds, resolved) == ReportOutcomeView::Ignored,
{
}

/// A session that is polled takes no reports, whatever they say.
pub proof fn lemma_polled_session_ignores_reports(
    s: AppStateView,
    seconds: u64,
    resolved: Option<u32>,
)
    requires
        s.tracking == PlaytimeMode::Classic,
    ensures
        after_report(s, seconds, resolved) == s,
        report_flush(s, seconds, resolved) == 0,
        report_outcome(s, seconds, resolved) == ReportOutcomeView::Ignored,
{
}

/// Reports conserve time: what a report hands to persistence and what is
/// unflushed after it make up what was unflushed before it and the seconds
/// it counted. A session tracked by reports holds nothing back but what a
/// failed flush left owed.
pub proof fn lemma_report_balance(s: AppStateView, seconds: u64, resolved: Option<u32>)
    requires
        s.tracking == PlaytimeMode::ExStatic,
    ensures
        report_flush(s, seconds, resolved) + after_report(s, seconds, resolved).unflushed()
            == s.unflushed() + (if report_counts(s, seconds, resolved) {
            seconds as nat
        } else {
            0
        }),
        report_counts(s, seconds, resolved) ==> after_report(s, seconds, resolved).unflushed()
            == 0 && after_report(s, seconds, resolved).game->0.current_playtime
            == s.game->0.current_playtime + seconds,
{
}

} // verus!
