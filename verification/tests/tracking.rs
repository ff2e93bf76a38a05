use tadoku::classic::{ClassicPlaytime, Foreground, TickObservation, TickOutcome};
use tadoku::exstatic::{ExStaticPlaytime, ExStaticReport, ReportOutcome};
use tadoku::games::{Game, GamesStore, StoreError};
use tadoku::launch::close_game;
use tadoku::locator::{ExePath, ProcessEntry};
use tadoku::presence::{DiscordPresence, DiscordPresenceMode, PresenceUpdate};
use tadoku::session::{AppState, GameState};
use tadoku::settings::{PlaytimeMode, Settings};

fn focused() -> TickObservation {
    TickObservation { pid: 4242, process_alive: true, foreground: Foreground::Focused }
}

fn gone() -> TickObservation {
    TickObservation { pid: 4242, process_alive: false, foreground: Foreground::Unknown }
}

fn game_at(exe: &str) -> Game {
    let mut game = Game::default();
    game.title = "Title".to_string();
    game.exe_file_path = exe.to_string();
    game.process_file_path = exe.to_string();
    game
}

fn state_in(mode: PlaytimeMode) -> AppState {
    let mut settings = Settings::default();
    settings.playtime_mode = mode;
    AppState::new(settings)
}

fn table() -> Vec<ProcessEntry> {
    vec![
        ProcessEntry { pid: 7, exe: ExePath::Text("/usr/bin/other".to_string()), cmd: vec![] },
        ProcessEntry { pid: 4242, exe: ExePath::Text("/apps/game.exe".to_string()), cmd: vec![] },
    ]
}

/// Runs `n` foreground ticks and returns the periodic flushes in order.
fn run_foreground(state: &mut AppState, n: u64) -> Vec<u64> {
    let mut flushes = Vec::new();
    for i in 0..n {
        match ClassicPlaytime::tick(state, focused()) {
            TickOutcome::Counted { total, flush } => {
                assert_eq!(total, i + 1);
                if let Some(seconds) = flush {
                    flushes.push(seconds);
                }
            }
            other => panic!("tick {} gave {:?}", i, other),
        }
    }
    flushes
}

#[test]
fn no_double_counting_over_125_ticks() {
    let mut state = state_in(PlaytimeMode::Classic);
    state.start_session("v17", &game_at("/apps/game.exe"), 4242, 1_000);
    let flushes = run_foreground(&mut state, 125);
    assert_eq!(flushes, vec![60, 60]);
    let end = match ClassicPlaytime::tick(&mut state, gone()) {
        TickOutcome::Ended(end) => end,
        other => panic!("{:?}", other),
    };
    assert_eq!(end.remainder, 5);
    assert_eq!(flushes.iter().sum::<u64>() + end.remainder, 125);
}

#[test]
fn no_double_counting_for_every_length_up_to_200() {
    for n in 0..200u64 {
        let mut state = state_in(PlaytimeMode::Classic);
        state.start_session("v17", &game_at("/apps/game.exe"), 4242, 1_000);
        let flushed: u64 = run_foreground(&mut state, n).iter().sum();
        match ClassicPlaytime::tick(&mut state, gone()) {
            TickOutcome::Ended(end) => assert_eq!(flushed + end.remainder, n),
            other => panic!("{:?}", other),
        }
    }
}

#[test]
fn scenario_59_ticks_then_exit() {
    let mut state = state_in(PlaytimeMode::Classic);
    state.presence = Some(DiscordPresence::new(DiscordPresenceMode::InGame));
    let mut store = GamesStore::new("/data".to_string());
    store.save("v17".to_string(), game_at("/apps/game.exe"));
    state.start_session("v17", &game_at("/apps/game.exe"), 4242, 1_000);
    assert_eq!(state.game.as_ref().map(|g| g.pid), Some(4242));

    let flushes = run_foreground(&mut state, 59);
    assert!(flushes.is_empty());

    let end = match ClassicPlaytime::tick(&mut state, gone()) {
        TickOutcome::Ended(end) => end,
        other => panic!("{:?}", other),
    };
    assert_eq!(end.game_id, "v17");
    assert_eq!(end.remainder, 59);
    assert!(matches!(end.presence, PresenceUpdate::Clear));
    assert!(state.game.is_none());

    assert_eq!(end.apply(&mut store, 5_000), Ok(()));
    let saved = store.get("v17").unwrap();
    assert_eq!(saved.playtime, 59);
    assert_eq!(saved.last_played, Some(5_000));

    assert!(matches!(ClassicPlaytime::tick(&mut state, gone()), TickOutcome::NoSession));
}

#[test]
fn scenario_180_ticks_then_close() {
    let mut state = state_in(PlaytimeMode::Classic);
    let mut store = GamesStore::new("/data".to_string());
    store.save("v17".to_string(), game_at("/apps/game.exe"));
    state.start_session("v17", &game_at("/apps/game.exe"), 4242, 1_000);

    let flushes = run_foreground(&mut state, 180);
    assert_eq!(flushes, vec![60, 60, 60]);
    for seconds in &flushes {
        assert_eq!(store.update_playtime("v17", *seconds), Ok(()));
    }

    let close = close_game(&mut state);
    assert_eq!(close.kill, Some(4242));
    assert!(close.ended.is_none());
    assert!(state.game.is_some());
    assert!(state.stop_requested);

    let end = match ClassicPlaytime::tick(&mut state, focused()) {
        TickOutcome::Ended(end) => end,
        other => panic!("{:?}", other),
    };
    assert_eq!(end.remainder, 0);
    assert_eq!(end.apply(&mut store, 9_000), Ok(()));
    assert_eq!(store.get("v17").unwrap().playtime, 180);
    assert!(state.game.is_none());
    assert!(!state.stop_requested);
}

#[test]
fn flush_falls_on_the_sixtieth_second() {
    let mut state = state_in(PlaytimeMode::Classic);
    state.start_session("v17", &game_at("/apps/game.exe"), 4242, 1_000);
    for i in 1..=120u64 {
        match ClassicPlaytime::tick(&mut state, focused()) {
            TickOutcome::Counted { total, flush } => {
                assert_eq!(total, i);
                assert_eq!(flush, if i % 60 == 0 { Some(60) } else { None });
            }
            other => panic!("{:?}", other),
        }
    }
}

#[test]
fn background_ticks_pause_and_do_not_count() {
    let mut state = state_in(PlaytimeMode::Classic);
    state.start_session("v17", &game_at("/apps/game.exe"), 4242, 1_000);
    run_foreground(&mut state, 3);
    let unfocused =
        TickObservation { pid: 4242, process_alive: true, foreground: Foreground::Unfocused };
    assert!(matches!(ClassicPlaytime::tick(&mut state, unfocused), TickOutcome::Paused));
    let unknown =
        TickObservation { pid: 4242, process_alive: true, foreground: Foreground::Unknown };
    assert!(matches!(ClassicPlaytime::tick(&mut state, unknown), TickOutcome::Skipped));
    assert_eq!(state.game.as_ref().unwrap().current_playtime, 3);
    match ClassicPlaytime::tick(&mut state, focused()) {
        TickOutcome::Counted { total, flush } => {
            assert_eq!(total, 4);
            assert_eq!(flush, None);
        }
        other => panic!("{:?}", other),
    }
}

#[test]
fn tick_without_session_ends_the_loop() {
    let mut state = state_in(PlaytimeMode::Classic);
    assert!(matches!(ClassicPlaytime::tick(&mut state, focused()), TickOutcome::NoSession));
    assert!(state.game.is_none());
}

#[test]
fn tick_of_a_replaced_session_ends_its_loop() {
    let mut state = state_in(PlaytimeMode::Classic);
    state.start_session("v17", &game_at("/apps/game.exe"), 4242, 1_000);
    run_foreground(&mut state, 3);
    state.start_session("v18", &game_at("/apps/other.exe"), 5000, 2_000);
    assert!(matches!(ClassicPlaytime::tick(&mut state, focused()), TickOutcome::NoSession));
    assert!(matches!(ClassicPlaytime::tick(&mut state, gone()), TickOutcome::NoSession));
    let session = state.game.as_ref().unwrap();
    assert_eq!(session.id, "v18");
    assert_eq!(session.current_playtime, 0);
    let own = TickObservation { pid: 5000, process_alive: true, foreground: Foreground::Focused };
    assert!(matches!(
        ClassicPlaytime::tick(&mut state, own),
        TickOutcome::Counted { total: 1, flush: None }
    ));
}

#[test]
fn tick_leaves_a_reported_session_alone() {
    let mut state = state_in(PlaytimeMode::ExStatic);
    state.start_session("v17", &game_at("/apps/game.exe"), 4242, 1_000);
    assert!(matches!(ClassicPlaytime::tick(&mut state, focused()), TickOutcome::Skipped));
    assert!(matches!(ClassicPlaytime::tick(&mut state, gone()), TickOutcome::Skipped));
    assert_eq!(state.game.as_ref().unwrap().current_playtime, 0);
}

#[test]
fn mode_change_does_not_reach_a_running_session() {
    let mut state = state_in(PlaytimeMode::Classic);
    state.start_session("v17", &game_at("/apps/game.exe"), 4242, 1_000);
    state.settings.playtime_mode = PlaytimeMode::ExStatic;
    assert_eq!(state.tracking, PlaytimeMode::Classic);
    run_foreground(&mut state, 2);
    let report = ExStaticReport { seconds: 10, process_path: "/apps/game.exe".to_string() };
    assert!(matches!(
        ExStaticPlaytime::handle(&mut state, &report, &table(), false),
        ReportOutcome::Ignored
    ));
    assert_eq!(state.game.as_ref().unwrap().current_playtime, 2);

    ClassicPlaytime::tick(&mut state, gone());
    let start = state.start_session("v17", &game_at("/apps/game.exe"), 4242, 2_000);
    assert_eq!(start.strategy, PlaytimeMode::ExStatic);
    assert_eq!(state.tracking, PlaytimeMode::ExStatic);
}

#[test]
fn scenario_report_of_12_6_seconds() {
    let mut state = state_in(PlaytimeMode::ExStatic);
    let mut store = GamesStore::new("/data".to_string());
    store.save("v17".to_string(), game_at("/apps/game.exe"));
    state.start_session("v17", &game_at("/apps/game.exe"), 4242, 1_000);

    let time: f64 = 12.6;
    let report =
        ExStaticReport { seconds: time.round() as u64, process_path: "/apps/game.exe".to_string() };
    match ExStaticPlaytime::handle(&mut state, &report, &table(), false) {
        ReportOutcome::Flushed { game_id, seconds, total } => {
            assert_eq!(game_id, "v17");
            assert_eq!(seconds, 13);
            assert_eq!(total, 13);
            assert_eq!(store.update_playtime(&game_id, seconds), Ok(()));
        }
        other => panic!("{:?}", other),
    }
    assert_eq!(state.game.as_ref().unwrap().current_playtime, 13);
    assert_eq!(store.get("v17").unwrap().playtime, 13);

    let close = close_game(&mut state);
    assert_eq!(close.kill, Some(4242));
    let end = close.ended.unwrap();
    assert_eq!(end.remainder, 0);
    assert_eq!(end.apply(&mut store, 2_000), Ok(()));
    assert_eq!(store.get("v17").unwrap().playtime, 13);
    assert!(state.game.is_none());
}

#[test]
fn pid_isolation() {
    let mut state = state_in(PlaytimeMode::ExStatic);
    state.start_session("v17", &game_at("/apps/game.exe"), 4242, 1_000);
    let other = ExStaticReport { seconds: 30, process_path: "/usr/bin/other".to_string() };
    assert!(matches!(
        ExStaticPlaytime::handle(&mut state, &other, &table(), false),
        ReportOutcome::Ignored
    ));
    let nowhere = ExStaticReport { seconds: 30, process_path: "/nowhere".to_string() };
    assert!(matches!(
        ExStaticPlaytime::handle(&mut state, &nowhere, &table(), false),
        ReportOutcome::Ignored
    ));
    assert_eq!(state.game.as_ref().unwrap().current_playtime, 0);
    assert_eq!(state.game.as_ref().unwrap().pid, 4242);
}

#[test]
fn mode_gating() {
    let report = ExStaticReport { seconds: 30, process_path: "/apps/game.exe".to_string() };

    let mut polled = state_in(PlaytimeMode::Classic);
    polled.start_session("v17", &game_at("/apps/game.exe"), 4242, 1_000);
    assert!(matches!(
        ExStaticPlaytime::handle(&mut polled, &report, &table(), false),
        ReportOutcome::Ignored
    ));
    assert_eq!(polled.game.as_ref().unwrap().current_playtime, 0);

    let mut idle = state_in(PlaytimeMode::ExStatic);
    assert!(matches!(
        ExStaticPlaytime::handle(&mut idle, &report, &table(), false),
        ReportOutcome::Ignored
    ));
    assert!(idle.game.is_none());
}

#[test]
fn report_that_overruns_the_counter_is_rejected() {
    let mut state = state_in(PlaytimeMode::ExStatic);
    state.start_session("v17", &game_at("/apps/game.exe"), 4242, 1_000);
    let first = ExStaticReport { seconds: 5, process_path: "/apps/game.exe".to_string() };
    assert!(matches!(
        ExStaticPlaytime::handle(&mut state, &first, &table(), false),
        ReportOutcome::Flushed { .. }
    ));
    let huge = ExStaticReport { seconds: u64::MAX, process_path: "/apps/game.exe".to_string() };
    assert!(matches!(
        ExStaticPlaytime::handle(&mut state, &huge, &table(), false),
        ReportOutcome::Rejected
    ));
    assert_eq!(state.game.as_ref().unwrap().current_playtime, 5);
}

#[test]
fn reports_add_up() {
    let mut state = state_in(PlaytimeMode::ExStatic);
    state.start_session("v17", &game_at("/apps/game.exe"), 4242, 1_000);
    let mut flushed = 0;
    for seconds in [1u64, 0, 7, 60] {
        let report = ExStaticReport { seconds, process_path: "/apps/game.exe".to_string() };
        match ExStaticPlaytime::handle(&mut state, &report, &table(), false) {
            ReportOutcome::Flushed { seconds, total, .. } => {
                flushed += seconds;
                assert_eq!(total, flushed);
            }
            other => panic!("{:?}", other),
        }
    }
    assert_eq!(flushed, 68);
}

#[test]
fn foreground_is_decided_from_the_window_owner() {
    assert_eq!(Foreground::of(Some(4242), 4242), Foreground::Focused);
    assert_eq!(Foreground::of(Some(7), 4242), Foreground::Unfocused);
    assert_eq!(Foreground::of(None, 4242), Foreground::Unknown);
    assert_eq!(Foreground::of(Some(0), 0), Foreground::Focused);
}

#[test]
fn failed_periodic_flush_goes_out_again() {
    let mut state = state_in(PlaytimeMode::Classic);
    state.start_session("v17", &game_at("/apps/game.exe"), 4242, 1_000);
    assert_eq!(run_foreground(&mut state, 60), vec![60]);
    assert!(state.flush_failed("v17", 60));
    assert_eq!(state.owed, 60);
    assert!(state.game.is_some());

    match ClassicPlaytime::tick(&mut state, focused()) {
        TickOutcome::Counted { total, flush } => {
            assert_eq!(total, 61);
            assert_eq!(flush, Some(60));
        }
        other => panic!("{:?}", other),
    }
    assert_eq!(state.owed, 0);
    match ClassicPlaytime::tick(&mut state, focused()) {
        TickOutcome::Counted { total, flush } => {
            assert_eq!(total, 62);
            assert_eq!(flush, None);
        }
        other => panic!("{:?}", other),
    }
    match ClassicPlaytime::tick(&mut state, gone()) {
        TickOutcome::Ended(end) => assert_eq!(end.remainder, 2),
        other => panic!("{:?}", other),
    }
}

#[test]
fn flush_that_keeps_failing_is_owed_at_the_end() {
    let mut state = state_in(PlaytimeMode::Classic);
    state.start_session("v17", &game_at("/apps/game.exe"), 4242, 1_000);
    let mut persisted = 0;
    for i in 1..=125u64 {
        match ClassicPlaytime::tick(&mut state, focused()) {
            TickOutcome::Counted { flush: Some(seconds), .. } => {
                if i < 121 {
                    assert!(state.flush_failed("v17", seconds));
                } else {
                    persisted += seconds;
                }
            }
            TickOutcome::Counted { flush: None, .. } => {}
            other => panic!("{:?}", other),
        }
    }
    assert_eq!(persisted, 120);
    assert_eq!(state.owed, 0);
    assert!(state.flush_failed("v17", 120));
    match ClassicPlaytime::tick(&mut state, gone()) {
        TickOutcome::Ended(end) => assert_eq!(end.remainder, 125),
        other => panic!("{:?}", other),
    }
    assert_eq!(state.owed, 0);
}

#[test]
fn failed_flush_of_a_paused_game_waits_for_the_next_count() {
    let mut state = state_in(PlaytimeMode::Classic);
    state.start_session("v17", &game_at("/apps/game.exe"), 4242, 1_000);
    run_foreground(&mut state, 60);
    assert!(state.flush_failed("v17", 60));
    let unfocused =
        TickObservation { pid: 4242, process_alive: true, foreground: Foreground::Unfocused };
    assert!(matches!(ClassicPlaytime::tick(&mut state, unfocused), TickOutcome::Paused));
    assert_eq!(state.owed, 60);
    assert!(matches!(
        ClassicPlaytime::tick(&mut state, focused()),
        TickOutcome::Counted { total: 61, flush: Some(60) }
    ));
}

#[test]
fn failed_flush_is_noted_only_for_the_running_game() {
    let mut idle = state_in(PlaytimeMode::Classic);
    assert!(!idle.flush_failed("v17", 60));
    assert_eq!(idle.owed, 0);

    let mut state = state_in(PlaytimeMode::Classic);
    state.start_session("v17", &game_at("/apps/game.exe"), 4242, 1_000);
    assert!(!state.flush_failed("v18", 60));
    assert_eq!(state.owed, 0);
    assert!(state.flush_failed("v17", 60));
    assert!(!state.flush_failed("v17", u64::MAX - 100));
    assert_eq!(state.owed, 60);
    assert!(state.flush_failed("v17", u64::MAX - 120));
    assert_eq!(state.owed, u64::MAX - 60);
    assert!(state.can_tick());
    assert!(!state.flush_failed("v17", 1));

    state.start_session("v17", &game_at("/apps/game.exe"), 4242, 2_000);
    assert_eq!(state.owed, 0);
}

#[test]
fn counters_tell_when_they_are_full() {
    let mut state = state_in(PlaytimeMode::Classic);
    assert!(state.can_tick());
    state.start_session("v17", &game_at("/apps/game.exe"), 4242, 1_000);
    assert!(state.can_tick());
    state.game.as_mut().unwrap().current_playtime = u64::MAX;
    assert!(!state.can_tick());
    state.game.as_mut().unwrap().current_playtime = u64::MAX - 1;
    assert!(state.can_tick());
    state.owed = u64::MAX - 59;
    assert!(!state.can_tick());
}

#[test]
fn failed_flush_of_a_report_goes_out_with_the_next_report() {
    let mut state = state_in(PlaytimeMode::ExStatic);
    state.start_session("v17", &game_at("/apps/game.exe"), 4242, 1_000);
    let report = ExStaticReport { seconds: 13, process_path: "/apps/game.exe".to_string() };
    assert!(matches!(
        ExStaticPlaytime::handle(&mut state, &report, &table(), false),
        ReportOutcome::Flushed { seconds: 13, total: 13, .. }
    ));
    assert!(state.flush_failed("v17", 13));
    let next = ExStaticReport { seconds: 7, process_path: "/apps/game.exe".to_string() };
    assert!(matches!(
        ExStaticPlaytime::handle(&mut state, &next, &table(), false),
        ReportOutcome::Flushed { seconds: 20, total: 20, .. }
    ));
    assert_eq!(state.owed, 0);

    assert!(state.flush_failed("v17", 20));
    let other = ExStaticReport { seconds: 5, process_path: "/usr/bin/other".to_string() };
    assert!(matches!(
        ExStaticPlaytime::handle(&mut state, &other, &table(), false),
        ReportOutcome::Ignored
    ));
    assert_eq!(state.owed, 20);
    let close = close_game(&mut state);
    assert_eq!(close.ended.unwrap().remainder, 20);
    assert_eq!(state.owed, 0);
}

#[test]
fn session_ends_once() {
    let mut state = state_in(PlaytimeMode::Classic);
    state.start_session("v17", &game_at("/apps/game.exe"), 4242, 1_000);
    run_foreground(&mut state, 61);
    let end = state.end_session().unwrap();
    assert_eq!(end.remainder, 1);
    assert!(state.end_session().is_none());
}

#[test]
fn settling_an_unknown_game_changes_nothing() {
    let mut state = state_in(PlaytimeMode::Classic);
    state.start_session("v99", &game_at("/apps/game.exe"), 4242, 1_000);
    run_foreground(&mut state, 5);
    let end = state.end_session().unwrap();
    let mut store = GamesStore::new("/data".to_string());
    store.save("v17".to_string(), game_at("/apps/game.exe"));
    assert_eq!(end.apply(&mut store, 3_000), Err(StoreError::GameNotFound));
    assert_eq!(store.get("v17").unwrap().playtime, 0);
    assert_eq!(store.get("v17").unwrap().last_played, None);
}

#[test]
fn settling_a_full_counter_still_records_the_time() {
    let mut full = game_at("/apps/game.exe");
    full.playtime = u64::MAX - 3;
    let mut store = GamesStore::new("/data".to_string());
    store.save("v17".to_string(), full);
    let mut state = state_in(PlaytimeMode::Classic);
    state.start_session("v17", &game_at("/apps/game.exe"), 4242, 1_000);
    run_foreground(&mut state, 5);
    let end = state.end_session().unwrap();
    assert_eq!(end.apply(&mut store, 3_000), Err(StoreError::PlaytimeOverflow));
    assert_eq!(store.get("v17").unwrap().playtime, u64::MAX - 3);
    assert_eq!(store.get("v17").unwrap().last_played, Some(3_000));
}

#[test]
fn close_without_session_does_nothing() {
    let mut state = state_in(PlaytimeMode::Classic);
    let close = close_game(&mut state);
    assert_eq!(close.kill, None);
    assert!(close.ended.is_none());
    assert!(!state.stop_requested);
}

#[test]
fn game_state_default_is_empty() {
    let game = GameState::default();
    assert_eq!(game.id, "");
    assert_eq!(game.pid, 0);
    assert_eq!(game.current_playtime, 0);
    let copy = GameState { id: "v1".to_string(), pid: 3, current_playtime: 9 }.clone();
    assert_eq!(copy.id, "v1");
    assert_eq!(copy.pid, 3);
    assert_eq!(copy.current_playtime, 9);
}

#[test]
fn app_state_default_has_no_session() {
    let state = AppState::default();
    assert!(state.game.is_none());
    assert!(state.presence.is_none());
    assert_eq!(state.tracking, PlaytimeMode::Classic);
    assert!(!state.stop_requested);
    assert_eq!(state.owed, 0);
    assert!(state.settings.disable_presence_on_nsfw);
}
