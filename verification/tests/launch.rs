use tadoku::games::{Game, GamesStore};
use tadoku::launch::{
    handle_open_lnk, is_shortcut, open_game, spawn_request, spawn_request_in, LaunchError,
};

fn store() -> GamesStore {
    let mut store = GamesStore::new("/data".to_string());
    let mut direct = Game::default();
    direct.title = "Direct".to_string();
    direct.exe_file_path = "/apps/vn/game.exe".to_string();
    store.save("v1".to_string(), direct);
    let mut linked = Game::default();
    linked.title = "Linked".to_string();
    linked.exe_file_path = "/apps/vn/game.lnk".to_string();
    store.save("v2".to_string(), linked);
    store
}

#[test]
fn open_game_finds_the_game() {
    let plan = open_game(&store(), "v1").unwrap();
    assert_eq!(plan.game.title, "Direct");
    assert_eq!(plan.game.exe_file_path, "/apps/vn/game.exe");
    assert!(!plan.shortcut);
}

#[test]
fn open_game_tells_a_shortcut() {
    let plan = open_game(&store(), "v2").unwrap();
    assert_eq!(plan.game.title, "Linked");
    assert!(plan.shortcut);
}

#[test]
fn open_game_fails_for_an_unknown_id() {
    assert_eq!(open_game(&store(), "v3").err(), Some(LaunchError::GameNotFound));
}

#[test]
fn only_lnk_is_a_shortcut() {
    assert!(is_shortcut(Some("lnk")));
    assert!(!is_shortcut(Some("LNK")));
    assert!(!is_shortcut(Some("exe")));
    assert!(!is_shortcut(Some("")));
    assert!(!is_shortcut(None));
}

#[test]
fn shortcut_resolves_to_its_target() {
    let target = handle_open_lnk(
        Some("C:\\games\\vn".to_string()),
        Some(".\\game.exe".to_string()),
        Some("-window".to_string()),
    )
    .unwrap();
    assert_eq!(target.working_dir, "C:\\games\\vn");
    assert_eq!(target.relative_path, ".\\game.exe");
    assert_eq!(target.args, "-window");

    let bare = handle_open_lnk(Some("w".to_string()), Some("p".to_string()), None).unwrap();
    assert_eq!(bare.args, "");
}

#[test]
fn shortcut_without_working_dir_or_target_fails() {
    assert_eq!(
        handle_open_lnk(None, Some("p".to_string()), None).err(),
        Some(LaunchError::MissingWorkingDir)
    );
    assert_eq!(handle_open_lnk(None, None, None).err(), Some(LaunchError::MissingWorkingDir));
    assert_eq!(
        handle_open_lnk(Some("w".to_string()), None, Some("a".to_string())).err(),
        Some(LaunchError::MissingRelativePath)
    );
}

#[test]
fn spawn_runs_the_game_in_its_directory() {
    let request = spawn_request("/apps/vn/game.exe", "").unwrap();
    assert_eq!(request.program, "/apps/vn/game.exe");
    assert_eq!(request.working_dir, "/apps/vn");
    assert_eq!(request.args, None);

    let request = spawn_request("/apps/vn/game.exe", "-window -x").unwrap();
    assert_eq!(request.args.as_deref(), Some("-window -x"));
}

#[test]
fn spawn_fails_without_a_parent_directory() {
    assert_eq!(spawn_request("/", "").err(), Some(LaunchError::NoParentDirectory));
    assert_eq!(
        spawn_request_in("game.exe", None, "-w").err(),
        Some(LaunchError::NoParentDirectory)
    );
    let request = spawn_request_in("game.exe", Some("dir".to_string()), "-w").unwrap();
    assert_eq!(request.program, "game.exe");
    assert_eq!(request.working_dir, "dir");
    assert_eq!(request.args.as_deref(), Some("-w"));
}

#[test]
fn launch_errors_in_words() {
    assert_eq!(LaunchError::GameNotFound.message(), "Game not found in store");
    assert_eq!(
        LaunchError::MissingWorkingDir.message(),
        "Missing working directory in .lnk file"
    );
    assert_eq!(LaunchError::MissingRelativePath.message(), "Missing relative path in .lnk file");
    assert_eq!(LaunchError::NoParentDirectory.message(), "Failed to get parent directory");
    assert_eq!(LaunchError::ProcessNotFound.message(), "Couldn't find game process");
}
