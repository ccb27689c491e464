use guga_ura::config::Config;
use guga_ura::config_app::ConfigApp;
use guga_ura::detector::{DetectedGame, GameDir, GameVersion};
use guga_ura::installer::{InstallProbe, InstallStatus};

fn listing(path: &str, entries: &[&str]) -> GameDir {
    GameDir {
        path: path.to_string(),
        is_dir: true,
        entries: entries.iter().map(|e| e.to_string()).collect(),
    }
}

fn probe(installed: bool) -> InstallProbe {
    InstallProbe {
        plugins_dir: false,
        backup: false,
        data_dir: installed,
        local_dir: installed,
        local_unity_player: installed,
        local_apphelp: installed,
        config_file: installed,
    }
}

fn stored() -> Config {
    Config {
        notifier_host: "http://127.0.0.1:9000".to_string(),
        timeout_ms: 300,
        target_fps: 60,
        vsync_count: 1,
    }
}

fn message(app: &ConfigApp) -> (String, bool) {
    match &app.status_message {
        Some(m) => (m.text.clone(), m.is_error),
        None => panic!("no message"),
    }
}

fn found(path: &str, version: GameVersion) -> DetectedGame {
    DetectedGame { path: path.to_string(), version }
}

#[test]
fn new_tool_has_nothing_selected() {
    let app = ConfigApp::new();
    assert_eq!(app.game_path, "");
    assert_eq!(app.detected_version, GameVersion::Unknown);
    assert_eq!(app.install_status, InstallStatus::Unknown);
    assert!(app.status_message.is_none());
    assert!(app.detected_games.is_empty());
    assert!(!app.show_game_selector);
    assert_eq!(app.config.notifier_host, "http://127.0.0.1:4693");
    assert_eq!(app.config.timeout_ms, 100);
}

#[test]
fn refresh_without_a_selection_knows_nothing() {
    let mut app = ConfigApp::new();
    app.refresh_status(&listing("D:\\uma", &["umamusume.exe"]), &probe(true), Some(stored()));
    assert_eq!(app.detected_version, GameVersion::Unknown);
    assert_eq!(app.install_status, InstallStatus::Unknown);
    assert_eq!(app.config.timeout_ms, 100);
}

#[test]
fn picked_folder_is_read() {
    let mut app = ConfigApp::new();
    app.select_game_folder(
        Some("D:\\uma".to_string()),
        &listing("D:\\uma", &["umamusume.exe"]),
        &probe(true),
        Some(stored()),
    );
    assert_eq!(app.game_path, "D:\\uma");
    assert_eq!(app.detected_version, GameVersion::DMM);
    assert_eq!(app.install_status, InstallStatus::Installed);
    assert_eq!(app.config.timeout_ms, 300);
    assert_eq!(app.config.target_fps, 60);
    assert_eq!(message(&app), ("检测到 DMM 版".to_string(), false));
}

#[test]
fn picked_folder_without_the_game_is_an_error() {
    let mut app = ConfigApp::new();
    app.select_game_folder(
        Some("D:\\other".to_string()),
        &listing("D:\\other", &["readme.txt"]),
        &probe(false),
        Some(stored()),
    );
    assert_eq!(app.game_path, "D:\\other");
    assert_eq!(app.detected_version, GameVersion::Unknown);
    assert_eq!(app.install_status, InstallStatus::Unknown);
    assert_eq!(app.config.timeout_ms, 100);
    assert_eq!(message(&app), ("未找到游戏文件，请确认选择正确的目录".to_string(), true));
}

#[test]
fn dismissed_dialog_changes_nothing() {
    let mut app = ConfigApp::new();
    app.select_game_folder(None, &listing("D:\\uma", &["umamusume.exe"]), &probe(true), None);
    assert_eq!(app.game_path, "");
    assert!(app.status_message.is_none());
    assert_eq!(app.detected_version, GameVersion::Unknown);
}

#[test]
fn scan_without_games_is_an_error() {
    let mut app = ConfigApp::new();
    app.show_game_selector = true;
    app.scan_games(Vec::new(), &listing("", &[]), &probe(false), None);
    assert!(app.detected_games.is_empty());
    assert!(!app.show_game_selector);
    assert_eq!(message(&app), ("未检测到已安装的游戏".to_string(), true));
    assert_eq!(app.game_path, "");
}

#[test]
fn scan_with_one_game_selects_it() {
    let mut app = ConfigApp::new();
    app.scan_games(
        vec![found("G:\\SteamLibrary\\steamapps\\common\\uma", GameVersion::Steam)],
        &listing("G:\\SteamLibrary\\steamapps\\common\\uma", &["UmamusumePrettyDerby_Jpn.exe"]),
        &probe(false),
        None,
    );
    assert_eq!(app.detected_games.len(), 1);
    assert_eq!(app.game_path, "G:\\SteamLibrary\\steamapps\\common\\uma");
    assert_eq!(app.detected_version, GameVersion::Steam);
    assert_eq!(app.install_status, InstallStatus::NotInstalled);
    assert!(!app.show_game_selector);
    assert_eq!(
        message(&app),
        ("检测到 Steam 版 - G:\\SteamLibrary\\steamapps\\common\\uma".to_string(), false)
    );
}

#[test]
fn scan_with_several_games_asks_for_a_choice() {
    let mut app = ConfigApp::new();
    let games: Vec<DetectedGame> =
        (0..12).map(|i| found(&format!("D:\\uma{}", i), GameVersion::DMM)).collect();
    app.scan_games(games, &listing("", &[]), &probe(false), None);
    assert_eq!(app.detected_games.len(), 12);
    assert!(app.show_game_selector);
    assert_eq!(app.game_path, "");
    assert_eq!(message(&app), ("检测到 12 个游戏安装，请选择一个".to_string(), false));
}

#[test]
fn choosing_a_found_game_selects_it() {
    let mut app = ConfigApp::new();
    app.scan_games(
        vec![found("D:\\a", GameVersion::DMM), found("E:\\b", GameVersion::Steam)],
        &listing("", &[]),
        &probe(false),
        None,
    );
    app.select_detected_game(1, &listing("E:\\b", &["umamusume.exe", "steam_api64.dll"]), &probe(false), None);
    assert_eq!(app.game_path, "E:\\b");
    assert_eq!(app.detected_version, GameVersion::Steam);
    assert!(!app.show_game_selector);
    assert_eq!(message(&app), ("已选择 Steam 版".to_string(), false));
    app.select_detected_game(2, &listing("F:\\c", &["umamusume.exe"]), &probe(true), None);
    assert_eq!(app.game_path, "E:\\b");
    assert_eq!(message(&app), ("已选择 Steam 版".to_string(), false));
}

#[test]
fn install_result_is_reported_and_the_directory_read_again() {
    let mut app = ConfigApp::new();
    let dir = listing("D:\\uma", &["umamusume.exe"]);
    app.select_game_folder(Some("D:\\uma".to_string()), &dir, &probe(false), None);
    assert_eq!(app.install_status, InstallStatus::NotInstalled);
    app.do_install(Ok(()), &dir, &probe(true), Some(stored()));
    assert_eq!(app.install_status, InstallStatus::Installed);
    assert_eq!(app.config.timeout_ms, 300);
    assert_eq!(message(&app), ("安装成功！".to_string(), false));
    app.do_install(Err("写入 apphelp.dll 失败: denied".to_string()), &dir, &probe(false), None);
    assert_eq!(app.install_status, InstallStatus::NotInstalled);
    assert_eq!(message(&app), ("安装失败: 写入 apphelp.dll 失败: denied".to_string(), true));
}

#[test]
fn uninstall_result_is_reported() {
    let mut app = ConfigApp::new();
    let dir = listing("D:\\uma", &["umamusume.exe"]);
    app.select_game_folder(Some("D:\\uma".to_string()), &dir, &probe(true), None);
    app.do_uninstall(Ok(()), &dir, &probe(false), None);
    assert_eq!(app.install_status, InstallStatus::NotInstalled);
    assert_eq!(message(&app), ("卸载成功！".to_string(), false));
    app.do_uninstall(Err("找不到游戏可执行文件".to_string()), &dir, &probe(false), None);
    assert_eq!(message(&app), ("卸载失败: 找不到游戏可执行文件".to_string(), true));
}

#[test]
fn save_result_is_reported() {
    let mut app = ConfigApp::new();
    app.do_save_config(Ok(()));
    assert_eq!(message(&app), ("配置已保存".to_string(), false));
    app.do_save_config(Err("写入错误: denied".to_string()));
    assert_eq!(message(&app), ("保存失败: 写入错误: denied".to_string(), true));
    assert_eq!(app.game_path, "");
}

#[test]
fn buttons_follow_selection_and_install_status() {
    let mut app = ConfigApp::new();
    assert!(!app.has_game());
    assert!(!app.can_install());
    assert!(!app.can_uninstall());
    let dir = listing("D:\\uma", &["umamusume.exe"]);
    app.select_game_folder(Some("D:\\uma".to_string()), &dir, &probe(false), None);
    assert!(app.has_game());
    assert!(app.can_install());
    assert!(!app.can_uninstall());
    app.do_install(Ok(()), &dir, &probe(true), None);
    assert!(app.has_game());
    assert!(!app.can_install());
    assert!(app.can_uninstall());
    app.install_status = InstallStatus::NeedsUpdate;
    assert!(app.can_install());
    assert!(!app.can_uninstall());
}

#[test]
fn custom_frame_rate_is_shown_only_off_the_presets() {
    let mut app = ConfigApp::new();
    assert_eq!(guga_ura::config_app::FPS_PRESETS, [-1, 60, 120, 144]);
    assert_eq!(guga_ura::config_app::VSYNC_PRESETS, [-1, 0, 1]);
    assert_eq!(app.custom_fps(), None);
    for preset in [60, 120, 144] {
        app.set_custom_fps(preset);
        assert_eq!(app.config.target_fps, preset);
        assert_eq!(app.custom_fps(), None);
    }
    app.set_custom_fps(90);
    assert_eq!(app.config.target_fps, 90);
    assert_eq!(app.custom_fps(), Some(90));
    app.set_custom_fps(0);
    assert_eq!(app.config.target_fps, 90);
    app.set_custom_fps(-5);
    assert_eq!(app.config.target_fps, 90);
    app.config.target_fps = -7;
    assert_eq!(app.custom_fps(), None);
    app.set_custom_fps(i32::MAX);
    assert_eq!(app.custom_fps(), Some(i32::MAX));
}

#[test]
fn refresh_on_request_is_confirmed() {
    let mut app = ConfigApp::new();
    let dir = listing("D:\\uma", &["umamusume.exe"]);
    app.select_game_folder(Some("D:\\uma".to_string()), &dir, &probe(false), None);
    app.on_refresh(&dir, &probe(true), Some(stored()));
    assert_eq!(app.install_status, InstallStatus::Installed);
    assert_eq!(app.config.vsync_count, 1);
    assert_eq!(message(&app), ("状态已刷新".to_string(), false));
}
