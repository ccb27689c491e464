use guga_ura::detector::{
    add_game_if_new, detect_game_version, is_game_exe_name, is_valid_game_dir,
    scan_installed_games, DetectedGame, GameDir, GameVersion,
};
use guga_ura::embedded_dlls::{get_embedded_info, has_embedded_dlls};
use guga_ura::installer::{
    check_install_status, find_game_exe, uninstall_dll, FileOp, FileStep, InstallError,
    InstallProbe, InstallStatus, Place,
};
use guga_ura::text::{
    contains_ignore_ascii_case, decimal, ends_with_ignore_ascii_case, eq_ignore_ascii_case, same_chars,
    to_ascii_lower, to_chars,
};

fn dir(path: &str, entries: &[&str]) -> GameDir {
    GameDir {
        path: path.to_string(),
        is_dir: true,
        entries: entries.iter().map(|e| e.to_string()).collect(),
    }
}

fn game(path: &str, version: GameVersion) -> DetectedGame {
    DetectedGame { path: path.to_string(), version }
}

fn nothing_found() -> InstallProbe {
    InstallProbe {
        plugins_dir: false,
        backup: false,
        data_dir: false,
        local_dir: false,
        local_unity_player: false,
        local_apphelp: false,
        config_file: false,
    }
}

fn listed(games: &[DetectedGame]) -> Vec<(String, GameVersion)> {
    games.iter().map(|g| (g.path.clone(), g.version)).collect()
}

#[test]
fn version_names_are_as_shown() {
    assert_eq!(GameVersion::Steam.display_name(), "Steam 版");
    assert_eq!(GameVersion::DMM.display_name(), "DMM 版");
    assert_eq!(GameVersion::Unknown.display_name(), "未知版本");
    assert_eq!(GameVersion::Steam.proxy_dll_name(), "winhttp.dll");
    assert_eq!(GameVersion::DMM.proxy_dll_name(), "UnityPlayer.dll");
    assert_eq!(GameVersion::Unknown.proxy_dll_name(), "");
    assert_eq!(GameVersion::Steam.backup_dll_name(), "winhttp_orig.dll");
    assert_eq!(GameVersion::DMM.backup_dll_name(), "UnityPlayer_orig.dll");
    assert_eq!(GameVersion::Unknown.backup_dll_name(), "");
}

#[test]
fn detected_game_is_shown_with_version_and_path() {
    assert_eq!(
        game("D:\\DMMGames\\Umamusume", GameVersion::DMM).display_string(),
        "[DMM 版] D:\\DMMGames\\Umamusume"
    );
    assert_eq!(game("", GameVersion::Unknown).display_string(), "[未知版本] ");
}

#[test]
fn ascii_letters_are_folded_and_nothing_else() {
    assert_eq!(to_ascii_lower('A'), 'a');
    assert_eq!(to_ascii_lower('Z'), 'z');
    assert_eq!(to_ascii_lower('m'), 'm');
    assert_eq!(to_ascii_lower('@'), '@');
    assert_eq!(to_ascii_lower('['), '[');
    assert_eq!(to_ascii_lower('É'), 'É');
    assert_eq!(to_chars("aé版"), vec!['a', 'é', '版']);
    assert!(same_chars(&['a', 'b'], &['a', 'b']));
    assert!(!same_chars(&['a', 'b'], &['a', 'B']));
    assert!(!same_chars(&['a'], &['a', 'b']));
}

#[test]
fn numbers_are_written_in_decimal() {
    assert_eq!(decimal(0), "0");
    assert_eq!(decimal(7), "7");
    assert_eq!(decimal(10), "10");
    assert_eq!(decimal(1024), "1024");
    assert_eq!(decimal(9_007_199), "9007199");
    assert_eq!(decimal(usize::MAX), usize::MAX.to_string());
}

#[test]
fn executable_names_hold_the_stem_and_end_in_exe() {
    assert!(is_game_exe_name("umamusume.exe"));
    assert!(is_game_exe_name("UmamusumePrettyDerby_Jpn.exe"));
    assert!(is_game_exe_name("UMAMUSUME.EXE"));
    assert!(!is_game_exe_name("umamusume.exe.bak"));
    assert!(!is_game_exe_name("umamusume.dll"));
    assert!(!is_game_exe_name("launcher.exe"));
    assert!(!is_game_exe_name(".exe"));
    assert!(!is_game_exe_name(""));
}

#[test]
fn directory_is_valid_when_it_holds_the_executable() {
    assert!(is_valid_game_dir(&dir("C:\\g", &["readme.txt", "umamusume.exe"])));
    assert!(is_valid_game_dir(&dir("C:\\g", &["My_Umamusume_Launcher.EXE"])));
    assert!(!is_valid_game_dir(&dir("C:\\g", &["readme.txt", "UnityPlayer.dll"])));
    assert!(!is_valid_game_dir(&dir("C:\\g", &[])));
    let mut missing = dir("C:\\g", &["umamusume.exe"]);
    missing.is_dir = false;
    assert!(!is_valid_game_dir(&missing));
}

#[test]
fn version_is_told_from_content_and_path() {
    assert_eq!(detect_game_version(&dir("C:\\g", &["readme.txt"])), GameVersion::Unknown);
    assert_eq!(detect_game_version(&dir("D:\\DMMGames\\Umamusume", &["umamusume.exe"])), GameVersion::DMM);
    assert_eq!(
        detect_game_version(&dir("D:\\Games\\uma", &["umamusume.exe", "Steam_Api64.dll"])),
        GameVersion::Steam
    );
    assert_eq!(
        detect_game_version(&dir("G:\\SteamLibrary\\SteamApps\\common\\uma", &["umamusume.exe"])),
        GameVersion::Steam
    );
    assert_eq!(
        detect_game_version(&dir("G:\\STEAMLIBRARY\\uma", &["umamusume.exe"])),
        GameVersion::Steam
    );
    assert_eq!(
        detect_game_version(&dir("D:\\Games\\uma", &["umamusumeprettyderby_jpn.exe"])),
        GameVersion::Steam
    );
    assert_eq!(
        detect_game_version(&dir("D:\\Games\\uma", &["UmamusumePrettyDerby.exe"])),
        GameVersion::DMM
    );
    assert_eq!(
        detect_game_version(&dir("G:\\SteamLibrary\\steamapps\\common\\uma", &["steam_api64.dll"])),
        GameVersion::Unknown
    );
}

#[test]
fn game_at_a_listed_place_is_not_added_again() {
    let mut games = Vec::new();
    add_game_if_new(&mut games, game("D:\\Games\\Uma", GameVersion::DMM));
    add_game_if_new(&mut games, game("d:/games/uma", GameVersion::Steam));
    add_game_if_new(&mut games, game("D:\\GAMES\\UMA", GameVersion::Steam));
    add_game_if_new(&mut games, game("D:\\Games\\Uma2", GameVersion::Steam));
    add_game_if_new(&mut games, game("D:\\Games\\Éma", GameVersion::DMM));
    add_game_if_new(&mut games, game("D:\\Games\\éma", GameVersion::DMM));
    assert_eq!(
        listed(&games),
        vec![
            ("D:\\Games\\Uma".to_string(), GameVersion::DMM),
            ("D:\\Games\\Uma2".to_string(), GameVersion::Steam),
            ("D:\\Games\\Éma".to_string(), GameVersion::DMM),
        ]
    );
}

#[test]
fn scan_merges_in_order_without_repeats() {
    let steam = vec![game("G:\\SteamLibrary\\steamapps\\common\\uma", GameVersion::Steam)];
    let others = vec![
        game("D:\\DMMGames\\Umamusume", GameVersion::DMM),
        game("g:/steamlibrary/steamapps/common/UMA", GameVersion::DMM),
    ];
    let common = vec![
        dir("C:\\Games\\umamusume", &["umamusume.exe"]),
        dir("D:\\Games\\umamusume", &["readme.txt"]),
        dir("d:\\dmmgames\\umamusume", &["umamusume.exe"]),
        dir("E:\\Games\\umamusume", &["umamusume.exe", "steam_api64.dll"]),
    ];
    let games = scan_installed_games(steam, others, common);
    assert_eq!(
        listed(&games),
        vec![
            ("G:\\SteamLibrary\\steamapps\\common\\uma".to_string(), GameVersion::Steam),
            ("D:\\DMMGames\\Umamusume".to_string(), GameVersion::DMM),
            ("C:\\Games\\umamusume".to_string(), GameVersion::DMM),
            ("E:\\Games\\umamusume".to_string(), GameVersion::Steam),
        ]
    );
    assert!(scan_installed_games(Vec::new(), Vec::new(), Vec::new()).is_empty());
}

#[test]
fn embedded_libraries_are_described_in_kilobytes() {
    let unity = vec![0u8; 3 * 1024 + 100];
    let apphelp = vec![0u8; 1023];
    assert!(has_embedded_dlls(&unity, &apphelp));
    assert!(!has_embedded_dlls(&unity, &[]));
    assert!(!has_embedded_dlls(&[], &apphelp));
    assert_eq!(get_embedded_info(&unity, &apphelp), "内嵌: UnityPlayer.dll (3 KB), apphelp.dll (0 KB)");
    assert_eq!(get_embedded_info(&[], &apphelp), "未内嵌 DLL（将从外部文件加载）");
    assert_eq!(get_embedded_info(&[], &[]), "未内嵌 DLL（将从外部文件加载）");
}

#[test]
fn status_names_are_as_shown() {
    assert_eq!(InstallStatus::Installed.display_name(), "✅ 已安装");
    assert_eq!(InstallStatus::NotInstalled.display_name(), "❌ 未安装");
    assert_eq!(InstallStatus::NeedsUpdate.display_name(), "🔄 需要更新");
    assert_eq!(InstallStatus::Unknown.display_name(), "❓ 未知");
    assert_eq!(InstallError::UnknownVersion.message(), "未知的游戏版本");
    assert_eq!(InstallError::PluginsDirNotFound.message(), "找不到 Plugins/x86_64 目录");
    assert_eq!(InstallError::BackupNotFound.message(), "找不到备份文件，无法恢复");
    assert_eq!(InstallError::ExecutableNotFound.message(), "找不到游戏可执行文件");
}

#[test]
fn known_executables_are_preferred_in_their_order() {
    let d = dir("C:\\g", &["My_umamusume.exe", "UmamusumePrettyDerby.exe", "UMAMUSUME.EXE"]);
    assert_eq!(find_game_exe(&d), Some("umamusume.exe".to_string()));
    let d = dir("C:\\g", &["UmamusumePrettyDerby.exe", "umamusumeprettyderby_jpn.exe"]);
    assert_eq!(find_game_exe(&d), Some("UmamusumePrettyDerby_Jpn.exe".to_string()));
    let d = dir("C:\\g", &["a.txt", "Umamusume_Launcher.EXE", "umamusume2.exe"]);
    assert_eq!(find_game_exe(&d), Some("Umamusume_Launcher.EXE".to_string()));
    assert_eq!(find_game_exe(&dir("C:\\g", &["a.txt"])), None);
    assert_eq!(find_game_exe(&dir("C:\\g", &[])), None);
}

#[test]
fn install_status_follows_the_release() {
    let d = dir("C:\\g", &["umamusume.exe"]);
    let mut probe = nothing_found();
    assert_eq!(check_install_status(&d, GameVersion::Steam, &probe), InstallStatus::NotInstalled);
    assert_eq!(check_install_status(&d, GameVersion::DMM, &probe), InstallStatus::NotInstalled);
    probe.backup = true;
    assert_eq!(check_install_status(&d, GameVersion::Steam, &probe), InstallStatus::Installed);
    assert_eq!(check_install_status(&d, GameVersion::DMM, &probe), InstallStatus::NotInstalled);
    probe.local_dir = true;
    probe.local_unity_player = true;
    assert_eq!(check_install_status(&d, GameVersion::DMM, &probe), InstallStatus::NotInstalled);
    probe.local_apphelp = true;
    assert_eq!(check_install_status(&d, GameVersion::DMM, &probe), InstallStatus::Installed);
    assert_eq!(check_install_status(&d, GameVersion::Unknown, &probe), InstallStatus::Installed);
    probe.local_dir = false;
    assert_eq!(check_install_status(&d, GameVersion::DMM, &probe), InstallStatus::NotInstalled);
    let empty = dir("C:\\g", &["a.txt"]);
    probe.local_dir = true;
    assert_eq!(check_install_status(&empty, GameVersion::DMM, &probe), InstallStatus::Unknown);
    assert_eq!(check_install_status(&empty, GameVersion::Steam, &probe), InstallStatus::Unknown);
}

#[test]
fn steam_uninstall_restores_the_backup() {
    let d = dir("C:\\g", &["umamusume.exe"]);
    let mut probe = nothing_found();
    assert_eq!(uninstall_dll(&d, GameVersion::Steam, &probe), Err(InstallError::PluginsDirNotFound));
    probe.plugins_dir = true;
    assert_eq!(uninstall_dll(&d, GameVersion::Steam, &probe), Err(InstallError::BackupNotFound));
    probe.backup = true;
    let restore = vec![
        FileStep { op: FileOp::Copy { from: Place::BackupDll, to: Place::PluginDll }, required: true },
        FileStep { op: FileOp::RemoveFile(Place::BackupDll), required: true },
    ];
    assert_eq!(uninstall_dll(&d, GameVersion::Steam, &probe), Ok(restore.clone()));
    probe.data_dir = true;
    probe.config_file = true;
    let mut with_data = restore;
    with_data.push(FileStep { op: FileOp::RemoveDir(Place::DataDir), required: false });
    assert_eq!(uninstall_dll(&d, GameVersion::Steam, &probe), Ok(with_data));
}

#[test]
fn dmm_uninstall_removes_what_is_there() {
    let d = dir("C:\\g", &["umamusume.exe"]);
    let mut probe = nothing_found();
    assert_eq!(uninstall_dll(&d, GameVersion::DMM, &probe), Ok(Vec::new()));
    probe.local_dir = true;
    probe.data_dir = true;
    probe.config_file = true;
    assert_eq!(
        uninstall_dll(&d, GameVersion::DMM, &probe),
        Ok(vec![
            FileStep { op: FileOp::RemoveDir(Place::LocalDir), required: true },
            FileStep { op: FileOp::RemoveDir(Place::DataDir), required: false },
            FileStep { op: FileOp::RemoveFile(Place::ConfigFile), required: false },
        ])
    );
    probe.local_dir = false;
    probe.data_dir = false;
    assert_eq!(
        uninstall_dll(&d, GameVersion::DMM, &probe),
        Ok(vec![FileStep { op: FileOp::RemoveFile(Place::ConfigFile), required: false }])
    );
    let empty = dir("C:\\g", &["a.txt"]);
    assert_eq!(uninstall_dll(&empty, GameVersion::DMM, &probe), Err(InstallError::ExecutableNotFound));
}

#[test]
fn unknown_version_cannot_be_uninstalled() {
    let d = dir("C:\\g", &["umamusume.exe"]);
    let mut probe = nothing_found();
    probe.plugins_dir = true;
    probe.backup = true;
    assert_eq!(uninstall_dll(&d, GameVersion::Unknown, &probe), Err(InstallError::UnknownVersion));
}

fn chars(text: &str) -> Vec<char> {
    text.chars().collect()
}

#[test]
fn search_ignores_the_case_of_ascii_letters_only() {
    assert!(contains_ignore_ascii_case(&chars("xxSteamAppsyy"), &chars("steamapps")));
    assert!(contains_ignore_ascii_case(&chars("steamapps"), &chars("STEAMAPPS")));
    assert!(contains_ignore_ascii_case(&chars("abc"), &chars("")));
    assert!(contains_ignore_ascii_case(&chars(""), &chars("")));
    assert!(contains_ignore_ascii_case(&chars("ab"), &chars("b")));
    assert!(!contains_ignore_ascii_case(&chars("ab"), &chars("abc")));
    assert!(!contains_ignore_ascii_case(&chars(""), &chars("a")));
    assert!(!contains_ignore_ascii_case(&chars("steam apps"), &chars("steamapps")));
    assert!(!contains_ignore_ascii_case(&chars("É"), &chars("é")));
    assert!(!contains_ignore_ascii_case(&chars("a@"), &chars("a`")));
    assert!(!contains_ignore_ascii_case(&chars("a["), &chars("a{")));
}

#[test]
fn equality_and_suffix_ignore_the_case_of_ascii_letters() {
    assert!(eq_ignore_ascii_case(&chars("UnityPlayer.DLL"), &chars("unityplayer.dll")));
    assert!(eq_ignore_ascii_case(&chars(""), &chars("")));
    assert!(!eq_ignore_ascii_case(&chars("unityplayer.dll"), &chars("unityplayer.dl")));
    assert!(!eq_ignore_ascii_case(&chars("a"), &chars("b")));
    assert!(ends_with_ignore_ascii_case(&chars("game.EXE"), &chars(".exe")));
    assert!(ends_with_ignore_ascii_case(&chars(".exe"), &chars(".exe")));
    assert!(ends_with_ignore_ascii_case(&chars("x"), &chars("")));
    assert!(!ends_with_ignore_ascii_case(&chars("exe"), &chars(".exe")));
    assert!(!ends_with_ignore_ascii_case(&chars("game.exe "), &chars(".exe")));
}
