//! State of the configuration tool: the selected game, what is known of it,
//! and the message shown to the user.

use crate::config::Config;
use crate::detector::detect_game_version;
use crate::detector::is_valid_game_dir;
use crate::detector::valid_game_dir;
use crate::detector::version_of;
use crate::detector::DetectedGame;
use crate::detector::GameDir;
use crate::detector::GameVersion;
use crate::installer::check_install_status;
use crate::installer::has_game_exe;
use crate::installer::has_known_exe;
use crate::installer::status_of;
use crate::installer::InstallProbe;
use crate::installer::InstallStatus;
use crate::text::decimal;
use crate::text::decimal_of;
use vstd::prelude::*;
use vstd::string::StringExecFns;

verus! {

/// A line for the user, marked as an error or not.
pub struct StatusMessage {
    pub text: String,
    pub is_error: bool,
}

pub struct ConfigApp {
    /// Path of the selected game directory; empty while none is selected.
    pub game_path: String,
    pub detected_version: GameVersion,
    pub config: Config,
    pub install_status: InstallStatus,
    pub status_message: Option<StatusMessage>,
    /// The games found by the last scan.
    pub detected_games: Vec<DetectedGame>,
    /// Whether the user is asked to pick one of the games found.
    pub show_game_selector: bool,
}

/// The frame rates offered as presets; `-1` keeps the game's own value.
pub const FPS_PRESETS: [i32; 4] = [-1, 60, 120, 144];

/// The vsync counts offered: the game's own value, off, on.
pub const VSYNC_PRESETS: [i32; 3] = [-1, 0, 1];

/// The frame rate is one of the presets.
pub open spec fn is_fps_preset(fps: i32) -> bool {
    fps == -1 || fps == 60 || fps == 120 || fps == 144
}

/// What `stored` gives as configuration: itself, or the defaults.
pub open spec fn loads(stored: Option<Config>, config: Config) -> bool {
    match stored {
        Some(c) => config == c,
        None => config.is_default(),
    }
}

impl ConfigApp {
    /// The message shown is `text`, marked as given.
    pub open spec fn says(self, text: Seq<char>, is_error: bool) -> bool {
        &&& self.status_message matches Some(message)
        &&& message.text@ == text
        &&& message.is_error == is_error
    }

    /// Version, install status and configuration are those that the selected
    /// directory shows: unknown for no or no valid directory, in which case
    /// the configuration of `before` is kept.
    pub open spec fn shows(
        self,
        before: ConfigApp,
        dir: GameDir,
        probe: InstallProbe,
        stored: Option<Config>,
    ) -> bool {
        if self.game_path@.len() == 0 || !valid_game_dir(dir) {
            &&& self.detected_version == GameVersion::Unknown
            &&& self.install_status == InstallStatus::Unknown
            &&& self.config == before.config
        } else {
            &&& self.detected_version == version_of(dir)
            &&& self.install_status == status_of(
                has_known_exe(dir.entries@) || has_game_exe(dir.entries@),
                version_of(dir),
                probe,
            )
            &&& loads(stored, self.config)
        }
    }

    /// The scan's result and the selector are as in `before`.
    pub open spec fn same_scan(self, before: ConfigApp) -> bool {
        &&& self.detected_games == before.detected_games
        &&& self.show_game_selector == before.show_game_selector
    }

    pub fn new() -> (app: ConfigApp)
        ensures
            app.game_path@.len() == 0,
            app.detected_version == GameVersion::Unknown,
            app.config.is_default(),
            app.install_status == InstallStatus::Unknown,
            app.status_message is None,
            app.detected_games@.len() == 0,
            !app.show_game_selector,
    {
        ConfigApp {
            game_path: String::new(),
            detected_version: GameVersion::Unknown,
            config: Config::default(),
            install_status: InstallStatus::Unknown,
            status_message: None,
            detected_games: Vec::new(),
            show_game_selector: false,
        }
    }

    fn say(&mut self, text: String, is_error: bool)
        ensures
            final(self).says(text@, is_error),
            final(self).game_path == old(self).game_path,
            final(self).detected_version == old(self).detected_version,
            final(self).config == old(self).config,
            final(self).install_status == old(self).install_status,
            final(self).same_scan(*old(self)),
    {
        self.status_message = Some(StatusMessage { text, is_error });
    }

    /// Takes what was read of the selected directory: its listing, what is
    /// installed there, and the configuration stored there, if any.
    pub fn refresh_status(&mut self, dir: &GameDir, probe: &InstallProbe, stored: Option<Config>)
        ensures
            final(self).game_path == old(self).game_path,
            final(self).status_message == old(self).status_message,
            final(self).same_scan(*old(self)),
            final(self).shows(*old(self), *dir, *probe, stored),
    {
        if self.game_path.as_str().is_empty() || !is_valid_game_dir(dir) {
            self.detected_version = GameVersion::Unknown;
            self.install_status = InstallStatus::Unknown;
            return ;
        }
        self.detected_version = detect_game_version(dir);
        self.install_status = check_install_status(dir, self.detected_version, probe);
        self.config = Config::load(stored).0;
    }

    /// Takes the directory the user picked, if one was picked.
    pub fn select_game_folder(
        &mut self,
        picked: Option<String>,
        dir: &GameDir,
        probe: &InstallProbe,
        stored: Option<Config>,
    )
        ensures
            final(self).same_scan(*old(self)),
            match picked {
                None => *final(self) == *old(self),
                Some(path) => {
                    &&& final(self).game_path@ == path@
                    &&& final(self).shows(*old(self), *dir, *probe, stored)
                    &&& if final(self).detected_version == GameVersion::Unknown {
                        final(self).says("未找到游戏文件，请确认选择正确的目录"@, true)
                    } else {
                        final(self).says("检测到 "@ + final(self).detected_version.label(), false)
                    }
                },
            },
    {
        match picked {
            None => {},
            Some(path) => {
                self.game_path = path;
                self.refresh_status(dir, probe, stored);
                match self.detected_version {
                    GameVersion::Unknown => {
                        self.say(String::from_str("未找到游戏文件，请确认选择正确的目录"), true);
                    },
                    _ => {
                        let mut text = String::from_str("检测到 ");
                        text.append(self.detected_version.display_name());
                        self.say(text, false);
                    },
                }
            },
        }
    }

    /// Takes the result of a scan. A single game is selected at once and the
    /// reading of its directory is taken; several games are offered for
    /// selection.
    pub fn scan_games(
        &mut self,
        games: Vec<DetectedGame>,
        dir: &GameDir,
        probe: &InstallProbe,
        stored: Option<Config>,
    )
        ensures
            final(self).detected_games@ == games@,
            final(self).show_game_selector == (games@.len() > 1),
            games@.len() == 0 ==> {
                &&& final(self).says("未检测到已安装的游戏"@, true)
                &&& final(self).game_path == old(self).game_path
                &&& final(self).detected_version == old(self).detected_version
                &&& final(self).install_status == old(self).install_status
                &&& final(self).config == old(self).config
            },
            games@.len() == 1 ==> {
                &&& final(self).game_path@ == games@[0].path@
                &&& final(self).shows(*old(self), *dir, *probe, stored)
                &&& final(self).says(
                    "检测到 "@ + games@[0].version.label() + " - "@ + games@[0].path@,
                    false,
                )
            },
            games@.len() > 1 ==> {
                &&& final(self).says(
                    "检测到 "@ + decimal_of(games@.len()) + " 个游戏安装，请选择一个"@,
                    false,
                )
                &&& final(self).game_path == old(self).game_path
                &&& final(self).detected_version == old(self).detected_version
                &&& final(self).install_status == old(self).install_status
                &&& final(self).config == old(self).config
            },
    {
        self.detected_games = games;
        let count = self.detected_games.len();
        if count == 0 {
            self.say(String::from_str("未检测到已安装的游戏"), true);
            self.show_game_selector = false;
        } else if count == 1 {
            let path = self.detected_games[0].path.clone();
            let version = self.detected_games[0].version;
            let mut text = String::from_str("检测到 ");
            text.append(version.display_name());
            text.append(" - ");
            text.append(path.as_str());
            self.game_path = path;
            self.refresh_status(dir, probe, stored);
            self.say(text, false);
            self.show_game_selector = false;
        } else {
            self.show_game_selector = true;
            let mut text = String::from_str("检测到 ");
            text.append(decimal(count).as_str());
            text.append(" 个游戏安装，请选择一个");
            self.say(text, false);
        }
    }

    /// Selects one of the games found; an index past the list changes
    /// nothing.
    pub fn select_detected_game(
        &mut self,
        index: usize,
        dir: &GameDir,
        probe: &InstallProbe,
        stored: Option<Config>,
    )
        ensures
            final(self).detected_games == old(self).detected_games,
            if index < old(self).detected_games@.len() {
                &&& final(self).game_path@ == old(self).detected_games@[index as int].path@
                &&& final(self).shows(*old(self), *dir, *probe, stored)
                &&& final(self).says(
                    "已选择 "@ + old(self).detected_games@[index as int].version.label(),
                    false,
                )
                &&& !final(self).show_game_selector
            } else {
                *final(self) == *old(self)
            },
    {
        if index < self.detected_games.len() {
            let path = self.detected_games[index].path.clone();
            let version = self.detected_games[index].version;
            self.game_path = path;
            self.refresh_status(dir, probe, stored);
            let mut text = String::from_str("已选择 ");
            text.append(version.display_name());
            self.say(text, false);
            self.show_game_selector = false;
        }
    }

    fn report(&mut self, result: Result<(), String>, done: &str, failed: &str)
        ensures
            match result {
                Ok(_) => final(self).says(done@, false),
                Err(e) => final(self).says(failed@ + e@, true),
            },
            final(self).game_path == old(self).game_path,
            final(self).detected_version == old(self).detected_version,
            final(self).config == old(self).config,
            final(self).install_status == old(self).install_status,
            final(self).same_scan(*old(self)),
    {
        match result {
            Ok(_) => {
                self.say(String::from_str(done), false);
            },
            Err(e) => {
                let mut text = String::from_str(failed);
                text.append(e.as_str());
                self.say(text, true);
            },
        }
    }

    /// Takes the result of an install and the reading of the directory made
    /// after it.
    pub fn do_install(
        &mut self,
        result: Result<(), String>,
        dir: &GameDir,
        probe: &InstallProbe,
        stored: Option<Config>,
    )
        ensures
            final(self).game_path == old(self).game_path,
            final(self).same_scan(*old(self)),
            final(self).shows(*old(self), *dir, *probe, stored),
            match result {
                Ok(_) => final(self).says("安装成功！"@, false),
                Err(e) => final(self).says("安装失败: "@ + e@, true),
            },
    {
        self.report(result, "安装成功！", "安装失败: ");
        self.refresh_status(dir, probe, stored);
    }

    /// Takes the result of an uninstall and the reading of the directory
    /// made after it.
    pub fn do_uninstall(
        &mut self,
        result: Result<(), String>,
        dir: &GameDir,
        probe: &InstallProbe,
        stored: Option<Config>,
    )
        ensures
            final(self).game_path == old(self).game_path,
            final(self).same_scan(*old(self)),
            final(self).shows(*old(self), *dir, *probe, stored),
            match result {
                Ok(_) => final(self).says("卸载成功！"@, false),
                Err(e) => final(self).says("卸载失败: "@ + e@, true),
            },
    {
        self.report(result, "卸载成功！", "卸载失败: ");
        self.refresh_status(dir, probe, stored);
    }

    /// Takes the result of saving the configuration.
    pub fn do_save_config(&mut self, result: Result<(), String>)
        ensures
            final(self).game_path == old(self).game_path,
            final(self).detected_version == old(self).detected_version,
            final(self).config == old(self).config,
            final(self).install_status == old(self).install_status,
            final(self).same_scan(*old(self)),
            match result {
                Ok(_) => final(self).says("配置已保存"@, false),
                Err(e) => final(self).says("保存失败: "@ + e@, true),
            },
    {
        self.report(result, "配置已保存", "保存失败: ");
    }

    /// Takes a fresh reading of the selected directory at the user's request.
    pub fn on_refresh(&mut self, dir: &GameDir, probe: &InstallProbe, stored: Option<Config>)
        ensures
            final(self).game_path == old(self).game_path,
            final(self).same_scan(*old(self)),
            final(self).shows(*old(self), *dir, *probe, stored),
            final(self).says("状态已刷新"@, false),
    {
        self.refresh_status(dir, probe, stored);
        self.say(String::from_str("状态已刷新"), false);
    }

    /// Whether a game is selected whose release is known.
    pub fn has_game(&self) -> (known: bool)
        ensures
            known == (self.detected_version != GameVersion::Unknown),
    {
        match self.detected_version {
            GameVersion::Unknown => false,
            _ => true,
        }
    }

    /// Whether installing is offered: a game is selected and the tool is not
    /// installed there.
    pub fn can_install(&self) -> (offered: bool)
        ensures
            offered == (self.detected_version != GameVersion::Unknown && self.install_status
                != InstallStatus::Installed),
    {
        self.has_game() && match self.install_status {
            InstallStatus::Installed => false,
            _ => true,
        }
    }

    /// Whether uninstalling is offered: a game is selected and the tool is
    /// installed there.
    pub fn can_uninstall(&self) -> (offered: bool)
        ensures
            offered == (self.detected_version != GameVersion::Unknown && self.install_status
                == InstallStatus::Installed),
    {
        self.has_game() && match self.install_status {
            InstallStatus::Installed => true,
            _ => false,
        }
    }

    /// The frame rate to show in the field for custom values: the configured
    /// one if it is positive and not a preset.
    pub fn custom_fps(&self) -> (shown: Option<i32>)
        ensures
            shown == if !is_fps_preset(self.config.target_fps) && self.config.target_fps > 0 {
                Some(self.config.target_fps)
            } else {
                None::<i32>
            },
    {
        let fps = self.config.target_fps;
        if fps > 0 && fps != 60 && fps != 120 && fps != 144 {
            Some(fps)
        } else {
            None
        }
    }

    /// Takes a frame rate typed in by the user; only positive values count.
    pub fn set_custom_fps(&mut self, fps: i32)
        ensures
            final(self).config.target_fps == if fps > 0 {
                fps
            } else {
                old(self).config.target_fps
            },
            final(self).config.notifier_host == old(self).config.notifier_host,
            final(self).config.timeout_ms == old(self).config.timeout_ms,
            final(self).config.vsync_count == old(self).config.vsync_count,
            final(self).game_path == old(self).game_path,
            final(self).detected_version == old(self).detected_version,
            final(self).install_status == old(self).install_status,
            final(self).status_message == old(self).status_message,
            final(self).same_scan(*old(self)),
    {
        if fps > 0 {
            self.config.target_fps = fps;
        }
    }
}

} // verus!
