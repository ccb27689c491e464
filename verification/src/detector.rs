//! Game version detection from what a game directory holds.

use crate::text::contains_ignore_ascii_case;
use crate::text::contains_ignoring_case;
use crate::text::ends_ignoring_case;
use crate::text::ends_with_ignore_ascii_case;
use crate::text::eq_ignore_ascii_case;
use crate::text::eq_ignoring_case;
use crate::text::lowercase_of;
use crate::text::same_chars;
use crate::text::to_chars;
use crate::text::to_lowercase;
use vstd::prelude::*;
use vstd::string::StringExecFns;

verus! {

/// The release of the game.
#[derive(Debug, Clone, Copy, PartialEq, Eq, Structural)]
pub enum GameVersion {
    Steam,
    DMM,
    Unknown,
}

impl GameVersion {
    /// The name shown for the release.
    pub open spec fn label(self) -> Seq<char> {
        match self {
            GameVersion::Steam => "Steam 版"@,
            GameVersion::DMM => "DMM 版"@,
            GameVersion::Unknown => "未知版本"@,
        }
    }

    pub fn display_name(&self) -> (name: &'static str)
        ensures
            name@ == self.label(),
    {
        match self {
            GameVersion::Steam => "Steam 版",
            GameVersion::DMM => "DMM 版",
            GameVersion::Unknown => "未知版本",
        }
    }

    /// Name of the library that is stood in for.
    pub fn proxy_dll_name(&self) -> (name: &'static str)
        ensures
            name@ == match *self {
                GameVersion::Steam => "winhttp.dll"@,
                GameVersion::DMM => "UnityPlayer.dll"@,
                GameVersion::Unknown => ""@,
            },
    {
        match self {
            GameVersion::Steam => "winhttp.dll",
            GameVersion::DMM => "UnityPlayer.dll",
            GameVersion::Unknown => "",
        }
    }

    /// Name under which the library that is stood in for is kept.
    pub fn backup_dll_name(&self) -> (name: &'static str)
        ensures
            name@ == match *self {
                GameVersion::Steam => "winhttp_orig.dll"@,
                GameVersion::DMM => "UnityPlayer_orig.dll"@,
                GameVersion::Unknown => ""@,
            },
    {
        match self {
            GameVersion::Steam => "winhttp_orig.dll",
            GameVersion::DMM => "UnityPlayer_orig.dll",
            GameVersion::Unknown => "",
        }
    }
}

/// A game installation that was found.
pub struct DetectedGame {
    pub path: String,
    pub version: GameVersion,
}

impl DetectedGame {
    /// The line shown for this installation: the version in brackets, then
    /// the path.
    pub fn display_string(&self) -> (line: String)
        ensures
            line@ == "["@ + self.version.label() + "] "@ + self.path@,
    {
        let mut line = String::from_str("[");
        line.append(self.version.display_name());
        line.append("] ");
        line.append(self.path.as_str());
        line
    }
}

/// What was read of a directory that may hold the game.
pub struct GameDir {
    pub path: String,
    /// Whether the path exists and is a directory.
    pub is_dir: bool,
    /// Names of the directory's entries, in the order they were read.
    pub entries: Vec<String>,
}

/// A file name that belongs to the game's executable.
pub open spec fn is_game_executable(name: Seq<char>) -> bool {
    contains_ignoring_case(name, "umamusume"@) && ends_ignoring_case(name, ".exe"@)
}

/// The directory has an entry of that name, letters compared without case.
pub open spec fn has_entry(entries: Seq<String>, name: Seq<char>) -> bool {
    exists|i: int| 0 <= i < entries.len() && eq_ignoring_case((#[trigger] entries[i])@, name)
}

/// The directory holds the game.
pub open spec fn valid_game_dir(dir: GameDir) -> bool {
    dir.is_dir && exists|i: int|
        0 <= i < dir.entries@.len() && is_game_executable((#[trigger] dir.entries@[i])@)
}

/// The path lies in a Steam library.
pub open spec fn in_steam_library(path: Seq<char>) -> bool {
    contains_ignoring_case(path, "steamapps"@) || contains_ignoring_case(path, "steamlibrary"@)
}

/// The version a directory's content stands for.
pub open spec fn version_of(dir: GameDir) -> GameVersion {
    if !valid_game_dir(dir) {
        GameVersion::Unknown
    } else if has_entry(dir.entries@, "steam_api64.dll"@) || in_steam_library(dir.path@)
        || has_entry(dir.entries@, "UmamusumePrettyDerby_Jpn.exe"@) {
        GameVersion::Steam
    } else {
        GameVersion::DMM
    }
}

/// Whether a file name belongs to the game's executable.
pub fn is_game_exe_name(name: &str) -> (found: bool)
    ensures
        found == is_game_executable(name@),
{
    let chars = to_chars(name);
    let stem = to_chars("umamusume");
    let suffix = to_chars(".exe");
    contains_ignore_ascii_case(chars.as_slice(), stem.as_slice()) && ends_with_ignore_ascii_case(
        chars.as_slice(),
        suffix.as_slice(),
    )
}

fn entry_exists(entries: &Vec<String>, name: &str) -> (found: bool)
    ensures
        found == has_entry(entries@, name@),
{
    let wanted = to_chars(name);
    let mut i: usize = 0;
    while i < entries.len()
        invariant
            i <= entries@.len(),
            wanted@ == name@,
            forall|k: int| 0 <= k < i ==> !eq_ignoring_case((#[trigger] entries@[k])@, name@),
        decreases entries@.len() - i,
    {
        let entry = to_chars(entries[i].as_str());
        if eq_ignore_ascii_case(entry.as_slice(), wanted.as_slice()) {
            return true;
        }
        i = i + 1;
    }
    false
}

/// Whether the directory holds the game.
pub fn is_valid_game_dir(dir: &GameDir) -> (valid: bool)
    ensures
        valid == valid_game_dir(*dir),
{
    if !dir.is_dir {
        return false;
    }
    let mut i: usize = 0;
    while i < dir.entries.len()
        invariant
            i <= dir.entries@.len(),
            dir.is_dir,
            forall|k: int| 0 <= k < i ==> !is_game_executable((#[trigger] dir.entries@[k])@),
        decreases dir.entries@.len() - i,
    {
        if is_game_exe_name(dir.entries[i].as_str()) {
            assert(is_game_executable(dir.entries@[i as int]@));
            return true;
        }
        i = i + 1;
    }
    false
}

/// Tells the release from the directory's content and path.
pub fn detect_game_version(game_dir: &GameDir) -> (version: GameVersion)
    ensures
        version == version_of(*game_dir),
{
    if !is_valid_game_dir(game_dir) {
        return GameVersion::Unknown;
    }
    if entry_exists(&game_dir.entries, "steam_api64.dll") {
        return GameVersion::Steam;
    }
    let path = to_chars(game_dir.path.as_str());
    let steamapps = to_chars("steamapps");
    let steamlibrary = to_chars("steamlibrary");
    if contains_ignore_ascii_case(path.as_slice(), steamapps.as_slice())
        || contains_ignore_ascii_case(path.as_slice(), steamlibrary.as_slice()) {
        return GameVersion::Steam;
    }
    if entry_exists(&game_dir.entries, "UmamusumePrettyDerby_Jpn.exe") {
        return GameVersion::Steam;
    }
    GameVersion::DMM
}

/// The form in which two paths are compared: lower case, with backslashes
/// for slashes.
pub open spec fn normal_form(path: Seq<char>) -> Seq<char> {
    lowercase_of(path).map_values(
        |c: char|
            if c == '/' {
                '\\'
            } else {
                c
            },
    )
}

/// Some game of the list lies at `path`.
pub open spec fn lists_path(games: Seq<DetectedGame>, path: Seq<char>) -> bool {
    exists|i: int|
        0 <= i < games.len() && normal_form((#[trigger] games[i]).path@) == normal_form(path)
}

/// The list after `game` has been offered: it is appended unless its path
/// is already listed.
pub open spec fn with_game(games: Seq<DetectedGame>, game: DetectedGame) -> Seq<DetectedGame> {
    if lists_path(games, game.path@) {
        games
    } else {
        games.push(game)
    }
}

/// The list after all of `found` have been offered in turn.
pub open spec fn with_games(games: Seq<DetectedGame>, found: Seq<DetectedGame>) -> Seq<
    DetectedGame,
>
    decreases found.len(),
{
    if found.len() == 0 {
        games
    } else {
        with_game(with_games(games, found.drop_last()), found.last())
    }
}

/// No two games of the list lie at the same place.
pub open spec fn places_differ(games: Seq<DetectedGame>) -> bool {
    forall|i: int, j: int|
        0 <= i < j < games.len() ==> normal_form((#[trigger] games[i]).path@) != normal_form(
            (#[trigger] games[j]).path@,
        )
}

/// Offering games never lists a place twice.
pub proof fn lemma_offers_keep_places_apart(games: Seq<DetectedGame>, found: Seq<DetectedGame>)
    requires
        places_differ(games),
    ensures
        places_differ(with_games(games, found)),
    decreases found.len(),
{
    if found.len() > 0 {
        lemma_offers_keep_places_apart(games, found.drop_last());
    }
}

/// The games that the common directories hold, in order.
pub open spec fn games_in(dirs: Seq<GameDir>) -> Seq<DetectedGame>
    decreases dirs.len(),
{
    if dirs.len() == 0 {
        Seq::empty()
    } else if valid_game_dir(dirs.last()) {
        games_in(dirs.drop_last()).push(
            DetectedGame { path: dirs.last().path, version: version_of(dirs.last()) },
        )
    } else {
        games_in(dirs.drop_last())
    }
}

fn normalize(path: &str) -> (normal: Vec<char>)
    ensures
        normal@ == normal_form(path@),
{
    let lower = to_lowercase(path);
    let chars = to_chars(lower.as_str());
    let mut normal: Vec<char> = Vec::new();
    let mut i: usize = 0;
    while i < chars.len()
        invariant
            i <= chars@.len(),
            chars@ == lowercase_of(path@),
            normal@ == normal_form(path@).subrange(0, i as int),
        decreases chars@.len() - i,
    {
        let c = chars[i];
        normal.push(
            if c == '/' {
                '\\'
            } else {
                c
            },
        );
        i = i + 1;
        assert(normal@ =~= normal_form(path@).subrange(0, i as int));
    }
    assert(normal_form(path@).subrange(0, i as int) =~= normal_form(path@));
    normal
}

/// Appends `game` to the list unless a game at the same place is listed.
pub fn add_game_if_new(games: &mut Vec<DetectedGame>, game: DetectedGame)
    ensures
        final(games)@ == with_game(old(games)@, game),
{
    let wanted = normalize(game.path.as_str());
    let mut i: usize = 0;
    while i < games.len()
        invariant
            i <= games@.len(),
            games@ == old(games)@,
            wanted@ == normal_form(game.path@),
            forall|k: int|
                0 <= k < i ==> normal_form((#[trigger] games@[k]).path@) != normal_form(game.path@),
        decreases games@.len() - i,
    {
        let listed = normalize(games[i].path.as_str());
        if same_chars(listed.as_slice(), wanted.as_slice()) {
            return ;
        }
        i = i + 1;
    }
    games.push(game);
}

/// Merges what the scans found into one list without repeated places: first
/// the Steam installations, then the others, then the games found in the
/// common directories.
pub fn scan_installed_games(
    steam: Vec<DetectedGame>,
    others: Vec<DetectedGame>,
    common: Vec<GameDir>,
) -> (games: Vec<DetectedGame>)
    ensures
        games@ == with_games(
            with_games(with_games(Seq::empty(), steam@), others@),
            games_in(common@),
        ),
        places_differ(games@),
{
    proof {
        let first = with_games(Seq::empty(), steam@);
        let second = with_games(first, others@);
        lemma_offers_keep_places_apart(Seq::empty(), steam@);
        lemma_offers_keep_places_apart(first, others@);
        lemma_offers_keep_places_apart(second, games_in(common@));
    }
    let mut games: Vec<DetectedGame> = Vec::new();
    offer_all(&mut games, steam);
    offer_all(&mut games, others);
    let mut found: Vec<DetectedGame> = Vec::new();
    let mut i: usize = 0;
    while i < common.len()
        invariant
            i <= common@.len(),
            found@ == games_in(common@.subrange(0, i as int)),
        decreases common@.len() - i,
    {
        proof {
            assert(common@.subrange(0, i + 1).drop_last() =~= common@.subrange(0, i as int));
            assert(common@.subrange(0, i + 1).last() == common@[i as int]);
        }
        if is_valid_game_dir(&common[i]) {
            let version = detect_game_version(&common[i]);
            found.push(DetectedGame { path: common[i].path.clone(), version });
        }
        i = i + 1;
    }
    assert(common@.subrange(0, i as int) =~= common@);
    offer_all(&mut games, found);
    games
}

fn offer_all(games: &mut Vec<DetectedGame>, found: Vec<DetectedGame>)
    ensures
        final(games)@ == with_games(old(games)@, found@),
{
    let mut rest = found;
    let ghost mut offered: Seq<DetectedGame> = Seq::empty();
    while rest.len() > 0
        invariant
            found@ == offered + rest@,
            games@ == with_games(old(games)@, offered),
        decreases rest@.len(),
    {
        let ghost before = rest@;
        let game = rest.remove(0);
        proof {
            assert(offered.push(game).drop_last() =~= offered);
            assert(offered.push(game) + rest@ =~= offered + before);
        }
        add_game_if_new(games, game);
        proof {
            offered = offered.push(game);
        }
    }
    assert(offered + rest@ =~= offered);
}

} // verus!
