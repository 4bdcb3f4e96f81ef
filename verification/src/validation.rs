//! The paths of a server, and the check of a job definition.

use crate::job::JobInput;
use crate::map::GameMap;
use crate::text::{appended, ends_in, same_text};
use vstd::prelude::*;
use vstd::string::StrSliceExecFns;

verus! {

/// Whether a character parts the segments of a path.
pub open spec fn is_separator(c: char) -> bool {
    c == '/' || c == '\\'
}

/// The path `base` with `segment` below it. A `/` parts the two unless `base` is empty or
/// already ends in a separator.
pub open spec fn joined(base: Seq<char>, segment: Seq<char>) -> Seq<char> {
    if base.len() == 0 || is_separator(base.last()) {
        base + segment
    } else {
        base + seq!['/'] + segment
    }
}

/// Where a server keeps its configuration, below its root directory.
pub open spec fn config_dir_of(root: Seq<char>) -> Seq<char> {
    joined(joined(joined(joined(root, "ShooterGame"@), "Saved"@), "Config"@), "WindowsServer"@)
}

/// Where a server keeps the saves of one map, below its root directory.
pub open spec fn saves_dir_of(root: Seq<char>, map_folder: Seq<char>) -> Seq<char> {
    joined(joined(joined(joined(root, "ShooterGame"@), "Saved"@), "SavedArks"@), map_folder)
}

/// Where a server keeps its plugins, below its root directory.
pub open spec fn plugins_dir_of(root: Seq<char>) -> Seq<char> {
    joined(
        joined(joined(joined(joined(root, "ShooterGame"@), "Binaries"@), "Win64"@), "ArkApi"@),
        "Plugins"@,
    )
}

/// A joined path ends in its last segment and begins with its base.
pub proof fn lemma_joined_keeps_both(base: Seq<char>, segment: Seq<char>)
    ensures
        ends_in(joined(base, segment), segment),
        joined(base, segment).subrange(0, base.len() as int) == base,
        joined(base, segment).len() >= base.len() + segment.len(),
{
    let j = joined(base, segment);
    assert(j.subrange(j.len() - segment.len(), j.len() as int) =~= segment);
    assert(j.subrange(0, base.len() as int) =~= base);
}

/// Joins a segment to a path.
pub fn join(base: &str, segment: &str) -> (r: String)
    ensures
        r@ == joined(base@, segment@),
{
    let n = base.unicode_len();
    if n == 0 {
        return segment.to_owned();
    }
    let last = base.get_char(n - 1);
    if last == '/' || last == '\\' {
        appended(base, segment)
    } else {
        proof {
            reveal_strlit("/");
        }
        let with_separator = appended(base, "/");
        appended(with_separator.as_str(), segment)
    }
}

/// Where a server keeps its configuration: `ShooterGame/Saved/Config/WindowsServer` below
/// its root directory.
pub fn derive_config_dir(root_dir: &str) -> (r: String)
    ensures
        r@ == config_dir_of(root_dir@),
        ends_in(r@, "WindowsServer"@),
{
    let a = join(root_dir, "ShooterGame");
    let b = join(a.as_str(), "Saved");
    let c = join(b.as_str(), "Config");
    proof {
        lemma_joined_keeps_both(c@, "WindowsServer"@);
    }
    join(c.as_str(), "WindowsServer")
}

/// Where a server keeps the saves of one map: `ShooterGame/Saved/SavedArks` below its root
/// directory, and there the map's folder.
pub fn derive_saves_dir(root_dir: &str, map_folder: &str) -> (r: String)
    ensures
        r@ == saves_dir_of(root_dir@, map_folder@),
        ends_in(r@, map_folder@),
{
    let a = join(root_dir, "ShooterGame");
    let b = join(a.as_str(), "Saved");
    let c = join(b.as_str(), "SavedArks");
    proof {
        lemma_joined_keeps_both(c@, map_folder@);
    }
    join(c.as_str(), map_folder)
}

/// Where a server keeps its plugins: `ShooterGame/Binaries/Win64/ArkApi/Plugins` below its
/// root directory.
pub fn derive_plugins_dir(root_dir: &str) -> (r: String)
    ensures
        r@ == plugins_dir_of(root_dir@),
        ends_in(r@, "Plugins"@),
{
    let a = join(root_dir, "ShooterGame");
    let b = join(a.as_str(), "Binaries");
    let c = join(b.as_str(), "Win64");
    let d = join(c.as_str(), "ArkApi");
    proof {
        lemma_joined_keeps_both(d@, "Plugins"@);
    }
    join(d.as_str(), "Plugins")
}

/// Below a root that has a name and does not end in a separator, the three directories are
/// the root followed by a fixed tail.
pub proof fn lemma_derived_dirs_in_full(root: Seq<char>, map_folder: Seq<char>)
    requires
        root.len() > 0,
        !is_separator(root.last()),
    ensures
        config_dir_of(root) == root + "/ShooterGame/Saved/Config/WindowsServer"@,
        saves_dir_of(root, map_folder) == root + "/ShooterGame/Saved/SavedArks/"@ + map_folder,
        plugins_dir_of(root) == root + "/ShooterGame/Binaries/Win64/ArkApi/Plugins"@,
{
    reveal_strlit("ShooterGame");
    reveal_strlit("Saved");
    reveal_strlit("Config");
    reveal_strlit("WindowsServer");
    reveal_strlit("SavedArks");
    reveal_strlit("Binaries");
    reveal_strlit("Win64");
    reveal_strlit("ArkApi");
    reveal_strlit("Plugins");
    reveal_strlit("/ShooterGame/Saved/Config/WindowsServer");
    reveal_strlit("/ShooterGame/Saved/SavedArks/");
    reveal_strlit("/ShooterGame/Binaries/Win64/ArkApi/Plugins");
    let a = joined(root, "ShooterGame"@);
    assert(a =~= root + seq!['/'] + "ShooterGame"@);
    let b = joined(a, "Saved"@);
    assert(b =~= a + seq!['/'] + "Saved"@);
    let c = joined(b, "Config"@);
    assert(c =~= b + seq!['/'] + "Config"@);
    let d = joined(c, "WindowsServer"@);
    assert(d =~= c + seq!['/'] + "WindowsServer"@);
    assert(d =~= root + "/ShooterGame/Saved/Config/WindowsServer"@);
    let e = joined(b, "SavedArks"@);
    assert(e =~= b + seq!['/'] + "SavedArks"@);
    let f = joined(e, map_folder);
    assert(f =~= e + seq!['/'] + map_folder);
    assert(f =~= root + "/ShooterGame/Saved/SavedArks/"@ + map_folder);
    let g = joined(a, "Binaries"@);
    assert(g =~= a + seq!['/'] + "Binaries"@);
    let h = joined(g, "Win64"@);
    assert(h =~= g + seq!['/'] + "Win64"@);
    let i = joined(h, "ArkApi"@);
    assert(i =~= h + seq!['/'] + "ArkApi"@);
    let k = joined(i, "Plugins"@);
    assert(k =~= i + seq!['/'] + "Plugins"@);
    assert(k =~= root + "/ShooterGame/Binaries/Win64/ArkApi/Plugins"@);
}

/// The paths that a job definition speaks of. Validation asks which of them exist.
#[derive(Debug)]
pub struct JobPaths {
    pub root_dir: String,
    pub destination_dir: String,
    pub config_dir: String,
    pub game_ini: String,
    pub game_user_settings_ini: String,
    /// Where the saves of the job's map lie; `None` where the map is unknown.
    pub saves_dir: Option<String>,
    pub plugins_dir: String,
}

/// Which of a job's paths were found on disk.
#[derive(Clone, Copy, Debug, PartialEq, Eq, Structural)]
pub struct PathsFound {
    pub root_dir: bool,
    pub destination_dir: bool,
    pub config_dir: bool,
    pub game_ini: bool,
    pub game_user_settings_ini: bool,
    pub saves_dir: bool,
    pub plugins_dir: bool,
}

/// Why a job definition is not accepted.
#[derive(Clone, Copy, Debug, PartialEq, Eq, Structural)]
pub enum ValidationError {
    RootDirMissing,
    DestinationDirMissing,
    UnknownMap,
    ConfigDirMissing,
    GameIniMissing,
    GameUserSettingsIniMissing,
    SavesDirMissing,
    PluginsDirMissing,
    ZeroInterval,
    UnknownIntervalUnit,
    ZeroRetention,
}

/// Whether a unit of recurrence is one of the three that are recognised.
pub open spec fn is_interval_unit(unit: Seq<char>) -> bool {
    unit == "minutes"@ || unit == "hours"@ || unit == "days"@
}

/// Whether a job definition is accepted, given which of its paths exist.
pub open spec fn acceptable(job: JobInput, found: PathsFound) -> bool {
    &&& found.root_dir
    &&& found.destination_dir
    &&& GameMap::spec_from_str(job.map@) is Some
    &&& job.include_server_files ==> found.config_dir && found.game_ini
        && found.game_user_settings_ini
    &&& job.include_saves || job.include_map ==> found.saves_dir
    &&& job.include_plugin_configs ==> found.plugins_dir
    &&& job.interval_value != 0
    &&& is_interval_unit(job.interval_unit@)
    &&& job.retention_days != 0
}

/// The first fault of a job definition in the order in which they are looked for: the two
/// directories, the map, what each inclusion flag needs, then interval, unit and retention.
pub open spec fn first_fault(job: JobInput, found: PathsFound) -> Option<ValidationError> {
    if !found.root_dir {
        Some(ValidationError::RootDirMissing)
    } else if !found.destination_dir {
        Some(ValidationError::DestinationDirMissing)
    } else if GameMap::spec_from_str(job.map@) is None {
        Some(ValidationError::UnknownMap)
    } else if job.include_server_files && !found.config_dir {
        Some(ValidationError::ConfigDirMissing)
    } else if job.include_server_files && !found.game_ini {
        Some(ValidationError::GameIniMissing)
    } else if job.include_server_files && !found.game_user_settings_ini {
        Some(ValidationError::GameUserSettingsIniMissing)
    } else if (job.include_saves || job.include_map) && !found.saves_dir {
        Some(ValidationError::SavesDirMissing)
    } else if job.include_plugin_configs && !found.plugins_dir {
        Some(ValidationError::PluginsDirMissing)
    } else if job.interval_value == 0 {
        Some(ValidationError::ZeroInterval)
    } else if !is_interval_unit(job.interval_unit@) {
        Some(ValidationError::UnknownIntervalUnit)
    } else if job.retention_days == 0 {
        Some(ValidationError::ZeroRetention)
    } else {
        None
    }
}

/// The text that tells a person of a fault.
pub open spec fn fault_text(error: ValidationError, job: JobInput) -> Seq<char> {
    let root = job.root_dir@;
    match error {
        ValidationError::RootDirMissing => "Server root directory does not exist: "@ + root,
        ValidationError::DestinationDirMissing => "Destination directory does not exist: "@
            + job.destination_dir@,
        ValidationError::UnknownMap => "Invalid map: "@ + job.map@,
        ValidationError::ConfigDirMissing => "Server config directory does not exist: "@
            + config_dir_of(root),
        ValidationError::GameIniMissing => "Game.ini not found in: "@ + config_dir_of(root),
        ValidationError::GameUserSettingsIniMissing => "GameUserSettings.ini not found in: "@
            + config_dir_of(root),
        ValidationError::SavesDirMissing => "Saves directory does not exist: "@ + (
        match GameMap::spec_from_str(job.map@) {
            Some(map) => saves_dir_of(root, map.spec_folder_name()),
            None => Seq::empty(),
        }),
        ValidationError::PluginsDirMissing => "Plugins directory does not exist: "@
            + plugins_dir_of(root),
        ValidationError::ZeroInterval => "Interval value must be greater than 0"@,
        ValidationError::UnknownIntervalUnit => "Invalid interval unit: "@ + job.interval_unit@,
        ValidationError::ZeroRetention => "Retention days must be greater than 0"@,
    }
}

/// A job definition is accepted exactly when it has no fault.
pub proof fn lemma_acceptable_means_no_fault(job: JobInput, found: PathsFound)
    ensures
        acceptable(job, found) <==> first_fault(job, found) is None,
{
}

impl JobPaths {
    /// The paths of a job definition: its two directories, and below the root the
    /// configuration directory with its two files, the plugins, and the saves of the map.
    pub fn derive(job: &JobInput) -> (r: JobPaths)
        ensures
            r.root_dir@ == job.root_dir@,
            r.destination_dir@ == job.destination_dir@,
            r.config_dir@ == config_dir_of(job.root_dir@),
            r.game_ini@ == joined(config_dir_of(job.root_dir@), "Game.ini"@),
            r.game_user_settings_ini@ == joined(
                config_dir_of(job.root_dir@),
                "GameUserSettings.ini"@,
            ),
            r.plugins_dir@ == plugins_dir_of(job.root_dir@),
            match GameMap::spec_from_str(job.map@) {
                Some(map) => r.saves_dir matches Some(dir) && dir@ == saves_dir_of(
                    job.root_dir@,
                    map.spec_folder_name(),
                ),
                None => r.saves_dir is None,
            },
    {
        let root = job.root_dir.as_str();
        let config_dir = derive_config_dir(root);
        let game_ini = join(config_dir.as_str(), "Game.ini");
        let game_user_settings_ini = join(config_dir.as_str(), "GameUserSettings.ini");
        let saves_dir = match GameMap::from_str(job.map.as_str()) {
            Some(map) => Some(derive_saves_dir(root, map.folder_name())),
            None => None,
        };
        JobPaths {
            root_dir: job.root_dir.clone(),
            destination_dir: job.destination_dir.clone(),
            config_dir,
            game_ini,
            game_user_settings_ini,
            saves_dir,
            plugins_dir: derive_plugins_dir(root),
        }
    }
}

/// Whether a unit of recurrence is one of the three that are recognised.
pub fn is_known_unit(unit: &str) -> (r: bool)
    ensures
        r == is_interval_unit(unit@),
{
    same_text(unit, "minutes") || same_text(unit, "hours") || same_text(unit, "days")
}

/// Checks a job definition before it is taken into the store. `found` says which of the
/// definition's paths exist. The definition passes exactly when it is acceptable; otherwise
/// the error is its first fault.
pub fn validate_job(job: &JobInput, found: &PathsFound) -> (r: Result<(), ValidationError>)
    ensures
        r is Ok <==> acceptable(*job, *found),
        r matches Err(e) ==> first_fault(*job, *found) == Some(e),
{
    if !found.root_dir {
        return Err(ValidationError::RootDirMissing);
    }
    if !found.destination_dir {
        return Err(ValidationError::DestinationDirMissing);
    }
    if GameMap::from_str(job.map.as_str()).is_none() {
        return Err(ValidationError::UnknownMap);
    }
    if job.include_server_files {
        if !found.config_dir {
            return Err(ValidationError::ConfigDirMissing);
        }
        if !found.game_ini {
            return Err(ValidationError::GameIniMissing);
        }
        if !found.game_user_settings_ini {
            return Err(ValidationError::GameUserSettingsIniMissing);
        }
    }
    if job.include_saves || job.include_map {
        if !found.saves_dir {
            return Err(ValidationError::SavesDirMissing);
        }
    }
    if job.include_plugin_configs {
        if !found.plugins_dir {
            return Err(ValidationError::PluginsDirMissing);
        }
    }
    if job.interval_value == 0 {
        return Err(ValidationError::ZeroInterval);
    }
    if !is_known_unit(job.interval_unit.as_str()) {
        return Err(ValidationError::UnknownIntervalUnit);
    }
    if job.retention_days == 0 {
        return Err(ValidationError::ZeroRetention);
    }
    Ok(())
}

/// Writes out a fault for a person to read.
pub fn describe_fault(error: ValidationError, job: &JobInput) -> (r: String)
    ensures
        r@ == fault_text(error, *job),
{
    let root = job.root_dir.as_str();
    match error {
        ValidationError::RootDirMissing => appended("Server root directory does not exist: ", root),
        ValidationError::DestinationDirMissing => appended(
            "Destination directory does not exist: ",
            job.destination_dir.as_str(),
        ),
        ValidationError::UnknownMap => appended("Invalid map: ", job.map.as_str()),
        ValidationError::ConfigDirMissing => appended(
            "Server config directory does not exist: ",
            derive_config_dir(root).as_str(),
        ),
        ValidationError::GameIniMissing => appended(
            "Game.ini not found in: ",
            derive_config_dir(root).as_str(),
        ),
        ValidationError::GameUserSettingsIniMissing => appended(
            "GameUserSettings.ini not found in: ",
            derive_config_dir(root).as_str(),
        ),
        ValidationError::SavesDirMissing => {
            let dir = match GameMap::from_str(job.map.as_str()) {
                Some(map) => derive_saves_dir(root, map.folder_name()),
                None => String::new(),
            };
            appended("Saves directory does not exist: ", dir.as_str())
        },
        ValidationError::PluginsDirMissing => appended(
            "Plugins directory does not exist: ",
            derive_plugins_dir(root).as_str(),
        ),
        ValidationError::ZeroInterval => "Interval value must be greater than 0".to_owned(),
        ValidationError::UnknownIntervalUnit => appended(
            "Invalid interval unit: ",
            job.interval_unit.as_str(),
        ),
        ValidationError::ZeroRetention => "Retention days must be greater than 0".to_owned(),
    }
}

} // verus!
