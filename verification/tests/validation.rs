use arkade_manager::job::JobInput;
use arkade_manager::validation::{
    describe_fault, is_known_unit, join, validate_job, JobPaths, PathsFound, ValidationError,
};

fn input() -> JobInput {
    JobInput {
        id: None,
        name: "Island".to_string(),
        root_dir: "/srv/ark".to_string(),
        destination_dir: "/srv/backups".to_string(),
        map: "TheIsland".to_string(),
        include_saves: true,
        include_map: true,
        include_server_files: true,
        include_plugin_configs: true,
        interval_value: 30,
        interval_unit: "minutes".to_string(),
        retention_days: 7,
        enabled: true,
    }
}

fn all_found() -> PathsFound {
    PathsFound {
        root_dir: true,
        destination_dir: true,
        config_dir: true,
        game_ini: true,
        game_user_settings_ini: true,
        saves_dir: true,
        plugins_dir: true,
    }
}

#[test]
fn complete_definition_passes() {
    assert_eq!(validate_job(&input(), &all_found()), Ok(()));
}

#[test]
fn each_missing_path_is_named() {
    let job = input();
    let cases = [
        (PathsFound { root_dir: false, ..all_found() }, ValidationError::RootDirMissing),
        (PathsFound { destination_dir: false, ..all_found() }, ValidationError::DestinationDirMissing),
        (PathsFound { config_dir: false, ..all_found() }, ValidationError::ConfigDirMissing),
        (PathsFound { game_ini: false, ..all_found() }, ValidationError::GameIniMissing),
        (
            PathsFound { game_user_settings_ini: false, ..all_found() },
            ValidationError::GameUserSettingsIniMissing,
        ),
        (PathsFound { saves_dir: false, ..all_found() }, ValidationError::SavesDirMissing),
        (PathsFound { plugins_dir: false, ..all_found() }, ValidationError::PluginsDirMissing),
    ];
    for (found, expected) in cases {
        assert_eq!(validate_job(&job, &found), Err(expected));
    }
}

#[test]
fn faults_of_the_definition_itself_are_named() {
    let mut job = input();
    job.map = "Atlantis".to_string();
    assert_eq!(validate_job(&job, &all_found()), Err(ValidationError::UnknownMap));
    let mut job = input();
    job.interval_value = 0;
    assert_eq!(validate_job(&job, &all_found()), Err(ValidationError::ZeroInterval));
    let mut job = input();
    job.interval_unit = "weeks".to_string();
    assert_eq!(validate_job(&job, &all_found()), Err(ValidationError::UnknownIntervalUnit));
    let mut job = input();
    job.retention_days = 0;
    assert_eq!(validate_job(&job, &all_found()), Err(ValidationError::ZeroRetention));
}

#[test]
fn first_fault_wins() {
    let nothing = PathsFound {
        root_dir: false,
        destination_dir: false,
        config_dir: false,
        game_ini: false,
        game_user_settings_ini: false,
        saves_dir: false,
        plugins_dir: false,
    };
    let mut job = input();
    job.map = "Atlantis".to_string();
    job.interval_value = 0;
    job.interval_unit = "weeks".to_string();
    job.retention_days = 0;
    assert_eq!(validate_job(&job, &nothing), Err(ValidationError::RootDirMissing));
    let found = PathsFound { root_dir: true, ..nothing };
    assert_eq!(validate_job(&job, &found), Err(ValidationError::DestinationDirMissing));
    let found = PathsFound { destination_dir: true, ..found };
    assert_eq!(validate_job(&job, &found), Err(ValidationError::UnknownMap));
    job.map = "TheIsland".to_string();
    assert_eq!(validate_job(&job, &found), Err(ValidationError::ConfigDirMissing));
    let found = PathsFound { config_dir: true, ..found };
    assert_eq!(validate_job(&job, &found), Err(ValidationError::GameIniMissing));
    let found = PathsFound { game_ini: true, ..found };
    assert_eq!(validate_job(&job, &found), Err(ValidationError::GameUserSettingsIniMissing));
    let found = PathsFound { game_user_settings_ini: true, ..found };
    assert_eq!(validate_job(&job, &found), Err(ValidationError::SavesDirMissing));
    let found = PathsFound { saves_dir: true, ..found };
    assert_eq!(validate_job(&job, &found), Err(ValidationError::PluginsDirMissing));
    let found = PathsFound { plugins_dir: true, ..found };
    assert_eq!(validate_job(&job, &found), Err(ValidationError::ZeroInterval));
    job.interval_value = 1;
    assert_eq!(validate_job(&job, &found), Err(ValidationError::UnknownIntervalUnit));
    job.interval_unit = "days".to_string();
    assert_eq!(validate_job(&job, &found), Err(ValidationError::ZeroRetention));
    job.retention_days = 1;
    assert_eq!(validate_job(&job, &found), Ok(()));
}

#[test]
fn paths_matter_only_where_their_flag_is_set() {
    let mut job = input();
    job.include_server_files = false;
    job.include_plugin_configs = false;
    let found = PathsFound {
        config_dir: false,
        game_ini: false,
        game_user_settings_ini: false,
        plugins_dir: false,
        ..all_found()
    };
    assert_eq!(validate_job(&job, &found), Ok(()));
    job.include_saves = false;
    job.include_map = false;
    let found = PathsFound { saves_dir: false, ..found };
    assert_eq!(validate_job(&job, &found), Ok(()));
    job.include_map = true;
    assert_eq!(validate_job(&job, &found), Err(ValidationError::SavesDirMissing));
}

#[test]
fn faults_are_told_in_words() {
    let job = input();
    let text = |e| describe_fault(e, &job);
    assert_eq!(text(ValidationError::RootDirMissing), "Server root directory does not exist: /srv/ark");
    assert_eq!(
        text(ValidationError::DestinationDirMissing),
        "Destination directory does not exist: /srv/backups"
    );
    assert_eq!(text(ValidationError::UnknownMap), "Invalid map: TheIsland");
    assert_eq!(
        text(ValidationError::ConfigDirMissing),
        "Server config directory does not exist: /srv/ark/ShooterGame/Saved/Config/WindowsServer"
    );
    assert_eq!(
        text(ValidationError::GameIniMissing),
        "Game.ini not found in: /srv/ark/ShooterGame/Saved/Config/WindowsServer"
    );
    assert_eq!(
        text(ValidationError::GameUserSettingsIniMissing),
        "GameUserSettings.ini not found in: /srv/ark/ShooterGame/Saved/Config/WindowsServer"
    );
    assert_eq!(
        text(ValidationError::SavesDirMissing),
        "Saves directory does not exist: /srv/ark/ShooterGame/Saved/SavedArks/TheIsland_WP"
    );
    assert_eq!(
        text(ValidationError::PluginsDirMissing),
        "Plugins directory does not exist: /srv/ark/ShooterGame/Binaries/Win64/ArkApi/Plugins"
    );
    assert_eq!(text(ValidationError::ZeroInterval), "Interval value must be greater than 0");
    assert_eq!(text(ValidationError::UnknownIntervalUnit), "Invalid interval unit: minutes");
    assert_eq!(text(ValidationError::ZeroRetention), "Retention days must be greater than 0");
}

#[test]
fn job_paths_are_derived_from_the_definition() {
    let paths = JobPaths::derive(&input());
    assert_eq!(paths.root_dir, "/srv/ark");
    assert_eq!(paths.destination_dir, "/srv/backups");
    assert_eq!(paths.config_dir, "/srv/ark/ShooterGame/Saved/Config/WindowsServer");
    assert_eq!(paths.game_ini, "/srv/ark/ShooterGame/Saved/Config/WindowsServer/Game.ini");
    assert_eq!(
        paths.game_user_settings_ini,
        "/srv/ark/ShooterGame/Saved/Config/WindowsServer/GameUserSettings.ini"
    );
    assert_eq!(
        paths.saves_dir.as_deref(),
        Some("/srv/ark/ShooterGame/Saved/SavedArks/TheIsland_WP")
    );
    assert_eq!(paths.plugins_dir, "/srv/ark/ShooterGame/Binaries/Win64/ArkApi/Plugins");
    let mut unknown = input();
    unknown.map = "Atlantis".to_string();
    assert_eq!(JobPaths::derive(&unknown).saves_dir, None);
}

#[test]
fn join_puts_one_separator_between() {
    assert_eq!(join("a", "b"), "a/b");
    assert_eq!(join("a/", "b"), "a/b");
    assert_eq!(join("a\\", "b"), "a\\b");
    assert_eq!(join("", "b"), "b");
    assert_eq!(join("a", ""), "a/");
    assert_eq!(join("päth", "ü"), "päth/ü");
}

#[test]
fn three_units_are_known() {
    assert!(is_known_unit("minutes"));
    assert!(is_known_unit("hours"));
    assert!(is_known_unit("days"));
    assert!(!is_known_unit("Days"));
    assert!(!is_known_unit("day"));
    assert!(!is_known_unit(""));
}
