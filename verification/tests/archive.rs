use arkade_manager::archive::{
    plan_backup, plan_ini_files, plan_plugin_configs, plan_saves, write_entries, PlannedEntry,
    add_entry, add_ini_files_to_zip, add_plugin_configs_to_zip, add_saves_to_zip,
    attempt_backup, describe_archive_error, ArchiveWriter, describe_integrity_error, detail_says_closed,
    entry_error, integrity_verdict, is_plugin_config, selects_save_file, verify_zip_integrity,
    ArchiveError, BackupSources, EntryKind, IntegrityError, SourceFile, WriteStage,
};
use arkade_manager::clock::Instant;
use arkade_manager::job::{Job, JobInput};
use arkade_manager::map::GameMap;
use std::io::{Cursor, Read, Write};
use zip::ZipArchive;

fn job(saves: bool, map: bool, server: bool, plugins: bool) -> Job {
    let input = JobInput {
        id: Some("job".to_string()),
        name: "Island".to_string(),
        root_dir: "/srv/ark".to_string(),
        destination_dir: "/srv/backups".to_string(),
        map: "TheIsland".to_string(),
        include_saves: saves,
        include_map: map,
        include_server_files: server,
        include_plugin_configs: plugins,
        interval_value: 1,
        interval_unit: "hours".to_string(),
        retention_days: 7,
        enabled: false,
    };
    Job::from_input_at(input, String::new(), Instant { secs: 0, nanos: 0 })
}

fn file(name: &str, folder: &str, contents: Option<&[u8]>) -> SourceFile {
    file_at(name, folder, 1, contents)
}

fn file_at(name: &str, folder: &str, depth: usize, contents: Option<&[u8]>) -> SourceFile {
    SourceFile {
        name: name.to_string(),
        folder: folder.to_string(),
        depth,
        contents: contents.map(|c| c.to_vec()),
    }
}

fn no_sources() -> BackupSources {
    BackupSources { saves: vec![], game_ini: None, game_user_settings_ini: None, plugins: vec![] }
}

fn read_back(bytes: &[u8]) -> Vec<(String, Vec<u8>)> {
    let mut archive = ZipArchive::new(Cursor::new(bytes.to_vec())).unwrap();
    let mut out = Vec::new();
    for i in 0..archive.len() {
        let mut entry = archive.by_index(i).unwrap();
        let mut data = Vec::new();
        entry.read_to_end(&mut data).unwrap();
        out.push((entry.name().to_string(), data));
    }
    out
}

#[test]
fn archive_holds_exactly_the_map_and_the_profile() {
    let sources = BackupSources {
        saves: vec![
            file("TheIsland_WP.ark", "TheIsland_WP", Some(b"map data")),
            file("Player1.arkprofile", "TheIsland_WP", Some(b"profile")),
            file("Other.ark", "TheIsland_WP", Some(b"other map")),
        ],
        ..no_sources()
    };
    let archive = attempt_backup(&job(true, true, false, false), &GameMap::TheIsland, &sources)
        .unwrap();
    assert_eq!(
        read_back(&archive.bytes),
        vec![
            ("SavedArks/TheIsland_WP.ark".to_string(), b"map data".to_vec()),
            ("SavedArks/Player1.arkprofile".to_string(), b"profile".to_vec()),
        ]
    );
}

#[test]
fn built_archive_passes_the_integrity_check() {
    let sources = BackupSources {
        saves: vec![file("Tribe.arktribe", "x", Some(&[7u8; 10_000]))],
        ..no_sources()
    };
    let archive = attempt_backup(&job(true, false, false, false), &GameMap::TheIsland, &sources)
        .unwrap();
    assert!(archive.bytes.len() > 22);
    assert!(archive.bytes.len() < 10_000);
    assert!(verify_zip_integrity(archive.bytes.clone()).is_ok());
    assert_eq!(read_back(&archive.bytes), vec![("SavedArks/Tribe.arktribe".to_string(), vec![7u8; 10_000])]);
}

#[test]
fn empty_archive_does_not_pass() {
    let archive = attempt_backup(&job(true, true, true, true), &GameMap::TheIsland, &no_sources())
        .unwrap();
    assert!(read_back(&archive.bytes).is_empty());
    assert!(matches!(verify_zip_integrity(archive.bytes), Err(IntegrityError::Empty)));
}

#[test]
fn entries_bear_the_time_of_the_backup() {
    let sources = BackupSources { game_ini: Some(b"[x]".to_vec()), ..no_sources() };
    let archive = attempt_backup(&job(false, false, true, false), &GameMap::TheIsland, &sources)
        .unwrap();
    let mut reader = ZipArchive::new(Cursor::new(archive.bytes)).unwrap();
    let entry = reader.by_index(0).unwrap();
    assert!(entry.last_modified().year() >= 2024);
    assert_eq!(entry.compression(), zip::CompressionMethod::Deflated);
}

#[test]
fn unreadable_bytes_are_told_in_the_readers_words() {
    match verify_zip_integrity(b"junk".to_vec()) {
        Err(IntegrityError::Unreadable(detail)) => assert!(detail.contains("invalid Zip archive")),
        other => panic!("unexpected verdict {:?}", other),
    }
}

#[test]
fn bytes_that_are_no_archive_do_not_pass() {
    assert!(matches!(verify_zip_integrity(Vec::new()), Err(IntegrityError::Unreadable(_))));
    assert!(matches!(
        verify_zip_integrity(b"this is not a zip file at all".to_vec()),
        Err(IntegrityError::Unreadable(_))
    ));
    let sources = BackupSources { game_ini: Some(b"[x]".to_vec()), ..no_sources() };
    let archive = attempt_backup(&job(false, false, true, false), &GameMap::TheIsland, &sources)
        .unwrap();
    let cut = archive.bytes[..archive.bytes.len() - 10].to_vec();
    assert!(matches!(verify_zip_integrity(cut), Err(IntegrityError::Unreadable(_))));
}

#[test]
fn sections_follow_the_flags_and_their_order() {
    let sources = BackupSources {
        saves: vec![
            file("TheIsland_WP.ark", "s", Some(b"m")),
            file("a.arkprofile", "s", Some(b"p")),
            file("b.arktribe", "s", Some(b"t")),
            file("locked.arkprofile", "s", None),
            file("notes.txt", "s", Some(b"n")),
        ],
        game_ini: Some(b"game".to_vec()),
        game_user_settings_ini: Some(b"user".to_vec()),
        plugins: vec![
            file("config.json", "Permissions", Some(b"{}")),
            file("readme.md", "Permissions", Some(b"r")),
            file("config.json", "Shop", None),
            file("config.json", "Kits", Some(b"{k}")),
        ],
    };
    let names = |j: &Job| -> Vec<String> {
        let archive = attempt_backup(j, &GameMap::TheIsland, &sources).unwrap();
        read_back(&archive.bytes).into_iter().map(|(n, _)| n).collect()
    };
    assert_eq!(
        names(&job(true, true, true, true)),
        vec![
            "SavedArks/TheIsland_WP.ark",
            "SavedArks/a.arkprofile",
            "SavedArks/b.arktribe",
            "INI Settings/Game.ini",
            "INI Settings/GameUserSettings.ini",
            "Plugin/Permissions/config.json",
            "Plugin/Kits/config.json",
        ]
    );
    assert_eq!(names(&job(false, true, false, false)), vec!["SavedArks/TheIsland_WP.ark"]);
    assert_eq!(
        names(&job(true, false, false, false)),
        vec!["SavedArks/a.arkprofile", "SavedArks/b.arktribe"]
    );
    assert_eq!(
        names(&job(false, false, true, false)),
        vec!["INI Settings/Game.ini", "INI Settings/GameUserSettings.ini"]
    );
    assert_eq!(
        names(&job(false, false, false, true)),
        vec!["Plugin/Permissions/config.json", "Plugin/Kits/config.json"]
    );
    assert!(names(&job(false, false, false, false)).is_empty());
}

#[test]
fn missing_settings_file_is_passed_over() {
    let sources = BackupSources { game_user_settings_ini: Some(b"user".to_vec()), ..no_sources() };
    let archive = attempt_backup(&job(false, false, true, false), &GameMap::TheIsland, &sources)
        .unwrap();
    assert_eq!(
        read_back(&archive.bytes),
        vec![("INI Settings/GameUserSettings.ini".to_string(), b"user".to_vec())]
    );
}

#[test]
fn map_file_must_match_to_the_letter() {
    let map = GameMap::TheIsland;
    assert!(selects_save_file("TheIsland_WP.ark", false, true, &map));
    assert!(!selects_save_file("TheIsland_WP.ark", true, false, &map));
    assert!(!selects_save_file("TheIsland_WP_backup.ark", true, true, &map));
    assert!(!selects_save_file("TheIsland.ark", true, true, &map));
    assert!(!selects_save_file("theisland_wp.ark", true, true, &map));
    assert!(!selects_save_file("xTheIsland_WP.ark", true, true, &map));
    assert!(!selects_save_file("Ragnarok_WP.ark", true, true, &map));
    assert!(selects_save_file("Ragnarok_WP.ark", false, true, &GameMap::Ragnarok));
    assert!(selects_save_file("Forglar_WP.ark", false, true, &GameMap::Forglar));
}

#[test]
fn profiles_and_tribes_follow_the_saves_flag() {
    let map = GameMap::TheIsland;
    assert!(selects_save_file("1234.arkprofile", true, false, &map));
    assert!(selects_save_file("1234.arktribe", true, false, &map));
    assert!(selects_save_file("a.b.arktribe", true, true, &map));
    assert!(!selects_save_file("1234.arkprofile", false, true, &map));
    assert!(!selects_save_file(".arkprofile", true, true, &map));
    assert!(!selects_save_file("arkprofile", true, true, &map));
    assert!(!selects_save_file("1234.arkprofile.bak", true, true, &map));
    assert!(!selects_save_file("1234.ARKPROFILE", true, true, &map));
    assert!(!selects_save_file("1234.arktributes", true, true, &map));
    assert!(!selects_save_file("", true, true, &map));
}

#[test]
fn only_config_json_is_a_plugin_config() {
    assert!(is_plugin_config("config.json", 1));
    assert!(!is_plugin_config("config.json", 0));
    assert!(!is_plugin_config("config.json", 2));
    assert!(!is_plugin_config("Config.json", 1));
    assert!(!is_plugin_config("config.json.bak", 1));
    assert!(!is_plugin_config("myconfig.json", 1));
}

#[test]
fn closed_is_read_from_the_words() {
    assert!(detail_says_closed("ZipWriter was already closed"));
    assert!(detail_says_closed("stream finished"));
    assert!(!detail_says_closed("No space left on device"));
    assert!(!detail_says_closed("Closed")); 
    assert!(!detail_says_closed(""));
}

#[test]
fn archive_errors_are_told_by_kind_and_stage() {
    let text = |kind, stage, detail: &str| {
        describe_archive_error(&entry_error(kind, stage, detail.to_string()))
    };
    assert_eq!(
        text(EntryKind::SaveFile, WriteStage::Write, "was closed"),
        "ZIP writer was closed: was closed"
    );
    assert_eq!(
        text(EntryKind::SaveFile, WriteStage::Write, "no room"),
        "Failed to write file to ZIP: no room"
    );
    assert_eq!(
        text(EntryKind::SaveFile, WriteStage::Start, "already closed"),
        "ZIP writer was closed: already closed. This may indicate a previous error (disk full, I/O error) caused the ZIP to be finalized prematurely."
    );
    assert_eq!(
        text(EntryKind::SaveFile, WriteStage::Start, "bad name"),
        "Failed to start file entry in ZIP: bad name"
    );
    assert_eq!(
        text(EntryKind::GameIni, WriteStage::Write, "finished"),
        "ZIP writer was closed while adding Game.ini: finished"
    );
    assert_eq!(
        text(EntryKind::GameIni, WriteStage::Write, "no room"),
        "Failed to write Game.ini to ZIP: no room"
    );
    assert_eq!(
        text(EntryKind::GameUserSettingsIni, WriteStage::Start, "closed"),
        "ZIP writer was closed while starting GameUserSettings.ini entry: closed"
    );
    assert_eq!(
        text(EntryKind::GameUserSettingsIni, WriteStage::Start, "bad"),
        "Failed to start GameUserSettings.ini entry in ZIP: bad"
    );
    assert_eq!(
        text(EntryKind::PluginConfig, WriteStage::Write, "bad"),
        "Failed to write config.json to ZIP: bad"
    );
    assert_eq!(
        text(EntryKind::PluginConfig, WriteStage::Start, "closed"),
        "ZIP writer was closed while starting config.json entry: closed"
    );
    assert_eq!(
        describe_archive_error(&ArchiveError::Finalize { detail: "x".to_string() }),
        "Failed to finalize ZIP file"
    );
}

#[test]
fn verdict_on_what_the_archive_showed() {
    assert!(matches!(integrity_verdict(0, Ok(())), Err(IntegrityError::Empty)));
    assert!(matches!(integrity_verdict(0, Err("x".to_string())), Err(IntegrityError::Empty)));
    assert!(integrity_verdict(1, Ok(())).is_ok());
    assert!(integrity_verdict(5, Ok(())).is_ok());
    match integrity_verdict(2, Err("crc".to_string())) {
        Err(IntegrityError::FirstEntryUnreadable(detail)) => assert_eq!(detail, "crc"),
        other => panic!("unexpected verdict {:?}", other),
    }
    assert_eq!(describe_integrity_error(&IntegrityError::Empty), "ZIP archive is empty");
    assert_eq!(
        describe_integrity_error(&IntegrityError::Unreadable("x".to_string())),
        "Failed to read ZIP archive"
    );
    assert_eq!(
        describe_integrity_error(&IntegrityError::FirstEntryUnreadable("x".to_string())),
        "Failed to read first entry from ZIP"
    );
}

#[test]
fn entries_can_be_added_part_by_part() {
    let mut zip = ArchiveWriter::begin();
    add_plugin_configs_to_zip(&mut zip, &vec![file("config.json", "Shop", Some(b"{}"))]).unwrap();
    add_saves_to_zip(
        &mut zip,
        &vec![file("a.arktribe", "s", Some(b"t")), file("b.ark", "s", Some(b"m"))],
        true,
        true,
        &GameMap::Ragnarok,
    )
    .unwrap();
    add_ini_files_to_zip(&mut zip, &Some(b"g".to_vec()), &None).unwrap();
    add_entry(&mut zip, EntryKind::SaveFile, "extra/empty.bin", &Vec::new()).unwrap();
    let archive = zip.finish().unwrap();
    assert_eq!(
        read_back(&archive.bytes),
        vec![
            ("Plugin/Shop/config.json".to_string(), b"{}".to_vec()),
            ("SavedArks/a.arktribe".to_string(), b"t".to_vec()),
            ("INI Settings/Game.ini".to_string(), b"g".to_vec()),
            ("extra/empty.bin".to_string(), Vec::new()),
        ]
    );
}

#[test]
fn entry_with_a_name_too_long_is_refused() {
    let long = "x".repeat(70_000);
    let mut zip = ArchiveWriter::begin();
    match add_entry(&mut zip, EntryKind::PluginConfig, &long, &vec![1, 2, 3]) {
        Err(ArchiveError::Entry { kind, stage, closed, detail }) => {
            assert_eq!(kind, EntryKind::PluginConfig);
            assert_eq!(stage, WriteStage::Start);
            assert!(!closed);
            assert_eq!(detail, "file name is longer than 65535 bytes");
        }
        other => panic!("unexpected result {:?}", other.err()),
    }
    add_entry(&mut zip, EntryKind::SaveFile, &"y".repeat(65_535), &vec![4]).unwrap();
    let archive = zip.finish().unwrap();
    let entries = read_back(&archive.bytes);
    assert_eq!(entries.len(), 1);
    assert_eq!(entries[0].0.len(), 65_535);

    let sources = BackupSources {
        saves: vec![file(&format!("{}.arkprofile", long), "s", Some(b"p"))],
        ..no_sources()
    };
    let failed = attempt_backup(&job(true, false, false, false), &GameMap::TheIsland, &sources);
    match failed {
        Err(error) => assert_eq!(
            describe_archive_error(&error),
            "Failed to start file entry in ZIP: file name is longer than 65535 bytes"
        ),
        Ok(_) => panic!("the archive should not have been built"),
    }
}

#[test]
fn only_the_config_of_an_immediate_plugin_folder_is_taken() {
    let sources = BackupSources {
        plugins: vec![
            file_at("config.json", "Plugins", 0, Some(b"root")),
            file_at("config.json", "A", 1, Some(b"a")),
            file_at("readme.txt", "B", 1, Some(b"b")),
            file_at("config.json", "sub", 2, Some(b"deep")),
        ],
        ..no_sources()
    };
    let archive = attempt_backup(&job(false, false, false, true), &GameMap::TheIsland, &sources)
        .unwrap();
    assert_eq!(
        read_back(&archive.bytes),
        vec![("Plugin/A/config.json".to_string(), b"a".to_vec())]
    );
}

#[test]
fn entry_marked_for_aes_without_the_encrypted_flag_does_not_pass() {
    let mut writer = zip::ZipWriter::new(Cursor::new(Vec::new()));
    let options =
        zip::write::FileOptions::default().compression_method(zip::CompressionMethod::Stored);
    writer.start_file_with_extra_data("a.txt", options).unwrap();
    writer
        .write_all(&[0xFE, 0xCA, 0x07, 0x00, 0x02, 0x00, 0x41, 0x45, 0x01, 0x00, 0x00])
        .unwrap();
    writer.end_extra_data().unwrap();
    writer.write_all(b"data").unwrap();
    let mut bytes = writer.finish().unwrap().into_inner();
    assert!(verify_zip_integrity(bytes.clone()).is_ok());

    let mut patched = 0;
    for at in 0..bytes.len() - 3 {
        if bytes[at..at + 4] == [0xFE, 0xCA, 0x07, 0x00] {
            bytes[at] = 0x01;
            bytes[at + 1] = 0x99;
            patched += 1;
        }
    }
    assert!(patched >= 1);
    match verify_zip_integrity(bytes) {
        Err(IntegrityError::FirstEntryUnreadable(detail)) => {
            assert!(detail.contains("Password required"), "{}", detail)
        }
        other => panic!("unexpected verdict {:?}", other),
    }
}

#[test]
fn plan_and_writing_can_be_done_apart() {
    let sources = BackupSources {
        saves: vec![file("a.arkprofile", "s", Some(b"p")), file("b.txt", "s", Some(b"x"))],
        game_ini: Some(b"g".to_vec()),
        game_user_settings_ini: None,
        plugins: vec![file("config.json", "Shop", Some(b"{}"))],
    };
    let plan = plan_backup(&job(true, false, true, true), &GameMap::TheIsland, &sources);
    let shown: Vec<(EntryKind, &str, &[u8])> =
        plan.iter().map(|e| (e.kind, e.name.as_str(), e.data.as_slice())).collect();
    assert_eq!(
        shown,
        vec![
            (EntryKind::SaveFile, "SavedArks/a.arkprofile", &b"p"[..]),
            (EntryKind::GameIni, "INI Settings/Game.ini", &b"g"[..]),
            (EntryKind::PluginConfig, "Plugin/Shop/config.json", &b"{}"[..]),
        ]
    );
    assert!(plan_backup(&job(false, false, false, false), &GameMap::TheIsland, &sources).is_empty());
    assert_eq!(plan_saves(&sources.saves, false, true, &GameMap::TheIsland).len(), 0);
    assert_eq!(plan_ini_files(&None, &Some(vec![1])).len(), 1);
    assert_eq!(plan_plugin_configs(&sources.saves).len(), 0);

    let mut zip = ArchiveWriter::begin();
    write_entries(&mut zip, &plan).unwrap();
    write_entries(&mut zip, &Vec::new()).unwrap();
    let archive = zip.finish().unwrap();
    assert_eq!(read_back(&archive.bytes).len(), 3);

    // an entry that does not go in ends the writing: what stands behind it is not written
    let long = "x".repeat(70_000);
    let data = vec![1u8];
    let plan = vec![
        PlannedEntry { kind: EntryKind::GameIni, name: "first".to_string(), data: &data },
        PlannedEntry { kind: EntryKind::PluginConfig, name: long, data: &data },
        PlannedEntry { kind: EntryKind::SaveFile, name: "last".to_string(), data: &data },
    ];
    let mut zip = ArchiveWriter::begin();
    match write_entries(&mut zip, &plan) {
        Err(ArchiveError::Entry { kind, stage, .. }) => {
            assert_eq!(kind, EntryKind::PluginConfig);
            assert_eq!(stage, WriteStage::Start);
        }
        other => panic!("unexpected result {:?}", other.err()),
    }
    let archive = zip.finish().unwrap();
    assert_eq!(read_back(&archive.bytes), vec![("first".to_string(), vec![1u8])]);
}
