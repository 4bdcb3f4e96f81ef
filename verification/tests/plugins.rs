use arkade_manager::plugins::{
    base_folder_name, destination_server, install_plugins, is_disabled_folder, plan_install,
    toggle_rename, toggled_folder_name, CopyReport, InstallStep, PluginSource,
};
use arkade_manager::update::{is_installer, is_update_available, release_version, update_verdict};

fn source(path: &str, name: Option<&str>, exists: bool) -> PluginSource {
    PluginSource { path: path.to_string(), name: name.map(|n| n.to_string()), exists }
}

#[test]
fn plan_copies_every_source_to_every_destination() {
    let sources = vec![
        source("/src/Shop", Some("Shop"), true),
        source("/src/Gone", Some("Gone"), false),
        source("/src/odd", None, true),
    ];
    let destinations = vec!["/a/Plugins".to_string(), "/b/Plugins".to_string()];
    let steps = plan_install(&sources, &destinations);
    let shown: Vec<String> = steps
        .iter()
        .map(|step| match step {
            InstallStep::Missing { source } => format!("missing {}", source),
            InstallStep::Copy { plugin_name, source, destination, target } => {
                format!("{} {} {} {}", plugin_name, source, destination, target)
            }
        })
        .collect();
    assert_eq!(
        shown,
        vec![
            "Shop /src/Shop /a/Plugins /a/Plugins/Shop",
            "Shop /src/Shop /b/Plugins /b/Plugins/Shop",
            "missing /src/Gone",
            "Unknown /src/odd /a/Plugins /a/Plugins/Unknown",
            "Unknown /src/odd /b/Plugins /b/Plugins/Unknown",
        ]
    );
    assert!(plan_install(&sources, &Vec::new()).len() == 1);
    assert!(plan_install(&Vec::new(), &destinations).is_empty());
}

#[test]
fn install_sums_counts_and_collects_errors() {
    let reports = vec![
        CopyReport::Copied { files_copied: 3, files_overwritten: 1 },
        CopyReport::SourceMissing { source: "/src/Gone".to_string() },
        CopyReport::Failed {
            plugin_name: "Shop".to_string(),
            destination: "/b/Plugins".to_string(),
            error: "Source is not a directory".to_string(),
        },
        CopyReport::Copied { files_copied: 0, files_overwritten: 7 },
    ];
    let result = install_plugins(&reports);
    assert_eq!(result.files_copied, 3);
    assert_eq!(result.files_overwritten, 8);
    assert_eq!(
        result.errors,
        vec![
            "Source plugin not found: /src/Gone",
            "Failed to copy Shop to /b/Plugins: Source is not a directory",
        ]
    );
    let nothing = install_plugins(&Vec::new());
    assert_eq!((nothing.files_copied, nothing.files_overwritten), (0, 0));
    assert!(nothing.errors.is_empty());
}

#[test]
fn destination_server_has_its_plugins_directory() {
    let server = destination_server("omega".to_string(), "/servers/omega".to_string());
    assert_eq!(server.name, "omega");
    assert_eq!(server.path, "/servers/omega");
    assert_eq!(server.plugin_path, "/servers/omega/ShooterGame/Binaries/Win64/ArkApi/Plugins");
}

#[test]
fn folder_names_carry_the_state() {
    assert!(is_disabled_folder("Shop_OFF"));
    assert!(is_disabled_folder("_OFF"));
    assert!(!is_disabled_folder("Shop"));
    assert!(!is_disabled_folder("Shop_off"));
    assert!(!is_disabled_folder("Shop_OFF2"));
    assert_eq!(base_folder_name("Shop_OFF"), "Shop");
    assert_eq!(base_folder_name("Shop"), "Shop");
    assert_eq!(base_folder_name("_OFF"), "");
    assert_eq!(toggled_folder_name("Shop"), "Shop_OFF");
    assert_eq!(toggled_folder_name("Shop_OFF"), "Shop");
    assert_eq!(toggled_folder_name(&toggled_folder_name("Shop")), "Shop");
    assert_eq!(toggled_folder_name("Shop_OFF_OFF"), "Shop_OFF");
}

#[test]
fn toggle_renames_only_what_is_in_the_other_state() {
    let pair = |a: &str, b: &str| Some((a.to_string(), b.to_string()));
    assert_eq!(toggle_rename("Shop", true, true, false), pair("Shop", "Shop_OFF"));
    assert_eq!(toggle_rename("Shop", true, true, true), None);
    assert_eq!(toggle_rename("Shop", true, false, true), None);
    assert_eq!(toggle_rename("Shop", true, false, false), None);
    assert_eq!(toggle_rename("Shop", false, false, true), pair("Shop_OFF", "Shop"));
    assert_eq!(toggle_rename("Shop", false, true, true), None);
    assert_eq!(toggle_rename("Shop", false, true, false), None);
    assert_eq!(toggle_rename("Shop", false, false, false), None);
}

#[test]
fn release_tags_lose_their_leading_v() {
    assert_eq!(release_version("v1.2.3"), "1.2.3");
    assert_eq!(release_version("1.2.3"), "1.2.3");
    assert_eq!(release_version("vv1"), "v1");
    assert_eq!(release_version("V1.2.3"), "V1.2.3");
    assert_eq!(release_version("v"), "");
    assert_eq!(release_version(""), "");
}

#[test]
fn update_is_available_for_a_greater_version() {
    assert!(is_update_available("1.2.3", "v1.2.4"));
    assert!(is_update_available("1.2.3", "1.3.0"));
    assert!(is_update_available("1.9.0", "v1.10.0"));
    assert!(is_update_available("1.0.0-beta.1", "v1.0.0"));
    assert!(!is_update_available("1.2.3", "v1.2.3"));
    assert!(!is_update_available("1.2.4", "v1.2.3"));
    assert!(!is_update_available("1.0.0", "v1.0.0-rc.1"));
    assert!(!is_update_available("1.2.3", "latest"));
    assert!(!is_update_available("1.2.3", ""));
    assert!(!is_update_available("one", "v2.0.0"));
    assert!(!is_update_available("1.2", "v2.0.0"));
    assert!(update_verdict(true, true, true));
    assert!(!update_verdict(true, true, false));
    assert!(!update_verdict(false, true, true));
    assert!(!update_verdict(true, false, true));
}

#[test]
fn installer_is_told_by_its_address() {
    assert!(is_installer("https://example.org/releases/ARKADE.Manager_1.2.3_x64-setup.exe"));
    assert!(is_installer("-setup.exe"));
    assert!(!is_installer("https://example.org/releases/ARKADE.Manager_1.2.3_x64.msi"));
    assert!(!is_installer("https://example.org/releases/x-setup.exe.sig"));
    assert!(!is_installer("setup.exe"));
    assert!(!is_installer(""));
}
