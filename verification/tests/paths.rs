use arkade_manager::map::GameMap;
use arkade_manager::validation::{derive_config_dir, derive_plugins_dir, derive_saves_dir};

#[test]
fn test_derive_paths() {
    let root = r"C:\arkservers\asaservers\omega-forglar";
    let config = derive_config_dir(root);
    assert!(config.contains("WindowsServer"));
    assert!(config.contains("Config"));

    let saves = derive_saves_dir(root, "Forglar");
    assert!(saves.contains("Forglar"));
    assert!(saves.contains("SavedArks"));

    let plugins = derive_plugins_dir(root);
    assert!(plugins.contains("Plugins"));
    assert!(plugins.contains("ArkApi"));
}

#[test]
fn test_derive_paths_different_maps() {
    let root = r"C:\test\server";
    let maps = vec!["TheIsland", "Ragnarok", "Forglar"];

    for map in maps {
        let saves = derive_saves_dir(root, map);
        assert!(saves.ends_with(map));
    }
}

#[test]
fn derived_paths_in_full() {
    assert_eq!(derive_config_dir("/srv/ark"), "/srv/ark/ShooterGame/Saved/Config/WindowsServer");
    assert_eq!(
        derive_saves_dir("/srv/ark", GameMap::TheIsland.folder_name()),
        "/srv/ark/ShooterGame/Saved/SavedArks/TheIsland_WP"
    );
    assert_eq!(
        derive_plugins_dir("/srv/ark"),
        "/srv/ark/ShooterGame/Binaries/Win64/ArkApi/Plugins"
    );
}

#[test]
fn root_ending_in_separator_gets_no_second_one() {
    assert_eq!(derive_config_dir("/srv/ark/"), "/srv/ark/ShooterGame/Saved/Config/WindowsServer");
    assert_eq!(
        derive_config_dir("C:\\srv\\"),
        "C:\\srv\\ShooterGame/Saved/Config/WindowsServer"
    );
    assert_eq!(derive_config_dir(""), "ShooterGame/Saved/Config/WindowsServer");
}
