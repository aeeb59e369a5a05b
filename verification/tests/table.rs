//! Tests for the fixed mapping table.

use cleanfig::errors::Error;
use cleanfig::table::Target;
use cleanfig::table::resolve;

#[test]
fn alacritty_maps_to_file_link() {
    assert_eq!(
        resolve("alacritty.yml"),
        Ok(Target::FileLink { dest: "AppData/Roaming/alacritty/alacritty.yml".to_string() }),
    );
}

#[test]
fn nvim_maps_to_directory_link() {
    assert_eq!(resolve("nvim"), Ok(Target::DirLink { dest: "AppData/Local/nvim".to_string() }));
}

#[test]
fn starship_maps_to_file_link() {
    assert_eq!(
        resolve("starship.toml"),
        Ok(Target::FileLink { dest: ".config/starship.toml".to_string() }),
    );
}

#[test]
fn topgrade_maps_to_file_link() {
    assert_eq!(
        resolve("topgrade.toml"),
        Ok(Target::FileLink { dest: "AppData/Roaming/topgrade.toml".to_string() }),
    );
}

#[test]
fn ignore_listed_names_resolve_to_ignore() {
    assert_eq!(resolve(".git"), Ok(Target::Ignore));
    assert_eq!(resolve("README.md"), Ok(Target::Ignore));
}

#[test]
fn unknown_name_is_invalid_config() {
    assert_eq!(
        resolve("unknown.cfg"),
        Err(Error::InvalidConfig("unknown.cfg".to_string())),
    );
}

#[test]
fn empty_name_is_invalid_config() {
    assert_eq!(resolve(""), Err(Error::InvalidConfig(String::new())));
}

#[test]
fn matching_is_case_sensitive() {
    assert_eq!(resolve("Nvim"), Err(Error::InvalidConfig("Nvim".to_string())));
    assert_eq!(
        resolve("STARSHIP.TOML"),
        Err(Error::InvalidConfig("STARSHIP.TOML".to_string())),
    );
}

#[test]
fn near_miss_names_are_invalid_config() {
    assert_eq!(
        resolve("starship.tom"),
        Err(Error::InvalidConfig("starship.tom".to_string())),
    );
    assert_eq!(
        resolve("starship.toml2"),
        Err(Error::InvalidConfig("starship.toml2".to_string())),
    );
}
