//! Tests for the link decisions and the whole-run model.

use cleanfig::errors::Error;
use cleanfig::linker::Action;
use cleanfig::linker::DestState;
use cleanfig::linker::FsModel;
use cleanfig::linker::plan_dir_link;
use cleanfig::linker::plan_file_link;
use cleanfig::linker::run_model;

fn all_missing() -> FsModel {
    FsModel {
        alacritty: DestState::Missing,
        nvim: DestState::Missing,
        starship: DestState::Missing,
        topgrade: DestState::Missing,
    }
}

fn entries(names: &[&str]) -> Vec<String> {
    names.iter().map(|n| n.to_string()).collect()
}

#[test]
fn file_plan_creates_when_missing() {
    assert_eq!(plan_file_link(".config/starship.toml", DestState::Missing), Ok(Action::Create));
}

#[test]
fn file_plan_accepts_any_existing_symlink() {
    assert_eq!(plan_file_link(".config/starship.toml", DestState::Symlink), Ok(Action::Nothing));
}

#[test]
fn file_plan_refuses_occupied_destination() {
    assert_eq!(
        plan_file_link(".config/starship.toml", DestState::Present),
        Err(Error::ExistingPath(".config/starship.toml".to_string())),
    );
}

#[test]
fn dir_plan_creates_only_when_missing() {
    assert_eq!(plan_dir_link(DestState::Missing), Action::Create);
    assert_eq!(plan_dir_link(DestState::Symlink), Action::Nothing);
    assert_eq!(plan_dir_link(DestState::Present), Action::Nothing);
}

#[test]
fn empty_root_succeeds_untouched() {
    let report = run_model(&entries(&[]), all_missing());
    assert_eq!(report.result, Ok(()));
    assert_eq!(report.fs, all_missing());
    assert!(report.created.is_empty());
}

#[test]
fn each_mapped_name_creates_its_link_when_missing() {
    let cases = [
        ("alacritty.yml", "AppData/Roaming/alacritty/alacritty.yml"),
        ("nvim", "AppData/Local/nvim"),
        ("starship.toml", ".config/starship.toml"),
        ("topgrade.toml", "AppData/Roaming/topgrade.toml"),
    ];
    for (name, dest) in cases {
        let report = run_model(&entries(&[name]), all_missing());
        assert_eq!(report.result, Ok(()));
        assert_eq!(report.created, vec![(name.to_string(), dest.to_string())]);
    }
}

#[test]
fn each_mapped_name_is_noop_when_destination_is_symlink() {
    let all_symlink = FsModel {
        alacritty: DestState::Symlink,
        nvim: DestState::Symlink,
        starship: DestState::Symlink,
        topgrade: DestState::Symlink,
    };
    for name in ["alacritty.yml", "nvim", "starship.toml", "topgrade.toml"] {
        let report = run_model(&entries(&[name]), all_symlink);
        assert_eq!(report.result, Ok(()));
        assert_eq!(report.fs, all_symlink);
        assert!(report.created.is_empty());
    }
}

#[test]
fn occupied_file_destination_fails_with_existing_path() {
    let fs = FsModel { starship: DestState::Present, ..all_missing() };
    let report = run_model(&entries(&["starship.toml"]), fs);
    assert_eq!(report.result, Err(Error::ExistingPath(".config/starship.toml".to_string())));
    assert_eq!(report.fs, fs);
    assert!(report.created.is_empty());
}

#[test]
fn occupied_directory_destination_is_left_alone() {
    let fs = FsModel { nvim: DestState::Present, ..all_missing() };
    let report = run_model(&entries(&["nvim"]), fs);
    assert_eq!(report.result, Ok(()));
    assert_eq!(report.fs, fs);
    assert!(report.created.is_empty());
}

#[test]
fn ignored_names_touch_nothing() {
    let fs = FsModel {
        alacritty: DestState::Present,
        nvim: DestState::Symlink,
        starship: DestState::Missing,
        topgrade: DestState::Present,
    };
    let report = run_model(&entries(&[".git", "README.md"]), fs);
    assert_eq!(report.result, Ok(()));
    assert_eq!(report.fs, fs);
    assert!(report.created.is_empty());
}

#[test]
fn full_root_creates_two_links_and_skips_git() {
    let report = run_model(&entries(&["starship.toml", "nvim", ".git"]), all_missing());
    assert_eq!(report.result, Ok(()));
    assert_eq!(
        report.created,
        vec![
            ("starship.toml".to_string(), ".config/starship.toml".to_string()),
            ("nvim".to_string(), "AppData/Local/nvim".to_string()),
        ],
    );
    assert_eq!(report.fs.starship, DestState::Symlink);
    assert_eq!(report.fs.nvim, DestState::Symlink);
    assert_eq!(report.fs.alacritty, DestState::Missing);
    assert_eq!(report.fs.topgrade, DestState::Missing);
}

#[test]
fn unknown_entry_fails_run_with_zero_links() {
    let report = run_model(&entries(&["unknown.cfg"]), all_missing());
    assert_eq!(report.result, Err(Error::InvalidConfig("unknown.cfg".to_string())));
    assert_eq!(report.fs, all_missing());
    assert!(report.created.is_empty());
}

#[test]
fn first_error_aborts_but_earlier_links_remain() {
    let report = run_model(
        &entries(&["alacritty.yml", "unknown.cfg", "starship.toml"]),
        all_missing(),
    );
    assert_eq!(report.result, Err(Error::InvalidConfig("unknown.cfg".to_string())));
    assert_eq!(
        report.created,
        vec![(
            "alacritty.yml".to_string(),
            "AppData/Roaming/alacritty/alacritty.yml".to_string(),
        )],
    );
    assert_eq!(report.fs.alacritty, DestState::Symlink);
    assert_eq!(report.fs.starship, DestState::Missing);
}
