use brain_core::config::{
    choose_db_path, config_candidates, find_config_file_from, find_config_file_with, first_existing,
    DEFAULT_DB_PATH,
};
use std::path::{Path, PathBuf};

#[test]
fn explicit_path_wins() {
    assert_eq!(
        choose_db_path(Some("/explicit/path.db"), Some("/env/path.db".to_string()), Some("/from/config.db".to_string())),
        "/explicit/path.db"
    );
}

#[test]
fn environment_wins_over_config() {
    assert_eq!(
        choose_db_path(None, Some("/env/path.db".to_string()), Some("/from/config.db".to_string())),
        "/env/path.db"
    );
}

#[test]
fn config_wins_over_default() {
    assert_eq!(choose_db_path(None, None, Some("/from/config.db".to_string())), "/from/config.db");
}

#[test]
fn default_when_nothing_is_set() {
    assert_eq!(choose_db_path(None, None, None), "./vault/brain.db");
    assert_eq!(DEFAULT_DB_PATH, "./vault/brain.db");
}

#[test]
fn no_config_below_a_missing_directory() {
    let start = std::path::Path::new("/nonexistent-brain-dir/a/b");
    let found = find_config_file_from(start);
    assert!(found.map_or(true, |p| p.ends_with(".config/brain.toml")));
}

#[test]
fn candidates_run_from_the_start_directory_up_to_the_root() {
    let got = config_candidates(Path::new("/a/b"));
    let want: Vec<PathBuf> = vec![
        PathBuf::from("/a/b/.config/brain.toml"),
        PathBuf::from("/a/.config/brain.toml"),
        PathBuf::from("/.config/brain.toml"),
    ];
    assert_eq!(got, want);
}

#[test]
fn first_existing_takes_the_nearest_that_exists() {
    let c = || config_candidates(Path::new("/a/b"));
    assert_eq!(first_existing(c(), &vec![false, true, true]), Some(PathBuf::from("/a/.config/brain.toml")));
    assert_eq!(first_existing(c(), &vec![true, false, true]), Some(PathBuf::from("/a/b/.config/brain.toml")));
    assert_eq!(first_existing(c(), &vec![false, false, false]), None);
    assert_eq!(first_existing(Vec::new(), &Vec::new()), None);
}

#[test]
fn search_asks_nearest_first_and_stops_at_the_first_hit() {
    let asked = std::cell::RefCell::new(Vec::new());
    let found = find_config_file_with(Path::new("/a/b"), |p: &PathBuf| {
        asked.borrow_mut().push(p.clone());
        p.starts_with("/a") && !p.starts_with("/a/b")
    });
    assert_eq!(found, Some(PathBuf::from("/a/.config/brain.toml")));
    assert_eq!(
        asked.into_inner(),
        vec![PathBuf::from("/a/b/.config/brain.toml"), PathBuf::from("/a/.config/brain.toml")]
    );
    assert_eq!(find_config_file_with(Path::new("/a/b"), |_: &PathBuf| false), None);
    assert_eq!(
        find_config_file_with(Path::new("/a/b"), |_: &PathBuf| true),
        Some(PathBuf::from("/a/b/.config/brain.toml"))
    );
}
