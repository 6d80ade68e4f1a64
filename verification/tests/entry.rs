//! Which window a process is, and where its files are.

use std::path::Path;

use ram_ui::entry::{
    accounts_path, after_move_step, favorite_preset, forgets_favorites, offers_migration,
    uses_local_files, window_of, FavoritePlace, Move, Window, DEFAULT_ACCOUNTS_PATH,
};

fn args(list: &[&str]) -> Vec<String> {
    list.iter().map(|s| s.to_string()).collect()
}

#[test]
fn the_login_flag_makes_a_login_window() {
    match window_of(&args(&["rm", "--browser-login", "p", "o", "s"])) {
        Window::Login { profile, outfile, status } => {
            assert_eq!((profile.as_str(), outfile.as_str()), ("p", "o"));
            assert_eq!(status.as_deref(), Some("s"));
        }
        other => panic!("{other:?}"),
    }
    assert!(matches!(
        window_of(&args(&["rm", "--browser-login", "p", "o"])),
        Window::Login { status: None, .. }
    ));
}

#[test]
fn the_browse_flag_makes_a_window_of_an_account() {
    match window_of(&args(&["rm", "--browse-as", "p", "c"])) {
        Window::BrowseAs { profile, cookie_in, label } => {
            assert_eq!((profile.as_str(), cookie_in.as_str(), label.as_str()), ("p", "c", ""));
        }
        other => panic!("{other:?}"),
    }
}

#[test]
fn anything_else_is_the_program() {
    assert!(matches!(window_of(&args(&[])), Window::Main));
    assert!(matches!(window_of(&args(&["rm"])), Window::Main));
    assert!(matches!(window_of(&args(&["rm", "--browser-login", "p"])), Window::Main));
    assert!(matches!(window_of(&args(&["rm", "--other", "a", "b"])), Window::Main));
}

#[test]
fn files_next_to_the_program_are_offered_once() {
    assert!(offers_migration(true, false, false));
    assert!(offers_migration(false, true, false));
    assert!(!offers_migration(false, false, false));
    assert!(!offers_migration(true, true, true));
    assert!(uses_local_files(true, false));
    assert!(!uses_local_files(true, true));
    assert!(!uses_local_files(false, false));
}

#[test]
fn a_file_is_removed_only_once_it_is_copied() {
    assert_eq!(after_move_step(Move::Rename, true), Move::Done);
    assert_eq!(after_move_step(Move::Rename, false), Move::Copy);
    assert_eq!(after_move_step(Move::Copy, true), Move::RemoveSource);
    assert_eq!(after_move_step(Move::Copy, false), Move::Failed);
    assert_eq!(after_move_step(Move::RemoveSource, false), Move::Done);
}

#[test]
fn the_first_path_is_the_one_in_place() {
    let here = "/data/accounts.dat".to_string();
    let placed = |path: &str| {
        let is_default = Path::new(path) == Path::new(DEFAULT_ACCOUNTS_PATH);
        accounts_path(path.into(), is_default, here.clone())
    };
    assert_eq!(placed("accounts.dat"), here);
    assert_eq!(placed("accounts.dat/"), here);
    assert_eq!(placed("/other.dat"), "/other.dat");
}

#[test]
fn favourites_become_presets() {
    let preset = favorite_preset(FavoritePlace { name: "Home".into(), place_id: 606 });
    assert_eq!((preset.name.as_str(), preset.place_id), ("Home", 606));
    assert_eq!(preset.job_id, None);
    assert!(forgets_favorites(&vec![false, true]));
    assert!(!forgets_favorites(&vec![false, false]));
    assert!(!forgets_favorites(&vec![]));
}
