//! The displayed title path: home-directory collapsing and the surrounding
//! title text.

use gitui_core::startup::StartupError;
use gitui_core::title::{abbreviate_home, session_title, window_title};

#[test]
fn path_inside_home_is_collapsed_to_alias() {
    let shown = abbreviate_home(&b"/home/alice/proj".to_vec(), &b"/home/alice".to_vec());
    assert_eq!(shown, b"~/proj".to_vec());
}

#[test]
fn path_outside_home_is_shown_unmodified() {
    let shown = abbreviate_home(&b"/srv/proj".to_vec(), &b"/home/alice".to_vec());
    assert_eq!(shown, b"/srv/proj".to_vec());
}

#[test]
fn home_itself_is_shown_as_alias() {
    let shown = abbreviate_home(&b"/home/alice".to_vec(), &b"/home/alice".to_vec());
    assert_eq!(shown, b"~".to_vec());
}

#[test]
fn sibling_with_home_as_byte_prefix_is_not_collapsed() {
    let shown = abbreviate_home(&b"/home/alicex/proj".to_vec(), &b"/home/alice".to_vec());
    assert_eq!(shown, b"/home/alicex/proj".to_vec());
}

#[test]
fn empty_home_collapses_nothing() {
    let shown = abbreviate_home(&b"/srv/proj".to_vec(), &b"".to_vec());
    assert_eq!(shown, b"/srv/proj".to_vec());
}

#[test]
fn nested_path_keeps_everything_below_home() {
    let shown = abbreviate_home(&b"/home/alice/a/b/c".to_vec(), &b"/home/alice".to_vec());
    assert_eq!(shown, b"~/a/b/c".to_vec());
}

#[test]
fn window_title_wraps_the_collapsed_path() {
    let title = window_title(&b"/home/alice/proj".to_vec(), &b"/home/alice".to_vec());
    assert_eq!(title, b"gitui (~/proj)".to_vec());
}

#[test]
fn window_title_wraps_outside_paths_unmodified() {
    let title = window_title(&b"/srv/proj".to_vec(), &b"/home/alice".to_vec());
    assert_eq!(title, b"gitui (/srv/proj)".to_vec());
}

#[test]
fn session_title_uses_the_platform_home_directory() {
    match session_title(&b"/srv/proj".to_vec()) {
        Ok(title) => {
            assert!(title.starts_with(b"gitui ("));
            assert!(title.ends_with(b")"));
        }
        Err(e) => assert!(matches!(e, StartupError::MissingHome)),
    }
}
