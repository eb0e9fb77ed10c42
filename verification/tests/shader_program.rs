use snuff::{ShaderProgram, WatchEvent, WatchState};

fn watched() -> ShaderProgram {
    ShaderProgram::from_source(5, String::from("a.vs"), String::from("a.fs"))
}

#[test]
fn program_from_strings_is_never_reloaded() {
    let mut shader = ShaderProgram::from_string(5);
    assert_eq!(shader.state(), WatchState::Unwatched);
    assert_eq!(shader.vs_file_path(), "null");
    assert_eq!(shader.fs_file_path(), "null");
    assert!(!shader.check_reload(&vec![WatchEvent::Write]));
    assert_eq!(shader.state(), WatchState::Unwatched);
    assert!(!shader.reload(Some(6)));
    assert_eq!(shader.program(), 5);
}

#[test]
fn program_from_files_is_watched() {
    let shader = watched();
    assert_eq!(shader.state(), WatchState::Watching);
    assert_eq!(shader.program(), 5);
    assert_eq!(shader.vs_file_path(), "a.vs");
    assert_eq!(shader.fs_file_path(), "a.fs");
}

#[test]
fn only_a_write_asks_for_a_compile() {
    let mut shader = watched();
    assert!(!shader.check_reload(&vec![]));
    assert!(!shader.check_reload(&vec![WatchEvent::Other, WatchEvent::Other]));
    assert_eq!(shader.state(), WatchState::Watching);
    assert!(shader.check_reload(&vec![WatchEvent::Other, WatchEvent::Write, WatchEvent::Other]));
    assert_eq!(shader.state(), WatchState::ReloadPending);
    assert_eq!(shader.program(), 5);
}

#[test]
fn successful_reload_replaces_the_program() {
    let mut shader = watched();
    assert!(shader.check_reload(&vec![WatchEvent::Write]));
    assert!(shader.reload(Some(8)));
    assert_eq!(shader.program(), 8);
    assert_eq!(shader.state(), WatchState::Watching);
    assert_eq!(shader.vs_file_path(), "a.vs");
}

#[test]
fn failed_reload_keeps_the_program_until_the_next_write() {
    let mut shader = watched();
    assert!(shader.check_reload(&vec![WatchEvent::Write]));
    assert!(!shader.reload(None));
    assert_eq!(shader.program(), 5);
    assert_eq!(shader.state(), WatchState::Broken);

    assert!(!shader.check_reload(&vec![]));
    assert_eq!(shader.state(), WatchState::Broken);
    assert_eq!(shader.program(), 5);

    assert!(shader.check_reload(&vec![WatchEvent::Write]));
    assert!(shader.reload(Some(9)));
    assert_eq!(shader.program(), 9);
    assert_eq!(shader.state(), WatchState::Watching);
}

#[test]
fn reload_without_a_due_compile_changes_nothing() {
    let mut shader = watched();
    assert!(!shader.reload(Some(6)));
    assert_eq!(shader.program(), 5);
    assert_eq!(shader.state(), WatchState::Watching);
}

#[test]
fn a_due_compile_stays_due() {
    let mut shader = watched();
    assert!(shader.check_reload(&vec![WatchEvent::Write]));
    assert!(shader.check_reload(&vec![]));
    assert_eq!(shader.state(), WatchState::ReloadPending);
}
