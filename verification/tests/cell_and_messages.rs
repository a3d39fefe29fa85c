use model_shell::messages::greet;
use model_shell::messages::read_failure_message;
use model_shell::pending::PendingFileCell;
use model_shell::scanner::startup_file_from_args;

#[test]
fn take_yields_seed_once_then_absence() {
    let mut cell = PendingFileCell::initialize(Some("part.3mf".to_string()));
    assert_eq!(cell.take(), Some("part.3mf".to_string()));
    assert_eq!(cell.take(), None);
    assert_eq!(cell.take(), None);
}

#[test]
fn empty_seed_always_yields_absence() {
    let mut cell = PendingFileCell::initialize(None);
    assert_eq!(cell.take(), None);
    assert_eq!(cell.take(), None);
}

#[test]
fn startup_hand_off_from_single_model_argument() {
    let args = vec!["model.STL".to_string()];
    let found = startup_file_from_args(&args);
    assert_eq!(found, Some("model.STL".to_string()));
    let mut cell = PendingFileCell::initialize(found);
    assert_eq!(cell.take(), Some("model.STL".to_string()));
    assert_eq!(cell.take(), None);
}

#[test]
fn greeting_contains_the_name() {
    let text = greet("Ada");
    assert!(text.contains("Ada"));
    assert_eq!(text, "Hello, Ada! You've been greeted from Rust!");
}

#[test]
fn read_failure_names_the_path() {
    let path = "definitely/not/here.stl";
    let text = read_failure_message(path, "No such file or directory (os error 2)");
    assert!(text.contains(path));
    assert_eq!(
        text,
        "Failed to read 'definitely/not/here.stl': No such file or directory (os error 2)"
    );
}
