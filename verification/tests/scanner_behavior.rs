use model_shell::model_path::is_supported_model_path;
use model_shell::scanner::startup_file_from_args;

fn args_of(items: &[&str]) -> Vec<String> {
    items.iter().map(|s| s.to_string()).collect()
}

#[test]
fn supported_extensions_any_case() {
    assert!(is_supported_model_path("model.stl"));
    assert!(is_supported_model_path("model.STL"));
    assert!(is_supported_model_path("model.sTl"));
    assert!(is_supported_model_path("part.3mf"));
    assert!(is_supported_model_path("part.3MF"));
    assert!(is_supported_model_path("part.3Mf"));
    assert!(is_supported_model_path("dir/sub/file.stl"));
}

#[test]
fn trailing_separators_are_passed_over() {
    assert!(is_supported_model_path("model.stl/"));
    assert!(is_supported_model_path("model.stl//"));
    assert!(is_supported_model_path("model.stl/."));
    assert!(is_supported_model_path("part.3MF/./"));
    assert!(is_supported_model_path("./part.3mf"));
    assert!(!is_supported_model_path("model.stl/.."));
    assert!(!is_supported_model_path("dir/.."));
    assert!(!is_supported_model_path(".."));
    assert!(!is_supported_model_path("."));
    assert!(!is_supported_model_path("/"));
}

#[test]
fn unsupported_or_missing_extensions() {
    assert!(!is_supported_model_path("readme.txt"));
    assert!(!is_supported_model_path("noextension"));
    assert!(!is_supported_model_path(""));
    assert!(!is_supported_model_path("stl"));
    assert!(!is_supported_model_path(".stl"));
    assert!(!is_supported_model_path("dir/.3mf"));
    assert!(!is_supported_model_path("archive.stl.zip"));
    assert!(!is_supported_model_path("model.stlx"));
    assert!(!is_supported_model_path("trailing."));
    assert!(!is_supported_model_path("dir.stl/file"));
}

#[test]
fn one_match_among_noise_is_found() {
    let args = args_of(&["a.txt", "b.STL", "c.doc"]);
    assert_eq!(startup_file_from_args(&args), Some("b.STL".to_string()));

    let args = args_of(&["--flag", "part.3Mf"]);
    assert_eq!(startup_file_from_args(&args), Some("part.3Mf".to_string()));

    let args = args_of(&["readme.txt", "model.stl/"]);
    assert_eq!(startup_file_from_args(&args), Some("model.stl/".to_string()));
}

#[test]
fn no_match_yields_absence() {
    let args = args_of(&["readme.txt", "notes.md", "stl", ".3mf"]);
    assert_eq!(startup_file_from_args(&args), None);

    let empty: Vec<String> = Vec::new();
    assert_eq!(startup_file_from_args(&empty), None);
}

#[test]
fn first_of_several_matches_wins() {
    let args = args_of(&["a.stl", "b.3mf", "c.stl"]);
    assert_eq!(startup_file_from_args(&args), Some("a.stl".to_string()));
}

#[test]
fn uppercase_stl_argument_is_yielded() {
    let args = args_of(&["model.STL"]);
    assert_eq!(startup_file_from_args(&args), Some("model.STL".to_string()));
}

#[test]
fn later_model_argument_is_yielded() {
    let args = args_of(&["readme.txt", "part.3mf"]);
    assert_eq!(startup_file_from_args(&args), Some("part.3mf".to_string()));
}
