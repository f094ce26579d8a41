use minigrep::run_search;
use minigrep::Config;
use minigrep::ConfigError;

fn args_of(parts: &[&str]) -> Vec<String> {
    parts.iter().map(|p| p.to_string()).collect()
}

#[test]
fn missing_query_argument() {
    let r = Config::build(&args_of(&["minigrep"]), false);
    assert_eq!(r.err(), Some(ConfigError::MissingQuery));
    let r = Config::build(&args_of(&[]), false);
    assert_eq!(r.err(), Some(ConfigError::MissingQuery));
}

#[test]
fn missing_file_path_argument() {
    let r = Config::build(&args_of(&["minigrep", "query"]), false);
    assert_eq!(r.err(), Some(ConfigError::MissingFilePath));
}

#[test]
fn builds_configuration_fields() {
    let config = Config::build(&args_of(&["minigrep", "you", "poem.txt"]), false).unwrap();
    assert_eq!(config.query, "you");
    assert_eq!(config.file_path, "poem.txt");
    assert!(!config.ignore_case);
}

#[test]
fn environment_flag_sets_ignore_case() {
    let config = Config::build(&args_of(&["minigrep", "you", "poem.txt"]), true).unwrap();
    assert!(config.ignore_case);
}

#[test]
fn third_argument_forces_ignore_case() {
    let config =
        Config::build(&args_of(&["minigrep", "you", "poem.txt", "whatever"]), false).unwrap();
    assert!(config.ignore_case);
}

#[test]
fn error_messages() {
    assert_eq!(
        ConfigError::MissingQuery.message(),
        "Didn't get any query string"
    );
    assert_eq!(
        ConfigError::MissingFilePath.message(),
        "Didn't get any file path"
    );
}

#[test]
fn run_search_selects_matcher() {
    let contents = "Rust:\nsafe, fast, productive.\nPick three.";
    let sensitive = Config {
        query: "rust".to_string(),
        file_path: "poem.txt".to_string(),
        ignore_case: false,
    };
    assert!(run_search(&sensitive, contents).is_empty());
    let insensitive = Config {
        query: "rust".to_string(),
        file_path: "poem.txt".to_string(),
        ignore_case: true,
    };
    assert_eq!(vec!["Rust:"], run_search(&insensitive, contents));
}
