use minigrep::search;
use minigrep::search_case_insensitive;

#[test]
fn case_sensitive() {
    let query = "duct";
    let contents = "\
Rust:
safe, fast, productive.
Pick three.";
    assert_eq!(vec!["safe, fast, productive."], search(query, contents));
}

#[test]
fn case_insensitive() {
    let query = "rUsT";
    let contents = "\
Rust:
safe, fast, productive.
Pick three.
Trust me.";

    assert_eq!(
        vec!["Rust:", "Trust me."],
        search_case_insensitive(query, contents)
    );
}

#[test]
fn empty_query_returns_every_line() {
    let contents = "first\nsecond\nthird";
    assert_eq!(vec!["first", "second", "third"], search("", contents));
}

#[test]
fn empty_contents_return_nothing() {
    let r = search("anything", "");
    assert!(r.is_empty());
    let r = search("", "");
    assert!(r.is_empty());
}

#[test]
fn no_match_returns_nothing() {
    let r = search("zebra", "first\nsecond");
    assert!(r.is_empty());
}

#[test]
fn matchers_are_idempotent() {
    let query = "st";
    let contents = "Rust:\nsafe, fast, productive.\nPick three.\nTrust me.";
    assert_eq!(search(query, contents), search(query, contents));
    assert_eq!(
        search_case_insensitive(query, contents),
        search_case_insensitive(query, contents)
    );
}

#[test]
fn insensitive_results_include_sensitive_results() {
    let query = "Rust";
    let contents = "Rust:\nrust is great\nRustaceans\nno match here\nRust:\n";
    let sensitive = search(query, contents);
    let insensitive = search_case_insensitive(query, contents);
    for line in &sensitive {
        let n_sensitive = sensitive.iter().filter(|l| *l == line).count();
        let n_insensitive = insensitive.iter().filter(|l| *l == line).count();
        assert!(n_sensitive <= n_insensitive);
    }
}

#[test]
fn insensitive_returns_original_lines() {
    let contents = "Rust:\nsafe, fast, productive.\nPick three.";
    assert_eq!(
        vec!["safe, fast, productive."],
        search_case_insensitive("DUCT", contents)
    );
}

#[test]
fn trailing_newline_adds_no_line() {
    assert_eq!(vec!["first", "second"], search("", "first\nsecond\n"));
}

#[test]
fn carriage_return_line_endings_are_stripped() {
    assert_eq!(vec!["first", "second"], search("", "first\r\nsecond"));
}

#[test]
fn lone_carriage_return_is_kept() {
    assert_eq!(vec!["first\r"], search("", "first\r"));
}

#[test]
fn duplicate_matching_lines_are_kept() {
    let contents = "same\nother\nsame";
    assert_eq!(vec!["same", "same"], search("same", contents));
}
