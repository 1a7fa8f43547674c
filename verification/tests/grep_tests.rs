use jobpool::grep::{search, search_case_insensitive, split_lines, Config};
use jobpool::strings::{str_contains, str_eq};

#[test]
fn case_sensitive() {
    let query = "duct";
    let contents = "\
Rust:
safe, fast, productive.
Pick three.
Duct tape.";

    assert_eq!(vec!["safe, fast, productive."], search(query, contents));
}

#[test]
fn case_insensitive() {
    let query = "rUsT";
    let contents = "\
Rust:
safe, fast, productive.
Pick three.
Trust me.";

    assert_eq!(vec!["Rust:", "Trust me."], search_case_insensitive(query, contents));
}

#[test]
fn split_lines_strips_line_endings() {
    let lines = split_lines("one\ntwo\r\nthree");
    assert_eq!(lines, vec!["one", "two", "three"]);
    let empty: Vec<&str> = Vec::new();
    assert_eq!(split_lines(""), empty);
    assert_eq!(split_lines("tail\n"), vec!["tail"]);
    assert_eq!(split_lines("a\n\nb"), vec!["a", "", "b"]);
}

#[test]
fn substring_search_finds_needles() {
    assert!(str_contains("hello world", "lo wo"));
    assert!(str_contains("hello", ""));
    assert!(str_contains("", ""));
    assert!(!str_contains("hello", "world"));
    assert!(!str_contains("ab", "abc"));
    assert!(str_eq("same", "same"));
    assert!(!str_eq("same", "Same"));
}

#[test]
fn config_wants_a_query() {
    let args = vec![String::from("minigrep")];
    let err = Config::new(&args, false).unwrap_err();
    assert_eq!(err, "Didn't get a query string");
}

#[test]
fn config_wants_a_filename() {
    let args = vec![String::from("minigrep"), String::from("needle")];
    let err = Config::new(&args, false).unwrap_err();
    assert_eq!(err, "Didn't get a file name");
}

#[test]
fn config_reads_query_file_and_case() {
    let args = vec![
        String::from("minigrep"),
        String::from("needle"),
        String::from("haystack.txt"),
    ];
    let config = Config::new(&args, false).unwrap();
    assert_eq!(config.query, "needle");
    assert_eq!(config.filename, "haystack.txt");
    assert!(config.case_sensitive);

    let config = Config::new(&args, true).unwrap();
    assert!(!config.case_sensitive);

    let mut args = args;
    args.push(String::from("false"));
    let config = Config::new(&args, false).unwrap();
    assert!(!config.case_sensitive);
}
