use rust_tour::minigrep::{run, search, search_case_insensitive, Config};

#[test]
#[should_panic(expected = "Didn't get a query string")]
fn config_new_without_query_should_fail() {
    let args = vec![String::from("program name")];
    Config::new(args, true).unwrap();
}

#[test]
#[should_panic(expected = "Didn't get a file name")]
fn config_new_without_filename_should_fail() {
    let args = vec![String::from("program name"), String::from("text")];
    Config::new(args, true).unwrap();
}

#[test]
fn config_new_without_query_gives_the_error() {
    let args = vec![String::from("program name")];
    assert_eq!(Config::new(args, true), Err("Didn't get a query string"));
    assert_eq!(Config::new(Vec::new(), true), Err("Didn't get a query string"));
}

#[test]
fn config_new_without_filename_gives_the_error() {
    let args = vec![String::from("program name"), String::from("text")];
    assert_eq!(Config::new(args, true), Err("Didn't get a file name"));
}

#[test]
fn config_new_with_3_args_should_pass() {
    let args = vec![
        String::from("program name"),
        String::from("text"),
        String::from("filename"),
    ];
    let result = Config::new(args, true).unwrap();
    assert_eq!(
        result,
        Config {
            query: String::from("text"),
            filename: String::from("filename"),
            case_sensitive: true
        }
    );
}

#[test]
fn config_new_ignores_what_follows_the_filename() {
    let args = vec![
        String::from("program name"),
        String::from("text"),
        String::from("filename"),
        String::from("more"),
    ];
    let result = Config::new(args, false).unwrap();
    assert_eq!(
        result,
        Config {
            query: String::from("text"),
            filename: String::from("filename"),
            case_sensitive: false
        }
    );
}

#[test]
fn run_with_valid_filename_should_pass() {
    let args = vec![
        String::from("program name"),
        String::from("text"),
        String::from("poem.txt"),
    ];
    let result = Config::new(args, true).unwrap();
    let poem = "I'm nobody! Who are you?\nAre you nobody, too?\nThen there's a pair of us - don't tell!\nThey'd banish us, you know.\n";
    let response = run(&result, poem);
    assert_eq!(response, Vec::<&str>::new());
}

#[test]
fn run_follows_the_case_setting() {
    let contents = "Rust:\nsafe, fast, productive.\nTrust me.";
    let sensitive = Config {
        query: String::from("rust"),
        filename: String::from("poem.txt"),
        case_sensitive: true,
    };
    assert_eq!(run(&sensitive, contents), vec!["Trust me."]);
    let insensitive = Config {
        query: String::from("rust"),
        filename: String::from("poem.txt"),
        case_sensitive: false,
    };
    assert_eq!(run(&insensitive, contents), vec!["Rust:", "Trust me."]);
}

#[test]
fn search_should_return_one_result() {
    let query = "duct";
    let contents = "\
Rust:
safe, fast, productive.
Pick three.";

    assert_eq!(vec!["safe, fast, productive."], search(query, contents));
}

#[test]
fn search_case_sensitive() {
    let query = "duct";
    let contents = "\
Rust:
safe, fast, productive.
Pick three.
Duct tape.";

    assert_eq!(vec!["safe, fast, productive."], search(query, contents));
}

#[test]
fn case_insensitive() {
    let query = "rUsT";
    let contents = "\
Rust:
safe, fast, productive.
Pick three.
Trust me.";

    assert_eq!(
        vec!["Rust:", "Trust me."],
        search_case_insensitive(query, contents)
    )
}

#[test]
fn search_splits_at_line_feeds_and_drops_the_line_endings() {
    let contents = "one\r\ntwo\n\nthree one\r";
    assert_eq!(search("", contents), vec!["one", "two", "", "three one\r"]);
    assert_eq!(search("one", contents), vec!["one", "three one\r"]);
    assert_eq!(search("o\r", contents), Vec::<&str>::new());
    assert_eq!(search("one\r", contents), vec!["three one\r"]);
}

#[test]
fn search_of_an_empty_text_finds_nothing() {
    assert_eq!(search("", ""), Vec::<&str>::new());
    assert_eq!(search("", "\n"), vec![""]);
    assert_eq!(search_case_insensitive("", ""), Vec::<&str>::new());
}

#[test]
fn search_finds_every_line_that_holds_the_query_in_order() {
    let contents = "ab\nba\nabab\nb";
    assert_eq!(search("ab", contents), vec!["ab", "abab"]);
    assert_eq!(search("b", contents), vec!["ab", "ba", "abab", "b"]);
    assert_eq!(search("abc", contents), Vec::<&str>::new());
}

#[test]
fn case_insensitive_search_lowers_both_sides() {
    let contents = "STRASSE\nstrasse\nStraße";
    assert_eq!(
        search_case_insensitive("STRASSE", contents),
        vec!["STRASSE", "strasse"]
    );
    assert_eq!(search("STRASSE", contents), vec!["STRASSE"]);
}
