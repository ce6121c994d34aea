use staticsync::cli::{
    read_command_line, CommandLine, Settings, DEFAULT_BUFFER_SIZE, DEFAULT_DELAY_SECONDS,
};
use staticsync::config::{declared_entries, declared_paths};
use staticsync::decimal::{parse_decimal, parse_size};
use staticsync::error::SetupError;
use staticsync::pair::{FilePair, PathFacts, Presence};
use staticsync::reconciler::Side;

fn arguments(words: &[&str]) -> Vec<String> {
    words.iter().map(|word| word.to_string()).collect()
}

fn nothing_given() -> CommandLine {
    CommandLine { help: false, verbose: false, once: false, size: None, config: None, delay: None }
}

fn json(text: &str) -> serde_json::Value {
    serde_json::from_str(text).unwrap()
}

const FOUND: PathFacts = PathFacts { absolute: true, presence: Presence::File };

#[test]
fn setup_errors_show_their_text() {
    assert_eq!(SetupError::MalformedCLI("bad flag".to_string()).to_string(), "bad flag");
    assert_eq!(SetupError::ConfigLoadError("no file".to_string()).to_string(), "no file");
    assert_eq!(SetupError::MalformedCLI(String::new()).to_string(), "");
}

#[test]
fn a_json_error_becomes_a_config_load_error() {
    let error = serde_json::from_str::<serde_json::Value>("{\"files\": [").unwrap_err();
    let text = error.to_string();
    assert_eq!(text, "EOF while parsing a list at line 1 column 11");
    assert_eq!(SetupError::from(error), SetupError::ConfigLoadError(text));
}

#[test]
fn an_io_error_becomes_a_config_load_error() {
    let error = std::io::Error::new(std::io::ErrorKind::NotFound, "nothing there");
    assert_eq!(
        SetupError::from(error),
        SetupError::ConfigLoadError("nothing there".to_string())
    );
}

#[test]
fn decimal_numbers_are_read_as_the_standard_library_reads_them() {
    assert_eq!(parse_decimal("0"), Some(0));
    assert_eq!(parse_decimal("8096"), Some(8096));
    assert_eq!(parse_decimal("007"), Some(7));
    assert_eq!(parse_decimal("+5"), Some(5));
    assert_eq!(parse_decimal("18446744073709551615"), Some(u64::MAX));
    assert_eq!(parse_decimal("18446744073709551616"), None);
    assert_eq!(parse_decimal("99999999999999999999999999"), None);
    for text in [
        "", "+", "-", "-1", "-0", "++1", "+-1", " 1", "1 ", "1_000", "1.5", "0x10", "ten", "1a",
        "a1", "\u{663}", "1\u{663}", "+\u{e9}", "\u{ff11}", "12\n", "0", "00", "+0", "+000123",
        "4294967295", "4294967296", "18446744073709551614", "18446744073709551615",
        "18446744073709551616", "18446744073709551620", "28446744073709551615",
        "000000000000000000000000000000000000042", "9223372036854775808",
    ] {
        assert_eq!(parse_decimal(text), text.parse::<u64>().ok(), "{:?}", text);
        assert_eq!(parse_size(text), text.parse::<usize>().ok(), "{:?}", text);
    }
}

#[test]
fn the_command_line_is_read_option_by_option() {
    let line = read_command_line(&arguments(&[
        "-v", "--once", "-s", "4096", "--config", "/etc/pairs.json", "-d", "3",
    ]));
    assert_eq!(
        line,
        Ok(CommandLine {
            help: false,
            verbose: true,
            once: true,
            size: Some("4096".to_string()),
            config: Some("/etc/pairs.json".to_string()),
            delay: Some("3".to_string()),
        })
    );
    assert_eq!(read_command_line(&arguments(&[])), Ok(nothing_given()));
    let help = read_command_line(&arguments(&["-h"])).unwrap();
    assert!(help.help);
    let joined = read_command_line(&arguments(&["-ov", "--size=12", "-cfile"])).unwrap();
    assert!(joined.once && joined.verbose);
    assert_eq!(joined.size, Some("12".to_string()));
    assert_eq!(joined.config, Some("file".to_string()));
}

#[test]
fn a_command_line_that_does_not_fit_is_malformed() {
    assert_eq!(
        read_command_line(&arguments(&["--frobnicate"])),
        Err(SetupError::MalformedCLI("Unrecognized option: 'frobnicate'".to_string()))
    );
    assert_eq!(
        read_command_line(&arguments(&["-s"])),
        Err(SetupError::MalformedCLI("Argument to option 's' missing".to_string()))
    );
    assert_eq!(
        read_command_line(&arguments(&["-d", "1", "--delay", "2"])),
        Err(SetupError::MalformedCLI("Option 'delay' given more than once".to_string()))
    );
    assert_eq!(
        read_command_line(&arguments(&["--once=yes"])),
        Err(SetupError::MalformedCLI("Option 'once' does not take an argument".to_string()))
    );
}

#[test]
fn settings_fall_back_to_the_defaults() {
    assert_eq!(DEFAULT_BUFFER_SIZE, 8096);
    assert_eq!(DEFAULT_DELAY_SECONDS, 10);
    let line = nothing_given();
    assert_eq!(line.buffer_size(), Ok(8096));
    assert_eq!(line.delay_seconds(), Ok(10));
    assert_eq!(
        line.settings(Some("/home/me/.staticsync.json".to_string())),
        Ok(Settings {
            verbose: false,
            once: false,
            buffer_size: 8096,
            config_file: "/home/me/.staticsync.json".to_string(),
            delay_seconds: 10,
        })
    );
}

#[test]
fn settings_take_what_was_given() {
    let line = CommandLine {
        help: false,
        verbose: true,
        once: true,
        size: Some("65536".to_string()),
        config: Some("pairs.json".to_string()),
        delay: Some("0".to_string()),
    };
    let expected = Settings {
        verbose: true,
        once: true,
        buffer_size: 65536,
        config_file: "pairs.json".to_string(),
        delay_seconds: 0,
    };
    assert_eq!(line.settings(None), Ok(expected.clone()));
    assert_eq!(line.settings(Some("/home/me/.staticsync.json".to_string())), Ok(expected));
    assert_eq!(line.config_file(None), Ok("pairs.json".to_string()));
}

#[test]
fn unusable_values_are_setup_errors() {
    let mut line = nothing_given();
    line.size = Some("8k".to_string());
    assert_eq!(
        line.buffer_size(),
        Err(SetupError::MalformedCLI("Cache size invalid.".to_string()))
    );
    let mut line = nothing_given();
    line.delay = Some("-1".to_string());
    assert_eq!(
        line.delay_seconds(),
        Err(SetupError::MalformedCLI("Invalid interval number".to_string()))
    );
    assert_eq!(
        nothing_given().config_file(None),
        Err(SetupError::ConfigLoadError("Missing config file".to_string()))
    );
}

#[test]
fn the_first_unusable_value_is_the_one_reported() {
    let mut line = nothing_given();
    line.size = Some("".to_string());
    line.delay = Some("soon".to_string());
    assert_eq!(
        line.settings(None),
        Err(SetupError::MalformedCLI("Cache size invalid.".to_string()))
    );
    line.size = None;
    assert_eq!(
        line.settings(None),
        Err(SetupError::ConfigLoadError("Missing config file".to_string()))
    );
    assert_eq!(
        line.settings(Some("fallback.json".to_string())),
        Err(SetupError::MalformedCLI("Invalid interval number".to_string()))
    );
}

#[test]
fn entries_are_the_items_of_files() {
    let config = json(r#"{"files": [["/a", "/b"], ["/c", "/d", "ignored", 5]], "other": 1}"#);
    let entries = declared_entries(&config).unwrap();
    assert_eq!(entries.len(), 2);
    assert_eq!(declared_paths(&entries[0]), Some(("/a".to_string(), "/b".to_string())));
    assert_eq!(declared_paths(&entries[1]), Some(("/c".to_string(), "/d".to_string())));
    assert_eq!(declared_entries(&json(r#"{"files": []}"#)).map(|found| found.len()), Some(0));
}

#[test]
fn a_document_without_a_list_of_files_has_no_entries() {
    for text in [r#"{}"#, r#"{"file": []}"#, r#"{"files": {}}"#, r#"{"files": "a"}"#, r#"[]"#, "7"]
    {
        assert!(declared_entries(&json(text)).is_none(), "{}", text);
    }
}

#[test]
fn an_entry_must_start_with_two_strings() {
    for text in [
        r#"[]"#, r#"["/a"]"#, r#"["/a", 1]"#, r#"[1, "/b"]"#, r#"[null, null]"#,
        r#"{"a": "/a", "b": "/b"}"#, r#""/a""#, r#"[["/a"], "/b"]"#,
    ] {
        assert_eq!(declared_paths(&json(text)), None, "{}", text);
    }
    assert_eq!(declared_paths(&json(r#"["", ""]"#)), Some((String::new(), String::new())));
}

#[test]
fn presence_is_made_of_two_answers() {
    assert_eq!(Presence::of(true, true), Presence::Directory);
    assert_eq!(Presence::of(true, false), Presence::Directory);
    assert_eq!(Presence::of(false, true), Presence::File);
    assert_eq!(Presence::of(false, false), Presence::Missing);
}

#[test]
fn a_checked_pair_keeps_its_paths() {
    let pair = FilePair::checked("/a".to_string(), FOUND, "/b".to_string(), FOUND, false).unwrap();
    assert_eq!(pair.side_a(), "/a");
    assert_eq!(pair.side_b(), "/b");
    assert_eq!(pair.path(Side::A), "/a");
    assert_eq!(pair.path(Side::B), "/b");
    assert_eq!(pair.clone(), pair);
}

#[test]
fn each_check_has_its_complaint() {
    let relative = PathFacts { absolute: false, presence: Presence::File };
    let directory = PathFacts { absolute: true, presence: Presence::Directory };
    let missing = PathFacts { absolute: true, presence: Presence::Missing };
    let complaint = |side_a: &str, facts_a, side_b: &str, facts_b, same| {
        FilePair::checked(side_a.to_string(), facts_a, side_b.to_string(), facts_b, same)
            .unwrap_err()
    };
    let config = |text: &str| SetupError::ConfigLoadError(text.to_string());
    assert_eq!(complaint("a", relative, "/b", FOUND, false), config("Path must be absolute: a"));
    assert_eq!(complaint("/a", FOUND, "b", relative, false), config("Path must be absolute: b"));
    assert_eq!(
        complaint("/a", directory, "/b", FOUND, false),
        config("Path \"/a\" is a directory!")
    );
    assert_eq!(
        complaint("/a", FOUND, "/b", directory, false),
        config("Path \"/b\" is a directory!")
    );
    assert_eq!(complaint("/a", FOUND, "/a", FOUND, false), config("Duplicated path: /a"));
    assert_eq!(complaint("/a", FOUND, "/a/", FOUND, true), config("Duplicated path: /a"));
    assert_eq!(
        complaint("/a", missing, "/b", FOUND, false),
        config("File \"/a\" does not exist!")
    );
    assert_eq!(
        complaint("/a", FOUND, "/b", missing, false),
        config("File \"/b\" does not exist!")
    );
}

#[test]
fn the_checks_come_in_a_fixed_order() {
    let relative_directory = PathFacts { absolute: false, presence: Presence::Directory };
    let directory = PathFacts { absolute: true, presence: Presence::Directory };
    let missing = PathFacts { absolute: true, presence: Presence::Missing };
    let complaint = |side_a: &str, facts_a, side_b: &str, facts_b, same| {
        FilePair::checked(side_a.to_string(), facts_a, side_b.to_string(), facts_b, same)
            .unwrap_err()
            .to_string()
    };
    assert_eq!(complaint("/a", directory, "b", relative_directory, true), "Path must be absolute: b");
    assert_eq!(complaint("/a", missing, "/a", directory, true), "Path \"/a\" is a directory!");
    assert_eq!(complaint("/a", missing, "/a", missing, false), "Duplicated path: /a");
    assert_eq!(complaint("/a", missing, "/b", missing, false), "File \"/a\" does not exist!");
}

#[test]
fn new_pairs_are_checked_against_the_platform() {
    let pair = |side_a: &str, presence_a, side_b: &str, presence_b| {
        FilePair::new(side_a.to_string(), presence_a, side_b.to_string(), presence_b)
    };
    let config = |text: &str| Err(SetupError::ConfigLoadError(text.to_string()));
    let made = pair("/srv/a.txt", Presence::File, "/srv/b.txt", Presence::File).unwrap();
    assert_eq!((made.side_a(), made.side_b()), ("/srv/a.txt", "/srv/b.txt"));
    assert_eq!(
        pair("a.txt", Presence::File, "/srv/b.txt", Presence::File),
        config("Path must be absolute: a.txt")
    );
    assert_eq!(
        pair("/srv/a.txt", Presence::File, "./b.txt", Presence::File),
        config("Path must be absolute: ./b.txt")
    );
    assert_eq!(
        pair("/srv", Presence::Directory, "/srv/b.txt", Presence::File),
        config("Path \"/srv\" is a directory!")
    );
    assert_eq!(
        pair("/srv/a.txt", Presence::File, "/srv/a.txt", Presence::File),
        config("Duplicated path: /srv/a.txt")
    );
    assert_eq!(
        pair("/srv/a.txt", Presence::File, "/srv//a.txt", Presence::File),
        config("Duplicated path: /srv/a.txt")
    );
    assert_eq!(
        pair("/srv/a.txt", Presence::File, "/srv/b.txt", Presence::Missing),
        config("File \"/srv/b.txt\" does not exist!")
    );
}
