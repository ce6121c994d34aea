//! The command line: which options there are and what their values mean.

use vstd::prelude::*;
use vstd::string::*;
use crate::decimal::{decimal_up_to, parse_decimal, parse_size};
use crate::error::SetupError;

verus! {

/// The size of the read buffer for fingerprints where none is asked for.
pub const DEFAULT_BUFFER_SIZE: usize = 8096;

/// The seconds between two passes where none are asked for.
pub const DEFAULT_DELAY_SECONDS: u64 = 10;

/// `getopts::Options`: the options that a program takes. Opaque.
#[verifier::external_type_specification]
#[verifier::external_body]
pub struct ExOptions(getopts::Options);

/// `getopts::Matches`: what was found in the arguments. Opaque.
#[verifier::external_type_specification]
#[verifier::external_body]
pub struct ExMatches(getopts::Matches);

/// `getopts::Fail`: why the arguments do not fit the options. Opaque.
#[verifier::external_type_specification]
#[verifier::external_body]
pub struct ExFail(getopts::Fail);

/// Whether every option of `options` has a short or a long name. `parse`
/// panics on a set of options where one has neither.
pub uninterp spec fn all_named(options: getopts::Options) -> bool;

/// Whether `options` holds an option that goes by `name`.
pub uninterp spec fn declares(options: getopts::Options, name: Seq<char>) -> bool;

/// Whether `matches` came from a set of options with one that goes by `name`.
/// The methods that look an option up panic on a name that is not known.
pub uninterp spec fn knows(matches: getopts::Matches, name: Seq<char>) -> bool;

/// What `parse` gives for `options` and `arguments`.
pub uninterp spec fn parsed(options: getopts::Options, arguments: Seq<Seq<char>>) -> Result<
    getopts::Matches,
    getopts::Fail,
>;

/// Whether the option that goes by `name` was given: what `opt_present`
/// answers.
pub uninterp spec fn given(matches: getopts::Matches, name: Seq<char>) -> bool;

/// The value that the option that goes by `name` was given with: what
/// `opt_str` answers.
pub uninterp spec fn value_of(matches: getopts::Matches, name: Seq<char>) -> Option<Seq<char>>;

/// What is wrong with the arguments, in words: what `to_string` gives for
/// `fail`.
pub uninterp spec fn fail_text(fail: getopts::Fail) -> Seq<char>;

/// Whether `short_name` and `long_name` can name one option: one ASCII
/// character, and more than one character. (The crate also takes an empty
/// string for either; no option here is declared so.)
pub open spec fn names_an_option(short_name: Seq<char>, long_name: Seq<char>) -> bool {
    &&& short_name.len() == 1
    &&& '\0' <= short_name[0] <= '\u{7f}'
    &&& long_name.len() > 1
}

/// `Options::new`: a set of no options.
#[verifier::external_body]
fn options_new() -> (options: getopts::Options)
    ensures
        all_named(options),
{
    getopts::Options::new()
}

/// `Options::optopt`: adds an option that takes a value and may be left out.
/// What was declared stays declared, and the new option goes by its long name.
#[verifier::external_body]
fn options_optopt(
    options: &mut getopts::Options,
    short_name: &str,
    long_name: &str,
    description: &str,
    hint: &str,
)
    requires
        names_an_option(short_name@, long_name@),
    ensures
        all_named(*old(options)) ==> all_named(*final(options)),
        declares(*final(options), long_name@),
        forall|name: Seq<char>| #[trigger]
            declares(*old(options), name) ==> declares(*final(options), name),
{
    options.optopt(short_name, long_name, description, hint);
}

/// `Options::optflag`: adds an option that takes no value and may be left out.
/// What was declared stays declared, and the new option goes by its long name.
#[verifier::external_body]
fn options_optflag(
    options: &mut getopts::Options,
    short_name: &str,
    long_name: &str,
    description: &str,
)
    requires
        names_an_option(short_name@, long_name@),
    ensures
        all_named(*old(options)) ==> all_named(*final(options)),
        declares(*final(options), long_name@),
        forall|name: Seq<char>| #[trigger]
            declares(*old(options), name) ==> declares(*final(options), name),
{
    options.optflag(short_name, long_name, description);
}

/// `Options::parse`: reads the arguments against the options. The matches
/// know every name that the options declare.
#[verifier::external_body]
fn options_parse(options: &getopts::Options, arguments: &Vec<String>) -> (result: Result<
    getopts::Matches,
    getopts::Fail,
>)
    requires
        all_named(*options),
    ensures
        result == parsed(*options, arguments.deep_view()),
        result matches Ok(matches) ==> forall|name: Seq<char>| #[trigger]
            declares(*options, name) ==> knows(matches, name),
{
    options.parse(arguments)
}

/// `Matches::opt_present`: whether the option was given.
#[verifier::external_body]
fn matches_opt_present(matches: &getopts::Matches, name: &str) -> (present: bool)
    requires
        knows(*matches, name@),
    ensures
        present == given(*matches, name@),
{
    matches.opt_present(name)
}

/// `Matches::opt_str`: the value that the option was given with, if any.
#[verifier::external_body]
fn matches_opt_str(matches: &getopts::Matches, name: &str) -> (value: Option<String>)
    requires
        knows(*matches, name@),
    ensures
        (match value {
            Some(text) => value_of(*matches, name@) == Some(text@),
            None => value_of(*matches, name@) is None,
        }),
{
    matches.opt_str(name)
}

/// `to_string` on a `Fail`: what is wrong with the arguments.
#[verifier::external_body]
fn fail_to_string(fail: &getopts::Fail) -> (text: String)
    ensures
        text@ == fail_text(*fail),
{
    fail.to_string()
}

/// The options as they were given, before their values are read.
#[derive(Debug, Clone, PartialEq, Eq)]
pub struct CommandLine {
    /// `-h`, `--help`: show the usage and stop.
    pub help: bool,
    /// `-v`, `--verbose`: say more while working.
    pub verbose: bool,
    /// `-o`, `--once`: make one pass only.
    pub once: bool,
    /// `-s`, `--size`: the size of the read buffer for fingerprints, in bytes.
    pub size: Option<String>,
    /// `-c`, `--config`: the configuration file.
    pub config: Option<String>,
    /// `-d`, `--delay`: the seconds between two passes.
    pub delay: Option<String>,
}

/// What the program runs with.
#[derive(Debug, Clone, PartialEq, Eq)]
pub struct Settings {
    pub verbose: bool,
    pub once: bool,
    pub buffer_size: usize,
    pub config_file: String,
    pub delay_seconds: u64,
}

/// Whether `options` are options of this program: each of them has a name,
/// and the six long names are among them.
pub open spec fn program_options(options: getopts::Options) -> bool {
    &&& all_named(options)
    &&& declares(options, "config"@)
    &&& declares(options, "delay"@)
    &&& declares(options, "size"@)
    &&& declares(options, "verbose"@)
    &&& declares(options, "once"@)
    &&& declares(options, "help"@)
}

/// The text of an option's value, if it has one.
pub open spec fn text_of(value: Option<String>) -> Option<Seq<char>> {
    match value {
        Some(text) => Some(text@),
        None => None,
    }
}

/// Whether `result` is the reading of what parsing gave: a failure is a
/// malformed command line with the failure's text, and matches are asked for
/// each option by its long name.
pub open spec fn read_from(
    result: Result<CommandLine, SetupError>,
    outcome: Result<getopts::Matches, getopts::Fail>,
) -> bool {
    match outcome {
        Err(fail) => {
            &&& result matches Err(SetupError::MalformedCLI(text))
            &&& text@ == fail_text(fail)
        },
        Ok(matches) => {
            &&& result matches Ok(line)
            &&& line.help == given(matches, "help"@)
            &&& line.verbose == given(matches, "verbose"@)
            &&& line.once == given(matches, "once"@)
            &&& text_of(line.size) == value_of(matches, "size"@)
            &&& text_of(line.config) == value_of(matches, "config"@)
            &&& text_of(line.delay) == value_of(matches, "delay"@)
        },
    }
}

/// Reads the arguments that follow the program's name: parses them against
/// the program's options and asks the matches for each option. Arguments that
/// do not fit the options are a malformed command line.
pub fn read_command_line(arguments: &Vec<String>) -> (result: Result<CommandLine, SetupError>)
    ensures
        exists|options: getopts::Options| #[trigger]
            program_options(options) && read_from(
                result,
                parsed(options, arguments.deep_view()),
            ),
{
    proof {
        reveal_strlit("c");
        reveal_strlit("config");
        reveal_strlit("d");
        reveal_strlit("delay");
        reveal_strlit("s");
        reveal_strlit("size");
        reveal_strlit("v");
        reveal_strlit("verbose");
        reveal_strlit("o");
        reveal_strlit("once");
        reveal_strlit("h");
        reveal_strlit("help");
    }
    let mut options = options_new();
    options_optopt(&mut options, "c", "config", "", "");
    options_optopt(&mut options, "d", "delay", "", "");
    options_optopt(&mut options, "s", "size", "", "");
    options_optflag(&mut options, "v", "verbose", "");
    options_optflag(&mut options, "o", "once", "");
    options_optflag(&mut options, "h", "help", "");
    let result = match options_parse(&options, arguments) {
        Err(fail) => Err(SetupError::MalformedCLI(fail_to_string(&fail))),
        Ok(matches) => Ok(
            CommandLine {
                help: matches_opt_present(&matches, "help"),
                verbose: matches_opt_present(&matches, "verbose"),
                once: matches_opt_present(&matches, "once"),
                size: matches_opt_str(&matches, "size"),
                config: matches_opt_str(&matches, "config"),
                delay: matches_opt_str(&matches, "delay"),
            },
        ),
    };
    assert(program_options(options));
    assert(read_from(result, parsed(options, arguments.deep_view())));
    result
}

/// The size of the read buffer that `size` asks for.
pub open spec fn buffer_size_of(size: Option<String>) -> Option<usize> {
    match size {
        None => Some(DEFAULT_BUFFER_SIZE),
        Some(text) => match decimal_up_to(text@, usize::MAX as nat) {
            Some(n) => Some(n as usize),
            None => None,
        },
    }
}

/// The seconds between two passes that `delay` asks for.
pub open spec fn delay_seconds_of(delay: Option<String>) -> Option<u64> {
    match delay {
        None => Some(DEFAULT_DELAY_SECONDS),
        Some(text) => match decimal_up_to(text@, u64::MAX as nat) {
            Some(n) => Some(n as u64),
            None => None,
        },
    }
}

/// The configuration file to load: the one asked for, else `fallback`.
pub open spec fn config_file_of(config: Option<String>, fallback: Option<String>) -> Option<
    Seq<char>,
> {
    match (config, fallback) {
        (Some(path), _) => Some(path@),
        (None, Some(path)) => Some(path@),
        (None, None) => None,
    }
}

impl CommandLine {
    /// The size of the read buffer: the value of `size` as a decimal number,
    /// or the default where the option was not given.
    pub fn buffer_size(&self) -> (result: Result<usize, SetupError>)
        ensures
            (match buffer_size_of(self.size) {
                Some(n) => result == Ok::<usize, SetupError>(n),
                None => result matches Err(SetupError::MalformedCLI(text)) && text@
                    == "Cache size invalid."@,
            }),
    {
        match &self.size {
            None => Ok(DEFAULT_BUFFER_SIZE),
            Some(text) => match parse_size(text.as_str()) {
                Some(n) => Ok(n),
                None => Err(SetupError::MalformedCLI(String::from_str("Cache size invalid."))),
            },
        }
    }

    /// The seconds between two passes: the value of `delay` as a decimal
    /// number, or the default where the option was not given.
    pub fn delay_seconds(&self) -> (result: Result<u64, SetupError>)
        ensures
            (match delay_seconds_of(self.delay) {
                Some(n) => result == Ok::<u64, SetupError>(n),
                None => result matches Err(SetupError::MalformedCLI(text)) && text@
                    == "Invalid interval number"@,
            }),
    {
        match &self.delay {
            None => Ok(DEFAULT_DELAY_SECONDS),
            Some(text) => match parse_decimal(text.as_str()) {
                Some(n) => Ok(n),
                None => Err(SetupError::MalformedCLI(String::from_str("Invalid interval number"))),
            },
        }
    }

    /// The configuration file to load: the one that `config` names, else
    /// `fallback`, the file in the user's home directory if there is one.
    pub fn config_file(&self, fallback: Option<String>) -> (result: Result<String, SetupError>)
        ensures
            (match config_file_of(self.config, fallback) {
                Some(path) => result matches Ok(chosen) && chosen@ == path,
                None => result matches Err(SetupError::ConfigLoadError(text)) && text@
                    == "Missing config file"@,
            }),
    {
        match &self.config {
            Some(path) => Ok(path.clone()),
            None => match fallback {
                Some(path) => Ok(path),
                None => Err(SetupError::ConfigLoadError(String::from_str("Missing config file"))),
            },
        }
    }

    /// What the program runs with. Where more than one value is unusable, the
    /// error is that of the first among the buffer size, the configuration
    /// file and the delay.
    pub fn settings(&self, fallback: Option<String>) -> (result: Result<Settings, SetupError>)
        ensures
            (match (
                buffer_size_of(self.size),
                config_file_of(self.config, fallback),
                delay_seconds_of(self.delay),
            ) {
                (None, _, _) => result matches Err(SetupError::MalformedCLI(text)) && text@
                    == "Cache size invalid."@,
                (Some(_), None, _) => result matches Err(SetupError::ConfigLoadError(text))
                    && text@ == "Missing config file"@,
                (Some(_), Some(_), None) => result matches Err(SetupError::MalformedCLI(text))
                    && text@ == "Invalid interval number"@,
                (Some(buffer_size), Some(config_file), Some(delay_seconds)) => {
                    &&& result matches Ok(settings)
                    &&& settings.verbose == self.verbose
                    &&& settings.once == self.once
                    &&& settings.buffer_size == buffer_size
                    &&& settings.config_file@ == config_file
                    &&& settings.delay_seconds == delay_seconds
                },
            }),
    {
        let buffer_size = match self.buffer_size() {
            Ok(n) => n,
            Err(error) => {
                return Err(error);
            },
        };
        let config_file = match self.config_file(fallback) {
            Ok(path) => path,
            Err(error) => {
                return Err(error);
            },
        };
        let delay_seconds = match self.delay_seconds() {
            Ok(n) => n,
            Err(error) => {
                return Err(error);
            },
        };
        Ok(
            Settings {
                verbose: self.verbose,
                once: self.once,
                buffer_size,
                config_file,
                delay_seconds,
            },
        )
    }
}

} // verus!
