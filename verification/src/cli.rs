//! Resolution of the command-line options: selecting the single source of
//! input text, normalizing file contents, deriving the run configuration,
//! and mapping the verbosity count to a log level.

use vstd::prelude::*;

use crate::config::identifier_default;
use crate::config::Config;

verus! {

/// The command-line options, as parsed from the argument vector.
pub struct Opts {
    /// Inline input text.
    pub text: Option<String>,
    /// Number of verbosity flags; determines the minimum log level.
    pub verbose: u8,
    /// Turns off the interactive confirmation step downstream.
    pub disable_human_checker: bool,
    /// Cracking timeout in seconds; defaults to 5 when absent.
    pub cracking_timeout: Option<u32>,
    /// Present iff the api-mode flag was supplied; its payload is ignored.
    pub api_mode: Option<bool>,
    /// Path to a file containing the input text.
    pub file: Option<String>,
}

/// The user-facing input errors. All are fatal at this layer: the caller
/// prints the message and exits with a non-zero status.
#[derive(Clone, Copy, PartialEq, Eq, Structural, Debug)]
pub enum CliError {
    /// Neither inline text nor a file path was supplied.
    NoInputProvided,
    /// Both inline text and a file path were supplied.
    AmbiguousInput,
    /// The file could not be opened, fully read, or decoded as text.
    FileUnreadable,
    /// The command-line flags failed to parse.
    MalformedArguments,
}

/// The single source of the input text, once resolved.
#[derive(Debug)]
pub enum InputSource {
    /// Inline text, to be used verbatim.
    Inline(String),
    /// Path of a file whose contents, after trailing-terminator
    /// normalization, are the input text.
    FromFile(String),
}

/// Selects the single source of the input text. Inline text is used verbatim;
/// a file path is handed back for the caller to read. Exactly one of the two
/// must be present.
pub fn select_input(text: Option<String>, file: Option<String>) -> (r: Result<
    InputSource,
    CliError,
>)
    ensures
        text is None && file is None ==> r == Err::<InputSource, CliError>(
            CliError::NoInputProvided,
        ),
        text is Some && file is Some ==> r == Err::<InputSource, CliError>(
            CliError::AmbiguousInput,
        ),
        text is Some && file is None ==> r == Ok::<InputSource, CliError>(
            InputSource::Inline(text.unwrap()),
        ),
        text is None && file is Some ==> r == Ok::<InputSource, CliError>(
            InputSource::FromFile(file.unwrap()),
        ),
{
    match (text, file) {
        (None, None) => Err(CliError::NoInputProvided),
        (Some(_), Some(_)) => Err(CliError::AmbiguousInput),
        (Some(t), None) => Ok(InputSource::Inline(t)),
        (None, Some(f)) => Ok(InputSource::FromFile(f)),
    }
}

/// The contents of a text file with at most one trailing line terminator
/// removed: a final `"\r\n"`, or else a final `"\n"` or `"\r"`, if present.
pub open spec fn strip_trailing_terminator(s: Seq<char>) -> Seq<char> {
    if s.len() >= 2 && s[s.len() - 2] == '\r' && s[s.len() - 1] == '\n' {
        s.subrange(0, s.len() - 2)
    } else if s.len() >= 1 && (s[s.len() - 1] == '\n' || s[s.len() - 1] == '\r') {
        s.subrange(0, s.len() - 1)
    } else {
        s
    }
}

/// Normalizes the contents of a text file into the input text: strips exactly
/// one trailing line terminator, if present, and nothing else.
pub fn normalize_file_contents(contents: &str) -> (r: String)
    ensures
        r@ == strip_trailing_terminator(contents@),
{
    let len = contents.unicode_len();
    if len >= 2 && contents.get_char(len - 2) == '\r' && contents.get_char(len - 1) == '\n' {
        String::from_str(contents.substring_char(0, len - 2))
    } else if len >= 1 && (contents.get_char(len - 1) == '\n' || contents.get_char(len - 1)
        == '\r') {
        String::from_str(contents.substring_char(0, len - 1))
    } else {
        String::from_str(contents)
    }
}

/// A string written to a file with a single newline appended comes back
/// unchanged: the normalization strips exactly that newline, not more. The
/// string itself must not end in a carriage return, since the appended
/// newline would then complete a two-character terminator.
pub proof fn lemma_strip_appended_newline(s: Seq<char>)
    requires
        s.len() == 0 || s[s.len() - 1] != '\r',
    ensures
        strip_trailing_terminator(s.push('\n')) == s,
{
    let t = s.push('\n');
    assert(t[t.len() - 1] == '\n');
    if s.len() >= 1 {
        assert(t[t.len() - 2] == s[s.len() - 1]);
    }
    assert(t.subrange(0, t.len() - 1) =~= s);
}

/// An internal (non-trailing) newline is preserved verbatim: the
/// normalization touches only the trailing terminator, so every character
/// before it, a newline included, keeps its position.
pub proof fn lemma_internal_newline_preserved(s: Seq<char>, i: int)
    requires
        0 <= i,
        i + 1 < s.len(),
        s[i] == '\n',
    ensures
        i < strip_trailing_terminator(s).len(),
        strip_trailing_terminator(s)[i] == '\n',
{
}

/// Minimum log level implied by the number of verbosity flags.
#[derive(Clone, Copy, PartialEq, Eq, Structural, Debug)]
pub enum LogLevel {
    Warn,
    Info,
    Debug,
    Trace,
}

/// Maps the verbosity count onto the minimum log level:
/// 0 is Warn, 1 is Info, 2 is Debug, 3 or more is Trace.
pub fn min_log_level(verbose: u8) -> (level: LogLevel)
    ensures
        verbose == 0 ==> level == LogLevel::Warn,
        verbose == 1 ==> level == LogLevel::Info,
        verbose == 2 ==> level == LogLevel::Debug,
        verbose >= 3 ==> level == LogLevel::Trace,
{
    match verbose {
        0 => LogLevel::Warn,
        1 => LogLevel::Info,
        2 => LogLevel::Debug,
        _ => LogLevel::Trace,
    }
}

/// Turns the parsed options and the resolved input text into the final
/// `(text, Config)` pair. Defaults are applied here: the timeout falls back
/// to 5 seconds, the human checker is on unless disabled, and api mode is on
/// iff the flag was supplied at all.
pub fn cli_args_into_config_struct(opts: Opts, text: String) -> (r: (String, Config))
    ensures
        r.0 == text,
        r.1.verbose == opts.verbose,
        r.1.human_checker_on == !opts.disable_human_checker,
        opts.cracking_timeout is None ==> r.1.timeout == 5,
        opts.cracking_timeout is Some ==> r.1.timeout == opts.cracking_timeout.unwrap(),
        r.1.api_mode == (opts.api_mode is Some),
{
    let timeout: u32 = match opts.cracking_timeout {
        None => 5,
        Some(t) => t,
    };
    (
        text,
        Config {
            verbose: opts.verbose,
            lemmeknow_config: identifier_default(),
            human_checker_on: !opts.disable_human_checker,
            timeout,
            api_mode: opts.api_mode.is_some(),
        },
    )
}

} // verus!
