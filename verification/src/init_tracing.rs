//! What the server logs, and where a console can watch its tasks.

use vstd::prelude::*;

use tracing_subscriber::filter::{ParseError, Targets};

verus! {

/// What is logged unless the environment says otherwise.
pub const DEFAULT_LOG: &'static str = "info";

/// Where the console can connect: at every address of the machine, on this port.
pub const CONSOLE_PORT: u16 = 6669;

/// How many events wait for the console at most.
pub const CONSOLE_EVENT_BUFFER_CAPACITY: usize = 1_048_576;

/// `tracing_subscriber::filter::Targets`: the directives that say what is logged.
#[verifier::external_type_specification]
#[verifier::external_body]
pub struct ExTargets(tracing_subscriber::filter::Targets);

/// `tracing_subscriber::filter::ParseError`: why a text has no directives in it.
#[verifier::external_type_specification]
#[verifier::external_body]
pub struct ExParseError(tracing_subscriber::filter::ParseError);

/// The directives of a filter as its `Display` writes them, with commas between them,
/// those for the longest targets first.
pub uninterp spec fn targets_text(targets: Targets) -> Seq<char>;

/// What the `Display` of a parse error writes.
pub uninterp spec fn parse_error_text(error: ParseError) -> Seq<char>;

/// The directives that a text stands for, or, if one of them is malformed, what the error
/// says of it.
pub uninterp spec fn parsed_targets(text: Seq<char>) -> Result<Seq<char>, Seq<char>>;

/// `Targets::from_str` of `tracing_subscriber`: the filter that a text stands for, or the
/// error that it is refused with, depends on the text alone. A directive without `=` is a level or a target, so a text
/// without `=` always stands for a filter, and `info` for the one that logs everything up
/// to that level. How other directives are read is not said here.
#[verifier::external_body]
fn parse_targets(text: &str) -> (res: Result<Targets, ParseError>)
    ensures
        res is Ok ==> parsed_targets(text@) == Ok::<Seq<char>, Seq<char>>(
            targets_text(res->Ok_0),
        ),
        res is Err ==> parsed_targets(text@) == Err::<Seq<char>, Seq<char>>(
            parse_error_text(res->Err_0),
        ),
        !text@.contains('=') ==> res is Ok,
        text@ == DEFAULT_LOG@ ==> res is Ok && targets_text(res->Ok_0) == DEFAULT_LOG@,
{
    text.parse::<Targets>()
}

/// Whether a character has the Unicode property `White_Space`.
pub open spec fn is_white_space(c: char) -> bool {
    let code = c as u32;
    ||| 0x9 <= code <= 0xD
    ||| code == 0x20
    ||| code == 0x85
    ||| code == 0xA0
    ||| code == 0x1680
    ||| 0x2000 <= code <= 0x200A
    ||| code == 0x2028
    ||| code == 0x2029
    ||| code == 0x202F
    ||| code == 0x205F
    ||| code == 0x3000
}

/// A text without the characters at its start that `out` holds of.
pub open spec fn strip_start(text: Seq<char>, out: spec_fn(char) -> bool) -> Seq<char>
    decreases text.len(),
{
    if text.len() > 0 && out(text.first()) {
        strip_start(text.drop_first(), out)
    } else {
        text
    }
}

/// A text without the characters at its end that `out` holds of.
pub open spec fn strip_end(text: Seq<char>, out: spec_fn(char) -> bool) -> Seq<char>
    decreases text.len(),
{
    if text.len() > 0 && out(text.last()) {
        strip_end(text.drop_last(), out)
    } else {
        text
    }
}

/// A text without the characters at either end that `out` holds of.
pub open spec fn strip(text: Seq<char>, out: spec_fn(char) -> bool) -> Seq<char> {
    strip_end(strip_start(text, out), out)
}

/// `str::trim`: the text without the white space at either end.
#[verifier::external_body]
fn trim(text: &str) -> (res: &str)
    ensures
        res@ == strip(text@, |c: char| is_white_space(c)),
{
    text.trim()
}

/// `str::trim_matches` with a character: the text without that character at either end,
/// however often it stands there.
#[verifier::external_body]
fn trim_matches(text: &str, quote: char) -> (res: &str)
    ensures
        res@ == strip(text@, |c: char| c == quote),
{
    text.trim_matches(quote)
}

/// The filter that the environment asks for: the text of `RUST_LOG`, or the default, without
/// white space around it and then without quotes around it.
pub open spec fn log_filter(rust_log: Option<Seq<char>>) -> Seq<char> {
    let description = match rust_log {
        Some(text) => text,
        None => DEFAULT_LOG@,
    };
    strip(strip(description, |c: char| is_white_space(c)), |c: char| c == '"')
}

/// Where the console connects, and how many events wait for it.
#[derive(Clone, Copy, Debug, PartialEq, Eq)]
pub struct ConsoleConfig {
    pub ip: [u8; 4],
    pub port: u16,
    pub event_buffer_capacity: usize,
}

impl ConsoleConfig {
    /// Whether this is how the server runs its console.
    pub open spec fn is_default(self) -> bool {
        &&& self.ip@ == seq![0u8, 0u8, 0u8, 0u8]
        &&& self.port == CONSOLE_PORT
        &&& self.event_buffer_capacity == CONSOLE_EVENT_BUFFER_CAPACITY
    }
}

/// What the server sets up before it traces anything.
#[derive(Debug)]
pub struct Tracing {
    pub targets: Targets,
    pub console: ConsoleConfig,
}

/// Why nothing can be traced.
#[derive(Debug)]
pub enum InitTracingError {
    /// `RUST_LOG` holds a malformed directive.
    InvalidTargets(ParseError),
}

/// The text of `RUST_LOG`, or the default, without what stands around the filter in it.
fn clean_log_description(description: &str) -> (res: &str)
    ensures
        res@ == log_filter(Some(description@)),
{
    trim_matches(trim(description), '"')
}

/// What to set up once the filter has been read.
pub fn tracing_with(parsed: Result<Targets, ParseError>) -> (res: Result<
    Tracing,
    InitTracingError,
>)
    ensures
        match parsed {
            Ok(targets) => res matches Ok(tracing) && tracing.targets == targets
                && tracing.console.is_default(),
            Err(error) => res == Err::<Tracing, _>(InitTracingError::InvalidTargets(error)),
        },
{
    match parsed {
        Ok(targets) => {
            let console = ConsoleConfig {
                ip: [0u8, 0u8, 0u8, 0u8],
                port: CONSOLE_PORT,
                event_buffer_capacity: CONSOLE_EVENT_BUFFER_CAPACITY,
            };
            assert(console.ip@ =~= seq![0u8, 0u8, 0u8, 0u8]);
            Ok(Tracing { targets, console })
        },
        Err(error) => Err(InitTracingError::InvalidTargets(error)),
    }
}

/// What to set up for the text of `RUST_LOG`, if the environment has it.
pub fn init_tracing(rust_log: Option<String>) -> (res: Result<Tracing, InitTracingError>)
    ensures
        ({
            let filter = log_filter(
                match rust_log {
                    Some(text) => Some(text@),
                    None => None,
                },
            );
            &&& match res {
                Ok(tracing) => {
                    &&& parsed_targets(filter) == Ok::<Seq<char>, Seq<char>>(
                        targets_text(tracing.targets),
                    )
                    &&& tracing.console.is_default()
                },
                Err(InitTracingError::InvalidTargets(error)) => parsed_targets(filter) == Err::<
                    Seq<char>,
                    Seq<char>,
                >(parse_error_text(error)),
            }
            &&& !filter.contains('=') ==> res is Ok
            &&& filter == DEFAULT_LOG@ ==> (res matches Ok(tracing) && targets_text(tracing.targets)
                == DEFAULT_LOG@)
        }),
        rust_log is None ==> (res matches Ok(tracing) && targets_text(tracing.targets)
            == DEFAULT_LOG@),
{
    let description = match &rust_log {
        Some(text) => text.as_str(),
        None => DEFAULT_LOG,
    };
    proof {
        default_log_is_clean();
    }
    tracing_with(parse_targets(clean_log_description(description)))
}

/// Without `RUST_LOG`, and with `RUST_LOG` set to the default, the default filter is used.
pub proof fn default_log_is_clean()
    ensures
        log_filter(None) == DEFAULT_LOG@,
        log_filter(Some(DEFAULT_LOG@)) == DEFAULT_LOG@,
{
    reveal_strlit("info");
    assert(DEFAULT_LOG@ =~= seq!['i', 'n', 'f', 'o']);
}

} // verus!
