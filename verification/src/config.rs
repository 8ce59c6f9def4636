//! The configuration of a run: what the command line asks for, how many
//! workers are started, and which prefixes are searched for.

use vstd::prelude::*;
use vstd::string::*;
use crate::prefix::TargetPrefixes;

verus! {

/// What the command line asks for.
#[derive(Debug, Clone, PartialEq, Eq)]
pub struct Config {
    /// The number of workers given with `--threads`, if it was given; the
    /// last one counts.
    pub num_threads: Option<usize>,
    /// The prefixes given, in the order of the command line.
    pub prefixes: Vec<String>,
}

/// A command line that cannot be understood.
#[derive(Debug, Clone, PartialEq, Eq)]
pub enum ArgError {
    /// The value after `--threads` is not a number; holds the value.
    InvalidThreadCount(String),
    /// `--threads` is the last argument; holds the option as it was written.
    MissingThreadCount(String),
    /// `--prefix` is the last argument or is followed by an option; holds
    /// the option as it was written.
    MissingPrefix(String),
    /// An argument that begins with a hyphen and is no known option; holds
    /// the argument.
    UnknownOption(String),
}

/// A configuration as plain values.
pub struct ConfigView {
    pub num_threads: Option<usize>,
    pub prefixes: Seq<Seq<char>>,
}

/// An error as plain values.
pub enum ArgErrorView {
    InvalidThreadCount(Seq<char>),
    MissingThreadCount(Seq<char>),
    MissingPrefix(Seq<char>),
    UnknownOption(Seq<char>),
}

impl View for Config {
    type V = ConfigView;

    open spec fn view(&self) -> ConfigView {
        ConfigView { num_threads: self.num_threads, prefixes: self.prefixes.deep_view() }
    }
}

impl View for ArgError {
    type V = ArgErrorView;

    open spec fn view(&self) -> ArgErrorView {
        match self {
            ArgError::InvalidThreadCount(value) => ArgErrorView::InvalidThreadCount(value@),
            ArgError::MissingThreadCount(option) => ArgErrorView::MissingThreadCount(option@),
            ArgError::MissingPrefix(option) => ArgErrorView::MissingPrefix(option@),
            ArgError::UnknownOption(argument) => ArgErrorView::UnknownOption(argument@),
        }
    }
}

/// Whether the character is one of the digits `0` to `9`.
pub open spec fn is_digit(c: char) -> bool {
    '0' as int <= c as int <= '9' as int
}

/// The number that a string of digits stands for in base ten.
pub open spec fn digits_value(digits: Seq<char>) -> nat
    decreases digits.len(),
{
    if digits.len() == 0 {
        0
    } else {
        (digits_value(digits.drop_last()) * 10 + (digits.last() as int - '0' as int)) as nat
    }
}

/// The number written in `text`: one or more digits, which a single `+` may
/// precede, and nothing else. Other texts stand for no number.
pub open spec fn unsigned_decimal(text: Seq<char>) -> Option<nat> {
    let digits = if text.len() > 0 && text[0] == '+' {
        text.drop_first()
    } else {
        text
    };
    if digits.len() > 0 && forall|i: int| 0 <= i < digits.len() ==> is_digit(#[trigger] digits[i]) {
        Some(digits_value(digits))
    } else {
        None
    }
}

/// The thread count written in `text`, if `text` is a number that fits in
/// `usize`.
pub open spec fn parsed_count(text: Seq<char>) -> Option<usize> {
    match unsigned_decimal(text) {
        Some(n) => if n <= usize::MAX {
            Some(n as usize)
        } else {
            None
        },
        None => None,
    }
}

/// `str::parse::<usize>`: reads a number in base ten. The text has to consist
/// of digits, optionally after one `+` sign, and the number has to fit in
/// `usize`; every other text is an error, which is handed out as `None`.
#[verifier::external_body]
fn parse_usize(text: &str) -> (r: Option<usize>)
    ensures
        r == parsed_count(text@),
{
    text.parse::<usize>().ok()
}

/// Whether the argument is the option that announces the thread count.
pub open spec fn is_threads_option(arg: Seq<char>) -> bool {
    arg == "--threads"@ || arg == "-t"@
}

/// Whether the argument is the option that announces a prefix.
pub open spec fn is_prefix_option(arg: Seq<char>) -> bool {
    arg == "--prefix"@ || arg == "-p"@
}

/// Whether the argument asks for the usage text.
pub open spec fn is_help_option(arg: Seq<char>) -> bool {
    arg == "--help"@ || arg == "-h"@
}

/// Whether the argument begins with a hyphen.
pub open spec fn looks_like_option(arg: Seq<char>) -> bool {
    arg.len() > 0 && arg[0] == '-'
}

/// The outcome of reading the arguments from position `i` on, with
/// `so_far` read from the arguments before it.
///
/// `--threads` or `-t` takes the next argument as the thread count;
/// `--prefix` or `-p` takes the next argument as a prefix, unless it begins
/// with a hyphen; any other argument that begins with a hyphen is an error;
/// every other argument is a prefix. The first error ends the reading.
pub open spec fn parse_from(args: Seq<Seq<char>>, i: int, so_far: ConfigView) -> Result<
    ConfigView,
    ArgErrorView,
>
    decreases args.len() - i,
{
    if i < 0 || i >= args.len() {
        Ok(so_far)
    } else if is_threads_option(args[i]) {
        if i + 1 < args.len() {
            match parsed_count(args[i + 1]) {
                Some(n) => parse_from(args, i + 2, ConfigView { num_threads: Some(n), ..so_far }),
                None => Err(ArgErrorView::InvalidThreadCount(args[i + 1])),
            }
        } else {
            Err(ArgErrorView::MissingThreadCount(args[i]))
        }
    } else if is_prefix_option(args[i]) {
        if i + 1 < args.len() && !looks_like_option(args[i + 1]) {
            parse_from(
                args,
                i + 2,
                ConfigView { prefixes: so_far.prefixes.push(args[i + 1]), ..so_far },
            )
        } else {
            Err(ArgErrorView::MissingPrefix(args[i]))
        }
    } else if looks_like_option(args[i]) {
        Err(ArgErrorView::UnknownOption(args[i]))
    } else {
        parse_from(args, i + 1, ConfigView { prefixes: so_far.prefixes.push(args[i]), ..so_far })
    }
}

/// The outcome of reading a command line whose first entry is the name of
/// the program.
pub open spec fn parse_args_spec(args: Seq<Seq<char>>) -> Result<ConfigView, ArgErrorView> {
    parse_from(args, 1, ConfigView { num_threads: None, prefixes: Seq::empty() })
}

/// Whether the two strings hold the same characters.
fn same_text(a: &String, b: &str) -> (r: bool)
    ensures
        r == (a@ == b@),
{
    let other = b.to_owned();
    *a == other
}

/// Whether the argument begins with a hyphen.
fn begins_with_hyphen(arg: &str) -> (r: bool)
    ensures
        r == looks_like_option(arg@),
{
    !arg.is_empty() && arg.get_char(0) == '-'
}

/// Reads the command line. `args` holds the name of the program first and
/// then the arguments.
pub fn parse_args(args: &Vec<String>) -> (r: Result<Config, ArgError>)
    ensures
        match r {
            Ok(config) => parse_args_spec(args.deep_view()) == Ok::<ConfigView, ArgErrorView>(
                config@,
            ),
            Err(error) => parse_args_spec(args.deep_view()) == Err::<ConfigView, ArgErrorView>(
                error@,
            ),
        },
{
    let mut num_threads: Option<usize> = None;
    let mut prefixes: Vec<String> = Vec::new();
    let mut i: usize = 1;
    assert(prefixes.deep_view() =~= Seq::empty());
    while i < args.len()
        invariant
            1 <= i,
            parse_args_spec(args.deep_view()) == parse_from(
                args.deep_view(),
                i as int,
                ConfigView { num_threads, prefixes: prefixes.deep_view() },
            ),
        decreases args.len() - i,
    {
        let ghost texts = args.deep_view();
        let ghost so_far = ConfigView { num_threads, prefixes: prefixes.deep_view() };
        assert(texts[i as int] == args[i as int]@);
        if same_text(&args[i], "--threads") || same_text(&args[i], "-t") {
            if i + 1 < args.len() {
                assert(texts[i + 1] == args[i + 1]@);
                match parse_usize(args[i + 1].as_str()) {
                    Some(n) => {
                        num_threads = Some(n);
                        i = i + 2;
                    },
                    None => {
                        return Err(ArgError::InvalidThreadCount(args[i + 1].clone()));
                    },
                }
            } else {
                return Err(ArgError::MissingThreadCount(args[i].clone()));
            }
        } else if same_text(&args[i], "--prefix") || same_text(&args[i], "-p") {
            if i + 1 < args.len() {
                assert(texts[i + 1] == args[i + 1]@);
                if !begins_with_hyphen(args[i + 1].as_str()) {
                    prefixes.push(args[i + 1].clone());
                    assert(prefixes.deep_view() =~= so_far.prefixes.push(texts[i + 1]));
                    i = i + 2;
                } else {
                    return Err(ArgError::MissingPrefix(args[i].clone()));
                }
            } else {
                return Err(ArgError::MissingPrefix(args[i].clone()));
            }
        } else if begins_with_hyphen(args[i].as_str()) {
            return Err(ArgError::UnknownOption(args[i].clone()));
        } else {
            prefixes.push(args[i].clone());
            assert(prefixes.deep_view() =~= so_far.prefixes.push(texts[i as int]));
            i = i + 1;
        }
    }
    Ok(Config { num_threads, prefixes })
}

/// Whether any entry of the command line, the name of the program
/// included, is `--help` or `-h`.
pub fn wants_help(args: &Vec<String>) -> (r: bool)
    ensures
        r == exists|i: int|
            0 <= i < args.deep_view().len() && is_help_option(#[trigger] args.deep_view()[i]),
{
    let mut i: usize = 0;
    while i < args.len()
        invariant
            i <= args.len(),
            forall|j: int| 0 <= j < i ==> !is_help_option(#[trigger] args.deep_view()[j]),
        decreases args.len() - i,
    {
        assert(args.deep_view()[i as int] == args[i as int]@);
        if same_text(&args[i], "--help") || same_text(&args[i], "-h") {
            return true;
        }
        i = i + 1;
    }
    false
}

/// The message that tells the user what is wrong with the command line.
pub open spec fn message_spec(error: ArgErrorView) -> Seq<char> {
    match error {
        ArgErrorView::InvalidThreadCount(value) => "错误: '"@ + value + "' 不是有效的线程数"@,
        ArgErrorView::MissingThreadCount(option) => "错误: "@ + option + " 参数需要指定线程数"@,
        ArgErrorView::MissingPrefix(option) => "错误: "@ + option + " 参数需要指定至少一个前缀"@,
        ArgErrorView::UnknownOption(argument) => "错误: 未知参数 '"@ + argument + "'"@,
    }
}

impl ArgError {
    /// The message that tells the user what is wrong with the command line.
    pub fn message(&self) -> (text: String)
        ensures
            text@ == message_spec(self@),
    {
        match self {
            ArgError::InvalidThreadCount(value) => {
                let mut text = String::from_str("错误: '");
                text.append(value.as_str());
                text.append("' 不是有效的线程数");
                text
            },
            ArgError::MissingThreadCount(option) => {
                let mut text = String::from_str("错误: ");
                text.append(option.as_str());
                text.append(" 参数需要指定线程数");
                text
            },
            ArgError::MissingPrefix(option) => {
                let mut text = String::from_str("错误: ");
                text.append(option.as_str());
                text.append(" 参数需要指定至少一个前缀");
                text
            },
            ArgError::UnknownOption(argument) => {
                let mut text = String::from_str("错误: 未知参数 '");
                text.append(argument.as_str());
                text.append("'");
                text
            },
        }
    }
}

/// The prefix that is searched for when the command line names none.
pub open spec fn default_prefix() -> Seq<char> {
    "seekr"@
}

/// The target prefixes of a run: those of the command line in their order,
/// or the default prefix alone where the command line names none.
pub open spec fn target_prefixes_spec(prefixes: Seq<Seq<char>>) -> Seq<Seq<char>> {
    if prefixes.len() == 0 {
        seq![default_prefix()]
    } else {
        prefixes
    }
}

/// Makes the list of target prefixes from the prefixes of the command line.
pub fn target_prefixes(prefixes: Vec<String>) -> (targets: TargetPrefixes)
    ensures
        targets@ == target_prefixes_spec(prefixes.deep_view()),
{
    if prefixes.len() == 0 {
        let mut defaults: Vec<String> = Vec::new();
        defaults.push(String::from_str("seekr"));
        assert(defaults.deep_view() =~= seq![default_prefix()]);
        TargetPrefixes::new(defaults)
    } else {
        TargetPrefixes::new(prefixes)
    }
}

/// How many workers a run starts.
#[derive(Debug, Clone, Copy, PartialEq, Eq, Structural)]
pub struct ThreadPlan {
    /// The number of workers.
    pub workers: usize,
    /// The number of processor cores that the plan was made for.
    pub cores: usize,
    /// Whether the user asked for more than two workers per core.
    pub oversubscribed: bool,
}

/// A thread count of zero was asked for.
#[derive(Debug, Clone, Copy, PartialEq, Eq, Structural)]
pub struct ZeroThreads;

/// The plan for a requested number of workers on a machine with `cores`
/// cores: the requested number, which must not be zero, or one worker per
/// core where none was requested.
pub open spec fn plan_threads_spec(requested: Option<usize>, cores: usize) -> Result<
    ThreadPlan,
    ZeroThreads,
> {
    match requested {
        Some(n) => if n == 0 {
            Err(ZeroThreads)
        } else {
            Ok(ThreadPlan { workers: n, cores, oversubscribed: n > 2 * cores })
        },
        None => Ok(ThreadPlan { workers: cores, cores, oversubscribed: false }),
    }
}

/// Decides how many workers to start on a machine with `cores` cores.
pub fn plan_threads(requested: Option<usize>, cores: usize) -> (r: Result<ThreadPlan, ZeroThreads>)
    ensures
        r == plan_threads_spec(requested, cores),
{
    match requested {
        Some(n) => {
            if n == 0 {
                Err(ZeroThreads)
            } else {
                let oversubscribed = n > cores && n - cores > cores;
                Ok(ThreadPlan { workers: n, cores, oversubscribed })
            }
        },
        None => Ok(ThreadPlan { workers: cores, cores, oversubscribed: false }),
    }
}

/// `num_cpus::get`: the number of logical processor cores that this process
/// can use. It depends on the machine, so nothing is promised of it.
#[verifier::external_body]
fn available_cores() -> usize {
    num_cpus::get()
}

/// Decides how many workers to start on this machine.
pub fn choose_threads(requested: Option<usize>) -> (r: Result<ThreadPlan, ZeroThreads>)
    ensures
        exists|cores: usize| r == #[trigger] plan_threads_spec(requested, cores),
{
    plan_threads(requested, available_cores())
}

} // verus!
