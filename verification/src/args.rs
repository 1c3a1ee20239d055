use vstd::prelude::*;
use crate::text::{same, strings};

verus! {

/// How the program is to run.
#[derive(Debug, Copy, Clone, Eq, PartialEq, Structural)]
pub enum Mode {
    /// One pass, then exit.
    OneShot,
    /// Cycle after cycle.
    Continuous,
}

/// What the command line asks for.
#[derive(Debug)]
pub struct Args {
    username: String,
    password: String,
    mode: Mode,
}

/// The mathematical value of [`Args`].
pub struct ArgsView {
    pub username: Seq<char>,
    pub password: Seq<char>,
    pub mode: Mode,
}

impl View for Args {
    type V = ArgsView;

    closed spec fn view(&self) -> ArgsView {
        ArgsView { username: self.username@, password: self.password@, mode: self.mode }
    }
}

/// What reading the command line gives: arguments to run with, or a text to show.
#[derive(Debug)]
pub enum Output {
    Args(Args),
    Info(String),
}

/// The mathematical value of an [`Output`].
pub enum OutputView {
    Args(ArgsView),
    Info(Seq<char>),
}

impl View for Output {
    type V = OutputView;

    open spec fn view(&self) -> OutputView {
        match self {
            Output::Args(args) => OutputView::Args(args@),
            Output::Info(info) => OutputView::Info(info@),
        }
    }
}

impl Output {
    /// The arguments or the text, whichever there is.
    pub fn unwrap(self) -> (parts: (Option<Args>, Option<String>))
        ensures
            match self {
                Output::Args(args) => parts.0 == Some(args) && parts.1.is_none(),
                Output::Info(info) => parts.0.is_none() && parts.1 == Some(info),
            },
    {
        match self {
            Output::Args(args) => (Some(args), None),
            Output::Info(info) => (None, Some(info)),
        }
    }
}

impl Args {
    /// The user name, as `username` gives it.
    pub fn user(&self) -> (name: &str)
        ensures
            name@ == self@.username,
    {
        self.username.as_str()
    }

    /// The user name given with `-u`.
    pub fn username(&self) -> (name: &str)
        ensures
            name@ == self@.username,
    {
        self.username.as_str()
    }

    /// The password, as `password` gives it.
    pub fn pass(&self) -> (word: &str)
        ensures
            word@ == self@.password,
    {
        self.password.as_str()
    }

    /// The password given with `-p`.
    pub fn password(&self) -> (word: &str)
        ensures
            word@ == self@.password,
    {
        self.password.as_str()
    }

    /// The mode to run in.
    pub fn mode(&self) -> (mode: Mode)
        ensures
            mode == self@.mode,
    {
        self.mode
    }

    /// Whether the program is to run cycle after cycle.
    pub fn is_continuous(&self) -> (yes: bool)
        ensures
            yes == (self@.mode == Mode::Continuous),
    {
        self.mode == Mode::Continuous
    }

    /// Whether the program is to run one pass.
    pub fn is_one_shot(&self) -> (yes: bool)
        ensures
            yes == (self@.mode == Mode::OneShot),
    {
        self.mode == Mode::OneShot
    }
}

/// How to call the program.
pub const USAGE: &'static str =
    "Usage: program -u <username> -p <password> [-c]\n\nOptions:\n\t-u, --username    Specify the username\n\t-p, --password    Specify the password\n\t-c, --continuous  Run in continuous mode (default is one-shot)\n\t-h, --help        Display this help message\n\t-v, --version     Display the version number";

/// How to call the program.
pub fn usage_instructions() -> (text: String)
    ensures
        text@ == USAGE@,
{
    USAGE.to_owned()
}

/// What has been read of a command line so far.
pub struct Read {
    pub username: Option<Seq<char>>,
    pub password: Option<Seq<char>>,
    pub mode: Mode,
}

/// What a command line asks for once it has been read to its end: both the user name
/// and the password must have been given.
pub open spec fn concluded(read: Read) -> Result<OutputView, Seq<char>> {
    match (read.username, read.password) {
        (Some(username), Some(password)) => Ok(
            OutputView::Args(ArgsView { username, password, mode: read.mode }),
        ),
        (None, Some(_)) => Err("Missing username"@),
        (Some(_), None) => Err("Missing password"@),
        (None, None) => Err("Missing username and password"@),
    }
}

/// What the command line asks for from argument `from` on, after `read`. The options
/// `-u` and `-p` take the argument behind them as their value, and lose an earlier
/// value where nothing stands behind them; `-c` asks for the continuous mode; `-h` and
/// `-v` end the reading with a text to show; any other argument is a mistake.
pub open spec fn parsed_from(
    arguments: Seq<Seq<char>>,
    from: int,
    read: Read,
    version: Seq<char>,
) -> Result<OutputView, Seq<char>>
    decreases arguments.len() - from,
{
    if from < 0 || from >= arguments.len() {
        concluded(read)
    } else {
        let argument = arguments[from];
        let last = from + 1 == arguments.len();
        if argument == "-u"@ || argument == "--username"@ {
            if last {
                parsed_from(arguments, from + 1, Read { username: None, ..read }, version)
            } else {
                parsed_from(
                    arguments,
                    from + 2,
                    Read { username: Some(arguments[from + 1]), ..read },
                    version,
                )
            }
        } else if argument == "-p"@ || argument == "--password"@ {
            if last {
                parsed_from(arguments, from + 1, Read { password: None, ..read }, version)
            } else {
                parsed_from(
                    arguments,
                    from + 2,
                    Read { password: Some(arguments[from + 1]), ..read },
                    version,
                )
            }
        } else if argument == "-c"@ || argument == "--continuous"@ {
            parsed_from(arguments, from + 1, Read { mode: Mode::Continuous, ..read }, version)
        } else if argument == "-h"@ || argument == "--help"@ {
            Ok(OutputView::Info(USAGE@))
        } else if argument == "-v"@ || argument == "--version"@ {
            Ok(OutputView::Info("v"@ + version))
        } else {
            Err("Unknown argument: "@ + argument)
        }
    }
}

/// What the command line asks for. Without `-c` the program runs one pass.
pub open spec fn parsed(arguments: Seq<Seq<char>>, version: Seq<char>) -> Result<
    OutputView,
    Seq<char>,
> {
    parsed_from(arguments, 0, Read { username: None, password: None, mode: Mode::OneShot }, version)
}

/// What is kept of an optional string.
pub open spec fn kept(text: Option<String>) -> Option<Seq<char>> {
    match text {
        Some(text) => Some(text@),
        None => None,
    }
}

/// Reads the arguments of the command line, the program's own name left out. `version`
/// is the version number that `-v` shows.
pub fn parse(arguments: &Vec<String>, version: &str) -> (output: Result<Output, String>)
    ensures
        match output {
            Ok(o) => parsed(strings(arguments@), version@) == Ok::<_, Seq<char>>(o@),
            Err(mistake) => parsed(strings(arguments@), version@) == Err::<OutputView, _>(
                mistake@,
            ),
        },
{
    let ghost given = strings(arguments@);
    let mut username: Option<String> = None;
    let mut password: Option<String> = None;
    let mut mode = Mode::OneShot;
    let mut i: usize = 0;
    while i < arguments.len()
        invariant
            i <= arguments.len(),
            given == strings(arguments@),
            parsed(given, version@) == parsed_from(
                given,
                i as int,
                Read { username: kept(username), password: kept(password), mode },
                version@,
            ),
        decreases arguments.len() - i,
    {
        let argument = arguments[i].as_str();
        assert(argument@ == given[i as int]);
        let takes_value = i + 1 < arguments.len();
        if same(argument, "-u") || same(argument, "--username") {
            if takes_value {
                assert(arguments[i + 1]@ == given[i + 1]);
                username = Some(arguments[i + 1].clone());
                i += 2;
            } else {
                username = None;
                i += 1;
            }
        } else if same(argument, "-p") || same(argument, "--password") {
            if takes_value {
                assert(arguments[i + 1]@ == given[i + 1]);
                password = Some(arguments[i + 1].clone());
                i += 2;
            } else {
                password = None;
                i += 1;
            }
        } else if same(argument, "-c") || same(argument, "--continuous") {
            mode = Mode::Continuous;
            i += 1;
        } else if same(argument, "-h") || same(argument, "--help") {
            return Ok(Output::Info(usage_instructions()));
        } else if same(argument, "-v") || same(argument, "--version") {
            let mut text = "v".to_owned();
            text.append(version);
            return Ok(Output::Info(text));
        } else {
            let mut text = "Unknown argument: ".to_owned();
            text.append(argument);
            return Err(text);
        }
    }
    match (username, password) {
        (Some(username), Some(password)) => Ok(Output::Args(Args { username, password, mode })),
        (None, Some(_)) => Err("Missing username".to_owned()),
        (Some(_), None) => Err("Missing password".to_owned()),
        (None, None) => Err("Missing username and password".to_owned()),
    }
}

} // verus!
