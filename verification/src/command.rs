//! The command line: four verbs, each with its named options.

use crate::error::{Error, ErrorView};
use vstd::prelude::*;

verus! {

/// What one invocation asks for.
#[derive(Debug, PartialEq, Eq)]
pub enum Command {
    /// Register `executable` as the service `service`, to be run with the
    /// arguments that `args` holds, separated by single spaces.
    Install { service: String, executable: String, args: String },
    /// Remove the service from the manager.
    Remove { service: String },
    /// Start the service.
    Start { service: String },
    /// Stop the service.
    Stop { service: String },
}

/// A [`Command`] with its texts as sequences of characters.
pub enum CommandView {
    Install { service: Seq<char>, executable: Seq<char>, args: Seq<char> },
    Remove { service: Seq<char> },
    Start { service: Seq<char> },
    Stop { service: Seq<char> },
}

impl View for Command {
    type V = CommandView;

    open spec fn view(&self) -> CommandView {
        match self {
            Command::Install { service, executable, args } => CommandView::Install {
                service: service@,
                executable: executable@,
                args: args@,
            },
            Command::Remove { service } => CommandView::Remove { service: service@ },
            Command::Start { service } => CommandView::Start { service: service@ },
            Command::Stop { service } => CommandView::Stop { service: service@ },
        }
    }
}

impl CommandView {
    /// The name of the service that the command is about.
    pub open spec fn service(self) -> Seq<char> {
        match self {
            CommandView::Install { service, .. } => service,
            CommandView::Remove { service } => service,
            CommandView::Start { service } => service,
            CommandView::Stop { service } => service,
        }
    }
}

/// A named option of the command line.
#[derive(Clone, Copy, Debug, PartialEq, Eq, Structural)]
pub enum Opt {
    /// `--service` or `-s`: the name of the service.
    Service,
    /// `--executable` or `-e`: the program that the service runs.
    Executable,
    /// `--args` or `-a`: the program's argument line.
    Args,
}

/// Whether `token` is the long or the short spelling of `opt`.
pub open spec fn names(token: Seq<char>, opt: Opt) -> bool {
    match opt {
        Opt::Service => token == "--service"@ || token == "-s"@,
        Opt::Executable => token == "--executable"@ || token == "-e"@,
        Opt::Args => token == "--args"@ || token == "-a"@,
    }
}

/// The value given for `opt` in `rest`, where options and their values
/// take turns: the token after the first option token that names `opt`.
/// A value is taken as it stands, whatever it looks like.
pub open spec fn value_of(rest: Seq<Seq<char>>, opt: Opt) -> Option<Seq<char>>
    decreases rest.len(),
{
    if rest.len() < 2 {
        None
    } else if names(rest[0], opt) {
        Some(rest[1])
    } else {
        value_of(rest.skip(2), opt)
    }
}

/// Whether the verb cannot do without the option.
pub open spec fn needs(verb: Seq<char>, opt: Opt) -> bool {
    ||| verb == "install"@
    ||| opt == Opt::Service && (verb == "remove"@ || verb == "start"@ || verb == "stop"@)
}

/// The command that an argument vector spells, if it spells one. The first
/// argument is the program's own name and is passed over; the second is the
/// verb; the rest are the verb's options, each followed by its value:
/// exactly as many pairs as the verb has options, and a value for each of
/// them. The names of the service and of the executable must not be empty;
/// the argument line may be.
pub open spec fn spec_parse(args: Seq<Seq<char>>) -> Option<CommandView> {
    if args.len() < 2 {
        None
    } else {
        let verb = args[1];
        let rest = args.skip(2);
        let service = value_of(rest, Opt::Service);
        let executable = value_of(rest, Opt::Executable);
        let line = value_of(rest, Opt::Args);
        if verb == "install"@ {
            if rest.len() == 6 && service is Some && executable is Some && line is Some
                && service->0.len() > 0 && executable->0.len() > 0 {
                Some(
                    CommandView::Install {
                        service: service->0,
                        executable: executable->0,
                        args: line->0,
                    },
                )
            } else {
                None
            }
        } else if rest.len() == 2 && service is Some && service->0.len() > 0 {
            if verb == "remove"@ {
                Some(CommandView::Remove { service: service->0 })
            } else if verb == "start"@ {
                Some(CommandView::Start { service: service->0 })
            } else if verb == "stop"@ {
                Some(CommandView::Stop { service: service->0 })
            } else {
                None
            }
        } else {
            None
        }
    }
}

/// Whether `token` reads `word`.
fn reads(token: &String, word: &str) -> (r: bool)
    ensures
        r == (token@ == word@),
{
    *token == String::from_str(word)
}

/// Whether `token` is the long or the short spelling of `opt`.
fn is_named(token: &String, opt: Opt) -> (r: bool)
    ensures
        r == names(token@, opt),
{
    match opt {
        Opt::Service => reads(token, "--service") || reads(token, "-s"),
        Opt::Executable => reads(token, "--executable") || reads(token, "-e"),
        Opt::Args => reads(token, "--args") || reads(token, "-a"),
    }
}

/// The value given for `opt` among the options, which begin at the third
/// argument.
fn find(args: &Vec<String>, opt: Opt) -> (r: Option<String>)
    requires
        args.len() >= 2,
    ensures
        match value_of(args.deep_view().skip(2), opt) {
            Some(value) => r is Some && r->0@ == value,
            None => r is None,
        },
{
    let ghost all = args.deep_view();
    let mut at: usize = 2;
    while at < args.len() - 1
        invariant
            2 <= at <= args.len(),
            all == args.deep_view(),
            value_of(all.skip(2), opt) == value_of(all.skip(at as int), opt),
        decreases args.len() - at,
    {
        proof {
            assert(all.skip(at as int).skip(2) =~= all.skip(at as int + 2));
        }
        if is_named(&args[at], opt) {
            return Some(args[at + 1].clone());
        }
        at = at + 2;
    }
    None
}

impl Command {
    /// Reads the process's argument vector as a command.
    pub fn parse(args: &Vec<String>) -> (r: Result<Command, Error>)
        ensures
            match spec_parse(args.deep_view()) {
                Some(command) => r is Ok && r->Ok_0@ == command,
                None => r is Err && r->Err_0@ == ErrorView::UsageError,
            },
    {
        if args.len() < 2 {
            return Err(Error::UsageError);
        }
        let verb = &args[1];
        let service = match find(args, Opt::Service) {
            Some(service) => service,
            None => { return Err(Error::UsageError); },
        };
        if service.as_str().is_empty() {
            return Err(Error::UsageError);
        }
        if reads(verb, "install") {
            if args.len() != 8 {
                return Err(Error::UsageError);
            }
            let executable = match find(args, Opt::Executable) {
                Some(executable) => executable,
                None => { return Err(Error::UsageError); },
            };
            if executable.as_str().is_empty() {
                return Err(Error::UsageError);
            }
            match find(args, Opt::Args) {
                Some(line) => Ok(Command::Install { service, executable, args: line }),
                None => Err(Error::UsageError),
            }
        } else if args.len() != 4 {
            Err(Error::UsageError)
        } else if reads(verb, "remove") {
            Ok(Command::Remove { service })
        } else if reads(verb, "start") {
            Ok(Command::Start { service })
        } else if reads(verb, "stop") {
            Ok(Command::Stop { service })
        } else {
            Err(Error::UsageError)
        }
    }
}

/// Leaving out an option that the verb needs makes a usage error, whatever
/// else the command line holds.
pub proof fn lemma_missing_option(args: Seq<Seq<char>>, opt: Opt)
    requires
        args.len() >= 2,
        needs(args[1], opt),
        value_of(args.skip(2), opt) is None,
    ensures
        spec_parse(args) is None,
{
}

/// The four documented forms are commands, whatever the program is called
/// and whatever the values are, as long as the names of the service and of
/// the executable are not empty.
pub proof fn lemma_documented_forms(
    program: Seq<char>,
    service: Seq<char>,
    executable: Seq<char>,
    line: Seq<char>,
)
    requires
        service.len() > 0,
        executable.len() > 0,
    ensures
        spec_parse(
            seq![
                program,
                "install"@,
                "--service"@,
                service,
                "--executable"@,
                executable,
                "--args"@,
                line,
            ],
        ) == Some(CommandView::Install { service, executable, args: line }),
        spec_parse(seq![program, "remove"@, "--service"@, service]) == Some(
            CommandView::Remove { service },
        ),
        spec_parse(seq![program, "start"@, "--service"@, service]) == Some(
            CommandView::Start { service },
        ),
        spec_parse(seq![program, "stop"@, "--service"@, service]) == Some(
            CommandView::Stop { service },
        ),
{
    reveal_strlit("install");
    reveal_strlit("remove");
    reveal_strlit("start");
    reveal_strlit("stop");
    reveal_strlit("--service");
    reveal_strlit("--executable");
    reveal_strlit("--args");
    reveal_strlit("-s");
    reveal_strlit("-e");
    reveal_strlit("-a");
    assert("install"@.len() == 7 && "remove"@.len() == 6);
    assert("start"@[2] != "stop"@[2]);
    assert("--service"@.len() == 9 && "--executable"@.len() == 12 && "--args"@.len() == 6);
    let options = seq!["--service"@, service, "--executable"@, executable, "--args"@, line];
    assert(options =~= seq![
        program,
        "install"@,
        "--service"@,
        service,
        "--executable"@,
        executable,
        "--args"@,
        line,
    ].skip(2));
    assert(value_of(options.skip(2), Opt::Executable) == Some(executable));
    assert(value_of(options.skip(2).skip(2), Opt::Args) == Some(line));
    assert(value_of(options.skip(2), Opt::Args) == Some(line));
}

} // verus!
