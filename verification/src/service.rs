//! The dispatcher: what to ask of the platform's service manager, in which
//! order, and how an invocation ends.
//!
//! The library touches neither the manager nor the terminal. It hands out
//! one [`Action`] at a time; the program around it carries the action out
//! and reports back with [`Service::advance`].

use crate::command::{
    lemma_missing_option, needs, spec_parse, value_of, Command, CommandView, Opt,
};
use crate::error::{spec_exit_status, Error, ErrorView};
use crate::label::{lemma_label_round_trip, spec_label, Label, LabelView};
use crate::text::{
    clean, join, lemma_join_split, lemma_split_clean, lemma_split_count, split, split_on,
};
use vstd::prelude::*;

verus! {

/// One request to the service manager.
#[derive(Debug, PartialEq, Eq)]
pub enum Request {
    /// Register `program`, to be run with `args`, under `label`.
    Install { label: Label, program: String, args: Vec<String> },
    /// Remove the service registered under `label`.
    Uninstall { label: Label },
    /// Start the service registered under `label`.
    Start { label: Label },
    /// Stop the service registered under `label`.
    Stop { label: Label },
}

/// A [`Request`] with its texts as sequences of characters.
pub enum RequestView {
    Install { label: LabelView, program: Seq<char>, args: Seq<Seq<char>> },
    Uninstall { label: LabelView },
    Start { label: LabelView },
    Stop { label: LabelView },
}

/// Which of the manager's four operations a request calls for.
#[derive(Clone, Copy, Debug, PartialEq, Eq, Structural)]
pub enum Operation {
    Install,
    Uninstall,
    Start,
    Stop,
}

impl View for Request {
    type V = RequestView;

    open spec fn view(&self) -> RequestView {
        match self {
            Request::Install { label, program, args } => RequestView::Install {
                label: label@,
                program: program@,
                args: args.deep_view(),
            },
            Request::Uninstall { label } => RequestView::Uninstall { label: label@ },
            Request::Start { label } => RequestView::Start { label: label@ },
            Request::Stop { label } => RequestView::Stop { label: label@ },
        }
    }
}

impl RequestView {
    /// The operation that the request calls for.
    pub open spec fn operation(self) -> Operation {
        match self {
            RequestView::Install { .. } => Operation::Install,
            RequestView::Uninstall { .. } => Operation::Uninstall,
            RequestView::Start { .. } => Operation::Start,
            RequestView::Stop { .. } => Operation::Stop,
        }
    }

    /// The label of the service that the request is about.
    pub open spec fn label(self) -> LabelView {
        match self {
            RequestView::Install { label, .. } => label,
            RequestView::Uninstall { label } => label,
            RequestView::Start { label } => label,
            RequestView::Stop { label } => label,
        }
    }
}

impl Request {
    /// The operation that the request calls for.
    pub fn operation(&self) -> (operation: Operation)
        ensures
            operation == self@.operation(),
    {
        match self {
            Request::Install { .. } => Operation::Install,
            Request::Uninstall { .. } => Operation::Uninstall,
            Request::Start { .. } => Operation::Start,
            Request::Stop { .. } => Operation::Stop,
        }
    }

    /// The label of the service that the request is about.
    pub fn label(&self) -> (label: &Label)
        ensures
            label@ == self@.label(),
    {
        match self {
            Request::Install { label, .. } => label,
            Request::Uninstall { label } => label,
            Request::Start { label } => label,
            Request::Stop { label } => label,
        }
    }
}

/// The failure that stands for an operation gone wrong, with the manager's
/// reason.
pub open spec fn spec_failure(operation: Operation, why: Seq<char>) -> ErrorView {
    match operation {
        Operation::Install => ErrorView::InstallFailed(why),
        Operation::Uninstall => ErrorView::RemoveFailed(why),
        Operation::Start => ErrorView::StartFailed(why),
        Operation::Stop => ErrorView::StopFailed(why),
    }
}

impl Operation {
    /// The failure that stands for this operation gone wrong.
    pub fn failure(self, why: String) -> (error: Error)
        ensures
            error@ == spec_failure(self, why@),
    {
        match self {
            Operation::Install => Error::InstallFailed(why),
            Operation::Uninstall => Error::RemoveFailed(why),
            Operation::Start => Error::StartFailed(why),
            Operation::Stop => Error::StopFailed(why),
        }
    }
}

/// The request that a command turns into. The service's name becomes its
/// label; the executable's path is taken as it stands; the argument line
/// is cut at every single space, so that two spaces in a row, or a space
/// at either end, leave an empty argument, and quotes mean nothing.
pub open spec fn spec_request(command: CommandView) -> RequestView {
    match command {
        CommandView::Install { service, executable, args } => RequestView::Install {
            label: spec_label(service),
            program: executable,
            args: split(args, ' '),
        },
        CommandView::Remove { service } => RequestView::Uninstall { label: spec_label(service) },
        CommandView::Start { service } => RequestView::Start { label: spec_label(service) },
        CommandView::Stop { service } => RequestView::Stop { label: spec_label(service) },
    }
}

/// The lines that tell the user what is about to be done.
pub open spec fn spec_progress(command: CommandView) -> Seq<Seq<char>> {
    match command {
        CommandView::Install { service, executable, .. } => seq![
            "Installing service: "@ + service,
            "Executable: "@ + executable,
        ],
        CommandView::Remove { service } => seq!["Removing service: "@ + service],
        CommandView::Start { service } => seq!["Starting service: "@ + service],
        CommandView::Stop { service } => seq!["Stopping service: "@ + service],
    }
}

impl Command {
    /// The lines that tell the user what is about to be done.
    pub fn progress(&self) -> (lines: Vec<String>)
        ensures
            lines.deep_view() == spec_progress(self@),
    {
        let mut lines: Vec<String> = Vec::new();
        match self {
            Command::Install { service, executable, .. } => {
                lines.push(String::from_str("Installing service: ").concat(service.as_str()));
                lines.push(String::from_str("Executable: ").concat(executable.as_str()));
            },
            Command::Remove { service } => {
                lines.push(String::from_str("Removing service: ").concat(service.as_str()));
            },
            Command::Start { service } => {
                lines.push(String::from_str("Starting service: ").concat(service.as_str()));
            },
            Command::Stop { service } => {
                lines.push(String::from_str("Stopping service: ").concat(service.as_str()));
            },
        }
        lines
    }
}

/// What the program around the library is to do next.
#[derive(Debug, PartialEq, Eq)]
pub enum Action {
    /// Find the host's native service manager, once, and report whether
    /// there is one.
    Resolve,
    /// Print the progress lines, hand the request to the manager, and
    /// report how that went.
    Perform { progress: Vec<String>, request: Request },
    /// Leave: with status 0 after `Ok`, else with the error's diagnostic
    /// and its exit status.
    Exit(Result<(), Error>),
}

/// An [`Action`] with its texts as sequences of characters.
pub enum ActionView {
    Resolve,
    Perform { progress: Seq<Seq<char>>, request: RequestView },
    Exit(Result<(), ErrorView>),
}

/// How an invocation ended, with its texts as sequences of characters.
pub open spec fn outcome_view(outcome: Result<(), Error>) -> Result<(), ErrorView> {
    match outcome {
        Ok(_) => Ok(()),
        Err(error) => Err(error@),
    }
}

/// What came of the last action, with its text as a sequence of characters.
pub open spec fn reply_view(reply: Result<(), String>) -> Result<(), Seq<char>> {
    match reply {
        Ok(_) => Ok(()),
        Err(why) => Err(why@),
    }
}

impl View for Action {
    type V = ActionView;

    open spec fn view(&self) -> ActionView {
        match self {
            Action::Resolve => ActionView::Resolve,
            Action::Perform { progress, request } => ActionView::Perform {
                progress: progress.deep_view(),
                request: request@,
            },
            Action::Exit(outcome) => ActionView::Exit(outcome_view(*outcome)),
        }
    }
}

/// Where an invocation stands.
pub enum Stage {
    /// The manager is being looked for; the command line waits.
    Resolving { args: Seq<Seq<char>> },
    /// The one request is with the manager.
    Performing { operation: Operation },
    /// It is over; nothing more will be asked of anyone.
    Finished { outcome: Result<(), ErrorView> },
}

enum State {
    Resolving { args: Vec<String> },
    Performing { operation: Operation },
    Finished { outcome: Result<(), Error> },
}

/// The dispatcher of one invocation.
pub struct Service {
    state: State,
}

impl View for Service {
    type V = Stage;

    closed spec fn view(&self) -> Stage {
        match self.state {
            State::Resolving { args } => Stage::Resolving { args: args.deep_view() },
            State::Performing { operation } => Stage::Performing { operation },
            State::Finished { outcome } => Stage::Finished { outcome: outcome_view(outcome) },
        }
    }
}

/// The end of an invocation: the stage it leaves behind and the action
/// that says so.
pub open spec fn spec_finish(outcome: Result<(), ErrorView>) -> (Stage, ActionView) {
    (Stage::Finished { outcome }, ActionView::Exit(outcome))
}

/// What a command leads to: its one request, announced by its progress
/// lines and then awaited.
pub open spec fn spec_dispatch(command: CommandView) -> (Stage, ActionView) {
    (
        Stage::Performing { operation: spec_request(command).operation() },
        ActionView::Perform { progress: spec_progress(command), request: spec_request(command) },
    )
}

/// What follows once the manager is there: a command line that spells no
/// command ends the invocation with a usage error; any other is
/// dispatched.
pub open spec fn spec_run(args: Seq<Seq<char>>) -> (Stage, ActionView) {
    match spec_parse(args) {
        None => spec_finish(Err(ErrorView::UsageError)),
        Some(command) => spec_dispatch(command),
    }
}

/// The step that a reply brings about.
///
/// While the manager is looked for: without one, the invocation ends as
/// unsupported; with one, the command line is read. While the request is
/// with the manager: success ends the invocation well, failure ends it
/// with the failure of that operation. Once finished, every reply is
/// answered with the same exit.
pub open spec fn spec_advance(stage: Stage, reply: Result<(), Seq<char>>) -> (Stage, ActionView) {
    match stage {
        Stage::Resolving { args } => match reply {
            Ok(_) => spec_run(args),
            Err(why) => spec_finish(Err(ErrorView::PlatformUnsupported(why))),
        },
        Stage::Performing { operation } => match reply {
            Ok(_) => spec_finish(Ok(())),
            Err(why) => spec_finish(Err(spec_failure(operation, why))),
        },
        Stage::Finished { outcome } => spec_finish(outcome),
    }
}

impl Service {
    /// Begins an invocation with the process's argument vector. The first
    /// thing to do is to find the service manager.
    pub fn new(args: Vec<String>) -> (r: (Service, Action))
        ensures
            r.0@ == (Stage::Resolving { args: args.deep_view() }),
            r.1@ == ActionView::Resolve,
    {
        (Service { state: State::Resolving { args } }, Action::Resolve)
    }

    /// Whether the invocation is over.
    pub fn finished(&self) -> (r: bool)
        ensures
            r == (self@ is Finished),
    {
        match &self.state {
            State::Finished { .. } => true,
            _ => false,
        }
    }

    /// The request to install `executable`, run with `args`, as the
    /// service `service_name`.
    pub fn install(service_name: String, executable: String, args: Vec<String>) -> (r: Result<
        Request,
        Error,
    >)
        ensures
            r is Ok,
            r->Ok_0@ == (RequestView::Install {
                label: spec_label(service_name@),
                program: executable@,
                args: args.deep_view(),
            }),
    {
        let label = Label::parse(service_name.as_str())?;
        Ok(Request::Install { label, program: executable, args })
    }

    /// The request to remove the service `service_name`.
    pub fn uninstall(service_name: String) -> (r: Result<Request, Error>)
        ensures
            r is Ok,
            r->Ok_0@ == (RequestView::Uninstall { label: spec_label(service_name@) }),
    {
        let label = Label::parse(service_name.as_str())?;
        Ok(Request::Uninstall { label })
    }

    /// The request to start the service `service_name`.
    pub fn start(service_name: String) -> (r: Result<Request, Error>)
        ensures
            r is Ok,
            r->Ok_0@ == (RequestView::Start { label: spec_label(service_name@) }),
    {
        let label = Label::parse(service_name.as_str())?;
        Ok(Request::Start { label })
    }

    /// The request to stop the service `service_name`.
    pub fn stop(service_name: String) -> (r: Result<Request, Error>)
        ensures
            r is Ok,
            r->Ok_0@ == (RequestView::Stop { label: spec_label(service_name@) }),
    {
        let label = Label::parse(service_name.as_str())?;
        Ok(Request::Stop { label })
    }

    /// Ends the invocation.
    fn finish(outcome: Result<(), Error>) -> (r: (Service, Action))
        ensures
            (r.0@, r.1@) == spec_finish(outcome_view(outcome)),
    {
        let again = match &outcome {
            Ok(_) => Ok(()),
            Err(error) => Err(error.clone()),
        };
        (Service { state: State::Finished { outcome } }, Action::Exit(again))
    }

    /// Turns a command into its one request.
    pub fn dispatch(command: Command) -> (r: (Service, Action))
        ensures
            (r.0@, r.1@) == spec_dispatch(command@),
    {
        let progress = command.progress();
        let built = match command {
            Command::Install { service, executable, args } => {
                let arguments = split_on(args.as_str(), ' ');
                Service::install(service, executable, arguments)
            },
            Command::Remove { service } => Service::uninstall(service),
            Command::Start { service } => Service::start(service),
            Command::Stop { service } => Service::stop(service),
        };
        match built {
            Ok(request) => {
                let operation = request.operation();
                (Service { state: State::Performing { operation } }, Action::Perform {
                    progress,
                    request,
                })
            },
            Err(error) => Service::finish(Err(error)),
        }
    }

    /// Reads the command line and dispatches the command it spells; a
    /// command line that spells none ends the invocation.
    pub fn run(args: &Vec<String>) -> (r: (Service, Action))
        ensures
            (r.0@, r.1@) == spec_run(args.deep_view()),
    {
        match Command::parse(args) {
            Ok(command) => Service::dispatch(command),
            Err(error) => Service::finish(Err(error)),
        }
    }

    /// Takes the reply to the action handed out last and hands out the
    /// next one.
    pub fn advance(self, reply: Result<(), String>) -> (r: (Service, Action))
        ensures
            (r.0@, r.1@) == spec_advance(self@, reply_view(reply)),
    {
        match self.state {
            State::Resolving { args } => match reply {
                Ok(_) => Service::run(&args),
                Err(why) => Service::finish(Err(Error::PlatformUnsupported(why))),
            },
            State::Performing { operation } => match reply {
                Ok(_) => Service::finish(Ok(())),
                Err(why) => Service::finish(Err(operation.failure(why))),
            },
            State::Finished { outcome } => Service::finish(outcome),
        }
    }
}

/// The actions handed out in answer to `replies`, one after the other,
/// beginning at `stage`.
pub open spec fn spec_actions(stage: Stage, replies: Seq<Result<(), Seq<char>>>) -> Seq<
    ActionView,
>
    decreases replies.len(),
{
    if replies.len() == 0 {
        Seq::empty()
    } else {
        let step = spec_advance(stage, replies[0]);
        seq![step.1] + spec_actions(step.0, replies.skip(1))
    }
}

/// Every reply is answered with one action.
pub proof fn lemma_one_action_per_reply(stage: Stage, replies: Seq<Result<(), Seq<char>>>)
    ensures
        spec_actions(stage, replies).len() == replies.len(),
    decreases replies.len(),
{
    if replies.len() > 0 {
        lemma_one_action_per_reply(spec_advance(stage, replies[0]).0, replies.skip(1));
    }
}

/// Once an invocation is over it stays over: whatever is reported
/// afterwards, the answer is the same exit, and never a request.
pub proof fn lemma_exit_repeats(
    outcome: Result<(), ErrorView>,
    replies: Seq<Result<(), Seq<char>>>,
)
    ensures
        spec_actions(Stage::Finished { outcome }, replies).len() == replies.len(),
        forall|i: int|
            0 <= i < replies.len() ==> spec_actions(Stage::Finished { outcome }, replies)[i]
                == ActionView::Exit(outcome),
    decreases replies.len(),
{
    if replies.len() > 0 {
        lemma_exit_repeats(outcome, replies.skip(1));
    }
}

/// An invocation asks the manager for at most one thing: a request can
/// only be the answer to the first reply, the one that says the manager
/// was found, and then it is the request that the command line spells.
/// No answer asks to look for the manager again, and every answer after
/// the first is an exit.
pub proof fn lemma_one_request(args: Seq<Seq<char>>, replies: Seq<Result<(), Seq<char>>>)
    ensures
        forall|i: int|
            0 <= i < replies.len() ==> {
                let action = #[trigger] spec_actions(Stage::Resolving { args }, replies)[i];
                &&& !(action is Resolve)
                &&& i >= 1 ==> action is Exit
                &&& action is Perform ==> {
                    &&& i == 0
                    &&& replies[0] is Ok
                    &&& spec_parse(args) is Some
                    &&& action->Perform_request == spec_request(spec_parse(args)->0)
                }
            },
{
    if replies.len() > 0 {
        let step = spec_advance(Stage::Resolving { args }, replies[0]);
        let rest = replies.skip(1);
        lemma_one_action_per_reply(step.0, rest);
        if step.0 is Finished {
            lemma_exit_repeats(step.0->Finished_outcome, rest);
        } else if rest.len() > 0 {
            let then = spec_advance(step.0, rest[0]);
            lemma_exit_repeats(then.0->Finished_outcome, rest.skip(1));
            lemma_one_action_per_reply(then.0, rest.skip(1));
        }
    }
}

/// A command line that spells no command ends the invocation with a
/// status other than zero, and the manager is asked for nothing.
pub proof fn lemma_usage_error_asks_nothing(
    args: Seq<Seq<char>>,
    replies: Seq<Result<(), Seq<char>>>,
)
    requires
        spec_parse(args) is None,
    ensures
        spec_run(args) == spec_finish(Err(ErrorView::UsageError)),
        forall|i: int|
            0 <= i < replies.len() ==> {
                let action = #[trigger] spec_actions(Stage::Resolving { args }, replies)[i];
                &&& action is Exit
                &&& spec_exit_status(action->Exit_0) != 0
            },
{
    if replies.len() > 0 {
        let step = spec_advance(Stage::Resolving { args }, replies[0]);
        lemma_exit_repeats(step.0->Finished_outcome, replies.skip(1));
    }
}

/// Leaving out an option that the verb needs, under any of the four
/// verbs, ends the invocation with a status other than zero, and the
/// manager is asked for nothing.
pub proof fn lemma_missing_option_asks_nothing(
    args: Seq<Seq<char>>,
    opt: Opt,
    replies: Seq<Result<(), Seq<char>>>,
)
    requires
        args.len() >= 2,
        needs(args[1], opt),
        value_of(args.skip(2), opt) is None,
    ensures
        spec_run(args) == spec_finish(Err(ErrorView::UsageError)),
        forall|i: int|
            0 <= i < replies.len() ==> {
                let action = #[trigger] spec_actions(Stage::Resolving { args }, replies)[i];
                &&& action is Exit
                &&& spec_exit_status(action->Exit_0) != 0
            },
{
    lemma_missing_option(args, opt);
    lemma_usage_error_asks_nothing(args, replies);
}

/// The service's name reaches the request as the user gave it: the label
/// in the request, written out, is the value of the service option,
/// character for character, under each of the four verbs.
pub proof fn lemma_request_keeps_service_name(args: Seq<Seq<char>>)
    requires
        spec_parse(args) is Some,
    ensures
        spec_run(args).1 is Perform,
        value_of(args.skip(2), Opt::Service) == Some(spec_parse(args)->0.service()),
        spec_run(args).1->Perform_request.label().qualified_name() == spec_parse(
            args,
        )->0.service(),
{
    lemma_label_round_trip(spec_parse(args)->0.service());
}

/// An install request holds what the command line gave: the executable's
/// path as it stands, and the argument line cut at its single spaces.
/// The arguments are one more than the line has spaces, none of them holds
/// a space, and put together with single spaces they are the line again,
/// so that none is lost, added or moved.
pub proof fn lemma_install_request(args: Seq<Seq<char>>)
    requires
        args.len() >= 2,
        args[1] == "install"@,
        spec_parse(args) is Some,
    ensures
        spec_run(args).1 is Perform,
        spec_run(args).1->Perform_request matches RequestView::Install {
            program,
            args: arguments,
            ..
        } && {
            let line = value_of(args.skip(2), Opt::Args)->0;
            &&& Some(program) == value_of(args.skip(2), Opt::Executable)
            &&& arguments == split(line, ' ')
            &&& arguments.len() == line.to_multiset().count(' ') + 1
            &&& clean(arguments, ' ')
            &&& join(arguments, ' ') == line
        },
{
    let line = value_of(args.skip(2), Opt::Args)->0;
    lemma_split_count(line, ' ');
    lemma_split_clean(line, ' ');
    lemma_join_split(line, ' ');
}

/// A failed operation ends the invocation at once, with the failure of
/// that operation and a status other than zero; whatever is reported
/// afterwards, nothing further is asked of the manager.
pub proof fn lemma_failure_is_final(
    operation: Operation,
    why: Seq<char>,
    replies: Seq<Result<(), Seq<char>>>,
)
    ensures
        spec_advance(Stage::Performing { operation }, Err(why)) == spec_finish(
            Err(spec_failure(operation, why)),
        ),
        spec_exit_status(Err(spec_failure(operation, why))) != 0,
        forall|i: int|
            0 <= i < replies.len() ==> #[trigger] spec_actions(
                Stage::Finished { outcome: Err(spec_failure(operation, why)) },
                replies,
            )[i] == ActionView::Exit(Err(spec_failure(operation, why))),
{
    lemma_exit_repeats(Err(spec_failure(operation, why)), replies);
}

} // verus!
