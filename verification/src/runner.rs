//! One run of the client: its command line input, the states it passes through
//! and the work it asks for in each.

use crate::client::{lrange_request_view, Client, OutboundRequest, OutboundRequestView};
use crate::config::{
    asks_debug, lemma_resolved, normalized_url, resolved, Config, ConfigView, LoadError,
};
use crate::prompt::{answer_of, classify_answer, rejection_notice, rejection_text};
use crate::text::{str_equal, trim, trimmed};
use vstd::prelude::*;
use vstd::string::*;

verus! {

/// The one action that the client knows.
pub const ACTION_GET: &'static str = "get";

/// The list that the action `get` reads.
pub const GET_NAMESPACE: &'static str = "dummy";

/// The first entry that the action `get` asks for.
pub const GET_START: u64 = 0;

/// The last entry that the action `get` asks for.
pub const GET_STOP: u64 = 9;

/// What the operator is told when the run ends because the answer was no.
pub const QUIT_NOTICE: &'static str = "Quitting.";

/// What the operator is told when debug mode is on.
pub const DEBUG_NOTICE: &'static str = "debug mode: on";

/// The options given on the command line, as the parser hands them over.
#[derive(Debug, Clone)]
pub struct Opts {
    /// Path of the configuration file; empty for the default path.
    pub config_file: String,
    /// Whether debug mode was asked for.
    pub debug: bool,
    /// A server URL to use in place of the configured one; empty for none.
    pub server_url: String,
}

/// The command line input of one run.
#[derive(Debug)]
pub struct Args {
    /// Path of the configuration file; empty for the default path.
    pub config_file: String,
    /// Whether debug mode was asked for.
    pub debug: bool,
    /// A server URL to use in place of the configured one; empty for none.
    pub server_url: String,
    /// The name of the requested action.
    pub command: String,
}

/// The texts and the flag that an `Opts` holds.
pub struct OptsView {
    pub config_file: Seq<char>,
    pub debug: bool,
    pub server_url: Seq<char>,
}

/// The texts and the flag that an `Args` holds.
pub struct ArgsView {
    pub config_file: Seq<char>,
    pub debug: bool,
    pub server_url: Seq<char>,
    pub command: Seq<char>,
}

impl View for Opts {
    type V = OptsView;

    open spec fn view(&self) -> OptsView {
        OptsView {
            config_file: self.config_file@,
            debug: self.debug,
            server_url: self.server_url@,
        }
    }
}

impl View for Args {
    type V = ArgsView;

    open spec fn view(&self) -> ArgsView {
        ArgsView {
            config_file: self.config_file@,
            debug: self.debug,
            server_url: self.server_url@,
            command: self.command@,
        }
    }
}

/// The options of a command line that gave none: the default path, no debug
/// mode, no other server.
pub open spec fn no_opts() -> OptsView {
    OptsView { config_file: Seq::empty(), debug: false, server_url: Seq::empty() }
}

/// The input of a run with the options `opts`, its action not yet named.
pub open spec fn args_of(opts: OptsView) -> ArgsView {
    ArgsView {
        config_file: opts.config_file,
        debug: opts.debug,
        server_url: opts.server_url,
        command: Seq::empty(),
    }
}

impl Default for Opts {
    fn default() -> (opts: Opts)
        ensures
            opts@ == no_opts(),
    {
        Opts { config_file: String::new(), debug: false, server_url: String::new() }
    }
}

impl Default for Args {
    fn default() -> (args: Args)
        ensures
            args@ == args_of(no_opts()),
    {
        Args {
            config_file: String::new(),
            debug: false,
            server_url: String::new(),
            command: String::new(),
        }
    }
}

impl Clone for Args {
    fn clone(&self) -> (copy: Args)
        ensures
            copy@ == self@,
    {
        Args {
            config_file: self.config_file.clone(),
            debug: self.debug,
            server_url: self.server_url.clone(),
            command: self.command.clone(),
        }
    }
}

impl Args {
    /// The input of a run with the options `opts`, its action not yet named.
    pub fn from(opts: &Opts) -> (args: Args)
        ensures
            args@ == args_of(opts@),
    {
        Args {
            config_file: opts.config_file.clone(),
            debug: opts.debug,
            server_url: opts.server_url.clone(),
            command: String::new(),
        }
    }
}

/// Whether `name` is an action that the client knows.
pub open spec fn is_known_action(name: Seq<char>) -> bool {
    name == ACTION_GET@
}

/// Whether `name` is an action that the client knows.
pub fn is_known_command(name: &str) -> (known: bool)
    ensures
        known == is_known_action(name@),
{
    str_equal(name, ACTION_GET)
}

/// What is reported of an action of the name `name` that the client does not
/// know.
pub open spec fn unknown_action_text(name: Seq<char>) -> Seq<char> {
    "unknown action: "@ + name
}

/// Why a run failed.
#[derive(Debug, Clone, Copy, PartialEq, Eq, Structural)]
pub enum Failure {
    /// An I/O error: the configuration directory could not be made.
    ConfigHome,
    /// An I/O error: the configuration file could not be read.
    Read,
    /// A parse error: the configuration file does not hold well-formed settings.
    Parse,
    /// An I/O error: the default configuration file could not be written.
    CreateDefault,
    /// A usage error: the settings cannot be used.
    Usage,
    /// A network error: the request did not reach the server, or no response
    /// came back.
    Network,
}

/// The words with which a run that failed by `failure` ends.
pub open spec fn failure_text(failure: Failure) -> Seq<char> {
    match failure {
        Failure::CreateDefault => "Something wrong :'("@,
        Failure::Usage => "Usage: eloquentlog <ACTION> <OPTION>, ..."@,
        _ => ""@,
    }
}

impl Failure {
    /// The words with which a run that failed so ends.
    pub fn message(&self) -> (text: &'static str)
        ensures
            text@ == failure_text(*self),
    {
        match self {
            Failure::CreateDefault => "Something wrong :'(",
            Failure::Usage => "Usage: eloquentlog <ACTION> <OPTION>, ...",
            _ => "",
        }
    }
}

/// Where the question to the operator stands.
#[derive(Debug)]
pub enum Prompt {
    /// The question is being asked for the first time.
    Asking,
    /// The question is being asked again, the given answer not having been
    /// understood.
    AskingAgain(String),
    /// The answer was yes: the default configuration file is being written.
    Creating,
}

/// How far a run has come.
#[derive(Debug)]
pub enum State {
    /// Nothing is done yet: the configuration directory is being made.
    Start,
    /// The configuration file is being read.
    Resolving,
    /// There is no configuration file: the operator is asked whether to make
    /// one.
    Prompting(Prompt),
    /// The settings of the run are known.
    Ready(Config),
    /// The requested action is being carried out.
    Dispatching(Config),
    /// The run is over and went well.
    Succeeded,
    /// The run is over and went wrong.
    Failed(Failure),
    /// The run is over because the operator wanted no configuration file.
    Quit,
}

/// What came of the work that the run last asked for.
#[derive(Debug)]
pub enum Event {
    /// Whether the configuration directory exists now.
    HomeEnsured(bool),
    /// The settings as the configuration file holds them, or why there are none.
    Loaded(Result<Config, LoadError>),
    /// The line that the operator typed.
    Answered(String),
    /// The settings as the default file, just written, holds them; nothing if
    /// it could not be written or read back.
    Created(Option<Config>),
    /// The operator was told what there was to tell.
    Announced,
    /// The response as it is shown to the operator, or why none came.
    Responded(Result<String, String>),
    /// The unknown action was reported.
    Reported,
}

/// The work that the run asks for next.
#[derive(Debug)]
pub enum Action {
    /// Make the configuration directory, with the directories above it.
    EnsureConfigHome,
    /// Read the configuration file at the given path, or at the default path.
    LoadConfig(Option<String>),
    /// Ask the operator whether to create a configuration file, saying the
    /// given words first.
    Ask(Option<String>),
    /// Write the default configuration file and read it back.
    CreateDefault,
    /// Go on, telling the operator the given words first.
    Announce(Option<&'static str>),
    /// Send the request and show the response. The flag asks to show the
    /// address as well.
    Send(OutboundRequest, bool),
    /// Report the given words as an error.
    Report(String),
    /// End the process with the given exit code and the given last words: a
    /// notice to the operator with the code 0, an error message with any other.
    Exit(i32, &'static str),
}

/// What a `Prompt` holds.
pub enum PromptView {
    Asking,
    AskingAgain(Seq<char>),
    Creating,
}

/// What a `State` holds.
pub enum StateView {
    Start,
    Resolving,
    Prompting(PromptView),
    Ready(ConfigView),
    Dispatching(ConfigView),
    Succeeded,
    Failed(Failure),
    Quit,
}

/// What an `Event` holds.
pub enum EventView {
    HomeEnsured(bool),
    Loaded(Result<ConfigView, LoadError>),
    Answered(Seq<char>),
    Created(Option<ConfigView>),
    Announced,
    Responded(Result<Seq<char>, Seq<char>>),
    Reported,
}

/// What an `Action` holds.
pub enum ActionView {
    EnsureConfigHome,
    LoadConfig(Option<Seq<char>>),
    Ask(Option<Seq<char>>),
    CreateDefault,
    Announce(Option<Seq<char>>),
    Send(OutboundRequestView, bool),
    Report(Seq<char>),
    Exit(int, Seq<char>),
}

impl View for Prompt {
    type V = PromptView;

    open spec fn view(&self) -> PromptView {
        match self {
            Prompt::Asking => PromptView::Asking,
            Prompt::AskingAgain(answer) => PromptView::AskingAgain(answer@),
            Prompt::Creating => PromptView::Creating,
        }
    }
}

impl View for State {
    type V = StateView;

    open spec fn view(&self) -> StateView {
        match self {
            State::Start => StateView::Start,
            State::Resolving => StateView::Resolving,
            State::Prompting(prompt) => StateView::Prompting(prompt@),
            State::Ready(config) => StateView::Ready(config@),
            State::Dispatching(config) => StateView::Dispatching(config@),
            State::Succeeded => StateView::Succeeded,
            State::Failed(failure) => StateView::Failed(*failure),
            State::Quit => StateView::Quit,
        }
    }
}

impl View for Event {
    type V = EventView;

    open spec fn view(&self) -> EventView {
        match self {
            Event::HomeEnsured(done) => EventView::HomeEnsured(*done),
            Event::Loaded(Ok(config)) => EventView::Loaded(Ok(config@)),
            Event::Loaded(Err(error)) => EventView::Loaded(Err(*error)),
            Event::Answered(line) => EventView::Answered(line@),
            Event::Created(Some(config)) => EventView::Created(Some(config@)),
            Event::Created(None) => EventView::Created(None),
            Event::Announced => EventView::Announced,
            Event::Responded(Ok(shown)) => EventView::Responded(Ok(shown@)),
            Event::Responded(Err(reason)) => EventView::Responded(Err(reason@)),
            Event::Reported => EventView::Reported,
        }
    }
}

impl View for Action {
    type V = ActionView;

    open spec fn view(&self) -> ActionView {
        match self {
            Action::EnsureConfigHome => ActionView::EnsureConfigHome,
            Action::LoadConfig(Some(path)) => ActionView::LoadConfig(Some(path@)),
            Action::LoadConfig(None) => ActionView::LoadConfig(None),
            Action::Ask(Some(words)) => ActionView::Ask(Some(words@)),
            Action::Ask(None) => ActionView::Ask(None),
            Action::CreateDefault => ActionView::CreateDefault,
            Action::Announce(Some(words)) => ActionView::Announce(Some(words@)),
            Action::Announce(None) => ActionView::Announce(None),
            Action::Send(request, verbose) => ActionView::Send(request@, *verbose),
            Action::Report(words) => ActionView::Report(words@),
            Action::Exit(code, words) => ActionView::Exit(*code as int, words@),
        }
    }
}

/// Whether the settings `config` can be used. Every configuration is accepted.
pub open spec fn is_accepted(config: ConfigView) -> bool {
    true
}

/// Whether a run in the state `state` is over.
pub open spec fn is_terminal(state: StateView) -> bool {
    state is Succeeded || state is Failed || state is Quit
}

/// The state after `Start`, once `event` has come.
pub open spec fn after_start(event: EventView) -> StateView {
    match event {
        EventView::HomeEnsured(true) => StateView::Resolving,
        EventView::HomeEnsured(false) => StateView::Failed(Failure::ConfigHome),
        _ => StateView::Start,
    }
}

/// The state after `Resolving`, once `event` has come.
pub open spec fn after_resolving(args: ArgsView, event: EventView) -> StateView {
    match event {
        EventView::Loaded(Ok(config)) => StateView::Ready(resolved(config, args)),
        EventView::Loaded(Err(LoadError::NotFound)) => StateView::Prompting(PromptView::Asking),
        EventView::Loaded(Err(LoadError::Parse)) => StateView::Failed(Failure::Parse),
        EventView::Loaded(Err(LoadError::Io)) => StateView::Failed(Failure::Read),
        _ => StateView::Resolving,
    }
}

/// The state after the operator has typed `line` in answer to the question.
pub open spec fn after_answer(line: Seq<char>) -> StateView {
    match answer_of(trimmed(line)) {
        Some(true) => StateView::Prompting(PromptView::Creating),
        Some(false) => StateView::Quit,
        None => StateView::Prompting(PromptView::AskingAgain(trimmed(line))),
    }
}

/// The state after `Prompting`, once `event` has come.
pub open spec fn after_prompting(
    args: ArgsView,
    prompt: PromptView,
    event: EventView,
) -> StateView {
    match prompt {
        PromptView::Creating => match event {
            EventView::Created(Some(config)) => StateView::Ready(resolved(config, args)),
            EventView::Created(None) => StateView::Failed(Failure::CreateDefault),
            _ => StateView::Prompting(prompt),
        },
        _ => match event {
            EventView::Answered(line) => after_answer(line),
            _ => StateView::Prompting(prompt),
        },
    }
}

/// The state after `Ready`, once `event` has come.
pub open spec fn after_ready(config: ConfigView, event: EventView) -> StateView {
    match event {
        EventView::Announced => if is_accepted(config) {
            StateView::Dispatching(config)
        } else {
            StateView::Failed(Failure::Usage)
        },
        _ => StateView::Ready(config),
    }
}

/// The state after `Dispatching`, once `event` has come.
pub open spec fn after_dispatching(
    args: ArgsView,
    config: ConfigView,
    event: EventView,
) -> StateView {
    if is_known_action(args.command) {
        match event {
            EventView::Responded(Ok(_)) => StateView::Succeeded,
            EventView::Responded(Err(_)) => StateView::Failed(Failure::Network),
            _ => StateView::Dispatching(config),
        }
    } else {
        match event {
            EventView::Reported => StateView::Succeeded,
            _ => StateView::Dispatching(config),
        }
    }
}

/// The state that follows `state` once `event` has come, in a run with the
/// input `args`. An event that does not answer what the state asked for leaves
/// the state as it is, and so does every event once the run is over.
pub open spec fn next_state(args: ArgsView, state: StateView, event: EventView) -> StateView {
    match state {
        StateView::Start => after_start(event),
        StateView::Resolving => after_resolving(args, event),
        StateView::Prompting(prompt) => after_prompting(args, prompt, event),
        StateView::Ready(config) => after_ready(config, event),
        StateView::Dispatching(config) => after_dispatching(args, config, event),
        _ => state,
    }
}

/// The path at which a run with the input `args` reads its configuration: the
/// given one, or the default path where none was given.
pub open spec fn load_path(args: ArgsView) -> Option<Seq<char>> {
    if args.config_file.len() > 0 {
        Some(args.config_file)
    } else {
        None
    }
}

/// The request that the action `get` sends with the settings `config`.
pub open spec fn get_request(config: ConfigView) -> OutboundRequestView {
    lrange_request_view(config, GET_NAMESPACE@, GET_START as nat, GET_STOP as nat)
}

/// The exit code of a run in the state `state`, once it is over: 0 when it went
/// well or the operator ended it, 1 when it failed.
pub open spec fn exit_code_of(state: StateView) -> Option<i32> {
    match state {
        StateView::Succeeded => Some(0i32),
        StateView::Quit => Some(0i32),
        StateView::Failed(_) => Some(1i32),
        _ => None,
    }
}

/// The work that a run with the input `args` asks for in the state `state`.
pub open spec fn request_of(args: ArgsView, state: StateView) -> ActionView {
    match state {
        StateView::Start => ActionView::EnsureConfigHome,
        StateView::Resolving => ActionView::LoadConfig(load_path(args)),
        StateView::Prompting(PromptView::Asking) => ActionView::Ask(None),
        StateView::Prompting(PromptView::AskingAgain(answer)) => ActionView::Ask(
            Some(rejection_text(answer)),
        ),
        StateView::Prompting(PromptView::Creating) => ActionView::CreateDefault,
        StateView::Ready(config) => ActionView::Announce(
            if is_accepted(config) && asks_debug(config) {
                Some(DEBUG_NOTICE@)
            } else {
                None
            },
        ),
        StateView::Dispatching(config) => if is_known_action(args.command) {
            ActionView::Send(get_request(config), asks_debug(config))
        } else {
            ActionView::Report(unknown_action_text(args.command))
        },
        StateView::Succeeded => ActionView::Exit(0, ""@),
        StateView::Quit => ActionView::Exit(0, QUIT_NOTICE@),
        StateView::Failed(failure) => ActionView::Exit(1, failure_text(failure)),
    }
}

/// A run of the client: its input and how far it has come.
#[derive(Debug)]
pub struct Runner {
    pub args: Args,
    pub state: State,
}

/// The state that follows `state` once `event` has come.
fn advance(args: &Args, state: State, event: Event) -> (next: State)
    ensures
        next@ == next_state(args@, state@, event@),
{
    match state {
        State::Start => match event {
            Event::HomeEnsured(true) => State::Resolving,
            Event::HomeEnsured(false) => State::Failed(Failure::ConfigHome),
            _ => State::Start,
        },
        State::Resolving => match event {
            Event::Loaded(Ok(config)) => State::Ready(config.normalized().update(args.clone())),
            Event::Loaded(Err(LoadError::NotFound)) => State::Prompting(Prompt::Asking),
            Event::Loaded(Err(LoadError::Parse)) => State::Failed(Failure::Parse),
            Event::Loaded(Err(LoadError::Io)) => State::Failed(Failure::Read),
            _ => State::Resolving,
        },
        State::Prompting(Prompt::Creating) => match event {
            Event::Created(Some(config)) => State::Ready(config.normalized().update(args.clone())),
            Event::Created(None) => State::Failed(Failure::CreateDefault),
            _ => State::Prompting(Prompt::Creating),
        },
        State::Prompting(prompt) => match event {
            Event::Answered(line) => {
                let token = trim(line.as_str());
                match classify_answer(token) {
                    Some(true) => State::Prompting(Prompt::Creating),
                    Some(false) => State::Quit,
                    None => State::Prompting(Prompt::AskingAgain(token.to_owned())),
                }
            },
            _ => State::Prompting(prompt),
        },
        State::Ready(config) => match event {
            Event::Announced => if config.is_valid() {
                State::Dispatching(config)
            } else {
                State::Failed(Failure::Usage)
            },
            _ => State::Ready(config),
        },
        State::Dispatching(config) => if is_known_command(args.command.as_str()) {
            match event {
                Event::Responded(Ok(_)) => State::Succeeded,
                Event::Responded(Err(_)) => State::Failed(Failure::Network),
                _ => State::Dispatching(config),
            }
        } else {
            match event {
                Event::Reported => State::Succeeded,
                _ => State::Dispatching(config),
            }
        },
        State::Succeeded => State::Succeeded,
        State::Failed(failure) => State::Failed(failure),
        State::Quit => State::Quit,
    }
}

/// The work that the run asks for in the state `state`.
fn request(args: &Args, state: &State) -> (action: Action)
    ensures
        action@ == request_of(args@, state@),
{
    match state {
        State::Start => Action::EnsureConfigHome,
        State::Resolving => if args.config_file.as_str().is_empty() {
            Action::LoadConfig(None)
        } else {
            Action::LoadConfig(Some(args.config_file.clone()))
        },
        State::Prompting(Prompt::Asking) => Action::Ask(None),
        State::Prompting(Prompt::AskingAgain(answer)) => Action::Ask(
            Some(rejection_notice(answer.as_str())),
        ),
        State::Prompting(Prompt::Creating) => Action::CreateDefault,
        State::Ready(config) => if config.is_valid() && config.is_debug() {
            Action::Announce(Some(DEBUG_NOTICE))
        } else {
            Action::Announce(None)
        },
        State::Dispatching(config) => if is_known_command(args.command.as_str()) {
            let client = Client::new(config.clone());
            let request = client.lrange_request(
                String::from_str(GET_NAMESPACE),
                GET_START,
                GET_STOP,
            );
            Action::Send(request, config.is_debug())
        } else {
            Action::Report(String::from_str("unknown action: ").concat(args.command.as_str()))
        },
        State::Succeeded => Action::Exit(0, ""),
        State::Quit => Action::Exit(0, QUIT_NOTICE),
        State::Failed(failure) => Action::Exit(1, failure.message()),
    }
}

impl Runner {
    /// Begins a run of the action `cmd` with the input `args`: nothing is done
    /// yet, and the first thing asked for is the configuration directory.
    pub fn start(cmd: &str, args: Args) -> (begun: (Runner, Action))
        ensures
            begun.0.args@ == (ArgsView { command: cmd@, ..args@ }),
            begun.0.state@ == StateView::Start,
            begun.1@ == ActionView::EnsureConfigHome,
    {
        let mut args = args;
        args.command = cmd.to_owned();
        (Runner { args, state: State::Start }, Action::EnsureConfigHome)
    }

    /// Takes what came of the work last asked for, moves the run on and says
    /// what work it asks for next.
    pub fn step(self, event: Event) -> (next: (Runner, Action))
        ensures
            next.0.args@ == self.args@,
            next.0.state@ == next_state(self.args@, self.state@, event@),
            next.1@ == request_of(self.args@, next.0.state@),
    {
        let Runner { args, state } = self;
        let state = advance(&args, state, event);
        let action = request(&args, &state);
        (Runner { args, state }, action)
    }

    /// Whether the run is over.
    pub fn is_over(&self) -> (over: bool)
        ensures
            over == is_terminal(self.state@),
    {
        match self.state {
            State::Succeeded => true,
            State::Failed(_) => true,
            State::Quit => true,
            _ => false,
        }
    }

    /// The exit code of the run, once it is over.
    pub fn exit_code(&self) -> (code: Option<i32>)
        ensures
            code == exit_code_of(self.state@),
    {
        match self.state {
            State::Succeeded => Some(0),
            State::Quit => Some(0),
            State::Failed(_) => Some(1),
            _ => None,
        }
    }
}

/// Whether a run may pass from the state `from` to the state `to` in one step:
/// from `Start` to `Resolving`; from `Resolving` to `Prompting` or `Ready`; from
/// `Prompting` to `Ready` or `Quit`; from `Ready` to `Dispatching`; from
/// `Dispatching` to `Succeeded`; from each of these five to `Failed`; and from
/// every state to itself.
pub open spec fn may_follow(from: StateView, to: StateView) -> bool {
    to == from || match from {
        StateView::Start => to is Resolving || to is Failed,
        StateView::Resolving => to is Prompting || to is Ready || to is Failed,
        StateView::Prompting(_) => to is Prompting || to is Ready || to is Quit || to is Failed,
        StateView::Ready(_) => to is Dispatching || to is Failed,
        StateView::Dispatching(_) => to is Succeeded || to is Failed,
        _ => false,
    }
}

/// Every step of a run goes along the chart of its states.
pub proof fn lemma_step_follows_chart(args: ArgsView, state: StateView, event: EventView)
    ensures
        may_follow(state, next_state(args, state, event)),
{
}

/// A run that is over stays as it is whatever comes, and asks for nothing but
/// the end of the process: with exit code 1 after a failure, else with 0. A run
/// that is not over has no exit code and does not ask for the end.
pub proof fn lemma_over_stays_over(args: ArgsView, state: StateView, event: EventView)
    ensures
        is_terminal(state) ==> next_state(args, state, event) == state,
        is_terminal(state) <==> exit_code_of(state) is Some,
        is_terminal(state) <==> request_of(args, state) is Exit,
        is_terminal(state) ==> request_of(args, state)->Exit_0 == exit_code_of(state)->0,
        state is Failed ==> exit_code_of(state) == Some(1i32),
        state is Succeeded || state is Quit ==> exit_code_of(state) == Some(0i32),
{
}

/// The operator is asked only when the configuration file was found missing.
pub proof fn lemma_asked_only_without_file(args: ArgsView, state: StateView, event: EventView)
    requires
        next_state(args, state, event) is Prompting,
        !(state is Prompting),
    ensures
        state is Resolving,
        event == EventView::Loaded(Err(LoadError::NotFound)),
        next_state(args, state, event) == StateView::Prompting(PromptView::Asking),
{
}

/// The default configuration file is written in one state only, and that state
/// is entered only when the operator, asked, has said yes.
pub proof fn lemma_created_only_on_yes(args: ArgsView, state: StateView, event: EventView)
    ensures
        ({
            let creating = StateView::Prompting(PromptView::Creating);
            &&& request_of(args, state) is CreateDefault <==> state == creating
            &&& next_state(args, state, event) == creating && state != creating ==> {
                &&& state is Prompting
                &&& event is Answered
                &&& answer_of(trimmed(event->Answered_0)) == Some(true)
            }
        }),
{
}

/// An answer of no ends the run at once, with exit code 0 and a notice that it
/// quits; an answer of yes has the default configuration file written; and any
/// other answer brings the question again, with the words that the answer was
/// not understood.
pub proof fn lemma_answers(args: ArgsView, prompt: PromptView, line: Seq<char>)
    requires
        !(prompt is Creating),
    ensures
        ({
            let answer = answer_of(trimmed(line));
            let next = next_state(args, StateView::Prompting(prompt), EventView::Answered(line));
            &&& answer == Some(false) ==> next == StateView::Quit
            &&& answer == Some(true) ==> next == StateView::Prompting(PromptView::Creating)
            &&& answer is None ==> request_of(args, next) == ActionView::Ask(
                Some(rejection_text(trimmed(line))),
            )
            &&& request_of(args, StateView::Quit) == ActionView::Exit(0, QUIT_NOTICE@)
        }),
{
}

/// The settings with which a run becomes ready are those of the file, read or
/// just created, with the command line input applied: they ask for debug mode
/// exactly when the flag was given.
pub proof fn lemma_ready_is_resolved(args: ArgsView, state: StateView, event: EventView)
    requires
        next_state(args, state, event) is Ready,
        !(state is Ready),
    ensures
        ({
            let next = next_state(args, state, event);
            &&& event matches EventView::Loaded(Ok(config)) ==> state is Resolving && next
                == StateView::Ready(resolved(config, args))
            &&& event matches EventView::Created(Some(config)) ==> state is Prompting && next
                == StateView::Ready(resolved(config, args))
            &&& (event matches EventView::Loaded(Ok(_))) || (event matches EventView::Created(
                Some(_),
            ))
            &&& asks_debug(next->Ready_0) <==> args.debug
        }),
{
    match event {
        EventView::Loaded(Ok(config)) => {
            lemma_resolved(config, args);
        },
        EventView::Created(Some(config)) => {
            lemma_resolved(config, args);
        },
        _ => {},
    }
}

/// Whether `config` can be the settings of a run with the input `args`: they
/// ask for debug mode exactly when the flag was given, and name the server that
/// the command line names, if it names one.
pub open spec fn is_resolved(config: ConfigView, args: ArgsView) -> bool {
    &&& asks_debug(config) <==> args.debug
    &&& args.server_url.len() > 0 ==> config.url == normalized_url(args.server_url)
}

/// Whether the state `state` fits a run with the input `args`: the settings it
/// holds, if any, can be the settings of such a run.
pub open spec fn fits(args: ArgsView, state: StateView) -> bool {
    match state {
        StateView::Ready(config) => is_resolved(config, args),
        StateView::Dispatching(config) => is_resolved(config, args),
        _ => true,
    }
}

/// A run begins in a state that fits its input, and every step leads from a
/// state that fits to one that fits. So the operator is told of debug mode
/// exactly when the flag was given, and the address of a request is shown
/// exactly then.
pub proof fn lemma_state_fits(args: ArgsView, state: StateView, event: EventView)
    requires
        fits(args, state),
    ensures
        ({
            let next = next_state(args, state, event);
            &&& fits(args, StateView::Start)
            &&& fits(args, next)
            &&& next is Ready ==> (request_of(args, next) == ActionView::Announce(
                Some(DEBUG_NOTICE@),
            ) <==> args.debug)
            &&& next is Dispatching && is_known_action(args.command) ==> request_of(
                args,
                next,
            )->Send_1 == args.debug
        }),
{
    match event {
        EventView::Loaded(Ok(config)) => {
            lemma_resolved(config, args);
        },
        EventView::Created(Some(config)) => {
            lemma_resolved(config, args);
        },
        _ => {},
    }
}

/// Settings that were just created and read back count as settings that were
/// read: the run becomes ready with the same settings either way.
pub proof fn lemma_created_counts_as_loaded(args: ArgsView, config: ConfigView)
    ensures
        next_state(
            args,
            StateView::Prompting(PromptView::Creating),
            EventView::Created(Some(config)),
        ) == next_state(args, StateView::Resolving, EventView::Loaded(Ok(config))),
{
}

/// A request is sent only for the known action, and carries the settings of the
/// run; any other action is reported and the run still ends well.
pub proof fn lemma_dispatch(args: ArgsView, config: ConfigView, event: EventView)
    ensures
        ({
            let dispatching = StateView::Dispatching(config);
            let known = is_known_action(args.command);
            &&& known ==> request_of(args, dispatching) == ActionView::Send(
                get_request(config),
                asks_debug(config),
            )
            &&& !known ==> request_of(args, dispatching) == ActionView::Report(
                unknown_action_text(args.command),
            )
            &&& !known ==> next_state(args, dispatching, EventView::Reported)
                == StateView::Succeeded
            &&& known && event is Responded ==> is_terminal(next_state(args, dispatching, event))
        }),
{
}

} // verus!
