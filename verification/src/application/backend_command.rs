//! Launching an application as a plain child process.
//!
//! Where there is no systemd, the commands before and after the application are
//! run one after another, as ExecStartPre and ExecStopPost would be. What is
//! run, in which order and under which conditions is decided here; running it
//! is up to the caller, who reports how each step went.

use crate::application::{
    environment, make_envs, parent_directory, ApplicationConfig, ApplicationContext, HostOs,
};
use crate::session::SessionShutdownReason;
use crate::text::{copied, optional_text, split, split_once, text_lists, texts};
use vstd::prelude::*;

verus! {

// ---------------------------------------------------------------------------
// Environment
// ---------------------------------------------------------------------------

/// The names and values of a list of pairs.
pub open spec fn pair_texts(pairs: Seq<(String, String)>) -> Seq<(Seq<char>, Seq<char>)> {
    pairs.map_values(|pair: (String, String)| (pair.0@, pair.1@))
}

/// The names and values of `NAME=value` texts. A text without an equals sign is
/// left out.
pub open spec fn named_values(envs: Seq<Seq<char>>) -> Seq<(Seq<char>, Seq<char>)>
    decreases envs.len(),
{
    if envs.len() == 0 {
        Seq::empty()
    } else {
        let earlier = named_values(envs.drop_last());
        match split(envs.last(), '=') {
            Some(pair) => earlier.push(pair),
            None => earlier,
        }
    }
}

/// Splits `NAME=value` texts into names and values, dropping those without an
/// equals sign.
pub fn env_pairs(envs: &[String]) -> (pairs: Vec<(String, String)>)
    ensures
        pair_texts(pairs@) == named_values(texts(envs@)),
{
    let mut pairs: Vec<(String, String)> = Vec::new();
    assert(pair_texts(pairs@) =~= named_values(texts(envs@).take(0)));
    for i in 0..envs.len()
        invariant
            pair_texts(pairs@) == named_values(texts(envs@).take(i as int)),
    {
        proof {
            assert(texts(envs@).take(i + 1).drop_last() =~= texts(envs@).take(i as int));
            assert(texts(envs@).take(i + 1).last() == envs@[i as int]@);
        }
        if let Some((name, value)) = split_once(envs[i].as_str(), '=') {
            let ghost before = pairs@;
            pairs.push((name.to_owned(), value.to_owned()));
            assert(pair_texts(pairs@) =~= pair_texts(before).push((name@, value@)));
        }
    }
    assert(texts(envs@).take(envs@.len() as int) =~= texts(envs@));
    pairs
}

/// Whether a text holds no equals sign.
pub open spec fn is_malformed() -> spec_fn(Seq<char>) -> bool {
    |text: Seq<char>| split(text, '=') is None
}

/// The texts that [`env_pairs`] drops, in order, to be warned of.
pub fn malformed_envs(envs: &[String]) -> (dropped: Vec<String>)
    ensures
        texts(dropped@) == texts(envs@).filter(is_malformed()),
{
    let ghost all = texts(envs@);
    let mut dropped: Vec<String> = Vec::new();
    proof {
        reveal(Seq::filter);
        assert(texts(dropped@) =~= all.take(0).filter(is_malformed()));
    }
    for i in 0..envs.len()
        invariant
            all == texts(envs@),
            texts(dropped@) == all.take(i as int).filter(is_malformed()),
    {
        proof {
            reveal(Seq::filter);
            assert(all.take(i + 1).drop_last() =~= all.take(i as int));
            assert(all.take(i + 1).last() == envs@[i as int]@);
        }
        if split_once(envs[i].as_str(), '=').is_none() {
            let ghost before = dropped@;
            let text = envs[i].clone();
            dropped.push(text);
            assert(texts(dropped@) =~= texts(before).push(text@));
        }
    }
    assert(all.take(envs@.len() as int) =~= all);
    dropped
}

// ---------------------------------------------------------------------------
// Output
// ---------------------------------------------------------------------------

/// Where the output of an application goes.
#[derive(Debug, PartialEq, Eq)]
pub enum OutputTarget {
    /// To where the output of the host goes.
    Inherit,
    /// Nowhere.
    Null,
    /// To the end of a file, which is created if need be.
    Append(String),
    /// To a file that is emptied first, or created.
    Truncate(String),
}

/// Where the output of an application goes, with the path taken as its text.
pub ghost enum OutputTargetView {
    Inherit,
    Null,
    Append(Seq<char>),
    Truncate(Seq<char>),
}

impl View for OutputTarget {
    type V = OutputTargetView;

    open spec fn view(&self) -> OutputTargetView {
        match self {
            OutputTarget::Inherit => OutputTargetView::Inherit,
            OutputTarget::Null => OutputTargetView::Null,
            OutputTarget::Append(path) => OutputTargetView::Append(path@),
            OutputTarget::Truncate(path) => OutputTargetView::Truncate(path@),
        }
    }
}

/// What a StandardOutput or StandardError value means: unset or `inherit`
/// inherits, `null` discards, `append:PATH`, `file:PATH` and a bare path
/// append, `truncate:PATH` truncates.
pub open spec fn target_of(value: Option<Seq<char>>) -> OutputTargetView {
    match value {
        None => OutputTargetView::Inherit,
        Some(spec) => if spec == "inherit"@ {
            OutputTargetView::Inherit
        } else if spec == "null"@ {
            OutputTargetView::Null
        } else {
            match split(spec, ':') {
                Some((mode, path)) => if mode == "append"@ || mode == "file"@ {
                    OutputTargetView::Append(path)
                } else if mode == "truncate"@ {
                    OutputTargetView::Truncate(path)
                } else {
                    OutputTargetView::Append(spec)
                },
                None => OutputTargetView::Append(spec),
            }
        },
    }
}

/// Where the output of an application goes by its configuration: nowhere unless
/// a value is set.
pub open spec fn configured_target(value: Option<Seq<char>>) -> OutputTargetView {
    match value {
        None => OutputTargetView::Null,
        Some(_) => target_of(value),
    }
}

fn same_text(text: &str, literal: &str) -> (same: bool)
    ensures
        same == (text@ == literal@),
{
    text.to_owned() == literal.to_owned()
}

/// Reads a StandardOutput or StandardError value.
pub fn output_target(value: Option<&str>) -> (target: OutputTarget)
    ensures
        target@ == target_of(
            match value {
                Some(text) => Some(text@),
                None => None,
            },
        ),
{
    match value {
        None => OutputTarget::Inherit,
        Some(spec) => {
            if same_text(spec, "inherit") {
                OutputTarget::Inherit
            } else if same_text(spec, "null") {
                OutputTarget::Null
            } else {
                match split_once(spec, ':') {
                    Some((mode, path)) => {
                        if same_text(mode, "append") || same_text(mode, "file") {
                            OutputTarget::Append(path.to_owned())
                        } else if same_text(mode, "truncate") {
                            OutputTarget::Truncate(path.to_owned())
                        } else {
                            OutputTarget::Append(spec.to_owned())
                        }
                    },
                    None => OutputTarget::Append(spec.to_owned()),
                }
            }
        },
    }
}

// ---------------------------------------------------------------------------
// Commands
// ---------------------------------------------------------------------------

/// A program and its arguments.
#[derive(Debug, PartialEq, Eq)]
pub struct CommandLine {
    pub program: String,
    pub args: Vec<String>,
}

impl View for CommandLine {
    type V = Seq<Seq<char>>;

    /// The words of the command line: the program, then its arguments.
    open spec fn view(&self) -> Seq<Seq<char>> {
        seq![self.program@] + texts(self.args@)
    }
}

/// Whether a command names a program.
pub open spec fn names_program() -> spec_fn(Seq<Seq<char>>) -> bool {
    |words: Seq<Seq<char>>| words.len() > 0
}

/// The commands of a list that name a program, in order.
pub open spec fn runnable(commands: Seq<Seq<Seq<char>>>) -> Seq<Seq<Seq<char>>> {
    commands.filter(names_program())
}

/// What a list of command lines runs.
pub open spec fn command_texts(commands: Seq<CommandLine>) -> Seq<Seq<Seq<char>>> {
    commands.map_values(|command: CommandLine| command@)
}

fn command_line(words: &Vec<String>) -> (command: CommandLine)
    requires
        words@.len() > 0,
    ensures
        command@ == texts(words@),
{
    let rest: &[String] = vstd::slice::slice_subrange(words.as_slice(), 1, words.len());
    let command = CommandLine { program: words[0].clone(), args: copied(rest) };
    assert(command@ =~= texts(words@)) by {
        assert forall|i: int| 0 <= i < words@.len() implies command@[i] == texts(words@)[i] by {
            if i > 0 {
                assert(texts(rest@)[i - 1] == rest@[i - 1]@);
                assert(command@[i] == texts(command.args@)[i - 1]);
            }
        }
    }
    command
}

/// The commands of a list that name a program, in order.
pub fn runnable_commands(commands: &[Vec<String>]) -> (lines: Vec<CommandLine>)
    ensures
        command_texts(lines@) == runnable(text_lists(commands@)),
{
    let ghost lists = text_lists(commands@);
    let mut lines: Vec<CommandLine> = Vec::new();
    proof {
        reveal(Seq::filter);
        assert(command_texts(lines@) =~= runnable(lists.take(0)));
    }
    for i in 0..commands.len()
        invariant
            lists == text_lists(commands@),
            command_texts(lines@) == runnable(lists.take(i as int)),
    {
        proof {
            reveal(Seq::filter);
            assert(lists.take(i + 1).drop_last() =~= lists.take(i as int));
            assert(lists.take(i + 1).last() == texts(commands@[i as int]@));
        }
        if commands[i].len() > 0 {
            let ghost before = lines@;
            let line = command_line(&commands[i]);
            lines.push(line);
            assert(command_texts(lines@) =~= command_texts(before).push(line@));
        }
    }
    assert(lists.take(commands@.len() as int) =~= lists);
    lines
}

// ---------------------------------------------------------------------------
// Launch
// ---------------------------------------------------------------------------

/// One step of a launch.
#[derive(Debug, PartialEq, Eq)]
pub enum LaunchStep {
    /// Run a command to its end, in the environment of the application.
    PreCommand(CommandLine),
    /// Open the target of standard output.
    OpenStdout(OutputTarget),
    /// Open the target of standard error.
    OpenStderr(OutputTarget),
    /// Start the application, in its environment and with the opened targets.
    Start(CommandLine),
}

/// One step of a launch, with everything taken as text.
pub ghost enum LaunchStepView {
    PreCommand(Seq<Seq<char>>),
    OpenStdout(OutputTargetView),
    OpenStderr(OutputTargetView),
    Start(Seq<Seq<char>>),
}

impl View for LaunchStep {
    type V = LaunchStepView;

    open spec fn view(&self) -> LaunchStepView {
        match self {
            LaunchStep::PreCommand(command) => LaunchStepView::PreCommand(command@),
            LaunchStep::OpenStdout(target) => LaunchStepView::OpenStdout(target@),
            LaunchStep::OpenStderr(target) => LaunchStepView::OpenStderr(target@),
            LaunchStep::Start(command) => LaunchStepView::Start(command@),
        }
    }
}

/// How a step went.
#[derive(Clone, Copy, Debug, PartialEq, Eq, Structural)]
pub enum StepOutcome {
    /// It was carried out.
    Done,
    /// The command ran to its end.
    Exited { success: bool },
    /// It could not be carried out.
    Failed,
}

impl StepOutcome {
    /// Whether the launch goes on.
    pub open spec fn good(self) -> bool {
        match self {
            StepOutcome::Done => true,
            StepOutcome::Exited { success } => success,
            StepOutcome::Failed => false,
        }
    }
}

/// How far a launch has come.
#[derive(Clone, Copy, Debug, PartialEq, Eq, Structural)]
pub enum LaunchStage {
    /// The command of this number is to be run.
    PreCommand(usize),
    Stdout,
    Stderr,
    Start,
    /// The application runs.
    Started,
    /// A step failed.
    Aborted,
}

/// The steps that run commands.
pub open spec fn pre_command_steps(commands: Seq<Seq<Seq<char>>>) -> Seq<LaunchStepView> {
    runnable(commands).map_values(|words: Seq<Seq<char>>| LaunchStepView::PreCommand(words))
}

/// The last three steps of a launch.
pub open spec fn closing_steps(config: ApplicationConfig) -> Seq<LaunchStepView> {
    seq![
        LaunchStepView::OpenStdout(configured_target(optional_text(config.stdout))),
        LaunchStepView::OpenStderr(configured_target(optional_text(config.stderr))),
        LaunchStepView::Start(texts(config.command@)),
    ]
}

/// All steps of a launch: every command before the application that names a
/// program, in order, then the output targets, then the application.
pub open spec fn launch_steps(config: ApplicationConfig) -> Seq<LaunchStepView> {
    pre_command_steps(text_lists(config.pre_command@)) + closing_steps(config)
}

/// A launch, as specifications see it.
#[verifier::ext_equal]
pub ghost struct LaunchView {
    pub config: ApplicationConfig,
    /// The environment of the application and of the commands before it.
    pub envs: Seq<Seq<char>>,
    pub stage: LaunchStage,
}

impl LaunchView {
    /// The steps that are still to come if all goes well.
    pub open spec fn remaining(self) -> Seq<LaunchStepView> {
        match self.stage {
            LaunchStage::PreCommand(i) => pre_command_steps(
                text_lists(self.config.pre_command@).skip(i as int),
            ) + closing_steps(self.config),
            LaunchStage::Stdout => closing_steps(self.config),
            LaunchStage::Stderr => closing_steps(self.config).skip(1),
            LaunchStage::Start => closing_steps(self.config).skip(2),
            LaunchStage::Started => Seq::empty(),
            LaunchStage::Aborted => Seq::empty(),
        }
    }

    /// Whether a report of how the current step went leads to a later state. A
    /// launch that has ended stays as it is.
    pub open spec fn goes_on(self, outcome: StepOutcome, after: LaunchView) -> bool {
        &&& after.config == self.config
        &&& after.envs == self.envs
        &&& self.remaining().len() == 0 ==> after == self
        &&& self.remaining().len() > 0 && !outcome.good() ==> after.stage == LaunchStage::Aborted
        &&& self.remaining().len() > 0 && outcome.good() ==> {
            &&& after.remaining() == self.remaining().drop_first()
            &&& after.stage != LaunchStage::Aborted
            &&& after.stage == LaunchStage::Started <==> self.remaining().len() == 1
        }
    }
}

/// A launch in progress.
#[derive(Debug)]
pub struct Launch {
    config: ApplicationConfig,
    envs: Vec<String>,
    stage: LaunchStage,
}

impl View for Launch {
    type V = LaunchView;

    closed spec fn view(&self) -> LaunchView {
        LaunchView { config: self.config, envs: texts(self.envs@), stage: self.stage }
    }
}

impl Launch {
    /// The stage fits the configuration.
    #[verifier::type_invariant]
    spec fn stage_fits(self) -> bool {
        &&& self.config.command@.len() > 0
        &&& self.stage matches LaunchStage::PreCommand(i) ==> i < self.config.pre_command@.len()
            && self.config.pre_command@[i as int]@.len() > 0
    }

    /// Begins a launch. It is refused when there is no command, or no
    /// environment for it.
    pub fn begin(config: ApplicationConfig, context: &ApplicationContext, os: HostOs) -> (launch:
        Result<Launch, ()>)
        ensures
            launch is Ok <==> config.command@.len() > 0 && parent_directory(
                context.pulse_socket_path@,
            ) is Some,
            launch matches Ok(begun) ==> {
                &&& begun@.config == config
                &&& begun@.envs == environment(
                    *context,
                    parent_directory(context.pulse_socket_path@)->0,
                    os,
                )
                &&& begun@.remaining() == launch_steps(config)
            },
    {
        if config.command.len() == 0 {
            return Err(());
        }
        let envs = match make_envs(context, os) {
            Ok(envs) => envs,
            Err(()) => return Err(()),
        };
        let stage = stage_from(&config, 0);
        let launch = Launch { config, envs, stage };
        assert(text_lists(config.pre_command@).skip(0) =~= text_lists(config.pre_command@));
        Ok(launch)
    }

    /// The environment of the application and of the commands before it, as
    /// `NAME=value` texts.
    pub fn envs(&self) -> (envs: &[String])
        ensures
            texts(envs@) == self@.envs,
    {
        self.envs.as_slice()
    }

    /// How far the launch has come.
    pub fn stage(&self) -> (stage: LaunchStage)
        ensures
            stage == self@.stage,
    {
        self.stage
    }

    /// The step to take now, if there is one.
    pub fn step(&self) -> (step: Option<LaunchStep>)
        ensures
            step is None <==> self@.remaining().len() == 0,
            step matches Some(now) ==> now@ == self@.remaining()[0],
    {
        proof {
            use_type_invariant(self);
        }
        match self.stage {
            LaunchStage::PreCommand(i) => {
                proof {
                    lemma_first_runnable(text_lists(self.config.pre_command@), i as int);
                }
                Some(LaunchStep::PreCommand(command_line(&self.config.pre_command[i])))
            },
            LaunchStage::Stdout => Some(LaunchStep::OpenStdout(target_in(&self.config.stdout))),
            LaunchStage::Stderr => Some(LaunchStep::OpenStderr(target_in(&self.config.stderr))),
            LaunchStage::Start => Some(LaunchStep::Start(command_line(&self.config.command))),
            LaunchStage::Started => None,
            LaunchStage::Aborted => None,
        }
    }

    /// Takes note of how the current step went. A step that went well is
    /// followed by the next one; any other ends the launch.
    pub fn report(&mut self, outcome: StepOutcome)
        ensures
            old(self)@.goes_on(outcome, final(self)@),
    {
        proof {
            use_type_invariant(&*self);
        }
        let good = match outcome {
            StepOutcome::Done => true,
            StepOutcome::Exited { success } => success,
            StepOutcome::Failed => false,
        };
        let ended = match self.stage {
            LaunchStage::Started => true,
            LaunchStage::Aborted => true,
            _ => false,
        };
        if ended {
            return;
        }
        proof {
            if let LaunchStage::PreCommand(i) = self.stage {
                lemma_first_runnable(text_lists(self.config.pre_command@), i as int);
            }
        }
        if !good {
            self.stage = LaunchStage::Aborted;
            return;
        }
        assert(self.config.pre_command@.len() == self.config.pre_command.len());
        let next = match self.stage {
            LaunchStage::PreCommand(i) => stage_from(&self.config, i + 1),
            LaunchStage::Stdout => LaunchStage::Stderr,
            LaunchStage::Stderr => LaunchStage::Start,
            LaunchStage::Start => LaunchStage::Started,
            LaunchStage::Started => LaunchStage::Started,
            LaunchStage::Aborted => LaunchStage::Aborted,
        };
        self.stage = next;
        assert(self@.remaining() =~= old(self)@.remaining().drop_first());
    }

    /// The application, once it runs.
    pub fn finish(self) -> (application: Option<Application>)
        ensures
            application is Some <==> self@.stage == LaunchStage::Started,
            application matches Some(running) ==> {
                &&& running.config == self@.config
                &&& text_lists(running.post_commands@) == text_lists(self@.config.post_command@)
            },
    {
        match self.stage {
            LaunchStage::Started => {
                let post_commands = copied_lists(self.config.post_command.as_slice());
                Some(Application { config: self.config, post_commands })
            },
            _ => None,
        }
    }
}

fn target_in(value: &Option<String>) -> (target: OutputTarget)
    ensures
        target@ == configured_target(optional_text(*value)),
{
    match value {
        Some(text) => output_target(Some(text.as_str())),
        None => OutputTarget::Null,
    }
}

fn copied_lists(lists: &[Vec<String>]) -> (copy: Vec<Vec<String>>)
    ensures
        text_lists(copy@) == text_lists(lists@),
{
    let mut copy: Vec<Vec<String>> = Vec::new();
    for i in 0..lists.len()
        invariant
            copy@.len() == i,
            forall|j: int| 0 <= j < i ==> texts((#[trigger] copy@[j])@) == texts(lists@[j]@),
    {
        copy.push(copied(lists[i].as_slice()));
    }
    assert(text_lists(copy@) =~= text_lists(lists@));
    copy
}

/// The stage at which the first command from number `from` on that names a
/// program is to be run, or the one after the commands.
fn stage_from(config: &ApplicationConfig, from: usize) -> (stage: LaunchStage)
    requires
        from <= config.pre_command@.len(),
    ensures
        stage matches LaunchStage::PreCommand(i) || stage == LaunchStage::Stdout,
        stage matches LaunchStage::PreCommand(i) ==> i < config.pre_command@.len()
            && config.pre_command@[i as int]@.len() > 0 && runnable(
            text_lists(config.pre_command@).skip(i as int),
        ) == runnable(text_lists(config.pre_command@).skip(from as int)),
        stage == LaunchStage::Stdout ==> runnable(
            text_lists(config.pre_command@).skip(from as int),
        ) == Seq::<Seq<Seq<char>>>::empty(),
{
    let ghost lists = text_lists(config.pre_command@);
    let mut i: usize = from;
    while i < config.pre_command.len()
        invariant
            i <= config.pre_command@.len(),
            lists == text_lists(config.pre_command@),
            runnable(lists.skip(i as int)) == runnable(lists.skip(from as int)),
        decreases config.pre_command@.len() - i,
    {
        proof {
            lemma_first_runnable(lists, i as int);
        }
        if config.pre_command[i].len() > 0 {
            return LaunchStage::PreCommand(i);
        }
        i += 1;
    }
    proof {
        reveal(Seq::filter);
        assert(lists.skip(i as int) =~= Seq::<Seq<Seq<char>>>::empty());
    }
    LaunchStage::Stdout
}

proof fn lemma_first_runnable(commands: Seq<Seq<Seq<char>>>, i: int)
    requires
        0 <= i < commands.len(),
    ensures
        commands[i].len() == 0 ==> runnable(commands.skip(i)) == runnable(commands.skip(i + 1)),
        commands[i].len() > 0 ==> runnable(commands.skip(i)) == seq![commands[i]] + runnable(
            commands.skip(i + 1),
        ),
{
    reveal(Seq::filter);
    let head = seq![commands[i]];
    assert(commands.skip(i) =~= head + commands.skip(i + 1));
    Seq::filter_distributes_over_add(head, commands.skip(i + 1), names_program());
    assert(head.drop_last() =~= Seq::<Seq<Seq<char>>>::empty());
    assert(head.drop_last().filter(names_program()) =~= Seq::<Seq<Seq<char>>>::empty());
    assert(head.filter(names_program()) =~= if commands[i].len() > 0 {
        head
    } else {
        Seq::empty()
    });
    assert(Seq::<Seq<Seq<char>>>::empty() + runnable(commands.skip(i + 1)) =~= runnable(
        commands.skip(i + 1),
    ));
}

// ---------------------------------------------------------------------------
// Shutdown
// ---------------------------------------------------------------------------

/// One step of ending an application.
#[derive(Debug, PartialEq, Eq)]
pub enum StopStep {
    /// End the process, if it still runs.
    EndProcess,
    /// Wait until the process has exited.
    AwaitExit,
    /// Run a command to its end, however the commands before it went.
    Run(CommandLine),
}

/// One step of ending an application, with everything taken as text.
pub ghost enum StopStepView {
    EndProcess,
    AwaitExit,
    Run(Seq<Seq<char>>),
}

impl View for StopStep {
    type V = StopStepView;

    open spec fn view(&self) -> StopStepView {
        match self {
            StopStep::EndProcess => StopStepView::EndProcess,
            StopStep::AwaitExit => StopStepView::AwaitExit,
            StopStep::Run(command) => StopStepView::Run(command@),
        }
    }
}

/// What a list of steps does.
pub open spec fn stop_views(steps: Seq<StopStep>) -> Seq<StopStepView> {
    steps.map_values(|step: StopStep| step@)
}

/// The steps that run some commands.
pub open spec fn run_steps(commands: Seq<Seq<Seq<char>>>) -> Seq<StopStepView> {
    commands.map_values(|words: Seq<Seq<char>>| StopStepView::Run(words))
}

/// All steps of ending an application that has those commands after it. The exit
/// is awaited only for the sake of a command that is run after it.
pub open spec fn stop_sequence(commands: Seq<Seq<Seq<char>>>) -> Seq<StopStepView> {
    if runnable(commands).len() == 0 {
        seq![StopStepView::EndProcess]
    } else {
        seq![StopStepView::EndProcess, StopStepView::AwaitExit] + run_steps(runnable(commands))
    }
}

/// What became of a running application.
#[derive(Clone, Copy, Debug, PartialEq, Eq, Structural)]
pub enum MonitorEvent {
    /// Its process exited by itself.
    Exited,
    /// Waiting for its exit failed.
    WaitFailed,
    /// It is to be ended.
    EndAsked,
}

/// What follows from that.
#[derive(Clone, Copy, Debug, PartialEq, Eq, Structural)]
pub enum MonitorAction {
    /// End the session, because the application has stopped.
    TriggerShutdown,
    /// Kill the process, and leave the session alone.
    Kill,
}

/// Decides what follows from what became of a running application. The session
/// ends with it, unless it was ended on purpose.
pub fn monitor_next(event: MonitorEvent) -> (action: MonitorAction)
    ensures
        action == (if event is EndAsked {
            MonitorAction::Kill
        } else {
            MonitorAction::TriggerShutdown
        }),
{
    match event {
        MonitorEvent::Exited => MonitorAction::TriggerShutdown,
        MonitorEvent::WaitFailed => MonitorAction::TriggerShutdown,
        MonitorEvent::EndAsked => MonitorAction::Kill,
    }
}

impl MonitorAction {
    /// The reason with which the action ends the session, if it does.
    pub fn shutdown_reason(self) -> (reason: Option<SessionShutdownReason>)
        ensures
            reason == (if self is TriggerShutdown {
                Some(SessionShutdownReason::ApplicationStopped)
            } else {
                None
            }),
    {
        match self {
            MonitorAction::TriggerShutdown => Some(SessionShutdownReason::ApplicationStopped),
            MonitorAction::Kill => None,
        }
    }
}

/// An application that was launched.
#[derive(Debug)]
pub struct Application {
    pub config: ApplicationConfig,
    /// Commands to run after the application has exited.
    pub post_commands: Vec<Vec<String>>,
}

impl Application {
    /// Whether taking out the commands to run leaves a later state and gives
    /// those commands.
    pub open spec fn gives_up(self, after: Application, commands: Seq<CommandLine>) -> bool {
        &&& command_texts(commands) == runnable(text_lists(self.post_commands@))
        &&& after.post_commands@ == Seq::<Vec<String>>::empty()
        &&& after.config == self.config
    }

    /// Takes out the commands to run now that the application ends: those that
    /// name a program, in order. How one of them goes does not affect the others.
    pub fn stop(&mut self) -> (commands: Vec<CommandLine>)
        ensures
            old(self).gives_up(*final(self), commands@),
    {
        let commands = runnable_commands(self.post_commands.as_slice());
        self.post_commands = Vec::new();
        commands
    }

    /// Lays out how the application ends: its process is ended, and where
    /// commands come after it, its exit is awaited before they are run. They are
    /// taken out, as by [`Application::stop`].
    pub fn stop_steps(&mut self) -> (steps: Vec<StopStep>)
        ensures
            stop_views(steps@) == stop_sequence(text_lists(old(self).post_commands@)),
            final(self).post_commands@ == Seq::<Vec<String>>::empty(),
            final(self).config == old(self).config,
    {
        let mut commands = self.stop();
        let ghost lines = commands@;
        let mut steps: Vec<StopStep> = Vec::new();
        steps.push(StopStep::EndProcess);
        assert(command_texts(lines).len() == lines.len());
        if commands.len() == 0 {
            assert(stop_views(steps@) =~= seq![StopStepView::EndProcess]);
            return steps;
        }
        steps.push(StopStep::AwaitExit);
        let ghost opening = seq![StopStepView::EndProcess, StopStepView::AwaitExit];
        let ghost runs = run_steps(command_texts(lines));
        assert(stop_views(steps@) =~= opening + runs.take(0));
        let count: usize = commands.len();
        for i in 0..count
            invariant
                count == lines.len(),
                commands@ == lines.skip(i as int),
                runs == run_steps(command_texts(lines)),
                stop_views(steps@) == opening + runs.take(i as int),
        {
            let ghost before = steps@;
            let command = commands.remove(0);
            assert(command == lines[i as int]);
            assert(commands@ =~= lines.skip(i + 1));
            steps.push(StopStep::Run(command));
            assert(runs[i as int] == StopStepView::Run(lines[i as int]@));
            assert(stop_views(steps@) =~= stop_views(before).push(runs[i as int]));
            assert(stop_views(steps@) =~= opening + runs.take(i + 1));
        }
        assert(runs.take(count as int) =~= runs);
        steps
    }
}

} // verus!
