//! What holds of every call that launches, watches or ends an application,
//! whatever it is called with.

use crate::application::backend_command::{
    command_texts, env_pairs, is_malformed, malformed_envs, monitor_next, named_values,
    names_program, output_target, pair_texts, run_steps, runnable, runnable_commands, stop_views,
    target_of, Application, CommandLine, Launch, LaunchStage, LaunchStep, LaunchStepView,
    MonitorAction, MonitorEvent, OutputTarget, StepOutcome, StopStep, StopStepView,
};
use crate::application::laws::{
    law_application_starts_last, law_bare_path_appends, law_every_post_command_is_run,
    law_launch_runs_its_commands_in_order, law_malformed_texts_hold_no_equals_sign,
    law_output_modes, law_output_words, law_post_commands_wait_for_the_exit,
    law_unknown_mode_is_part_of_the_path, law_unset_output_is_discarded,
};
use crate::application::{
    default_launch_timeout, environment, envs_under, fed, id_of_hash, last_slash, make_envs,
    ApplicationConfig, ApplicationContext, HostOs,
};
use crate::session::SessionShutdownReason;
use crate::text::{text_lists, texts};
use std::collections::hash_map::DefaultHasher;
use vstd::prelude::*;
use vstd::std_specs::hash::DefaultHasherAdditionalSpecFns;

verus! {

/// The number of an application is made of the low 31 bits of its title's hash.
pub proof fn law_numbers_are_the_low_bits_of_hashes(
    hash: u64,
    id: i32,
    config: ApplicationConfig,
    number: i32,
)
    requires
        call_ensures(id_of_hash, (hash,), id),
        call_ensures(ApplicationConfig::id, (&config,), number),
    ensures
        0 <= id && 0 <= number,
        (hash - id) % 0x8000_0000 == 0,
        (DefaultHasher::spec_finish(fed(Seq::empty(), config.title@)) - number) % 0x8000_0000 == 0,
{
}

/// An application that nothing is configured of has two seconds to start.
pub proof fn law_nothing_is_configured(seconds: u64, config: ApplicationConfig)
    requires
        call_ensures(default_launch_timeout, (), seconds),
        call_ensures(ApplicationConfig::default, (), config),
    ensures
        seconds == 2 && config.launch_timeout_secs == 2,
        config.title@.len() == 0 && config.boxart is None && config.command@.len() == 0,
        config.pre_command@.len() == 0 && config.post_command@.len() == 0,
        config.stdout is None && config.stderr is None,
{
}

/// Variables are those that their texts hold, and the texts that are dropped are
/// those without an equals sign, in their order.
pub proof fn law_variables_are_read_or_dropped(
    envs: &[String],
    pairs: Vec<(String, String)>,
    dropped: Vec<String>,
)
    requires
        call_ensures(env_pairs, (envs,), pairs),
        call_ensures(malformed_envs, (envs,), dropped),
    ensures
        pair_texts(pairs@) == named_values(texts(envs@)),
        texts(dropped@) == texts(envs@).filter(|text: Seq<char>| !text.contains('=')),
{
    let without = |text: Seq<char>| !text.contains('=');
    assert forall|text: Seq<char>| #[trigger] is_malformed()(text) == without(text) by {
        law_malformed_texts_hold_no_equals_sign(text);
    }
    assert(is_malformed() =~= without);
}

/// Commands are run if they name a program, in their order, with all their words.
pub proof fn law_commands_with_words_are_run(commands: &[Vec<String>], lines: Vec<CommandLine>)
    requires
        call_ensures(runnable_commands, (commands,), lines),
    ensures
        command_texts(lines@) == text_lists(commands@).filter(
            |words: Seq<Seq<char>>| words.len() > 0,
        ),
{
    assert(names_program() =~= (|words: Seq<Seq<char>>| words.len() > 0));
}

/// Output goes where its words say: nothing and `inherit` keep it, `null` discards
/// it, a path takes it, and a mode before the path says how.
pub proof fn law_output_goes_where_it_is_told(
    value: Option<&str>,
    target: OutputTarget,
    before: Seq<char>,
    path: Seq<char>,
)
    requires
        call_ensures(output_target, (value,), target),
    ensures
        target is Inherit <==> value is None || value->0@ == "inherit"@,
        target is Null <==> value is Some && value->0@ == "null"@,
        value matches Some(text) ==> (text@ == "append:"@ + path || text@ == "file:"@ + path ==> (
        target matches OutputTarget::Append(to) && to@ == path)),
        value matches Some(text) ==> (text@ == "truncate:"@ + path ==> (
        target matches OutputTarget::Truncate(to) && to@ == path)),
        value matches Some(text) ==> (text@ == path && !path.contains(':') && path != "inherit"@
            && path != "null"@ ==> (target matches OutputTarget::Append(to) && to@ == path)),
        value matches Some(text) ==> (text@ == before.push(':') + path && !before.contains(':')
            && before != "append"@ && before != "file"@ && before != "truncate"@ ==> (
        target matches OutputTarget::Append(to) && to@ == text@)),
{
    let given: Option<Seq<char>> = match value {
        Some(text) => Some(text@),
        None => None,
    };
    law_output_words(given);
    law_output_modes(path);
    if !path.contains(':') && path != "inherit"@ && path != "null"@ {
        law_bare_path_appends(path);
    }
    if !before.contains(':') && before != "append"@ && before != "file"@ && before
        != "truncate"@ {
        law_unknown_mode_is_part_of_the_path(before, path);
    }
}

/// An application that is asked to end is killed. One that has exited, or cannot
/// be watched any more, ends the session, and nothing else does.
pub proof fn law_an_application_ends_its_session(
    event: MonitorEvent,
    action: MonitorAction,
    reason: Option<SessionShutdownReason>,
)
    requires
        call_ensures(monitor_next, (event,), action),
        call_ensures(MonitorAction::shutdown_reason, (action,), reason),
    ensures
        action is Kill <==> event is EndAsked,
        reason is Some <==> event is Exited || event is WaitFailed,
        reason is Some ==> reason->0 is ApplicationStopped,
{
}

/// An application gets the environment of its session. Where the sound socket
/// stands in a directory, that directory is the one it is told of.
pub proof fn law_environments_are_made(
    context: ApplicationContext,
    os: HostOs,
    runtime: &str,
    under: Vec<String>,
    made: Result<Vec<String>, ()>,
    directory: Seq<char>,
    name: Seq<char>,
)
    requires
        call_ensures(envs_under, (&context, runtime, os), under),
        call_ensures(make_envs, (&context, os), made),
        directory.len() > 0 && directory.last() != '/' && directory.last() != '.',
        name.len() > 0 && name[0] != '.' && !name.contains('/'),
    ensures
        texts(under@) == environment(context, runtime@, os),
        context.pulse_socket_path@ == directory.push('/') + name ==> (made matches Ok(envs)
            && texts(envs@) == environment(context, directory, os)),
        context.pulse_socket_path@ == seq!['/'] + name ==> (made matches Ok(envs) && texts(envs@)
            == environment(context, seq!['/'], os)),
        context.pulse_socket_path@ == name ==> (made matches Ok(envs) && texts(envs@)
            == environment(context, Seq::<char>::empty(), os)),
        context.pulse_socket_path@.len() == 0 ==> made is Err,
        context.pulse_socket_path@ == seq!['/'] ==> made is Err,
{
    let path = context.pulse_socket_path@;
    if path == directory.push('/') + name {
        let at = directory.len() as int;
        assert forall|i: int| at < i < path.len() implies path[i] != '/' by {
            assert(path[i] == name[i - at - 1]);
        }
        assert(last_slash(path, at));
        assert(path.take(at) =~= directory);
    }
    if path == seq!['/'] + name {
        assert(path.skip(1) =~= name);
    }
}

/// A launch begins only with a command. It then has its commands to run that name
/// a program, both targets to open and the application to start, in that order.
pub proof fn law_a_launch_begins(
    config: ApplicationConfig,
    context: ApplicationContext,
    os: HostOs,
    launch: Result<Launch, ()>,
    envs: Result<Vec<String>, ()>,
    i: int,
)
    requires
        call_ensures(Launch::begin, (config, &context, os), launch),
        call_ensures(make_envs, (&context, os), envs),
    ensures
        launch is Ok <==> config.command@.len() > 0 && envs is Ok,
        launch matches Ok(begun) ==> {
            let commands = text_lists(config.pre_command@).filter(
                |words: Seq<Seq<char>>| words.len() > 0,
            );
            let steps = begun@.remaining();
            let n = commands.len() as int;
            &&& begun@.config == config
            &&& begun@.envs == texts(envs->Ok_0@)
            &&& steps.len() == n + 3
            &&& 0 <= i < n ==> steps[i] == LaunchStepView::PreCommand(commands[i])
            &&& steps[n] == LaunchStepView::OpenStdout(
                match config.stdout {
                    None => target_of(Some("null"@)),
                    Some(value) => target_of(Some(value@)),
                },
            )
            &&& steps[n + 1] == LaunchStepView::OpenStderr(
                match config.stderr {
                    None => target_of(Some("null"@)),
                    Some(value) => target_of(Some(value@)),
                },
            )
            &&& steps[n + 2] == LaunchStepView::Start(texts(config.command@))
        },
{
    law_application_starts_last(config);
    law_unset_output_is_discarded(config);
    law_launch_runs_its_commands_in_order(config, i);
    assert(names_program() =~= (|words: Seq<Seq<char>>| words.len() > 0));
}

/// A launch shows its environment and the step to take. A good outcome takes it to
/// the next step or, after the last, to an application that runs; any other ends
/// it. What it was begun with stays.
pub proof fn law_a_launch_goes_on(
    launch: &mut Launch,
    envs: &[String],
    stage: LaunchStage,
    step: Option<LaunchStep>,
    outcome: StepOutcome,
)
    requires
        call_ensures(Launch::envs, (launch,), envs),
        call_ensures(Launch::stage, (launch,), stage),
        call_ensures(Launch::step, (launch,), step),
        call_ensures(Launch::report, (launch, outcome), ()),
    ensures
        texts(envs@) == old(launch)@.envs,
        stage == old(launch)@.stage,
        step is None <==> old(launch)@.remaining().len() == 0,
        step matches Some(now) ==> now@ == old(launch)@.remaining()[0],
        final(launch)@.config == old(launch)@.config,
        final(launch)@.envs == old(launch)@.envs,
        step is None ==> final(launch)@ == old(launch)@,
        step is Some ==> {
            let good = outcome == StepOutcome::Done || outcome == (StepOutcome::Exited {
                success: true,
            });
            let left = old(launch)@.remaining();
            &&& final(launch)@.stage is Aborted <==> !good
            &&& final(launch)@.stage is Started <==> good && left.len() == 1
            &&& good ==> final(launch)@.remaining() == left.skip(1)
            &&& !good ==> final(launch)@.remaining().len() == 0
        },
{
}

/// A launch that has started its application, and no other, gives it, with its
/// configuration and all commands that are to come after it.
pub proof fn law_a_launch_gives_its_application(launch: Launch, application: Option<Application>)
    requires
        call_ensures(Launch::finish, (launch,), application),
    ensures
        application is Some <==> launch@.stage is Started,
        application matches Some(running) ==> running.config == launch@.config && text_lists(
            running.post_commands@,
        ) == text_lists(launch@.config.post_command@),
{
}

/// Ending an application takes out its commands: the process is ended first and,
/// where commands name a program, its exit is awaited before these are run, each
/// once and in order.
pub proof fn law_an_application_is_ended(
    application: &mut Application,
    steps: Vec<StopStep>,
    i: int,
)
    requires
        call_ensures(Application::stop_steps, (application,), steps),
    ensures
        final(application).post_commands@.len() == 0,
        final(application).config == old(application).config,
        ({
            let commands = text_lists(old(application).post_commands@).filter(
                |words: Seq<Seq<char>>| words.len() > 0,
            );
            let n = commands.len() as int;
            &&& steps@.len() == (if n > 0 {
                n + 2
            } else {
                1
            })
            &&& steps@[0] is EndProcess
            &&& n > 0 ==> steps@[1] is AwaitExit
            &&& 0 <= i < n ==> (steps@[i + 2] matches StopStep::Run(line) && line@ == commands[i])
        }),
{
    let lists = text_lists(old(application).post_commands@);
    assert(names_program() =~= (|words: Seq<Seq<char>>| words.len() > 0));
    law_every_post_command_is_run(lists, Seq::empty(), i);
    law_every_post_command_is_run(lists, Seq::empty(), 0);
    let commands = runnable(lists);
    let views = stop_views(steps@);
    assert(views.len() == steps@.len());
    assert(forall|k: int| 0 <= k < steps@.len() ==> #[trigger] views[k] == steps@[k]@);
    assert(steps@[0]@ is EndProcess);
    if commands.len() > 0 {
        assert(views[2] is Run);
        law_post_commands_wait_for_the_exit(lists, 2);
        assert(views[1] is AwaitExit);
        assert(views.len() == 2 + run_steps(commands).len());
    }
    if 0 <= i < commands.len() {
        assert(views[i + 2] == StopStepView::Run(commands[i]));
    }
}

/// Taking out the commands of an application gives those that name a program, in
/// order, and leaves none.
pub proof fn law_commands_are_taken_out(application: &mut Application, commands: Vec<CommandLine>)
    requires
        call_ensures(Application::stop, (application,), commands),
    ensures
        command_texts(commands@) == text_lists(old(application).post_commands@).filter(
            |words: Seq<Seq<char>>| words.len() > 0,
        ),
        final(application).post_commands@.len() == 0,
        final(application).config == old(application).config,
{
    assert(names_program() =~= (|words: Seq<Seq<char>>| words.len() > 0));
}

} // verus!
