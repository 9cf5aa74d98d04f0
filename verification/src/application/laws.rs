//! What holds of every application, its environment and its launch.

use crate::application::backend_command::{
    closing_steps, command_texts, configured_target, is_malformed, launch_steps, named_values,
    names_program, pair_texts, pre_command_steps, run_steps, runnable, stop_sequence, stop_views,
    target_of, Application, CommandLine, LaunchStage, LaunchStep, LaunchStepView, LaunchView,
    OutputTarget, OutputTargetView, StepOutcome, StopStep, StopStepView,
};
use crate::application::{
    audio_envs, env_text, environment, extra_envs, fed, game_hdr_envs, session_envs,
    steam_hdr_envs, title_hash, ApplicationConfig, ApplicationContext, HostOs,
};
use crate::text::{
    law_split_is_at_the_first, law_split_undoes_joining, law_written_numbers_read_back, split,
    text_lists, texts, worth, written,
};
use std::collections::hash_map::DefaultHasher;
use vstd::prelude::*;
use vstd::std_specs::hash::DefaultHasherAdditionalSpecFns;

verus! {

/// Applications of one title have one number, whatever else differs, and it is
/// never negative.
pub proof fn law_number_is_the_title_s(a: ApplicationConfig, b: ApplicationConfig)
    requires
        a.title@ == b.title@,
    ensures
        title_hash(a.title@) % 0x8000_0000 == title_hash(b.title@) % 0x8000_0000,
        0 <= title_hash(a.title@) % 0x8000_0000 <= i32::MAX,
{
}

/// A variable whose name holds no equals sign arrives under its name with its
/// value, even when the value holds one.
pub proof fn law_passed_on_variable_arrives(name: Seq<char>, value: Seq<char>)
    requires
        !name.contains('='),
    ensures
        split(env_text(name, value), '=') == Some((name, value)),
{
    reveal_strlit("=");
    assert(env_text(name, value) =~= name.push('=') + value);
    law_split_undoes_joining(name, '=', value);
}

/// No variable of the environment is malformed: as many names and values come
/// out of it as there are texts, each from its own text.
pub proof fn law_no_variable_is_dropped(
    context: ApplicationContext,
    runtime: Seq<char>,
    os: HostOs,
)
    ensures
        named_values(environment(context, runtime, os)).len() == environment(
            context,
            runtime,
            os,
        ).len(),
        forall|i: int|
            0 <= i < environment(context, runtime, os).len() ==> split(
                #[trigger] environment(context, runtime, os)[i],
                '=',
            ) == Some(named_values(environment(context, runtime, os))[i]),
{
    let envs = environment(context, runtime, os);
    assert forall|i: int| 0 <= i < envs.len() implies split(#[trigger] envs[i], '=') is Some by {
        lemma_environment_text_splits(context, runtime, os, i);
    }
    lemma_named_values_of_good_texts(envs);
}

/// The names and values that every application gets.
pub open spec fn session_variables(
    context: ApplicationContext,
    runtime: Seq<char>,
) -> Seq<(Seq<char>, Seq<char>)> {
    seq![
        ("PULSE_SERVER"@, "unix:"@ + context.pulse_socket_path@),
        ("PULSE_RUNTIME_PATH"@, runtime),
        ("DISPLAY"@, ":"@ + written(context.xdisplay as nat, 10)),
        ("WAYLAND_DISPLAY"@, context.wayland_display@),
        ("MOONSHINE_WAYLAND_DISPLAY"@, context.wayland_display@),
        ("ENABLE_MOONSHINE_WSI"@, "1"@),
        ("PROTON_USE_PIPEWIRE"@, "0"@),
        ("XDG_CURRENT_DESKTOP"@, "gamescope"@),
        ("GAMESCOPE_WAYLAND_DISPLAY"@, context.wayland_display@),
        ("STEAM_GAME_DISPLAY_0"@, ":"@ + written(context.xdisplay as nat, 10)),
        ("STEAM_GAMESCOPE_DYNAMIC_FPSLIMITER"@, "1"@),
        ("STEAM_GAMESCOPE_FANCY_SCALING_SUPPORT"@, "1"@),
        ("STEAM_GAMESCOPE_NIS_SUPPORTED"@, "1"@),
        ("STEAM_GAMESCOPE_VRR_SUPPORTED"@, "1"@),
    ]
}

proof fn lemma_splits(text: Seq<char>, name: Seq<char>, value: Seq<char>)
    requires
        text == name.push('=') + value,
        !name.contains('='),
    ensures
        split(text, '=') == Some((name, value)),
{
    law_split_undoes_joining(name, '=', value);
}

/// Each variable that every application gets arrives under its name.
pub proof fn law_session_variables_arrive(
    context: ApplicationContext,
    runtime: Seq<char>,
    i: int,
)
    requires
        0 <= i < session_envs(context, runtime).len(),
    ensures
        session_variables(context, runtime).len() == session_envs(context, runtime).len(),
        split(session_envs(context, runtime)[i], '=') == Some(
            session_variables(context, runtime)[i],
        ),
{
    let texts = session_envs(context, runtime);
    let pairs = session_variables(context, runtime);
    let text = texts[i];
    let (name, value) = pairs[i];
    if i == 0 {
        reveal_strlit("PULSE_SERVER=unix:");
        reveal_strlit("PULSE_SERVER");
        reveal_strlit("unix:");
    } else if i == 1 {
        reveal_strlit("PULSE_RUNTIME_PATH=");
        reveal_strlit("PULSE_RUNTIME_PATH");
    } else if i == 2 {
        reveal_strlit("DISPLAY=:");
        reveal_strlit("DISPLAY");
        reveal_strlit(":");
    } else if i == 3 {
        reveal_strlit("WAYLAND_DISPLAY=");
        reveal_strlit("WAYLAND_DISPLAY");
    } else if i == 4 {
        reveal_strlit("MOONSHINE_WAYLAND_DISPLAY=");
        reveal_strlit("MOONSHINE_WAYLAND_DISPLAY");
    } else if i == 5 {
        reveal_strlit("ENABLE_MOONSHINE_WSI=1");
        reveal_strlit("ENABLE_MOONSHINE_WSI");
        reveal_strlit("1");
    } else if i == 6 {
        reveal_strlit("PROTON_USE_PIPEWIRE=0");
        reveal_strlit("PROTON_USE_PIPEWIRE");
        reveal_strlit("0");
    } else if i == 7 {
        reveal_strlit("XDG_CURRENT_DESKTOP=gamescope");
        reveal_strlit("XDG_CURRENT_DESKTOP");
        reveal_strlit("gamescope");
    } else if i == 8 {
        reveal_strlit("GAMESCOPE_WAYLAND_DISPLAY=");
        reveal_strlit("GAMESCOPE_WAYLAND_DISPLAY");
    } else if i == 9 {
        reveal_strlit("STEAM_GAME_DISPLAY_0=:");
        reveal_strlit("STEAM_GAME_DISPLAY_0");
        reveal_strlit(":");
    } else if i == 10 {
        reveal_strlit("STEAM_GAMESCOPE_DYNAMIC_FPSLIMITER=1");
        reveal_strlit("STEAM_GAMESCOPE_DYNAMIC_FPSLIMITER");
        reveal_strlit("1");
    } else if i == 11 {
        reveal_strlit("STEAM_GAMESCOPE_FANCY_SCALING_SUPPORT=1");
        reveal_strlit("STEAM_GAMESCOPE_FANCY_SCALING_SUPPORT");
        reveal_strlit("1");
    } else if i == 12 {
        reveal_strlit("STEAM_GAMESCOPE_NIS_SUPPORTED=1");
        reveal_strlit("STEAM_GAMESCOPE_NIS_SUPPORTED");
        reveal_strlit("1");
    } else {
        reveal_strlit("STEAM_GAMESCOPE_VRR_SUPPORTED=1");
        reveal_strlit("STEAM_GAMESCOPE_VRR_SUPPORTED");
        reveal_strlit("1");
    }
    assert(text =~= name.push('=') + value);
    lemma_splits(text, name, value);
}

/// The name and value that tell Steam of HDR.
pub open spec fn steam_hdr_variables(hdr: bool) -> Seq<(Seq<char>, Seq<char>)> {
    if hdr {
        seq![("STEAM_GAMESCOPE_HDR_SUPPORTED"@, "1"@)]
    } else {
        seq![]
    }
}

/// The names and values that route sound.
pub open spec fn audio_variables(os: HostOs) -> Seq<(Seq<char>, Seq<char>)> {
    match os {
        HostOs::Linux => seq![("SDL_AUDIODRIVER"@, "pulseaudio"@), ("AUDIODRIVER"@, "pulse"@)],
        HostOs::FreeBsd => seq![
            ("SDL_AUDIODRIVER"@, "dsp"@),
            ("SDL_AUDIODEV"@, "/dev/dsp.loop"@),
            ("AUDIODEV"@, "/dev/dsp.loop"@),
        ],
        HostOs::Other => seq![],
    }
}

/// The names and values that tell games and the Vulkan layer of HDR.
pub open spec fn game_hdr_variables(hdr: bool) -> Seq<(Seq<char>, Seq<char>)> {
    if hdr {
        seq![("DXVK_HDR"@, "1"@), ("MOONSHINE_HDR"@, "1"@)]
    } else {
        seq![]
    }
}

/// The names and values that are passed on.
pub open spec fn extra_variables(extra: Seq<(String, String)>) -> Seq<(Seq<char>, Seq<char>)> {
    extra.map_values(|pair: (String, String)| (pair.0@, pair.1@))
}

/// The environment of an application as names and values.
pub open spec fn variables(
    context: ApplicationContext,
    runtime: Seq<char>,
    os: HostOs,
) -> Seq<(Seq<char>, Seq<char>)> {
    session_variables(context, runtime) + steam_hdr_variables(context.hdr) + audio_variables(os)
        + game_hdr_variables(context.hdr) + extra_variables(context.extra_env@)
}

/// An application is started with the names and values it is meant to have:
/// writing them as texts and splitting the texts again changes nothing, as long
/// as no name that is passed on holds an equals sign.
pub proof fn law_environment_arrives(context: ApplicationContext, runtime: Seq<char>, os: HostOs)
    requires
        forall|i: int|
            0 <= i < context.extra_env@.len() ==> !(#[trigger] context.extra_env@[i]).0@.contains(
                '=',
            ),
    ensures
        named_values(environment(context, runtime, os)) == variables(context, runtime, os),
{
    let extra = context.extra_env@;
    assert forall|i: int| 0 <= i < session_envs(context, runtime).len() implies split(
        #[trigger] session_envs(context, runtime)[i],
        '=',
    ) == Some(session_variables(context, runtime)[i]) by {
        law_session_variables_arrive(context, runtime, i);
    }
    lemma_steam_hdr_variables_arrive(context.hdr);
    lemma_audio_variables_arrive(os);
    lemma_game_hdr_variables_arrive(context.hdr);
    assert forall|i: int| 0 <= i < extra.len() implies split(#[trigger] extra_envs(extra)[i], '=')
        == Some(extra_variables(extra)[i]) by {
        assert(!extra[i].0@.contains('='));
        law_passed_on_variable_arrives(extra[i].0@, extra[i].1@);
    }
    let a = session_envs(context, runtime);
    let b = steam_hdr_envs(context.hdr);
    let c = audio_envs(os);
    let d = game_hdr_envs(context.hdr);
    let e = extra_envs(extra);
    lemma_named_values_are(a, session_variables(context, runtime));
    lemma_named_values_are(b, steam_hdr_variables(context.hdr));
    lemma_named_values_are(c, audio_variables(os));
    lemma_named_values_are(d, game_hdr_variables(context.hdr));
    lemma_named_values_are(e, extra_variables(extra));
    lemma_named_values_joined(a, b);
    lemma_named_values_joined(a + b, c);
    lemma_named_values_joined(a + b + c, d);
    lemma_named_values_joined(a + b + c + d, e);
}

/// The value that a process finds under a name, given what it was started with:
/// where a name occurs more than once, the last one counts.
pub open spec fn value_of(pairs: Seq<(Seq<char>, Seq<char>)>, name: Seq<char>) -> Option<Seq<char>>
    decreases pairs.len(),
{
    if pairs.len() == 0 {
        None
    } else if pairs.last().0 == name {
        Some(pairs.last().1)
    } else {
        value_of(pairs.drop_last(), name)
    }
}

/// A variable that is passed on has its value in the application, even where the
/// host sets one of that name itself.
pub proof fn law_passed_on_variable_wins(
    context: ApplicationContext,
    runtime: Seq<char>,
    os: HostOs,
    i: int,
)
    requires
        context.wf(),
        forall|j: int|
            0 <= j < context.extra_env@.len() ==> !(#[trigger] context.extra_env@[j]).0@.contains(
                '=',
            ),
        0 <= i < context.extra_env@.len(),
    ensures
        value_of(named_values(environment(context, runtime, os)), context.extra_env@[i].0@) == Some(
            context.extra_env@[i].1@,
        ),
{
    law_environment_arrives(context, runtime, os);
    let extra = context.extra_env@;
    let pairs = variables(context, runtime, os);
    let at = pairs.len() - extra.len() + i;
    assert(pairs[at] == extra_variables(extra)[i]);
    assert forall|j: int| at < j < pairs.len() implies (#[trigger] pairs[j]).0 != extra[i].0@ by {
        let k = j - at + i;
        assert(pairs[j] == extra_variables(extra)[k]);
        assert(extra[i].0@ != extra[k].0@);
    }
    lemma_last_counts(pairs, at);
}

proof fn lemma_last_counts(pairs: Seq<(Seq<char>, Seq<char>)>, at: int)
    requires
        0 <= at < pairs.len(),
        forall|j: int| at < j < pairs.len() ==> (#[trigger] pairs[j]).0 != pairs[at].0,
    ensures
        value_of(pairs, pairs[at].0) == Some(pairs[at].1),
    decreases pairs.len(),
{
    if at < pairs.len() - 1 {
        assert(pairs[pairs.len() - 1].0 != pairs[at].0);
        let shorter = pairs.drop_last();
        assert forall|j: int| at < j < shorter.len() implies (#[trigger] shorter[j]).0
            != shorter[at].0 by {
            assert(shorter[j] == pairs[j]);
        }
        lemma_last_counts(shorter, at);
    }
}

proof fn lemma_steam_hdr_variables_arrive(hdr: bool)
    ensures
        steam_hdr_envs(hdr).len() == steam_hdr_variables(hdr).len(),
        forall|i: int|
            0 <= i < steam_hdr_envs(hdr).len() ==> split(#[trigger] steam_hdr_envs(hdr)[i], '=')
                == Some(steam_hdr_variables(hdr)[i]),
{
    reveal_strlit("STEAM_GAMESCOPE_HDR_SUPPORTED=1");
    reveal_strlit("STEAM_GAMESCOPE_HDR_SUPPORTED");
    reveal_strlit("1");
    assert("STEAM_GAMESCOPE_HDR_SUPPORTED=1"@ =~= "STEAM_GAMESCOPE_HDR_SUPPORTED"@.push('=')
        + "1"@);
    lemma_splits(
        "STEAM_GAMESCOPE_HDR_SUPPORTED=1"@,
        "STEAM_GAMESCOPE_HDR_SUPPORTED"@,
        "1"@,
    );
}

proof fn lemma_game_hdr_variables_arrive(hdr: bool)
    ensures
        game_hdr_envs(hdr).len() == game_hdr_variables(hdr).len(),
        forall|i: int|
            0 <= i < game_hdr_envs(hdr).len() ==> split(#[trigger] game_hdr_envs(hdr)[i], '=')
                == Some(game_hdr_variables(hdr)[i]),
{
    reveal_strlit("DXVK_HDR=1");
    reveal_strlit("DXVK_HDR");
    reveal_strlit("MOONSHINE_HDR=1");
    reveal_strlit("MOONSHINE_HDR");
    reveal_strlit("1");
    assert("DXVK_HDR=1"@ =~= "DXVK_HDR"@.push('=') + "1"@);
    assert("MOONSHINE_HDR=1"@ =~= "MOONSHINE_HDR"@.push('=') + "1"@);
    lemma_splits("DXVK_HDR=1"@, "DXVK_HDR"@, "1"@);
    lemma_splits("MOONSHINE_HDR=1"@, "MOONSHINE_HDR"@, "1"@);
}

proof fn lemma_audio_variables_arrive(os: HostOs)
    ensures
        audio_envs(os).len() == audio_variables(os).len(),
        forall|i: int|
            0 <= i < audio_envs(os).len() ==> split(#[trigger] audio_envs(os)[i], '=') == Some(
                audio_variables(os)[i],
            ),
{
    reveal_strlit("SDL_AUDIODRIVER=pulseaudio");
    reveal_strlit("SDL_AUDIODRIVER=dsp");
    reveal_strlit("SDL_AUDIODRIVER");
    reveal_strlit("pulseaudio");
    reveal_strlit("dsp");
    assert("SDL_AUDIODRIVER=pulseaudio"@ =~= "SDL_AUDIODRIVER"@.push('=') + "pulseaudio"@);
    assert("SDL_AUDIODRIVER=dsp"@ =~= "SDL_AUDIODRIVER"@.push('=') + "dsp"@);
    lemma_splits("SDL_AUDIODRIVER=pulseaudio"@, "SDL_AUDIODRIVER"@, "pulseaudio"@);
    lemma_splits("SDL_AUDIODRIVER=dsp"@, "SDL_AUDIODRIVER"@, "dsp"@);
    reveal_strlit("AUDIODRIVER=pulse");
    reveal_strlit("AUDIODRIVER");
    reveal_strlit("pulse");
    assert("AUDIODRIVER=pulse"@ =~= "AUDIODRIVER"@.push('=') + "pulse"@);
    lemma_splits("AUDIODRIVER=pulse"@, "AUDIODRIVER"@, "pulse"@);
    reveal_strlit("SDL_AUDIODEV=/dev/dsp.loop");
    reveal_strlit("AUDIODEV=/dev/dsp.loop");
    reveal_strlit("SDL_AUDIODEV");
    reveal_strlit("AUDIODEV");
    reveal_strlit("/dev/dsp.loop");
    assert("SDL_AUDIODEV=/dev/dsp.loop"@ =~= "SDL_AUDIODEV"@.push('=') + "/dev/dsp.loop"@);
    assert("AUDIODEV=/dev/dsp.loop"@ =~= "AUDIODEV"@.push('=') + "/dev/dsp.loop"@);
    lemma_splits("SDL_AUDIODEV=/dev/dsp.loop"@, "SDL_AUDIODEV"@, "/dev/dsp.loop"@);
    lemma_splits("AUDIODEV=/dev/dsp.loop"@, "AUDIODEV"@, "/dev/dsp.loop"@);
}

proof fn lemma_environment_text_splits(
    context: ApplicationContext,
    runtime: Seq<char>,
    os: HostOs,
    i: int,
)
    requires
        0 <= i < environment(context, runtime, os).len(),
    ensures
        split(environment(context, runtime, os)[i], '=') is Some,
{
    let text = environment(context, runtime, os)[i];
    let a = session_envs(context, runtime).len() as int;
    let b = a + steam_hdr_envs(context.hdr).len();
    let c = b + audio_envs(os).len();
    let d = c + game_hdr_envs(context.hdr).len();
    if i < a {
        law_session_variables_arrive(context, runtime, i);
        assert(text == session_envs(context, runtime)[i]);
    } else if i < b {
        lemma_steam_hdr_variables_arrive(context.hdr);
        assert(text == steam_hdr_envs(context.hdr)[i - a]);
    } else if i < c {
        lemma_audio_variables_arrive(os);
        assert(text == audio_envs(os)[i - b]);
    } else if i < d {
        lemma_game_hdr_variables_arrive(context.hdr);
        assert(text == game_hdr_envs(context.hdr)[i - c]);
    } else {
        let pair = context.extra_env@[i - d];
        assert(text == extra_envs(context.extra_env@)[i - d]);
        reveal_strlit("=");
        assert(env_text(pair.0@, pair.1@)[pair.0@.len() as int] == '=');
        law_split_is_at_the_first(text, '=');
    }
}

proof fn lemma_named_values_of_good_texts(envs: Seq<Seq<char>>)
    requires
        forall|i: int| 0 <= i < envs.len() ==> split(#[trigger] envs[i], '=') is Some,
    ensures
        named_values(envs).len() == envs.len(),
        forall|i: int|
            0 <= i < envs.len() ==> split(#[trigger] envs[i], '=') == Some(named_values(envs)[i]),
    decreases envs.len(),
{
    if envs.len() > 0 {
        let shorter = envs.drop_last();
        assert forall|i: int| 0 <= i < shorter.len() implies split(
            #[trigger] shorter[i],
            '=',
        ) is Some by {
            assert(shorter[i] == envs[i]);
        }
        lemma_named_values_of_good_texts(shorter);
        assert(split(envs[envs.len() - 1], '=') is Some);
        assert forall|i: int| 0 <= i < envs.len() implies split(#[trigger] envs[i], '=') == Some(
            named_values(envs)[i],
        ) by {
            if i < envs.len() - 1 {
                assert(shorter[i] == envs[i]);
            }
        }
    }
}

proof fn lemma_named_values_are(envs: Seq<Seq<char>>, pairs: Seq<(Seq<char>, Seq<char>)>)
    requires
        envs.len() == pairs.len(),
        forall|i: int| 0 <= i < envs.len() ==> split(#[trigger] envs[i], '=') == Some(pairs[i]),
    ensures
        named_values(envs) == pairs,
{
    lemma_named_values_of_good_texts(envs);
    assert forall|i: int| 0 <= i < pairs.len() implies named_values(envs)[i] == pairs[i] by {
        assert(split(envs[i], '=') == Some(pairs[i]));
    }
    assert(named_values(envs) =~= pairs);
}

proof fn lemma_named_values_joined(first: Seq<Seq<char>>, second: Seq<Seq<char>>)
    ensures
        named_values(first + second) == named_values(first) + named_values(second),
    decreases second.len(),
{
    if second.len() == 0 {
        assert(first + second =~= first);
        assert(named_values(first) + named_values(second) =~= named_values(first));
    } else {
        lemma_named_values_joined(first, second.drop_last());
        assert((first + second).drop_last() =~= first + second.drop_last());
        assert((first + second).last() == second.last());
        assert(named_values(first + second) =~= named_values(first) + named_values(second));
    }
}

// ---------------------------------------------------------------------------
// Output
// ---------------------------------------------------------------------------

/// `append:PATH` and `file:PATH` append to the path, `truncate:PATH` truncates
/// it, whatever the path is.
pub proof fn law_output_modes(path: Seq<char>)
    ensures
        target_of(Some("append:"@ + path)) == OutputTargetView::Append(path),
        target_of(Some("file:"@ + path)) == OutputTargetView::Append(path),
        target_of(Some("truncate:"@ + path)) == OutputTargetView::Truncate(path),
{
    reveal_strlit("append:");
    reveal_strlit("append");
    reveal_strlit("file:");
    reveal_strlit("file");
    reveal_strlit("truncate:");
    reveal_strlit("truncate");
    reveal_strlit("inherit");
    reveal_strlit("null");
    assert("append:"@ + path =~= "append"@.push(':') + path);
    assert("file:"@ + path =~= "file"@.push(':') + path);
    assert("truncate:"@ + path =~= "truncate"@.push(':') + path);
    law_split_undoes_joining("append"@, ':', path);
    law_split_undoes_joining("file"@, ':', path);
    law_split_undoes_joining("truncate"@, ':', path);
    assert(("append:"@ + path)[0] == 'a');
    assert(("file:"@ + path)[0] == 'f');
    assert(("truncate:"@ + path)[0] == 't');
    assert("inherit"@[0] == 'i' && "null"@[0] == 'n');
    assert("truncate"@[0] == 't' && "append"@[0] == 'a' && "file"@[0] == 'f');
}

/// A value without a colon that is neither `inherit` nor `null` is a path to
/// append to.
pub proof fn law_bare_path_appends(path: Seq<char>)
    requires
        !path.contains(':'),
        path != "inherit"@,
        path != "null"@,
    ensures
        target_of(Some(path)) == OutputTargetView::Append(path),
{
    law_split_is_at_the_first(path, ':');
    if let Some((before, after)) = split(path, ':') {
        assert(path[before.len() as int] == ':');
    }
}

/// What stands before a colon is part of the path unless it is one of the modes.
pub proof fn law_unknown_mode_is_part_of_the_path(before: Seq<char>, after: Seq<char>)
    requires
        !before.contains(':'),
        before != "append"@ && before != "file"@ && before != "truncate"@,
    ensures
        target_of(Some(before.push(':') + after)) == OutputTargetView::Append(
            before.push(':') + after,
        ),
{
    let value = before.push(':') + after;
    law_split_undoes_joining(before, ':', after);
    assert(value[before.len() as int] == ':');
    reveal_strlit("inherit");
    reveal_strlit("null");
    assert(value != "inherit"@);
    assert(value != "null"@);
}

// ---------------------------------------------------------------------------
// Launch
// ---------------------------------------------------------------------------

/// The application is the last thing that a launch starts, after all commands
/// before it and after its output targets are open.
pub proof fn law_application_starts_last(config: ApplicationConfig)
    ensures
        launch_steps(config).len() >= 3,
        launch_steps(config).last() == LaunchStepView::Start(texts(config.command@)),
        forall|i: int|
            0 <= i < launch_steps(config).len() - 3 ==> (#[trigger] launch_steps(
                config,
            )[i]) is PreCommand,
        launch_steps(config)[launch_steps(config).len() - 3] is OpenStdout,
        launch_steps(config)[launch_steps(config).len() - 2] is OpenStderr,
{
    let steps = launch_steps(config);
    let early = pre_command_steps(text_lists(config.pre_command@));
    assert(steps.len() == early.len() + 3);
    assert forall|i: int| 0 <= i < steps.len() - 3 implies (#[trigger] steps[i]) is PreCommand by {
        assert(steps[i] == early[i]);
    }
    assert(steps[early.len() as int] == closing_steps(config)[0]);
    assert(steps[early.len() as int + 1] == closing_steps(config)[1]);
    assert(steps[early.len() as int + 2] == closing_steps(config)[2]);
}

/// Output for which the configuration names no target is discarded, as if the
/// target were `null`. Output for which it names one goes there.
pub proof fn law_unset_output_is_discarded(config: ApplicationConfig)
    ensures
        launch_steps(config)[launch_steps(config).len() - 3] == LaunchStepView::OpenStdout(
            match config.stdout {
                None => OutputTargetView::Null,
                Some(value) => target_of(Some(value@)),
            },
        ),
        launch_steps(config)[launch_steps(config).len() - 2] == LaunchStepView::OpenStderr(
            match config.stderr {
                None => OutputTargetView::Null,
                Some(value) => target_of(Some(value@)),
            },
        ),
        target_of(Some("null"@)) == OutputTargetView::Null,
{
    reveal_strlit("null");
    reveal_strlit("inherit");
    assert("null"@.len() == 4 && "inherit"@.len() == 7);
    let early = pre_command_steps(text_lists(config.pre_command@));
    let steps = launch_steps(config);
    assert(steps[early.len() as int] == closing_steps(config)[0]);
    assert(steps[early.len() as int + 1] == closing_steps(config)[1]);
}

/// A command before the application is run if and only if it names a program.
pub proof fn law_commands_that_name_a_program_are_run(
    config: ApplicationConfig,
    words: Seq<Seq<char>>,
)
    ensures
        launch_steps(config).contains(LaunchStepView::PreCommand(words)) <==> words.len() > 0
            && text_lists(config.pre_command@).contains(words),
{
    broadcast use vstd::seq_lib::group_filter_ensures;

    let lists = text_lists(config.pre_command@);
    let steps = launch_steps(config);
    let early = pre_command_steps(lists);
    let step = LaunchStepView::PreCommand(words);
    if steps.contains(step) {
        let i = choose|i: int| 0 <= i < steps.len() && steps[i] == step;
        law_application_starts_last(config);
        if i >= early.len() {
            assert(steps[i] == closing_steps(config)[i - early.len()]);
        }
        assert(steps[i] == early[i]);
        assert(early[i] == LaunchStepView::PreCommand(runnable(lists)[i]));
        assert(names_program()(runnable(lists)[i]));
        assert(runnable(lists).contains(words));
        lists.lemma_filter_contains_rev(names_program(), words);
    }
    if words.len() > 0 && lists.contains(words) {
        let k = choose|k: int| 0 <= k < lists.len() && lists[k] == words;
        assert(names_program()(lists[k]));
        assert(runnable(lists).contains(lists[k]));
        let i = choose|i: int| 0 <= i < runnable(lists).len() && runnable(lists)[i] == words;
        assert(early[i] == step);
        assert(steps[i] == step);
    }
}

/// Whether a list of states is what a list of reports makes of the first one.
pub open spec fn is_history(states: Seq<LaunchView>, outcomes: Seq<StepOutcome>) -> bool {
    &&& states.len() == outcomes.len() + 1
    &&& forall|k: int|
        0 <= k < outcomes.len() ==> (#[trigger] states[k]).goes_on(outcomes[k], states[k + 1])
}

/// Whether the first `count` outcomes, as far as there are so many, were good.
pub open spec fn all_good(outcomes: Seq<StepOutcome>, count: nat) -> bool {
    forall|k: int| 0 <= k < outcomes.len() && k < count ==> (#[trigger] outcomes[k]).good()
}

/// An application runs if and only if every step of its launch went well: the
/// first step that did not ended the launch for good.
pub proof fn law_application_runs_only_if_all_went_well(
    states: Seq<LaunchView>,
    outcomes: Seq<StepOutcome>,
)
    requires
        is_history(states, outcomes),
        states[0].remaining() == launch_steps(states[0].config),
    ensures
        states.last().stage == LaunchStage::Started <==> launch_steps(states[0].config).len()
            <= outcomes.len() && all_good(outcomes, launch_steps(states[0].config).len()),
{
    let steps = launch_steps(states[0].config);
    law_application_starts_last(states[0].config);
    assert(steps.skip(0) =~= steps);
    lemma_history(states, outcomes, steps);
}

/// Where a launch stands that began with those steps, after `n` reports that
/// were good as far as there were steps, or not.
spec fn stands_at(state: LaunchView, steps: Seq<LaunchStepView>, n: int, good: bool) -> bool {
    if !good {
        state.stage == LaunchStage::Aborted
    } else if n < steps.len() {
        &&& state.remaining() == steps.skip(n)
        &&& state.stage != LaunchStage::Started
        &&& state.stage != LaunchStage::Aborted
    } else {
        state.stage == LaunchStage::Started
    }
}

proof fn lemma_report(
    state: LaunchView,
    outcome: StepOutcome,
    after: LaunchView,
    steps: Seq<LaunchStepView>,
    n: int,
    good: bool,
)
    requires
        0 <= n,
        stands_at(state, steps, n, good),
        state.goes_on(outcome, after),
    ensures
        stands_at(after, steps, n + 1, good && (n < steps.len() ==> outcome.good())),
{
    if good && n < steps.len() {
        assert(steps.skip(n).len() == steps.len() - n);
        assert(steps.skip(n).drop_first() =~= steps.skip(n + 1));
    }
}

proof fn lemma_history(
    states: Seq<LaunchView>,
    outcomes: Seq<StepOutcome>,
    steps: Seq<LaunchStepView>,
)
    requires
        is_history(states, outcomes),
        stands_at(states[0], steps, 0, true),
    ensures
        stands_at(states.last(), steps, outcomes.len() as int, all_good(outcomes, steps.len())),
    decreases outcomes.len(),
{
    if outcomes.len() > 0 {
        let n = outcomes.len() - 1;
        let earlier = outcomes.drop_last();
        let before = states.drop_last();
        assert forall|k: int| 0 <= k < earlier.len() implies (#[trigger] before[k]).goes_on(
            earlier[k],
            before[k + 1],
        ) by {
            assert(states[k].goes_on(outcomes[k], states[k + 1]));
        }
        lemma_history(before, earlier, steps);
        assert(states[n].goes_on(outcomes[n], states[n + 1]));
        lemma_report(
            states[n],
            outcomes[n],
            states[n + 1],
            steps,
            n,
            all_good(earlier, steps.len()),
        );
        lemma_all_good(outcomes, steps.len());
    } else {
        assert(all_good(outcomes, steps.len()));
    }
}

proof fn lemma_all_good(outcomes: Seq<StepOutcome>, count: nat)
    requires
        outcomes.len() > 0,
    ensures
        all_good(outcomes, count) == (all_good(outcomes.drop_last(), count) && (outcomes.len()
            - 1 < count ==> outcomes.last().good())),
{
    let earlier = outcomes.drop_last();
    assert(forall|k: int| 0 <= k < earlier.len() ==> #[trigger] earlier[k] == outcomes[k]);
    if all_good(outcomes, count) {
        assert(all_good(earlier, count));
    } else {
        let k = choose|k: int|
            0 <= k < outcomes.len() && k < count && !(#[trigger] outcomes[k]).good();
        if k < earlier.len() {
            assert(!earlier[k].good());
        }
    }
}

/// No command after an application is run before its process was ended and has
/// exited.
pub proof fn law_post_commands_wait_for_the_exit(commands: Seq<Seq<Seq<char>>>, at: int)
    requires
        0 <= at < stop_sequence(commands).len(),
        stop_sequence(commands)[at] is Run,
    ensures
        stop_sequence(commands).take(at).contains(StopStepView::AwaitExit),
        stop_sequence(commands)[0] is EndProcess,
        stop_sequence(commands)[1] is AwaitExit,
        forall|i: int|
            2 <= i < stop_sequence(commands).len() ==> (#[trigger] stop_sequence(commands)[i]) is Run,
{
    let before = stop_sequence(commands).take(at);
    let runs = run_steps(runnable(commands));
    assert(at >= 2);
    assert(before[1] is AwaitExit);
    assert forall|i: int| 2 <= i < stop_sequence(commands).len() implies (
    #[trigger] stop_sequence(commands)[i]) is Run by {
        assert(stop_sequence(commands)[i] == runs[i - 2]);
    }
}

/// Where no command comes after an application, nothing is waited for.
pub proof fn law_nothing_is_awaited_without_commands(commands: Seq<Seq<Seq<char>>>)
    requires
        forall|i: int| 0 <= i < commands.len() ==> (#[trigger] commands[i]).len() == 0,
    ensures
        stop_sequence(commands) == seq![StopStepView::EndProcess],
{
    broadcast use vstd::seq_lib::group_filter_ensures;

    if runnable(commands).len() > 0 {
        assert(names_program()(runnable(commands)[0]));
        assert(runnable(commands).contains(runnable(commands)[0]));
        commands.lemma_filter_contains_rev(names_program(), runnable(commands)[0]);
    }
}

/// The commands after an application are run once: taking them out a second
/// time gives none.
pub proof fn law_post_commands_run_once(
    first: Application,
    second: Application,
    third: Application,
    commands: Seq<CommandLine>,
    later: Seq<CommandLine>,
)
    requires
        first.gives_up(second, commands),
        second.gives_up(third, later),
    ensures
        later.len() == 0,
        third.config == first.config,
{
    reveal(Seq::filter);
    assert(text_lists(Seq::empty()) =~= Seq::empty());
    assert(command_texts(later).len() == later.len());
}

// ---------------------------------------------------------------------------
// What the parts are
// ---------------------------------------------------------------------------

/// The number of an application comes of its whole title, fed to a new hasher
/// once and by itself.
pub proof fn law_number_comes_of_the_whole_title(title: Seq<char>)
    ensures
        title_hash(title) == DefaultHasher::spec_finish(fed(Seq::empty(), title)),
{
}

/// Variables are read one by one, each from its own text, whatever stands before
/// it: a text with an equals sign gives what stands before the first one and what
/// follows it, a text without one gives nothing.
pub proof fn law_variables_are_read_one_by_one(
    earlier: Seq<Seq<char>>,
    name: Seq<char>,
    value: Seq<char>,
    text: Seq<char>,
)
    requires
        !name.contains('='),
        !text.contains('='),
    ensures
        named_values(Seq::<Seq<char>>::empty()).len() == 0,
        named_values(earlier.push(name.push('=') + value)) == named_values(earlier).push(
            (name, value),
        ),
        named_values(earlier.push(text)) == named_values(earlier),
{
    law_split_undoes_joining(name, '=', value);
    let full = earlier.push(name.push('=') + value);
    assert(full.drop_last() =~= earlier);
    assert(earlier.push(text).drop_last() =~= earlier);
    law_split_is_at_the_first(text, '=');
    if let Some((before, after)) = split(text, '=') {
        assert(text[before.len() as int] == '=');
    }
}

/// A text is told of as malformed exactly when it holds no equals sign.
pub proof fn law_malformed_texts_hold_no_equals_sign(text: Seq<char>)
    ensures
        is_malformed()(text) <==> !text.contains('='),
{
    law_split_is_at_the_first(text, '=');
    if let Some((before, after)) = split(text, '=') {
        assert(text[before.len() as int] == '=');
    }
}

/// A variable that is passed on is written as its name, an equals sign and its
/// value, each in its place and none left out.
pub proof fn law_passed_on_variables_are_written_out(extra: Seq<(String, String)>)
    ensures
        extra_envs(extra).len() == extra.len(),
        forall|i: int|
            0 <= i < extra.len() ==> (#[trigger] extra_envs(extra)[i]) == extra[i].0@.push('=')
                + extra[i].1@,
        pair_texts(extra).len() == extra.len(),
        forall|i: int|
            0 <= i < extra.len() ==> (#[trigger] pair_texts(extra)[i]) == (
                extra[i].0@,
                extra[i].1@,
            ),
{
    reveal_strlit("=");
    assert forall|i: int| 0 <= i < extra.len() implies (#[trigger] extra_envs(extra)[i])
        == extra[i].0@.push('=') + extra[i].1@ by {
        assert(extra_envs(extra)[i] == env_text(extra[i].0@, extra[i].1@));
        assert(env_text(extra[i].0@, extra[i].1@) =~= extra[i].0@.push('=') + extra[i].1@);
    }
}

/// The environment begins with the fourteen variables that every application
/// gets and ends with those that are passed on. HDR adds one before and two after
/// the ones for sound, of which Linux has two, FreeBSD three and other hosts none.
pub proof fn law_environment_is_made_of_its_parts(
    context: ApplicationContext,
    runtime: Seq<char>,
    os: HostOs,
)
    ensures
        ({
            let envs = environment(context, runtime, os);
            let extra = context.extra_env@.len();
            let sound = match os {
                HostOs::Linux => 2int,
                HostOs::FreeBsd => 3,
                HostOs::Other => 0,
            };
            let before = if context.hdr {
                1int
            } else {
                0
            };
            &&& envs.len() == 14 + 3 * before + sound + extra
            &&& envs.take(14) == session_envs(context, runtime)
            &&& envs.skip(14 + 3 * before + sound) == extra_envs(context.extra_env@)
            &&& envs.subrange(14 + before, 14 + before + sound) == audio_envs(os)
            &&& context.hdr ==> envs[14] == "STEAM_GAMESCOPE_HDR_SUPPORTED=1"@ && envs[15 + sound]
                == "DXVK_HDR=1"@ && envs[16 + sound] == "MOONSHINE_HDR=1"@
        }),
{
    let envs = environment(context, runtime, os);
    let extra = extra_envs(context.extra_env@);
    assert(extra.len() == context.extra_env@.len());
    assert(envs.take(14) =~= session_envs(context, runtime));
    let sound = audio_envs(os).len() as int;
    let before = steam_hdr_envs(context.hdr).len() as int;
    assert(envs.skip(14 + 3 * before + sound) =~= extra);
    assert(envs.subrange(14 + before, 14 + before + sound) =~= audio_envs(os));
}

/// A target that is not set, or is `inherit`, inherits; `null` discards.
pub proof fn law_output_words(value: Option<Seq<char>>)
    ensures
        target_of(value) is Inherit <==> value is None || value == Some("inherit"@),
        target_of(value) is Null <==> value == Some("null"@),
        configured_target(value) is Null <==> value is None || value == Some("null"@),
        configured_target(value) is Inherit <==> value == Some("inherit"@),
{
    reveal_strlit("null");
    reveal_strlit("inherit");
    assert("null"@.len() == 4 && "inherit"@.len() == 7);
}

/// Commands are picked one by one and keep their order: a list of one command
/// gives that command if it names a program and nothing otherwise, and two lists
/// give together what each gives.
pub proof fn law_commands_are_picked_one_by_one(
    first: Seq<Seq<Seq<char>>>,
    second: Seq<Seq<Seq<char>>>,
    words: Seq<Seq<char>>,
)
    ensures
        runnable(first + second) == runnable(first) + runnable(second),
        runnable(seq![words]) == (if words.len() > 0 {
            seq![words]
        } else {
            seq![]
        }),
{
    Seq::filter_distributes_over_add(first, second, names_program());
    reveal(Seq::filter);
    let one = seq![words];
    assert(one.drop_last() =~= Seq::<Seq<Seq<char>>>::empty());
    assert(one.drop_last().filter(names_program()) =~= Seq::<Seq<Seq<char>>>::empty());
    assert(runnable(one) =~= if words.len() > 0 {
        seq![words]
    } else {
        seq![]
    });
}

/// The steps of a launch are its commands that name a program, in their order,
/// each once, and three more: both targets and the application.
pub proof fn law_launch_runs_its_commands_in_order(config: ApplicationConfig, i: int)
    ensures
        ({
            let commands = runnable(text_lists(config.pre_command@));
            let steps = launch_steps(config);
            &&& steps.len() == commands.len() + 3
            &&& 0 <= i < commands.len() ==> steps[i] == LaunchStepView::PreCommand(commands[i])
            &&& steps[commands.len() as int] is OpenStdout
            &&& steps[commands.len() as int + 1] is OpenStderr
            &&& steps[commands.len() as int + 2] == LaunchStepView::Start(texts(config.command@))
        }),
{
    law_application_starts_last(config);
    let early = pre_command_steps(text_lists(config.pre_command@));
    if 0 <= i < early.len() {
        assert(launch_steps(config)[i] == early[i]);
    }
}

/// A step went well if it was carried out, or if its command ran and succeeded.
pub proof fn law_good_outcomes(outcome: StepOutcome)
    ensures
        outcome.good() <==> outcome == StepOutcome::Done || outcome == (StepOutcome::Exited {
            success: true,
        }),
{
}

/// As long as all goes well, a launch takes its steps in order, each once: after
/// some reports what remains is what follows as many steps.
pub proof fn law_launch_takes_its_steps_in_order(
    states: Seq<LaunchView>,
    outcomes: Seq<StepOutcome>,
)
    requires
        is_history(states, outcomes),
        states[0].remaining() == launch_steps(states[0].config),
        outcomes.len() < launch_steps(states[0].config).len(),
        forall|k: int| 0 <= k < outcomes.len() ==> (#[trigger] outcomes[k]).good(),
    ensures
        states.last().remaining() == launch_steps(states[0].config).skip(outcomes.len() as int),
{
    let steps = launch_steps(states[0].config);
    law_application_starts_last(states[0].config);
    assert(steps.skip(0) =~= steps);
    lemma_history(states, outcomes, steps);
    assert(all_good(outcomes, steps.len()));
}

/// A launch of which a step went wrong has no steps left, and stays that way.
pub proof fn law_a_bad_step_ends_the_launch(states: Seq<LaunchView>, outcomes: Seq<StepOutcome>)
    requires
        is_history(states, outcomes),
        states[0].remaining() == launch_steps(states[0].config),
        !all_good(outcomes, launch_steps(states[0].config).len()),
    ensures
        states.last().stage == LaunchStage::Aborted,
        states.last().remaining().len() == 0,
{
    let steps = launch_steps(states[0].config);
    law_application_starts_last(states[0].config);
    assert(steps.skip(0) =~= steps);
    lemma_history(states, outcomes, steps);
}

/// Every command after an application that names a program is run, and no other:
/// the runs are those commands, in their order, each once. A command is run if
/// and only if it is in the list and names a program.
pub proof fn law_every_post_command_is_run(
    commands: Seq<Seq<Seq<char>>>,
    words: Seq<Seq<char>>,
    i: int,
)
    ensures
        stop_sequence(commands).contains(StopStepView::Run(words)) <==> words.len() > 0
            && commands.contains(words),
        stop_sequence(commands)[0] is EndProcess,
        (exists|k: int| 0 <= k < commands.len() && (#[trigger] commands[k]).len() > 0)
            ==> stop_sequence(commands).len() == 2 + runnable(commands).len(),
        0 <= i < runnable(commands).len() ==> stop_sequence(commands)[2 + i] == StopStepView::Run(
            runnable(commands)[i],
        ),
{
    broadcast use vstd::seq_lib::group_filter_ensures;

    let steps = stop_sequence(commands);
    let lines = runnable(commands);
    let runs = run_steps(lines);
    let run = StopStepView::Run(words);
    if steps.contains(run) {
        let k = choose|k: int| 0 <= k < steps.len() && steps[k] == run;
        assert(lines.len() > 0);
        assert(k >= 2);
        assert(steps[k] == runs[k - 2]);
        assert(lines[k - 2] == words);
        assert(names_program()(lines[k - 2]));
        assert(lines.contains(words));
        commands.lemma_filter_contains_rev(names_program(), words);
    }
    if words.len() > 0 && commands.contains(words) {
        let k = choose|k: int| 0 <= k < commands.len() && commands[k] == words;
        assert(names_program()(commands[k]));
        assert(lines.contains(commands[k]));
        let j = choose|j: int| 0 <= j < lines.len() && lines[j] == words;
        assert(runs[j] == run);
        assert(steps[2 + j] == run);
    }
    if exists|k: int| 0 <= k < commands.len() && (#[trigger] commands[k]).len() > 0 {
        let k = choose|k: int| 0 <= k < commands.len() && (#[trigger] commands[k]).len() > 0;
        assert(names_program()(commands[k]));
        assert(lines.contains(commands[k]));
    }
    if 0 <= i < lines.len() {
        assert(steps[2 + i] == runs[i]);
    }
}

/// What a command line runs is its program and then its arguments, all of them.
/// Taking lists of command lines and of steps as what they do loses none of them.
pub proof fn law_views_are_those_of_the_commands(
    command: CommandLine,
    commands: Seq<CommandLine>,
    steps: Seq<StopStep>,
)
    ensures
        command@.len() == 1 + command.args@.len(),
        command@[0] == command.program@,
        forall|i: int| 0 <= i < command.args@.len() ==> command@[i + 1] == #[trigger] texts(command.args@)[i],
        command_texts(commands).len() == commands.len(),
        forall|i: int|
            0 <= i < commands.len() ==> (#[trigger] command_texts(commands)[i]) == commands[i]@,
        stop_views(steps).len() == steps.len(),
        forall|i: int|
            0 <= i < steps.len() ==> match steps[i] {
                StopStep::EndProcess => (#[trigger] stop_views(steps)[i]) is EndProcess,
                StopStep::AwaitExit => stop_views(steps)[i] is AwaitExit,
                StopStep::Run(line) => stop_views(steps)[i] == StopStepView::Run(line@),
            },
{
}

/// A step of a launch, and a target, is taken for what it is.
pub proof fn law_views_tell_steps_apart(step: LaunchStep, target: OutputTarget)
    ensures
        match step {
            LaunchStep::PreCommand(line) => step@ == LaunchStepView::PreCommand(line@),
            LaunchStep::OpenStdout(to) => step@ == LaunchStepView::OpenStdout(to@),
            LaunchStep::OpenStderr(to) => step@ == LaunchStepView::OpenStderr(to@),
            LaunchStep::Start(line) => step@ == LaunchStepView::Start(line@),
        },
        match target {
            OutputTarget::Inherit => target@ is Inherit,
            OutputTarget::Null => target@ is Null,
            OutputTarget::Append(path) => target@ == OutputTargetView::Append(path@),
            OutputTarget::Truncate(path) => target@ == OutputTargetView::Truncate(path@),
        },
{
}

/// Ending an application hands out its commands that name a program, in order,
/// and leaves none; the configuration stays.
pub proof fn law_stopping_hands_out_the_commands(
    first: Application,
    second: Application,
    commands: Seq<CommandLine>,
    words: Seq<Seq<char>>,
)
    requires
        first.gives_up(second, commands),
    ensures
        command_texts(commands).contains(words) <==> words.len() > 0 && text_lists(
            first.post_commands@,
        ).contains(words),
        command_texts(commands) == runnable(text_lists(first.post_commands@)),
        second.post_commands@.len() == 0,
        second.config == first.config,
{
    broadcast use vstd::seq_lib::group_filter_ensures;

    let lists = text_lists(first.post_commands@);
    let lines = runnable(lists);
    if lines.contains(words) {
        let k = choose|k: int| 0 <= k < lines.len() && lines[k] == words;
        assert(names_program()(lines[k]));
        lists.lemma_filter_contains_rev(names_program(), words);
    }
    if words.len() > 0 && lists.contains(words) {
        let k = choose|k: int| 0 <= k < lists.len() && lists[k] == words;
        assert(names_program()(lists[k]));
        assert(lines.contains(lists[k]));
    }
}

/// Every application is told of its displays and of its sound by name: the
/// display number can be read back from its digits, the Wayland socket stands
/// behind each of its three names, and the PulseAudio socket and its directory
/// behind theirs.
pub proof fn law_applications_find_their_session(
    context: ApplicationContext,
    runtime: Seq<char>,
    os: HostOs,
)
    ensures
        ({
            let envs = environment(context, runtime, os);
            let digits = written(context.xdisplay as nat, 10);
            let wayland = context.wayland_display@;
            &&& worth(digits, 10) == context.xdisplay
            &&& envs[0] == "PULSE_SERVER=unix:"@ + context.pulse_socket_path@
            &&& envs[1] == "PULSE_RUNTIME_PATH="@ + runtime
            &&& envs[2] == "DISPLAY=:"@ + digits
            &&& envs[3] == "WAYLAND_DISPLAY="@ + wayland
            &&& envs[4] == "MOONSHINE_WAYLAND_DISPLAY="@ + wayland
            &&& envs[5] == "ENABLE_MOONSHINE_WSI=1"@
            &&& envs[6] == "PROTON_USE_PIPEWIRE=0"@
            &&& envs[7] == "XDG_CURRENT_DESKTOP=gamescope"@
            &&& envs[8] == "GAMESCOPE_WAYLAND_DISPLAY="@ + wayland
            &&& envs[9] == "STEAM_GAME_DISPLAY_0=:"@ + digits
            &&& envs[10] == "STEAM_GAMESCOPE_DYNAMIC_FPSLIMITER=1"@
            &&& envs[11] == "STEAM_GAMESCOPE_FANCY_SCALING_SUPPORT=1"@
            &&& envs[12] == "STEAM_GAMESCOPE_NIS_SUPPORTED=1"@
            &&& envs[13] == "STEAM_GAMESCOPE_VRR_SUPPORTED=1"@
        }),
{
    law_written_numbers_read_back(context.xdisplay as nat, 10);
    let envs = environment(context, runtime, os);
    let session = session_envs(context, runtime);
    assert forall|i: int| 0 <= i < 14 implies envs[i] == session[i] by {}
}

/// Sound goes to where the host captures it: to PulseAudio on Linux, to the
/// loopback device on FreeBSD.
pub proof fn law_sound_goes_where_it_is_captured(os: HostOs)
    ensures
        audio_envs(os) == (match os {
            HostOs::Linux => seq!["SDL_AUDIODRIVER=pulseaudio"@, "AUDIODRIVER=pulse"@],
            HostOs::FreeBsd => seq![
                "SDL_AUDIODRIVER=dsp"@,
                "SDL_AUDIODEV=/dev/dsp.loop"@,
                "AUDIODEV=/dev/dsp.loop"@,
            ],
            HostOs::Other => seq![],
        }),
{
}

/// However a launch goes, its configuration and its environment stay.
pub proof fn law_a_launch_keeps_its_environment(
    states: Seq<LaunchView>,
    outcomes: Seq<StepOutcome>,
)
    requires
        is_history(states, outcomes),
    ensures
        states.last().envs == states[0].envs,
        states.last().config == states[0].config,
    decreases outcomes.len(),
{
    if outcomes.len() > 0 {
        let n = outcomes.len() - 1;
        let earlier = outcomes.drop_last();
        let before = states.drop_last();
        assert forall|k: int| 0 <= k < earlier.len() implies (#[trigger] before[k]).goes_on(
            earlier[k],
            before[k + 1],
        ) by {
            assert(states[k].goes_on(outcomes[k], states[k + 1]));
        }
        law_a_launch_keeps_its_environment(before, earlier);
        assert(states[n].goes_on(outcomes[n], states[n + 1]));
    }
}

/// The stage of a launch says which step is next: that command, one of the targets,
/// or the application.
pub proof fn law_a_stage_names_its_step(state: LaunchView, i: usize)
    requires
        state.stage == LaunchStage::PreCommand(i) ==> i < state.config.pre_command@.len()
            && state.config.pre_command@[i as int]@.len() > 0,
    ensures
        state.stage == LaunchStage::PreCommand(i) ==> state.remaining()[0]
            == LaunchStepView::PreCommand(texts(state.config.pre_command@[i as int]@)),
        state.stage is Stdout ==> state.remaining().len() == 3 && state.remaining()[0]
            is OpenStdout,
        state.stage is Stderr ==> state.remaining().len() == 2 && state.remaining()[0]
            is OpenStderr,
        state.stage is Start ==> state.remaining() == seq![
            LaunchStepView::Start(texts(state.config.command@)),
        ],
        state.stage is Started || state.stage is Aborted ==> state.remaining().len() == 0,
{
    if state.stage == LaunchStage::PreCommand(i) {
        let lists = text_lists(state.config.pre_command@);
        let rest = lists.skip(i as int);
        let words = lists[i as int];
        assert(rest =~= seq![words] + rest.skip(1));
        law_commands_are_picked_one_by_one(seq![words], rest.skip(1), words);
        assert(runnable(rest)[0] == words);
        assert(pre_command_steps(rest)[0] == LaunchStepView::PreCommand(words));
    }
}

} // verus!
