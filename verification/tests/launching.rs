use moonshine::application::backend_command::{
    env_pairs, malformed_envs, monitor_next, output_target, runnable_commands, Application,
    CommandLine, Launch, LaunchStage, LaunchStep, MonitorAction, MonitorEvent, OutputTarget,
    StepOutcome, StopStep,
};
use moonshine::application::{
    default_launch_timeout, envs_under, id_of_hash, make_envs, ApplicationConfig,
    ApplicationContext, HostOs,
};
use moonshine::session::SessionShutdownReason;
use std::collections::hash_map::DefaultHasher;
use std::hash::{Hash, Hasher};

fn strings(words: &[&str]) -> Vec<String> {
    words.iter().map(|word| word.to_string()).collect()
}

fn line(words: &[&str]) -> CommandLine {
    CommandLine { program: words[0].to_string(), args: strings(&words[1..]) }
}

fn titled(title: &str) -> ApplicationConfig {
    ApplicationConfig { title: title.to_string(), ..ApplicationConfig::default() }
}

fn context(hdr: bool) -> ApplicationContext {
    ApplicationContext {
        unit_name: "moonshine-session.service".to_string(),
        pulse_socket_path: "/run/user/1000/moonshine/pulse/native".to_string(),
        xdisplay: 17,
        wayland_display: "wayland-3".to_string(),
        hdr,
        extra_env: vec![
            ("LANG".to_string(), "C.UTF-8".to_string()),
            ("OPTIONS".to_string(), "a=1,b=2".to_string()),
        ],
    }
}

#[test]
fn configuration_defaults() {
    let config = ApplicationConfig::default();
    assert_eq!(config.title, "");
    assert_eq!(config.boxart, None);
    assert!(config.command.is_empty());
    assert!(config.pre_command.is_empty());
    assert!(config.post_command.is_empty());
    assert_eq!(config.stdout, None);
    assert_eq!(config.stderr, None);
    assert_eq!(config.launch_timeout_secs, 2);
    assert_eq!(default_launch_timeout(), 2);
}

#[test]
fn number_is_that_of_the_title() {
    for title in ["", "Steam", "Desktop", "Pokémon", "a much longer title than the others"] {
        let mut hasher = DefaultHasher::new();
        title.hash(&mut hasher);
        let expected = (hasher.finish() as i32) & i32::MAX;
        assert_eq!(titled(title).id(), expected);
        assert!(titled(title).id() >= 0);
    }
    assert_ne!(titled("Steam").id(), titled("Desktop").id());
}

#[test]
fn number_depends_on_nothing_but_the_title() {
    let mut config = titled("Steam");
    let id = config.id();
    config.command = strings(&["/usr/bin/steam"]);
    config.launch_timeout_secs = 10;
    assert_eq!(config.id(), id);
}

#[test]
fn numbers_are_the_low_bits_of_the_hash() {
    assert_eq!(id_of_hash(0), 0);
    assert_eq!(id_of_hash(0x1234_5678_9abc_def0), 0x1abc_def0);
    assert_eq!(id_of_hash(0xffff_ffff_ffff_ffff), i32::MAX);
    assert_eq!(id_of_hash(0x8000_0000), 0);
}

#[test]
fn environment_of_an_application() {
    let envs = make_envs(&context(false), HostOs::Linux).unwrap();
    assert_eq!(
        envs,
        strings(&[
            "PULSE_SERVER=unix:/run/user/1000/moonshine/pulse/native",
            "PULSE_RUNTIME_PATH=/run/user/1000/moonshine/pulse",
            "DISPLAY=:17",
            "WAYLAND_DISPLAY=wayland-3",
            "MOONSHINE_WAYLAND_DISPLAY=wayland-3",
            "ENABLE_MOONSHINE_WSI=1",
            "PROTON_USE_PIPEWIRE=0",
            "XDG_CURRENT_DESKTOP=gamescope",
            "GAMESCOPE_WAYLAND_DISPLAY=wayland-3",
            "STEAM_GAME_DISPLAY_0=:17",
            "STEAM_GAMESCOPE_DYNAMIC_FPSLIMITER=1",
            "STEAM_GAMESCOPE_FANCY_SCALING_SUPPORT=1",
            "STEAM_GAMESCOPE_NIS_SUPPORTED=1",
            "STEAM_GAMESCOPE_VRR_SUPPORTED=1",
            "SDL_AUDIODRIVER=pulseaudio",
            "AUDIODRIVER=pulse",
            "LANG=C.UTF-8",
            "OPTIONS=a=1,b=2",
        ])
    );
}

#[test]
fn environment_with_hdr_on_freebsd() {
    let envs = make_envs(&context(true), HostOs::FreeBsd).unwrap();
    assert_eq!(
        envs[14..],
        strings(&[
            "STEAM_GAMESCOPE_HDR_SUPPORTED=1",
            "SDL_AUDIODRIVER=dsp",
            "SDL_AUDIODEV=/dev/dsp.loop",
            "AUDIODEV=/dev/dsp.loop",
            "DXVK_HDR=1",
            "MOONSHINE_HDR=1",
            "LANG=C.UTF-8",
            "OPTIONS=a=1,b=2",
        ])
    );
}

#[test]
fn environment_elsewhere_routes_no_sound() {
    let envs = make_envs(&context(false), HostOs::Other).unwrap();
    assert_eq!(envs[14..], strings(&["LANG=C.UTF-8", "OPTIONS=a=1,b=2"]));
    assert_eq!(
        envs,
        envs_under(&context(false), "/run/user/1000/moonshine/pulse", HostOs::Other)
    );
}

#[test]
fn environment_needs_a_socket_directory() {
    for path in ["", "/"] {
        let mut lost = context(false);
        lost.pulse_socket_path = path.to_string();
        assert_eq!(make_envs(&lost, HostOs::Linux), Err(()));
    }
    let mut bare = context(false);
    bare.pulse_socket_path = "native".to_string();
    assert_eq!(make_envs(&bare, HostOs::Linux).unwrap()[1], "PULSE_RUNTIME_PATH=");
    bare.pulse_socket_path = "/native".to_string();
    assert_eq!(make_envs(&bare, HostOs::Linux).unwrap()[1], "PULSE_RUNTIME_PATH=/");
    bare.pulse_socket_path = "pulse/native".to_string();
    assert_eq!(make_envs(&bare, HostOs::Linux).unwrap()[1], "PULSE_RUNTIME_PATH=pulse");
}

#[test]
fn variables_are_split_at_the_first_equals_sign() {
    let pairs = env_pairs(&strings(&["A=1", "B=x=y", "malformed", "=empty name", "C="]));
    let expected: Vec<(String, String)> = [("A", "1"), ("B", "x=y"), ("", "empty name"), ("C", "")]
        .iter()
        .map(|(name, value)| (name.to_string(), value.to_string()))
        .collect();
    assert_eq!(pairs, expected);
    assert_eq!(env_pairs(&[]), Vec::new());
}

#[test]
fn malformed_variables_are_told_of() {
    let envs = strings(&["A=1", "malformed", "=x", "", "B="]);
    assert_eq!(malformed_envs(&envs), strings(&["malformed", ""]));
    let made = make_envs(&context(true), HostOs::FreeBsd).unwrap();
    assert_eq!(malformed_envs(&made), Vec::<String>::new());
}

#[test]
fn passed_on_variable_wins() {
    let mut overriding = context(false);
    overriding.extra_env = vec![
        ("DISPLAY".to_string(), ":0".to_string()),
        ("WAYLAND_DISPLAY".to_string(), "mine".to_string()),
    ];
    let pairs = env_pairs(&make_envs(&overriding, HostOs::Linux).unwrap());
    let value = |name: &str| pairs.iter().rev().find(|pair| pair.0 == name).map(|pair| &pair.1[..]);
    assert_eq!(value("DISPLAY"), Some(":0"));
    assert_eq!(value("WAYLAND_DISPLAY"), Some("mine"));
    assert_eq!(value("GAMESCOPE_WAYLAND_DISPLAY"), Some("wayland-3"));
}

#[test]
fn environment_arrives_whole() {
    let envs = make_envs(&context(true), HostOs::Linux).unwrap();
    let pairs = env_pairs(&envs);
    assert_eq!(pairs.len(), envs.len());
    for (pair, text) in pairs.iter().zip(&envs) {
        assert_eq!(format!("{}={}", pair.0, pair.1), *text);
    }
    assert!(pairs.contains(&("OPTIONS".to_string(), "a=1,b=2".to_string())));
}

#[test]
fn output_targets() {
    assert_eq!(output_target(None), OutputTarget::Inherit);
    assert_eq!(output_target(Some("inherit")), OutputTarget::Inherit);
    assert_eq!(output_target(Some("null")), OutputTarget::Null);
    assert_eq!(output_target(Some("append:/a:b")), OutputTarget::Append("/a:b".to_string()));
    assert_eq!(output_target(Some("file:/log")), OutputTarget::Append("/log".to_string()));
    assert_eq!(output_target(Some("truncate:/log")), OutputTarget::Truncate("/log".to_string()));
    assert_eq!(output_target(Some("/var/log/x")), OutputTarget::Append("/var/log/x".to_string()));
    assert_eq!(output_target(Some("other:/x")), OutputTarget::Append("other:/x".to_string()));
    assert_eq!(output_target(Some("")), OutputTarget::Append(String::new()));
    assert_eq!(output_target(Some("Null")), OutputTarget::Append("Null".to_string()));
    assert_eq!(output_target(Some("truncate:")), OutputTarget::Truncate(String::new()));
}

#[test]
fn commands_without_a_program_are_skipped() {
    let commands = vec![strings(&["a", "1"]), Vec::new(), strings(&["b"])];
    assert_eq!(runnable_commands(&commands), vec![line(&["a", "1"]), line(&["b"])]);
    assert_eq!(runnable_commands(&[]), Vec::new());
}

fn launched() -> Launch {
    let config = ApplicationConfig {
        title: "Game".to_string(),
        command: strings(&["game", "--fullscreen"]),
        pre_command: vec![Vec::new(), strings(&["mount", "disk"]), Vec::new(), strings(&["sync"])],
        post_command: vec![strings(&["umount", "disk"]), Vec::new()],
        stdout: Some("truncate:/tmp/out".to_string()),
        stderr: Some("null".to_string()),
        ..ApplicationConfig::default()
    };
    Launch::begin(config, &context(false), HostOs::FreeBsd).unwrap()
}

#[test]
fn launch_takes_its_steps_in_order() {
    let mut launch = launched();
    assert_eq!(launch.envs(), make_envs(&context(false), HostOs::FreeBsd).unwrap());
    assert_eq!(launch.step(), Some(LaunchStep::PreCommand(line(&["mount", "disk"]))));
    launch.report(StepOutcome::Exited { success: true });
    assert_eq!(launch.step(), Some(LaunchStep::PreCommand(line(&["sync"]))));
    launch.report(StepOutcome::Exited { success: true });
    assert_eq!(
        launch.step(),
        Some(LaunchStep::OpenStdout(OutputTarget::Truncate("/tmp/out".to_string())))
    );
    launch.report(StepOutcome::Done);
    assert_eq!(launch.step(), Some(LaunchStep::OpenStderr(OutputTarget::Null)));
    launch.report(StepOutcome::Done);
    assert_eq!(launch.step(), Some(LaunchStep::Start(line(&["game", "--fullscreen"]))));
    launch.report(StepOutcome::Done);
    assert_eq!(launch.step(), None);
    assert_eq!(launch.stage(), LaunchStage::Started);
    let application = launch.finish().unwrap();
    assert_eq!(application.config.title, "Game");
    assert_eq!(application.post_commands, vec![strings(&["umount", "disk"]), Vec::new()]);
}

#[test]
fn any_failed_step_ends_the_launch() {
    let good = StepOutcome::Exited { success: true };
    for failing in 0..5 {
        for bad in [StepOutcome::Failed, StepOutcome::Exited { success: false }] {
            let mut launch = launched();
            for _ in 0..failing {
                launch.report(good);
            }
            launch.report(bad);
            assert_eq!(launch.stage(), LaunchStage::Aborted);
            assert_eq!(launch.step(), None);
            launch.report(good);
            assert_eq!(launch.stage(), LaunchStage::Aborted);
            assert!(launch.finish().is_none());
        }
    }
}

#[test]
fn launch_needs_a_command() {
    assert!(Launch::begin(titled("Empty"), &context(false), HostOs::Linux).is_err());
}

#[test]
fn launch_needs_an_environment() {
    let mut lost = context(false);
    lost.pulse_socket_path = String::new();
    let config = ApplicationConfig { command: strings(&["game"]), ..titled("Game") };
    assert!(Launch::begin(config, &lost, HostOs::Linux).is_err());
}

#[test]
fn launch_without_earlier_commands_opens_its_output() {
    let config = ApplicationConfig { command: strings(&["game"]), ..titled("Game") };
    let launch = Launch::begin(config, &context(false), HostOs::Linux).unwrap();
    assert_eq!(launch.step(), Some(LaunchStep::OpenStdout(OutputTarget::Null)));
    assert!(launch.finish().is_none());
}

fn outputs(stdout: Option<&str>, stderr: Option<&str>) -> Vec<LaunchStep> {
    let config = ApplicationConfig {
        command: strings(&["game"]),
        stdout: stdout.map(|value| value.to_string()),
        stderr: stderr.map(|value| value.to_string()),
        ..titled("Game")
    };
    let mut launch = Launch::begin(config, &context(false), HostOs::FreeBsd).unwrap();
    let mut steps = Vec::new();
    for _ in 0..2 {
        steps.push(launch.step().unwrap());
        launch.report(StepOutcome::Done);
    }
    steps
}

#[test]
fn unset_output_is_discarded() {
    let discarded =
        vec![LaunchStep::OpenStdout(OutputTarget::Null), LaunchStep::OpenStderr(OutputTarget::Null)];
    assert_eq!(outputs(None, None), discarded);
    assert_eq!(outputs(Some("null"), Some("null")), discarded);
    assert_eq!(outputs(Some("inherit"), None), vec![
        LaunchStep::OpenStdout(OutputTarget::Inherit),
        LaunchStep::OpenStderr(OutputTarget::Null),
    ]);
    assert_eq!(outputs(None, Some("/log")), vec![
        LaunchStep::OpenStdout(OutputTarget::Null),
        LaunchStep::OpenStderr(OutputTarget::Append("/log".to_string())),
    ]);
}

#[test]
fn post_commands_run_once() {
    let mut application = Application {
        config: titled("Game"),
        post_commands: vec![strings(&["a", "b"]), Vec::new(), strings(&["c"])],
    };
    assert_eq!(application.stop(), vec![line(&["a", "b"]), line(&["c"])]);
    assert_eq!(application.stop(), Vec::new());
    assert_eq!(application.config.title, "Game");
}

#[test]
fn post_commands_wait_for_the_exit() {
    let mut application = Application {
        config: titled("Game"),
        post_commands: vec![Vec::new(), strings(&["a", "b"]), strings(&["c"])],
    };
    assert_eq!(application.stop_steps(), vec![
        StopStep::EndProcess,
        StopStep::AwaitExit,
        StopStep::Run(line(&["a", "b"])),
        StopStep::Run(line(&["c"])),
    ]);
    assert_eq!(application.stop_steps(), vec![StopStep::EndProcess]);
}

#[test]
fn nothing_is_awaited_without_commands() {
    for post_commands in [Vec::new(), vec![Vec::new(), Vec::new()]] {
        let mut application = Application { config: titled("Game"), post_commands };
        assert_eq!(application.stop_steps(), vec![StopStep::EndProcess]);
    }
}

#[test]
fn session_ends_with_its_application() {
    for event in [MonitorEvent::Exited, MonitorEvent::WaitFailed] {
        let action = monitor_next(event);
        assert_eq!(action, MonitorAction::TriggerShutdown);
        assert_eq!(action.shutdown_reason(), Some(SessionShutdownReason::ApplicationStopped));
    }
    let action = monitor_next(MonitorEvent::EndAsked);
    assert_eq!(action, MonitorAction::Kill);
    assert_eq!(action.shutdown_reason(), None);
}
