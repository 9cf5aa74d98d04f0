//! Applications that a session can launch, and the environment they run in.

pub mod backend_command;
pub mod calls;
pub mod laws;

use crate::text::{decimal, joined, texts, written};
use std::collections::hash_map::DefaultHasher;
use std::hash::{Hash, Hasher};
use vstd::prelude::*;
use vstd::std_specs::hash::DefaultHasherAdditionalSpecFns;

verus! {

/// `std::path::PathBuf`, a path of the file system. Nothing is claimed of it: the
/// library only hands it on.
#[verifier::external_type_specification]
#[verifier::external_body]
pub struct ExPathBuf(std::path::PathBuf);

/// Seconds to wait for an application, unless its configuration says otherwise.
pub fn default_launch_timeout() -> (seconds: u64)
    ensures
        seconds == 2,
{
    2
}

/// Configuration for a single application that can be launched in a session.
#[derive(Clone, Debug)]
pub struct ApplicationConfig {
    /// Title of the application.
    pub title: String,
    /// Path to a boxart image.
    pub boxart: Option<std::path::PathBuf>,
    /// The command to run.
    pub command: Vec<String>,
    /// Commands to run before launching the application.
    pub pre_command: Vec<Vec<String>>,
    /// Commands to run after the streaming session ends.
    pub post_command: Vec<Vec<String>>,
    /// Where standard output goes, as systemd's StandardOutput has it. If not
    /// set, defaults to "null".
    pub stdout: Option<String>,
    /// Where standard error goes, as systemd's StandardError has it. If not set,
    /// defaults to "null".
    pub stderr: Option<String>,
    /// Seconds to wait for the application to reach an active state after launch.
    pub launch_timeout_secs: u64,
}

impl Default for ApplicationConfig {
    fn default() -> (config: Self)
        ensures
            config.title@ == Seq::<char>::empty(),
            config.boxart is None,
            config.command@ == Seq::<String>::empty(),
            config.pre_command@ == Seq::<Vec<String>>::empty(),
            config.post_command@ == Seq::<Vec<String>>::empty(),
            config.stdout is None,
            config.stderr is None,
            config.launch_timeout_secs == 2,
    {
        ApplicationConfig {
            title: String::new(),
            boxart: None,
            command: Vec::new(),
            pre_command: Vec::new(),
            post_command: Vec::new(),
            stdout: None,
            stderr: None,
            launch_timeout_secs: default_launch_timeout(),
        }
    }
}

/// What a hasher has taken in after a string was fed to it, by what it had
/// taken in before and by the text of the string.
pub uninterp spec fn fed(taken: Seq<Seq<u8>>, text: Seq<char>) -> Seq<Seq<u8>>;

/// `<String as std::hash::Hash>::hash` on a `DefaultHasher`. The claim is that
/// what the hasher has taken in afterwards depends on nothing but what it had
/// taken in before and the characters of the string.
#[verifier::external_body]
fn feed(text: &String, hasher: &mut DefaultHasher)
    ensures
        final(hasher)@ == fed(old(hasher)@, text@),
{
    text.hash(hasher);
}

/// The hash of a title.
pub open spec fn title_hash(title: Seq<char>) -> u64 {
    DefaultHasher::spec_finish(fed(Seq::empty(), title))
}

/// The application number of a hash: its low 31 bits, because clients only
/// accept numbers that are not negative.
pub fn id_of_hash(hash: u64) -> (id: i32)
    ensures
        id == hash % 0x8000_0000,
        id >= 0,
{
    assert(((hash as i32) & 0x7fff_ffffi32) == hash % 0x8000_0000) by (bit_vector);
    (hash as i32) & i32::MAX
}

impl ApplicationConfig {
    /// The number under which clients know the application.
    pub fn id(&self) -> (id: i32)
        ensures
            id == title_hash(self.title@) % 0x8000_0000,
            id >= 0,
    {
        let mut hasher = DefaultHasher::new();
        feed(&self.title, &mut hasher);
        id_of_hash(hasher.finish())
    }
}

/// The operating system that the application runs on.
#[derive(Clone, Copy, Debug, PartialEq, Eq, Structural)]
pub enum HostOs {
    Linux,
    FreeBsd,
    Other,
}

/// Runtime context required to launch an application.
#[derive(Debug)]
pub struct ApplicationContext {
    /// systemd transient unit name (e.g. `"moonshine-session.service"`).
    pub unit_name: String,
    /// Path to the PulseAudio socket created by the audio stream.
    pub pulse_socket_path: String,
    /// X11 display number reported by XWayland (e.g. `0` for `":0"`).
    pub xdisplay: u32,
    /// Wayland socket name reported by the compositor.
    pub wayland_display: String,
    /// Effective HDR mode: `true` only when the compositor confirmed that an
    /// HDR-capable DMA-BUF format is in use.
    pub hdr: bool,
    /// Environment variables to pass on, each name with its value. No name occurs
    /// twice.
    pub extra_env: Vec<(String, String)>,
}

impl ApplicationContext {
    /// Whether no name occurs twice among the variables to pass on.
    pub open spec fn wf(self) -> bool {
        forall|i: int, j: int|
            0 <= i < j < self.extra_env@.len() ==> (#[trigger] self.extra_env@[i]).0@ != (
            #[trigger] self.extra_env@[j]).0@
    }
}

/// The directory that holds what a path leads to, if there is one.
pub uninterp spec fn parent_directory(path: Seq<char>) -> Option<Seq<char>>;

/// Whether the last slash of a path is at `at`, and the path needs no
/// normalisation where it is split there: what stands before the slash is
/// neither empty nor ends in a slash or a dot, and what stands after it is
/// neither empty nor begins with a dot.
pub open spec fn last_slash(path: Seq<char>, at: int) -> bool {
    &&& 0 < at < path.len() - 1
    &&& path[at] == '/'
    &&& path[at - 1] != '/' && path[at - 1] != '.'
    &&& path[at + 1] != '.'
    &&& forall|i: int| at < i < path.len() ==> path[i] != '/'
}

/// Whether a text is a name that stands for itself in a path: it is not empty,
/// holds no slash and does not begin with a dot.
pub open spec fn plain_name(name: Seq<char>) -> bool {
    name.len() > 0 && name[0] != '.' && !name.contains('/')
}

/// Whether a directory is the parent of a path, where the path needs no
/// normalisation: what stands before its last slash, the root for a name
/// directly under it, or nothing for a bare name.
pub open spec fn holds(directory: Option<String>, path: Seq<char>) -> bool {
    &&& forall|at: int| #[trigger]
        last_slash(path, at) ==> (directory matches Some(found) && found@ == path.take(at))
    &&& path.len() > 0 && path[0] == '/' && plain_name(path.skip(1)) ==> (
    directory matches Some(found) && found@ == seq!['/'])
    &&& plain_name(path) ==> (directory matches Some(found) && found@ == Seq::<char>::empty())
}

/// `std::path::Path::parent` on a Unix host. The claim is that whether there is
/// a parent, and which, depends on nothing but the path; that neither the empty
/// path nor the root has one; and that, where the path needs no normalisation, the
/// parent is what stands before the last slash, the root for a name directly
/// under it, and empty for a bare name. Of other paths it is not said which
/// parent they have.
#[verifier::external_body]
fn parent_of(path: &str) -> (parent: Option<String>)
    ensures
        match parent {
            Some(directory) => parent_directory(path@) == Some(directory@),
            None => parent_directory(path@) is None,
        },
        path@.len() == 0 || path@ == seq!['/'] ==> parent is None,
        holds(parent, path@),
{
    match std::path::Path::new(path).parent() {
        Some(directory) => Some(directory.to_string_lossy().into_owned()),
        None => None,
    }
}

/// The variables that every application gets.
pub open spec fn session_envs(context: ApplicationContext, runtime: Seq<char>) -> Seq<Seq<char>> {
    seq![
        "PULSE_SERVER=unix:"@ + context.pulse_socket_path@,
        "PULSE_RUNTIME_PATH="@ + runtime,
        "DISPLAY=:"@ + written(context.xdisplay as nat, 10),
        "WAYLAND_DISPLAY="@ + context.wayland_display@,
        "MOONSHINE_WAYLAND_DISPLAY="@ + context.wayland_display@,
        "ENABLE_MOONSHINE_WSI=1"@,
        "PROTON_USE_PIPEWIRE=0"@,
        "XDG_CURRENT_DESKTOP=gamescope"@,
        "GAMESCOPE_WAYLAND_DISPLAY="@ + context.wayland_display@,
        "STEAM_GAME_DISPLAY_0=:"@ + written(context.xdisplay as nat, 10),
        "STEAM_GAMESCOPE_DYNAMIC_FPSLIMITER=1"@,
        "STEAM_GAMESCOPE_FANCY_SCALING_SUPPORT=1"@,
        "STEAM_GAMESCOPE_NIS_SUPPORTED=1"@,
        "STEAM_GAMESCOPE_VRR_SUPPORTED=1"@,
    ]
}

/// The variable that tells Steam of HDR.
pub open spec fn steam_hdr_envs(hdr: bool) -> Seq<Seq<char>> {
    if hdr {
        seq!["STEAM_GAMESCOPE_HDR_SUPPORTED=1"@]
    } else {
        seq![]
    }
}

/// The variables that route sound to where it is captured.
pub open spec fn audio_envs(os: HostOs) -> Seq<Seq<char>> {
    match os {
        HostOs::Linux => seq!["SDL_AUDIODRIVER=pulseaudio"@, "AUDIODRIVER=pulse"@],
        HostOs::FreeBsd => seq![
            "SDL_AUDIODRIVER=dsp"@,
            "SDL_AUDIODEV=/dev/dsp.loop"@,
            "AUDIODEV=/dev/dsp.loop"@,
        ],
        HostOs::Other => seq![],
    }
}

/// The variables that tell games and the Vulkan layer of HDR.
pub open spec fn game_hdr_envs(hdr: bool) -> Seq<Seq<char>> {
    if hdr {
        seq!["DXVK_HDR=1"@, "MOONSHINE_HDR=1"@]
    } else {
        seq![]
    }
}

/// The text of a variable.
pub open spec fn env_text(name: Seq<char>, value: Seq<char>) -> Seq<char> {
    name + "="@ + value
}

/// The texts of the variables that are passed on.
pub open spec fn extra_envs(extra: Seq<(String, String)>) -> Seq<Seq<char>> {
    extra.map_values(|pair: (String, String)| env_text(pair.0@, pair.1@))
}

/// The environment of an application, given the directory of the PulseAudio socket.
pub open spec fn environment(
    context: ApplicationContext,
    runtime: Seq<char>,
    os: HostOs,
) -> Seq<Seq<char>> {
    session_envs(context, runtime) + steam_hdr_envs(context.hdr) + audio_envs(os) + game_hdr_envs(
        context.hdr,
    ) + extra_envs(context.extra_env@)
}

fn add_value(envs: &mut Vec<String>, name: &str, value: &str)
    ensures
        texts(final(envs)@) == texts(old(envs)@).push(name@ + value@),
{
    envs.push(joined(name, value));
    assert(texts(envs@) =~= texts(old(envs)@).push(name@ + value@));
}

fn add_fixed(envs: &mut Vec<String>, text: &str)
    ensures
        texts(final(envs)@) == texts(old(envs)@).push(text@),
{
    envs.push(text.to_owned());
    assert(texts(envs@) =~= texts(old(envs)@).push(text@));
}

/// The environment of an application, as `NAME=value` texts, given the directory
/// of the PulseAudio socket.
pub fn envs_under(context: &ApplicationContext, runtime: &str, os: HostOs) -> (envs: Vec<String>)
    ensures
        texts(envs@) == environment(*context, runtime@, os),
{
    let display = decimal(context.xdisplay as u64);
    let wayland = context.wayland_display.as_str();
    let mut envs: Vec<String> = Vec::new();

    add_value(&mut envs, "PULSE_SERVER=unix:", context.pulse_socket_path.as_str());
    add_value(&mut envs, "PULSE_RUNTIME_PATH=", runtime);
    add_value(&mut envs, "DISPLAY=:", display.as_str());
    add_value(&mut envs, "WAYLAND_DISPLAY=", wayland);
    add_value(&mut envs, "MOONSHINE_WAYLAND_DISPLAY=", wayland);
    // Activate the moonshine WSI Vulkan layer.
    add_fixed(&mut envs, "ENABLE_MOONSHINE_WSI=1");
    // Keep Proton on winepulse.drv, so that it respects PULSE_SERVER.
    add_fixed(&mut envs, "PROTON_USE_PIPEWIRE=0");
    // Impersonate gamescope so Steam uses its external-overlay mode.
    add_fixed(&mut envs, "XDG_CURRENT_DESKTOP=gamescope");
    add_value(&mut envs, "GAMESCOPE_WAYLAND_DISPLAY=", wayland);
    add_value(&mut envs, "STEAM_GAME_DISPLAY_0=:", display.as_str());
    // Steam keys gamescope features off these.
    add_fixed(&mut envs, "STEAM_GAMESCOPE_DYNAMIC_FPSLIMITER=1");
    add_fixed(&mut envs, "STEAM_GAMESCOPE_FANCY_SCALING_SUPPORT=1");
    add_fixed(&mut envs, "STEAM_GAMESCOPE_NIS_SUPPORTED=1");
    add_fixed(&mut envs, "STEAM_GAMESCOPE_VRR_SUPPORTED=1");
    assert(texts(envs@) =~= session_envs(*context, runtime@));

    if context.hdr {
        add_fixed(&mut envs, "STEAM_GAMESCOPE_HDR_SUPPORTED=1");
    }
    assert(texts(envs@) =~= session_envs(*context, runtime@) + steam_hdr_envs(context.hdr));

    match os {
        HostOs::Linux => {
            add_fixed(&mut envs, "SDL_AUDIODRIVER=pulseaudio");
            add_fixed(&mut envs, "AUDIODRIVER=pulse");
        },
        HostOs::FreeBsd => {
            // virtual_oss's loopback device, from which the sound is captured.
            add_fixed(&mut envs, "SDL_AUDIODRIVER=dsp");
            add_fixed(&mut envs, "SDL_AUDIODEV=/dev/dsp.loop");
            add_fixed(&mut envs, "AUDIODEV=/dev/dsp.loop");
        },
        HostOs::Other => {},
    }
    let ghost so_far = session_envs(*context, runtime@) + steam_hdr_envs(context.hdr) + audio_envs(
        os,
    );
    assert(texts(envs@) =~= so_far);

    if context.hdr {
        // DXVK exposes HDR color spaces only under this variable.
        add_fixed(&mut envs, "DXVK_HDR=1");
        // The moonshine-wsi layer advertises HDR surface formats under this one.
        add_fixed(&mut envs, "MOONSHINE_HDR=1");
    }
    let ghost before = so_far + game_hdr_envs(context.hdr);
    let ghost extra = extra_envs(context.extra_env@);
    assert(texts(envs@) =~= before);

    for i in 0..context.extra_env.len()
        invariant
            extra == extra_envs(context.extra_env@),
            texts(envs@) == before + extra.take(i as int),
    {
        let named = joined(context.extra_env[i].0.as_str(), "=");
        add_value(&mut envs, named.as_str(), context.extra_env[i].1.as_str());
        assert(extra[i as int] == env_text(
            context.extra_env@[i as int].0@,
            context.extra_env@[i as int].1@,
        ));
        assert(texts(envs@) =~= before + extra.take(i + 1));
    }
    assert(extra.take(context.extra_env@.len() as int) =~= extra);
    assert(texts(envs@) =~= environment(*context, runtime@, os));
    envs
}

/// The environment of an application, as `NAME=value` texts. There is none when
/// the PulseAudio socket lies in no directory.
pub fn make_envs(context: &ApplicationContext, os: HostOs) -> (envs: Result<Vec<String>, ()>)
    ensures
        envs is Ok <==> parent_directory(context.pulse_socket_path@) is Some,
        envs matches Ok(list) ==> texts(list@) == environment(
            *context,
            parent_directory(context.pulse_socket_path@)->0,
            os,
        ),
        context.pulse_socket_path@.len() == 0 || context.pulse_socket_path@ == seq!['/']
            ==> envs is Err,
        forall|at: int| #[trigger]
            last_slash(context.pulse_socket_path@, at) ==> (envs matches Ok(list) && texts(list@)
                == environment(*context, context.pulse_socket_path@.take(at), os)),
        context.pulse_socket_path@.len() > 0 && context.pulse_socket_path@[0] == '/' && plain_name(
            context.pulse_socket_path@.skip(1),
        ) ==> (envs matches Ok(list) && texts(list@) == environment(*context, seq!['/'], os)),
        plain_name(context.pulse_socket_path@) ==> (envs matches Ok(list) && texts(list@)
            == environment(*context, Seq::<char>::empty(), os)),
{
    match parent_of(context.pulse_socket_path.as_str()) {
        Some(runtime) => Ok(envs_under(context, runtime.as_str(), os)),
        None => Err(()),
    }
}

} // verus!
