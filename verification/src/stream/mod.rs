//! The streams of a session.

pub mod audio;
pub mod calls;

use crate::sequence::{
    all_succeeded, course, law_a_failure_ends_the_steps, Sequence, SequenceView,
};
use crate::text::joined;
use vstd::prelude::*;

verus! {

/// How streams are configured, given the configuration types of the single
/// streams.
#[derive(Clone, Debug)]
pub struct StreamConfig<Video, Audio, Control> {
    /// Port to bind the RTSP server to.
    pub port: u16,
    /// Configuration for the video stream.
    pub video: Video,
    /// Configuration for the audio stream.
    pub audio: Audio,
    /// Configuration for the control stream.
    pub control: Control,
    /// Time in seconds since last ping after which the stream closes.
    pub timeout: u64,
}

impl<Video: Default, Audio: Default, Control: Default> Default for StreamConfig<
    Video,
    Audio,
    Control,
> {
    fn default() -> (config: StreamConfig<Video, Audio, Control>)
        ensures
            config.port == 48010,
            config.timeout == 60,
            call_ensures(Video::default, (), config.video),
            call_ensures(Audio::default, (), config.audio),
            call_ensures(Control::default, (), config.control),
    {
        StreamConfig {
            port: 48010,
            video: Video::default(),
            audio: Audio::default(),
            control: Control::default(),
            timeout: 60,
        }
    }
}

/// A step of making a stream's UDP socket.
#[derive(Clone, Copy, Debug, PartialEq, Eq, Structural)]
pub enum BindStep {
    /// Create a datagram socket of the address's family.
    Create { ipv6: bool },
    /// Let the socket receive from IPv4-mapped peers as well.
    AllowIpv4,
    /// Bind the socket to the address.
    Bind,
    /// Let operations on the socket return at once.
    SetNonblocking,
}

/// The steps of making a stream's socket for an address, in order.
pub open spec fn bind_steps(ipv6: bool) -> Seq<BindStep> {
    seq![BindStep::Create { ipv6 }] + (if ipv6 {
        seq![BindStep::AllowIpv4]
    } else {
        seq![]
    }) + seq![BindStep::Bind, BindStep::SetNonblocking]
}

/// The steps of making a stream's socket, of which none was taken yet. The first
/// one that fails ends them.
///
/// An IPv6 socket that keeps the system's default may refuse IPv4 peers. The
/// streams learn where to send from the client's ping on this socket, so the
/// default would leave an IPv4 client without a stream on some systems.
pub fn bind_stream_socket(ipv6: bool) -> (sequence: Sequence<BindStep>)
    ensures
        sequence@ == SequenceView::start(bind_steps(ipv6)),
        sequence@.left() == bind_steps(ipv6),
{
    let mut steps: Vec<BindStep> = Vec::new();
    steps.push(BindStep::Create { ipv6 });
    if ipv6 {
        steps.push(BindStep::AllowIpv4);
    }
    steps.push(BindStep::Bind);
    steps.push(BindStep::SetNonblocking);
    assert(steps@ =~= bind_steps(ipv6));
    Sequence::new(steps)
}

/// The message for an address that is none.
pub fn address_message(address: &str, error: &str) -> (message: String)
    ensures
        message@ == address@ + ": "@ + error@,
{
    let mut message = joined(address, ": ");
    message.append(error);
    message
}

/// A socket for an IPv6 address receives from IPv4 peers from the moment that
/// it is bound, whatever the system's default is; a socket for an IPv4 address
/// keeps its options.
pub proof fn law_ipv4_peers_reach_every_socket(ipv6: bool, at: int)
    requires
        0 <= at < bind_steps(ipv6).len(),
        bind_steps(ipv6)[at] is Bind,
    ensures
        bind_steps(ipv6).take(at).contains(BindStep::AllowIpv4) <==> ipv6,
        bind_steps(ipv6)[0] == (BindStep::Create { ipv6 }),
        bind_steps(ipv6).last() is SetNonblocking,
{
    let before = bind_steps(ipv6).take(at);
    if ipv6 {
        assert(at == 2);
        assert(before[1] is AllowIpv4);
    } else {
        assert(at == 1);
    }
}

/// There is a socket if and only if every step of making it succeeded. After the
/// first one that failed none is taken: a socket that could not be opened to
/// IPv4 peers is not bound.
pub proof fn law_a_socket_takes_every_step(ipv6: bool, outcomes: Seq<bool>)
    ensures
        course(bind_steps(ipv6), outcomes).done() <==> bind_steps(ipv6).len() <= outcomes.len()
            && all_succeeded(outcomes, bind_steps(ipv6).len()),
        !all_succeeded(outcomes, bind_steps(ipv6).len()) ==> course(
            bind_steps(ipv6),
            outcomes,
        ).left().len() == 0,
{
    law_a_failure_ends_the_steps(bind_steps(ipv6), outcomes);
}

/// A socket is created once, first, of the address's family; bound once; and made
/// nonblocking last.
pub proof fn law_a_socket_is_bound_once(ipv6: bool)
    ensures
        ({
            let steps = bind_steps(ipv6);
            let bound = if ipv6 {
                2int
            } else {
                1
            };
            &&& steps.len() == bound + 2
            &&& steps[0] == (BindStep::Create { ipv6 })
            &&& ipv6 ==> steps[1] is AllowIpv4
            &&& steps[bound] is Bind
            &&& steps[bound + 1] is SetNonblocking
        }),
{
}

} // verus!
