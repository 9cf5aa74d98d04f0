use moonshine::stream::{address_message, bind_stream_socket, BindStep, StreamConfig};

#[derive(Debug, PartialEq)]
struct Bitrate(u32);

impl Default for Bitrate {
    fn default() -> Self {
        Bitrate(20_000)
    }
}

#[test]
fn stream_defaults() {
    let config: StreamConfig<Bitrate, u8, bool> = StreamConfig::default();
    assert_eq!(config.port, 48010);
    assert_eq!(config.timeout, 60);
    assert_eq!(config.video, Bitrate(20_000));
    assert_eq!(config.audio, 0);
    assert!(!config.control);
}

fn steps_of(ipv6: bool) -> Vec<BindStep> {
    let mut sequence = bind_stream_socket(ipv6);
    let mut steps = Vec::new();
    while let Some(step) = sequence.pending() {
        steps.push(*step);
        sequence.report(true);
    }
    assert!(sequence.complete());
    steps
}

#[test]
fn ipv6_socket_lets_ipv4_in_before_it_is_bound() {
    assert_eq!(steps_of(true), vec![
        BindStep::Create { ipv6: true },
        BindStep::AllowIpv4,
        BindStep::Bind,
        BindStep::SetNonblocking,
    ]);
}

#[test]
fn ipv4_socket_keeps_its_options() {
    assert_eq!(steps_of(false), vec![
        BindStep::Create { ipv6: false },
        BindStep::Bind,
        BindStep::SetNonblocking,
    ]);
}

#[test]
fn bad_address_is_named() {
    assert_eq!(
        address_message("localhost", "invalid IP address syntax"),
        "localhost: invalid IP address syntax"
    );
}

#[test]
fn failed_step_leaves_no_socket() {
    for ipv6 in [false, true] {
        let count = steps_of(ipv6).len();
        for failing in 0..count {
            let mut steps = bind_stream_socket(ipv6);
            for _ in 0..failing {
                assert!(steps.pending().is_some());
                steps.report(true);
            }
            steps.report(false);
            assert_eq!(steps.pending(), None);
            assert!(!steps.complete());
        }
    }
}

#[test]
fn socket_that_keeps_ipv4_out_is_not_bound() {
    let mut steps = bind_stream_socket(true);
    steps.report(true);
    assert_eq!(steps.pending(), Some(&BindStep::AllowIpv4));
    steps.report(false);
    assert_eq!(steps.pending(), None);
}
