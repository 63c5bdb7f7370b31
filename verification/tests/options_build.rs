use upstream_select::options::{build_transport_options, KeepaliveConfig, TransportOptions};

fn sample_keepalive() -> KeepaliveConfig {
    KeepaliveConfig { idle_secs: 1, probe_interval_secs: 10, probe_count: 3, user_timeout_secs: 1 }
}

#[test]
fn builder_is_deterministic() {
    let a = build_transport_options(true, Some(sample_keepalive()), Some(256 * 1024), Some(1));
    let b = build_transport_options(true, Some(sample_keepalive()), Some(256 * 1024), Some(1));
    assert_eq!(a, b);
}

#[test]
fn builder_returns_exactly_what_was_tuned() {
    let opts = build_transport_options(true, Some(sample_keepalive()), Some(256 * 1024), Some(1));
    let expected = TransportOptions {
        fast_open: true,
        keepalive: Some(KeepaliveConfig {
            idle_secs: 1,
            probe_interval_secs: 10,
            probe_count: 3,
            user_timeout_secs: 1,
        }),
        recv_buffer_bytes: Some(262144),
        idle_timeout_secs: Some(1),
    };
    assert_eq!(opts, expected);
}

#[test]
fn absent_fields_stay_absent() {
    let opts = build_transport_options(false, None, None, None);
    assert!(!opts.fast_open);
    assert_eq!(opts.keepalive, None);
    assert_eq!(opts.recv_buffer_bytes, None);
    assert_eq!(opts.idle_timeout_secs, None);
}
