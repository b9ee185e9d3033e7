use pmda::codec::pm_id;
use pmda::fetch::RequestStep;
use pmda::lifecycle::{Interface, LifecycleState, Pmda};
use pmda::model::{Desc, Metric, Semantics, Units, ValueType};
use pmda::options::{
    parse_options, parse_u32, pmda_options, pmda_print_usage, pmdaopt, pmdaopt_debug,
    pmdaopt_domain, pmdaopt_end, pmdaopt_header, pmdaopt_helptext, pmdaopt_inet, pmdaopt_ipv6,
    pmdaopt_logfile, pmdaopt_pipe, pmdaopt_unix, pmdaopt_username, select_transport, PmdaOptions,
    Transport,
};
use pmda::table::ConfigError;

fn canonical_options() -> PmdaOptions {
    pmda_options(
        pmdaopt(),
        vec![
            pmdaopt_header(),
            pmdaopt_debug(),
            pmdaopt_domain(),
            pmdaopt_helptext(),
            pmdaopt_inet(),
            pmdaopt_ipv6(),
            pmdaopt_logfile(),
            pmdaopt_pipe(),
            pmdaopt_unix(),
            pmdaopt_username(),
            pmdaopt_end(),
        ],
    )
}

fn args(v: &[&str]) -> Vec<String> {
    v.iter().map(|s| s.to_string()).collect()
}

#[test]
fn test_pmda() {
    let pmda = Pmda::new("test", "/var/lib/pcp/pmdas", "pcp").unwrap();
    assert_eq!(pmda.init(), "test");

    let mut dispatch = Interface::default();
    pmda.set_daemon(&mut dispatch, 510);
    assert_eq!(dispatch.domain, 510);

    let mut opts = canonical_options();
    let errors = dispatch.get_options(&args(&["test"]), &mut opts);
    assert_eq!(errors, 0);

    dispatch.open_log();
    pmda.set_uid(&mut dispatch);
    dispatch.bind_transport();
    dispatch.set_fetch_callback();

    let metric = Metric::new(Desc::new(
        0,
        ValueType::UInt64,
        None,
        Semantics::Instant,
        Units::default(),
    ));
    dispatch.init(vec![metric]).unwrap();
    assert_eq!(dispatch.state, LifecycleState::TableInitialized);
}

#[test]
fn parse_u32_exact_values() {
    assert_eq!(parse_u32("0"), Some(0));
    assert_eq!(parse_u32("510"), Some(510));
    assert_eq!(parse_u32("4294967295"), Some(u32::MAX));
    assert_eq!(parse_u32("4294967296"), None);
    assert_eq!(parse_u32(""), None);
    assert_eq!(parse_u32("+3"), None);
    assert_eq!(parse_u32("12x"), None);
}

#[test]
fn options_short_flags() {
    let mut opts = canonical_options();
    parse_options(&mut opts, &args(&["agent", "-d", "42", "-l", "trace.log", "-U", "metrics"]));
    assert_eq!(opts.errors, 0);
    assert_eq!(opts.domain, Some(42));
    assert_eq!(opts.logfile.as_deref(), Some("trace.log"));
    assert_eq!(opts.username.as_deref(), Some("metrics"));

    let mut opts = canonical_options();
    parse_options(&mut opts, &args(&["agent", "-D", "appl0", "-h", "/tmp/help"]));
    assert_eq!(opts.errors, 0);
    assert_eq!(opts.debug.as_deref(), Some("appl0"));
    assert_eq!(opts.helptext.as_deref(), Some("/tmp/help"));
}

#[test]
fn options_long_flags() {
    let mut opts = canonical_options();
    parse_options(&mut opts, &args(&["agent", "--domain", "7", "--pipe"]));
    assert_eq!(opts.errors, 0);
    assert_eq!(opts.domain, Some(7));
    assert!(opts.pipe);
    assert_eq!(select_transport(&opts), Transport::Pipe);
}

#[test]
fn options_unrecognized_flag_counts_error() {
    let mut opts = canonical_options();
    parse_options(&mut opts, &args(&["agent", "-Z"]));
    assert_eq!(opts.errors, 1);

    let mut opts = canonical_options();
    parse_options(&mut opts, &args(&["agent", "--nosuch"]));
    assert_eq!(opts.errors, 1);
}

#[test]
fn options_missing_argument_counts_error() {
    let mut opts = canonical_options();
    parse_options(&mut opts, &args(&["agent", "-d"]));
    assert_eq!(opts.errors, 1);
}

#[test]
fn options_malformed_domain_counts_error() {
    let mut opts = canonical_options();
    parse_options(&mut opts, &args(&["agent", "-d", "12x"]));
    assert_eq!(opts.errors, 1);
    assert_eq!(opts.domain, None);
}

#[test]
fn options_operand_counts_error() {
    let mut opts = canonical_options();
    parse_options(&mut opts, &args(&["agent", "stray"]));
    assert_eq!(opts.errors, 1);
}

#[test]
fn transport_selection() {
    let mut opts = canonical_options();
    parse_options(&mut opts, &args(&["agent", "-i", "44321"]));
    assert_eq!(select_transport(&opts), Transport::Inet);

    let mut opts = canonical_options();
    parse_options(&mut opts, &args(&["agent", "-u", "/run/agent.sock"]));
    assert_eq!(select_transport(&opts), Transport::UnixSocket);

    let mut opts = canonical_options();
    parse_options(&mut opts, &args(&["agent", "-6", "44321"]));
    assert_eq!(select_transport(&opts), Transport::Ipv6);

    // No selector: the daemon default.
    let opts = canonical_options();
    assert_eq!(select_transport(&opts), Transport::Daemon);

    // An ambiguous selection falls back to the daemon default.
    let mut opts = canonical_options();
    parse_options(&mut opts, &args(&["agent", "-p", "-u", "/run/agent.sock"]));
    assert_eq!(select_transport(&opts), Transport::Daemon);
}

#[test]
fn usage_text_lists_rows() {
    let opts = pmda_options(pmdaopt(), vec![pmdaopt_header(), pmdaopt_domain(), pmdaopt_end()]);
    let usage = pmda_print_usage(&opts);
    assert_eq!(
        usage,
        "Options:\n  --domain ARG  use domain (numeric) for metrics domain of agent\n"
    );
}

#[test]
fn option_failure_blocks_startup() {
    let pmda = Pmda::new("agent", "/var/lib/pcp/pmdas", "pcp").unwrap();
    let mut dispatch = Interface::default();
    pmda.set_daemon(&mut dispatch, 1);

    let mut opts = canonical_options();
    let errors = dispatch.get_options(&args(&["agent", "-Z"]), &mut opts);
    assert!(errors > 0, "an unrecognized flag must yield a non-success outcome");

    let usage = pmda_print_usage(&opts);
    assert!(!usage.is_empty(), "a usage message must be produced");

    // The manager did not move on: no table was or can be constructed.
    assert_eq!(dispatch.state, LifecycleState::IdentityBound);
    assert!(dispatch.table.is_none());
}

#[test]
fn lifecycle_order_observed() {
    let pmda = Pmda::new("agent", "/var/lib/pcp/pmdas", "pcp").unwrap();
    let mut dispatch = Interface::default();
    let mut states = vec![dispatch.state];

    pmda.set_daemon(&mut dispatch, 77);
    states.push(dispatch.state);

    let mut opts = canonical_options();
    let errors = dispatch.get_options(&args(&["agent"]), &mut opts);
    assert_eq!(errors, 0);
    states.push(dispatch.state);

    let log_path = dispatch.open_log();
    assert_eq!(log_path, "/var/lib/pcp/pmdas/agent.log");
    states.push(dispatch.state);

    let user = pmda.set_uid(&mut dispatch);
    assert_eq!(user, "pcp");
    states.push(dispatch.state);

    let transport = dispatch.bind_transport();
    assert_eq!(transport, Transport::Daemon);
    states.push(dispatch.state);

    dispatch.set_fetch_callback();
    let metrics = vec![Metric::new(Desc::new(
        pm_id(0, 0),
        ValueType::UInt64,
        None,
        Semantics::Instant,
        Units::default(),
    ))];
    dispatch.init(metrics).unwrap();
    states.push(dispatch.state);

    dispatch.connect();
    states.push(dispatch.state);
    dispatch.begin_serving();
    states.push(dispatch.state);
    dispatch.terminate();
    states.push(dispatch.state);

    let pos = |s: LifecycleState| states.iter().position(|&x| x == s).unwrap();
    // Privilege drop strictly precedes transport binding, which precedes
    // the connection.
    assert!(pos(LifecycleState::PrivilegeDropped) < pos(LifecycleState::TransportBound));
    assert!(pos(LifecycleState::TransportBound) < pos(LifecycleState::Connected));
    assert_eq!(
        states,
        vec![
            LifecycleState::Unconfigured,
            LifecycleState::IdentityBound,
            LifecycleState::OptionsResolved,
            LifecycleState::LogOpen,
            LifecycleState::PrivilegeDropped,
            LifecycleState::TransportBound,
            LifecycleState::TableInitialized,
            LifecycleState::Connected,
            LifecycleState::Serving,
            LifecycleState::Terminated,
        ]
    );
}

#[test]
fn overrides_are_adopted() {
    let pmda = Pmda::new("agent", "/var/lib/pcp/pmdas", "pcp").unwrap();
    let mut dispatch = Interface::default();
    pmda.set_daemon(&mut dispatch, 9);

    let mut opts = canonical_options();
    let errors = dispatch.get_options(
        &args(&["agent", "-d", "123", "-l", "/tmp/other.log", "-U", "nobody", "-h", "/tmp/help"]),
        &mut opts,
    );
    assert_eq!(errors, 0);
    assert_eq!(dispatch.domain, 123);
    assert_eq!(dispatch.help_path, "/tmp/help");

    let log_path = dispatch.open_log();
    assert_eq!(log_path, "/tmp/other.log");

    let user = pmda.set_uid(&mut dispatch);
    assert_eq!(user, "nobody");
}

#[test]
fn serve_loop_routes_requests() {
    let pmda = Pmda::new("agent", "/var/lib/pcp/pmdas", "pcp").unwrap();
    let mut dispatch = Interface::default();
    pmda.set_daemon(&mut dispatch, 9);
    let mut opts = canonical_options();
    assert_eq!(dispatch.get_options(&args(&["agent"]), &mut opts), 0);
    dispatch.open_log();
    pmda.set_uid(&mut dispatch);
    dispatch.bind_transport();
    dispatch.set_fetch_callback();
    dispatch
        .init(vec![Metric::new(Desc::new(
            pm_id(0, 0),
            ValueType::UInt64,
            None,
            Semantics::Instant,
            Units::default(),
        ))])
        .unwrap();
    dispatch.connect();
    dispatch.begin_serving();

    match dispatch.handle_request(pm_id(0, 0), pmda::fetch::NO_INSTANCE) {
        RequestStep::Invoke(m, carrier) => {
            assert_eq!(m.desc.value_type, ValueType::UInt64);
            assert_eq!(carrier.expected, ValueType::UInt64);
            assert_eq!(carrier.value(), None);
        }
        RequestStep::Respond(code) => panic!("expected an invocation, got status {code}"),
    }
    match dispatch.handle_request(pm_id(0, 1), pmda::fetch::NO_INSTANCE) {
        RequestStep::Respond(code) => assert_eq!(code, -12358),
        RequestStep::Invoke(_, _) => panic!("an unknown metric must not be invoked"),
    }
}

#[test]
fn identity_paths_are_derived() {
    let p = Pmda::new("counter", "/var/pcp", "pcp").unwrap();
    assert_eq!(p.prog_name, "counter");
    assert_eq!(p.log_file, "/var/pcp/counter.log");
    assert_eq!(p.help_path, "/var/pcp/counter/help");

    match Pmda::new("", "/var/pcp", "pcp") {
        Err(ConfigError::BadIdentity) => {}
        _ => panic!("an empty agent name must be rejected"),
    }
    match Pmda::new("agent\0x", "/var/pcp", "pcp") {
        Err(ConfigError::BadIdentity) => {}
        _ => panic!("a NUL in the agent name must be rejected"),
    }
    match Pmda::new("agent", "", "pcp") {
        Err(ConfigError::BadIdentity) => {}
        _ => panic!("an empty base directory must be rejected"),
    }
}

#[test]
fn duplicate_metrics_abort_init() {
    let pmda = Pmda::new("agent", "/var/lib/pcp/pmdas", "pcp").unwrap();
    let mut dispatch = Interface::default();
    pmda.set_daemon(&mut dispatch, 9);
    let mut opts = canonical_options();
    assert_eq!(dispatch.get_options(&args(&["agent"]), &mut opts), 0);
    dispatch.open_log();
    pmda.set_uid(&mut dispatch);
    dispatch.bind_transport();
    dispatch.set_fetch_callback();

    let a = Metric::new(Desc::new(
        pm_id(4, 4),
        ValueType::UInt64,
        None,
        Semantics::Instant,
        Units::default(),
    ));
    let b = Metric::new(Desc::new(
        pm_id(4, 4),
        ValueType::Int32,
        None,
        Semantics::Counter,
        Units::default(),
    ));
    match dispatch.init(vec![a, b]) {
        Err(ConfigError::DuplicateMetric) => {}
        _ => panic!("colliding metrics must abort initialization"),
    }
    assert_eq!(dispatch.state, LifecycleState::TransportBound);
    assert!(dispatch.table.is_none());
}
