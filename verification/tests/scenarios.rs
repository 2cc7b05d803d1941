use minimal_api::config::{Config, ConfigError};
use minimal_api::lifecycle::Termination;
use minimal_api::response::{api_handler, health_handler, root_handler, Endpoint};
use minimal_api::shutdown::{Action, Coordinator, Event, Phase, Trigger, TriggerSource};

/// What a driver does with a configuration and the events it meets: the
/// work it is asked for, and how the process ends.
fn serve(
    database_url: Option<&str>,
    app_port: Option<&str>,
    shutdown_timeout: Option<&str>,
    events: &[Event],
) -> (Option<([u8; 4], u16)>, Vec<Action>, Termination) {
    let config = match Config::load(database_url.map(String::from), app_port, shutdown_timeout) {
        Ok(config) => config,
        Err(err) => return (None, Vec::new(), err.termination()),
    };
    let mut coordinator =
        Coordinator::new(config.shutdown_timeout(), TriggerSource::select(true));
    let mut asked = vec![coordinator.pending()];
    for event in events {
        if let Some(action) = coordinator.step(*event) {
            asked.push(action);
        }
    }
    (Some(config.bind_address()), asked, Termination::CleanShutdown)
}

const SHUTDOWN: [Event; 3] =
    [Event::TriggerFired(Trigger::Interrupt), Event::NoticeLogged, Event::DrainElapsed];

#[test]
fn without_a_database_url_the_process_leaves_with_status_one_and_binds_nothing() {
    let (bound, asked, termination) = serve(None, Some("3000"), Some("5"), &SHUTDOWN);
    assert_eq!(bound, None);
    assert!(asked.is_empty());
    assert_eq!(termination, Termination::MissingConfiguration);
    assert_eq!(termination.exit_code(), 1);
}

#[test]
fn with_defaults_the_process_binds_8080_and_drains_ten_seconds() {
    let (bound, asked, termination) = serve(Some("postgres://db/app"), None, None, &SHUTDOWN);
    assert_eq!(bound, Some(([0, 0, 0, 0], 8080)));
    assert_eq!(
        asked,
        vec![
            Action::AwaitTriggers { terminate: TriggerSource::Armed },
            Action::LogNotice { drain_secs: 10 },
            Action::Sleep { secs: 10 },
            Action::Return,
        ]
    );
    assert_eq!(termination.exit_code(), 0);
}

#[test]
fn a_configured_port_is_the_port_that_is_bound() {
    for (text, port) in [("1", 1), ("80", 80), ("3000", 3000), ("65535", 65535)] {
        let (bound, _, _) = serve(Some("postgres://db/app"), Some(text), None, &[]);
        assert_eq!(bound, Some(([0, 0, 0, 0], port)));
    }
}

#[test]
fn an_invalid_port_binds_8080() {
    for text in ["", "65536", "-80", "eighty", "80/tcp"] {
        let (bound, _, _) = serve(Some("postgres://db/app"), Some(text), None, &[]);
        assert_eq!(bound, Some(([0, 0, 0, 0], 8080)));
    }
}

#[test]
fn a_configured_timeout_is_the_time_that_is_slept() {
    for (text, secs) in [("0", 0), ("1", 1), ("45", 45), ("3600", 3600)] {
        let (_, asked, _) = serve(Some("postgres://db/app"), None, Some(text), &SHUTDOWN);
        assert_eq!(asked[1], Action::LogNotice { drain_secs: secs });
        assert_eq!(asked[2], Action::Sleep { secs });
        assert_eq!(asked[3], Action::Return);
    }
}

#[test]
fn a_timeout_of_zero_with_an_interrupt_leaves_without_delay() {
    let (_, asked, termination) = serve(Some("postgres://db/app"), None, Some("0"), &SHUTDOWN);
    assert_eq!(
        asked,
        vec![
            Action::AwaitTriggers { terminate: TriggerSource::Armed },
            Action::LogNotice { drain_secs: 0 },
            Action::Sleep { secs: 0 },
            Action::Return,
        ]
    );
    assert_eq!(termination.exit_code(), 0);
}

#[test]
fn a_second_trigger_changes_nothing_wherever_it_comes() {
    let second = Event::TriggerFired(Trigger::Terminate);
    let (_, expected, _) = serve(Some("postgres://db/app"), None, Some("5"), &SHUTDOWN);
    for at in 1..=SHUTDOWN.len() {
        let mut events = SHUTDOWN.to_vec();
        events.insert(at, second);
        let (_, asked, _) = serve(Some("postgres://db/app"), None, Some("5"), &events);
        assert_eq!(asked, expected);
    }
}

#[test]
fn the_endpoints_answer_the_same_before_and_after_a_trigger() {
    let mut coordinator = Coordinator::new(5, TriggerSource::Armed);
    let before = (root_handler().message, api_handler().message, health_handler().status);
    coordinator.step(Event::TriggerFired(Trigger::Terminate));
    assert_eq!(coordinator.phase(), Phase::ShutdownRequested);
    let after = (root_handler().message, api_handler().message, health_handler().status);
    assert_eq!(before, after);
    assert_eq!(after, ("Hello World", "Hello API", "ok"));
}

#[test]
fn the_three_routes_are_root_api_and_health() {
    let paths: Vec<&str> =
        [Endpoint::Root, Endpoint::Api, Endpoint::Health].iter().map(|e| e.path()).collect();
    assert_eq!(paths, vec!["/", "/api", "/health"]);
}

#[test]
fn the_only_configuration_error_is_the_missing_database_url() {
    let err = Config::load(None, None, None).err().unwrap();
    assert_eq!(err, ConfigError::MissingDatabaseUrl);
}
