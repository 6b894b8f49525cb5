use agent::config::{Config, OnFetchFailure};
use agent::inventory::{Query, Snapshot};
use agent::report::{Delivery, LogLine, Stream};
use agent::request::{probe_request, status_request};
use agent::supervisor::{Action, Event, Phase, Step, Supervisor};

fn texts(items: &[&str]) -> Vec<String> {
    items.iter().map(|item| item.to_string()).collect()
}

fn listed(items: &[&str]) -> Event {
    Event::Listed(texts(items))
}

fn sent(status: u16, body: &str) -> Event {
    Event::Sent(Delivery::Answered { status, body: body.to_string() })
}

fn quiet(action: Action) -> Step {
    Step { log: None, action }
}

fn out(text: &str) -> Option<LogLine> {
    Some(LogLine { stream: Stream::Stdout, text: text.to_string() })
}

fn err(text: &str) -> Option<LogLine> {
    Some(LogLine { stream: Stream::Stderr, text: text.to_string() })
}

fn lenient() -> Config {
    let mut config = Config::inventory();
    config.on_fetch_failure = OnFetchFailure::Continue;
    config
}

/// A supervisor that has been handed `events`, and the steps that answered them.
fn run(config: Config, events: Vec<Event>) -> (Supervisor, Vec<Step>) {
    let (mut supervisor, _) = Supervisor::start(config);
    let mut steps = Vec::new();
    for event in events {
        let (next, step) = supervisor.step(event);
        supervisor = next;
        steps.push(step);
    }
    (supervisor, steps)
}

fn sleeping_inventory() -> Supervisor {
    run(Config::inventory(), vec![listed(&[]), listed(&[]), listed(&[]), sent(200, "ok")]).0
}

#[test]
fn inventory_starts_by_asking_for_all_containers() {
    let (supervisor, action) = Supervisor::start(Config::inventory());
    assert_eq!(action, Action::List(Query::Containers { all: true }));
    assert_eq!(*supervisor.phase(), Phase::ListingContainers);
    assert!(!supervisor.is_stopped());
    assert_eq!(*supervisor.config(), Config::inventory());
}

#[test]
fn probe_starts_by_sending_its_request() {
    let (supervisor, action) = Supervisor::start(Config::probe());
    assert_eq!(action, Action::Send(probe_request(&Config::probe())));
    assert_eq!(*supervisor.phase(), Phase::Sending);
}

#[test]
fn tick_asks_for_containers_images_networks_then_reports() {
    let (supervisor, first) = Supervisor::start(Config::inventory());
    assert_eq!(first, Action::List(Query::Containers { all: true }));
    let (supervisor, step) = supervisor.step(listed(&["{\"Id\":\"c1\"}", "{\"Id\":\"c2\"}"]));
    assert_eq!(step, quiet(Action::List(Query::Images { all: true })));
    assert_eq!(
        *supervisor.phase(),
        Phase::ListingImages { containers: texts(&["{\"Id\":\"c1\"}", "{\"Id\":\"c2\"}"]) }
    );
    let (supervisor, step) = supervisor.step(listed(&["{\"Id\":\"i1\"}"]));
    assert_eq!(step, quiet(Action::List(Query::Networks)));
    assert_eq!(
        *supervisor.phase(),
        Phase::ListingNetworks {
            containers: texts(&["{\"Id\":\"c1\"}", "{\"Id\":\"c2\"}"]),
            images: texts(&["{\"Id\":\"i1\"}"]),
        }
    );
    let (supervisor, step) = supervisor.step(listed(&[]));
    let snapshot = Snapshot::new(
        texts(&["{\"Id\":\"c1\"}", "{\"Id\":\"c2\"}"]),
        texts(&["{\"Id\":\"i1\"}"]),
        texts(&[]),
    );
    assert_eq!(step, quiet(Action::Send(status_request(&Config::inventory(), &snapshot))));
    assert_eq!(*supervisor.phase(), Phase::Sending);
}

#[test]
fn report_of_fake_runtime_is_the_expected_json() {
    let (_, steps) = run(
        Config::inventory(),
        vec![listed(&["{\"Id\":\"c1\"}", "{\"Id\":\"c2\"}"]), listed(&["{\"Id\":\"i1\"}"]), listed(&[])],
    );
    match &steps[2].action {
        Action::Send(request) => assert_eq!(
            request.body.as_deref(),
            Some("{\"containers\":[{\"Id\":\"c1\"},{\"Id\":\"c2\"}],\"images\":[{\"Id\":\"i1\"}],\"networks\":[]}")
        ),
        other => panic!("expected a request, got {:?}", other),
    }
}

#[test]
fn each_tick_reports_its_own_inventory() {
    let (_, steps) = run(
        Config::inventory(),
        vec![
            listed(&["1"]),
            listed(&["2"]),
            listed(&["3"]),
            sent(200, "ok"),
            Event::Woke,
            listed(&["4", "5"]),
            listed(&[]),
            listed(&["6"]),
        ],
    );
    let first = Snapshot::new(texts(&["1"]), texts(&["2"]), texts(&["3"]));
    let second = Snapshot::new(texts(&["4", "5"]), texts(&[]), texts(&["6"]));
    assert_eq!(steps[2], quiet(Action::Send(status_request(&Config::inventory(), &first))));
    assert_eq!(steps[7], quiet(Action::Send(status_request(&Config::inventory(), &second))));
}

#[test]
fn answer_is_logged_and_the_loop_sleeps_fifteen_seconds() {
    let (supervisor, steps) =
        run(Config::inventory(), vec![listed(&[]), listed(&[]), listed(&[]), sent(200, "stored")]);
    assert_eq!(steps[3], Step { log: out("Received response: stored"), action: Action::Sleep(15) });
    assert_eq!(*supervisor.phase(), Phase::Sleeping);
}

#[test]
fn next_tick_begins_when_the_sleep_is_over() {
    let (supervisor, step) = sleeping_inventory().step(Event::Woke);
    assert_eq!(step, quiet(Action::List(Query::Containers { all: true })));
    assert_eq!(*supervisor.phase(), Phase::ListingContainers);
}

#[test]
fn no_query_is_asked_for_while_one_is_under_way() {
    let (supervisor, steps) = run(
        Config::inventory(),
        vec![Event::Woke, sent(200, "late"), listed(&["1"]), Event::Woke, sent(200, "late")],
    );
    assert_eq!(steps[0], quiet(Action::Wait));
    assert_eq!(steps[1], quiet(Action::Wait));
    assert_eq!(steps[2], quiet(Action::List(Query::Images { all: true })));
    assert_eq!(steps[3], quiet(Action::Wait));
    assert_eq!(steps[4], quiet(Action::Wait));
    assert_eq!(*supervisor.phase(), Phase::ListingImages { containers: texts(&["1"]) });
}

#[test]
fn events_out_of_turn_change_nothing() {
    let (supervisor, steps) = run(
        Config::inventory(),
        vec![
            listed(&["1"]),
            listed(&["2"]),
            Event::Woke,
            listed(&["3"]),
            listed(&["4"]),
            Event::ListFailed("late".to_string()),
            Event::Woke,
            sent(200, "ok"),
            sent(200, "again"),
            listed(&["5"]),
            Event::ListFailed("late".to_string()),
        ],
    );
    assert_eq!(steps[2], quiet(Action::Wait));
    let snapshot = Snapshot::new(texts(&["1"]), texts(&["2"]), texts(&["3"]));
    assert_eq!(steps[3], quiet(Action::Send(status_request(&Config::inventory(), &snapshot))));
    assert_eq!(steps[4], quiet(Action::Wait));
    assert_eq!(steps[5], quiet(Action::Wait));
    assert_eq!(steps[6], quiet(Action::Wait));
    assert_eq!(steps[7], Step { log: out("Received response: ok"), action: Action::Sleep(15) });
    assert_eq!(steps[8], quiet(Action::Wait));
    assert_eq!(steps[9], quiet(Action::Wait));
    assert_eq!(steps[10], quiet(Action::Wait));
    assert_eq!(*supervisor.phase(), Phase::Sleeping);
}

#[test]
fn interrupt_during_sleep_shuts_down() {
    let (supervisor, step) = sleeping_inventory().step(Event::Interrupted);
    assert_eq!(step, Step { log: out("Shutting down agent..."), action: Action::Halt });
    assert!(supervisor.is_stopped());
}

#[test]
fn nothing_is_asked_for_after_an_interrupt_during_sleep() {
    let (supervisor, _) = sleeping_inventory().step(Event::Interrupted);
    let (supervisor, step) = supervisor.step(Event::Woke);
    assert_eq!(step, quiet(Action::Halt));
    let (supervisor, step) = supervisor.step(listed(&["1"]));
    assert_eq!(step, quiet(Action::Halt));
    let (supervisor, step) = supervisor.step(sent(200, "ok"));
    assert_eq!(step, quiet(Action::Halt));
    let (supervisor, step) = supervisor.step(Event::Interrupted);
    assert_eq!(step, quiet(Action::Halt));
    assert_eq!(*supervisor.phase(), Phase::Stopped);
}

#[test]
fn interrupt_during_a_request_ends_the_loop() {
    let (supervisor, steps) = run(
        Config::inventory(),
        vec![listed(&[]), listed(&[]), listed(&[]), Event::Interrupted, sent(200, "late"), Event::Woke],
    );
    assert_eq!(steps[3], Step { log: out("Shutting down agent..."), action: Action::Halt });
    assert_eq!(steps[4], quiet(Action::Halt));
    assert_eq!(steps[5], quiet(Action::Halt));
    assert!(supervisor.is_stopped());
}

#[test]
fn interrupt_during_a_query_ends_the_loop() {
    let (supervisor, steps) = run(
        Config::inventory(),
        vec![listed(&["1"]), Event::Interrupted, listed(&["2"]), listed(&["3"])],
    );
    assert_eq!(steps[1], Step { log: out("Shutting down agent..."), action: Action::Halt });
    assert_eq!(steps[2], quiet(Action::Halt));
    assert_eq!(steps[3], quiet(Action::Halt));
    assert!(supervisor.is_stopped());
}

#[test]
fn interrupt_before_anything_came_back_ends_the_loop() {
    let (supervisor, steps) = run(Config::inventory(), vec![Event::Interrupted]);
    assert_eq!(steps[0], Step { log: out("Shutting down agent..."), action: Action::Halt });
    assert!(supervisor.is_stopped());
    let (supervisor, steps) = run(Config::probe(), vec![Event::Interrupted]);
    assert_eq!(steps[0], Step { log: out("Shutting down agent..."), action: Action::Halt });
    assert!(supervisor.is_stopped());
}

#[test]
fn unreachable_target_does_not_end_the_inventory_loop() {
    let failed = Event::Sent(Delivery::Failed { reason: "connection refused".to_string() });
    let (supervisor, steps) =
        run(Config::inventory(), vec![listed(&[]), listed(&[]), listed(&[]), failed, Event::Woke]);
    assert_eq!(
        steps[3],
        Step { log: err("Request failed: connection refused"), action: Action::Sleep(15) }
    );
    assert_eq!(steps[4], quiet(Action::List(Query::Containers { all: true })));
    assert!(!supervisor.is_stopped());
}

#[test]
fn unreachable_target_does_not_end_the_probe_loop() {
    let failed = Event::Sent(Delivery::Failed { reason: "dns error".to_string() });
    let (supervisor, steps) = run(Config::probe(), vec![failed, Event::Woke]);
    assert_eq!(steps[0], Step { log: err("Request failed: dns error"), action: Action::Sleep(5) });
    assert_eq!(steps[1], quiet(Action::Send(probe_request(&Config::probe()))));
    assert_eq!(*supervisor.phase(), Phase::Sending);
}

#[test]
fn server_error_is_logged_and_the_next_tick_comes_after_the_sleep() {
    let (supervisor, steps) = run(
        Config::inventory(),
        vec![listed(&[]), listed(&[]), listed(&[]), sent(500, "Internal Server Error"), Event::Woke],
    );
    assert_eq!(
        steps[3],
        Step { log: err("Request failed: HTTP status 500"), action: Action::Sleep(15) }
    );
    assert_eq!(steps[4], quiet(Action::List(Query::Containers { all: true })));
    assert_eq!(*supervisor.phase(), Phase::ListingContainers);
}

#[test]
fn probe_server_error_is_logged_and_the_next_tick_comes_after_the_sleep() {
    let (_, steps) = run(Config::probe(), vec![sent(500, "down"), Event::Woke]);
    assert_eq!(
        steps[0],
        Step { log: err("Request failed: HTTP status 500"), action: Action::Sleep(5) }
    );
    assert_eq!(steps[1], quiet(Action::Send(probe_request(&Config::probe()))));
}

#[test]
fn probe_logs_the_body_and_sleeps_five_seconds() {
    let (supervisor, steps) = run(Config::probe(), vec![sent(200, "<html>hello</html>")]);
    assert_eq!(
        steps[0],
        Step { log: out("Received response: <html>hello</html>"), action: Action::Sleep(5) }
    );
    assert_eq!(*supervisor.phase(), Phase::Sleeping);
}

#[test]
fn unreadable_body_is_logged_and_the_loop_goes_on() {
    let unreadable =
        Event::Sent(Delivery::Unreadable { status: 200, reason: "stream ended".to_string() });
    let (supervisor, steps) = run(Config::probe(), vec![unreadable]);
    assert_eq!(steps[0], Step { log: err("Request failed: stream ended"), action: Action::Sleep(5) });
    assert_eq!(*supervisor.phase(), Phase::Sleeping);
}

#[test]
fn failed_query_ends_the_inventory_loop_without_shutdown_notice() {
    let (supervisor, steps) =
        run(Config::inventory(), vec![Event::ListFailed("socket not found".to_string())]);
    assert_eq!(
        steps[0],
        Step { log: err("Snapshot failed: socket not found"), action: Action::Halt }
    );
    assert!(supervisor.is_stopped());
    let (_, step) = supervisor.step(Event::Woke);
    assert_eq!(step, quiet(Action::Halt));
}

#[test]
fn failed_query_ends_the_loop_at_any_of_the_three() {
    let failed = || Event::ListFailed("timeout".to_string());
    let (supervisor, steps) = run(Config::inventory(), vec![listed(&["1"]), failed()]);
    assert_eq!(steps[1], Step { log: err("Snapshot failed: timeout"), action: Action::Halt });
    assert!(supervisor.is_stopped());
    let (supervisor, steps) =
        run(Config::inventory(), vec![listed(&["1"]), listed(&["2"]), failed()]);
    assert_eq!(steps[2], Step { log: err("Snapshot failed: timeout"), action: Action::Halt });
    assert!(supervisor.is_stopped());
}

#[test]
fn failed_query_is_passed_over_where_the_settings_say_so() {
    let failed = || Event::ListFailed("timeout".to_string());
    let (supervisor, steps) = run(lenient(), vec![failed(), Event::Woke]);
    assert_eq!(steps[0], Step { log: err("Snapshot failed: timeout"), action: Action::Sleep(15) });
    assert_eq!(steps[1], quiet(Action::List(Query::Containers { all: true })));
    assert!(!supervisor.is_stopped());
    let (supervisor, steps) = run(lenient(), vec![listed(&["1"]), listed(&["2"]), failed()]);
    assert_eq!(steps[2], Step { log: err("Snapshot failed: timeout"), action: Action::Sleep(15) });
    assert_eq!(*supervisor.phase(), Phase::Sleeping);
}

#[test]
fn tick_given_up_leaves_nothing_behind() {
    let (_, steps) = run(
        lenient(),
        vec![
            listed(&["old"]),
            Event::ListFailed("timeout".to_string()),
            Event::Woke,
            listed(&["1"]),
            listed(&["2"]),
            listed(&["3"]),
        ],
    );
    let snapshot = Snapshot::new(texts(&["1"]), texts(&["2"]), texts(&["3"]));
    assert_eq!(steps[5], quiet(Action::Send(status_request(&lenient(), &snapshot))));
}

#[test]
fn sleep_is_as_long_as_the_settings_say() {
    let mut config = Config::inventory();
    config.interval_secs = 3600;
    let (_, steps) = run(config, vec![listed(&[]), listed(&[]), listed(&[]), sent(200, "ok")]);
    assert_eq!(steps[3].action, Action::Sleep(3600));
    let mut config = Config::probe();
    config.interval_secs = 0;
    let (_, steps) = run(config, vec![sent(200, "ok")]);
    assert_eq!(steps[0].action, Action::Sleep(0));
}

#[test]
fn probe_ignores_lists() {
    let (supervisor, steps) = run(
        Config::probe(),
        vec![listed(&["1"]), Event::ListFailed("none asked".to_string()), Event::Woke],
    );
    assert_eq!(steps[0], quiet(Action::Wait));
    assert_eq!(steps[1], quiet(Action::Wait));
    assert_eq!(steps[2], quiet(Action::Wait));
    assert_eq!(*supervisor.phase(), Phase::Sending);
}

#[test]
fn settings_stay_as_they_were() {
    let (supervisor, _) = run(lenient(), vec![listed(&["1"]), Event::Interrupted, Event::Woke]);
    assert_eq!(*supervisor.config(), lenient());
}
