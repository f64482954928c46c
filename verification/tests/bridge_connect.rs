use twitchbrite::activities::bridge_connect::{
    on_complete_default, BridgeConnect, BridgeConnectWidget, DiscoverBridgeTask, Job, Panel,
    ReadConfigTask, ReadPhase, RegisterClientTask, RegisterPhase, State, ValidateConfigTask,
    ValidateMarks, ValidatePhase,
};
use twitchbrite::config::{
    Bridge, BridgeConfig, ClientError, ClientErrorKind, Config, IpAddress, TwitchConfig,
    UnauthBridge,
};
use twitchbrite::tasks::{Next, Reply, Request, Step, Task, RETRY_BACKOFF_MILLIS};
use twitchbrite::widgets::log_block::{LogHistory, LogVariant};
use twitchbrite::widgets::rainbow_border::RainbowBorderWidget;
use twitchbrite::widgets::Rect;

const REGISTERING: &str = "Registering client. Press the button on your bridge to continue.";

fn found() -> UnauthBridge {
    UnauthBridge { ip: IpAddress::V4(0xC0A8_0004) }
}

fn marks() -> ValidateMarks {
    ValidateMarks {
        validation: "vali02".to_string(),
        found: "foun03".to_string(),
        trouble: "trou04".to_string(),
        saving: "savi05".to_string(),
        done: "done06".to_string(),
    }
}

fn pending() -> Reply {
    Reply::Registered(Err(ClientError::new(
        ClientErrorKind::Bridge { code: 101 },
        "link button not pressed".to_string(),
    )))
}

fn authorized() -> Bridge {
    found().with_user("secret-credential".to_string())
}

fn take(history: &mut LogHistory, step: &Step<State>) {
    history.apply_all(&step.events);
}

fn is_device_type(s: &str) -> bool {
    match s.strip_prefix("twitchbrite#") {
        Some(rest) => rest.chars().count() == 5 && rest.chars().all(|c| c.is_ascii_alphanumeric()),
        None => false,
    }
}

fn count_with(history: &LogHistory, message: &str) -> usize {
    (0..history.len()).filter(|i| history.get(*i).message() == message).count()
}

fn variant_of(history: &LogHistory, message: &str) -> LogVariant {
    let i = (0..history.len()).find(|i| history.get(*i).message() == message).unwrap();
    history.get(i).variant()
}

#[test]
fn discovering_state_spawns_discovery_and_waits() {
    let (next, job) = State::DiscoveringBridge.update();
    assert!(matches!(job, Some(Job::Discover)));
    match next {
        State::Waiting(inner) => assert!(matches!(*inner, State::DiscoveringBridge)),
        _ => panic!("not waiting"),
    }
}

#[test]
fn registering_state_spawns_registration_with_its_device_type() {
    let state = State::RegisteringClient { device_type: "twitchbrite#abcde".to_string(), bridge: found() };
    let (next, job) = state.update();
    match job {
        Some(Job::Register { device_type, bridge }) => {
            assert_eq!(device_type, "twitchbrite#abcde");
            assert_eq!(bridge, found());
        }
        _ => panic!("no registration job"),
    }
    match next {
        State::Waiting(inner) => match *inner {
            State::RegisteringClient { device_type, bridge } => {
                assert_eq!(device_type, "twitchbrite#abcde");
                assert_eq!(bridge, found());
            }
            _ => panic!("wrong inner state"),
        },
        _ => panic!("not waiting"),
    }
}

#[test]
fn waiting_state_spawns_nothing() {
    let (waiting, _) = State::DiscoveringBridge.update();
    let (again, job) = waiting.update();
    assert!(job.is_none());
    assert!(matches!(again, State::Waiting(_)));
}

#[test]
fn terminal_and_manual_states_do_not_move() {
    let (s, job) = State::Failed("boom".to_string()).update();
    assert!(job.is_none());
    assert!(matches!(s, State::Failed(ref c) if c == "boom"));
    let (s, job) =
        State::ManualEntry { attempts: 2, current_entry: "10.0".to_string() }.update();
    assert!(job.is_none());
    assert!(matches!(s, State::ManualEntry { attempts: 2, ref current_entry } if current_entry == "10.0"));
}

#[test]
fn settle_turns_errors_into_failed() {
    assert!(matches!(State::settle(Err("why".to_string())), State::Failed(ref c) if c == "why"));
    assert!(matches!(State::settle(Ok(State::DiscoveringBridge)), State::DiscoveringBridge));
}

#[test]
fn discovery_begins_with_one_waiting_line() {
    let mut task = DiscoverBridgeTask::with_marks("w".into(), "n".into(), "twitchbrite#00000".into());
    let step = task.begin();
    assert!(matches!(step.next, Next::Call(Request::Discover)));
    let mut history = LogHistory::new();
    take(&mut history, &step);
    assert_eq!(history.len(), 1);
    assert_eq!(history.get(0).message(), "Discovering Philips Hue bridge...");
    assert_eq!(history.get(0).variant(), LogVariant::TaskWaiting);
    assert_eq!(history.get(0).id(), "w");
}

#[test]
fn discovery_without_device_leads_to_manual_entry() {
    let mut task = DiscoverBridgeTask::with_marks("w".into(), "n".into(), "twitchbrite#00000".into());
    let mut history = LogHistory::new();
    let step = task.begin();
    take(&mut history, &step);
    let step = task.resume(Reply::Discovered(None));
    take(&mut history, &step);
    match step.next {
        Next::Done(Ok(State::ManualEntry { attempts, current_entry })) => {
            assert_eq!(attempts, 0);
            assert_eq!(current_entry, "");
        }
        _ => panic!("not manual entry"),
    }
    assert_eq!(history.len(), 2);
    assert_eq!(
        history.get(0).message(),
        "Failed to discover bridge. Enter the bridge's IP address manually."
    );
    assert_eq!(history.get(0).variant(), LogVariant::Info);
    assert_eq!(history.get(1).variant(), LogVariant::TaskFailed);
}

#[test]
fn discovery_with_device_leads_to_registration() {
    let mut task = DiscoverBridgeTask::new();
    let device_type = task.device_type().clone();
    assert!(is_device_type(&device_type));
    let mut history = LogHistory::new();
    let step = task.begin();
    take(&mut history, &step);
    let step = task.resume(Reply::Discovered(Some(found())));
    take(&mut history, &step);
    match step.next {
        Next::Done(Ok(State::RegisteringClient { device_type: d, bridge })) => {
            assert_eq!(d, device_type);
            assert_eq!(bridge, found());
        }
        _ => panic!("not registering"),
    }
    assert_eq!(history.len(), 1);
    assert_eq!(history.get(0).variant(), LogVariant::TaskComplete);
}

#[test]
fn discovery_resumed_with_a_stray_reply_fails() {
    let mut task = DiscoverBridgeTask::with_marks("w".into(), "n".into(), "d".into());
    let step = task.resume(Reply::Saved(Ok(())));
    assert!(matches!(step.next, Next::Done(Err(ref c)) if c == "The reply does not answer the request that was made."));
}

#[test]
fn generated_device_types_match_the_pattern() {
    for _ in 0..50 {
        assert!(is_device_type(&BridgeConfig::generate_device_type()));
        assert!(is_device_type(DiscoverBridgeTask::new().device_type()));
    }
}

#[test]
fn registration_retries_inside_the_task_until_confirmed() {
    for n in [0usize, 1, 7] {
        let mut task = RegisterClientTask::with_marks("twitchbrite#abcde".into(), found(), "hand01".into(), marks());
        let mut history = LogHistory::new();
        let mut step = task.begin();
        take(&mut history, &step);
        let mut calls = 0usize;
        for _ in 0..n {
            match &step.next {
                Next::Call(Request::Register { device_type, bridge })
                | Next::Retry(Request::Register { device_type, bridge }) => {
                    assert_eq!(device_type, "twitchbrite#abcde");
                    assert_eq!(*bridge, found());
                }
                _ => panic!("no handshake asked for"),
            }
            calls += 1;
            step = task.resume(pending());
            assert!(step.events.is_empty());
            assert!(matches!(step.next, Next::Retry(_)));
            assert!(matches!(task.phase(), RegisterPhase::Handshake));
            take(&mut history, &step);
            assert_eq!(count_with(&history, REGISTERING), 1);
            assert_eq!(variant_of(&history, REGISTERING), LogVariant::TaskWaiting);
        }
        assert_eq!(calls, n);
        step = task.resume(Reply::Registered(Ok(authorized())));
        take(&mut history, &step);
        assert!(matches!(step.next, Next::Call(Request::ListLights { ref handle }) if handle.username == "secret-credential"));
        assert_eq!(variant_of(&history, REGISTERING), LogVariant::TaskComplete);
        step = task.resume(Reply::Listed(Ok(3)));
        take(&mut history, &step);
        match &step.next {
            Next::Call(Request::Save { config }) => {
                assert_eq!(config.device_type(), "twitchbrite#abcde");
                assert_eq!(config.bridge_ip(), IpAddress::V4(0xC0A8_0004));
                assert_eq!(config.bridge_username(), "secret-credential");
            }
            _ => panic!("no save asked for"),
        }
        step = task.resume(Reply::Saved(Ok(())));
        take(&mut history, &step);
        match step.next {
            Next::Done(Ok(State::Complete(config, bridge))) => {
                assert_eq!(config.device_type(), "twitchbrite#abcde");
                assert_eq!(config.bridge_username(), "secret-credential");
                assert_eq!(bridge.username(), "secret-credential");
                assert_eq!(bridge.ip(), IpAddress::V4(0xC0A8_0004));
            }
            _ => panic!("not complete"),
        }
        assert_eq!(count_with(&history, REGISTERING), 1);
        assert_eq!(variant_of(&history, REGISTERING), LogVariant::TaskComplete);
        let texts: Vec<String> =
            (0..history.len()).map(|i| history.get(i).message().clone()).collect();
        assert_eq!(
            texts,
            vec![
                "Done :)".to_string(),
                "Saving config... ".to_string(),
                "Found 3 lights".to_string(),
                "Validating bridge config... ".to_string(),
                REGISTERING.to_string(),
            ]
        );
        assert_eq!(variant_of(&history, "Saving config... "), LogVariant::TaskComplete);
        assert_eq!(variant_of(&history, "Validating bridge config... "), LogVariant::TaskComplete);
        match task.phase() {
            RegisterPhase::Validating(v) => assert!(matches!(v.phase(), ValidatePhase::Finished)),
            _ => panic!("validation was not reached"),
        }
    }
}

#[test]
fn transport_failure_counts_as_pending() {
    let mut task = RegisterClientTask::with_marks("d".into(), found(), "hand01".into(), marks());
    task.begin();
    let step = task.resume(Reply::Registered(Err(ClientError::new(
        ClientErrorKind::Transport,
        "timed out".to_string(),
    ))));
    assert!(step.events.is_empty());
    assert!(matches!(step.next, Next::Retry(Request::Register { .. })));
}

#[test]
fn unauthorized_registration_fails_with_cause() {
    let mut task = RegisterClientTask::with_marks("d".into(), found(), "hand01".into(), marks());
    let mut history = LogHistory::new();
    let step = task.begin();
    take(&mut history, &step);
    let step = task.resume(Reply::Registered(Err(ClientError::new(
        ClientErrorKind::Bridge { code: 1 },
        "The bridge reported error code 1: unauthorized user".to_string(),
    ))));
    take(&mut history, &step);
    let state = match step.next {
        Next::Done(r) => State::settle(r),
        _ => panic!("task goes on"),
    };
    match state {
        State::Failed(cause) => assert!(cause.contains("unauthorized")),
        _ => panic!("not failed"),
    }
    assert_eq!(count_with(&history, REGISTERING), 1);
    assert_eq!(variant_of(&history, REGISTERING), LogVariant::TaskFailed);
    assert!(matches!(task.phase(), RegisterPhase::Finished));
}

#[test]
fn malformed_answer_is_fatal() {
    let mut task = RegisterClientTask::with_marks("d".into(), found(), "hand01".into(), marks());
    task.begin();
    let step = task.resume(Reply::Registered(Err(ClientError::new(
        ClientErrorKind::Malformed,
        "bad json".to_string(),
    ))));
    assert!(matches!(step.next, Next::Done(Err(ref c)) if c == "bad json"));
}

#[test]
fn failed_validation_is_not_retried() {
    let mut task = RegisterClientTask::with_marks("d".into(), found(), "hand01".into(), marks());
    let mut history = LogHistory::new();
    let step = task.begin();
    take(&mut history, &step);
    let step = task.resume(Reply::Registered(Ok(authorized())));
    take(&mut history, &step);
    let step = task.resume(Reply::Listed(Err(ClientError::new(
        ClientErrorKind::Transport,
        "no route to host".to_string(),
    ))));
    take(&mut history, &step);
    assert!(matches!(step.next, Next::Done(Err(ref c)) if c == "no route to host"));
    assert_eq!(variant_of(&history, "Validating bridge config... "), LogVariant::TaskFailed);
    assert_eq!(history.get(0).variant(), LogVariant::Error);
    assert!(history.get(0).message().starts_with("Couldn't communicate with bridge.\nMake sure"));
    assert_eq!(history.get(0).message().lines().count(), 4);
}

#[test]
fn failed_save_is_fatal() {
    let mut task = RegisterClientTask::with_marks("d".into(), found(), "hand01".into(), marks());
    let mut history = LogHistory::new();
    for reply in [None, Some(Reply::Registered(Ok(authorized()))), Some(Reply::Listed(Ok(12)))] {
        let step = match reply {
            None => task.begin(),
            Some(r) => task.resume(r),
        };
        take(&mut history, &step);
    }
    assert_eq!(history.get(1).message(), "Found 12 lights");
    let step = task.resume(Reply::Saved(Err("disk full".to_string())));
    take(&mut history, &step);
    assert!(matches!(step.next, Next::Done(Err(ref c)) if c == "disk full"));
    assert_eq!(variant_of(&history, "Saving config... "), LogVariant::TaskFailed);
}

#[test]
fn stray_reply_ends_registration() {
    let mut task = RegisterClientTask::with_marks("d".into(), found(), "hand01".into(), marks());
    task.begin();
    let step = task.resume(Reply::Discovered(None));
    assert!(matches!(step.next, Next::Done(Err(_))));
    let step = task.resume(pending());
    assert!(step.events.is_empty());
    assert!(matches!(step.next, Next::Done(Err(_))));
}

#[test]
fn fresh_registration_task_draws_six_character_ids() {
    let m = ValidateMarks::new();
    for id in [&m.validation, &m.found, &m.trouble, &m.saving, &m.done] {
        assert_eq!(id.len(), 6);
        assert!(id.chars().all(|c| c.is_ascii_alphanumeric()));
    }
    let task = RegisterClientTask::new("twitchbrite#abcde".into(), found());
    assert_eq!(task.device_type(), "twitchbrite#abcde");
    assert!(matches!(task.phase(), RegisterPhase::Handshake));
}

#[test]
fn retry_backoff_is_half_a_second() {
    assert_eq!(RETRY_BACKOFF_MILLIS, 500);
}

#[test]
fn screen_starts_discovery_on_first_tick_only() {
    let mut screen = BridgeConnect::init();
    assert!(screen.state().is_none());
    assert_eq!(screen.log().title(), " welcome to twitchbrite ");
    assert!(matches!(screen.panel(), Panel::Empty));
    let job = screen.update(1);
    assert!(matches!(job, Some(Job::Discover)));
    assert!(matches!(screen.state(), Some(State::Waiting(_))));
    for tick in 2..10 {
        assert!(screen.update(tick).is_none());
        assert!(matches!(screen.state(), Some(State::Waiting(_))));
    }
    assert_eq!(screen.log().history().ticks(), 9);
}

#[test]
fn no_device_found_ends_in_manual_entry_once() {
    let mut screen = BridgeConnect::init();
    let mut spawned = 0;
    if screen.update(1).is_some() {
        spawned += 1;
    }
    let mut task = DiscoverBridgeTask::new();
    task.begin();
    let step = task.resume(Reply::Discovered(None));
    let result = match step.next {
        Next::Done(r) => r,
        _ => panic!("task goes on"),
    };
    assert!(DiscoverBridgeTask::on_complete(result, screen.state_sender()).is_ok());
    for tick in 2..20 {
        if screen.update(tick).is_some() {
            spawned += 1;
        }
        match screen.state() {
            Some(State::ManualEntry { attempts, current_entry }) => {
                assert_eq!(*attempts, 0);
                assert_eq!(current_entry, "");
            }
            _ => panic!("not manual entry"),
        }
    }
    assert_eq!(spawned, 1);
    match screen.panel() {
        Panel::Prompt { title } => assert_eq!(title, " oog! : 0 "),
        _ => panic!("no prompt"),
    }
}

#[test]
fn full_run_never_has_two_tasks_in_flight() {
    let mut screen = BridgeConnect::init();
    let log_tx = screen.log_sender();
    let mut in_flight = 0usize;
    let mut spawned = 0usize;
    let mut tick = 0u64;
    let mut pending_job: Option<Job> = None;
    for _ in 0..6 {
        tick += 1;
        if let Some(job) = screen.update(tick) {
            in_flight += 1;
            spawned += 1;
            assert!(in_flight <= 1);
            pending_job = Some(job);
        }
        assert!(in_flight <= 1);
        if let Some(job) = pending_job.take() {
            let result = match job {
                Job::Discover => {
                    let mut task = DiscoverBridgeTask::new();
                    let step = task.begin();
                    for e in step.events {
                        log_tx.send(e).unwrap();
                    }
                    let step = task.resume(Reply::Discovered(Some(found())));
                    for e in step.events {
                        log_tx.send(e).unwrap();
                    }
                    match step.next {
                        Next::Done(r) => r,
                        _ => panic!("task goes on"),
                    }
                }
                Job::Register { device_type, bridge } => {
                    assert!(is_device_type(&device_type));
                    let mut task = RegisterClientTask::new(device_type, bridge);
                    let mut step = task.begin();
                    let mut replies = vec![
                        pending(),
                        pending(),
                        Reply::Registered(Ok(authorized())),
                        Reply::Listed(Ok(2)),
                        Reply::Saved(Ok(())),
                    ]
                    .into_iter();
                    loop {
                        for e in step.events {
                            log_tx.send(e).unwrap();
                        }
                        match step.next {
                            Next::Done(r) => break r,
                            _ => step = task.resume(replies.next().unwrap()),
                        }
                    }
                }
                Job::ReadConfig => panic!("the workflow asked for the reading"),
            };
            assert!(on_complete_default(result, screen.state_sender()).is_ok());
            in_flight -= 1;
        }
    }
    assert_eq!(spawned, 2);
    assert_eq!(in_flight, 0);
    assert!(matches!(screen.state(), Some(State::Complete(_, _))));
    assert!(matches!(screen.panel(), Panel::Log));
    let history = screen.log().history();
    assert_eq!(count_with(history, REGISTERING), 1);
    assert_eq!(variant_of(history, REGISTERING), LogVariant::TaskComplete);
    assert_eq!(history.len(), 6);
}

#[test]
fn on_complete_reports_a_dropped_receiver() {
    let (tx, rx) = crossbeam_channel::unbounded::<State>();
    drop(rx);
    let back = on_complete_default(Ok(State::DiscoveringBridge), tx.clone());
    assert!(matches!(back, Err(State::DiscoveringBridge)));
    let back = on_complete_default(Err("no route".to_string()), tx.clone());
    assert!(matches!(back, Err(State::Failed(ref cause)) if cause == "no route"));
    let back = RegisterClientTask::on_complete(Err("refused".to_string()), tx.clone());
    assert!(matches!(back, Err(State::Failed(ref cause)) if cause == "refused"));
    let back = ValidateConfigTask::on_complete(
        Ok(State::ManualEntry { attempts: 3, current_entry: "10.".to_string() }),
        tx,
    );
    assert!(matches!(
        back,
        Err(State::ManualEntry { attempts: 3, ref current_entry }) if current_entry == "10."
    ));
}

#[test]
fn on_complete_delivers_the_settled_state() {
    let (tx, rx) = crossbeam_channel::unbounded::<State>();
    assert!(on_complete_default(Err("why".to_string()), tx.clone()).is_ok());
    assert!(DiscoverBridgeTask::on_complete(Ok(State::DiscoveringBridge), tx.clone()).is_ok());
    assert!(ReadConfigTask::on_complete(Err("gone".to_string()), tx).is_ok());
    assert!(matches!(rx.try_recv(), Ok(State::Failed(ref cause)) if cause == "why"));
    assert!(matches!(rx.try_recv(), Ok(State::DiscoveringBridge)));
    assert!(matches!(rx.try_recv(), Ok(State::Failed(ref cause)) if cause == "gone"));
    assert!(rx.try_recv().is_err());
}

#[test]
fn senders_of_a_screen_reach_its_channels() {
    let mut screen = BridgeConnect::init();
    let state_tx = screen.state_sender();
    let log_tx = screen.log_sender();
    assert!(state_tx.same_channel(&screen.state_sender()));
    assert!(log_tx.same_channel(&screen.log_sender()));
    assert!(log_tx.same_channel(&screen.log().sender()));
    screen.update(1);
    assert!(state_tx.same_channel(&screen.state_sender()));
    assert!(log_tx.same_channel(&screen.log_sender()));
    let other = BridgeConnect::init();
    assert!(!state_tx.same_channel(&other.state_sender()));
    assert!(!log_tx.same_channel(&other.log_sender()));
}

#[test]
fn only_one_result_is_taken_per_tick() {
    let mut screen = BridgeConnect::init();
    let tx = screen.state_sender();
    tx.send(State::Failed("first".to_string())).unwrap();
    tx.send(State::Failed("second".to_string())).unwrap();
    screen.update(1);
    assert!(matches!(screen.state(), Some(State::Waiting(_))));
    screen.update(2);
    assert!(matches!(screen.state(), Some(State::Failed(c)) if c == "first"));
    screen.update(3);
    assert!(matches!(screen.state(), Some(State::Failed(c)) if c == "second"));
    screen.update(4);
    assert!(matches!(screen.state(), Some(State::Failed(c)) if c == "second"));
}

#[test]
fn panel_is_centred_and_border_stands_still() {
    let area = BridgeConnect::panel_area(Rect { x: 0, y: 0, width: 100, height: 40 });
    assert_eq!(area, Rect { x: 14, y: 10, width: 72, height: 20 });
    let screen = BridgeConnect::init();
    let widget = screen.widget(9);
    assert_eq!(widget, BridgeConnectWidget { border_animated: false, ticks: 9 });
    assert_eq!(widget.border(), RainbowBorderWidget { edge_animated: false, ticks: 9 });
}

fn stored(bridge: bool) -> Config {
    let record = BridgeConfig::from_parts(
        "twitchbrite#Stor3".to_string(),
        IpAddress::V4(0x0A00_0002),
        "stored-credential".to_string(),
    );
    Config::from_parts(if bridge { Some(record) } else { None }, Some(TwitchConfig {}))
}

#[test]
fn validation_lists_lights_then_saves() {
    let record =
        BridgeConfig::from_parts("twitchbrite#abcde".into(), IpAddress::V4(9), "cred".into());
    let mut task = ValidateConfigTask::with_marks(record, marks());
    let mut history = LogHistory::new();
    let step = task.begin();
    take(&mut history, &step);
    match &step.next {
        Next::Call(Request::ListLights { handle }) => {
            assert_eq!(handle.ip, IpAddress::V4(9));
            assert_eq!(handle.username, "cred");
        }
        _ => panic!("no listing asked for"),
    }
    assert_eq!(variant_of(&history, "Validating bridge config... "), LogVariant::TaskWaiting);
    let step = task.resume(Reply::Listed(Ok(0)));
    take(&mut history, &step);
    assert!(matches!(step.next, Next::Call(Request::Save { .. })));
    assert!(matches!(task.phase(), ValidatePhase::Saving { .. }));
    assert_eq!(history.get(1).message(), "Found 0 lights");
    let step = task.resume(Reply::Saved(Ok(())));
    take(&mut history, &step);
    match step.next {
        Next::Done(Ok(State::Complete(config, bridge))) => {
            assert_eq!(config.device_type(), "twitchbrite#abcde");
            assert_eq!(bridge.ip(), IpAddress::V4(9));
            assert_eq!(bridge.username(), "cred");
        }
        _ => panic!("not complete"),
    }
    assert_eq!(history.len(), 4);
    assert_eq!(history.get(0).message(), "Done :)");
    assert!(matches!(task.phase(), ValidatePhase::Finished));
    let again = task.resume(Reply::Saved(Ok(())));
    assert!(again.events.is_empty());
    assert!(matches!(again.next, Next::Done(Err(_))));
}

#[test]
fn unreadable_settings_fall_back_to_discovery() {
    let mut task = ReadConfigTask::with_marks("read00".into(), marks());
    let mut history = LogHistory::new();
    let step = task.begin();
    take(&mut history, &step);
    assert!(matches!(step.next, Next::Call(Request::Load)));
    assert_eq!(history.get(0).message(), "Reading config file... ");
    assert_eq!(history.get(0).variant(), LogVariant::TaskWaiting);
    let step = task.resume(Reply::Loaded(Err("No such file or directory".to_string())));
    take(&mut history, &step);
    assert!(matches!(step.next, Next::Done(Ok(State::DiscoveringBridge))));
    assert_eq!(history.len(), 1);
    assert_eq!(history.get(0).variant(), LogVariant::TaskFailed);
    assert!(matches!(task.phase(), ReadPhase::Finished));
}

#[test]
fn settings_without_a_bridge_lead_to_discovery() {
    let mut task = ReadConfigTask::with_marks("read00".into(), marks());
    let mut history = LogHistory::new();
    let step = task.begin();
    take(&mut history, &step);
    let step = task.resume(Reply::Loaded(Ok(stored(false))));
    take(&mut history, &step);
    assert!(matches!(step.next, Next::Done(Ok(State::DiscoveringBridge))));
    assert_eq!(history.get(0).variant(), LogVariant::TaskComplete);
}

#[test]
fn stored_bridge_is_validated_before_it_counts() {
    let mut task = ReadConfigTask::with_marks("read00".into(), marks());
    let mut history = LogHistory::new();
    let step = task.begin();
    take(&mut history, &step);
    let step = task.resume(Reply::Loaded(Ok(stored(true))));
    take(&mut history, &step);
    assert!(matches!(step.next, Next::Call(Request::ListLights { ref handle }) if handle.username == "stored-credential"));
    assert_eq!(variant_of(&history, "Reading config file... "), LogVariant::TaskComplete);
    assert_eq!(variant_of(&history, "Validating bridge config... "), LogVariant::TaskWaiting);
    let step = task.resume(Reply::Listed(Ok(4)));
    take(&mut history, &step);
    let step = task.resume(Reply::Saved(Ok(())));
    take(&mut history, &step);
    match step.next {
        Next::Done(Ok(State::Complete(config, bridge))) => {
            assert_eq!(config.device_type(), "twitchbrite#Stor3");
            assert_eq!(bridge.username(), "stored-credential");
        }
        _ => panic!("not complete"),
    }
    assert_eq!(history.len(), 5);
}

#[test]
fn stored_bridge_that_does_not_answer_fails() {
    let mut task = ReadConfigTask::with_marks("read00".into(), marks());
    task.begin();
    task.resume(Reply::Loaded(Ok(stored(true))));
    let step = task.resume(Reply::Listed(Err(ClientError::new(
        ClientErrorKind::Bridge { code: 1 },
        "unauthorized user".to_string(),
    ))));
    assert!(matches!(State::settle(match step.next {
        Next::Done(r) => r,
        _ => panic!("task goes on"),
    }), State::Failed(ref c) if c == "unauthorized user"));
}

#[test]
fn stored_start_asks_for_the_reading_and_queues_nothing() {
    let (mut screen, job) = BridgeConnect::init_stored();
    assert!(matches!(job, Job::ReadConfig));
    assert!(screen.state().is_none());
    assert!(screen.update(1).is_none());
    assert!(screen.state().is_none());
    let mut task = ReadConfigTask::new();
    task.begin();
    let step = task.resume(Reply::Loaded(Err("gone".to_string())));
    let result = match step.next {
        Next::Done(r) => r,
        _ => panic!("task goes on"),
    };
    assert!(ReadConfigTask::on_complete(result, screen.state_sender()).is_ok());
    assert!(matches!(screen.update(2), Some(Job::Discover)));
    assert!(matches!(screen.state(), Some(State::Waiting(_))));
}
