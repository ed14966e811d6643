use wurstmineberg_systray::config::Config;
use wurstmineberg_systray::people::{check_people_file_version, name_of, uid_listed, Person, PeopleFileVersionError, Uid};
use wurstmineberg_systray::poller::{fetched_state, finish_cycle, wants_launcher_data, SharedState};
use wurstmineberg_systray::state::{http_failure, online_ids, retain_listed, tray_status, PollError, State, WorldStatus};

fn wmb(id: &str) -> Uid {
    Uid::WmbId(id.to_string())
}

fn world(list: Vec<Uid>, running: bool, version: Option<&str>) -> WorldStatus {
    WorldStatus { list, running, version: version.map(|v| v.to_string()) }
}

fn state_with(worlds: Vec<(&str, WorldStatus)>, people: Vec<(Uid, Person)>) -> State {
    State {
        people,
        worlds: worlds.into_iter().map(|(n, w)| (n.to_string(), w)).collect(),
    }
}

#[test]
fn people_file_version_three_is_accepted() {
    assert_eq!(check_people_file_version(3), Ok(()));
    assert_eq!(check_people_file_version(2), Err(PeopleFileVersionError(2)));
}

#[test]
fn uid_text_is_decimal_or_string() {
    assert_eq!(Uid::Snowflake(86841168427495424).to_text(), "86841168427495424");
    assert_eq!(Uid::Snowflake(0).to_text(), "0");
    assert_eq!(wmb("fenhl").to_text(), "fenhl");
    assert!(wmb("a") == wmb("a"));
    assert!(wmb("a") != wmb("b"));
    assert!(Uid::Snowflake(5) != wmb("5"));
}

#[test]
fn names_fall_back_to_ids() {
    let people = vec![
        (wmb("alice"), Person { name: Some("Alice A.".to_string()) }),
        (Uid::Snowflake(42), Person { name: None }),
    ];
    assert_eq!(name_of(&people, &wmb("alice")), "Alice A.");
    assert_eq!(name_of(&people, &Uid::Snowflake(42)), "42");
    assert_eq!(name_of(&people, &wmb("bob")), "bob");
}

#[test]
fn ignored_players_leave_every_list() {
    let ignored = vec![wmb("bot"), Uid::Snowflake(7)];
    let s = state_with(vec![
        ("wurstmineberg", world(vec![wmb("alice"), wmb("bot"), Uid::Snowflake(7)], true, Some("1.21"))),
        ("other", world(vec![wmb("bot")], true, None)),
        ("empty", world(vec![], false, None)),
    ], vec![]);
    let t = s.without_ignored(&ignored);
    assert_eq!(t.worlds.len(), 3);
    assert_eq!(t.worlds[0].0, "wurstmineberg");
    assert_eq!(t.worlds[0].1.list, vec![wmb("alice")]);
    assert_eq!(t.worlds[0].1.version.as_deref(), Some("1.21"));
    assert!(t.worlds[1].1.list.is_empty());
    assert!(t.worlds[2].1.list.is_empty());
    for (_, w) in &t.worlds {
        for u in &w.list {
            assert!(!uid_listed(&ignored, u));
        }
    }
}

#[test]
fn retain_keeps_order() {
    let kept = retain_listed(vec![wmb("c"), wmb("x"), wmb("a"), wmb("x"), wmb("b")], &vec![wmb("x")]);
    assert_eq!(kept, vec![wmb("c"), wmb("a"), wmb("b")]);
}

#[test]
fn one_player_online_is_named() {
    let config = Config::default();
    let s = state_with(vec![
        ("wurstmineberg", world(vec![wmb("alice")], true, Some("1.21"))),
    ], vec![(wmb("alice"), Person { name: Some("alice".to_string()) })]);
    let (visible, tip) = tray_status(&Some(Ok(s)), &config);
    assert!(visible);
    assert_eq!(tip, "alice is online");
}

#[test]
fn one_unknown_player_is_shown_by_id() {
    let config = Config::default();
    let s = state_with(vec![
        ("wurstmineberg", world(vec![Uid::Snowflake(1234)], true, Some("1.21"))),
    ], vec![]);
    let (visible, tip) = tray_status(&Some(Ok(s)), &config);
    assert!(visible);
    assert_eq!(tip, "1234 is online");
}

#[test]
fn several_players_are_counted() {
    let config = Config::default();
    let s = state_with(vec![
        ("wurstmineberg", world(vec![wmb("a"), wmb("b")], true, None)),
        ("other", world(vec![wmb("c")], true, None)),
    ], vec![]);
    assert_eq!(online_ids(&s.worlds).len(), 3);
    let (visible, tip) = tray_status(&Some(Ok(s)), &config);
    assert!(visible);
    assert_eq!(tip, "3 players are online");
}

#[test]
fn empty_server_follows_settings() {
    let mut config = Config::default();
    let running = state_with(vec![("wurstmineberg", world(vec![], true, None))], vec![]);
    assert_eq!(tray_status(&Some(Ok(running.clone())), &config), (false, String::new()));
    config.show_if_empty = true;
    assert_eq!(tray_status(&Some(Ok(running)), &config), (true, "0 players are online".to_string()));
    let offline = state_with(vec![("wurstmineberg", world(vec![], false, None))], vec![]);
    assert_eq!(tray_status(&Some(Ok(offline.clone())), &config).0, false);
    config.show_if_offline = true;
    assert_eq!(tray_status(&Some(Ok(offline)), &config).0, true);
}

#[test]
fn loading_and_error_tooltips() {
    let config = Config::default();
    assert_eq!(tray_status(&None, &config), (true, "Wurstmineberg: Loading\u{2026}".to_string()));
    assert_eq!(
        tray_status(&Some(Err(PollError::Network("timeout".to_string()))), &config),
        (true, "error getting data".to_string()),
    );
}

#[test]
fn unsupported_schema_stops_polling() {
    let fetched = fetched_state(2, vec![], vec![]);
    assert!(matches!(fetched, Err(PollError::UnsupportedSchemaVersion(2))));
    let config = Config::default();
    let outcome = finish_cycle(&config, fetched, None);
    assert!(!outcome.keep_polling);
    assert!(outcome.write.is_none());
    let mut shared = SharedState::new();
    shared.publish(outcome.publish);
    assert!(matches!(shared.latest(), Some(Err(PollError::UnsupportedSchemaVersion(2)))));
}

#[test]
fn network_failure_keeps_polling() {
    let config = Config::default();
    let outcome = finish_cycle(&config, Err(PollError::Network("operation timed out".to_string())), None);
    assert!(outcome.keep_polling);
    let mut shared = SharedState::new();
    shared.publish(outcome.publish);
    assert!(matches!(shared.latest(), Some(Err(PollError::Network(_)))));
    let next = finish_cycle(&config, fetched_state(3, vec![], vec![]), None);
    assert!(next.keep_polling);
    shared.publish(next.publish);
    assert!(matches!(shared.latest(), Some(Ok(_))));
}

#[test]
fn shared_state_starts_empty_and_stays_loaded() {
    let mut shared = SharedState::new();
    assert!(shared.latest().is_none());
    shared.publish(Err(PollError::BaseDirs));
    assert!(shared.latest().is_some());
    shared.publish(Ok(state_with(vec![], vec![])));
    assert!(matches!(shared.latest(), Some(Ok(_))));
}

#[test]
fn successful_cycle_drops_ignored_players() {
    let mut config = Config::default();
    config.ignored_players = vec![wmb("bot")];
    let fetched = fetched_state(3, vec![], vec![("wurstmineberg".to_string(), world(vec![wmb("bot"), wmb("alice")], true, None))]);
    assert!(!wants_launcher_data(&config, &fetched));
    let outcome = finish_cycle(&config, fetched, None);
    assert!(outcome.keep_polling);
    match outcome.publish {
        Ok(s) => assert_eq!(s.worlds[0].1.list, vec![wmb("alice")]),
        Err(_) => panic!("expected a state"),
    }
}

#[test]
fn non_network_errors_are_permanent() {
    let config = Config::default();
    for e in [
        PollError::Http("builder".to_string()),
        PollError::Json("bad".to_string()),
        PollError::Config("bad".to_string()),
        PollError::Io("missing".to_string()),
        PollError::BaseDirs,
        PollError::UnknownLauncherProfile("p".to_string()),
    ] {
        assert!(!e.is_network_error());
        assert!(!finish_cycle(&config, Err(e), None).keep_polling);
    }
    assert!(PollError::Network("dns".to_string()).is_network_error());
}

#[test]
fn poll_error_messages() {
    assert_eq!(
        PollError::UnsupportedSchemaVersion(2).message(),
        "people file returned from API has version 2 but this app only supports version 3",
    );
    assert_eq!(PollError::UnknownLauncherProfile("abc".to_string()).message(), "no profile named \u{201c}abc\u{201d} in launcher data");
    assert_eq!(PollError::BaseDirs.message(), "failed to find user folder");
    assert_eq!(PollError::Json("expected value".to_string()).message(), "expected value");
}

#[test]
fn http_failures_are_classified() {
    assert!(matches!(http_failure("t".to_string(), true, false, false, false, false), PollError::Network(_)));
    assert!(matches!(http_failure("s".to_string(), false, false, false, true, true), PollError::Network(_)));
    assert!(matches!(http_failure("d".to_string(), false, false, false, false, true), PollError::Json(_)));
    match http_failure("b".to_string(), false, false, false, false, false) {
        PollError::Http(m) => assert_eq!(m, "b"),
        _ => panic!("expected a client failure"),
    }
}
