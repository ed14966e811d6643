use wurstmineberg_systray::config::Config;
use wurstmineberg_systray::menu::{menu_entries, profile_url, wiki_url, MenuEntry};
use wurstmineberg_systray::people::{Person, Uid};
use wurstmineberg_systray::state::{PollError, State, WorldStatus};

fn kinds(entries: &[MenuEntry]) -> Vec<String> {
    entries.iter().map(|e| match e {
        MenuEntry::World(n) => format!("world {n}"),
        MenuEntry::Version(Some(v)) => format!("version {v}"),
        MenuEntry::Version(None) => "unknown version".to_string(),
        MenuEntry::ServerOffline => "offline".to_string(),
        MenuEntry::Player(_, n) => format!("player {n}"),
        MenuEntry::Error(t) => format!("error {t}"),
        MenuEntry::Separator => "---".to_string(),
        MenuEntry::LaunchGame => "launch".to_string(),
        MenuEntry::Exit => "exit".to_string(),
    }).collect()
}

#[test]
fn menu_lists_occupied_and_offline_main_worlds() {
    let state = State {
        people: vec![(Uid::WmbId("alice".to_string()), Person { name: Some("Alice".to_string()) })],
        worlds: vec![
            ("wurstmineberg".to_string(), WorldStatus { list: vec![], running: false, version: Some("1.21".to_string()) }),
            ("empty".to_string(), WorldStatus { list: vec![], running: true, version: None }),
            ("modded".to_string(), WorldStatus { list: vec![Uid::WmbId("alice".to_string()), Uid::Snowflake(9)], running: true, version: None }),
        ],
    };
    let entries = menu_entries(&Some(Ok(state)), &Config::default());
    assert_eq!(kinds(&entries), vec![
        "world wurstmineberg", "version 1.21", "offline", "---",
        "world modded", "unknown version", "player Alice", "player 9", "---",
        "launch", "exit",
    ]);
}

#[test]
fn hidden_icon_menu_has_only_actions() {
    let state = State {
        people: vec![],
        worlds: vec![("wurstmineberg".to_string(), WorldStatus { list: vec![], running: true, version: None })],
    };
    assert_eq!(kinds(&menu_entries(&Some(Ok(state)), &Config::default())), vec!["launch", "exit"]);
    assert_eq!(kinds(&menu_entries(&None, &Config::default())), vec!["launch", "exit"]);
}

#[test]
fn failed_poll_menu_shows_error() {
    let entries = menu_entries(&Some(Err(PollError::BaseDirs)), &Config::default());
    assert_eq!(kinds(&entries), vec!["error failed to find user folder", "---", "launch", "exit"]);
}

#[test]
fn menu_links() {
    assert_eq!(wiki_url(&"1.21".to_string()), "https://minecraft.wiki/w/Java_Edition_1.21");
    assert_eq!(profile_url(&Uid::Snowflake(86841168427495424)), "https://wurstmineberg.de/people/86841168427495424");
    assert_eq!(profile_url(&Uid::WmbId("fenhl".to_string())), "https://wurstmineberg.de/people/fenhl");
}
