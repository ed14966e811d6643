use vstd::prelude::*;
use crate::config::Config;
use crate::people::{display_name, name_of, Person, Uid, UidView, uid_text};
use crate::state::{poll_error_text, shows, PollError, State, WorldStatus, MAIN_WORLD, tray_status};
use crate::text::push_text;

verus! {

/// One entry of the tray's menu.
#[derive(Debug, Clone)]
pub enum MenuEntry {
    /// A world's name (not clickable).
    World(String),
    /// A world's game version; clicking it opens the version's wiki article.
    /// Without a known version the entry says so and is not clickable.
    Version(Option<String>),
    /// The world's server is offline (not clickable).
    ServerOffline,
    /// A player who is online, with the name shown; clicking it opens the
    /// player's profile.
    Player(Uid, String),
    /// The text of a failed poll (not clickable).
    Error(String),
    Separator,
    LaunchGame,
    Exit,
}

/// The mathematical value of a [`MenuEntry`].
pub ghost enum MenuEntryView {
    World(Seq<char>),
    Version(Option<Seq<char>>),
    ServerOffline,
    Player(UidView, Seq<char>),
    Error(Seq<char>),
    Separator,
    LaunchGame,
    Exit,
}

impl View for MenuEntry {
    type V = MenuEntryView;

    open spec fn view(&self) -> MenuEntryView {
        match self {
            MenuEntry::World(n) => MenuEntryView::World(n@),
            MenuEntry::Version(v) => MenuEntryView::Version(match v {
                Some(s) => Some(s@),
                None => None,
            }),
            MenuEntry::ServerOffline => MenuEntryView::ServerOffline,
            MenuEntry::Player(u, n) => MenuEntryView::Player(u@, n@),
            MenuEntry::Error(t) => MenuEntryView::Error(t@),
            MenuEntry::Separator => MenuEntryView::Separator,
            MenuEntry::LaunchGame => MenuEntryView::LaunchGame,
            MenuEntry::Exit => MenuEntryView::Exit,
        }
    }
}

/// The values of a list of entries.
pub open spec fn entry_views(entries: Seq<MenuEntry>) -> Seq<MenuEntryView> {
    entries.map_values(|e: MenuEntry| e@)
}

/// Whether the menu lists a world: someone is in it, or it is the main
/// world and offline.
pub open spec fn is_listed(name: Seq<char>, status: WorldStatus) -> bool {
    (name == MAIN_WORLD@ && !status.running) || status.list@.len() > 0
}

/// The player entries of a world's list, in order.
pub open spec fn player_entries(people: Seq<(Uid, Person)>, list: Seq<Uid>) -> Seq<MenuEntryView>
    decreases list.len(),
{
    if list.len() == 0 {
        Seq::empty()
    } else {
        player_entries(people, list.drop_last())
            .push(MenuEntryView::Player(list.last()@, display_name(people, list.last()@)))
    }
}

/// The entries of one listed world: its name, its version, whether it is
/// offline, its players, and a separator.
pub open spec fn world_entries(people: Seq<(Uid, Person)>, name: Seq<char>, status: WorldStatus) -> Seq<MenuEntryView> {
    seq![
        MenuEntryView::World(name),
        MenuEntryView::Version(match status.version {
            Some(v) => Some(v@),
            None => None,
        }),
    ]
        + (if status.running { Seq::empty() } else { seq![MenuEntryView::ServerOffline] })
        + player_entries(people, status.list@)
        + seq![MenuEntryView::Separator]
}

/// The entries of every listed world, in order.
pub open spec fn worlds_entries(people: Seq<(Uid, Person)>, worlds: Seq<(String, WorldStatus)>) -> Seq<MenuEntryView>
    decreases worlds.len(),
{
    if worlds.len() == 0 {
        Seq::empty()
    } else {
        worlds_entries(people, worlds.drop_last()) + if is_listed(worlds.last().0@, worlds.last().1) {
            world_entries(people, worlds.last().0@, worlds.last().1)
        } else {
            Seq::empty()
        }
    }
}

/// The tray's menu for the latest poll result: the listed worlds while the
/// icon shows, the failure's text after a failed poll, then the entries to
/// launch the game and to exit.
pub open spec fn menu_of(latest: Option<Result<State, PollError>>, config: Config) -> Seq<MenuEntryView> {
    let body = match latest {
        Some(Ok(s)) => if shows(s, config) { worlds_entries(s.people@, s.worlds@) } else { Seq::empty() },
        Some(Err(e)) => seq![MenuEntryView::Error(poll_error_text(e)), MenuEntryView::Separator],
        None => Seq::empty(),
    };
    body + seq![MenuEntryView::LaunchGame, MenuEntryView::Exit]
}

/// Appends the entries of one listed world.
fn push_world_entries(entries: &mut Vec<MenuEntry>, people: &Vec<(Uid, Person)>, name: &String, status: &WorldStatus)
    ensures
        entry_views(final(entries)@) == entry_views(old(entries)@) + world_entries(people@, name@, *status),
{
    let ghost start = entry_views(entries@);
    entries.push(MenuEntry::World(name.clone()));
    entries.push(MenuEntry::Version(match &status.version {
        Some(v) => Some(v.clone()),
        None => None,
    }));
    if !status.running {
        entries.push(MenuEntry::ServerOffline);
    }
    let ghost head = entry_views(entries@);
    proof {
        assert(head =~= start + seq![
            MenuEntryView::World(name@),
            MenuEntryView::Version(match status.version {
                Some(v) => Some(v@),
                None => None,
            }),
        ] + (if status.running { Seq::empty() } else { seq![MenuEntryView::ServerOffline] }));
        assert(status.list@.subrange(0, 0) =~= Seq::<Uid>::empty());
        assert(entry_views(entries@) =~= head + player_entries(people@, status.list@.subrange(0, 0)));
    }
    let mut j: usize = 0;
    while j < status.list.len()
        invariant
            j <= status.list@.len(),
            entry_views(entries@) == head + player_entries(people@, status.list@.subrange(0, j as int)),
        decreases status.list@.len() - j,
    {
        let u = &status.list[j];
        let shown = name_of(people, u);
        let ghost prev = entry_views(entries@);
        entries.push(MenuEntry::Player(u.copied(), shown));
        proof {
            assert(status.list@.subrange(0, j + 1).drop_last() =~= status.list@.subrange(0, j as int));
            assert(entry_views(entries@) =~= prev.push(MenuEntryView::Player(u@, display_name(people@, u@))));
        }
        j += 1;
    }
    let ghost before_sep = entry_views(entries@);
    entries.push(MenuEntry::Separator);
    proof {
        assert(entry_views(entries@) =~= before_sep.push(MenuEntryView::Separator));
        assert(status.list@.subrange(0, j as int) =~= status.list@);
        assert(entry_views(entries@) =~= start + world_entries(people@, name@, *status));
    }
}

/// The tray's menu for the latest poll result.
pub fn menu_entries(latest: &Option<Result<State, PollError>>, config: &Config) -> (r: Vec<MenuEntry>)
    ensures
        entry_views(r@) == menu_of(*latest, *config),
{
    let mut entries: Vec<MenuEntry> = Vec::new();
    match latest {
        Some(Ok(s)) => {
            let (visible, _) = tray_status(latest, config);
            if visible {
                let mut i: usize = 0;
                proof {
                    assert(entry_views(entries@) =~= worlds_entries(s.people@, s.worlds@.subrange(0, 0)));
                }
                while i < s.worlds.len()
                    invariant
                        i <= s.worlds@.len(),
                        entry_views(entries@) == worlds_entries(s.people@, s.worlds@.subrange(0, i as int)),
                    decreases s.worlds@.len() - i,
                {
                    let name = &s.worlds[i].0;
                    let status = &s.worlds[i].1;
                    let main = crate::state::main_world();
                    let listed = (name.eq(&main) && !status.running) || status.list.len() > 0;
                    if listed {
                        push_world_entries(&mut entries, &s.people, name, status);
                    }
                    proof {
                        assert(s.worlds@.subrange(0, i + 1).drop_last() =~= s.worlds@.subrange(0, i as int));
                    }
                    i += 1;
                }
                proof {
                    assert(s.worlds@.subrange(0, i as int) =~= s.worlds@);
                }
            }
        },
        Some(Err(e)) => {
            entries.push(MenuEntry::Error(e.message()));
            entries.push(MenuEntry::Separator);
        },
        None => {},
    }
    let ghost body = entry_views(entries@);
    entries.push(MenuEntry::LaunchGame);
    entries.push(MenuEntry::Exit);
    proof {
        assert(entry_views(entries@) =~= body + seq![MenuEntryView::LaunchGame, MenuEntryView::Exit]);
        match latest {
            Some(Err(e)) => {
                assert(body =~= seq![MenuEntryView::Error(poll_error_text(*e)), MenuEntryView::Separator]);
            },
            None => {
                assert(body =~= Seq::<MenuEntryView>::empty());
            },
            _ => {},
        }
    }
    entries
}

/// The wiki article on a game version.
pub fn wiki_url(version: &String) -> (r: String)
    ensures
        r@ == "https://minecraft.wiki/w/Java_Edition_"@ + version@,
{
    let mut s = String::from_str("https://minecraft.wiki/w/Java_Edition_");
    push_text(&mut s, version.as_str());
    s
}

/// A player's profile page.
pub fn profile_url(uid: &Uid) -> (r: String)
    ensures
        r@ == "https://wurstmineberg.de/people/"@ + uid_text(uid@),
{
    let mut s = String::from_str("https://wurstmineberg.de/people/");
    let id = uid.to_text();
    push_text(&mut s, id.as_str());
    s
}

} // verus!
