use vstd::prelude::*;
use itertools::Itertools;
use crate::config::Config;
use crate::keyed::{find_key, unique_keys, value_of};
use crate::people::{unique_uids, contains_uid, display_name, name_of, uid_listed, Person, Uid};
use crate::text::{decimal, push_decimal, push_text};

verus! {

/// The world whose status and version drive the defaults.
pub const MAIN_WORLD: &'static str = "wurstmineberg";

/// The name of the main world.
pub fn main_world() -> (r: String)
    ensures
        r@ == MAIN_WORLD@,
{
    String::from_str(MAIN_WORLD)
}

/// What the status API reports of one world.
#[derive(Debug, Clone)]
pub struct WorldStatus {
    /// Players present in the world.
    pub list: Vec<Uid>,
    /// Whether the world's server runs.
    pub running: bool,
    /// The game version the world runs, where known.
    pub version: Option<String>,
}

/// The outcome of one successful poll: the member directory and the status
/// of each world, by name.
#[derive(Debug, Clone)]
pub struct State {
    pub people: Vec<(Uid, Person)>,
    pub worlds: Vec<(String, WorldStatus)>,
}

/// Why a poll failed.
#[derive(Debug, Clone)]
pub enum PollError {
    /// The network failed (name lookup, TLS, timeout, or an error status).
    Network(String),
    /// The HTTP client failed otherwise.
    Http(String),
    /// A payload or a local file was not valid JSON of the expected shape.
    Json(String),
    /// The people file announced a schema version other than the supported one.
    UnsupportedSchemaVersion(u8),
    /// The settings could not be loaded.
    Config(String),
    /// A local file could not be read or written.
    Io(String),
    /// The user folder was not found.
    BaseDirs,
    /// A profile id that the settings follow is not in the launcher's data.
    UnknownLauncherProfile(String),
}

impl PollError {
    /// Whether the failure is transient: the poller keeps running after it.
    pub open spec fn spec_is_network_error(&self) -> bool {
        self is Network
    }

    /// Whether the failure is transient: the poller keeps running after it.
    #[verifier::when_used_as_spec(spec_is_network_error)]
    pub fn is_network_error(&self) -> (r: bool)
        ensures
            r == self.spec_is_network_error(),
    {
        match self {
            PollError::Network(_) => true,
            PollError::Http(_) => false,
            PollError::Json(_) => false,
            PollError::UnsupportedSchemaVersion(_) => false,
            PollError::Config(_) => false,
            PollError::Io(_) => false,
            PollError::BaseDirs => false,
            PollError::UnknownLauncherProfile(_) => false,
        }
    }
}

/// The failure of an HTTP request, classified by what the client reports of
/// it: a timeout, a failed connection, a failed request or an error status
/// is a network failure; otherwise a body that could not be decoded is a
/// data failure; anything else is a failure of the client.
pub fn http_failure(message: String, timeout: bool, connect: bool, request: bool, status: bool, decode: bool) -> (r: PollError)
    ensures
        (timeout || connect || request || status) ==> r == PollError::Network(message),
        !(timeout || connect || request || status) && decode ==> r == PollError::Json(message),
        !(timeout || connect || request || status || decode) ==> r == PollError::Http(message),
{
    if timeout || connect || request || status {
        PollError::Network(message)
    } else if decode {
        PollError::Json(message)
    } else {
        PollError::Http(message)
    }
}

/// The ids of `list` that are not in `ignored`, in their order.
pub open spec fn without_ignored(list: Seq<Uid>, ignored: Seq<Uid>) -> Seq<Uid> {
    list.filter(|u: Uid| !contains_uid(ignored, u@))
}

/// `after` is `before` with the ignored ids taken out of every world's list;
/// all else is as it was.
pub open spec fn is_reconciled(before: State, ignored: Seq<Uid>, after: State) -> bool {
    &&& after.people == before.people
    &&& after.worlds@.len() == before.worlds@.len()
    &&& forall|i: int| #![trigger after.worlds@[i]] 0 <= i < before.worlds@.len() ==> {
        &&& after.worlds@[i].0 == before.worlds@[i].0
        &&& after.worlds@[i].1.running == before.worlds@[i].1.running
        &&& after.worlds@[i].1.version == before.worlds@[i].1.version
        &&& after.worlds@[i].1.list@ == without_ignored(before.worlds@[i].1.list@, ignored)
    }
}

/// Every id of `list` that is not ignored, in order.
pub fn retain_listed(list: Vec<Uid>, ignored: &Vec<Uid>) -> (r: Vec<Uid>)
    ensures
        r@ == without_ignored(list@, ignored@),
{
    let ghost all = list@;
    let ghost pred = |u: Uid| !contains_uid(ignored@, u@);
    let mut kept: Vec<Uid> = Vec::new();
    let mut rest = list;
    let ghost mut i: int = 0;
    proof {
        reveal(Seq::filter);
        assert(all.subrange(0, 0) =~= Seq::<Uid>::empty());
        assert(all.subrange(0, all.len() as int) =~= all);
    }
    while rest.len() > 0
        invariant
            0 <= i <= all.len(),
            rest@ == all.subrange(i, all.len() as int),
            kept@ == all.subrange(0, i).filter(pred),
            pred == (|u: Uid| !contains_uid(ignored@, u@)),
        decreases rest@.len(),
    {
        let u = rest.remove(0);
        let listed = uid_listed(ignored, &u);
        proof {
            reveal(Seq::filter);
            assert(all.subrange(0, i + 1).drop_last() =~= all.subrange(0, i));
            assert(all.subrange(0, i + 1).last() == u);
        }
        if !listed {
            kept.push(u);
        }
        proof {
            i = i + 1;
            assert(rest@ =~= all.subrange(i, all.len() as int));
        }
    }
    proof {
        assert(all.subrange(0, i) =~= all);
    }
    kept
}

impl State {
    /// The directory holds each id once and the worlds each name once.
    pub open spec fn wf(&self) -> bool {
        unique_uids(self.people@) && unique_keys(self.worlds@)
    }

    /// This state with every ignored player taken out of every world's list.
    pub fn without_ignored(self, ignored: &Vec<Uid>) -> (r: State)
        ensures
            is_reconciled(self, ignored@, r),
            self.wf() ==> r.wf(),
    {
        let State { people, worlds } = self;
        let ghost all = worlds@;
        let mut rest = worlds;
        let mut done: Vec<(String, WorldStatus)> = Vec::new();
        proof {
            assert(all.subrange(0, all.len() as int) =~= all);
        }
        while rest.len() > 0
            invariant
                done@.len() + rest@.len() == all.len(),
                rest@ == all.subrange(done@.len() as int, all.len() as int),
                forall|k: int| #![trigger done@[k]] 0 <= k < done@.len() ==> {
                    &&& done@[k].0 == all[k].0
                    &&& done@[k].1.running == all[k].1.running
                    &&& done@[k].1.version == all[k].1.version
                    &&& done@[k].1.list@ == without_ignored(all[k].1.list@, ignored@)
                },
            decreases rest@.len(),
        {
            let (name, status) = rest.remove(0);
            let WorldStatus { list, running, version } = status;
            let list = retain_listed(list, ignored);
            done.push((name, WorldStatus { list, running, version }));
            assert(rest@ =~= all.subrange(done@.len() as int, all.len() as int));
        }
        State { people, worlds: done }
    }
}

/// No world's list in a reconciled state holds an ignored id.
pub proof fn lemma_reconciled_lists_skip_ignored(before: State, ignored: Seq<Uid>, after: State)
    requires
        is_reconciled(before, ignored, after),
    ensures
        forall|i: int, j: int|
            0 <= i < after.worlds@.len() && 0 <= j < after.worlds@[i].1.list@.len()
                ==> !contains_uid(ignored, #[trigger] after.worlds@[i].1.list@[j]@),
{
    assert forall|i: int, j: int|
        0 <= i < after.worlds@.len() && 0 <= j < after.worlds@[i].1.list@.len()
            implies !contains_uid(ignored, #[trigger] after.worlds@[i].1.list@[j]@) by {
        let pred = |u: Uid| !contains_uid(ignored, u@);
        assert(after.worlds@[i].1.list@ == before.worlds@[i].1.list@.filter(pred));
        before.worlds@[i].1.list@.lemma_filter_pred(pred, j);
    }
}

/// The ids of a list, as values.
pub open spec fn uid_views(list: Seq<Uid>) -> Seq<crate::people::UidView> {
    list.map_values(|u: Uid| u@)
}

/// Every id present in any world, world after world.
pub open spec fn online_views(worlds: Seq<(String, WorldStatus)>) -> Seq<crate::people::UidView>
    decreases worlds.len(),
{
    if worlds.len() == 0 {
        Seq::empty()
    } else {
        online_views(worlds.drop_last()) + uid_views(worlds.last().1.list@)
    }
}

/// Whether the main world's server runs (a world that is not reported
/// does not).
pub open spec fn main_running(worlds: Seq<(String, WorldStatus)>) -> bool {
    match value_of(worlds, MAIN_WORLD@) {
        Some(w) => w.running,
        None => false,
    }
}

/// Whether the tray icon shows for a successful poll: someone is online, or
/// the settings ask for it in the main world's current condition.
pub open spec fn shows(state: State, config: Config) -> bool {
    (exists|i: int| 0 <= i < state.worlds@.len() && #[trigger] state.worlds@[i].1.list@.len() > 0)
        || (if main_running(state.worlds@) { config.show_if_empty } else { config.show_if_offline })
}

/// The tooltip for a successful poll: the one player by name, or the number
/// of players.
pub open spec fn online_tooltip(state: State) -> Seq<char> {
    let ids = online_views(state.worlds@);
    if ids.len() == 1 {
        display_name(state.people@, ids[0]) + " is online"@
    } else {
        decimal(ids.len()) + " players are online"@
    }
}

/// The tooltip while no poll has finished.
pub open spec fn loading_tooltip() -> Seq<char> {
    "Wurstmineberg: Loading\u{2026}"@
}

/// The tooltip after a failed poll.
pub open spec fn error_tooltip() -> Seq<char> {
    "error getting data"@
}

/// Relies on `Itertools::exactly_one`: the only item where there is
/// exactly one.
#[verifier::external_body]
fn exactly_one_uid(ids: Vec<Uid>) -> (r: Option<Uid>)
    ensures
        r is Some <==> ids@.len() == 1,
        r is Some ==> r == Some(ids@[0]),
{
    ids.into_iter().exactly_one().ok()
}

/// Copies of every id present in any world, world after world.
pub fn online_ids(worlds: &Vec<(String, WorldStatus)>) -> (r: Vec<Uid>)
    ensures
        uid_views(r@) == online_views(worlds@),
{
    let mut out: Vec<Uid> = Vec::new();
    let mut i: usize = 0;
    while i < worlds.len()
        invariant
            i <= worlds@.len(),
            uid_views(out@) == online_views(worlds@.subrange(0, i as int)),
        decreases worlds@.len() - i,
    {
        let list = &worlds[i].1.list;
        let ghost before = out@;
        let mut j: usize = 0;
        proof {
            assert(uid_views(list@.subrange(0, 0)) =~= Seq::empty());
            assert(uid_views(out@) =~= uid_views(before) + uid_views(list@.subrange(0, 0)));
        }
        while j < list.len()
            invariant
                j <= list@.len(),
                list == &worlds@[i as int].1.list,
                i < worlds@.len(),
                uid_views(out@) == uid_views(before) + uid_views(list@.subrange(0, j as int)),
            decreases list@.len() - j,
        {
            let u = list[j].copied();
            let ghost prev = out@;
            out.push(u);
            proof {
                assert(uid_views(out@) =~= uid_views(prev).push(u@));
                assert(uid_views(list@.subrange(0, j + 1)) =~= uid_views(list@.subrange(0, j as int)).push(u@));
            }
            j += 1;
        }
        proof {
            assert(list@.subrange(0, j as int) =~= list@);
            assert(worlds@.subrange(0, i + 1).drop_last() =~= worlds@.subrange(0, i as int));
        }
        i += 1;
    }
    proof {
        assert(worlds@.subrange(0, i as int) =~= worlds@);
    }
    out
}

/// Whether some world has a player online.
fn anyone_online(worlds: &Vec<(String, WorldStatus)>) -> (r: bool)
    ensures
        r == exists|i: int| 0 <= i < worlds@.len() && #[trigger] worlds@[i].1.list@.len() > 0,
{
    let mut i: usize = 0;
    while i < worlds.len()
        invariant
            i <= worlds@.len(),
            forall|k: int| 0 <= k < i ==> #[trigger] worlds@[k].1.list@.len() == 0,
        decreases worlds@.len() - i,
    {
        if worlds[i].1.list.len() > 0 {
            return true;
        }
        i += 1;
    }
    false
}

/// What the tray shows for the latest poll result: whether the icon is
/// visible, and its tooltip.
pub fn tray_status(shared: &Option<Result<State, PollError>>, config: &Config) -> (r: (bool, String))
    ensures
        match shared {
            None => r.0 && r.1@ == loading_tooltip(),
            Some(Err(_)) => r.0 && r.1@ == error_tooltip(),
            Some(Ok(state)) => r.0 == shows(*state, *config)
                && r.1@ == (if r.0 { online_tooltip(*state) } else { Seq::empty() }),
        },
{
    match shared {
        None => {
            let t = String::from_str("Wurstmineberg: Loading\u{2026}");
            (true, t)
        },
        Some(Err(_)) => {
            let t = String::from_str("error getting data");
            (true, t)
        },
        Some(Ok(state)) => {
            let main = main_world();
            let running = match find_key(&state.worlds, &main) {
                Some(k) => state.worlds[k].1.running,
                None => false,
            };
            let wanted = if running { config.show_if_empty } else { config.show_if_offline };
            if anyone_online(&state.worlds) || wanted {
                let ids = online_ids(&state.worlds);
                let n = ids.len();
                let mut tip = String::new();
                match exactly_one_uid(ids) {
                    Some(u) => {
                        let name = name_of(&state.people, &u);
                        push_text(&mut tip, name.as_str());
                        push_text(&mut tip, " is online");
                    },
                    None => {
                        push_decimal(&mut tip, n as u64);
                        push_text(&mut tip, " players are online");
                    },
                }
                (true, tip)
            } else {
                (false, String::new())
            }
        },
    }
}

/// The text shown for a failed poll.
pub open spec fn poll_error_text(e: PollError) -> Seq<char> {
    match e {
        PollError::Network(m) => m@,
        PollError::Http(m) => m@,
        PollError::Json(m) => m@,
        PollError::UnsupportedSchemaVersion(v) => "people file returned from API has version "@
            + decimal(v as nat) + " but this app only supports version "@
            + decimal(crate::people::PEOPLE_FILE_VERSION as nat),
        PollError::Config(m) => m@,
        PollError::Io(m) => m@,
        PollError::BaseDirs => "failed to find user folder"@,
        PollError::UnknownLauncherProfile(p) => "no profile named \u{201c}"@ + p@ + "\u{201d} in launcher data"@,
    }
}

impl PollError {
    /// The text shown for this failure.
    pub fn message(&self) -> (r: String)
        ensures
            r@ == poll_error_text(*self),
    {
        match self {
            PollError::Network(m) => m.clone(),
            PollError::Http(m) => m.clone(),
            PollError::Json(m) => m.clone(),
            PollError::UnsupportedSchemaVersion(v) => {
                let mut s = String::from_str("people file returned from API has version ");
                push_decimal(&mut s, *v as u64);
                push_text(&mut s, " but this app only supports version ");
                push_decimal(&mut s, crate::people::PEOPLE_FILE_VERSION as u64);
                s
            },
            PollError::Config(m) => m.clone(),
            PollError::Io(m) => m.clone(),
            PollError::BaseDirs => String::from_str("failed to find user folder"),
            PollError::UnknownLauncherProfile(p) => {
                let mut s = String::from_str("no profile named \u{201c}");
                push_text(&mut s, p.as_str());
                push_text(&mut s, "\u{201d} in launcher data");
                s
            },
        }
    }
}

} // verus!
