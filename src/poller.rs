use vstd::prelude::*;
use crate::config::Config;
use crate::launcher::{apply_version_match, is_version_matched, misses_followed_profile, names_first_missing, LauncherData};
use crate::people::{check_people_file_version, Person, Uid, PEOPLE_FILE_VERSION};
use crate::state::{is_reconciled, PollError, State, WorldStatus};

verus! {

/// Seconds between the end of one poll cycle and the start of the next.
pub const POLL_INTERVAL_SECS: u64 = 45;

/// Seconds that one request to the status API may take.
pub const REQUEST_TIMEOUT_SECS: u64 = 30;

/// The state that two fetched documents make: the member directory, if its
/// schema version is the supported one, and the world statuses.
pub fn fetched_state(
    people_version: u8,
    people: Vec<(Uid, Person)>,
    worlds: Vec<(String, WorldStatus)>,
) -> (r: Result<State, PollError>)
    ensures
        r is Ok <==> people_version == PEOPLE_FILE_VERSION,
        match r {
            Ok(s) => s.people == people && s.worlds == worlds,
            Err(e) => e == PollError::UnsupportedSchemaVersion(people_version),
        },
{
    match check_people_file_version(people_version) {
        Ok(()) => Ok(State { people, worlds }),
        Err(_) => Err(PollError::UnsupportedSchemaVersion(people_version)),
    }
}

/// The slot that holds the latest poll result: nothing before the first
/// poll, then the result of the latest one.
pub struct SharedState {
    latest: Option<Result<State, PollError>>,
}

/// The slot's content after publishing `results` in order, starting from
/// `start`.
pub open spec fn after_publishing(
    start: Option<Result<State, PollError>>,
    results: Seq<Result<State, PollError>>,
) -> Option<Result<State, PollError>> {
    if results.len() == 0 {
        start
    } else {
        Some(results.last())
    }
}

/// Once the slot holds a result, no sequence of publications empties it;
/// and any publication fills it.
pub proof fn lemma_shared_state_stays_loaded(
    start: Option<Result<State, PollError>>,
    results: Seq<Result<State, PollError>>,
)
    ensures
        start is Some ==> after_publishing(start, results) is Some,
        results.len() > 0 ==> after_publishing(start, results) is Some,
        forall|r: Result<State, PollError>| #[trigger] after_publishing(start, results.push(r)) == Some(r),
{
}

impl SharedState {
    /// What the slot holds.
    pub closed spec fn value(&self) -> Option<Result<State, PollError>> {
        self.latest
    }

    /// An empty slot: no poll has finished.
    pub fn new() -> (r: SharedState)
        ensures
            r.value() is None,
    {
        SharedState { latest: None }
    }

    /// Replaces the slot's content with a poll result.
    pub fn publish(&mut self, result: Result<State, PollError>)
        ensures
            final(self).value() == after_publishing(old(self).value(), seq![result]),
            final(self).value() == Some(result),
    {
        self.latest = Some(result);
    }

    /// The latest poll result, if any.
    pub fn latest(&self) -> (r: &Option<Result<State, PollError>>)
        ensures
            *r == self.value(),
    {
        &self.latest
    }
}

/// What ends a poll cycle: the result to publish, the launcher data to
/// write (only where a version changed), and whether to poll again after
/// the interval.
pub struct CycleOutcome {
    pub publish: Result<State, PollError>,
    pub write: Option<LauncherData>,
    pub keep_polling: bool,
}

/// Whether a cycle needs the launcher's profile data: the fetch succeeded
/// and the settings follow some world's version.
pub open spec fn needs_launcher_data(config: Config, fetched: Result<State, PollError>) -> bool {
    fetched is Ok && config.version_match@.len() > 0
}

/// Whether this cycle needs the launcher's profile data.
pub fn wants_launcher_data(config: &Config, fetched: &Result<State, PollError>) -> (r: bool)
    ensures
        r == needs_launcher_data(*config, *fetched),
{
    fetched.is_ok() && config.version_match.len() > 0
}

/// Ends a poll cycle. A failed fetch is published; polling goes on after
/// a network failure and stops after any other. A successful fetch loses
/// its ignored players; where the settings follow world versions, the
/// launcher data is matched to them, and a failure to read or match it is
/// published and stops polling.
pub fn finish_cycle(
    config: &Config,
    fetched: Result<State, PollError>,
    launcher: Option<Result<LauncherData, PollError>>,
) -> (r: CycleOutcome)
    requires
        needs_launcher_data(*config, fetched) ==> launcher is Some,
    ensures
        fetched matches Ok(s) && s.wf() ==> (r.publish matches Ok(t) ==> t.wf()),
        launcher matches Some(Ok(d)) && d.wf() ==> (r.write matches Some(w) ==> w.wf()),
        match fetched {
            Err(e) => r.publish == Err::<State, PollError>(e) && r.write is None
                && r.keep_polling == e.is_network_error(),
            Ok(s) => if config.version_match@.len() == 0 {
                r.keep_polling && r.write is None
                    && (r.publish matches Ok(t) && is_reconciled(s, config.ignored_players@, t))
            } else {
                match launcher {
                    None => false,
                    Some(Err(e)) => r.publish == Err::<State, PollError>(e) && r.write is None && !r.keep_polling,
                    Some(Ok(d)) => if misses_followed_profile(d, config.version_match@) {
                        (r.publish matches Err(e) && names_first_missing(d, config.version_match@, e))
                            && r.write is None && !r.keep_polling
                    } else {
                        &&& r.keep_polling
                        &&& r.publish matches Ok(t) && is_reconciled(s, config.ignored_players@, t)
                            && exists|after: LauncherData, modified: bool|
                            is_version_matched(d, config.version_match@, t.worlds@, after, modified)
                                && r.write == (if modified { Some(after) } else { None::<LauncherData> })
                    },
                }
            },
        },
{
    match fetched {
        Err(e) => {
            let keep = e.is_network_error();
            CycleOutcome { publish: Err(e), write: None, keep_polling: keep }
        },
        Ok(s) => {
            let t = s.without_ignored(&config.ignored_players);
            if config.version_match.len() == 0 {
                return CycleOutcome { publish: Ok(t), write: None, keep_polling: true };
            }
            match launcher {
                None => CycleOutcome { publish: Ok(t), write: None, keep_polling: true },
                Some(Err(e)) => CycleOutcome { publish: Err(e), write: None, keep_polling: false },
                Some(Ok(d)) => match apply_version_match(d, &config.version_match, &t.worlds) {
                    Err(e) => CycleOutcome { publish: Err(e), write: None, keep_polling: false },
                    Ok((after, modified)) => {
                        let write = if modified { Some(after) } else { None };
                        CycleOutcome { publish: Ok(t), write, keep_polling: true }
                    },
                },
            }
        },
    }
}

} // verus!
