use vstd::prelude::*;
use crate::keyed::{find_key, has_key, unique_keys, value_of};
use crate::state::{PollError, WorldStatus};

verus! {

/// A JSON value of the launcher's file that this library carries through
/// unread.
#[verifier::external_type_specification]
#[verifier::external_body]
pub struct ExJsonValue(serde_json::Value);

/// One profile of the local game launcher.
#[derive(Debug, Clone)]
pub struct LauncherProfile {
    /// The game version the profile last launched.
    pub last_version_id: String,
    /// Every other field of the profile, as it was read.
    pub extra: Vec<(String, serde_json::Value)>,
}

/// The local game launcher's profile file.
#[derive(Debug, Clone)]
pub struct LauncherData {
    /// The profiles, by id.
    pub profiles: Vec<(String, LauncherProfile)>,
    /// Every other top-level field, as it was read.
    pub extra: Vec<(String, serde_json::Value)>,
}

impl LauncherData {
    /// Each profile id occurs once.
    pub open spec fn wf(&self) -> bool {
        unique_keys(self.profiles@)
    }
}

/// The version that the profile `id` is to follow: the reported version of
/// the world the settings map it to, where there is one.
pub open spec fn followed_version(
    id: Seq<char>,
    version_match: Seq<(String, String)>,
    worlds: Seq<(String, WorldStatus)>,
) -> Option<Seq<char>> {
    match value_of(version_match, id) {
        Some(world) => match value_of(worlds, world@) {
            Some(status) => match status.version {
                Some(v) => Some(v@),
                None => None,
            },
            None => None,
        },
        None => None,
    }
}

/// Whether the profile `p`, stored under `id`, differs from the version it
/// follows.
pub open spec fn is_stale(
    id: Seq<char>,
    p: LauncherProfile,
    version_match: Seq<(String, String)>,
    worlds: Seq<(String, WorldStatus)>,
) -> bool {
    match followed_version(id, version_match, worlds) {
        Some(v) => v != p.last_version_id@,
        None => false,
    }
}

/// Whether some profile id that the settings follow is missing from `data`.
pub open spec fn misses_followed_profile(data: LauncherData, version_match: Seq<(String, String)>) -> bool {
    exists|i: int| 0 <= i < version_match.len() && !has_key(data.profiles@, #[trigger] version_match[i].0@)
}

/// `e` names the first profile id, in the order of the settings, that the
/// settings follow and `data` lacks.
pub open spec fn names_first_missing(data: LauncherData, version_match: Seq<(String, String)>, e: PollError) -> bool {
    exists|i: int| 0 <= i < version_match.len()
        && !has_key(data.profiles@, version_match[i].0@)
        && (forall|j: int| 0 <= j < i ==> has_key(data.profiles@, #[trigger] version_match[j].0@))
        && (e matches PollError::UnknownLauncherProfile(id) && id@ == version_match[i].0@)
}

/// `after` is `before` with every followed profile's version set to its
/// world's version; `modified` tells whether any version changed. Every
/// other field, known or not, stays as it was.
pub open spec fn is_version_matched(
    before: LauncherData,
    version_match: Seq<(String, String)>,
    worlds: Seq<(String, WorldStatus)>,
    after: LauncherData,
    modified: bool,
) -> bool {
    &&& after.extra == before.extra
    &&& after.profiles@.len() == before.profiles@.len()
    &&& forall|i: int| #![trigger after.profiles@[i]] 0 <= i < before.profiles@.len() ==> {
        let id = before.profiles@[i].0;
        let p = before.profiles@[i].1;
        &&& after.profiles@[i].0 == id
        &&& after.profiles@[i].1.extra == p.extra
        &&& after.profiles@[i].1.last_version_id@ == match followed_version(id@, version_match, worlds) {
            Some(v) => v,
            None => p.last_version_id@,
        }
        &&& followed_version(id@, version_match, worlds) is None
            ==> after.profiles@[i].1.last_version_id == p.last_version_id
    }
    &&& modified == exists|i: int| 0 <= i < before.profiles@.len()
        && is_stale(before.profiles@[i].0@, #[trigger] before.profiles@[i].1, version_match, worlds)
}

/// The version that the profile `id` follows, if any.
fn version_for(
    id: &String,
    version_match: &Vec<(String, String)>,
    worlds: &Vec<(String, WorldStatus)>,
) -> (r: Option<String>)
    ensures
        match r {
            Some(v) => followed_version(id@, version_match@, worlds@) == Some(v@),
            None => followed_version(id@, version_match@, worlds@) is None,
        },
{
    match find_key(version_match, id) {
        Some(k) => match find_key(worlds, &version_match[k].1) {
            Some(w) => match &worlds[w].1.version {
                Some(v) => Some(v.clone()),
                None => None,
            },
            None => None,
        },
        None => None,
    }
}

/// The first profile id that the settings follow and `profiles` lacks.
fn first_missing_profile(
    profiles: &Vec<(String, LauncherProfile)>,
    version_match: &Vec<(String, String)>,
) -> (r: Option<usize>)
    ensures
        match r {
            Some(i) => i < version_match@.len() && !has_key(profiles@, version_match@[i as int].0@)
                && forall|j: int| 0 <= j < i ==> has_key(profiles@, #[trigger] version_match@[j].0@),
            None => forall|j: int| 0 <= j < version_match@.len() ==> has_key(profiles@, #[trigger] version_match@[j].0@),
        },
{
    let mut i: usize = 0;
    while i < version_match.len()
        invariant
            i <= version_match@.len(),
            forall|j: int| 0 <= j < i ==> has_key(profiles@, #[trigger] version_match@[j].0@),
        decreases version_match@.len() - i,
    {
        match find_key(profiles, &version_match[i].0) {
            Some(_) => {},
            None => {
                return Some(i);
            },
        }
        i += 1;
    }
    None
}

/// Sets each followed profile of `data` to its world's reported version.
/// Fails, naming the first such id, where a profile id that the settings
/// follow is not in `data`; else returns the new data and whether any
/// version changed (only then is the file to be written).
pub fn apply_version_match(
    data: LauncherData,
    version_match: &Vec<(String, String)>,
    worlds: &Vec<(String, WorldStatus)>,
) -> (r: Result<(LauncherData, bool), PollError>)
    ensures
        r is Err <==> misses_followed_profile(data, version_match@),
        match r {
            Ok((after, modified)) => is_version_matched(data, version_match@, worlds@, after, modified)
                && (data.wf() ==> after.wf()),
            Err(e) => names_first_missing(data, version_match@, e),
        },
{
    match first_missing_profile(&data.profiles, version_match) {
        Some(i) => {
            return Err(PollError::UnknownLauncherProfile(version_match[i].0.clone()));
        },
        None => {},
    }
    let LauncherData { profiles, extra } = data;
    let ghost all = profiles@;
    let mut rest = profiles;
    let mut done: Vec<(String, LauncherProfile)> = Vec::new();
    let mut modified = false;
    proof {
        assert(all.subrange(0, all.len() as int) =~= all);
    }
    while rest.len() > 0
        invariant
            done@.len() + rest@.len() == all.len(),
            rest@ == all.subrange(done@.len() as int, all.len() as int),
            forall|k: int| #![trigger done@[k]] 0 <= k < done@.len() ==> {
                &&& done@[k].0 == all[k].0
                &&& done@[k].1.extra == all[k].1.extra
                &&& done@[k].1.last_version_id@ == match followed_version(all[k].0@, version_match@, worlds@) {
                    Some(v) => v,
                    None => all[k].1.last_version_id@,
                }
                &&& followed_version(all[k].0@, version_match@, worlds@) is None
                    ==> done@[k].1.last_version_id == all[k].1.last_version_id
            },
            modified == exists|k: int| 0 <= k < done@.len()
                && is_stale(all[k].0@, #[trigger] all[k].1, version_match@, worlds@),
        decreases rest@.len(),
    {
        let (id, profile) = rest.remove(0);
        let ghost k = done@.len() as int;
        let LauncherProfile { last_version_id, extra: profile_extra } = profile;
        let last = match version_for(&id, version_match, worlds) {
            Some(v) => {
                if !v.eq(&last_version_id) {
                    modified = true;
                }
                v
            },
            None => last_version_id,
        };
        done.push((id, LauncherProfile { last_version_id: last, extra: profile_extra }));
        proof {
            assert(all[k] == (id, profile));
            assert(rest@ =~= all.subrange(done@.len() as int, all.len() as int));
            if is_stale(all[k].0@, all[k].1, version_match@, worlds@) {
                assert(modified);
            }
            assert(modified == exists|j: int| 0 <= j < done@.len()
                && is_stale(all[j].0@, #[trigger] all[j].1, version_match@, worlds@));
        }
    }
    Ok((LauncherData { profiles: done, extra }, modified))
}

/// When every followed profile already holds its world's version, matching
/// changes nothing and reports that the file need not be written.
pub proof fn lemma_current_profiles_need_no_write(
    before: LauncherData,
    version_match: Seq<(String, String)>,
    worlds: Seq<(String, WorldStatus)>,
    after: LauncherData,
    modified: bool,
)
    requires
        is_version_matched(before, version_match, worlds, after, modified),
        forall|i: int| 0 <= i < before.profiles@.len()
            ==> !is_stale(before.profiles@[i].0@, #[trigger] before.profiles@[i].1, version_match, worlds),
    ensures
        !modified,
        forall|i: int| 0 <= i < after.profiles@.len()
            ==> (#[trigger] after.profiles@[i]).1.last_version_id@ == before.profiles@[i].1.last_version_id@,
{
    assert forall|i: int| 0 <= i < after.profiles@.len()
        implies (#[trigger] after.profiles@[i]).1.last_version_id@ == before.profiles@[i].1.last_version_id@ by {
        assert(!is_stale(before.profiles@[i].0@, before.profiles@[i].1, version_match, worlds));
    }
}

/// Matching keeps every field it does not own: the top-level fields, each
/// profile's id and other fields, and the version of each profile that no
/// world is followed for.
pub proof fn lemma_matching_keeps_other_fields(
    before: LauncherData,
    version_match: Seq<(String, String)>,
    worlds: Seq<(String, WorldStatus)>,
    after: LauncherData,
    modified: bool,
)
    requires
        is_version_matched(before, version_match, worlds, after, modified),
    ensures
        after.extra == before.extra,
        after.profiles@.len() == before.profiles@.len(),
        forall|i: int| 0 <= i < after.profiles@.len() ==> {
            &&& (#[trigger] after.profiles@[i]).0 == before.profiles@[i].0
            &&& after.profiles@[i].1.extra == before.profiles@[i].1.extra
            &&& !has_key(version_match, before.profiles@[i].0@)
                ==> after.profiles@[i].1.last_version_id == before.profiles@[i].1.last_version_id
        },
{
    assert forall|i: int| 0 <= i < after.profiles@.len() implies {
        &&& (#[trigger] after.profiles@[i]).0 == before.profiles@[i].0
        &&& after.profiles@[i].1.extra == before.profiles@[i].1.extra
        &&& !has_key(version_match, before.profiles@[i].0@)
            ==> after.profiles@[i].1.last_version_id == before.profiles@[i].1.last_version_id
    } by {
        if !has_key(version_match, before.profiles@[i].0@) {
            crate::keyed::lemma_value_of_absent(version_match, before.profiles@[i].0@);
        }
    }
}

/// The profile with id `pid` already holds the version that world `world`
/// reports, or the world reports none.
pub open spec fn holds_world_version(
    data: LauncherData,
    pid: Seq<char>,
    world: Seq<char>,
    worlds: Seq<(String, WorldStatus)>,
) -> bool {
    match value_of(worlds, world) {
        Some(status) => match status.version {
            Some(v) => match value_of(data.profiles@, pid) {
                Some(p) => p.last_version_id@ == v@,
                None => false,
            },
            None => true,
        },
        None => true,
    }
}

/// When every followed profile exists and already holds the version of the
/// world it follows (or the world reports none), matching changes no
/// version and reports that the profile file need not be written.
pub proof fn lemma_followed_versions_current(
    before: LauncherData,
    version_match: Seq<(String, String)>,
    worlds: Seq<(String, WorldStatus)>,
    after: LauncherData,
    modified: bool,
)
    requires
        before.wf(),
        is_version_matched(before, version_match, worlds, after, modified),
        forall|k: int| 0 <= k < version_match.len()
            ==> holds_world_version(before, #[trigger] version_match[k].0@, version_match[k].1@, worlds),
    ensures
        !modified,
        forall|i: int| 0 <= i < after.profiles@.len()
            ==> (#[trigger] after.profiles@[i]).1.last_version_id@ == before.profiles@[i].1.last_version_id@,
{
    assert forall|i: int| 0 <= i < before.profiles@.len()
        implies !is_stale(before.profiles@[i].0@, #[trigger] before.profiles@[i].1, version_match, worlds) by {
        let id = before.profiles@[i].0@;
        if value_of(version_match, id) is Some {
            crate::keyed::lemma_value_of_some(version_match, id);
            let k = choose|k: int| 0 <= k < version_match.len() && #[trigger] version_match[k].0@ == id
                && value_of(version_match, id) == Some(version_match[k].1);
            assert(holds_world_version(before, version_match[k].0@, version_match[k].1@, worlds));
            crate::keyed::lemma_value_of_unique(before.profiles@, i);
        }
    }
    lemma_current_profiles_need_no_write(before, version_match, worlds, after, modified);
}

/// Looked up by id, matching sets each followed profile to the version its
/// world reports and keeps every other profile's version; the ids, each
/// profile's other fields and the top-level fields stay as they were.
pub proof fn lemma_followed_versions_set(
    before: LauncherData,
    version_match: Seq<(String, String)>,
    worlds: Seq<(String, WorldStatus)>,
    after: LauncherData,
    modified: bool,
)
    requires
        before.wf(),
        unique_keys(version_match),
        is_version_matched(before, version_match, worlds, after, modified),
    ensures
        after.wf(),
        after.extra == before.extra,
        forall|i: int| 0 <= i < before.profiles@.len() ==> {
            &&& value_of(after.profiles@, (#[trigger] before.profiles@[i]).0@) == Some(after.profiles@[i].1)
            &&& after.profiles@[i].1.extra == before.profiles@[i].1.extra
            &&& !has_key(version_match, before.profiles@[i].0@)
                ==> after.profiles@[i].1.last_version_id == before.profiles@[i].1.last_version_id
        },
        forall|k: int, i: int| 0 <= k < version_match.len() && 0 <= i < before.profiles@.len()
            && (#[trigger] before.profiles@[i]).0@ == (#[trigger] version_match[k]).0@ ==> {
            match value_of(worlds, version_match[k].1@) {
                Some(status) => match status.version {
                    Some(v) => after.profiles@[i].1.last_version_id@ == v@,
                    None => after.profiles@[i].1.last_version_id == before.profiles@[i].1.last_version_id,
                },
                None => after.profiles@[i].1.last_version_id == before.profiles@[i].1.last_version_id,
            }
        },
{
    lemma_matching_keeps_other_fields(before, version_match, worlds, after, modified);
    assert forall|i: int| 0 <= i < before.profiles@.len()
        implies value_of(after.profiles@, (#[trigger] before.profiles@[i]).0@) == Some(after.profiles@[i].1) by {
        assert(after.profiles@[i].0 == before.profiles@[i].0);
        crate::keyed::lemma_value_of_unique(after.profiles@, i);
    }
    assert forall|k: int, i: int| 0 <= k < version_match.len() && 0 <= i < before.profiles@.len()
        && (#[trigger] before.profiles@[i]).0@ == (#[trigger] version_match[k]).0@ implies {
        match value_of(worlds, version_match[k].1@) {
            Some(status) => match status.version {
                Some(v) => after.profiles@[i].1.last_version_id@ == v@,
                None => after.profiles@[i].1.last_version_id == before.profiles@[i].1.last_version_id,
            },
            None => after.profiles@[i].1.last_version_id == before.profiles@[i].1.last_version_id,
        }
    } by {
        crate::keyed::lemma_value_of_unique(version_match, k);
        assert(after.profiles@[i].0 == before.profiles@[i].0);
    }
}

/// The profile file of the store-distributed launcher, tried first.
pub const STORE_LAUNCHER_FILE: &'static str = "launcher_profiles_microsoft_store.json";

/// The profile file of the standalone launcher, used where the store's is
/// absent.
pub const STANDARD_LAUNCHER_FILE: &'static str = "launcher_profiles.json";

/// The profile file to read and write for a whole cycle: the store
/// launcher's where it exists, else the standalone launcher's.
pub fn launcher_file_name(store_file_exists: bool) -> (r: String)
    ensures
        r@ == (if store_file_exists { STORE_LAUNCHER_FILE@ } else { STANDARD_LAUNCHER_FILE@ }),
{
    if store_file_exists {
        String::from_str(STORE_LAUNCHER_FILE)
    } else {
        String::from_str(STANDARD_LAUNCHER_FILE)
    }
}

} // verus!
