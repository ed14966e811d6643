use vstd::prelude::*;
use crate::text::{decimal, push_decimal};

verus! {

/// The only version of the people file that this library reads.
pub const PEOPLE_FILE_VERSION: u8 = 3;

/// A people file reported a schema version other than the supported one.
#[derive(Debug, Clone, Copy, PartialEq, Eq, Structural)]
pub struct PeopleFileVersionError(pub u8);

/// Checks the schema version announced by a people file.
pub fn check_people_file_version(value: u8) -> (r: Result<(), PeopleFileVersionError>)
    ensures
        r is Ok <==> value == PEOPLE_FILE_VERSION,
        r is Err ==> r == Err::<(), PeopleFileVersionError>(PeopleFileVersionError(value)),
{
    if value == PEOPLE_FILE_VERSION {
        Ok(())
    } else {
        Err(PeopleFileVersionError(value))
    }
}

} // verus!

verus! {

/// How a person is identified: a numeric platform account id, or an
/// opaque string id.
#[derive(Debug, Clone, Eq, Hash)]
pub enum Uid {
    Snowflake(u64),
    WmbId(String),
}

/// The mathematical value of a [`Uid`].
pub ghost enum UidView {
    Snowflake(u64),
    WmbId(Seq<char>),
}

impl View for Uid {
    type V = UidView;

    open spec fn view(&self) -> UidView {
        match self {
            Uid::Snowflake(n) => UidView::Snowflake(*n),
            Uid::WmbId(s) => UidView::WmbId(s@),
        }
    }
}

impl PartialEq for Uid {
    fn eq(&self, other: &Uid) -> (r: bool)
        ensures
            r == (self@ == other@),
    {
        match (self, other) {
            (Uid::Snowflake(a), Uid::Snowflake(b)) => *a == *b,
            (Uid::WmbId(a), Uid::WmbId(b)) => a.eq(b),
            _ => false,
        }
    }
}

impl vstd::std_specs::cmp::PartialEqSpecImpl for Uid {
    open spec fn obeys_eq_spec() -> bool {
        true
    }

    open spec fn eq_spec(&self, other: &Uid) -> bool {
        self@ == other@
    }
}

/// The text shown for an id when no display name is known.
pub open spec fn uid_text(u: UidView) -> Seq<char> {
    match u {
        UidView::Snowflake(n) => decimal(n as nat),
        UidView::WmbId(s) => s,
    }
}

impl Uid {
    /// The id written out: the number in decimal, or the string id as it is.
    pub fn to_text(&self) -> (r: String)
        ensures
            r@ == uid_text(self@),
    {
        match self {
            Uid::Snowflake(n) => {
                let mut s = String::new();
                push_decimal(&mut s, *n);
                s
            },
            Uid::WmbId(s) => s.clone(),
        }
    }

    /// A copy of this id.
    pub fn copied(&self) -> (r: Uid)
        ensures
            r@ == self@,
    {
        match self {
            Uid::Snowflake(n) => Uid::Snowflake(*n),
            Uid::WmbId(s) => Uid::WmbId(s.clone()),
        }
    }
}

/// What the member directory knows of a person.
#[derive(Debug, Clone)]
pub struct Person {
    pub name: Option<String>,
}

/// Whether `u` occurs in `ids`.
pub open spec fn contains_uid(ids: Seq<Uid>, u: UidView) -> bool {
    exists|i: int| 0 <= i < ids.len() && #[trigger] ids[i]@ == u
}

/// The person entry for `u` in a member directory, if there is one (the
/// first match; the directory holds each id once).
pub open spec fn person_of(people: Seq<(Uid, Person)>, u: UidView) -> Option<Person>
    decreases people.len(),
{
    if people.len() == 0 {
        None
    } else if people[0].0@ == u {
        Some(people[0].1)
    } else {
        person_of(people.drop_first(), u)
    }
}

/// The name shown for `u`: the directory's display name when it has one,
/// else the id written out.
pub open spec fn display_name(people: Seq<(Uid, Person)>, u: UidView) -> Seq<char> {
    match person_of(people, u) {
        Some(p) => match p.name {
            Some(n) => n@,
            None => uid_text(u),
        },
        None => uid_text(u),
    }
}

/// Whether a member directory holds each id at most once: the list is a
/// map.
pub open spec fn unique_uids(people: Seq<(Uid, Person)>) -> bool {
    forall|i: int, j: int|
        0 <= i < people.len() && 0 <= j < people.len() && i != j ==> people[i].0@ != people[j].0@
}

/// Whether `u` is one of `ids`.
pub fn uid_listed(ids: &Vec<Uid>, u: &Uid) -> (r: bool)
    ensures
        r == contains_uid(ids@, u@),
{
    let mut i: usize = 0;
    while i < ids.len()
        invariant
            i <= ids@.len(),
            forall|k: int| 0 <= k < i ==> ids@[k]@ != u@,
        decreases ids@.len() - i,
    {
        if ids[i] == *u {
            return true;
        }
        i += 1;
    }
    false
}

/// The name to show for `u`, looked up in a member directory.
pub fn name_of(people: &Vec<(Uid, Person)>, u: &Uid) -> (r: String)
    ensures
        r@ == display_name(people@, u@),
{
    let mut i: usize = 0;
    assert(people@.subrange(0, people@.len() as int) =~= people@);
    while i < people.len()
        invariant
            i <= people@.len(),
            person_of(people@, u@) == person_of(people@.subrange(i as int, people@.len() as int), u@),
        decreases people@.len() - i,
    {
        assert(people@.subrange(i as int, people@.len() as int).drop_first()
            =~= people@.subrange(i + 1, people@.len() as int));
        if people[i].0 == *u {
            return match &people[i].1.name {
                Some(n) => n.clone(),
                None => u.to_text(),
            };
        }
        i += 1;
    }
    u.to_text()
}

} // verus!
