//! The directory store's decisions: what a skill submission asks the document
//! store to do, what that update does to the stored people, and how the
//! store's answers become results.
use vstd::prelude::*;
use crate::model::{Person, Skill, ValidationError, all_valid, faults_of, first_invalid, validate_skills};

verus! {

/// How long one round trip to the document store may take, in seconds,
/// before it fails with `StoreErrorKind::Timeout`.
pub const STORE_TIMEOUT_SECS: u64 = 10;

/// Why a store operation failed.
#[derive(Clone, Copy, Debug, PartialEq, Eq, Structural)]
pub enum StoreErrorKind {
    /// No stored person carries the requested id.
    NotFound,
    /// A stored document could not be read as a person.
    Decode,
    /// The document store could not be reached.
    Unavailable,
    /// The document store did not answer in time.
    Timeout,
}

/// The single-document update that replaces a person's skills: match the
/// person by id, set its skills, and raise its update time to at least
/// `updated`. It never creates a document.
#[derive(Clone, Debug)]
pub struct SkillUpdate {
    pub person_id: String,
    pub skills: Vec<Skill>,
    pub updated: i64,
}

/// The update that a valid submission produces.
pub open spec fn update_for(person_id: String, skills: Vec<Skill>, now: i64) -> SkillUpdate {
    SkillUpdate { person_id, skills, updated: now }
}

/// A stored person after the update has been applied to it.
pub open spec fn applied(p: Person, u: SkillUpdate) -> Person {
    Person {
        skills: u.skills,
        updated: if u.updated > p.updated { u.updated } else { p.updated },
        ..p
    }
}

/// The stored people after the update: the person whose id matches is
/// updated in place, every other document is left as it was, and no document
/// is added.
pub open spec fn store_after(docs: Seq<Person>, u: SkillUpdate) -> Seq<Person> {
    docs.map_values(|p: Person| if p.id@ == u.person_id@ { applied(p, u) } else { p })
}

/// The document that the update hands back: the matching person as it stands
/// after the update, or nothing when no person matches.
pub open spec fn returned_by(docs: Seq<Person>, u: SkillUpdate) -> Option<Person> {
    if exists|i: int| 0 <= i < docs.len() && docs[i].id@ == u.person_id@ {
        let i = choose|i: int| 0 <= i < docs.len() && docs[i].id@ == u.person_id@;
        Some(applied(docs[i], u))
    } else {
        None
    }
}

/// No two stored people share an id.
pub open spec fn ids_unique(docs: Seq<Person>) -> bool {
    forall|i: int, j: int|
        0 <= i < docs.len() && 0 <= j < docs.len() && i != j ==> docs[i].id@ != docs[j].id@
}

/// Every stored person is well formed.
pub open spec fn all_wf(docs: Seq<Person>) -> bool {
    forall|i: int| 0 <= i < docs.len() ==> #[trigger] docs[i].wf()
}

pub open spec fn holds_id(docs: Seq<Person>, id: Seq<char>) -> bool {
    exists|i: int| 0 <= i < docs.len() && docs[i].id@ == id
}

/// Turns a skill submission for one person into the update that the store
/// applies atomically, or rejects it with the first offending skill.
pub fn skill_update(person_id: String, skills: Vec<Skill>, now: i64) -> (r: Result<
    SkillUpdate,
    ValidationError,
>)
    ensures
        all_valid(skills@, now) ==> r == Ok::<SkillUpdate, ValidationError>(
            update_for(person_id, skills, now),
        ),
        !all_valid(skills@, now) ==> r is Err,
        r matches Err(e) ==> first_invalid(skills@, now, e.index as int) && e.fields@
            == faults_of(skills@[e.index as int], now),
{
    match validate_skills(&skills, now) {
        Ok(()) => Ok(SkillUpdate { person_id, skills, updated: now }),
        Err(e) => Err(e),
    }
}

/// What the store's answer to an update means; see `upsert_outcome`.
pub open spec fn outcome_of(found: Option<Option<Person>>) -> Result<Person, StoreErrorKind> {
    match found {
        None => Err(StoreErrorKind::NotFound),
        Some(None) => Err(StoreErrorKind::Decode),
        Some(Some(p)) => Ok(p),
    }
}

/// The stored people after a submission: a valid one applies its update, a
/// rejected one leaves the store as it was.
pub open spec fn store_after_submission(
    docs: Seq<Person>,
    person_id: String,
    skills: Vec<Skill>,
    now: i64,
) -> Seq<Person> {
    if all_valid(skills@, now) {
        store_after(docs, update_for(person_id, skills, now))
    } else {
        docs
    }
}

/// What the store's answer to an update means. `found` is `None` when no
/// document matched, `Some(None)` when the updated document could not be
/// read as a person, and `Some(Some(p))` when it reads as `p`.
pub fn upsert_outcome(found: Option<Option<Person>>) -> (r: Result<Person, StoreErrorKind>)
    ensures
        r == outcome_of(found),
        found is None ==> r == Err::<Person, StoreErrorKind>(StoreErrorKind::NotFound),
        found == Some(None::<Person>) ==> r == Err::<Person, StoreErrorKind>(
            StoreErrorKind::Decode,
        ),
        forall|p: Person| found == Some(Some(p)) ==> r == Ok::<Person, StoreErrorKind>(p),
{
    match found {
        None => Err(StoreErrorKind::NotFound),
        Some(None) => Err(StoreErrorKind::Decode),
        Some(Some(p)) => Ok(p),
    }
}

/// The listing that a sequence of read documents yields: every person, in
/// order, or a decode failure as soon as one document could not be read.
pub open spec fn listed(items: Seq<Option<Person>>) -> Result<Seq<Person>, StoreErrorKind> {
    if forall|i: int| 0 <= i < items.len() ==> (#[trigger] items[i]) is Some {
        Ok(items.map_values(|o: Option<Person>| o->Some_0))
    } else {
        Err(StoreErrorKind::Decode)
    }
}

/// Gathers the documents of a listing. A document that could not be read
/// fails the whole listing: callers never receive a partial result.
pub fn collect_people(items: Vec<Option<Person>>) -> (r: Result<Vec<Person>, StoreErrorKind>)
    ensures
        r matches Ok(v) ==> listed(items@) == Ok::<Seq<Person>, StoreErrorKind>(v@),
        r is Err ==> r == Err::<Vec<Person>, StoreErrorKind>(StoreErrorKind::Decode) && listed(
            items@,
        ) is Err,
{
    let ghost orig = items@;
    let ghost n = orig.len() as int;
    let mut pending = items;
    // The documents are moved, never cloned: popped once onto `rest`, which
    // reverses them, then popped from `rest` in the order they came.
    let mut rest: Vec<Option<Person>> = Vec::new();
    while pending.len() > 0
        invariant
            n == orig.len(),
            orig == items@,
            pending@.len() <= n,
            pending@ == orig.subrange(0, pending@.len() as int),
            rest@.len() == n - pending@.len(),
            forall|k: int| 0 <= k < rest@.len() ==> #[trigger] rest@[k] == orig[n - 1 - k],
        decreases pending@.len(),
    {
        let it = pending.pop().unwrap();
        assert(it == orig[pending@.len() as int]);
        assert(pending@ =~= orig.subrange(0, pending@.len() as int));
        rest.push(it);
    }
    let mut out: Vec<Person> = Vec::new();
    while rest.len() > 0
        invariant
            n == orig.len(),
            orig == items@,
            0 <= rest@.len() <= n,
            forall|k: int| 0 <= k < rest@.len() ==> #[trigger] rest@[k] == orig[n - 1 - k],
            out@.len() == n - rest@.len(),
            forall|k: int| 0 <= k < out@.len() ==> (#[trigger] orig[k]) is Some,
            forall|k: int| 0 <= k < out@.len() ==> #[trigger] out@[k] == orig[k]->Some_0,
        decreases rest@.len(),
    {
        let ghost j = n - rest@.len();
        let it = rest.pop().unwrap();
        assert(it == orig[j]);
        match it {
            Some(p) => out.push(p),
            None => {
                assert(!(orig[j] is Some));
                assert(listed(orig) is Err);
                return Err(StoreErrorKind::Decode);
            },
        }
    }
    assert(out@ =~= orig.map_values(|o: Option<Person>| o->Some_0));
    Ok(out)
}

} // verus!
