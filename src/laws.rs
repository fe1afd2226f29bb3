//! Laws that relate a skill submission, the update it produces, the stored
//! people, and the listing that follows.
use vstd::prelude::*;
use crate::model::{Person, Skill, all_valid, level_in_range, skill_valid};
use crate::store::{
    SkillUpdate,
    StoreErrorKind,
    all_wf,
    holds_id,
    ids_unique,
    listed,
    outcome_of,
    returned_by,
    store_after,
    store_after_submission,
    update_for,
};
use crate::handlers::{SubmitError, submit_status_of};

verus! {

/// Listing every document of a store in which all documents read back gives
/// exactly the stored people.
pub proof fn lemma_listing_complete(docs: Seq<Person>)
    ensures
        listed(docs.map_values(|p: Person| Some(p))) == Ok::<Seq<Person>, StoreErrorKind>(docs),
{
    let items = docs.map_values(|p: Person| Some(p));
    assert forall|i: int| 0 <= i < items.len() implies (#[trigger] items[i]) is Some by {}
    assert(items.map_values(|o: Option<Person>| o->Some_0) =~= docs);
}

/// Round trip: after a valid submission for a stored person, listing the
/// store yields that person carrying exactly the submitted skills, and the
/// update hands back that same person.
pub proof fn lemma_submit_then_list(docs: Seq<Person>, person_id: String, skills: Vec<Skill>, now: i64)
    requires
        holds_id(docs, person_id@),
        all_valid(skills@, now),
    ensures
        ({
            let after = store_after_submission(docs, person_id, skills, now);
            let u = update_for(person_id, skills, now);
            &&& listed(after.map_values(|p: Person| Some(p))) == Ok::<Seq<Person>, StoreErrorKind>(
                after,
            )
            &&& exists|i: int|
                0 <= i < after.len() && (#[trigger] after[i]).id@ == person_id@ && after[i].skills@
                    == skills@
            &&& returned_by(docs, u) matches Some(p) && p.id@ == person_id@ && p.skills@ == skills@
        }),
{
    let after = store_after_submission(docs, person_id, skills, now);
    let u = update_for(person_id, skills, now);
    lemma_listing_complete(after);
    let i = choose|i: int| 0 <= i < docs.len() && docs[i].id@ == person_id@;
    assert(after[i].id@ == person_id@ && after[i].skills@ == skills@);
}

/// A submission holding a skill whose level is out of bounds is rejected
/// with 400 and leaves the stored people as they were.
pub proof fn lemma_rejected_submission(
    docs: Seq<Person>,
    person_id: String,
    skills: Vec<Skill>,
    now: i64,
    i: int,
)
    requires
        0 <= i < skills@.len(),
        !level_in_range(skills@[i].level),
    ensures
        !all_valid(skills@, now),
        store_after_submission(docs, person_id, skills, now) == docs,
        forall|e| submit_status_of(Err(SubmitError::Invalid(e))) == 400,
{
    assert(!skill_valid(skills@[i], now));
}

/// An update for an id that no stored person carries changes nothing, adds
/// no document, hands nothing back, and answers 404.
pub proof fn lemma_unknown_person(docs: Seq<Person>, u: SkillUpdate)
    requires
        !holds_id(docs, u.person_id@),
    ensures
        store_after(docs, u) == docs,
        returned_by(docs, u) is None,
        outcome_of(None::<Option<Person>>) == Err::<Person, StoreErrorKind>(
            StoreErrorKind::NotFound,
        ),
        submit_status_of(Err(SubmitError::Store(StoreErrorKind::NotFound))) == 404,
{
    assert forall|i: int| 0 <= i < docs.len() implies store_after(docs, u)[i] == docs[i] by {
        assert(docs[i].id@ != u.person_id@);
    }
    assert(store_after(docs, u) =~= docs);
}

/// Two updates of the same person, applied one after the other: the person
/// ends with exactly the skills of the later one, everything else about the
/// person is as stored, and no other document changes.
pub proof fn lemma_last_writer_wins(docs: Seq<Person>, a: SkillUpdate, b: SkillUpdate)
    requires
        a.person_id@ == b.person_id@,
    ensures
        ({
            let end = store_after(store_after(docs, a), b);
            &&& end.len() == docs.len()
            &&& forall|i: int|
                0 <= i < docs.len() && docs[i].id@ == a.person_id@ ==> (#[trigger] end[i]).skills
                    == b.skills && end[i].id == docs[i].id && end[i].name == docs[i].name
                    && end[i].email == docs[i].email && end[i].role == docs[i].role
                    && end[i].practice == docs[i].practice && end[i].created == docs[i].created
            &&& forall|i: int|
                0 <= i < docs.len() && docs[i].id@ != a.person_id@ ==> #[trigger] end[i] == docs[i]
        }),
{
}

/// The update keeps the store's invariants: ids stay unique and every
/// person's last update still does not precede its creation.
pub proof fn lemma_update_keeps_store_wf(docs: Seq<Person>, u: SkillUpdate)
    requires
        ids_unique(docs),
        all_wf(docs),
    ensures
        ids_unique(store_after(docs, u)),
        all_wf(store_after(docs, u)),
        store_after(docs, u).len() == docs.len(),
{
    let after = store_after(docs, u);
    assert forall|i: int| 0 <= i < after.len() implies #[trigger] after[i].wf() by {
        assert(docs[i].wf());
    }
    assert forall|i: int, j: int|
        0 <= i < after.len() && 0 <= j < after.len() && i != j implies after[i].id@
        != after[j].id@ by {
        assert(after[i].id == docs[i].id);
        assert(after[j].id == docs[j].id);
    }
}

} // verus!
