use skills_matrix::handlers::{
    people_status, store_error_status, submit_status, SubmitError, STATUS_BAD_REQUEST,
    STATUS_NOT_FOUND, STATUS_OK,
};
use skills_matrix::model::{field_name, skill_faults, validate_skills, Person, Skill, SkillField};
use skills_matrix::store::{collect_people, skill_update, upsert_outcome, StoreErrorKind};

// 2023-01-01T00:00:00Z in milliseconds since the Unix epoch.
const JAN_2023: i64 = 1_672_531_200_000;
const NOW: i64 = 1_700_000_000_000;

fn skill(name: &str, level: i32, last_used: i64) -> Skill {
    Skill {
        id: String::new(),
        name: name.to_string(),
        description: String::new(),
        level,
        last_used,
        offset_months: 0,
    }
}

fn person(id: &str, skills: Vec<Skill>) -> Person {
    Person {
        id: id.to_string(),
        name: "Ada".to_string(),
        email: "ada@example.com".to_string(),
        role: "engineer".to_string(),
        practice: "platform".to_string(),
        skills,
        created: JAN_2023,
        updated: JAN_2023,
    }
}

fn names(skills: &[Skill]) -> Vec<String> {
    skills.iter().map(|s| s.name.clone()).collect()
}

#[test]
fn valid_skill_has_no_faults() {
    assert!(skill_faults(&skill("Go", 3, JAN_2023), NOW).is_empty());
    assert!(skill_faults(&skill("Go", 0, NOW), NOW).is_empty());
    assert!(skill_faults(&skill("Go", 5, NOW), NOW).is_empty());
}

#[test]
fn empty_name_is_a_fault() {
    assert_eq!(skill_faults(&skill("", 3, JAN_2023), NOW), vec![SkillField::Name]);
}

#[test]
fn level_out_of_bounds_is_a_fault() {
    assert_eq!(skill_faults(&skill("Go", 6, JAN_2023), NOW), vec![SkillField::Level]);
    assert_eq!(skill_faults(&skill("Go", -1, JAN_2023), NOW), vec![SkillField::Level]);
}

#[test]
fn last_used_in_future_is_a_fault() {
    assert_eq!(skill_faults(&skill("Go", 3, NOW + 1), NOW), vec![SkillField::LastUsed]);
}

#[test]
fn all_faults_are_named_in_order() {
    assert_eq!(
        skill_faults(&skill("", 9, NOW + 1), NOW),
        vec![SkillField::Name, SkillField::Level, SkillField::LastUsed]
    );
}

#[test]
fn validation_reports_first_offending_skill() {
    let skills = vec![skill("Go", 3, JAN_2023), skill("Rust", 7, JAN_2023), skill("", 1, JAN_2023)];
    let e = validate_skills(&skills, NOW).unwrap_err();
    assert_eq!(e.index, 1);
    assert_eq!(e.fields, vec![SkillField::Level]);
}

#[test]
fn empty_submission_is_valid() {
    assert!(validate_skills(&Vec::new(), NOW).is_ok());
}

#[test]
fn field_names_are_wire_names() {
    assert_eq!(field_name(SkillField::Name), "name");
    assert_eq!(field_name(SkillField::Level), "level");
    assert_eq!(field_name(SkillField::LastUsed), "lastUsed");
}

#[test]
fn valid_submission_becomes_update() {
    let u = skill_update("p1".to_string(), vec![skill("Go", 3, JAN_2023)], NOW).unwrap();
    assert_eq!(u.person_id, "p1");
    assert_eq!(names(&u.skills), vec!["Go".to_string()]);
    assert_eq!(u.skills[0].level, 3);
    assert_eq!(u.updated, NOW);
}

#[test]
fn level_six_is_rejected_with_400() {
    let r = skill_update("p1".to_string(), vec![skill("Go", 6, JAN_2023)], NOW);
    let e = r.unwrap_err();
    assert_eq!(e.index, 0);
    assert_eq!(e.fields, vec![SkillField::Level]);
    assert_eq!(submit_status(&Err(SubmitError::Invalid(e))), STATUS_BAD_REQUEST);
}

#[test]
fn unknown_person_is_404() {
    let r = upsert_outcome(None);
    assert!(matches!(r, Err(StoreErrorKind::NotFound)));
    let r = r.map_err(SubmitError::Store);
    assert_eq!(submit_status(&r), STATUS_NOT_FOUND);
}

#[test]
fn unreadable_updated_document_is_500() {
    let r = upsert_outcome(Some(None));
    assert!(matches!(r, Err(StoreErrorKind::Decode)));
    assert_eq!(submit_status(&r.map_err(SubmitError::Store)), 500);
}

#[test]
fn store_error_statuses() {
    assert_eq!(store_error_status(StoreErrorKind::NotFound), 404);
    assert_eq!(store_error_status(StoreErrorKind::Decode), 500);
    assert_eq!(store_error_status(StoreErrorKind::Unavailable), 503);
    assert_eq!(store_error_status(StoreErrorKind::Timeout), 504);
    assert_eq!(submit_status(&Err(SubmitError::Store(StoreErrorKind::Timeout))), 504);
    assert_eq!(people_status(&Err(StoreErrorKind::Unavailable)), 503);
}

#[test]
fn empty_collection_lists_no_people() {
    let r = collect_people(Vec::new());
    assert!(r.as_ref().unwrap().is_empty());
    assert_eq!(people_status(&r), STATUS_OK);
}

#[test]
fn listing_keeps_order() {
    let r = collect_people(vec![Some(person("a", vec![])), Some(person("b", vec![]))]).unwrap();
    let ids: Vec<String> = r.iter().map(|p| p.id.clone()).collect();
    assert_eq!(ids, vec!["a".to_string(), "b".to_string()]);
}

#[test]
fn unreadable_document_fails_listing() {
    let r = collect_people(vec![Some(person("a", vec![])), None, Some(person("b", vec![]))]);
    assert!(matches!(r, Err(StoreErrorKind::Decode)));
    assert_eq!(people_status(&r), 500);
}

#[test]
fn submit_go_skill_for_p1() {
    let submitted = skill("Go", 3, JAN_2023);
    let u = skill_update("p1".to_string(), vec![submitted.clone()], NOW).unwrap();
    // The store answers with the person as the update left it.
    let mut stored = person("p1", vec![]);
    stored.skills = u.skills.clone();
    stored.updated = u.updated;
    let r = upsert_outcome(Some(Some(stored.clone())));
    let p = r.as_ref().unwrap();
    assert_eq!(p.id, "p1");
    assert_eq!(names(&p.skills), vec!["Go".to_string()]);
    assert_eq!(p.skills[0].description, "");
    assert_eq!(p.skills[0].level, 3);
    assert_eq!(p.skills[0].last_used, JAN_2023);
    assert_eq!(p.skills[0].offset_months, 0);
    assert_eq!(submit_status(&r.clone().map_err(SubmitError::Store)), STATUS_OK);
    let listing = collect_people(vec![Some(person("p0", vec![])), Some(stored)]).unwrap();
    assert_eq!(people_status(&Ok(listing.clone())), STATUS_OK);
    let p1 = listing.iter().find(|p| p.id == "p1").unwrap();
    assert_eq!(names(&p1.skills), vec!["Go".to_string()]);
}

#[test]
fn later_submission_carries_its_own_set() {
    let a = skill_update("p1".to_string(), vec![skill("Go", 3, JAN_2023)], NOW).unwrap();
    let b = skill_update("p1".to_string(), vec![skill("Rust", 4, JAN_2023)], NOW + 1).unwrap();
    assert_eq!(a.person_id, b.person_id);
    assert_eq!(names(&a.skills), vec!["Go".to_string()]);
    assert_eq!(names(&b.skills), vec!["Rust".to_string()]);
    assert!(b.updated > a.updated);
}
