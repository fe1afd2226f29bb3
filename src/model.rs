//! The record model: people, skills, and the validation of submitted skills.
use vstd::prelude::*;

verus! {

/// The lowest proficiency level a skill may carry.
pub const MIN_LEVEL: i32 = 0;

/// The highest proficiency level a skill may carry.
pub const MAX_LEVEL: i32 = 5;

/// A named proficiency record. Timestamps are milliseconds since the Unix epoch.
#[derive(Clone, Debug)]
pub struct Skill {
    pub id: String,
    pub name: String,
    pub description: String,
    pub level: i32,
    pub last_used: i64,
    pub offset_months: i32,
}

/// A directory entry that owns an ordered list of skills. Timestamps are
/// milliseconds since the Unix epoch.
#[derive(Clone, Debug)]
pub struct Person {
    pub id: String,
    pub name: String,
    pub email: String,
    pub role: String,
    pub practice: String,
    pub skills: Vec<Skill>,
    pub created: i64,
    pub updated: i64,
}

/// A field of a skill submission that failed validation.
#[derive(Clone, Copy, Debug, PartialEq, Eq, Structural)]
pub enum SkillField {
    Name,
    Level,
    LastUsed,
}

/// Why a batch of submitted skills was rejected: the position of the first
/// offending skill and each of its offending fields, in declaration order.
#[derive(Clone, Debug)]
pub struct ValidationError {
    pub index: usize,
    pub fields: Vec<SkillField>,
}

impl Person {
    /// A person's last update never precedes its creation.
    pub open spec fn wf(&self) -> bool {
        self.updated >= self.created
    }
}

pub open spec fn level_in_range(level: i32) -> bool {
    MIN_LEVEL <= level <= MAX_LEVEL
}

/// The offending fields of a skill checked at server time `now`, in
/// declaration order.
pub open spec fn faults_of(s: Skill, now: i64) -> Seq<SkillField> {
    let a = if s.name@.len() == 0 { seq![SkillField::Name] } else { Seq::empty() };
    let b = if !level_in_range(s.level) { a.push(SkillField::Level) } else { a };
    if s.last_used > now { b.push(SkillField::LastUsed) } else { b }
}

/// A skill is valid when it has a name, a level within bounds, and was not
/// last used after `now`.
pub open spec fn skill_valid(s: Skill, now: i64) -> bool {
    s.name@.len() > 0 && level_in_range(s.level) && s.last_used <= now
}

pub open spec fn all_valid(skills: Seq<Skill>, now: i64) -> bool {
    forall|i: int| 0 <= i < skills.len() ==> #[trigger] skill_valid(skills[i], now)
}

/// The position of the first invalid skill, if any.
pub open spec fn first_invalid(skills: Seq<Skill>, now: i64, i: int) -> bool {
    0 <= i < skills.len() && !skill_valid(skills[i], now) && forall|j: int|
        0 <= j < i ==> #[trigger] skill_valid(skills[j], now)
}

pub proof fn lemma_faults_iff_invalid(s: Skill, now: i64)
    ensures
        faults_of(s, now).len() == 0 <==> skill_valid(s, now),
{
}

/// The offending fields of one skill, in declaration order; empty exactly
/// when the skill is valid.
pub fn skill_faults(s: &Skill, now: i64) -> (r: Vec<SkillField>)
    ensures
        r@ == faults_of(*s, now),
        r@.len() == 0 <==> skill_valid(*s, now),
{
    let mut r: Vec<SkillField> = Vec::new();
    if s.name.as_str().is_empty() {
        r.push(SkillField::Name);
    }
    if s.level < MIN_LEVEL || s.level > MAX_LEVEL {
        r.push(SkillField::Level);
    }
    if s.last_used > now {
        r.push(SkillField::LastUsed);
    }
    proof {
        lemma_faults_iff_invalid(*s, now);
        assert(r@ =~= faults_of(*s, now));
    }
    r
}

/// Checks every skill of a submission; rejects with the first offending one.
pub fn validate_skills(skills: &Vec<Skill>, now: i64) -> (r: Result<(), ValidationError>)
    ensures
        r is Ok <==> all_valid(skills@, now),
        r matches Err(e) ==> first_invalid(skills@, now, e.index as int) && e.fields@
            == faults_of(skills@[e.index as int], now),
{
    let mut i: usize = 0;
    while i < skills.len()
        invariant
            0 <= i <= skills@.len(),
            forall|j: int| 0 <= j < i ==> #[trigger] skill_valid(skills@[j], now),
        decreases skills@.len() - i,
    {
        let fields = skill_faults(&skills[i], now);
        if fields.len() > 0 {
            return Err(ValidationError { index: i, fields });
        }
        i = i + 1;
    }
    Ok(())
}

/// The wire name of a skill field, as a client submits it.
pub open spec fn field_name_of(f: SkillField) -> Seq<char> {
    match f {
        SkillField::Name => "name"@,
        SkillField::Level => "level"@,
        SkillField::LastUsed => "lastUsed"@,
    }
}

/// The wire name of a skill field.
pub fn field_name(f: SkillField) -> (r: &'static str)
    ensures
        r@ == field_name_of(f),
{
    match f {
        SkillField::Name => "name",
        SkillField::Level => "level",
        SkillField::LastUsed => "lastUsed",
    }
}

} // verus!
