//! Plans, their steps, and the step state machine.
use vstd::prelude::*;
use crate::error::AgentError;
use crate::time::{Timestamp, parses_to, rfc3339_parse, rfc3339_text, four_digit_year};

verus! {

/// The lifecycle of a plan.
#[derive(Debug, Clone, Copy, PartialEq, Eq, Structural)]
pub enum PlanStatus {
    Draft,
    PendingApproval,
    Approved,
    InProgress,
    Completed,
    Cancelled,
}

/// The lifecycle of a single step.
#[derive(Debug, Clone, Copy, PartialEq, Eq, Structural)]
pub enum StepStatus {
    Pending,
    InProgress,
    Completed,
    Failed,
    Skipped,
}

/// One step of a plan; steps are numbered from 1.
#[derive(Debug)]
pub struct PlanStep {
    pub number: usize,
    pub description: String,
    pub status: StepStatus,
    pub result: Option<String>,
}

/// An execution plan. `file_path` is where the plan is stored; it is not part
/// of the stored data.
#[derive(Debug)]
pub struct Plan {
    pub id: String,
    pub task_id: String,
    pub title: String,
    pub steps: Vec<PlanStep>,
    pub status: PlanStatus,
    pub created_at: Timestamp,
    pub updated_at: Timestamp,
    pub file_path: String,
}

/// The stored form of a plan: instants are written as RFC 3339 text.
#[derive(Debug)]
pub struct PlanData {
    pub id: String,
    pub task_id: String,
    pub title: String,
    pub status: PlanStatus,
    pub created_at: String,
    pub updated_at: String,
    pub steps: Vec<PlanStep>,
}

// ---------------------------------------------------------------------------
// Identifiers
// ---------------------------------------------------------------------------

/// A lower-case hexadecimal digit.
pub open spec fn is_lower_hex(c: char) -> bool {
    ('0' <= c && c <= '9') || ('a' <= c && c <= 'f')
}

/// The hyphenated lower-case text of a UUID: 36 characters, hyphens at
/// positions 8, 13, 18 and 23, hexadecimal digits elsewhere.
pub open spec fn is_uuid_text(s: Seq<char>) -> bool {
    &&& s.len() == 36
    &&& forall|i: int|
        0 <= i < 36 ==> if i == 8 || i == 13 || i == 18 || i == 23 {
            s[i] == '-'
        } else {
            is_lower_hex(#[trigger] s[i])
        }
}

/// The lower-case hexadecimal digit of a number below 16.
pub open spec fn hex_digit(n: int) -> char {
    if n < 10 {
        ('0' as int + n) as char
    } else {
        ('a' as int + n - 10) as char
    }
}

/// The number of hyphens before position `i` of a hyphenated UUID.
pub open spec fn hyphens_before(i: int) -> int {
    (if i > 8 { 1int } else { 0int }) + (if i > 13 { 1int } else { 0int }) + (if i > 18 {
        1int
    } else {
        0int
    }) + (if i > 23 { 1int } else { 0int })
}

/// The hyphenated lower-case text of 16 bytes: two hexadecimal digits per
/// byte, high digit first, in groups of 4, 2, 2, 2 and 6 bytes.
pub open spec fn hyphenated(b: Seq<u8>) -> Seq<char> {
    Seq::new(
        36,
        |i: int|
            if i == 8 || i == 13 || i == 18 || i == 23 {
                '-'
            } else {
                let k = i - hyphens_before(i);
                let byte = b[k / 2];
                hex_digit(if k % 2 == 0 { byte / 16 } else { byte % 16 } as int)
            },
    )
}

/// The bytes of a version 4 UUID made from 16 random bytes: the version
/// nibble of byte 6 set to 4 and the variant bits of byte 8 set to `10`.
pub open spec fn v4_bytes(random: Seq<u8>) -> Seq<u8> {
    random.update(6, (random[6] & 0x0f) | 0x40).update(8, (random[8] & 0x3f) | 0x80)
}

/// The text of the version 4 UUID made from 16 random bytes.
pub open spec fn uuid_v4_text(random: Seq<u8>) -> Seq<char> {
    hyphenated(v4_bytes(random))
}

/// A hyphenated UUID text of version 4 and the RFC 4122 variant: a `4` at
/// position 14 and one of `8`, `9`, `a`, `b` at position 19.
pub open spec fn is_uuid_v4_text(s: Seq<char>) -> bool {
    &&& is_uuid_text(s)
    &&& s[14] == '4'
    &&& (s[19] == '8' || s[19] == '9' || s[19] == 'a' || s[19] == 'b')
}

/// The text of a version 4 UUID made from random bytes has the version 4
/// shape.
pub proof fn lemma_uuid_v4_text_shape(random: Seq<u8>)
    requires
        random.len() == 16,
    ensures
        is_uuid_v4_text(uuid_v4_text(random)),
{
    let b = v4_bytes(random);
    let s = uuid_v4_text(random);
    let x6 = random[6];
    let x8 = random[8];
    assert(((x6 & 0x0f) | 0x40) / 16 == 4) by (bit_vector);
    assert(8 <= ((x8 & 0x3f) | 0x80) / 16 <= 11) by (bit_vector);
    assert forall|i: int| 0 <= i < 36 && !(i == 8 || i == 13 || i == 18 || i == 23) implies is_lower_hex(
        #[trigger] s[i],
    ) by {
        let k = i - hyphens_before(i);
        assert(0 <= k / 2 < 16);
        let byte = b[k / 2];
        let n = if k % 2 == 0 { byte / 16 } else { byte % 16 };
        assert(0 <= n < 16);
    }
    assert(s[14] == hex_digit((b[6] / 16) as int));
    assert(s[19] == hex_digit((b[8] / 16) as int));
}

/// Calls `uuid::Builder::from_random_bytes` on the 16 bytes, takes the UUID
/// and renders it with `to_string`. The contract claims what uuid's source
/// shows: the builder sets the version nibble of byte 6 to 4 and the variant
/// bits of byte 8 to `10`, and `Display` writes the bytes in hyphenated
/// lower-case hexadecimal.
#[verifier::external_body]
fn uuid_v4_from_random(random: [u8; 16]) -> (s: String)
    ensures
        s@ == uuid_v4_text(random@),
{
    uuid::Builder::from_random_bytes(random).into_uuid().to_string()
}

// ---------------------------------------------------------------------------
// Specifications
// ---------------------------------------------------------------------------

/// The steps of a new plan: one per description, numbered from 1, pending,
/// without result.
pub open spec fn initial_steps(descriptions: Seq<String>) -> Seq<PlanStep> {
    Seq::new(
        descriptions.len(),
        |i: int|
            PlanStep {
                number: (i + 1) as usize,
                description: descriptions[i],
                status: StepStatus::Pending,
                result: None,
            },
    )
}

/// The text of an optional string.
pub open spec fn text_opt(o: Option<String>) -> Option<Seq<char>> {
    match o {
        Some(s) => Some(s@),
        None => None,
    }
}

/// Some step carries the number `num`.
pub open spec fn has_step(steps: Seq<PlanStep>, num: usize) -> bool {
    exists|i: int| 0 <= i < steps.len() && #[trigger] steps[i].number == num
}

/// `i` is the position of the first step numbered `num`.
pub open spec fn is_first_step(steps: Seq<PlanStep>, num: usize, i: int) -> bool {
    &&& 0 <= i < steps.len()
    &&& steps[i].number == num
    &&& forall|j: int| 0 <= j < i ==> #[trigger] steps[j].number != num
}

/// The position of the first step numbered `num` (meaningful when there is one).
pub open spec fn first_step(steps: Seq<PlanStep>, num: usize) -> int {
    choose|i: int| is_first_step(steps, num, i)
}

/// Every step is completed or skipped.
pub open spec fn all_finished(steps: Seq<PlanStep>) -> bool {
    forall|i: int|
        0 <= i < steps.len() ==> (#[trigger] steps[i].status == StepStatus::Completed
            || steps[i].status == StepStatus::Skipped)
}

/// `after` has the same identity, creation instant, file and step list
/// contents as `before`, apart from what the step functions change.
pub open spec fn keeps_identity(before: Plan, after: Plan) -> bool {
    &&& after.id == before.id
    &&& after.task_id == before.task_id
    &&& after.title == before.title
    &&& after.created_at == before.created_at
    &&& after.file_path == before.file_path
}

/// `after` is `before` with its first step numbered `num` given `status` and
/// the result text `result`; every other step and the identity are unchanged.
pub open spec fn step_updated(
    before: Plan,
    after: Plan,
    num: usize,
    status: StepStatus,
    result: Option<Seq<char>>,
) -> bool {
    let i = first_step(before.steps@, num);
    &&& keeps_identity(before, after)
    &&& after.steps@.len() == before.steps@.len()
    &&& forall|j: int|
        0 <= j < before.steps@.len() && j != i ==> #[trigger] after.steps@[j] == before.steps@[j]
    &&& after.steps@[i].number == before.steps@[i].number
    &&& after.steps@[i].description == before.steps@[i].description
    &&& after.steps@[i].status == status
    &&& text_opt(after.steps@[i].result) == result
}

/// The plan status after completing a step: completed once every step is
/// completed or skipped, unchanged otherwise.
pub open spec fn status_after_completion(before: PlanStatus, steps: Seq<PlanStep>) -> PlanStatus {
    if all_finished(steps) {
        PlanStatus::Completed
    } else {
        before
    }
}

/// The first position of a step number is unique.
pub proof fn lemma_first_step_unique(steps: Seq<PlanStep>, num: usize, i: int)
    requires
        is_first_step(steps, num, i),
    ensures
        first_step(steps, num) == i,
{
    let k = first_step(steps, num);
    assert(is_first_step(steps, num, k));
    if k < i {
        assert(steps[k].number != num);
    } else if i < k {
        assert(steps[i].number != num);
    }
}

// ---------------------------------------------------------------------------
// Helpers
// ---------------------------------------------------------------------------

/// A copy of an optional text.
pub fn copy_text_opt(o: &Option<String>) -> (r: Option<String>)
    ensures
        r == *o,
{
    match o {
        Some(s) => Some(s.clone()),
        None => None,
    }
}

/// The optional text held by an optional string slice.
pub fn owned_opt(o: Option<&str>) -> (r: Option<String>)
    ensures
        text_opt(r) == match o {
            Some(s) => Some(s@),
            None => None::<Seq<char>>,
        },
{
    match o {
        Some(s) => Some(String::from_str(s)),
        None => None,
    }
}

impl PlanStep {
    /// A copy of the step.
    pub fn duplicate(&self) -> (r: PlanStep)
        ensures
            r == *self,
    {
        PlanStep {
            number: self.number,
            description: self.description.clone(),
            status: self.status,
            result: copy_text_opt(&self.result),
        }
    }
}

/// A copy of a list of steps.
pub fn copy_steps(steps: &Vec<PlanStep>) -> (r: Vec<PlanStep>)
    ensures
        r@ == steps@,
{
    let mut r: Vec<PlanStep> = Vec::new();
    let mut i: usize = 0;
    while i < steps.len()
        invariant
            i <= steps.len(),
            r@ == steps@.take(i as int),
        decreases steps.len() - i,
    {
        r.push(steps[i].duplicate());
        i = i + 1;
        assert(r@ =~= steps@.take(i as int));
    }
    assert(steps@.take(steps.len() as int) =~= steps@);
    r
}

/// The position of the first step numbered `num`, if any.
pub fn find_step(steps: &Vec<PlanStep>, num: usize) -> (r: Option<usize>)
    ensures
        r is None <==> !has_step(steps@, num),
        r matches Some(i) ==> is_first_step(steps@, num, i as int) && i == first_step(
            steps@,
            num,
        ),
{
    let mut i: usize = 0;
    while i < steps.len()
        invariant
            i <= steps.len(),
            forall|j: int| 0 <= j < i ==> #[trigger] steps@[j].number != num,
        decreases steps.len() - i,
    {
        if steps[i].number == num {
            proof {
                lemma_first_step_unique(steps@, num, i as int);
            }
            return Some(i);
        }
        i = i + 1;
    }
    None
}

/// Whether every step is completed or skipped.
pub fn all_steps_finished(steps: &Vec<PlanStep>) -> (b: bool)
    ensures
        b == all_finished(steps@),
{
    let mut i: usize = 0;
    while i < steps.len()
        invariant
            i <= steps.len(),
            forall|j: int|
                0 <= j < i ==> (#[trigger] steps@[j].status == StepStatus::Completed
                    || steps@[j].status == StepStatus::Skipped),
        decreases steps.len() - i,
    {
        match steps[i].status {
            StepStatus::Completed | StepStatus::Skipped => {},
            _ => {
                return false;
            },
        }
        i = i + 1;
    }
    true
}

// ---------------------------------------------------------------------------
// Plan
// ---------------------------------------------------------------------------

impl Plan {
    /// A plan with the given identity and instants whose steps are the given
    /// descriptions, numbered from 1 and pending; the plan is a draft without
    /// a file.
    pub fn assemble(
        id: String,
        task_id: &str,
        title: &str,
        step_descriptions: Vec<String>,
        created_at: Timestamp,
        updated_at: Timestamp,
    ) -> (p: Plan)
        ensures
            p.id == id,
            p.task_id@ == task_id@,
            p.title@ == title@,
            p.steps@ == initial_steps(step_descriptions@),
            p.status == PlanStatus::Draft,
            p.created_at == created_at,
            p.updated_at == updated_at,
            p.file_path@ == Seq::<char>::empty(),
    {
        let mut steps: Vec<PlanStep> = Vec::new();
        let mut i: usize = 0;
        while i < step_descriptions.len()
            invariant
                i <= step_descriptions.len(),
                steps@ == initial_steps(step_descriptions@).take(i as int),
            decreases step_descriptions.len() - i,
        {
            steps.push(
                PlanStep {
                    number: i + 1,
                    description: step_descriptions[i].clone(),
                    status: StepStatus::Pending,
                    result: None,
                },
            );
            i = i + 1;
            assert(steps@ =~= initial_steps(step_descriptions@).take(i as int));
        }
        assert(initial_steps(step_descriptions@).take(i as int) =~= initial_steps(
            step_descriptions@,
        ));
        Plan {
            id,
            task_id: String::from_str(task_id),
            title: String::from_str(title),
            steps,
            status: PlanStatus::Draft,
            created_at,
            updated_at,
            file_path: String::new(),
        }
    }

    /// Create a new plan with the given steps: the version 4 UUID made from
    /// 16 random bytes as identifier, `now` as creation and update instant,
    /// steps numbered from 1 and pending, status draft.
    pub fn new(
        task_id: &str,
        title: &str,
        step_descriptions: Vec<String>,
        random: [u8; 16],
        now: Timestamp,
    ) -> (p: Plan)
        ensures
            p.id@ == uuid_v4_text(random@),
            is_uuid_v4_text(p.id@),
            p.task_id@ == task_id@,
            p.title@ == title@,
            p.steps@ == initial_steps(step_descriptions@),
            p.status == PlanStatus::Draft,
            p.created_at == now,
            p.updated_at == now,
            p.file_path@ == Seq::<char>::empty(),
    {
        let id = uuid_v4_from_random(random);
        proof {
            lemma_uuid_v4_text_shape(random@);
        }
        Plan::assemble(id, task_id, title, step_descriptions, now, now)
    }

    /// Replace the first step numbered `step_num` (which exists) with the same
    /// step carrying `status` and `result`, and record `at` as the update.
    fn set_step(
        &mut self,
        i: usize,
        step_num: usize,
        status: StepStatus,
        result: Option<String>,
        at: Timestamp,
    )
        requires
            is_first_step(old(self).steps@, step_num, i as int),
        ensures
            step_updated(*old(self), *final(self), step_num, status, text_opt(result)),
            final(self).steps@[i as int].result == result,
            final(self).updated_at == at,
            final(self).status == old(self).status,
    {
        proof {
            lemma_first_step_unique(self.steps@, step_num, i as int);
        }
        let step = PlanStep {
            number: self.steps[i].number,
            description: self.steps[i].description.clone(),
            status,
            result,
        };
        self.steps.set(i, step);
        self.updated_at = at;
    }

    /// Mark the first step numbered `step_num` in progress at instant `at`;
    /// false, and nothing changed, when there is no such step.
    pub fn mark_step_in_progress(&mut self, step_num: usize, at: Timestamp) -> (found: bool)
        ensures
            found == has_step(old(self).steps@, step_num),
            found ==> step_updated(
                *old(self),
                *final(self),
                step_num,
                StepStatus::InProgress,
                text_opt(old(self).steps@[first_step(old(self).steps@, step_num)].result),
            ) && final(self).updated_at == at && final(self).status == old(self).status,
            !found ==> *final(self) == *old(self),
    {
        match find_step(&self.steps, step_num) {
            Some(i) => {
                let result = copy_text_opt(&self.steps[i].result);
                self.set_step(i, step_num, StepStatus::InProgress, result, at);
                true
            },
            None => false,
        }
    }

    /// Mark the first step numbered `step_num` completed with `result` at
    /// instant `at`; the plan becomes completed once every step is completed
    /// or skipped. False, and nothing changed, when there is no such step.
    pub fn mark_step_completed(
        &mut self,
        step_num: usize,
        result: Option<String>,
        at: Timestamp,
    ) -> (found: bool)
        ensures
            found == has_step(old(self).steps@, step_num),
            found ==> step_updated(
                *old(self),
                *final(self),
                step_num,
                StepStatus::Completed,
                text_opt(result),
            ) && final(self).updated_at == at && final(self).status == status_after_completion(
                old(self).status,
                final(self).steps@,
            ),
            !found ==> *final(self) == *old(self),
    {
        match find_step(&self.steps, step_num) {
            Some(i) => {
                self.set_step(i, step_num, StepStatus::Completed, result, at);
                if all_steps_finished(&self.steps) {
                    self.status = PlanStatus::Completed;
                }
                true
            },
            None => false,
        }
    }

    /// Mark the first step numbered `step_num` failed with the error text at
    /// instant `at`; the plan status is unchanged. False, and nothing changed,
    /// when there is no such step.
    pub fn mark_step_failed(&mut self, step_num: usize, error: String, at: Timestamp) -> (found:
        bool)
        ensures
            found == has_step(old(self).steps@, step_num),
            found ==> step_updated(
                *old(self),
                *final(self),
                step_num,
                StepStatus::Failed,
                Some(error@),
            ) && final(self).updated_at == at && final(self).status == old(self).status,
            !found ==> *final(self) == *old(self),
    {
        match find_step(&self.steps, step_num) {
            Some(i) => {
                self.set_step(i, step_num, StepStatus::Failed, Some(error), at);
                true
            },
            None => false,
        }
    }

    /// Give the first step numbered `step_num` any status and result at
    /// instant `at`, leaving the plan status alone. False, and nothing
    /// changed, when there is no such step.
    pub fn set_step_status_at(
        &mut self,
        step_num: usize,
        status: StepStatus,
        result: Option<String>,
        at: Timestamp,
    ) -> (found: bool)
        ensures
            found == has_step(old(self).steps@, step_num),
            found ==> step_updated(*old(self), *final(self), step_num, status, text_opt(result))
                && final(self).updated_at == at && final(self).status == old(self).status,
            !found ==> *final(self) == *old(self),
    {
        match find_step(&self.steps, step_num) {
            Some(i) => {
                self.set_step(i, step_num, status, result, at);
                true
            },
            None => false,
        }
    }
}

} // verus!

verus! {

/// `d` is the stored form of `p`: the same fields, instants written as RFC
/// 3339 text, and each text reading back as its instant when the year has
/// four digits.
pub open spec fn stored_form(p: Plan, d: PlanData) -> bool {
    &&& d.id == p.id
    &&& d.task_id == p.task_id
    &&& d.title == p.title
    &&& d.status == p.status
    &&& d.steps@ == p.steps@
    &&& d.created_at@ == rfc3339_text(p.created_at.seconds(), p.created_at.nanoseconds())
    &&& d.updated_at@ == rfc3339_text(p.updated_at.seconds(), p.updated_at.nanoseconds())
    &&& four_digit_year(p.created_at.seconds()) ==> parses_to(
        rfc3339_parse(d.created_at@),
        p.created_at.seconds(),
        p.created_at.nanoseconds(),
    )
    &&& four_digit_year(p.updated_at.seconds()) ==> parses_to(
        rfc3339_parse(d.updated_at@),
        p.updated_at.seconds(),
        p.updated_at.nanoseconds(),
    )
}

/// `q` is the plan read from the stored form `d` for the file `path`.
pub open spec fn loaded_from(d: PlanData, path: Seq<char>, q: Plan) -> bool {
    &&& q.id == d.id
    &&& q.task_id == d.task_id
    &&& q.title == d.title
    &&& q.status == d.status
    &&& q.steps@ == d.steps@
    &&& parses_to(rfc3339_parse(d.created_at@), q.created_at.seconds(), q.created_at.nanoseconds())
    &&& parses_to(rfc3339_parse(d.updated_at@), q.updated_at.seconds(), q.updated_at.nanoseconds())
    &&& q.file_path@ == path
}

/// The error of reading `d` back: the first instant that does not parse.
pub open spec fn load_error(d: PlanData, e: AgentError) -> bool {
    match rfc3339_parse(d.created_at@) {
        Err(m) => e matches AgentError::ConfigError(msg) && msg@ == "Invalid created_at: "@ + m,
        Ok(_) => match rfc3339_parse(d.updated_at@) {
            Err(m) => e matches AgentError::ConfigError(msg) && msg@ == "Invalid updated_at: "@
                + m,
            Ok(_) => false,
        },
    }
}

fn invalid_instant(prefix: &str, m: String) -> (e: AgentError)
    ensures
        e matches AgentError::ConfigError(msg) && msg@ == prefix@ + m@,
{
    let mut msg = String::from_str(prefix);
    msg.append(m.as_str());
    AgentError::ConfigError(msg)
}

impl PlanData {
    /// The stored form of a plan.
    pub fn from_plan(plan: &Plan) -> (d: PlanData)
        ensures
            stored_form(*plan, d),
    {
        PlanData {
            id: plan.id.clone(),
            task_id: plan.task_id.clone(),
            title: plan.title.clone(),
            status: plan.status,
            created_at: plan.created_at.to_rfc3339(),
            updated_at: plan.updated_at.to_rfc3339(),
            steps: copy_steps(&plan.steps),
        }
    }

    /// The plan that this stored form describes, kept at `file_path`; an
    /// error names the first instant whose text does not parse.
    pub fn to_plan(&self, file_path: &str) -> (r: Result<Plan, AgentError>)
        ensures
            r is Ok <==> (rfc3339_parse(self.created_at@) is Ok && rfc3339_parse(
                self.updated_at@,
            ) is Ok),
            r matches Ok(q) ==> loaded_from(*self, file_path@, q),
            r matches Err(e) ==> load_error(*self, e),
    {
        let created_at = match Timestamp::parse_rfc3339(self.created_at.as_str()) {
            Ok(t) => t,
            Err(m) => {
                return Err(invalid_instant("Invalid created_at: ", m));
            },
        };
        let updated_at = match Timestamp::parse_rfc3339(self.updated_at.as_str()) {
            Ok(t) => t,
            Err(m) => {
                return Err(invalid_instant("Invalid updated_at: ", m));
            },
        };
        Ok(
            Plan {
                id: self.id.clone(),
                task_id: self.task_id.clone(),
                title: self.title.clone(),
                status: self.status,
                created_at,
                updated_at,
                steps: copy_steps(&self.steps),
                file_path: String::from_str(file_path),
            },
        )
    }
}

/// Storing a plan and reading it back for its own file gives the plan back,
/// when both instants have four-digit years: the reading succeeds, and the
/// plan read is the plan stored.
pub proof fn law_stored_plan_reads_back(p: Plan, d: PlanData, q: Plan)
    requires
        stored_form(p, d),
        four_digit_year(p.created_at.seconds()),
        four_digit_year(p.updated_at.seconds()),
        loaded_from(d, p.file_path@, q),
    ensures
        rfc3339_parse(d.created_at@) is Ok,
        rfc3339_parse(d.updated_at@) is Ok,
        q.id == p.id,
        q.task_id == p.task_id,
        q.title == p.title,
        q.status == p.status,
        q.steps@ == p.steps@,
        q.created_at == p.created_at,
        q.updated_at == p.updated_at,
        q.file_path@ == p.file_path@,
{
    Timestamp::lemma_same_instant(q.created_at, p.created_at);
    Timestamp::lemma_same_instant(q.updated_at, p.updated_at);
}

} // verus!

verus! {

/// In a new plan made from `descriptions`, the step numbered `k` exists
/// exactly when `1 <= k <= descriptions.len()`, and it is the `k`-th step.
pub proof fn law_new_plan_step_numbers(descriptions: Seq<String>, k: usize)
    requires
        descriptions.len() <= usize::MAX,
    ensures
        has_step(initial_steps(descriptions), k) <==> 1 <= k <= descriptions.len(),
        1 <= k <= descriptions.len() ==> first_step(initial_steps(descriptions), k) == k - 1,
{
    let steps = initial_steps(descriptions);
    if 1 <= k <= descriptions.len() {
        assert(steps[k - 1].number == k);
        assert(is_first_step(steps, k, k - 1));
        lemma_first_step_unique(steps, k, k - 1);
    } else {
        assert forall|i: int| 0 <= i < steps.len() implies #[trigger] steps[i].number != k by {
            assert(steps[i].number == i + 1);
        }
    }
}

/// Updating a step keeps the number of steps and every step's number; the
/// updated step is the first one with the requested number.
pub proof fn law_step_update_keeps_numbering(
    before: Plan,
    after: Plan,
    num: usize,
    status: StepStatus,
    result: Option<Seq<char>>,
)
    requires
        has_step(before.steps@, num),
        step_updated(before, after, num, status, result),
    ensures
        after.steps@.len() == before.steps@.len(),
        forall|j: int|
            0 <= j < after.steps@.len() ==> #[trigger] after.steps@[j].number
                == before.steps@[j].number,
        after.steps@[first_step(before.steps@, num)].number == num,
        after.steps@[first_step(before.steps@, num)].status == status,
{
    let i = choose|i: int| 0 <= i < before.steps@.len() && #[trigger] before.steps@[i].number == num;
    lemma_has_first_step(before.steps@, num, i);
    assert(is_first_step(before.steps@, num, first_step(before.steps@, num)));
    assert forall|j: int| 0 <= j < after.steps@.len() implies #[trigger] after.steps@[j].number
        == before.steps@[j].number by {
        if j != first_step(before.steps@, num) {
            assert(after.steps@[j] == before.steps@[j]);
        }
    }
}

/// When some step carries a number, a first such step exists.
pub proof fn lemma_has_first_step(steps: Seq<PlanStep>, num: usize, i: int)
    requires
        0 <= i < steps.len(),
        steps[i].number == num,
    ensures
        is_first_step(steps, num, first_step(steps, num)),
    decreases i,
{
    if exists|j: int| 0 <= j < i && #[trigger] steps[j].number == num {
        let j = choose|j: int| 0 <= j < i && #[trigger] steps[j].number == num;
        lemma_has_first_step(steps, num, j);
    } else {
        assert(is_first_step(steps, num, i));
    }
}

/// Completing the last unfinished step completes the plan: when every other
/// step is already completed or skipped, the status after completion is
/// `Completed`.
pub proof fn law_completing_last_step_completes_plan(
    before: Plan,
    after: Plan,
    num: usize,
    result: Option<Seq<char>>,
)
    requires
        has_step(before.steps@, num),
        step_updated(before, after, num, StepStatus::Completed, result),
        forall|j: int|
            0 <= j < before.steps@.len() && j != first_step(before.steps@, num) ==> (
            #[trigger] before.steps@[j].status == StepStatus::Completed || before.steps@[j].status
                == StepStatus::Skipped),
    ensures
        status_after_completion(before.status, after.steps@) == PlanStatus::Completed,
{
    let i = choose|i: int| 0 <= i < before.steps@.len() && #[trigger] before.steps@[i].number == num;
    lemma_has_first_step(before.steps@, num, i);
    let f = first_step(before.steps@, num);
    assert forall|j: int| 0 <= j < after.steps@.len() implies (#[trigger] after.steps@[j].status
        == StepStatus::Completed || after.steps@[j].status == StepStatus::Skipped) by {
        if j != f {
            assert(after.steps@[j] == before.steps@[j]);
        }
    }
}

/// Completing a step while another step is still unfinished leaves the plan
/// status as it was.
pub proof fn law_completion_with_unfinished_step_keeps_status(
    before: Plan,
    after: Plan,
    num: usize,
    result: Option<Seq<char>>,
    other: int,
)
    requires
        has_step(before.steps@, num),
        step_updated(before, after, num, StepStatus::Completed, result),
        0 <= other < before.steps@.len(),
        other != first_step(before.steps@, num),
        before.steps@[other].status != StepStatus::Completed,
        before.steps@[other].status != StepStatus::Skipped,
    ensures
        status_after_completion(before.status, after.steps@) == before.status,
{
    assert(after.steps@[other] == before.steps@[other]);
}

} // verus!
