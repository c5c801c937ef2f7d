//! The plan manager: naming, updating and rendering plans. Reading and
//! writing plan files is the caller's part.
pub mod types;

use vstd::prelude::*;
use crate::error::AgentError;
use crate::text::{
    decimal, decimal_text, lemma_text_le_total, lemma_text_le_trans,
    sorted_texts, text_le, text_leq,
};
use crate::time::{Timestamp, rfc3339_text, strftime_text};
use types::{
    Plan, PlanStatus, PlanStep, StepStatus, first_step, has_step, initial_steps,
    is_uuid_text, is_uuid_v4_text, uuid_v4_text, status_after_completion, step_updated, text_opt, owned_opt,
};

verus! {

/// A file name joined onto a directory path as `std::path::Path::join`
/// does on Unix: an absolute name replaces the directory; otherwise the name
/// follows the directory, with a `/` between them unless the directory is
/// empty or already ends in `/`.
pub open spec fn joined_path(dir: Seq<char>, name: Seq<char>) -> Seq<char> {
    if name.len() > 0 && name[0] == '/' {
        name
    } else if dir.len() == 0 || dir.last() == '/' {
        dir + name
    } else {
        dir + "/"@ + name
    }
}

/// Calls `std::path::Path::join` on a directory and a file name and returns
/// the joined path as text (both are UTF-8, so `to_string_lossy` changes
/// nothing). The contract claims the result that `joined_path` states:
/// `PathBuf::push` on Unix replaces the path with an absolute argument and
/// otherwise adds a separator only when the path is not empty and does not
/// end in one.
#[verifier::external_body]
fn path_join(dir: &str, name: &str) -> (p: String)
    ensures
        p@ == joined_path(dir@, name@),
{
    std::path::Path::new(dir).join(name).to_string_lossy().into_owned()
}

/// Manages the plans kept in one directory.
#[derive(Debug)]
pub struct PlanManager {
    plans_dir: String,
}

/// The debug name of a plan status.
pub open spec fn plan_status_name(s: PlanStatus) -> Seq<char> {
    match s {
        PlanStatus::Draft => "Draft"@,
        PlanStatus::PendingApproval => "PendingApproval"@,
        PlanStatus::Approved => "Approved"@,
        PlanStatus::InProgress => "InProgress"@,
        PlanStatus::Completed => "Completed"@,
        PlanStatus::Cancelled => "Cancelled"@,
    }
}

/// The debug name of a step status.
pub open spec fn step_status_name(s: StepStatus) -> Seq<char> {
    match s {
        StepStatus::Pending => "Pending"@,
        StepStatus::InProgress => "InProgress"@,
        StepStatus::Completed => "Completed"@,
        StepStatus::Failed => "Failed"@,
        StepStatus::Skipped => "Skipped"@,
    }
}

/// The symbol that marks a plan status.
pub open spec fn plan_status_symbol(s: PlanStatus) -> Seq<char> {
    match s {
        PlanStatus::Draft => "📝"@,
        PlanStatus::PendingApproval => "⏳"@,
        PlanStatus::Approved => "✅"@,
        PlanStatus::InProgress => "🔄"@,
        PlanStatus::Completed => "🏁"@,
        PlanStatus::Cancelled => "❌"@,
    }
}

/// The symbol that marks a step status.
pub open spec fn step_status_symbol(s: StepStatus) -> Seq<char> {
    match s {
        StepStatus::Pending => "⬜"@,
        StepStatus::InProgress => "🔄"@,
        StepStatus::Completed => "✅"@,
        StepStatus::Failed => "❌"@,
        StepStatus::Skipped => "⏭️"@,
    }
}

/// The debug name of a plan status.
pub fn plan_status_text(s: PlanStatus) -> (r: &'static str)
    ensures
        r@ == plan_status_name(s),
{
    match s {
        PlanStatus::Draft => "Draft",
        PlanStatus::PendingApproval => "PendingApproval",
        PlanStatus::Approved => "Approved",
        PlanStatus::InProgress => "InProgress",
        PlanStatus::Completed => "Completed",
        PlanStatus::Cancelled => "Cancelled",
    }
}

/// The debug name of a step status.
pub fn step_status_text(s: StepStatus) -> (r: &'static str)
    ensures
        r@ == step_status_name(s),
{
    match s {
        StepStatus::Pending => "Pending",
        StepStatus::InProgress => "InProgress",
        StepStatus::Completed => "Completed",
        StepStatus::Failed => "Failed",
        StepStatus::Skipped => "Skipped",
    }
}

fn plan_status_mark(s: PlanStatus) -> (r: &'static str)
    ensures
        r@ == plan_status_symbol(s),
{
    match s {
        PlanStatus::Draft => "📝",
        PlanStatus::PendingApproval => "⏳",
        PlanStatus::Approved => "✅",
        PlanStatus::InProgress => "🔄",
        PlanStatus::Completed => "🏁",
        PlanStatus::Cancelled => "❌",
    }
}

fn step_status_mark(s: StepStatus) -> (r: &'static str)
    ensures
        r@ == step_status_symbol(s),
{
    match s {
        StepStatus::Pending => "⬜",
        StepStatus::InProgress => "🔄",
        StepStatus::Completed => "✅",
        StepStatus::Failed => "❌",
        StepStatus::Skipped => "⏭️",
    }
}

/// The head of a rendered plan: title, machine-readable metadata comments,
/// a readable summary and the steps heading.
pub open spec fn markdown_head(p: Plan) -> Seq<char> {
    let created = p.created_at;
    let updated = p.updated_at;
    "# "@ + p.title@ + "\n\n"@ + "<!-- plan_id: "@ + p.id@ + " -->\n"@ + "<!-- task_id: "@
        + p.task_id@ + " -->\n"@ + "<!-- plan_status: "@ + plan_status_name(p.status)
        + " -->\n"@ + "<!-- created_at: "@ + rfc3339_text(created.seconds(), created.nanoseconds())
        + " -->\n"@ + "<!-- updated_at: "@ + rfc3339_text(updated.seconds(), updated.nanoseconds())
        + " -->\n"@ + "**Status:** "@ + plan_status_symbol(p.status) + " "@ + plan_status_name(
        p.status,
    ) + "\n"@ + "**Task ID:** "@ + p.task_id@ + "\n"@ + "**Plan ID:** "@ + p.id@ + "\n"@
        + "**Created:** "@ + strftime_text(
        created.seconds(),
        created.nanoseconds(),
        "%Y-%m-%d %H:%M:%S UTC"@,
    ) + "\n\n"@ + "---\n\n## Steps\n\n"@
}

/// One rendered step: its status comment, the step line, its result line if
/// it has a result, and a blank line.
pub open spec fn step_markdown(s: PlanStep) -> Seq<char> {
    "<!-- step_status_"@ + decimal_text(s.number as nat) + ": "@ + step_status_name(s.status)
        + " -->\n"@ + step_status_symbol(s.status) + " **Step "@ + decimal_text(s.number as nat)
        + ":** "@ + s.description@ + "\n"@ + result_markdown(s.result) + "\n"@
}

/// The result line of a step, if it has a result.
pub open spec fn result_markdown(result: Option<String>) -> Seq<char> {
    match result {
        Some(r) => "   - Result: "@ + r@ + "\n"@,
        None => Seq::<char>::empty(),
    }
}

/// The rendered steps, in order.
pub open spec fn steps_markdown(steps: Seq<PlanStep>) -> Seq<char>
    decreases steps.len(),
{
    if steps.len() == 0 {
        Seq::empty()
    } else {
        steps_markdown(steps.drop_last()) + step_markdown(steps.last())
    }
}

/// The markdown view of a plan.
pub open spec fn plan_markdown(p: Plan) -> Seq<char> {
    markdown_head(p) + steps_markdown(p.steps@)
}

/// The file name of a plan: its creation instant, the first eight
/// characters of its identifier, and the `toml` extension.
pub open spec fn plan_file_name(p: Plan) -> Seq<char> {
    strftime_text(p.created_at.seconds(), p.created_at.nanoseconds(), "%Y%m%d_%H%M%S"@) + "_"@
        + p.id@.take(8) + ".toml"@
}

/// The text of an optional string slice.
pub open spec fn slice_text_opt(o: Option<&str>) -> Option<Seq<char>> {
    match o {
        Some(s) => Some(s@),
        None => None,
    }
}

/// The result text that `update_step` stores for a step.
pub open spec fn stored_result(
    status: StepStatus,
    previous: Option<String>,
    result: Option<Seq<char>>,
) -> Option<Seq<char>> {
    match status {
        StepStatus::InProgress => text_opt(previous),
        StepStatus::Failed => Some(
            match result {
                Some(s) => s,
                None => Seq::<char>::empty(),
            },
        ),
        _ => result,
    }
}

/// What `update_step` does: a missing step is an error that leaves the plan
/// alone; otherwise the step takes the status and its stored result, and the
/// plan is completed when a completion finishes its last unfinished step.
pub open spec fn step_update_outcome(
    before: Plan,
    after: Plan,
    step_num: usize,
    status: StepStatus,
    result: Option<Seq<char>>,
    r: Result<(), AgentError>,
) -> bool {
    &&& r is Ok <==> has_step(before.steps@, step_num)
    &&& r is Ok ==> step_updated(
        before,
        after,
        step_num,
        status,
        stored_result(status, before.steps@[first_step(before.steps@, step_num)].result, result),
    )
    &&& r is Ok ==> after.status == if status == StepStatus::Completed {
        status_after_completion(before.status, after.steps@)
    } else {
        before.status
    }
    &&& r matches Err(e) ==> after == before && (e matches AgentError::ConfigError(m) && m@
        == step_not_found_text(step_num))
}

/// The message of a missing step.
pub open spec fn step_not_found_text(step_num: usize) -> Seq<char> {
    "Step "@ + decimal_text(step_num as nat) + " not found in plan"@
}

fn step_not_found(step_num: usize) -> (e: AgentError)
    ensures
        e matches AgentError::ConfigError(m) && m@ == step_not_found_text(step_num),
{
    let mut m = String::from_str("Step ");
    m.append(decimal(step_num).as_str());
    m.append(" not found in plan");
    AgentError::ConfigError(m)
}

fn render_step(md: &mut String, step: &PlanStep)
    ensures
        final(md)@ == old(md)@ + step_markdown(*step),
{
    let ghost start = md@;
    let number = decimal(step.number);
    md.append("<!-- step_status_");
    md.append(number.as_str());
    md.append(": ");
    md.append(step_status_text(step.status));
    md.append(" -->\n");
    md.append(step_status_mark(step.status));
    md.append(" **Step ");
    md.append(number.as_str());
    md.append(":** ");
    md.append(step.description.as_str());
    md.append("\n");
    let ghost before_result = md@;
    match &step.result {
        Some(r) => {
            md.append("   - Result: ");
            md.append(r.as_str());
            md.append("\n");
        },
        None => {},
    }
    md.append("\n");
    proof {
        let tail = result_markdown(step.result);
        assert(md@ =~= before_result + tail + "\n"@);
        assert(step_markdown(*step) =~= (before_result.subrange(
            start.len() as int,
            before_result.len() as int,
        )) + tail + "\n"@);
        assert(md@ =~= start + step_markdown(*step));
    }
}

/// A file name whose extension, as `Path::extension` reads it, is `toml`:
/// the name ends in `.toml` with at least one character before the dot.
pub open spec fn is_plan_file_name(name: Seq<char>) -> bool {
    name.len() > 5 && name.subrange(name.len() - 5, name.len() as int) == ".toml"@
}

/// The views of a list of strings.
pub open spec fn texts(v: Seq<String>) -> Seq<Seq<char>> {
    v.map_values(|s: String| s@)
}

/// The plan file names among directory entry names, in directory order.
pub open spec fn plan_file_names(entries: Seq<Seq<char>>) -> Seq<Seq<char>> {
    entries.filter(|n: Seq<char>| is_plan_file_name(n))
}

/// `names` holds exactly the plan file names of `entries`, sorted.
pub open spec fn sorted_plan_names(entries: Seq<Seq<char>>, names: Seq<Seq<char>>) -> bool {
    &&& sorted_texts(names)
    &&& names.to_multiset() == plan_file_names(entries).to_multiset()
}

/// Whether a file name has the `toml` extension.
pub fn has_plan_extension(name: &str) -> (r: bool)
    ensures
        r == is_plan_file_name(name@),
{
    let n = name.unicode_len();
    if n <= 5 {
        return false;
    }
    proof {
        reveal_strlit(".toml");
    }
    let ok = name.get_char(n - 5) == '.' && name.get_char(n - 4) == 't' && name.get_char(n - 3)
        == 'o' && name.get_char(n - 2) == 'm' && name.get_char(n - 1) == 'l';
    proof {
        let tail = name@.subrange(n - 5, n as int);
        if ok {
            assert(tail =~= ".toml"@);
        } else {
            if tail == ".toml"@ {
                assert(tail[0] == name@[n - 5]);
                assert(tail[1] == name@[n - 4]);
                assert(tail[2] == name@[n - 3]);
                assert(tail[3] == name@[n - 2]);
                assert(tail[4] == name@[n - 1]);
            }
        }
    }
    ok
}

/// Inserting into a sequence adds the element to its multiset.
proof fn lemma_insert_multiset<A>(s: Seq<A>, i: int, x: A)
    requires
        0 <= i <= s.len(),
    ensures
        s.insert(i, x).to_multiset() == s.to_multiset().insert(x),
{
    broadcast use vstd::seq_lib::group_to_multiset_ensures;

    let t = s.insert(i, x);
    assert(t.remove(i) =~= s);
    assert(t.remove(i).to_multiset() == t.to_multiset().remove(t[i]));
    assert(t.contains(x)) by {
        assert(t[i] == x);
    }
    assert(t.to_multiset() =~= s.to_multiset().insert(x));
}

/// Insert `name` into sorted `names`, keeping them sorted.
fn insert_sorted(names: &mut Vec<String>, name: String)
    requires
        sorted_texts(texts(old(names)@)),
    ensures
        sorted_texts(texts(final(names)@)),
        texts(final(names)@).to_multiset() == texts(old(names)@).to_multiset().insert(name@),
{
    let ghost old_texts = texts(names@);
    let mut pos: usize = 0;
    while pos < names.len() && text_leq(names[pos].as_str(), name.as_str())
        invariant
            pos <= names.len(),
            names@ == old(names)@,
            old_texts == texts(names@),
            forall|k: int| 0 <= k < pos ==> text_le(#[trigger] old_texts[k], name@),
        decreases names.len() - pos,
    {
        pos = pos + 1;
    }
    let ghost x = name@;
    names.insert(pos, name);
    proof {
        let new_texts = texts(names@);
        assert(new_texts =~= old_texts.insert(pos as int, x));
        lemma_insert_multiset(old_texts, pos as int, x);
        if pos < old_texts.len() {
            lemma_text_le_total(old_texts[pos as int], x);
        }
        assert forall|i: int, j: int| 0 <= i < j < new_texts.len() implies text_le(
            new_texts[i],
            new_texts[j],
        ) by {
            if j < pos {
            } else if j == pos {
            } else if i < pos {
                lemma_text_le_trans(old_texts[i], x, old_texts[pos as int]);
                if pos < j - 1 {
                    assert(text_le(old_texts[pos as int], old_texts[j - 1]));
                    lemma_text_le_trans(old_texts[i], old_texts[pos as int], old_texts[j - 1]);
                }
            } else if i == pos {
                if pos < j - 1 {
                    assert(text_le(old_texts[pos as int], old_texts[j - 1]));
                    lemma_text_le_trans(x, old_texts[pos as int], old_texts[j - 1]);
                }
            } else {
                assert(text_le(old_texts[i - 1], old_texts[j - 1]));
            }
        }
    }
}

impl PlanManager {
    /// The directory that holds the plans.
    pub closed spec fn dir(self) -> Seq<char> {
        self.plans_dir@
    }

    /// A manager of the plans in `plans_dir` (the caller creates the
    /// directory).
    pub fn new(plans_dir: String) -> (pm: PlanManager)
        ensures
            pm.dir() == plans_dir@,
    {
        PlanManager { plans_dir }
    }

    /// The directory that holds the plans.
    pub fn plans_dir(&self) -> (d: &str)
        ensures
            d@ == self.dir(),
    {
        self.plans_dir.as_str()
    }

    /// The file name of a plan with a UUID identifier.
    fn file_name(plan: &Plan) -> (name: String)
        requires
            is_uuid_text(plan.id@),
        ensures
            name@ == plan_file_name(*plan),
    {
        let mut name = plan.created_at.compact_text();
        name.append("_");
        name.append(plan.id.as_str().substring_char(0, 8));
        name.append(".toml");
        name
    }

    /// A new plan for the task, with its file in the plans directory; the
    /// caller stores it.
    pub fn create_plan(
        &self,
        task_id: &str,
        title: &str,
        steps: Vec<String>,
        random: [u8; 16],
        now: Timestamp,
    ) -> (p: Plan)
        ensures
            p.id@ == uuid_v4_text(random@),
            is_uuid_v4_text(p.id@),
            p.task_id@ == task_id@,
            p.title@ == title@,
            p.steps@ == initial_steps(steps@),
            p.status == PlanStatus::Draft,
            p.created_at == now,
            p.updated_at == now,
            p.file_path@ == joined_path(self.dir(), plan_file_name(p)),
    {
        let mut plan = Plan::new(task_id, title, steps, random, now);
        let name = PlanManager::file_name(&plan);
        plan.file_path = path_join(self.plans_dir.as_str(), name.as_str());
        plan
    }

    /// Give the first step numbered `step_num` a new status: completed and
    /// failed steps record the result (a failed one an empty text when none
    /// is given), a step in progress keeps its result, and pending or skipped
    /// steps take the given result. Completing the last unfinished step
    /// completes the plan. A missing step is an error and leaves the plan
    /// unchanged. The update is recorded at instant `at`. The caller stores
    /// the plan.
    pub fn update_step(
        &self,
        plan: &mut Plan,
        step_num: usize,
        status: StepStatus,
        result: Option<&str>,
        at: Timestamp,
    ) -> (r: Result<(), AgentError>)
        ensures
            step_update_outcome(*old(plan), *final(plan), step_num, status, slice_text_opt(result), r),
            r is Ok ==> final(plan).updated_at == at,
    {
        let found = match status {
            StepStatus::Completed => plan.mark_step_completed(step_num, owned_opt(result), at),
            StepStatus::Failed => {
                let text = match result {
                    Some(s) => String::from_str(s),
                    None => String::new(),
                };
                plan.mark_step_failed(step_num, text, at)
            },
            StepStatus::InProgress => plan.mark_step_in_progress(step_num, at),
            _ => plan.set_step_status_at(step_num, status, owned_opt(result), at),
        };
        if found {
            Ok(())
        } else {
            Err(step_not_found(step_num))
        }
    }

    /// The plan files among the names of the directory's entries: those with
    /// the `toml` extension, sorted, each joined onto the plans directory.
    pub fn list_plans(&self, entry_names: Vec<String>) -> (paths: Vec<String>)
        ensures
            exists|names: Seq<Seq<char>>|
                #![trigger sorted_plan_names(texts(entry_names@), names)]
                sorted_plan_names(texts(entry_names@), names) && paths@.len() == names.len() && (
                forall|i: int|
                    0 <= i < names.len() ==> #[trigger] paths@[i]@ == joined_path(
                        self.dir(),
                        names[i],
                    )),
    {
        let ghost entries = texts(entry_names@);
        let mut names: Vec<String> = Vec::new();
        let mut i: usize = 0;
        proof {
            reveal_with_fuel(Seq::filter, 1);
            assert(texts(names@) =~= Seq::<Seq<char>>::empty());
            assert(plan_file_names(entries.take(0)) =~= Seq::<Seq<char>>::empty());
        }
        while i < entry_names.len()
            invariant
                i <= entry_names.len(),
                entries == texts(entry_names@),
                sorted_texts(texts(names@)),
                texts(names@).to_multiset() == plan_file_names(entries.take(i as int)).to_multiset(),
            decreases entry_names.len() - i,
        {
            let name = entry_names[i].clone();
            proof {
                assert(entries.take(i + 1) =~= entries.take(i as int).push(entries[i as int]));
                entries.take(i as int).lemma_filter_push(
                    entries[i as int],
                    |n: Seq<char>| is_plan_file_name(n),
                );
            }
            if has_plan_extension(name.as_str()) {
                proof {
                    vstd::seq_lib::to_multiset_build(
                        plan_file_names(entries.take(i as int)),
                        name@,
                    );
                }
                insert_sorted(&mut names, name);
            }
            i = i + 1;
        }
        assert(entries.take(entry_names.len() as int) =~= entries);
        let mut paths: Vec<String> = Vec::new();
        let mut k: usize = 0;
        while k < names.len()
            invariant
                k <= names.len(),
                paths@.len() == k,
                forall|j: int|
                    0 <= j < k ==> #[trigger] paths@[j]@ == joined_path(self.dir(), names@[j]@),
            decreases names.len() - k,
        {
            paths.push(path_join(self.plans_dir.as_str(), names[k].as_str()));
            k = k + 1;
        }
        assert(sorted_plan_names(entries, texts(names@)));
        paths
    }

    /// The markdown view of a plan.
    pub fn render_markdown(&self, plan: &Plan) -> (md: String)
        ensures
            md@ == plan_markdown(*plan),
    {
        let mut md = String::from_str("# ");
        md.append(plan.title.as_str());
        md.append("\n\n");
        md.append("<!-- plan_id: ");
        md.append(plan.id.as_str());
        md.append(" -->\n");
        md.append("<!-- task_id: ");
        md.append(plan.task_id.as_str());
        md.append(" -->\n");
        md.append("<!-- plan_status: ");
        md.append(plan_status_text(plan.status));
        md.append(" -->\n");
        md.append("<!-- created_at: ");
        md.append(plan.created_at.to_rfc3339().as_str());
        md.append(" -->\n");
        md.append("<!-- updated_at: ");
        md.append(plan.updated_at.to_rfc3339().as_str());
        md.append(" -->\n");
        md.append("**Status:** ");
        md.append(plan_status_mark(plan.status));
        md.append(" ");
        md.append(plan_status_text(plan.status));
        md.append("\n");
        md.append("**Task ID:** ");
        md.append(plan.task_id.as_str());
        md.append("\n");
        md.append("**Plan ID:** ");
        md.append(plan.id.as_str());
        md.append("\n");
        md.append("**Created:** ");
        md.append(plan.created_at.display_text().as_str());
        md.append("\n\n");
        md.append("---\n\n## Steps\n\n");
        assert(md@ =~= markdown_head(*plan));
        let mut i: usize = 0;
        while i < plan.steps.len()
            invariant
                i <= plan.steps.len(),
                md@ == markdown_head(*plan) + steps_markdown(plan.steps@.take(i as int)),
            decreases plan.steps.len() - i,
        {
            render_step(&mut md, &plan.steps[i]);
            proof {
                let next = plan.steps@.take(i + 1);
                assert(next.drop_last() =~= plan.steps@.take(i as int));
                assert(next.last() == plan.steps@[i as int]);
            }
            i = i + 1;
        }
        assert(plan.steps@.take(i as int) =~= plan.steps@);
        md
    }
}

} // verus!

verus! {

/// The letter that marks a plan status in a listing.
pub open spec fn plan_status_letter(s: PlanStatus) -> Seq<char> {
    match s {
        PlanStatus::Draft => "D"@,
        PlanStatus::PendingApproval => "P"@,
        PlanStatus::Approved => "A"@,
        PlanStatus::InProgress => "I"@,
        PlanStatus::Completed => "C"@,
        PlanStatus::Cancelled => "X"@,
    }
}

/// The number of completed steps.
pub open spec fn completed_count(steps: Seq<PlanStep>) -> nat
    decreases steps.len(),
{
    if steps.len() == 0 {
        0
    } else {
        completed_count(steps.drop_last()) + if steps.last().status == StepStatus::Completed {
            1nat
        } else {
            0nat
        }
    }
}

/// The line that lists a plan: its status letter, title, completed and total
/// steps, and its path.
pub open spec fn listing_line(plan: Plan, path: Seq<char>) -> Seq<char> {
    "  ["@ + plan_status_letter(plan.status) + "] "@ + plan.title@ + " ("@ + decimal_text(
        completed_count(plan.steps@),
    ) + "/"@ + decimal_text(plan.steps@.len()) + " steps) — "@ + path
}

fn status_letter(s: PlanStatus) -> (r: &'static str)
    ensures
        r@ == plan_status_letter(s),
{
    match s {
        PlanStatus::Draft => "D",
        PlanStatus::PendingApproval => "P",
        PlanStatus::Approved => "A",
        PlanStatus::InProgress => "I",
        PlanStatus::Completed => "C",
        PlanStatus::Cancelled => "X",
    }
}

/// The number of completed steps.
pub fn completed_steps(steps: &Vec<PlanStep>) -> (n: usize)
    ensures
        n == completed_count(steps@),
{
    let mut n: usize = 0;
    let mut i: usize = 0;
    while i < steps.len()
        invariant
            i <= steps.len(),
            n == completed_count(steps@.take(i as int)),
            n <= i,
        decreases steps.len() - i,
    {
        proof {
            assert(steps@.take(i + 1).drop_last() =~= steps@.take(i as int));
        }
        if steps[i].status == StepStatus::Completed {
            n = n + 1;
        }
        i = i + 1;
    }
    assert(steps@.take(steps.len() as int) =~= steps@);
    n
}

/// The line that lists a plan stored at `path`.
pub fn plan_listing_line(plan: &Plan, path: &str) -> (line: String)
    ensures
        line@ == listing_line(*plan, path@),
{
    let mut line = String::from_str("  [");
    line.append(status_letter(plan.status));
    line.append("] ");
    line.append(plan.title.as_str());
    line.append(" (");
    line.append(decimal(completed_steps(&plan.steps)).as_str());
    line.append("/");
    line.append(decimal(plan.steps.len()).as_str());
    line.append(" steps) — ");
    line.append(path);
    line
}

} // verus!

verus! {

/// A plan's file, as the plan manager names it, is a plan file: listing a
/// directory that holds it lists it.
pub proof fn law_created_plan_is_listed(p: Plan, entries: Seq<Seq<char>>, names: Seq<Seq<char>>)
    requires
        is_uuid_text(p.id@),
        entries.contains(plan_file_name(p)),
        sorted_plan_names(entries, names),
    ensures
        is_plan_file_name(plan_file_name(p)),
        names.contains(plan_file_name(p)),
{
    broadcast use vstd::seq_lib::group_to_multiset_ensures;

    reveal_strlit(".toml");
    reveal_strlit("_");
    let name = plan_file_name(p);
    let head = strftime_text(p.created_at.seconds(), p.created_at.nanoseconds(), "%Y%m%d_%H%M%S"@)
        + "_"@ + p.id@.take(8);
    assert(name =~= head + ".toml"@);
    assert(name.subrange(name.len() - 5, name.len() as int) =~= ".toml"@);
    let pred = |n: Seq<char>| is_plan_file_name(n);
    let i = choose|i: int| 0 <= i < entries.len() && entries[i] == name;
    assert(pred(entries[i]));
    entries.lemma_filter_contains(pred, i);
    assert(plan_file_names(entries).contains(name));
    assert(plan_file_names(entries).to_multiset().count(name) > 0);
    assert(names.to_multiset().count(name) > 0);
}

} // verus!

verus! {

/// The summary line that shows when a plan was created.
pub open spec fn created_line(created_at: Timestamp) -> Seq<char> {
    "**Created:** "@ + strftime_text(
        created_at.seconds(),
        created_at.nanoseconds(),
        "%Y-%m-%d %H:%M:%S UTC"@,
    ) + "\n\n"@
}

/// The markdown of a plan shows its creation instant, not its last update,
/// in the Created line that closes its header, right before the steps.
pub proof fn law_markdown_shows_creation_instant(p: Plan)
    ensures
        exists|head: Seq<char>|
            plan_markdown(p) == head + created_line(p.created_at) + "---\n\n## Steps\n\n"@
                + steps_markdown(p.steps@),
{
    let created = p.created_at;
    let updated = p.updated_at;
    let head = "# "@ + p.title@ + "\n\n"@ + "<!-- plan_id: "@ + p.id@ + " -->\n"@
        + "<!-- task_id: "@ + p.task_id@ + " -->\n"@ + "<!-- plan_status: "@ + plan_status_name(
        p.status,
    ) + " -->\n"@ + "<!-- created_at: "@ + rfc3339_text(created.seconds(), created.nanoseconds())
        + " -->\n"@ + "<!-- updated_at: "@ + rfc3339_text(updated.seconds(), updated.nanoseconds())
        + " -->\n"@ + "**Status:** "@ + plan_status_symbol(p.status) + " "@ + plan_status_name(
        p.status,
    ) + "\n"@ + "**Task ID:** "@ + p.task_id@ + "\n"@ + "**Plan ID:** "@ + p.id@ + "\n"@;
    assert(plan_markdown(p) =~= head + created_line(p.created_at) + "---\n\n## Steps\n\n"@
        + steps_markdown(p.steps@));
}

/// Updating a step leaves the Created line of the plan's markdown as it
/// was, whatever instant the update is recorded at.
pub proof fn law_step_update_keeps_created_line(
    before: Plan,
    after: Plan,
    step_num: usize,
    status: StepStatus,
    result: Option<Seq<char>>,
    r: Result<(), AgentError>,
)
    requires
        step_update_outcome(before, after, step_num, status, result, r),
    ensures
        after.created_at == before.created_at,
        created_line(after.created_at) == created_line(before.created_at),
{
}

} // verus!
