use crate::codec::{uuid_text, uuid_to_string};
use crate::error::PublicError;
use crate::text::{chars_of, decimal, owned, push_decimal, push_str, string_of};
use vstd::prelude::*;

verus! {

/// The only permission preset under which an agent works on a claim.
pub const AGENT_PERMISSION_PRESET: &'static str = "assigned_task_worker";

/// The run that a claim hands to an agent.
#[derive(Debug)]
pub struct ClaimedRun {
    pub id: u128,
    pub delegation_id: u128,
    pub work_list_id: u128,
    pub instructions_revision: i64,
}

/// What the server grants with a claimed run.
#[derive(Debug)]
pub struct AgentClaim {
    pub run: ClaimedRun,
    pub permission_preset: String,
}

/// An enrolled agent's identity and the project grant it holds locally.
#[derive(Debug)]
pub struct GrantedIdentity {
    pub agent_id: u128,
    pub handle: Option<String>,
    pub display_name: Option<String>,
    pub work_list_id: u128,
    pub instructions_revision: i64,
}

/// Why a claim cannot be prepared against the local grant, if it cannot.
pub open spec fn spec_claim_error(identity: GrantedIdentity, claim: AgentClaim) -> Option<Seq<char>> {
    if claim.run.work_list_id != identity.work_list_id
        || claim.permission_preset@ != AGENT_PERMISSION_PRESET@
        || claim.run.instructions_revision != identity.instructions_revision {
        Some("agent claim does not match the local project grant"@)
    } else if identity.handle is None {
        Some("active agent identity is missing its handle"@)
    } else if identity.display_name is None {
        Some("active agent identity is missing its display name"@)
    } else {
        None
    }
}

/// Checks a claim against the local project grant before any of its
/// material is decrypted: same work list, the worker preset and the
/// granted instructions revision. Returns the identity's handle and
/// display name, which the grant signature covers.
pub fn check_claim_against_grant(identity: &GrantedIdentity, claim: &AgentClaim) -> (r: Result<(String, String), PublicError>)
    ensures
        match spec_claim_error(*identity, *claim) {
            Some(m) => r matches Err(e) && e.code@ == "validation"@ && e.message@ == m,
            None => r matches Ok((handle, display_name)) && Some(handle@) == crate::checkpoint::opt_view(identity.handle)
                && Some(display_name@) == crate::checkpoint::opt_view(identity.display_name),
        },
{
    if claim.run.work_list_id != identity.work_list_id
        || !crate::text::str_eq(claim.permission_preset.as_str(), AGENT_PERMISSION_PRESET)
        || claim.run.instructions_revision != identity.instructions_revision {
        return Err(PublicError::validation(owned("agent claim does not match the local project grant")));
    }
    let handle = match &identity.handle {
        Some(h) => owned(h.as_str()),
        None => return Err(PublicError::validation(owned("active agent identity is missing its handle"))),
    };
    let display_name = match &identity.display_name {
        Some(d) => owned(d.as_str()),
        None => return Err(PublicError::validation(owned("active agent identity is missing its display name"))),
    };
    Ok((handle, display_name))
}

/// A checklist entry of the claimed task.
#[derive(Debug)]
pub struct ChecklistLine {
    pub is_done: bool,
    pub title: String,
}

/// The decrypted body of the claimed task: its rich-text blocks and its
/// checklist, each when present.
#[derive(Debug)]
pub struct TaskText {
    pub rich_text_blocks: Option<Vec<String>>,
    pub checklist: Option<Vec<ChecklistLine>>,
}

/// The text blocks, one per line.
pub open spec fn joined_blocks(blocks: Seq<Seq<char>>) -> Seq<char>
    decreases blocks.len(),
{
    if blocks.len() == 0 {
        Seq::empty()
    } else {
        let before = joined_blocks(blocks.drop_last());
        if before.len() == 0 {
            blocks.last()
        } else {
            before + "\n"@ + blocks.last()
        }
    }
}

/// The checklist, each entry on a line of its own with its state.
pub open spec fn checklist_text(items: Seq<(bool, Seq<char>)>) -> Seq<char>
    decreases items.len(),
{
    if items.len() == 0 {
        Seq::empty()
    } else {
        checklist_text(items.drop_last()) + (if items.last().0 { "\n- [x] "@ } else { "\n- [ ] "@ }) + items.last().1
    }
}

/// The body text of a task.
pub open spec fn body_text(task: TaskText) -> Seq<char> {
    match task.rich_text_blocks {
        Some(blocks) => joined_blocks(blocks@.map_values(|b: String| b@)),
        None => Seq::empty(),
    }
}

/// The checklist text of a task.
pub open spec fn task_checklist_text(task: TaskText) -> Seq<char> {
    match task.checklist {
        Some(items) => checklist_text(items@.map_values(|i: ChecklistLine| (i.is_done, i.title@))),
        None => Seq::empty(),
    }
}

/// The decimal representation of a signed number.
pub open spec fn signed_decimal(v: int) -> Seq<char> {
    if v < 0 { "-"@ + decimal((-v) as nat) } else { decimal(v as nat) }
}

/// The prompt that the harness receives for a claimed task: who the agent
/// is and which run it works on, the managed role instructions, the task,
/// and the rules of the run. The agent's handle and display name are not
/// part of it.
pub open spec fn spec_prompt(agent_id: u128, run: ClaimedRun, instructions: Seq<char>, title: Seq<char>, body: Seq<char>, checklist: Seq<char>) -> Seq<char> {
    "You are the SealTask agent principal "@ + uuid_text(agent_id) + ", running assignment "@
        + uuid_text(run.delegation_id) + " as run "@ + uuid_text(run.id)
        + ".\n\nManaged role instructions (revision "@ + signed_decimal(run.instructions_revision as int) + "):\n"@
        + instructions + "\n\nAssigned task:\nTitle: "@ + title + "\n\n"@ + body + checklist
        + "\n\nImplement only this assigned task in the isolated git worktree. Follow repository AGENTS.md instructions, keep changes focused, run proportionate verification, and finish with a concise summary of changes and tests. Do not commit, publish, merge, push, or access unrelated SealTask tasks."@
}

/// The prompt names the agent only by its identifier: two identities that
/// differ in handle or display name get the same prompt for the same run.
pub proof fn lemma_prompt_ignores_agent_names(a: GrantedIdentity, b: GrantedIdentity, run: ClaimedRun, instructions: Seq<char>, title: Seq<char>, task: TaskText)
    requires
        a.agent_id == b.agent_id,
    ensures
        spec_prompt(a.agent_id, run, instructions, title, body_text(task), task_checklist_text(task))
            == spec_prompt(b.agent_id, run, instructions, title, body_text(task), task_checklist_text(task)),
{
}

/// How a checklist line starts: its done mark.
pub open spec fn checklist_mark(done: bool) -> Seq<char> {
    if done { "\n- [x] "@ } else { "\n- [ ] "@ }
}

proof fn lemma_checklist_item_at(items: Seq<(bool, Seq<char>)>, j: int) -> (k: int)
    requires
        0 <= j < items.len(),
    ensures
        0 <= k,
        k + (checklist_mark(items[j].0) + items[j].1).len() <= checklist_text(items).len(),
        checklist_text(items).subrange(k, k + (checklist_mark(items[j].0) + items[j].1).len())
            == checklist_mark(items[j].0) + items[j].1,
    decreases items.len(),
{
    let m = checklist_mark(items[j].0) + items[j].1;
    let prev = checklist_text(items.drop_last());
    let t = checklist_text(items);
    if j == items.len() - 1 {
        assert(t == prev + m);
        assert(t.subrange(prev.len() as int, prev.len() + m.len() as int) =~= m);
        prev.len() as int
    } else {
        let k = lemma_checklist_item_at(items.drop_last(), j);
        assert(items.drop_last()[j] == items[j]);
        assert(t == prev + (checklist_mark(items.last().0) + items.last().1));
        assert(t.subrange(k, k + m.len()) =~= prev.subrange(k, k + m.len()));
        k
    }
}

/// The checklist a task shows depends on its checklist alone, not on
/// whether the task also has a rich-text body.
pub proof fn lemma_checklist_ignores_body(a: TaskText, b: TaskText)
    requires
        a.checklist == b.checklist,
    ensures
        task_checklist_text(a) == task_checklist_text(b),
{
}

/// Every checklist item of a claimed task reaches the agent: the prompt
/// holds each item's done mark followed by its title, whatever the task's
/// body is.
pub proof fn lemma_prompt_lists_every_checklist_item(agent_id: u128, run: ClaimedRun, instructions: Seq<char>, title: Seq<char>, task: TaskText, j: int)
    requires
        task.checklist is Some,
        0 <= j < task.checklist->0@.len(),
    ensures
        ({
            let p = spec_prompt(agent_id, run, instructions, title, body_text(task), task_checklist_text(task));
            let item = task.checklist->0@[j];
            let m = checklist_mark(item.is_done) + item.title@;
            exists|k: int| 0 <= k && k + m.len() <= p.len() && #[trigger] p.subrange(k, k + m.len()) == m
        }),
{
    let items = task.checklist->0@.map_values(|i: ChecklistLine| (i.is_done, i.title@));
    let item = task.checklist->0@[j];
    let m = checklist_mark(item.is_done) + item.title@;
    assert(items[j] == (item.is_done, item.title@));
    let k = lemma_checklist_item_at(items, j);
    let c = task_checklist_text(task);
    assert(c == checklist_text(items));
    let head = "You are the SealTask agent principal "@ + uuid_text(agent_id) + ", running assignment "@
        + uuid_text(run.delegation_id) + " as run "@ + uuid_text(run.id)
        + ".\n\nManaged role instructions (revision "@ + signed_decimal(run.instructions_revision as int) + "):\n"@
        + instructions + "\n\nAssigned task:\nTitle: "@ + title + "\n\n"@ + body_text(task);
    let tail = "\n\nImplement only this assigned task in the isolated git worktree. Follow repository AGENTS.md instructions, keep changes focused, run proportionate verification, and finish with a concise summary of changes and tests. Do not commit, publish, merge, push, or access unrelated SealTask tasks."@;
    let p = spec_prompt(agent_id, run, instructions, title, body_text(task), c);
    assert(p == head + c + tail);
    let at = head.len() + k;
    assert(p.subrange(at, at + m.len()) =~= c.subrange(k, k + m.len()));
}

fn push_signed_decimal(dst: &mut Vec<char>, v: i64)
    ensures
        final(dst)@ == old(dst)@ + signed_decimal(v as int),
{
    if v < 0 {
        dst.push('-');
        let magnitude = (0i128 - v as i128) as u64;
        push_decimal(dst, magnitude);
        proof { reveal_strlit("-"); }
        assert(dst@ =~= old(dst)@ + signed_decimal(v as int));
    } else {
        push_decimal(dst, v as u64);
    }
}

fn push_uuid(dst: &mut Vec<char>, id: u128)
    ensures
        final(dst)@ == old(dst)@ + uuid_text(id),
{
    let text = uuid_to_string(id);
    push_str(dst, text.as_str());
}

fn push_blocks(dst: &mut Vec<char>, blocks: &Vec<String>)
    ensures
        final(dst)@ == old(dst)@ + joined_blocks(blocks@.map_values(|b: String| b@)),
{
    let ghost start = dst@;
    let ghost bs = blocks@.map_values(|b: String| b@);
    let mut nonempty = false;
    let mut i: usize = 0;
    while i < blocks.len()
        invariant
            i <= blocks@.len(),
            bs == blocks@.map_values(|b: String| b@),
            dst@ == start + joined_blocks(bs.subrange(0, i as int)),
            nonempty == (joined_blocks(bs.subrange(0, i as int)).len() > 0),
        decreases blocks@.len() - i,
    {
        assert(bs.subrange(0, i + 1).drop_last() =~= bs.subrange(0, i as int));
        assert(bs.subrange(0, i + 1).last() == blocks@[i as int]@);
        if nonempty {
            dst.push('\n');
        }
        let before = dst.len();
        push_str(dst, blocks[i].as_str());
        nonempty = nonempty || dst.len() > before;
        proof {
            let j = joined_blocks(bs.subrange(0, i as int));
            if j.len() > 0 {
                reveal_strlit("\n");
                assert(dst@ =~= start + (j + "\n"@ + blocks@[i as int]@));
            } else {
                assert(dst@ =~= start + blocks@[i as int]@);
            }
        }
        i += 1;
    }
    assert(bs.subrange(0, blocks@.len() as int) =~= bs);
}

fn push_checklist(dst: &mut Vec<char>, items: &Vec<ChecklistLine>)
    ensures
        final(dst)@ == old(dst)@ + checklist_text(items@.map_values(|i: ChecklistLine| (i.is_done, i.title@))),
{
    let ghost start = dst@;
    let ghost its = items@.map_values(|i: ChecklistLine| (i.is_done, i.title@));
    let mut i: usize = 0;
    while i < items.len()
        invariant
            i <= items@.len(),
            its == items@.map_values(|i: ChecklistLine| (i.is_done, i.title@)),
            dst@ == start + checklist_text(its.subrange(0, i as int)),
        decreases items@.len() - i,
    {
        assert(its.subrange(0, i + 1).drop_last() =~= its.subrange(0, i as int));
        assert(its.subrange(0, i + 1).last() == (items@[i as int].is_done, items@[i as int].title@));
        if items[i].is_done {
            push_str(dst, "\n- [x] ");
        } else {
            push_str(dst, "\n- [ ] ");
        }
        push_str(dst, items[i].title.as_str());
        proof {
            let mark = if items@[i as int].is_done { "\n- [x] "@ } else { "\n- [ ] "@ };
            assert(dst@ =~= start + (checklist_text(its.subrange(0, i as int)) + mark + items@[i as int].title@));
        }
        i += 1;
    }
    assert(its.subrange(0, items@.len() as int) =~= its);
}

/// Composes the prompt for a claimed task from the agent's identity, the
/// claimed run, the decrypted role instructions, the task's title and its
/// body.
pub fn build_prompt(identity: &GrantedIdentity, claim: &AgentClaim, instructions: &str, title: &str, payload: &TaskText) -> (prompt: String)
    ensures
        prompt@ == spec_prompt(identity.agent_id, claim.run, instructions@, title@, body_text(*payload), task_checklist_text(*payload)),
{
    let mut body: Vec<char> = Vec::new();
    if let Some(blocks) = &payload.rich_text_blocks {
        push_blocks(&mut body, blocks);
    }
    assert(body@ =~= body_text(*payload));
    let mut checklist: Vec<char> = Vec::new();
    if let Some(items) = &payload.checklist {
        push_checklist(&mut checklist, items);
    }
    assert(checklist@ =~= task_checklist_text(*payload));
    let mut m = chars_of("You are the SealTask agent principal ");
    push_uuid(&mut m, identity.agent_id);
    push_str(&mut m, ", running assignment ");
    push_uuid(&mut m, claim.run.delegation_id);
    push_str(&mut m, " as run ");
    push_uuid(&mut m, claim.run.id);
    push_str(&mut m, ".\n\nManaged role instructions (revision ");
    push_signed_decimal(&mut m, claim.run.instructions_revision);
    push_str(&mut m, "):\n");
    push_str(&mut m, instructions);
    push_str(&mut m, "\n\nAssigned task:\nTitle: ");
    push_str(&mut m, title);
    push_str(&mut m, "\n\n");
    m.append(&mut body);
    m.append(&mut checklist);
    push_str(&mut m, "\n\nImplement only this assigned task in the isolated git worktree. Follow repository AGENTS.md instructions, keep changes focused, run proportionate verification, and finish with a concise summary of changes and tests. Do not commit, publish, merge, push, or access unrelated SealTask tasks.");
    string_of(&m)
}

} // verus!
