use crate::auth::{lines, split_lines};
use crate::claim::signed_decimal;
use crate::codec::{uuid_text, uuid_to_string};
use crate::text::{chars_of, decimal, push_decimal, push_str, string_of};
use vstd::prelude::*;

verus! {

/// A checklist entry of a decrypted task.
#[derive(Debug)]
pub struct DocumentChecklistItem {
    pub is_done: bool,
    pub title: String,
}

/// A comment of a decrypted task: when it was written, as RFC 3339 text,
/// and its body when it could be decrypted.
#[derive(Debug)]
pub struct DocumentComment {
    pub created_at: String,
    pub body_markdown: Option<String>,
}

/// What the private document shows of a decrypted task. The two labels
/// are the task's reference (and title) as the client's renderer labels
/// them, and times are RFC 3339 text.
#[derive(Debug)]
pub struct TaskDetail {
    pub id: u128,
    pub reference_title_label: String,
    pub reference_label: String,
    pub title: Option<String>,
    pub work_list_title: Option<String>,
    pub is_completed: bool,
    pub archived: bool,
    pub priority: Option<i64>,
    pub due_at: Option<String>,
    pub body_markdown: Option<String>,
    pub checklist: Option<Vec<DocumentChecklistItem>>,
    pub attachment_file_names: Option<Vec<String>>,
    pub comments: Vec<DocumentComment>,
}

/// The text of an optional value, or `missing`.
pub open spec fn text_or(value: Option<String>, missing: Seq<char>) -> Seq<char> {
    match value {
        Some(v) => v@,
        None => missing,
    }
}

/// The lines of a body, or the single line `missing` when it is absent or
/// empty.
pub open spec fn body_lines(body: Option<String>, missing: Seq<char>) -> Seq<Seq<char>> {
    match body {
        Some(b) => if b@.len() > 0 { lines(b@) } else { seq![missing] },
        None => seq![missing],
    }
}

/// The lines that describe a task before its body.
pub open spec fn header_lines(d: TaskDetail) -> Seq<Seq<char>> {
    seq![
        "Title: "@ + text_or(d.title, "<unreadable title>"@),
        "Reference: "@ + d.reference_label@,
        "ID: "@ + uuid_text(d.id),
        "Project: "@ + text_or(d.work_list_title, "<unreadable project>"@),
        "Status: "@ + (if d.is_completed { "completed"@ } else { "open"@ }) + (if d.archived { " · archived"@ } else { Seq::empty() }),
        "Priority: "@ + match d.priority {
            Some(p) => signed_decimal(p as int),
            None => "none"@,
        },
        "Due: "@ + text_or(d.due_at, "none"@),
        Seq::empty(),
        "Description"@
    ]
}

/// The checklist lines of a task.
pub open spec fn checklist_lines(items: Seq<DocumentChecklistItem>) -> Seq<Seq<char>> {
    items.map_values(|i: DocumentChecklistItem| (if i.is_done { "[x] "@ } else { "[ ] "@ }) + i.title@)
}

/// The lines of each comment in turn: when it was written, then its body.
pub open spec fn comment_lines(comments: Seq<DocumentComment>) -> Seq<Seq<char>>
    decreases comments.len(),
{
    if comments.len() == 0 {
        Seq::empty()
    } else {
        let c = comments.last();
        comment_lines(comments.drop_last()) + seq!["— "@ + c.created_at@] + body_lines(c.body_markdown, "<unreadable comment>"@)
    }
}

/// The private document of a decrypted task: its header, description,
/// checklist, comments and attachments, each section only when it has
/// entries.
pub open spec fn document_lines(d: TaskDetail) -> Seq<Seq<char>> {
    header_lines(d) + body_lines(d.body_markdown, "<none>"@)
        + match d.checklist {
            Some(items) => if items@.len() > 0 {
                seq![Seq::empty(), "Checklist"@] + checklist_lines(items@)
            } else {
                Seq::empty()
            },
            None => Seq::empty(),
        }
        + if d.comments@.len() > 0 {
            seq![Seq::empty(), "Comments ("@ + decimal(d.comments@.len()) + ")"@] + comment_lines(d.comments@)
        } else {
            Seq::empty()
        }
        + match d.attachment_file_names {
            Some(names) => if names@.len() > 0 {
                seq![Seq::empty(), "Attachments ("@ + decimal(names@.len()) + ")"@]
                    + names@.map_values(|n: String| "• "@ + n@)
            } else {
                Seq::empty()
            },
            None => Seq::empty(),
        }
}

/// The text of each line.
pub open spec fn line_texts(v: Seq<String>) -> Seq<Seq<char>> {
    v.map_values(|s: String| s@)
}

fn push_line(out: &mut Vec<String>, line: Vec<char>)
    ensures
        line_texts(final(out)@) == line_texts(old(out)@).push(line@),
{
    out.push(string_of(&line));
    assert(line_texts(out@) =~= line_texts(old(out)@).push(line@));
}

fn push_body(out: &mut Vec<String>, body: &Option<String>, missing: &str)
    ensures
        line_texts(final(out)@) == line_texts(old(out)@) + body_lines(*body, missing@),
{
    let ghost start = line_texts(out@);
    match body {
        Some(b) => {
            let ls = split_lines(b.as_str());
            let text = chars_of(b.as_str());
            if text.len() > 0 {
                let mut i: usize = 0;
                while i < ls.len()
                    invariant
                        i <= ls@.len(),
                        ls@.len() == lines(b@).len(),
                        forall|j: int| 0 <= j < ls@.len() ==> #[trigger] ls@[j]@ == lines(b@)[j],
                        line_texts(out@) == start + lines(b@).subrange(0, i as int),
                    decreases ls@.len() - i,
                {
                    let line = ls[i].clone();
                    push_line(out, line);
                    assert(lines(b@).subrange(0, i + 1) =~= lines(b@).subrange(0, i as int).push(lines(b@)[i as int]));
                    i += 1;
                }
                assert(lines(b@).subrange(0, ls@.len() as int) =~= lines(b@));
            } else {
                push_line(out, chars_of(missing));
                assert(seq![missing@] =~= Seq::<Seq<char>>::empty().push(missing@));
            }
        },
        None => {
            push_line(out, chars_of(missing));
            assert(seq![missing@] =~= Seq::<Seq<char>>::empty().push(missing@));
        },
    }
}

fn text_or_missing(value: &Option<String>, missing: &str) -> (r: Vec<char>)
    ensures
        r@ == text_or(*value, missing@),
{
    match value {
        Some(v) => chars_of(v.as_str()),
        None => chars_of(missing),
    }
}

fn prefixed(prefix: &str, text: Vec<char>) -> (r: Vec<char>)
    ensures
        r@ == prefix@ + text@,
{
    let mut r = chars_of(prefix);
    let mut t = text;
    r.append(&mut t);
    r
}

/// The title and lines of the private document that `browse` shows for a
/// decrypted task.
pub fn private_task_document(detail: &TaskDetail) -> (r: (String, Vec<String>))
    ensures
        r.0@ == "Task · "@ + detail.reference_title_label@,
        line_texts(r.1@) == document_lines(*detail),
{
    let title = string_of(&prefixed("Task · ", chars_of(detail.reference_title_label.as_str())));
    let mut out: Vec<String> = Vec::new();
    push_line(&mut out, prefixed("Title: ", text_or_missing(&detail.title, "<unreadable title>")));
    push_line(&mut out, prefixed("Reference: ", chars_of(detail.reference_label.as_str())));
    push_line(&mut out, prefixed("ID: ", chars_of(uuid_to_string(detail.id).as_str())));
    push_line(&mut out, prefixed("Project: ", text_or_missing(&detail.work_list_title, "<unreadable project>")));
    let mut status = chars_of("Status: ");
    push_str(&mut status, if detail.is_completed { "completed" } else { "open" });
    if detail.archived {
        push_str(&mut status, " · archived");
    } else {
        assert(status@ =~= status@ + Seq::<char>::empty());
    }
    push_line(&mut out, status);
    let mut priority = chars_of("Priority: ");
    match detail.priority {
        Some(p) => {
            if p < 0 {
                priority.push('-');
                push_decimal(&mut priority, (0i128 - p as i128) as u64);
                proof { reveal_strlit("-"); }
                assert(priority@ =~= "Priority: "@ + signed_decimal(p as int));
            } else {
                push_decimal(&mut priority, p as u64);
            }
        },
        None => push_str(&mut priority, "none"),
    }
    push_line(&mut out, priority);
    push_line(&mut out, prefixed("Due: ", text_or_missing(&detail.due_at, "none")));
    push_line(&mut out, Vec::new());
    push_line(&mut out, chars_of("Description"));
    assert(line_texts(out@) =~= header_lines(*detail));
    push_body(&mut out, &detail.body_markdown, "<none>");
    let ghost after_body = line_texts(out@);

    if let Some(items) = &detail.checklist {
        if items.len() > 0 {
            push_line(&mut out, Vec::new());
            push_line(&mut out, chars_of("Checklist"));
            let ghost start = line_texts(out@);
            let mut i: usize = 0;
            while i < items.len()
                invariant
                    i <= items@.len(),
                    line_texts(out@) == start + checklist_lines(items@).subrange(0, i as int),
                decreases items@.len() - i,
            {
                let mark = if items[i].is_done { "[x] " } else { "[ ] " };
                push_line(&mut out, prefixed(mark, chars_of(items[i].title.as_str())));
                assert(checklist_lines(items@).subrange(0, i + 1) =~= checklist_lines(items@).subrange(0, i as int).push(checklist_lines(items@)[i as int]));
                i += 1;
            }
            assert(checklist_lines(items@).subrange(0, items@.len() as int) =~= checklist_lines(items@));
        }
    }
    let ghost after_checklist = line_texts(out@);
    assert(after_checklist =~= after_body + match detail.checklist {
        Some(items) => if items@.len() > 0 {
            seq![Seq::empty(), "Checklist"@] + checklist_lines(items@)
        } else {
            Seq::empty()
        },
        None => Seq::empty(),
    });

    if detail.comments.len() > 0 {
        push_line(&mut out, Vec::new());
        let mut heading = chars_of("Comments (");
        push_decimal(&mut heading, detail.comments.len() as u64);
        push_str(&mut heading, ")");
        push_line(&mut out, heading);
        let ghost start = line_texts(out@);
        let mut i: usize = 0;
        while i < detail.comments.len()
            invariant
                i <= detail.comments@.len(),
                line_texts(out@) == start + comment_lines(detail.comments@.subrange(0, i as int)),
            decreases detail.comments@.len() - i,
        {
            let comment = &detail.comments[i];
            push_line(&mut out, prefixed("— ", chars_of(comment.created_at.as_str())));
            push_body(&mut out, &comment.body_markdown, "<unreadable comment>");
            let ghost next = detail.comments@.subrange(0, i + 1);
            assert(next.drop_last() =~= detail.comments@.subrange(0, i as int));
            assert(next.last() == detail.comments@[i as int]);
            assert(line_texts(out@) =~= start + comment_lines(next));
            i += 1;
        }
        assert(detail.comments@.subrange(0, detail.comments@.len() as int) =~= detail.comments@);
    }
    let ghost after_comments = line_texts(out@);
    assert(after_comments =~= after_checklist + if detail.comments@.len() > 0 {
        seq![Seq::empty(), "Comments ("@ + decimal(detail.comments@.len()) + ")"@] + comment_lines(detail.comments@)
    } else {
        Seq::empty()
    });

    if let Some(names) = &detail.attachment_file_names {
        if names.len() > 0 {
            push_line(&mut out, Vec::new());
            let mut heading = chars_of("Attachments (");
            push_decimal(&mut heading, names.len() as u64);
            push_str(&mut heading, ")");
            push_line(&mut out, heading);
            let ghost start = line_texts(out@);
            let ghost shown = names@.map_values(|n: String| "• "@ + n@);
            let mut i: usize = 0;
            while i < names.len()
                invariant
                    i <= names@.len(),
                    shown == names@.map_values(|n: String| "• "@ + n@),
                    line_texts(out@) == start + shown.subrange(0, i as int),
                decreases names@.len() - i,
            {
                push_line(&mut out, prefixed("• ", chars_of(names[i].as_str())));
                assert(shown.subrange(0, i + 1) =~= shown.subrange(0, i as int).push(shown[i as int]));
                i += 1;
            }
            assert(shown.subrange(0, names@.len() as int) =~= shown);
        }
    }
    (title, out)
}

} // verus!
