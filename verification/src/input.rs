use crate::checkpoint::{is_ascii_alphanumeric, ascii_alphanumeric_char, BATCH_SCHEMA_VERSION};
use crate::codec::{hex, hex_digest, parse_uuid, sha256, sha256_digest, uuid_parse, zeroize_sensitive_string};
use crate::error::{CliError, PublicError};
use crate::text::{chars_of, decimal, push_decimal, push_str, string_of, trim, trim_chars};
use vstd::prelude::*;
use vstd::string::StringSliceAdditionalSpecFns;

verus! {

/// Longest batch input line, newline included, in bytes.
pub const MAX_LINE_BYTES: usize = 4194304;

/// Largest batch input, in bytes.
pub const MAX_INPUT_BYTES: usize = 67108864;

/// Most operations one batch may hold.
pub const MAX_OPERATIONS: usize = 10000;

/// Longest operation identifier, in bytes.
pub const MAX_OPERATION_ID_BYTES: usize = 128;

/// `batch input line N`, the start of every message about one input line.
pub open spec fn line_prefix(line_number: usize) -> Seq<char> {
    "batch input line "@ + decimal(line_number as nat)
}

/// A validation error about input line `line_number`.
pub fn line_error(line_number: usize, rest: &str) -> (e: CliError)
    ensures
        e.code@ == "validation"@,
        e.exit_code == 1,
        e.message@ == line_prefix(line_number) + rest@,
{
    let mut m = chars_of("batch input line ");
    push_decimal(&mut m, line_number as u64);
    push_str(&mut m, rest);
    CliError::from_public(PublicError::validation(string_of(&m)))
}

/// A validation error with `message`.
pub fn public_validation(message: String) -> (e: CliError)
    ensures
        e.code@ == "validation"@,
        e.exit_code == 1,
        e.message@ == message@,
{
    CliError::from_public(PublicError::validation(message))
}

/// A character allowed in operation identifiers and idempotency keys.
pub open spec fn is_token_char(c: char) -> bool {
    is_ascii_alphanumeric(c) || c == '-' || c == '_' || c == '.' || c == ':'
}

/// One to 128 ASCII letters, digits, `.`, `_`, `:` or `-`.
pub open spec fn is_token(s: Seq<char>) -> bool {
    1 <= s.len() <= 128 && forall|i: int| 0 <= i < s.len() ==> #[trigger] is_token_char(s[i])
}

/// Whether `value` is one to 128 token characters.
pub fn token_ok(value: &str) -> (r: bool)
    ensures
        r == is_token(value@),
{
    let chars = chars_of(value);
    if chars.len() == 0 || chars.len() > 128 {
        return false;
    }
    let mut i: usize = 0;
    while i < chars.len()
        invariant
            i <= chars.len(),
            chars@ == value@,
            forall|j: int| 0 <= j < i ==> #[trigger] is_token_char(chars@[j]),
        decreases chars.len() - i,
    {
        let c = chars[i];
        if !(ascii_alphanumeric_char(c) || c == '-' || c == '_' || c == '.' || c == ':') {
            assert(!is_token_char(chars@[i as int]));
            return false;
        }
        i += 1;
    }
    true
}

/// Checks an operation identifier: one to 128 ASCII letters, digits, `.`,
/// `_`, `:` or `-`.
pub fn validate_operation_id(value: &str, line_number: usize) -> (r: Result<(), CliError>)
    ensures
        r is Ok <==> is_token(value@),
        r matches Err(e) ==> e.code@ == "validation"@ && e.exit_code == 1 && e.message@ == line_prefix(line_number)
            + " operationId must contain 1 to 128 ASCII letters, digits, '.', '_', ':', or '-'"@,
{
    if !token_ok(value) {
        return Err(line_error(line_number, " operationId must contain 1 to 128 ASCII letters, digits, '.', '_', ':', or '-'"));
    }
    Ok(())
}

/// Checks an explicit idempotency key: one to 128 ASCII letters, digits,
/// `.`, `_`, `:` or `-`.
pub fn validate_idempotency_key(value: &str, line_number: usize) -> (r: Result<(), CliError>)
    ensures
        r is Ok <==> is_token(value@),
        r matches Err(e) ==> e.code@ == "validation"@ && e.exit_code == 1 && e.message@ == line_prefix(line_number)
            + " idempotencyKey must contain 1 to 128 ASCII letters, digits, '.', '_', ':', or '-'"@,
{
    if !token_ok(value) {
        return Err(line_error(line_number, " idempotencyKey must contain 1 to 128 ASCII letters, digits, '.', '_', ':', or '-'"));
    }
    Ok(())
}

/// A task priority is absent or one of 1, 3, 5 and 8.
pub open spec fn valid_priority(priority: Option<i8>) -> bool {
    match priority {
        Some(p) => p == 1 || p == 3 || p == 5 || p == 8,
        None => true,
    }
}

/// Checks a task priority.
pub fn validate_priority(priority: Option<i8>, line_number: usize) -> (r: Result<(), CliError>)
    ensures
        r is Ok <==> valid_priority(priority),
        r matches Err(e) ==> e.code@ == "validation"@ && e.exit_code == 1 && e.message@ == line_prefix(line_number)
            + " priority must be one of 1, 3, 5, or 8"@,
{
    if let Some(p) = priority {
        if !(p == 1 || p == 3 || p == 5 || p == 8) {
            return Err(line_error(line_number, " priority must be one of 1, 3, 5, or 8"));
        }
    }
    Ok(())
}

/// A string held by batch input that may carry a secret: it is wiped by
/// `zeroize` once it is no longer needed.
pub struct SensitiveString {
    value: String,
}

impl View for SensitiveString {
    type V = Seq<char>;

    closed spec fn view(&self) -> Seq<char> {
        self.value@
    }
}

impl SensitiveString {
    /// Holds `value`.
    pub fn new(value: String) -> (s: Self)
        ensures
            s@ == value@,
    {
        SensitiveString { value }
    }

    /// The held text.
    pub fn as_str(&self) -> (s: &str)
        ensures
            s@ == self@,
    {
        self.value.as_str()
    }

    /// Gives up the held text.
    pub fn into_inner(self) -> (s: String)
        ensures
            s@ == self@,
    {
        self.value
    }

    /// Overwrites the held text and leaves it empty.
    pub fn zeroize(&mut self)
        ensures
            final(self)@ == Seq::<char>::empty(),
    {
        zeroize_sensitive_string(&mut self.value);
    }
}

/// A checklist entry of a task in batch input.
pub struct WireChecklistItem {
    pub id: SensitiveString,
    pub title: SensitiveString,
    pub is_done: bool,
    pub completed_at: Option<i64>,
    pub assignee_user_ids: Option<Vec<SensitiveString>>,
}

/// The views of sensitive strings.
pub open spec fn texts(v: Seq<SensitiveString>) -> Seq<Seq<char>> {
    v.map_values(|s: SensitiveString| s@)
}

/// What validation reads of a checklist entry: its identifier, its title
/// and its assignees.
pub open spec fn item_parts(item: WireChecklistItem) -> (Seq<char>, Seq<char>, Option<Seq<Seq<char>>>) {
    (item.id@, item.title@, match item.assignee_user_ids {
        Some(a) => Some(texts(a@)),
        None => None,
    })
}

/// `checklist[i]`, the start of messages about one checklist entry.
pub open spec fn item_prefix(line_number: usize, index: int) -> Seq<char> {
    line_prefix(line_number) + " checklist["@ + decimal(index as nat) + "]"@
}

/// The first problem among assignees `j..` of entry `index`, given the
/// identifiers already seen.
pub open spec fn assignee_error(a: Seq<Seq<char>>, j: int, seen: Seq<u128>, line_number: usize, index: int) -> Option<Seq<char>>
    decreases a.len() - j,
{
    if j >= a.len() || j < 0 {
        None
    } else {
        match uuid_parse(a[j]) {
            None => Some(item_prefix(line_number, index) + ".assignee_user_ids["@ + decimal(j as nat) + "] must be a UUID"@),
            Some(id) => if seen.contains(id) {
                Some(item_prefix(line_number, index) + ".assignee_user_ids["@ + decimal(j as nat) + "] is duplicated"@)
            } else {
                assignee_error(a, j + 1, seen.push(id), line_number, index)
            },
        }
    }
}

/// The first problem among checklist entries `i..`, given the entry
/// identifiers already seen.
pub open spec fn item_error(items: Seq<(Seq<char>, Seq<char>, Option<Seq<Seq<char>>>)>, i: int, seen: Seq<u128>, line_number: usize) -> Option<Seq<char>>
    decreases items.len() - i,
{
    if i >= items.len() || i < 0 {
        None
    } else {
        let (id_text, title, assignees) = items[i];
        match uuid_parse(id_text) {
            None => Some(item_prefix(line_number, i) + ".id must be a UUID"@),
            Some(id) => if seen.contains(id) {
                Some(item_prefix(line_number, i) + ".id is duplicated"@)
            } else if !(1 <= trim(title).len() <= 1024) {
                Some(item_prefix(line_number, i) + ".title must contain 1 to 1024 characters"@)
            } else {
                match assignees {
                    Some(a) if a.len() > 16 => Some(item_prefix(line_number, i) + " cannot exceed 16 assignees"@),
                    Some(a) if assignee_error(a, 0, Seq::empty(), line_number, i) is Some =>
                        assignee_error(a, 0, Seq::empty(), line_number, i),
                    _ => item_error(items, i + 1, seen.push(id), line_number),
                }
            },
        }
    }
}

/// The first problem of a checklist: more than 200 entries, or an entry
/// whose identifier is not a fresh UUID, whose trimmed title is empty or
/// longer than 1024 characters, or whose assignees are more than 16 or not
/// distinct UUIDs.
pub open spec fn spec_checklist_error(items: Seq<WireChecklistItem>, line_number: usize) -> Option<Seq<char>> {
    if items.len() > 200 {
        Some(line_prefix(line_number) + " checklist cannot exceed 200 entries"@)
    } else {
        item_error(items.map_values(|it: WireChecklistItem| item_parts(it)), 0, Seq::empty(), line_number)
    }
}

/// Whether `id` is among `seen`.
pub fn seen_before(seen: &Vec<u128>, id: u128) -> (r: bool)
    ensures
        r == seen@.contains(id),
{
    let mut i: usize = 0;
    while i < seen.len()
        invariant
            i <= seen@.len(),
            forall|j: int| 0 <= j < i ==> seen@[j] != id,
        decreases seen@.len() - i,
    {
        if seen[i] == id {
            assert(seen@[i as int] == id);
            return true;
        }
        i += 1;
    }
    false
}

/// A message about entry `index`: its prefix, a middle part, and for
/// assignees their position.
pub fn item_message(line_number: usize, index: usize, rest: &str) -> (e: CliError)
    ensures
        e.code@ == "validation"@,
        e.exit_code == 1,
        e.message@ == item_prefix(line_number, index as int) + rest@,
{
    let mut m = chars_of("batch input line ");
    push_decimal(&mut m, line_number as u64);
    push_str(&mut m, " checklist[");
    push_decimal(&mut m, index as u64);
    push_str(&mut m, "]");
    push_str(&mut m, rest);
    public_validation(string_of(&m))
}

/// A message about assignee `j` of entry `index`.
pub fn assignee_message(line_number: usize, index: usize, j: usize, rest: &str) -> (e: CliError)
    ensures
        e.code@ == "validation"@,
        e.exit_code == 1,
        e.message@ == item_prefix(line_number, index as int) + ".assignee_user_ids["@ + decimal(j as nat) + rest@,
{
    let mut m = chars_of("batch input line ");
    push_decimal(&mut m, line_number as u64);
    push_str(&mut m, " checklist[");
    push_decimal(&mut m, index as u64);
    push_str(&mut m, "]");
    push_str(&mut m, ".assignee_user_ids[");
    push_decimal(&mut m, j as u64);
    push_str(&mut m, rest);
    public_validation(string_of(&m))
}

proof fn lemma_assignee_error_step(a: Seq<Seq<char>>, j: int, seen: Seq<u128>, line_number: usize, index: int)
    requires
        0 <= j < a.len(),
    ensures
        assignee_error(a, j, seen, line_number, index) == match uuid_parse(a[j]) {
            None => Some(item_prefix(line_number, index) + ".assignee_user_ids["@ + decimal(j as nat) + "] must be a UUID"@),
            Some(id) => if seen.contains(id) {
                Some(item_prefix(line_number, index) + ".assignee_user_ids["@ + decimal(j as nat) + "] is duplicated"@)
            } else {
                assignee_error(a, j + 1, seen.push(id), line_number, index)
            },
        },
{
}

/// Checks the assignees of checklist entry `index`.
pub fn validate_assignees(assignees: &Vec<SensitiveString>, line_number: usize, index: usize) -> (r: Result<(), CliError>)
    ensures
        match (if assignees@.len() > 16 {
            Some(item_prefix(line_number, index as int) + " cannot exceed 16 assignees"@)
        } else {
            assignee_error(texts(assignees@), 0, Seq::empty(), line_number, index as int)
        }) {
            None => r is Ok,
            Some(m) => r matches Err(e) && e.code@ == "validation"@ && e.exit_code == 1 && e.message@ == m,
        },
{
    if assignees.len() > 16 {
        return Err(item_message(line_number, index, " cannot exceed 16 assignees"));
    }
    let ghost a = texts(assignees@);
    let mut seen: Vec<u128> = Vec::new();
    let mut j: usize = 0;
    while j < assignees.len()
        invariant
            j <= assignees@.len(),
            assignees@.len() <= 16,
            a == texts(assignees@),
            assignee_error(a, 0, Seq::empty(), line_number, index as int)
                == assignee_error(a, j as int, seen@, line_number, index as int),
        decreases assignees@.len() - j,
    {
        proof { lemma_assignee_error_step(a, j as int, seen@, line_number, index as int); }
        assert(a[j as int] == assignees@[j as int]@);
        match parse_uuid(assignees[j].as_str()) {
            None => return Err(assignee_message(line_number, index, j, "] must be a UUID")),
            Some(id) => {
                if seen_before(&seen, id) {
                    return Err(assignee_message(line_number, index, j, "] is duplicated"));
                }
                seen.push(id);
            },
        }
        j += 1;
    }
    Ok(())
}

proof fn lemma_item_error_step(items: Seq<(Seq<char>, Seq<char>, Option<Seq<Seq<char>>>)>, i: int, seen: Seq<u128>, line_number: usize)
    requires
        0 <= i < items.len(),
    ensures
        item_error(items, i, seen, line_number) == ({
            let (id_text, title, assignees) = items[i];
            match uuid_parse(id_text) {
                None => Some(item_prefix(line_number, i) + ".id must be a UUID"@),
                Some(id) => if seen.contains(id) {
                    Some(item_prefix(line_number, i) + ".id is duplicated"@)
                } else if !(1 <= trim(title).len() <= 1024) {
                    Some(item_prefix(line_number, i) + ".title must contain 1 to 1024 characters"@)
                } else {
                    match assignees {
                        Some(a) if a.len() > 16 => Some(item_prefix(line_number, i) + " cannot exceed 16 assignees"@),
                        Some(a) if assignee_error(a, 0, Seq::empty(), line_number, i) is Some =>
                            assignee_error(a, 0, Seq::empty(), line_number, i),
                        _ => item_error(items, i + 1, seen.push(id), line_number),
                    }
                },
            }
        }),
{
}

/// Checks a task's checklist.
pub fn validate_checklist(items: &Vec<WireChecklistItem>, line_number: usize) -> (r: Result<(), CliError>)
    ensures
        match spec_checklist_error(items@, line_number) {
            None => r is Ok,
            Some(m) => r matches Err(e) && e.code@ == "validation"@ && e.exit_code == 1 && e.message@ == m,
        },
{
    if items.len() > 200 {
        return Err(line_error(line_number, " checklist cannot exceed 200 entries"));
    }
    let ghost parts = items@.map_values(|it: WireChecklistItem| item_parts(it));
    let mut seen: Vec<u128> = Vec::new();
    let mut i: usize = 0;
    while i < items.len()
        invariant
            i <= items@.len(),
            items@.len() <= 200,
            parts == items@.map_values(|it: WireChecklistItem| item_parts(it)),
            item_error(parts, 0, Seq::empty(), line_number) == item_error(parts, i as int, seen@, line_number),
        decreases items@.len() - i,
    {
        proof { lemma_item_error_step(parts, i as int, seen@, line_number); }
        let item = &items[i];
        assert(parts[i as int] == item_parts(*item));
        let id = match parse_uuid(item.id.as_str()) {
            None => return Err(item_message(line_number, i, ".id must be a UUID")),
            Some(id) => id,
        };
        if seen_before(&seen, id) {
            return Err(item_message(line_number, i, ".id is duplicated"));
        }
        let title = trim_chars(&chars_of(item.title.as_str()));
        if title.len() < 1 || title.len() > 1024 {
            return Err(item_message(line_number, i, ".title must contain 1 to 1024 characters"));
        }
        if let Some(assignees) = &item.assignee_user_ids {
            validate_assignees(assignees, line_number, i)?;
        }
        seen.push(id);
        i += 1;
    }
    Ok(())
}


/// A field of a task update: left as it is, set, or cleared.
pub enum WirePatch<T> {
    Unchanged,
    SetTo(T),
    Clear,
}

impl<T> WirePatch<T> {
    /// Whether the field is left as it is.
    pub fn is_unchanged(&self) -> (r: bool)
        ensures
            r == self is Unchanged,
    {
        match self {
            WirePatch::Unchanged => true,
            _ => false,
        }
    }
}

/// The input of a `task.create` operation. Times are nanoseconds since the
/// Unix epoch; identifiers are UUIDs.
pub struct WireTaskCreateInput {
    pub title: SensitiveString,
    pub body: Option<SensitiveString>,
    pub checklist: Option<Vec<WireChecklistItem>>,
    pub priority: Option<i8>,
    pub due_at: Option<i128>,
    pub start_at: Option<i128>,
    pub section_id: Option<u128>,
    pub idempotency_key: Option<SensitiveString>,
}

/// The input of a `task.update` operation.
pub struct WireTaskUpdateInput {
    pub title: Option<SensitiveString>,
    pub body: WirePatch<SensitiveString>,
    pub checklist: WirePatch<Vec<WireChecklistItem>>,
    pub priority: WirePatch<i8>,
    pub due_at: WirePatch<i128>,
    pub start_at: WirePatch<i128>,
    pub section_id: WirePatch<u128>,
}

/// Why a create input is invalid, if it is.
pub open spec fn spec_create_error(input: WireTaskCreateInput, line_number: usize) -> Option<Seq<char>> {
    if trim(input.title@).len() == 0 {
        Some(line_prefix(line_number) + " task.create title is required"@)
    } else if !valid_priority(input.priority) {
        Some(line_prefix(line_number) + " priority must be one of 1, 3, 5, or 8"@)
    } else if (input.idempotency_key matches Some(k) && !is_token(k@)) {
        Some(line_prefix(line_number) + " idempotencyKey must contain 1 to 128 ASCII letters, digits, '.', '_', ':', or '-'"@)
    } else {
        match input.checklist {
            Some(items) => spec_checklist_error(items@, line_number),
            None => None,
        }
    }
}

/// Checks the input of a `task.create` operation.
pub fn validate_create_input(input: &WireTaskCreateInput, line_number: usize) -> (r: Result<(), CliError>)
    ensures
        match spec_create_error(*input, line_number) {
            None => r is Ok,
            Some(m) => r matches Err(e) && e.code@ == "validation"@ && e.exit_code == 1 && e.message@ == m,
        },
{
    let title = trim_chars(&chars_of(input.title.as_str()));
    if title.len() == 0 {
        return Err(line_error(line_number, " task.create title is required"));
    }
    validate_priority(input.priority, line_number)?;
    if let Some(key) = &input.idempotency_key {
        validate_idempotency_key(key.as_str(), line_number)?;
    }
    if let Some(items) = &input.checklist {
        return validate_checklist(items, line_number);
    }
    Ok(())
}

/// Whether an update changes at least one field.
pub open spec fn has_change(input: WireTaskUpdateInput) -> bool {
    input.title is Some || !(input.body is Unchanged) || !(input.checklist is Unchanged)
        || !(input.priority is Unchanged) || !(input.due_at is Unchanged)
        || !(input.start_at is Unchanged) || !(input.section_id is Unchanged)
}

/// An update changes something as soon as any one field is given: a
/// title, or a body, checklist, priority, due date, start date or section
/// that is set or cleared. Only an update that leaves all seven fields
/// alone is refused as changing nothing.
pub proof fn lemma_update_changes_any_given_field(input: WireTaskUpdateInput, line_number: usize)
    ensures
        input.title is Some ==> has_change(input),
        !(input.body is Unchanged) ==> has_change(input),
        !(input.checklist is Unchanged) ==> has_change(input),
        !(input.priority is Unchanged) ==> has_change(input),
        !(input.due_at is Unchanged) ==> has_change(input),
        !(input.start_at is Unchanged) ==> has_change(input),
        !(input.section_id is Unchanged) ==> has_change(input),
        (input.title is None && input.body is Unchanged && input.checklist is Unchanged && input.priority is Unchanged
            && input.due_at is Unchanged && input.start_at is Unchanged && input.section_id is Unchanged)
            ==> spec_update_error(input, line_number) == Some(line_prefix(line_number)
            + " task.update must change at least one field"@),
{
}

/// Why an update input is invalid, if it is.
pub open spec fn spec_update_error(input: WireTaskUpdateInput, line_number: usize) -> Option<Seq<char>> {
    if !has_change(input) {
        Some(line_prefix(line_number) + " task.update must change at least one field"@)
    } else if (input.title matches Some(t) && trim(t@).len() == 0) {
        Some(line_prefix(line_number) + " task.update title cannot be empty"@)
    } else if (input.priority matches WirePatch::SetTo(p) && !valid_priority(Some(p))) {
        Some(line_prefix(line_number) + " priority must be one of 1, 3, 5, or 8"@)
    } else {
        match input.checklist {
            WirePatch::SetTo(items) => spec_checklist_error(items@, line_number),
            _ => None,
        }
    }
}

/// Checks the input of a `task.update` operation.
pub fn validate_update_input(input: &WireTaskUpdateInput, line_number: usize) -> (r: Result<(), CliError>)
    ensures
        match spec_update_error(*input, line_number) {
            None => r is Ok,
            Some(m) => r matches Err(e) && e.code@ == "validation"@ && e.exit_code == 1 && e.message@ == m,
        },
{
    let changes = input.title.is_some() || !input.body.is_unchanged() || !input.checklist.is_unchanged()
        || !input.priority.is_unchanged() || !input.due_at.is_unchanged()
        || !input.start_at.is_unchanged() || !input.section_id.is_unchanged();
    if !changes {
        return Err(line_error(line_number, " task.update must change at least one field"));
    }
    if let Some(title) = &input.title {
        let trimmed = trim_chars(&chars_of(title.as_str()));
        if trimmed.len() == 0 {
            return Err(line_error(line_number, " task.update title cannot be empty"));
        }
    }
    if let WirePatch::SetTo(priority) = input.priority {
        validate_priority(Some(priority), line_number)?;
    }
    if let WirePatch::SetTo(items) = &input.checklist {
        return validate_checklist(items, line_number);
    }
    Ok(())
}

/// How a batch operation names its project or task: by exact identifier
/// or by another reference, as the selector syntax parsed it.
#[derive(Debug)]
pub struct EntitySelector {
    pub exact_id: Option<u128>,
    pub reference: String,
}

/// Why a parsed selector cannot be used, if it cannot: `parsed` is the
/// selector or the parser's message.
pub open spec fn spec_selector_error(parsed: Result<Option<u128>, Seq<char>>, line_number: usize, field: Seq<char>) -> Option<Seq<char>> {
    match parsed {
        Err(m) => Some(line_prefix(line_number) + " has an invalid "@ + field + " selector: "@ + m),
        Ok(Some(id)) if id == 0 => Some(line_prefix(line_number) + " "@ + field + " selector must not be a nil UUID"@),
        _ => None,
    }
}

/// What validation reads of a selector parse.
pub open spec fn selector_parts(parsed: Result<EntitySelector, String>) -> Result<Option<u128>, Seq<char>> {
    match parsed {
        Ok(s) => Ok(s.exact_id),
        Err(m) => Err(m@),
    }
}

/// Accepts a parsed selector for `field` (`project` or `task`): the parse
/// must have succeeded and must not name the nil UUID.
pub fn parse_selector(parsed: Result<EntitySelector, String>, line_number: usize, field: &str) -> (r: Result<EntitySelector, CliError>)
    ensures
        match spec_selector_error(selector_parts(parsed), line_number, field@) {
            None => r matches Ok(sel) && sel.exact_id == parsed->Ok_0.exact_id && sel.reference@ == parsed->Ok_0.reference@,
            Some(m) => r matches Err(e) && e.code@ == "validation"@ && e.exit_code == 1 && e.message@ == m,
        },
{
    match parsed {
        Err(message) => {
            let mut m = chars_of("batch input line ");
            push_decimal(&mut m, line_number as u64);
            push_str(&mut m, " has an invalid ");
            push_str(&mut m, field);
            push_str(&mut m, " selector: ");
            push_str(&mut m, message.as_str());
            Err(public_validation(string_of(&m)))
        },
        Ok(selector) => {
            if selector.exact_id == Some(0u128) {
                let mut m = chars_of("batch input line ");
                push_decimal(&mut m, line_number as u64);
                push_str(&mut m, " ");
                push_str(&mut m, field);
                push_str(&mut m, " selector must not be a nil UUID");
                return Err(public_validation(string_of(&m)));
            }
            Ok(selector)
        },
    }
}


/// One batch operation as it was read from its input line.
pub enum WireOperation {
    TaskCreate {
        schema_version: u64,
        operation_id: SensitiveString,
        project: SensitiveString,
        input: WireTaskCreateInput,
    },
    TaskUpdate {
        schema_version: u64,
        operation_id: SensitiveString,
        project: SensitiveString,
        task: SensitiveString,
        input: WireTaskUpdateInput,
    },
}

impl WireOperation {
    /// The operation's identifier.
    pub fn operation_id(&self) -> (s: &str)
        ensures
            s@ == match self {
                WireOperation::TaskCreate { operation_id, .. } => operation_id@,
                WireOperation::TaskUpdate { operation_id, .. } => operation_id@,
            },
    {
        match self {
            WireOperation::TaskCreate { operation_id, .. } => operation_id.as_str(),
            WireOperation::TaskUpdate { operation_id, .. } => operation_id.as_str(),
        }
    }

    /// The idempotency key a create names explicitly, if any.
    pub fn explicit_idempotency_key(&self) -> (k: Option<&str>)
        ensures
            match self {
                WireOperation::TaskCreate { input, .. } => match input.idempotency_key {
                    Some(key) => k matches Some(s) && s@ == key@,
                    None => k is None,
                },
                WireOperation::TaskUpdate { .. } => k is None,
            },
    {
        match self {
            WireOperation::TaskCreate { input, .. } => match &input.idempotency_key {
                Some(key) => Some(key.as_str()),
                None => None,
            },
            WireOperation::TaskUpdate { .. } => None,
        }
    }
}

/// Why an operation read from line `line_number` is invalid, if it is;
/// `project` and `task` are its selectors as parsed.
pub open spec fn spec_wire_error(wire: WireOperation, line_number: usize, project: Result<Option<u128>, Seq<char>>, task: Option<Result<Option<u128>, Seq<char>>>) -> Option<Seq<char>> {
    let (schema_version, operation_id) = match wire {
        WireOperation::TaskCreate { schema_version, operation_id, .. } => (schema_version, operation_id@),
        WireOperation::TaskUpdate { schema_version, operation_id, .. } => (schema_version, operation_id@),
    };
    if schema_version != BATCH_SCHEMA_VERSION {
        Some(line_prefix(line_number) + " uses unsupported schemaVersion "@ + decimal(schema_version as nat) + "; expected 1"@)
    } else if !is_token(operation_id) {
        Some(line_prefix(line_number) + " operationId must contain 1 to 128 ASCII letters, digits, '.', '_', ':', or '-'"@)
    } else if spec_selector_error(project, line_number, "project"@) is Some {
        spec_selector_error(project, line_number, "project"@)
    } else if (task matches Some(t) && spec_selector_error(t, line_number, "task"@) is Some) {
        spec_selector_error(task->Some_0, line_number, "task"@)
    } else {
        match wire {
            WireOperation::TaskCreate { input, .. } => spec_create_error(input, line_number),
            WireOperation::TaskUpdate { input, .. } => spec_update_error(input, line_number),
        }
    }
}

/// Checks an operation read from line `line_number`, given its project
/// selector and, for an update, its task selector as parsed. Returns the
/// accepted selectors.
pub fn validate_wire(wire: &WireOperation, line_number: usize, project: Result<EntitySelector, String>, task: Option<Result<EntitySelector, String>>) -> (r: Result<(EntitySelector, Option<EntitySelector>), CliError>)
    requires
        (wire is TaskUpdate) == (task is Some),
    ensures
        match spec_wire_error(*wire, line_number, selector_parts(project), match task {
            Some(t) => Some(selector_parts(t)),
            None => None,
        }) {
            None => r matches Ok((p, t)) && p.exact_id == project->Ok_0.exact_id
                && (task is None ==> t is None)
                && (task is Some ==> (t matches Some(ts) && ts.exact_id == task->Some_0->Ok_0.exact_id)),
            Some(m) => r matches Err(e) && e.code@ == "validation"@ && e.exit_code == 1 && e.message@ == m,
        },
{
    let schema_version = match wire {
        WireOperation::TaskCreate { schema_version, .. } => *schema_version,
        WireOperation::TaskUpdate { schema_version, .. } => *schema_version,
    };
    if schema_version != BATCH_SCHEMA_VERSION {
        let mut m = chars_of("batch input line ");
        push_decimal(&mut m, line_number as u64);
        push_str(&mut m, " uses unsupported schemaVersion ");
        push_decimal(&mut m, schema_version);
        push_str(&mut m, "; expected 1");
        return Err(public_validation(string_of(&m)));
    }
    validate_operation_id(wire.operation_id(), line_number)?;
    let project = parse_selector(project, line_number, "project")?;
    let task = match task {
        Some(t) => Some(parse_selector(t, line_number, "task")?),
        None => None,
    };
    match wire {
        WireOperation::TaskCreate { input, .. } => validate_create_input(input, line_number)?,
        WireOperation::TaskUpdate { input, .. } => validate_update_input(input, line_number)?,
    }
    Ok((project, task))
}

/// The domain that separates operation checkpoint keys from other digests.
pub const OPERATION_KEY_DOMAIN: &'static str = "sealtask.batch.operation.v1\0";

/// The domain that separates explicit idempotency key fingerprints.
pub const IDEMPOTENCY_KEY_DOMAIN: &'static str = "sealtask.batch.idempotency.v1\0";

/// The domain of the canonical batch input digest.
pub const INPUT_DIGEST_DOMAIN: &'static str = "sealtask.batch.input.v1\0";

/// A copy of `a` followed by `b`.
pub fn concat_bytes(a: &[u8], b: &[u8]) -> (r: Vec<u8>)
    ensures
        r@ == a@ + b@,
{
    let mut r: Vec<u8> = Vec::new();
    let mut i: usize = 0;
    while i < a.len()
        invariant
            i <= a@.len(),
            r@ == a@.subrange(0, i as int),
        decreases a@.len() - i,
    {
        r.push(a[i]);
        i += 1;
    }
    let mut j: usize = 0;
    while j < b.len()
        invariant
            j <= b@.len(),
            a@.len() == r@.len() - j,
            r@ == a@ + b@.subrange(0, j as int),
        decreases b@.len() - j,
    {
        r.push(b[j]);
        j += 1;
    }
    assert(a@.subrange(0, a@.len() as int) =~= a@);
    assert(b@.subrange(0, b@.len() as int) =~= b@);
    r
}

/// A fingerprint of a secret value: the hexadecimal SHA-256 of a domain
/// and the value's UTF-8 bytes, so that equal values can be compared
/// without keeping them.
pub fn sensitive_fingerprint(domain: &[u8], value: &str) -> (r: String)
    ensures
        r@ == hex(sha256(domain@ + value.spec_bytes())),
        r@.len() == 64,
{
    let data = concat_bytes(domain, value.as_bytes());
    let digest = sha256_digest(data.as_slice());
    hex_digest(digest.as_slice())
}

/// The checkpoint key of an operation: a domain-separated fingerprint of
/// its identifier.
pub fn operation_key(operation_id: &str) -> (r: String)
    ensures
        r@ == hex(sha256(OPERATION_KEY_DOMAIN.spec_bytes() + operation_id.spec_bytes())),
        r@.len() == 64,
{
    let r = sensitive_fingerprint(OPERATION_KEY_DOMAIN.as_bytes(), operation_id);
    r
}

/// The eight big-endian bytes of `n`.
pub open spec fn be_bytes(n: u64) -> Seq<u8> {
    seq![(n >> 56u64) as u8, (n >> 48u64) as u8, (n >> 40u64) as u8, (n >> 32u64) as u8,
        (n >> 24u64) as u8, (n >> 16u64) as u8, (n >> 8u64) as u8, n as u8]
}

/// The canonical records framed one after another, each after its length
/// as eight big-endian bytes.
pub open spec fn framed(records: Seq<Seq<u8>>) -> Seq<u8>
    decreases records.len(),
{
    if records.len() == 0 {
        Seq::empty()
    } else {
        framed(records.drop_last()) + be_bytes(records.last().len() as u64) + records.last()
    }
}

/// The canonical digest of batch input: SHA-256 over a domain and the
/// framed canonical encoding of each operation, so that input that differs
/// only in JSON whitespace has the same digest.
pub fn canonical_input_sha256(records: &Vec<Vec<u8>>) -> (d: Vec<u8>)
    ensures
        d@ == sha256(INPUT_DIGEST_DOMAIN.spec_bytes() + framed(records@.map_values(|r: Vec<u8>| r@))),
        d@.len() == 32,
{
    let ghost rs = records@.map_values(|r: Vec<u8>| r@);
    let mut data = concat_bytes(INPUT_DIGEST_DOMAIN.as_bytes(), &[]);
    assert(INPUT_DIGEST_DOMAIN.spec_bytes() + Seq::<u8>::empty() =~= INPUT_DIGEST_DOMAIN.spec_bytes());
    let mut i: usize = 0;
    while i < records.len()
        invariant
            i <= records@.len(),
            rs == records@.map_values(|r: Vec<u8>| r@),
            data@ == INPUT_DIGEST_DOMAIN.spec_bytes() + framed(rs.subrange(0, i as int)),
        decreases records@.len() - i,
    {
        let n = records[i].len() as u64;
        let len_bytes = [(n >> 56) as u8, (n >> 48) as u8, (n >> 40) as u8, (n >> 32) as u8,
            (n >> 24) as u8, (n >> 16) as u8, (n >> 8) as u8, n as u8];
        assert(len_bytes@ =~= be_bytes(n));
        let with_len = concat_bytes(data.as_slice(), &len_bytes);
        data = concat_bytes(with_len.as_slice(), records[i].as_slice());
        proof {
            let p = rs.subrange(0, i + 1);
            assert(p.drop_last() =~= rs.subrange(0, i as int));
            assert(p.last() == records@[i as int]@);
            assert(data@ =~= INPUT_DIGEST_DOMAIN.spec_bytes() + framed(rs.subrange(0, i + 1)));
        }
        i += 1;
    }
    assert(rs.subrange(0, records@.len() as int) =~= rs);
    sha256_digest(data.as_slice())
}

/// Batch input held in memory, read one line at a time.
pub struct BatchReader {
    data: Vec<u8>,
    position: usize,
}

/// The length of the line at the start of `s`: through its first newline,
/// or all of `s`.
pub open spec fn line_len(s: Seq<u8>) -> int
    decreases s.len(),
{
    if s.len() == 0 {
        0
    } else if s[0] == 10u8 {
        1
    } else {
        1 + line_len(s.drop_first())
    }
}

proof fn lemma_line_len_bounds(s: Seq<u8>)
    ensures
        0 <= line_len(s) <= s.len(),
        s.len() > 0 ==> line_len(s) >= 1,
    decreases s.len(),
{
    if s.len() > 0 && s[0] != 10u8 {
        lemma_line_len_bounds(s.drop_first());
    }
}

impl BatchReader {
    /// A reader over `data`, at its start.
    pub fn new(data: Vec<u8>) -> (r: Self)
        ensures
            r.wf(),
            r.rest() == data@,
    {
        BatchReader { data, position: 0 }
    }

    /// The position is within the data.
    pub closed spec fn wf(&self) -> bool {
        self.position <= self.data@.len()
    }

    /// What is left to read.
    pub closed spec fn rest(&self) -> Seq<u8> {
        self.data@.subrange(self.position as int, self.data@.len() as int)
    }
}

/// What reading the next line gives: nothing at the end of input, the
/// line's length, or why it is refused: (`true`, ..) for an over-long
/// line, (`false`, ..) for input over its total limit.
pub open spec fn spec_bounded_line(rest: Seq<u8>, total_before_line: usize) -> Result<Option<int>, bool> {
    if rest.len() == 0 {
        Ok(None)
    } else if line_len(rest) > MAX_LINE_BYTES {
        Err(true)
    } else if total_before_line + line_len(rest) > MAX_INPUT_BYTES {
        Err(false)
    } else {
        Ok(Some(line_len(rest)))
    }
}

/// Reads the next line, newline included, onto `line`, within the line
/// and total input limits; returns its length, or `None` at the end of
/// input.
pub fn read_bounded_line(reader: &mut BatchReader, line: &mut Vec<u8>, total_before_line: usize, line_number: usize) -> (r: Result<Option<usize>, CliError>)
    requires
        old(reader).wf(),
    ensures
        final(reader).wf(),
        match spec_bounded_line(old(reader).rest(), total_before_line) {
            Ok(None) => r matches Ok(None) && final(line)@ == old(line)@,
            Ok(Some(n)) => r matches Ok(Some(k)) && k == n && final(line)@ == old(line)@ + old(reader).rest().subrange(0, n)
                && final(reader).rest() == old(reader).rest().subrange(n, old(reader).rest().len() as int),
            Err(true) => r matches Err(e) && e.code@ == "validation"@
                && e.message@ == line_prefix(line_number) + " exceeds the 4194304-byte limit"@,
            Err(false) => r matches Err(e) && e.code@ == "validation"@
                && e.message@ == "batch input exceeds the 67108864-byte limit"@,
        },
        r is Err ==> final(line)@ == old(line)@ && final(reader).rest() == old(reader).rest(),
{
    let ghost rest = reader.rest();
    let start = reader.position;
    let n = reader.data.len();
    if start == n {
        assert(rest =~= Seq::<u8>::empty());
        return Ok(None);
    }
    let mut end = start;
    while end < n && reader.data[end] != 10u8
        invariant
            start <= end <= n,
            n == reader.data@.len(),
            rest == reader.data@.subrange(start as int, n as int),
            line_len(rest) == (end - start) + line_len(reader.data@.subrange(end as int, n as int)),
        decreases n - end,
    {
        assert(reader.data@.subrange(end as int, n as int).drop_first() =~= reader.data@.subrange(end + 1, n as int));
        end += 1;
    }
    if end < n {
        end += 1;
    }
    assert(line_len(rest) == end - start) by {
        if end - 1 < n && end > start && reader.data@[end - 1] == 10u8 {
        }
        assert(reader.data@.subrange(n as int, n as int) =~= Seq::<u8>::empty());
    }
    let length = end - start;
    if length > MAX_LINE_BYTES {
        return Err(line_error(line_number, " exceeds the 4194304-byte limit"));
    }
    let next_total = match total_before_line.checked_add(length) {
        Some(t) => t,
        None => return Err(public_validation(crate::text::owned("batch input exceeds the 67108864-byte limit"))),
    };
    if next_total > MAX_INPUT_BYTES {
        return Err(public_validation(crate::text::owned("batch input exceeds the 67108864-byte limit")));
    }
    let mut k = start;
    let ghost line0 = line@;
    while k < end
        invariant
            start <= k <= end <= n,
            n == reader.data@.len(),
            line@ == line0 + reader.data@.subrange(start as int, k as int),
        decreases end - k,
    {
        line.push(reader.data[k]);
        assert(reader.data@.subrange(start as int, k + 1) =~= reader.data@.subrange(start as int, k as int).push(reader.data@[k as int]));
        k += 1;
    }
    reader.position = end;
    assert(rest.subrange(0, length as int) =~= reader.data@.subrange(start as int, end as int));
    assert(reader.rest() =~= rest.subrange(length as int, rest.len() as int));
    Ok(Some(length))
}


/// An ASCII whitespace byte: space, tab, line feed, form feed or carriage
/// return.
pub open spec fn is_ascii_whitespace_byte(b: u8) -> bool {
    b == 32u8 || b == 9u8 || b == 10u8 || b == 12u8 || b == 13u8
}

/// A line without its line feed, and without a carriage return before it.
pub open spec fn strip_newline(line: Seq<u8>) -> Seq<u8> {
    if line.len() > 0 && line.last() == 10u8 {
        if line.len() > 1 && line.drop_last().last() == 13u8 {
            line.drop_last().drop_last()
        } else {
            line.drop_last()
        }
    } else {
        line
    }
}

/// Every byte is ASCII whitespace.
pub open spec fn blank(line: Seq<u8>) -> bool {
    forall|i: int| 0 <= i < line.len() ==> #[trigger] is_ascii_whitespace_byte(line[i])
}

/// What has been read of a batch so far: how many lines and bytes, the
/// accepted operations, and the identifiers and explicit idempotency key
/// fingerprints seen, which must not repeat.
pub struct BatchReading {
    operation_ids: Vec<Vec<char>>,
    idempotency_fingerprints: Vec<Vec<char>>,
    operations: usize,
    total_bytes: usize,
    line_number: usize,
}

impl BatchReading {
    /// Lines read never outnumber the bytes read, which stay within the
    /// input limit; operations never outnumber lines.
    pub closed spec fn wf(&self) -> bool {
        &&& self.line_number <= self.total_bytes <= MAX_INPUT_BYTES
        &&& self.operations <= MAX_OPERATIONS
        &&& self.operation_ids@.len() == self.operations
    }

    /// Lines read so far.
    pub closed spec fn lines_read(&self) -> nat {
        self.line_number as nat
    }

    /// Bytes read so far.
    pub closed spec fn bytes_read(&self) -> nat {
        self.total_bytes as nat
    }

    /// Operations accepted so far.
    pub closed spec fn accepted(&self) -> nat {
        self.operations as nat
    }

    /// Operation identifiers accepted so far.
    pub closed spec fn seen_ids(&self) -> Seq<Seq<char>> {
        self.operation_ids@.map_values(|v: Vec<char>| v@)
    }

    /// Explicit idempotency key fingerprints accepted so far.
    pub closed spec fn seen_key_fingerprints(&self) -> Seq<Seq<char>> {
        self.idempotency_fingerprints@.map_values(|v: Vec<char>| v@)
    }

    /// Nothing read yet.
    pub fn new() -> (r: Self)
        ensures
            r.wf(),
            r.lines_read() == 0,
            r.bytes_read() == 0,
            r.accepted() == 0,
            r.seen_ids() == Seq::<Seq<char>>::empty(),
            r.seen_key_fingerprints() == Seq::<Seq<char>>::empty(),
    {
        let r = BatchReading { operation_ids: Vec::new(), idempotency_fingerprints: Vec::new(), operations: 0, total_bytes: 0, line_number: 0 };
        assert(r.seen_ids() =~= Seq::<Seq<char>>::empty());
        assert(r.seen_key_fingerprints() =~= Seq::<Seq<char>>::empty());
        r
    }

    /// Reads the next input line for decoding: `None` at the end of input;
    /// an error for an over-long line, input over its limit, a blank line,
    /// or a line beyond the operation limit.
    pub fn next_line(&mut self, reader: &mut BatchReader) -> (r: Result<Option<Vec<u8>>, CliError>)
        requires
            old(self).wf(),
            old(reader).wf(),
        ensures
            final(self).wf(),
            final(reader).wf(),
            final(self).accepted() == old(self).accepted(),
            final(self).seen_ids() == old(self).seen_ids(),
            final(self).seen_key_fingerprints() == old(self).seen_key_fingerprints(),
            match spec_bounded_line(old(reader).rest(), old(self).bytes_read() as usize) {
                Ok(None) => r matches Ok(None) && final(self).lines_read() == old(self).lines_read(),
                Err(true) => r matches Err(e) && e.code@ == "validation"@
                    && e.message@ == line_prefix((old(self).lines_read() + 1) as usize) + " exceeds the 4194304-byte limit"@
                    && final(reader).rest() == old(reader).rest(),
                Err(false) => r matches Err(e) && e.code@ == "validation"@
                    && e.message@ == "batch input exceeds the 67108864-byte limit"@
                    && final(reader).rest() == old(reader).rest(),
                Ok(Some(n)) => {
                    let l = strip_newline(old(reader).rest().subrange(0, n));
                    &&& final(self).lines_read() == old(self).lines_read() + 1
                    &&& final(self).bytes_read() == old(self).bytes_read() + n
                    &&& final(reader).rest() == old(reader).rest().subrange(n, old(reader).rest().len() as int)
                    &&& if blank(l) {
                        r matches Err(e) && e.code@ == "validation"@
                            && e.message@ == line_prefix(final(self).lines_read() as usize) + " is empty"@
                    } else if old(self).accepted() == MAX_OPERATIONS {
                        r matches Err(e) && e.code@ == "validation"@
                            && e.message@ == "batch input exceeds the 10000-operation limit"@
                    } else {
                        r matches Ok(Some(v)) && v@ == l
                    }
                },
            },
    {
        let mut line: Vec<u8> = Vec::new();
        let read = read_bounded_line(reader, &mut line, self.total_bytes, self.line_number + 1)?;
        let n = match read {
            None => return Ok(None),
            Some(n) => n,
        };
        proof { lemma_line_len_bounds(old(reader).rest()); }
        assert(line@ =~= old(reader).rest().subrange(0, n as int));
        self.line_number = self.line_number + 1;
        self.total_bytes = self.total_bytes + n;
        let ghost raw = line@;
        let len = line.len();
        if len > 0 && line[len - 1] == 10u8 {
            line.pop();
            let l2 = line.len();
            if l2 > 0 && line[l2 - 1] == 13u8 {
                line.pop();
            }
        }
        assert(line@ =~= strip_newline(raw));
        let mut all_blank = true;
        let mut i: usize = 0;
        while i < line.len()
            invariant
                i <= line@.len(),
                all_blank == forall|j: int| 0 <= j < i ==> #[trigger] is_ascii_whitespace_byte(line@[j]),
            decreases line@.len() - i,
        {
            let b = line[i];
            if !(b == 32u8 || b == 9u8 || b == 10u8 || b == 12u8 || b == 13u8) {
                assert(!is_ascii_whitespace_byte(line@[i as int]));
                all_blank = false;
            } else {
                assert(is_ascii_whitespace_byte(line@[i as int]));
            }
            i += 1;
        }
        if all_blank {
            return Err(line_error(self.line_number, " is empty"));
        }
        if self.operations == MAX_OPERATIONS {
            return Err(public_validation(crate::text::owned("batch input exceeds the 10000-operation limit")));
        }
        Ok(Some(line))
    }

    /// Accepts the operation decoded from the line last read, or the
    /// column at which decoding failed, together with its selectors as
    /// parsed; the operation must be valid and its identifier and explicit
    /// idempotency key new to the batch.
    pub fn accept(&mut self, decoded: Result<(WireOperation, Result<EntitySelector, String>, Option<Result<EntitySelector, String>>), u64>) -> (r: Result<(WireOperation, EntitySelector, Option<EntitySelector>), CliError>)
        requires
            old(self).wf(),
            old(self).accepted() < MAX_OPERATIONS,
            decoded matches Ok((w, _, t)) ==> (w is TaskUpdate) == (t is Some),
        ensures
            final(self).wf(),
            final(self).lines_read() == old(self).lines_read(),
            final(self).bytes_read() == old(self).bytes_read(),
            match decoded {
                Err(column) => r matches Err(e) && e.code@ == "validation"@
                    && e.message@ == line_prefix(old(self).lines_read() as usize) + " is not a valid strict JSONL v1 operation (column "@
                        + decimal(column as nat) + ")"@,
                Ok((w, p, t)) => match spec_wire_error(w, old(self).lines_read() as usize, selector_parts(p), match t {
                    Some(x) => Some(selector_parts(x)),
                    None => None,
                }) {
                    Some(m) => r matches Err(e) && e.code@ == "validation"@ && e.message@ == m,
                    None => {
                        let id = match w {
                            WireOperation::TaskCreate { operation_id, .. } => operation_id@,
                            WireOperation::TaskUpdate { operation_id, .. } => operation_id@,
                        };
                        let fingerprint = match w {
                            WireOperation::TaskCreate { input, .. } => match input.idempotency_key {
                                Some(k) => Some(hex(sha256(IDEMPOTENCY_KEY_DOMAIN.spec_bytes() + vstd::utf8::encode_utf8(k@)))),
                                None => None,
                            },
                            _ => None,
                        };
                        if (fingerprint matches Some(f) && old(self).seen_key_fingerprints().contains(f)) {
                            r matches Err(e) && e.code@ == "validation"@ && e.message@ == line_prefix(old(self).lines_read() as usize)
                                + " repeats an explicit task.create idempotencyKey"@
                        } else if old(self).seen_ids().contains(id) {
                            r matches Err(e) && e.code@ == "validation"@ && e.message@ == line_prefix(old(self).lines_read() as usize)
                                + " repeats an earlier operationId"@
                        } else {
                            r matches Ok((w2, _, _)) && w2 == w
                                && final(self).accepted() == old(self).accepted() + 1
                                && final(self).seen_ids() == old(self).seen_ids().push(id)
                                && final(self).seen_key_fingerprints() == match fingerprint {
                                    Some(f) => old(self).seen_key_fingerprints().push(f),
                                    None => old(self).seen_key_fingerprints(),
                                }
                        }
                    },
                },
            },
    {
        let line_number = self.line_number;
        let (wire, project, task) = match decoded {
            Err(column) => {
                let mut m = chars_of("batch input line ");
                push_decimal(&mut m, line_number as u64);
                push_str(&mut m, " is not a valid strict JSONL v1 operation (column ");
                push_decimal(&mut m, column);
                push_str(&mut m, ")");
                return Err(public_validation(string_of(&m)));
            },
            Ok(parts) => parts,
        };
        let (project, task) = validate_wire(&wire, line_number, project, task)?;
        if let Some(key) = wire.explicit_idempotency_key() {
            let fingerprint = chars_of(sensitive_fingerprint(IDEMPOTENCY_KEY_DOMAIN.as_bytes(), key).as_str());
            if seen_text(&self.idempotency_fingerprints, &fingerprint) {
                return Err(line_error(line_number, " repeats an explicit task.create idempotencyKey"));
            }
            self.idempotency_fingerprints.push(fingerprint);
        }
        let id = chars_of(wire.operation_id());
        let ghost idv = id@;
        if seen_text(&self.operation_ids, &id) {
            return Err(line_error(line_number, " repeats an earlier operationId"));
        }
        self.operation_ids.push(id);
        self.operations = self.operations + 1;
        proof {
            assert(self.seen_ids() =~= old(self).seen_ids().push(idv));
        }
        Ok((wire, project, task))
    }

    /// A batch must hold at least one operation.
    pub fn finish(&self) -> (r: Result<(), CliError>)
        ensures
            r is Ok <==> self.accepted() > 0,
            r matches Err(e) ==> e.code@ == "validation"@
                && e.message@ == "batch input must contain at least one JSONL operation"@,
    {
        if self.operations == 0 {
            return Err(public_validation(crate::text::owned("batch input must contain at least one JSONL operation")));
        }
        Ok(())
    }
}

/// What accepting a decoded line does: a decoding failure is reported
/// with its column; an invalid operation with its validation error; a
/// repeated explicit idempotency key or operation identifier is refused;
/// otherwise the operation is accepted and remembered.
pub open spec fn accepts(
    before: BatchReading,
    after: BatchReading,
    decoded: Result<(WireOperation, Result<EntitySelector, String>, Option<Result<EntitySelector, String>>), u64>,
    r: Result<(WireOperation, EntitySelector, Option<EntitySelector>), CliError>,
) -> bool {
    match decoded {
        Err(column) => r matches Err(e) && e.code@ == "validation"@
            && e.message@ == line_prefix(before.lines_read() as usize) + " is not a valid strict JSONL v1 operation (column "@
                + decimal(column as nat) + ")"@,
        Ok((w, p, t)) => match spec_wire_error(w, before.lines_read() as usize, selector_parts(p), match t {
            Some(x) => Some(selector_parts(x)),
            None => None,
        }) {
            Some(m) => r matches Err(e) && e.code@ == "validation"@ && e.message@ == m,
            None => {
                let id = match w {
                    WireOperation::TaskCreate { operation_id, .. } => operation_id@,
                    WireOperation::TaskUpdate { operation_id, .. } => operation_id@,
                };
                let fingerprint = match w {
                    WireOperation::TaskCreate { input, .. } => match input.idempotency_key {
                        Some(k) => Some(hex(sha256(IDEMPOTENCY_KEY_DOMAIN.spec_bytes() + vstd::utf8::encode_utf8(k@)))),
                        None => None,
                    },
                    _ => None,
                };
                if (fingerprint matches Some(f) && before.seen_key_fingerprints().contains(f)) {
                    r matches Err(e) && e.code@ == "validation"@ && e.message@ == line_prefix(before.lines_read() as usize)
                        + " repeats an explicit task.create idempotencyKey"@
                } else if before.seen_ids().contains(id) {
                    r matches Err(e) && e.code@ == "validation"@ && e.message@ == line_prefix(before.lines_read() as usize)
                        + " repeats an earlier operationId"@
                } else {
                    r matches Ok((w2, _, _)) && w2 == w
                        && after.accepted() == before.accepted() + 1
                        && after.seen_ids() == before.seen_ids().push(id)
                        && after.seen_key_fingerprints() == match fingerprint {
                            Some(f) => before.seen_key_fingerprints().push(f),
                            None => before.seen_key_fingerprints(),
                        }
                }
            },
        },
    }
}

/// Whether `text` is among `seen`.
pub fn seen_text(seen: &Vec<Vec<char>>, text: &Vec<char>) -> (r: bool)
    ensures
        r == seen@.map_values(|v: Vec<char>| v@).contains(text@),
{
    let ghost s = seen@.map_values(|v: Vec<char>| v@);
    let mut i: usize = 0;
    while i < seen.len()
        invariant
            i <= seen@.len(),
            s == seen@.map_values(|v: Vec<char>| v@),
            forall|j: int| 0 <= j < i ==> #[trigger] s[j] != text@,
        decreases seen@.len() - i,
    {
        if crate::text::chars_eq(&seen[i], text) {
            assert(s[i as int] == text@);
            return true;
        }
        i += 1;
    }
    false
}


/// Where reading a batch stands: reading the next line, waiting for the
/// line to be decoded, waiting for an accepted operation's canonical
/// record, finished, or rejected.
#[derive(PartialEq, Eq, Structural, Clone, Copy, Debug)]
pub enum BatchReadStage {
    Reading,
    Decoding,
    Canonicalizing,
    Finished,
    Rejected,
}

/// A batch being read: the input, the checks made so far, and the
/// canonical records of the operations accepted so far.
pub struct BatchRead {
    pub reader: BatchReader,
    pub reading: BatchReading,
    pub records: Vec<Vec<u8>>,
    pub stage: BatchReadStage,
}

/// What reading the batch needs next, or how it ended.
pub enum BatchReadAction {
    /// Decode this line as a strict JSONL operation.
    Decode(Vec<u8>),
    /// Encode this accepted operation canonically.
    Canonicalize(WireOperation, EntitySelector, Option<EntitySelector>),
    /// Every line was accepted; the batch has this canonical digest.
    Complete(Vec<u8>),
    /// The batch is rejected as a whole with this error.
    Reject(CliError),
    /// Reading is over; nothing more happens.
    Stopped,
}

/// The views of the canonical records.
pub open spec fn record_views(records: Seq<Vec<u8>>) -> Seq<Seq<u8>> {
    records.map_values(|r: Vec<u8>| r@)
}

/// The action as the result that accepting a line gave.
pub open spec fn accept_result(a: BatchReadAction) -> Result<(WireOperation, EntitySelector, Option<EntitySelector>), CliError> {
    match a {
        BatchReadAction::Canonicalize(w, p, t) => Ok((w, p, t)),
        BatchReadAction::Reject(e) => Err(e),
        _ => Err(arbitrary()),
    }
}

/// The action rejects the batch with a validation error carrying `message`.
pub open spec fn rejects_with(a: BatchReadAction, message: Seq<char>) -> bool {
    a matches BatchReadAction::Reject(e) && e.code@ == "validation"@ && e.message@ == message
}

/// What reading the next line of the batch gives: the end of input
/// completes the batch when it accepted an operation (with the digest of
/// its canonical records) and rejects it otherwise; an over-long line,
/// input over its limit, a blank line or one operation too many rejects
/// the batch; any other line is decoded next.
pub open spec fn read_line_ok(old: BatchRead, new: BatchRead, a: BatchReadAction) -> bool {
    let rest = old.reader.rest();
    &&& record_views(new.records@) == record_views(old.records@)
    &&& match spec_bounded_line(rest, old.reading.bytes_read() as usize) {
        Ok(None) => if old.reading.accepted() > 0 {
            new.stage == BatchReadStage::Finished && (a matches BatchReadAction::Complete(d)
                && d@ == sha256(INPUT_DIGEST_DOMAIN.spec_bytes() + framed(record_views(old.records@))))
        } else {
            new.stage == BatchReadStage::Rejected && rejects_with(a, "batch input must contain at least one JSONL operation"@)
        },
        Err(true) => new.stage == BatchReadStage::Rejected
            && rejects_with(a, line_prefix((old.reading.lines_read() + 1) as usize) + " exceeds the 4194304-byte limit"@),
        Err(false) => new.stage == BatchReadStage::Rejected && rejects_with(a, "batch input exceeds the 67108864-byte limit"@),
        Ok(Some(n)) => {
            let l = strip_newline(rest.subrange(0, n));
            if blank(l) {
                new.stage == BatchReadStage::Rejected
                    && rejects_with(a, line_prefix((old.reading.lines_read() + 1) as usize) + " is empty"@)
            } else if old.reading.accepted() == MAX_OPERATIONS {
                new.stage == BatchReadStage::Rejected && rejects_with(a, "batch input exceeds the 10000-operation limit"@)
            } else {
                &&& new.stage == BatchReadStage::Decoding
                &&& (a matches BatchReadAction::Decode(v) && v@ == l)
                &&& new.reader.rest() == rest.subrange(n, rest.len() as int)
                &&& new.reading.lines_read() == old.reading.lines_read() + 1
                &&& new.reading.bytes_read() == old.reading.bytes_read() + n
                &&& new.reading.accepted() == old.reading.accepted()
                &&& new.reading.seen_ids() == old.reading.seen_ids()
                &&& new.reading.seen_key_fingerprints() == old.reading.seen_key_fingerprints()
            }
        },
    }
}

/// What reading the next line does: in turn, it reads the line as
/// [`read_line_ok`] says; out of turn, nothing happens.
pub open spec fn next_ok(before: BatchRead, after: BatchRead, a: BatchReadAction) -> bool {
    if before.stage == BatchReadStage::Reading {
        read_line_ok(before, after, a)
    } else {
        a is Stopped && after == before
    }
}

/// What handing over a line's decoding does: in turn, the operation is
/// accepted as [`accepts`] says and its canonical record asked for, or the
/// batch is rejected; out of turn, nothing happens.
pub open spec fn decoded_ok(
    before: BatchRead,
    after: BatchRead,
    decoded: Result<(WireOperation, Result<EntitySelector, String>, Option<Result<EntitySelector, String>>), u64>,
    a: BatchReadAction,
) -> bool {
    if before.stage == BatchReadStage::Decoding {
        &&& accepts(before.reading, after.reading, decoded, accept_result(a))
        &&& (a is Canonicalize || a is Reject)
        &&& (a is Canonicalize ==> after.stage == BatchReadStage::Canonicalizing)
        &&& (a is Reject ==> after.stage == BatchReadStage::Rejected)
        &&& after.reader == before.reader
        &&& record_views(after.records@) == record_views(before.records@)
    } else {
        a is Stopped && after == before
    }
}

/// What handing over a canonical record does: in turn, a failure rejects
/// the batch and a record is kept before the next line is read; out of
/// turn, nothing happens.
pub open spec fn canonicalized_ok(before: BatchRead, after: BatchRead, record: Result<Vec<u8>, CliError>, a: BatchReadAction) -> bool {
    if before.stage == BatchReadStage::Canonicalizing {
        match record {
            Err(e) => a == BatchReadAction::Reject(e) && after.stage == BatchReadStage::Rejected,
            Ok(rec) => read_line_ok(BatchRead { records: after.records, stage: BatchReadStage::Reading, ..before }, after, a)
                && record_views(after.records@) == record_views(before.records@).push(rec@),
        }
    } else {
        a is Stopped && after == before
    }
}

/// One call made while reading a batch.
pub enum BatchReadStep {
    Next,
    Decoded(Result<(WireOperation, Result<EntitySelector, String>, Option<Result<EntitySelector, String>>), u64>),
    Canonicalized(Result<Vec<u8>, CliError>),
}

/// The call `step` took the reading from `before` to `after` with action `a`.
pub open spec fn read_step_ok(before: BatchRead, step: BatchReadStep, after: BatchRead, a: BatchReadAction) -> bool {
    match step {
        BatchReadStep::Next => next_ok(before, after, a),
        BatchReadStep::Decoded(d) => decoded_ok(before, after, d, a),
        BatchReadStep::Canonicalized(r) => canonicalized_ok(before, after, r, a),
    }
}

/// A whole reading of a batch: `states[i + 1]` and `actions[i]` are what
/// call `steps[i]` made of `states[i]`.
pub open spec fn batch_read_run(states: Seq<BatchRead>, steps: Seq<BatchReadStep>, actions: Seq<BatchReadAction>) -> bool {
    &&& states.len() == steps.len() + 1
    &&& actions.len() == steps.len()
    &&& forall|i: int| 0 <= i < steps.len() ==> read_step_ok(#[trigger] states[i], steps[i], states[i + 1], actions[i])
}

proof fn lemma_rejected_reading_is_final(states: Seq<BatchRead>, steps: Seq<BatchReadStep>, actions: Seq<BatchReadAction>, i: int, k: int)
    requires
        batch_read_run(states, steps, actions),
        0 <= i <= k < states.len(),
        states[i].stage == BatchReadStage::Rejected,
    ensures
        states[k] == states[i],
        k < actions.len() ==> actions[k] is Stopped,
    decreases k - i,
{
    if k > i {
        lemma_rejected_reading_is_final(states, steps, actions, i, k - 1);
        assert(read_step_ok(states[k - 1], steps[k - 1], states[k], actions[k - 1]));
    }
    if k < actions.len() {
        assert(read_step_ok(states[k], steps[k], states[k + 1], actions[k]));
    }
}

/// A batch is rejected as a whole: once any call rejects it (a line over
/// its limit, input over its limit, a blank line, one operation too many, a
/// decoding failure, an invalid operation, a repeated operation identifier
/// or explicit idempotency key, empty input, or a failed canonical
/// encoding), every later call stops and leaves the reading as it was, so
/// no later call completes the batch.
pub proof fn lemma_rejection_rejects_the_whole_batch(states: Seq<BatchRead>, steps: Seq<BatchReadStep>, actions: Seq<BatchReadAction>, i: int)
    requires
        batch_read_run(states, steps, actions),
        0 <= i < actions.len(),
        actions[i] is Reject,
    ensures
        forall|k: int| i < k < states.len() ==> #[trigger] states[k] == states[i + 1] && states[k].stage == BatchReadStage::Rejected,
        forall|k: int| i < k < actions.len() ==> #[trigger] actions[k] is Stopped,
        forall|k: int| i < k < actions.len() ==> !(#[trigger] actions[k] is Complete),
{
    assert(read_step_ok(states[i], steps[i], states[i + 1], actions[i]));
    assert(states[i + 1].stage == BatchReadStage::Rejected);
    assert forall|k: int| i < k < states.len() implies #[trigger] states[k] == states[i + 1] && states[k].stage == BatchReadStage::Rejected by {
        lemma_rejected_reading_is_final(states, steps, actions, i + 1, k);
    }
    assert forall|k: int| i < k < actions.len() implies #[trigger] actions[k] is Stopped by {
        lemma_rejected_reading_is_final(states, steps, actions, i + 1, k);
    }
}

impl BatchRead {
    /// The input and the checks are consistent, and a line waiting to be
    /// decoded is within the operation limit.
    pub open spec fn wf(&self) -> bool {
        &&& self.reader.wf()
        &&& self.reading.wf()
        &&& (self.stage == BatchReadStage::Decoding ==> self.reading.accepted() < MAX_OPERATIONS)
    }

    /// Reading of `data` is about to start.
    pub fn new(data: Vec<u8>) -> (r: Self)
        ensures
            r.wf(),
            r.reader.rest() == data@,
            r.reading.lines_read() == 0,
            r.reading.bytes_read() == 0,
            r.reading.accepted() == 0,
            r.reading.seen_ids() == Seq::<Seq<char>>::empty(),
            r.reading.seen_key_fingerprints() == Seq::<Seq<char>>::empty(),
            r.records@ == Seq::<Vec<u8>>::empty(),
            r.stage == BatchReadStage::Reading,
    {
        BatchRead { reader: BatchReader::new(data), reading: BatchReading::new(), records: Vec::new(), stage: BatchReadStage::Reading }
    }

    fn read_line(&mut self) -> (a: BatchReadAction)
        requires
            old(self).wf(),
            old(self).stage == BatchReadStage::Reading,
        ensures
            final(self).wf(),
            read_line_ok(*old(self), *final(self), a),
    {
        match self.reading.next_line(&mut self.reader) {
            Err(e) => {
                self.stage = BatchReadStage::Rejected;
                BatchReadAction::Reject(e)
            },
            Ok(Some(line)) => {
                self.stage = BatchReadStage::Decoding;
                BatchReadAction::Decode(line)
            },
            Ok(None) => match self.reading.finish() {
                Err(e) => {
                    self.stage = BatchReadStage::Rejected;
                    BatchReadAction::Reject(e)
                },
                Ok(()) => {
                    self.stage = BatchReadStage::Finished;
                    BatchReadAction::Complete(canonical_input_sha256(&self.records))
                },
            },
        }
    }

    /// Reads the next line. Once the batch finished or was rejected,
    /// nothing more happens: a rejection rejects the whole batch.
    pub fn next(&mut self) -> (a: BatchReadAction)
        requires
            old(self).wf(),
        ensures
            final(self).wf(),
            next_ok(*old(self), *final(self), a),
    {
        if self.stage == BatchReadStage::Reading {
            self.read_line()
        } else {
            BatchReadAction::Stopped
        }
    }

    /// Takes the decoding of the line last read: the operation is checked
    /// and accepted, and its canonical record is asked for; or the batch is
    /// rejected. Out of turn, nothing happens.
    pub fn decoded(&mut self, decoded: Result<(WireOperation, Result<EntitySelector, String>, Option<Result<EntitySelector, String>>), u64>) -> (a: BatchReadAction)
        requires
            old(self).wf(),
            decoded matches Ok((w, _, t)) ==> (w is TaskUpdate) == (t is Some),
        ensures
            final(self).wf(),
            decoded_ok(*old(self), *final(self), decoded, a),
    {
        if self.stage != BatchReadStage::Decoding {
            return BatchReadAction::Stopped;
        }
        let ghost before = self.reading;
        let ghost d = decoded;
        let result = self.reading.accept(decoded);
        assert(accepts(before, self.reading, d, result));
        match result {
            Ok((w, p, t)) => {
                self.stage = BatchReadStage::Canonicalizing;
                BatchReadAction::Canonicalize(w, p, t)
            },
            Err(e) => {
                self.stage = BatchReadStage::Rejected;
                BatchReadAction::Reject(e)
            },
        }
    }

    /// Takes the canonical record of the operation last accepted and reads
    /// the next line; a failure to encode rejects the batch. Out of turn,
    /// nothing happens.
    pub fn canonicalized(&mut self, record: Result<Vec<u8>, CliError>) -> (a: BatchReadAction)
        requires
            old(self).wf(),
        ensures
            final(self).wf(),
            canonicalized_ok(*old(self), *final(self), record, a),
    {
        if self.stage != BatchReadStage::Canonicalizing {
            return BatchReadAction::Stopped;
        }
        match record {
            Err(e) => {
                self.stage = BatchReadStage::Rejected;
                BatchReadAction::Reject(e)
            },
            Ok(rec) => {
                let ghost before = record_views(self.records@);
                self.records.push(rec);
                assert(record_views(self.records@) =~= before.push(rec@));
                self.stage = BatchReadStage::Reading;
                self.read_line()
            },
        }
    }
}



/// Hexadecimal encoding yields two lowercase hexadecimal digits per byte.
pub proof fn lemma_hex_digits(b: Seq<u8>)
    ensures
        hex(b).len() == 2 * b.len(),
        forall|i: int| 0 <= i < hex(b).len() ==> #[trigger] crate::checkpoint::is_lower_hex(hex(b)[i]),
    decreases b.len(),
{
    if b.len() > 0 {
        lemma_hex_digits(b.drop_last());
        let h = hex(b.drop_last());
        let hi = crate::codec::hex_char((b.last() / 16) as nat);
        let lo = crate::codec::hex_char((b.last() % 16) as nat);
        assert(hex(b) == h + seq![hi, lo]);
        assert(crate::checkpoint::is_lower_hex(hi));
        assert(crate::checkpoint::is_lower_hex(lo));
        assert forall|i: int| 0 <= i < hex(b).len() implies #[trigger] crate::checkpoint::is_lower_hex(hex(b)[i]) by {
            if i < h.len() {
                assert(hex(b)[i] == h[i]);
            }
        }
    }
}

/// Every operation key is accepted as a checkpoint key: the hexadecimal
/// form of a 32-byte digest is 64 lowercase hexadecimal digits.
pub proof fn lemma_operation_keys_are_checkpoint_keys(digest: Seq<u8>)
    requires
        digest.len() == 32,
    ensures
        crate::checkpoint::is_hash_text(hex(digest)),
{
    lemma_hex_digits(digest);
}

} // verus!
