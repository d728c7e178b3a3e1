use crate::attachment::{components_view, ComponentView, PathComponent};
use crate::error::CliError;
use crate::text::{chars_of, owned, push_decimal, push_str, string_of, str_eq, decimal};
use vstd::prelude::*;

verus! {

/// The only checkpoint and batch schema version this library reads or writes.
pub const BATCH_SCHEMA_VERSION: u64 = 1;

/// Largest checkpoint file, journal included, in bytes.
pub const MAX_CHECKPOINT_BYTES: u64 = 8388608;

/// Most operations one checkpoint may record.
pub const MAX_CHECKPOINT_OPERATIONS: usize = 10000;

/// A lowercase hexadecimal digit.
pub open spec fn is_lower_hex(c: char) -> bool {
    ('0' <= c && c <= '9') || ('a' <= c && c <= 'f')
}

/// A SHA-256 digest written as 64 lowercase hexadecimal digits.
pub open spec fn is_hash_text(s: Seq<char>) -> bool {
    s.len() == 64 && forall|i: int| 0 <= i < s.len() ==> #[trigger] is_lower_hex(s[i])
}

/// An ASCII letter or digit.
pub open spec fn is_ascii_alphanumeric(c: char) -> bool {
    ('0' <= c && c <= '9') || ('a' <= c && c <= 'z') || ('A' <= c && c <= 'Z')
}

/// A character of the standard base64 alphabet, padding excluded.
pub open spec fn is_base64_char(c: char) -> bool {
    is_ascii_alphanumeric(c) || c == '+' || c == '/'
}

/// A change commitment: 43 unpadded standard base64 characters (32 bytes).
pub open spec fn is_commitment_text(s: Seq<char>) -> bool {
    s.len() == 43 && forall|i: int| 0 <= i < s.len() ==> #[trigger] is_base64_char(s[i])
}

/// Whether `c` is a lowercase hexadecimal digit.
pub fn lower_hex_char(c: char) -> (r: bool)
    ensures
        r == is_lower_hex(c),
{
    ('0' <= c && c <= '9') || ('a' <= c && c <= 'f')
}

/// Whether `c` is an ASCII letter or digit.
pub fn ascii_alphanumeric_char(c: char) -> (r: bool)
    ensures
        r == is_ascii_alphanumeric(c),
{
    ('0' <= c && c <= '9') || ('a' <= c && c <= 'z') || ('A' <= c && c <= 'Z')
}

/// A checkpoint durability error.
pub fn checkpoint_io(message: String) -> (e: CliError)
    ensures
        e.code@ == "checkpoint_io"@,
        e.message@ == message@,
        e.exit_code == crate::error::CHECKPOINT_EXIT_CODE,
{
    CliError::checkpoint_io(message)
}

/// Checks that `value` is a SHA-256 digest in lowercase hexadecimal; the
/// error names the value by `label`.
pub fn validate_hash(value: &str, label: &str) -> (r: Result<(), CliError>)
    ensures
        r is Ok <==> is_hash_text(value@),
        r matches Err(e) ==> e.code@ == "checkpoint_conflict"@ && e.message@ == label@ + " is invalid"@
            && e.exit_code == crate::error::CHECKPOINT_EXIT_CODE,
{
    let chars = chars_of(value);
    let mut ok = chars.len() == 64;
    let mut i: usize = 0;
    while ok && i < chars.len()
        invariant
            i <= chars.len(),
            chars@ == value@,
            ok ==> chars.len() == 64,
            ok ==> forall|j: int| 0 <= j < i ==> #[trigger] is_lower_hex(chars@[j]),
            !ok ==> !is_hash_text(value@),
        decreases chars.len() - i,
    {
        if !lower_hex_char(chars[i]) {
            ok = false;
        }
        i += 1;
    }
    if ok {
        Ok(())
    } else {
        let mut message = chars_of(label);
        push_str(&mut message, " is invalid");
        Err(CliError::checkpoint_conflict(string_of(&message)))
    }
}

/// Checks that `value` is a change commitment: 43 unpadded base64
/// characters.
pub fn validate_change_commitment(value: &str) -> (r: Result<(), CliError>)
    ensures
        r is Ok <==> is_commitment_text(value@),
        r matches Err(e) ==> e.code@ == "checkpoint_conflict"@
            && e.message@ == "checkpoint change commitment is invalid"@
            && e.exit_code == crate::error::CHECKPOINT_EXIT_CODE,
{
    let chars = chars_of(value);
    let mut ok = chars.len() == 43;
    let mut i: usize = 0;
    while ok && i < chars.len()
        invariant
            i <= chars.len(),
            chars@ == value@,
            ok ==> chars.len() == 43,
            ok ==> forall|j: int| 0 <= j < i ==> #[trigger] is_base64_char(chars@[j]),
            !ok ==> !is_commitment_text(value@),
        decreases chars.len() - i,
    {
        let c = chars[i];
        if !(ascii_alphanumeric_char(c) || c == '+' || c == '/') {
            assert(!is_base64_char(chars@[i as int]));
            ok = false;
        }
        i += 1;
    }
    if ok {
        Ok(())
    } else {
        Err(CliError::checkpoint_conflict(owned("checkpoint change commitment is invalid")))
    }
}

/// What a batch operation does to its task.
#[derive(PartialEq, Eq, Structural, Clone, Copy, Debug)]
pub enum OperationKind {
    TaskCreate,
    TaskUpdate,
}

/// What a checkpoint records of one operation. Identifiers are UUIDs as
/// 128-bit integers; times are nanoseconds since the Unix epoch.
#[derive(Debug)]
pub enum CheckpointEntry {
    /// The operation was prepared and its mutation may have been sent.
    Started {
        kind: OperationKind,
        project_id: u128,
        task_id: Option<u128>,
        expected_updated_at: Option<i128>,
        change_commitment: Option<String>,
    },
    /// The mutation committed.
    Succeeded {
        kind: OperationKind,
        project_id: u128,
        task_id: u128,
        updated_at: i128,
    },
    /// The mutation definitively failed.
    Failed {
        kind: OperationKind,
        project_id: u128,
        task_id: Option<u128>,
    },
}

/// The mathematical value of a checkpoint entry.
pub enum EntryView {
    Started {
        kind: OperationKind,
        project_id: u128,
        task_id: Option<u128>,
        expected_updated_at: Option<i128>,
        change_commitment: Option<Seq<char>>,
    },
    Succeeded {
        kind: OperationKind,
        project_id: u128,
        task_id: u128,
        updated_at: i128,
    },
    Failed {
        kind: OperationKind,
        project_id: u128,
        task_id: Option<u128>,
    },
}

/// The view of an optional string.
pub open spec fn opt_view(s: Option<String>) -> Option<Seq<char>> {
    match s {
        Some(v) => Some(v@),
        None => None,
    }
}

impl View for CheckpointEntry {
    type V = EntryView;

    open spec fn view(&self) -> EntryView {
        match *self {
            CheckpointEntry::Started { kind, project_id, task_id, expected_updated_at, change_commitment } =>
                EntryView::Started { kind, project_id, task_id, expected_updated_at, change_commitment: opt_view(change_commitment) },
            CheckpointEntry::Succeeded { kind, project_id, task_id, updated_at } =>
                EntryView::Succeeded { kind, project_id, task_id, updated_at },
            CheckpointEntry::Failed { kind, project_id, task_id } =>
                EntryView::Failed { kind, project_id, task_id },
        }
    }
}

/// A copy of an optional string with the same view.
pub fn clone_opt_string(s: &Option<String>) -> (r: Option<String>)
    ensures
        opt_view(r) == opt_view(*s),
{
    match s {
        Some(v) => Some(owned(v.as_str())),
        None => None,
    }
}

impl CheckpointEntry {
    /// A copy with the same view.
    pub fn duplicate(&self) -> (r: Self)
        ensures
            r@ == self@,
    {
        match self {
            CheckpointEntry::Started { kind, project_id, task_id, expected_updated_at, change_commitment } =>
                CheckpointEntry::Started {
                    kind: *kind,
                    project_id: *project_id,
                    task_id: *task_id,
                    expected_updated_at: *expected_updated_at,
                    change_commitment: clone_opt_string(change_commitment),
                },
            CheckpointEntry::Succeeded { kind, project_id, task_id, updated_at } =>
                CheckpointEntry::Succeeded { kind: *kind, project_id: *project_id, task_id: *task_id, updated_at: *updated_at },
            CheckpointEntry::Failed { kind, project_id, task_id } =>
                CheckpointEntry::Failed { kind: *kind, project_id: *project_id, task_id: *task_id },
        }
    }
}

/// Whether an entry's task target agrees with its kind: a success always
/// names its task; otherwise a create has no task yet and an update does.
pub open spec fn valid_target_shape(e: EntryView) -> bool {
    match e {
        EntryView::Succeeded { .. } => true,
        EntryView::Started { kind, task_id, .. } => (kind == OperationKind::TaskCreate) == (task_id is None),
        EntryView::Failed { kind, task_id, .. } => (kind == OperationKind::TaskCreate) == (task_id is None),
    }
}

/// Why a checkpoint entry cannot be trusted, if it cannot.
pub open spec fn spec_entry_error(e: EntryView) -> Option<Seq<char>> {
    let (project_id, task_id) = match e {
        EntryView::Started { project_id, task_id, .. } => (project_id, task_id),
        EntryView::Succeeded { project_id, task_id, .. } => (project_id, Some(task_id)),
        EntryView::Failed { project_id, task_id, .. } => (project_id, task_id),
    };
    if project_id == 0 || task_id == Some(0u128) {
        Some("checkpoint contains an invalid canonical entity ID"@)
    } else if !valid_target_shape(e) {
        Some("checkpoint operation kind does not match its canonical task target"@)
    } else if (e matches EntryView::Started { kind, expected_updated_at, change_commitment, .. } && !(
        if kind == OperationKind::TaskCreate {
            expected_updated_at is None
        } else {
            (expected_updated_at is Some) == (change_commitment is Some)
        }
    )) {
        Some("checkpoint started metadata is incomplete or inconsistent"@)
    } else if (e matches EntryView::Started { change_commitment: Some(c), .. } && !is_commitment_text(c)) {
        Some("checkpoint change commitment is invalid"@)
    } else {
        None
    }
}

/// Checks that a checkpoint entry is internally consistent.
pub fn validate_entry(entry: &CheckpointEntry) -> (r: Result<(), CliError>)
    ensures
        match spec_entry_error(entry@) {
            None => r is Ok,
            Some(m) => r matches Err(e) && e.code@ == "checkpoint_conflict"@ && e.message@ == m
                && e.exit_code == crate::error::CHECKPOINT_EXIT_CODE,
        },
{
    let (project_id, task_id) = match entry {
        CheckpointEntry::Started { project_id, task_id, .. } => (*project_id, *task_id),
        CheckpointEntry::Succeeded { project_id, task_id, .. } => (*project_id, Some(*task_id)),
        CheckpointEntry::Failed { project_id, task_id, .. } => (*project_id, *task_id),
    };
    let nil_task = match task_id {
        Some(id) => id == 0,
        None => false,
    };
    if project_id == 0 || nil_task {
        return Err(CliError::checkpoint_conflict(owned("checkpoint contains an invalid canonical entity ID")));
    }
    let valid_shape = match entry {
        CheckpointEntry::Succeeded { .. } => true,
        CheckpointEntry::Started { kind, task_id, .. } => (*kind == OperationKind::TaskCreate) == task_id.is_none(),
        CheckpointEntry::Failed { kind, task_id, .. } => (*kind == OperationKind::TaskCreate) == task_id.is_none(),
    };
    if !valid_shape {
        return Err(CliError::checkpoint_conflict(owned("checkpoint operation kind does not match its canonical task target")));
    }
    if let CheckpointEntry::Started { kind, expected_updated_at, change_commitment, .. } = entry {
        let valid_started = match kind {
            OperationKind::TaskCreate => expected_updated_at.is_none(),
            OperationKind::TaskUpdate => expected_updated_at.is_some() == change_commitment.is_some(),
        };
        if !valid_started {
            return Err(CliError::checkpoint_conflict(owned("checkpoint started metadata is incomplete or inconsistent")));
        }
        if let Some(commitment) = change_commitment {
            return validate_change_commitment(commitment.as_str());
        }
    }
    Ok(())
}


/// One recorded operation: its checkpoint key and entry.
#[derive(Debug)]
pub struct CheckpointOperation {
    pub key: String,
    pub entry: CheckpointEntry,
}

/// The operations of a checkpoint, each key at most once, in increasing
/// key order (the order a `BTreeMap` keyed by the operation key keeps).
#[derive(Debug)]
pub struct CheckpointOperations {
    items: Vec<CheckpointOperation>,
}

/// No key occurs twice.
pub open spec fn distinct_keys(s: Seq<(Seq<char>, EntryView)>) -> bool {
    forall|i: int, j: int| 0 <= i < j < s.len() ==> #[trigger] s[i].0 != #[trigger] s[j].0
}

/// Whether `k` is recorded in `s`.
pub open spec fn has_key(s: Seq<(Seq<char>, EntryView)>, k: Seq<char>) -> bool {
    exists|i: int| 0 <= i < s.len() && #[trigger] s[i].0 == k
}

/// The entries of `s` as a map from key to entry.
pub open spec fn seq_map(s: Seq<(Seq<char>, EntryView)>) -> Map<Seq<char>, EntryView> {
    Map::new(
        |k: Seq<char>| has_key(s, k),
        |k: Seq<char>| s[choose|i: int| 0 <= i < s.len() && #[trigger] s[i].0 == k].1,
    )
}

/// Keys in the order of a `BTreeMap<String, _>`: strings compare by their
/// UTF-8 bytes, which order them as their characters' code points do.
pub open spec fn key_lt(a: Seq<char>, b: Seq<char>) -> bool
    decreases a.len(),
{
    if b.len() == 0 {
        false
    } else if a.len() == 0 {
        true
    } else if a[0] != b[0] {
        a[0] < b[0]
    } else {
        key_lt(a.drop_first(), b.drop_first())
    }
}

/// Keys strictly increase, as a `BTreeMap` walks them.
pub open spec fn sorted_keys(s: Seq<(Seq<char>, EntryView)>) -> bool {
    forall|i: int, j: int| 0 <= i < j < s.len() ==> key_lt(#[trigger] s[i].0, #[trigger] s[j].0)
}

/// How many leading keys of `s` come before `k`.
pub open spec fn insertion_point(s: Seq<(Seq<char>, EntryView)>, k: Seq<char>) -> int
    decreases s.len(),
{
    if s.len() > 0 && key_lt(s[0].0, k) {
        1 + insertion_point(s.drop_first(), k)
    } else {
        0
    }
}

/// `s` with `v` recorded under `k`: in place where `k` is recorded,
/// otherwise inserted after the keys that come before `k`.
pub open spec fn spec_insert(s: Seq<(Seq<char>, EntryView)>, k: Seq<char>, v: EntryView) -> Seq<(Seq<char>, EntryView)> {
    if has_key(s, k) {
        s.update(choose|i: int| 0 <= i < s.len() && #[trigger] s[i].0 == k, (k, v))
    } else {
        s.insert(insertion_point(s, k), (k, v))
    }
}

/// No key comes before itself.
pub proof fn lemma_key_lt_irreflexive(a: Seq<char>)
    ensures
        !key_lt(a, a),
    decreases a.len(),
{
    if a.len() > 0 {
        lemma_key_lt_irreflexive(a.drop_first());
    }
}

/// The key order is transitive.
pub proof fn lemma_key_lt_transitive(a: Seq<char>, b: Seq<char>, c: Seq<char>)
    requires
        key_lt(a, b),
        key_lt(b, c),
    ensures
        key_lt(a, c),
    decreases a.len(),
{
    if a.len() > 0 && b.len() > 0 && c.len() > 0 && a[0] == b[0] && b[0] == c[0] {
        lemma_key_lt_transitive(a.drop_first(), b.drop_first(), c.drop_first());
    }
}

/// Two different keys are ordered one way or the other.
pub proof fn lemma_key_lt_total(a: Seq<char>, b: Seq<char>)
    requires
        a != b,
    ensures
        key_lt(a, b) || key_lt(b, a),
    decreases a.len(),
{
    if a.len() == 0 {
        assert(b.len() > 0) by {
            if b.len() == 0 {
                assert(a =~= b);
            }
        }
    } else if b.len() > 0 {
        if a[0] == b[0] {
            assert(a.drop_first() != b.drop_first()) by {
                if a.drop_first() == b.drop_first() {
                    assert(a =~= seq![a[0]] + a.drop_first());
                    assert(b =~= seq![b[0]] + b.drop_first());
                }
            }
            lemma_key_lt_total(a.drop_first(), b.drop_first());
        }
    }
}

/// Whether `a` comes before `b` in key order.
pub fn key_less(a: &str, b: &str) -> (r: bool)
    ensures
        r == key_lt(a@, b@),
{
    let x = chars_of(a);
    let y = chars_of(b);
    let mut i: usize = 0;
    assert(x@.subrange(0, x@.len() as int) =~= x@);
    assert(y@.subrange(0, y@.len() as int) =~= y@);
    while i < x.len() && i < y.len() && x[i] == y[i]
        invariant
            i <= x@.len(),
            i <= y@.len(),
            x@ == a@,
            y@ == b@,
            key_lt(a@, b@) == key_lt(x@.subrange(i as int, x@.len() as int), y@.subrange(i as int, y@.len() as int)),
        decreases x@.len() - i,
    {
        let ghost xs = x@.subrange(i as int, x@.len() as int);
        let ghost ys = y@.subrange(i as int, y@.len() as int);
        assert(xs.drop_first() =~= x@.subrange(i + 1, x@.len() as int));
        assert(ys.drop_first() =~= y@.subrange(i + 1, y@.len() as int));
        assert(xs[0] == ys[0]);
        i += 1;
    }
    let ghost xs = x@.subrange(i as int, x@.len() as int);
    let ghost ys = y@.subrange(i as int, y@.len() as int);
    if i == y.len() {
        assert(ys.len() == 0);
        false
    } else if i == x.len() {
        assert(xs.len() == 0);
        true
    } else {
        assert(xs[0] == x@[i as int] && ys[0] == y@[i as int]);
        x[i] < y[i]
    }
}

proof fn lemma_insertion_point_props(s: Seq<(Seq<char>, EntryView)>, k: Seq<char>)
    ensures
        0 <= insertion_point(s, k) <= s.len(),
        forall|i: int| 0 <= i < insertion_point(s, k) ==> key_lt(#[trigger] s[i].0, k),
        insertion_point(s, k) < s.len() ==> !key_lt(s[insertion_point(s, k)].0, k),
    decreases s.len(),
{
    if s.len() > 0 && key_lt(s[0].0, k) {
        lemma_insertion_point_props(s.drop_first(), k);
        assert forall|i: int| 0 <= i < insertion_point(s, k) implies key_lt(#[trigger] s[i].0, k) by {
            if i > 0 {
                assert(s[i] == s.drop_first()[i - 1]);
            }
        }
    }
}

proof fn lemma_insertion_point_at(s: Seq<(Seq<char>, EntryView)>, k: Seq<char>, p: int)
    requires
        0 <= p <= s.len(),
        forall|i: int| 0 <= i < p ==> key_lt(#[trigger] s[i].0, k),
        p == s.len() || !key_lt(s[p].0, k),
    ensures
        insertion_point(s, k) == p,
    decreases p,
{
    if p > 0 {
        assert forall|i: int| 0 <= i < p - 1 implies key_lt(#[trigger] s.drop_first()[i].0, k) by {
            assert(s.drop_first()[i] == s[i + 1]);
        }
        if p < s.len() {
            assert(s.drop_first()[p - 1] == s[p]);
        }
        lemma_insertion_point_at(s.drop_first(), k, p - 1);
        assert(key_lt(s[0].0, k));
    }
}

/// Recording an entry keeps the keys in order.
pub proof fn lemma_spec_insert_sorted(s: Seq<(Seq<char>, EntryView)>, k: Seq<char>, v: EntryView)
    requires
        sorted_keys(s),
    ensures
        sorted_keys(spec_insert(s, k, v)),
{
    let t = spec_insert(s, k, v);
    if has_key(s, k) {
        let c = choose|i: int| 0 <= i < s.len() && #[trigger] s[i].0 == k;
        assert forall|i: int, j: int| 0 <= i < j < t.len() implies key_lt(#[trigger] t[i].0, #[trigger] t[j].0) by {
            assert(t[i].0 == s[i].0);
            assert(t[j].0 == s[j].0);
        }
    } else {
        let p = insertion_point(s, k);
        lemma_insertion_point_props(s, k);
        if p < s.len() {
            assert(s[p].0 != k);
            lemma_key_lt_total(s[p].0, k);
        }
        assert forall|i: int, j: int| 0 <= i < j < t.len() implies key_lt(#[trigger] t[i].0, #[trigger] t[j].0) by {
            if j < p {
                assert(t[i] == s[i] && t[j] == s[j]);
            } else if j == p {
                assert(t[i] == s[i]);
            } else if i < p {
                assert(t[i] == s[i] && t[j] == s[j - 1]);
            } else if i == p {
                assert(t[j] == s[j - 1]);
                if j - 1 > p {
                    assert(key_lt(s[p].0, s[j - 1].0));
                    lemma_key_lt_transitive(k, s[p].0, s[j - 1].0);
                }
            } else {
                assert(t[i] == s[i - 1] && t[j] == s[j - 1]);
            }
        }
    }
}

/// The first inconsistency among recorded operations, in order: a key that
/// is not a digest, or an entry that cannot be trusted.
pub open spec fn first_operation_error(s: Seq<(Seq<char>, EntryView)>) -> Option<Seq<char>>
    decreases s.len(),
{
    if s.len() == 0 {
        None
    } else if !is_hash_text(s[0].0) {
        Some("operation checkpoint key is invalid"@)
    } else if spec_entry_error(s[0].1) is Some {
        spec_entry_error(s[0].1)
    } else {
        first_operation_error(s.drop_first())
    }
}

impl View for CheckpointOperations {
    type V = Seq<(Seq<char>, EntryView)>;

    closed spec fn view(&self) -> Seq<(Seq<char>, EntryView)> {
        self.items@.map_values(|o: CheckpointOperation| (o.key@, o.entry@))
    }
}

/// In a sequence without repeated keys, each recorded entry is what the
/// map holds under its key.
pub proof fn lemma_seq_map_at(s: Seq<(Seq<char>, EntryView)>, i: int)
    requires
        distinct_keys(s),
        0 <= i < s.len(),
    ensures
        seq_map(s).dom().contains(s[i].0),
        seq_map(s)[s[i].0] == s[i].1,
{
    assert(has_key(s, s[i].0));
    let j = choose|j: int| 0 <= j < s.len() && #[trigger] s[j].0 == s[i].0;
    if j != i {
        if j < i {
            assert(s[j].0 != s[i].0);
        } else {
            assert(s[i].0 != s[j].0);
        }
    }
}

impl CheckpointOperations {
    /// The recorded entries by key.
    pub open spec fn map(&self) -> Map<Seq<char>, EntryView> {
        seq_map(self@)
    }

    /// Keys are distinct and in increasing order.
    pub open spec fn wf(&self) -> bool {
        distinct_keys(self@) && sorted_keys(self@)
    }

    /// No operations.
    pub fn new() -> (r: Self)
        ensures
            r@ == Seq::<(Seq<char>, EntryView)>::empty(),
            r.wf(),
    {
        let r = CheckpointOperations { items: Vec::new() };
        assert(r@ =~= Seq::<(Seq<char>, EntryView)>::empty());
        r
    }

    /// How many operations are recorded.
    pub fn len(&self) -> (n: usize)
        ensures
            n == self@.len(),
    {
        self.items.len()
    }

    /// The key of the `i`-th recorded operation.
    pub fn key_at(&self, i: usize) -> (k: &String)
        requires
            i < self@.len(),
        ensures
            k@ == self@[i as int].0,
    {
        &self.items[i].key
    }

    /// The entry of the `i`-th recorded operation.
    pub fn entry_at(&self, i: usize) -> (e: &CheckpointEntry)
        requires
            i < self@.len(),
        ensures
            e@ == self@[i as int].1,
    {
        &self.items[i].entry
    }

    /// Where `key` is recorded, if it is.
    pub fn position(&self, key: &str) -> (r: Option<usize>)
        ensures
            match r {
                Some(i) => i < self@.len() && self@[i as int].0 == key@,
                None => !has_key(self@, key@),
            },
    {
        let k = chars_of(key);
        let mut i: usize = 0;
        while i < self.items.len()
            invariant
                i <= self.items.len(),
                k@ == key@,
                forall|j: int| 0 <= j < i ==> self@[j].0 != key@,
            decreases self.items.len() - i,
        {
            if crate::text::chars_eq(&chars_of(self.items[i].key.as_str()), &k) {
                return Some(i);
            }
            i += 1;
        }
        None
    }

    /// The entry recorded under `key`.
    pub fn get(&self, key: &str) -> (r: Option<&CheckpointEntry>)
        requires
            self.wf(),
        ensures
            match r {
                Some(e) => self.map().dom().contains(key@) && self.map()[key@] == e@,
                None => !self.map().dom().contains(key@),
            },
    {
        match self.position(key) {
            Some(i) => {
                proof { lemma_seq_map_at(self@, i as int); }
                Some(&self.items[i].entry)
            },
            None => None,
        }
    }

    /// Records `entry` under `key`, replacing what was recorded there.
    pub fn insert(&mut self, key: String, entry: CheckpointEntry)
        requires
            old(self).wf(),
        ensures
            final(self).wf(),
            final(self).map() == old(self).map().insert(key@, entry@),
            final(self)@ == spec_insert(old(self)@, key@, entry@),
            has_key(old(self)@, key@) ==> final(self)@.len() == old(self)@.len(),
            !has_key(old(self)@, key@) ==> final(self)@.len() == old(self)@.len() + 1,
    {
        let ghost old_s = self@;
        let ghost kv = key@;
        let ghost ev = entry@;
        match self.position(key.as_str()) {
            Some(i) => {
                self.items.set(i, CheckpointOperation { key, entry });
                assert(self@ =~= old_s.update(i as int, (kv, ev)));
                proof {
                    assert(has_key(old_s, kv));
                    let c = choose|c: int| 0 <= c < old_s.len() && #[trigger] old_s[c].0 == kv;
                    if c != i as int {
                        if c < i as int {
                            assert(old_s[c].0 != old_s[i as int].0);
                        } else {
                            assert(old_s[i as int].0 != old_s[c].0);
                        }
                    }
                    let s = self@;
                    assert(distinct_keys(s)) by {
                        assert forall|a: int, b: int| 0 <= a < b < s.len() implies #[trigger] s[a].0 != #[trigger] s[b].0 by {
                            assert(old_s[a].0 == s[a].0 || a == i);
                            assert(old_s[b].0 == s[b].0 || b == i);
                        }
                    }
                    assert forall|k: Seq<char>| #[trigger] seq_map(s).dom().contains(k) == seq_map(old_s).insert(kv, ev).dom().contains(k) by {
                        if has_key(s, k) {
                            let a = choose|a: int| 0 <= a < s.len() && #[trigger] s[a].0 == k;
                            if a != i as int {
                                assert(old_s[a].0 == k);
                            }
                        }
                        if has_key(old_s, k) {
                            let a = choose|a: int| 0 <= a < old_s.len() && #[trigger] old_s[a].0 == k;
                            assert(s[a].0 == k || a == i);
                        }
                    }
                    assert forall|k: Seq<char>| #[trigger] seq_map(s).dom().contains(k) implies seq_map(s)[k] == seq_map(old_s).insert(kv, ev)[k] by {
                        let a = choose|a: int| 0 <= a < s.len() && #[trigger] s[a].0 == k;
                        lemma_seq_map_at(s, a);
                        if a != i as int {
                            lemma_seq_map_at(old_s, a);
                        }
                    }
                    assert(seq_map(s) =~= seq_map(old_s).insert(kv, ev));
                }
            },
            None => {
                let mut p: usize = 0;
                while p < self.items.len() && key_less(self.items[p].key.as_str(), key.as_str())
                    invariant
                        p <= self.items@.len(),
                        self@ == old_s,
                        kv == key@,
                        forall|i: int| 0 <= i < p ==> key_lt(#[trigger] old_s[i].0, kv),
                    decreases self.items@.len() - p,
                {
                    assert(old_s[p as int].0 == self.items@[p as int].key@);
                    p += 1;
                }
                proof {
                    if p < old_s.len() {
                        assert(old_s[p as int].0 == self.items@[p as int].key@);
                    }
                    lemma_insertion_point_at(old_s, kv, p as int);
                }
                self.items.insert(p, CheckpointOperation { key, entry });
                assert(self@ =~= old_s.insert(p as int, (kv, ev)));
                proof {
                    lemma_spec_insert_map(old_s, kv, ev);
                    lemma_spec_insert_sorted(old_s, kv, ev);
                }
            },
        }
    }
}


/// A checkpoint: the batch input it belongs to and what it recorded.
#[derive(Debug)]
pub struct CheckpointFile {
    pub schema_version: u64,
    pub input_sha256: String,
    pub operations: CheckpointOperations,
}

/// Why a checkpoint cannot be resumed against input `expected`, if it
/// cannot.
pub open spec fn spec_checkpoint_error(schema_version: u64, input_sha256: Seq<char>, ops: Seq<(Seq<char>, EntryView)>, expected: Seq<char>) -> Option<Seq<char>> {
    if schema_version != BATCH_SCHEMA_VERSION {
        Some("checkpoint schemaVersion "@ + decimal(schema_version as nat) + " is not supported by this CLI"@)
    } else if !is_hash_text(input_sha256) {
        Some("checkpoint input SHA-256 is invalid"@)
    } else if input_sha256 != expected {
        Some("checkpoint belongs to different canonical batch input"@)
    } else if ops.len() > MAX_CHECKPOINT_OPERATIONS {
        Some("checkpoint contains more than 10000 operations"@)
    } else {
        first_operation_error(ops)
    }
}

/// The first error among operations `i..` is that of operation `i`, or else
/// the first among `i + 1..`.
proof fn lemma_first_error_step(s: Seq<(Seq<char>, EntryView)>, i: int)
    requires
        0 <= i < s.len(),
    ensures
        first_operation_error(s.subrange(i, s.len() as int)) == (if !is_hash_text(s[i].0) {
            Some("operation checkpoint key is invalid"@)
        } else if spec_entry_error(s[i].1) is Some {
            spec_entry_error(s[i].1)
        } else {
            first_operation_error(s.subrange(i + 1, s.len() as int))
        }),
{
    assert(s.subrange(i, s.len() as int).drop_first() =~= s.subrange(i + 1, s.len() as int));
}

/// Checks that a checkpoint belongs to the input whose canonical digest is
/// `expected_hash` and that everything it recorded is consistent.
pub fn validate_checkpoint(checkpoint: &CheckpointFile, expected_hash: &str) -> (r: Result<(), CliError>)
    ensures
        match spec_checkpoint_error(checkpoint.schema_version, checkpoint.input_sha256@, checkpoint.operations@, expected_hash@) {
            None => r is Ok,
            Some(m) => r matches Err(e) && e.code@ == "checkpoint_conflict"@ && e.message@ == m
                && e.exit_code == crate::error::CHECKPOINT_EXIT_CODE,
        },
{
    if checkpoint.schema_version != BATCH_SCHEMA_VERSION {
        let mut message = chars_of("checkpoint schemaVersion ");
        push_decimal(&mut message, checkpoint.schema_version);
        push_str(&mut message, " is not supported by this CLI");
        return Err(CliError::checkpoint_conflict(string_of(&message)));
    }
    if let Err(e) = validate_hash(checkpoint.input_sha256.as_str(), "checkpoint input SHA-256") {
        proof {
            reveal_strlit("checkpoint input SHA-256");
            reveal_strlit(" is invalid");
            reveal_strlit("checkpoint input SHA-256 is invalid");
            assert("checkpoint input SHA-256"@ + " is invalid"@ =~= "checkpoint input SHA-256 is invalid"@);
        }
        return Err(e);
    }
    if !str_eq(checkpoint.input_sha256.as_str(), expected_hash) {
        return Err(CliError::checkpoint_conflict(owned("checkpoint belongs to different canonical batch input")));
    }
    let n = checkpoint.operations.len();
    if n > MAX_CHECKPOINT_OPERATIONS {
        return Err(CliError::checkpoint_conflict(owned("checkpoint contains more than 10000 operations")));
    }
    let ghost s = checkpoint.operations@;
    assert(s.subrange(0, n as int) =~= s);
    proof {
        reveal_strlit("operation checkpoint key");
        reveal_strlit(" is invalid");
        reveal_strlit("operation checkpoint key is invalid");
        assert("operation checkpoint key"@ + " is invalid"@ =~= "operation checkpoint key is invalid"@);
    }
    let mut i: usize = 0;
    while i < n
        invariant
            i <= n,
            n == s.len(),
            s == checkpoint.operations@,
            checkpoint.schema_version == BATCH_SCHEMA_VERSION,
            is_hash_text(checkpoint.input_sha256@),
            checkpoint.input_sha256@ == expected_hash@,
            n <= MAX_CHECKPOINT_OPERATIONS,
            "operation checkpoint key"@ + " is invalid"@ == "operation checkpoint key is invalid"@,
            first_operation_error(s) == first_operation_error(s.subrange(i as int, n as int)),
        decreases n - i,
    {
        proof { lemma_first_error_step(s, i as int); }
        validate_hash(checkpoint.operations.key_at(i).as_str(), "operation checkpoint key")?;
        validate_entry(checkpoint.operations.entry_at(i))?;
        i += 1;
    }
    assert(s.subrange(n as int, n as int) =~= Seq::<(Seq<char>, EntryView)>::empty());
    Ok(())
}

/// What the started record of an operation promised.
#[derive(Debug)]
pub struct StartedMetadata {
    pub kind: OperationKind,
    pub project_id: u128,
    pub task_id: Option<u128>,
    pub expected_updated_at: Option<i128>,
    pub change_commitment: Option<String>,
}

/// What a checkpoint says of one operation when a batch resumes.
#[derive(Debug)]
pub enum ResumeState {
    Absent,
    Started(StartedMetadata),
    Succeeded { kind: OperationKind, project_id: u128, task_id: u128, updated_at: i128 },
    Failed(StartedMetadata),
}

/// `r` reports entry `e` (or its absence) to a resuming batch; a failure
/// carries no update precondition or commitment.
pub open spec fn reports_entry(r: ResumeState, e: Option<EntryView>) -> bool {
    match e {
        None => r is Absent,
        Some(EntryView::Started { kind, project_id, task_id, expected_updated_at, change_commitment }) =>
            r matches ResumeState::Started(m) && m.kind == kind && m.project_id == project_id && m.task_id == task_id
                && m.expected_updated_at == expected_updated_at && opt_view(m.change_commitment) == change_commitment,
        Some(EntryView::Succeeded { kind, project_id, task_id, updated_at }) =>
            r matches ResumeState::Succeeded { kind: k, project_id: p, task_id: t, updated_at: u }
                && k == kind && p == project_id && t == task_id && u == updated_at,
        Some(EntryView::Failed { kind, project_id, task_id }) =>
            r matches ResumeState::Failed(m) && m.kind == kind && m.project_id == project_id && m.task_id == task_id
                && m.expected_updated_at is None && m.change_commitment is None,
    }
}

/// The entry recorded under `key`, if any.
pub open spec fn map_lookup(m: Map<Seq<char>, EntryView>, key: Seq<char>) -> Option<EntryView> {
    if m.dom().contains(key) { Some(m[key]) } else { None }
}

/// Whether `key` is one of `keys`.
pub open spec fn key_listed(keys: Seq<String>, key: Seq<char>) -> bool {
    exists|j: int| 0 <= j < keys.len() && #[trigger] keys[j]@ == key
}

/// The checkpoint state a batch resumes from.
#[derive(Debug)]
pub struct CheckpointStore {
    pub checkpoint: CheckpointFile,
}

impl CheckpointStore {
    /// What the checkpoint recorded for the operation whose key is
    /// `operation_key`.
    pub fn resume_state(&self, operation_key: &str) -> (r: Result<ResumeState, CliError>)
        requires
            self.checkpoint.operations.wf(),
        ensures
            is_hash_text(operation_key@) ==> (r matches Ok(s) && reports_entry(s, map_lookup(self.checkpoint.operations.map(), operation_key@))),
            !is_hash_text(operation_key@) ==> (r matches Err(e) && e.code@ == "checkpoint_conflict"@
                && e.message@ == "operation checkpoint key is invalid"@),
    {
        proof {
            reveal_strlit("operation checkpoint key");
            reveal_strlit(" is invalid");
            reveal_strlit("operation checkpoint key is invalid");
            assert("operation checkpoint key"@ + " is invalid"@ =~= "operation checkpoint key is invalid"@);
        }
        validate_hash(operation_key, "operation checkpoint key")?;
        Ok(match self.checkpoint.operations.get(operation_key) {
            None => ResumeState::Absent,
            Some(CheckpointEntry::Started { kind, project_id, task_id, expected_updated_at, change_commitment }) =>
                ResumeState::Started(StartedMetadata {
                    kind: *kind,
                    project_id: *project_id,
                    task_id: *task_id,
                    expected_updated_at: *expected_updated_at,
                    change_commitment: clone_opt_string(change_commitment),
                }),
            Some(CheckpointEntry::Succeeded { kind, project_id, task_id, updated_at }) =>
                ResumeState::Succeeded { kind: *kind, project_id: *project_id, task_id: *task_id, updated_at: *updated_at },
            Some(CheckpointEntry::Failed { kind, project_id, task_id }) =>
                ResumeState::Failed(StartedMetadata {
                    kind: *kind,
                    project_id: *project_id,
                    task_id: *task_id,
                    expected_updated_at: None,
                    change_commitment: None,
                }),
        })
    }

    /// Checks that every operation the checkpoint recorded is one of the
    /// batch's canonical operation keys.
    pub fn validate_operation_keys(&self, canonical_keys: &Vec<String>) -> (r: Result<(), CliError>)
        ensures
            r is Ok <==> forall|i: int| 0 <= i < self.checkpoint.operations@.len() ==>
                #[trigger] key_listed(canonical_keys@, self.checkpoint.operations@[i].0),
            r matches Err(e) ==> e.code@ == "checkpoint_conflict"@
                && e.message@ == "checkpoint contains an operation that is not present in canonical batch input"@,
    {
        let mut canonical: Vec<Vec<char>> = Vec::new();
        let mut j: usize = 0;
        while j < canonical_keys.len()
            invariant
                j <= canonical_keys.len(),
                canonical@.len() == j,
                forall|k: int| 0 <= k < j ==> #[trigger] canonical@[k]@ == canonical_keys@[k]@,
            decreases canonical_keys.len() - j,
        {
            canonical.push(chars_of(canonical_keys[j].as_str()));
            j += 1;
        }
        let mut i: usize = 0;
        while i < self.checkpoint.operations.len()
            invariant
                i <= self.checkpoint.operations@.len(),
                canonical@.len() == canonical_keys@.len(),
                forall|k: int| 0 <= k < canonical@.len() ==> #[trigger] canonical@[k]@ == canonical_keys@[k]@,
                forall|a: int| 0 <= a < i ==> #[trigger] key_listed(canonical_keys@, self.checkpoint.operations@[a].0),
            decreases self.checkpoint.operations@.len() - i,
        {
            let key = chars_of(self.checkpoint.operations.key_at(i).as_str());
            let mut found = false;
            let mut k: usize = 0;
            while k < canonical.len()
                invariant
                    k <= canonical@.len(),
                    canonical@.len() == canonical_keys@.len(),
                    forall|c: int| 0 <= c < canonical@.len() ==> #[trigger] canonical@[c]@ == canonical_keys@[c]@,
                    key@ == self.checkpoint.operations@[i as int].0,
                    i < self.checkpoint.operations@.len(),
                    forall|a: int| 0 <= a < i ==> #[trigger] key_listed(canonical_keys@, self.checkpoint.operations@[a].0),
                    found ==> key_listed(canonical_keys@, self.checkpoint.operations@[i as int].0),
                    !found ==> forall|b: int| 0 <= b < k ==> #[trigger] canonical_keys@[b]@ != self.checkpoint.operations@[i as int].0,
                decreases canonical@.len() - k,
            {
                if crate::text::chars_eq(&canonical[k], &key) {
                    found = true;
                    assert(canonical_keys@[k as int]@ == self.checkpoint.operations@[i as int].0);
                    k = canonical.len();
                } else {
                    k += 1;
                }
            }
            if !found {
                proof {
                    assert(!key_listed(canonical_keys@, self.checkpoint.operations@[i as int].0));
                }
                return Err(CliError::checkpoint_conflict(owned("checkpoint contains an operation that is not present in canonical batch input")));
            }
            i += 1;
        }
        Ok(())
    }
}


/// Why an entry cannot be recorded under `key`, if it cannot: the key must
/// be a checkpoint key and the entry consistent.
pub open spec fn spec_record_error(key: Seq<char>, e: EntryView) -> Option<Seq<char>> {
    if !is_hash_text(key) {
        Some("operation checkpoint key is invalid"@)
    } else {
        spec_entry_error(e)
    }
}

/// The checks that precede every journal record: the key, then the entry.
fn checked_record(operation_key: &str, entry: CheckpointEntry) -> (r: Result<CheckpointEntry, CliError>)
    ensures
        match spec_record_error(operation_key@, entry@) {
            Some(m) => r matches Err(e) && e.code@ == "checkpoint_conflict"@ && e.message@ == m
                && e.exit_code == crate::error::CHECKPOINT_EXIT_CODE,
            None => r == Ok::<CheckpointEntry, CliError>(entry),
        },
{
    proof {
        reveal_strlit("operation checkpoint key");
        reveal_strlit(" is invalid");
        reveal_strlit("operation checkpoint key is invalid");
        assert("operation checkpoint key"@ + " is invalid"@ =~= "operation checkpoint key is invalid"@);
    }
    validate_hash(operation_key, "operation checkpoint key")?;
    validate_entry(&entry)?;
    Ok(entry)
}

/// The entry that records an operation as started with `metadata`, once
/// its key and metadata are checked.
pub fn started_record(operation_key: &str, metadata: &StartedMetadata) -> (r: Result<CheckpointEntry, CliError>)
    ensures
        ({
            let e = EntryView::Started {
                kind: metadata.kind,
                project_id: metadata.project_id,
                task_id: metadata.task_id,
                expected_updated_at: metadata.expected_updated_at,
                change_commitment: opt_view(metadata.change_commitment),
            };
            match spec_record_error(operation_key@, e) {
                Some(m) => r matches Err(err) && err.code@ == "checkpoint_conflict"@ && err.message@ == m,
                None => r matches Ok(entry) && entry@ == e,
            }
        }),
{
    checked_record(operation_key, CheckpointEntry::Started {
        kind: metadata.kind,
        project_id: metadata.project_id,
        task_id: metadata.task_id,
        expected_updated_at: metadata.expected_updated_at,
        change_commitment: clone_opt_string(&metadata.change_commitment),
    })
}

/// The entry that records an operation as committed, once its key and
/// identifiers are checked.
pub fn succeeded_record(operation_key: &str, kind: OperationKind, project_id: u128, task_id: u128, updated_at: i128) -> (r: Result<CheckpointEntry, CliError>)
    ensures
        ({
            let e = EntryView::Succeeded { kind, project_id, task_id, updated_at };
            match spec_record_error(operation_key@, e) {
                Some(m) => r matches Err(err) && err.code@ == "checkpoint_conflict"@ && err.message@ == m,
                None => r matches Ok(entry) && entry@ == e,
            }
        }),
{
    checked_record(operation_key, CheckpointEntry::Succeeded { kind, project_id, task_id, updated_at })
}

/// The entry that records an operation as definitively failed, once its
/// key and identifiers are checked.
pub fn failed_record(operation_key: &str, kind: OperationKind, project_id: u128, task_id: Option<u128>) -> (r: Result<CheckpointEntry, CliError>)
    ensures
        ({
            let e = EntryView::Failed { kind, project_id, task_id };
            match spec_record_error(operation_key@, e) {
                Some(m) => r matches Err(err) && err.code@ == "checkpoint_conflict"@ && err.message@ == m,
                None => r matches Ok(entry) && entry@ == e,
            }
        }),
{
    checked_record(operation_key, CheckpointEntry::Failed { kind, project_id, task_id })
}


/// What the journal does with the next record.
#[derive(Debug)]
pub enum AppendPlan {
    /// Rewrite the whole checkpoint compactly, the new record included.
    Compact,
    /// Append the record; the journal then holds `next_len` bytes.
    Append { next_len: u64 },
}

/// The checkpoint journal's state between durable writes: what it holds,
/// how many bytes it has written, and whether a durability failure has
/// made it unusable.
#[derive(Debug)]
pub struct CheckpointWriter {
    pub checkpoint: CheckpointFile,
    pub bytes_written: u64,
    pub failed: bool,
}

impl CheckpointWriter {
    /// A journal over `checkpoint` that has written `bytes_written` bytes.
    pub fn new(checkpoint: CheckpointFile, bytes_written: u64) -> (w: Self)
        ensures
            w.checkpoint == checkpoint,
            w.bytes_written == bytes_written,
            !w.failed,
    {
        CheckpointWriter { checkpoint, bytes_written, failed: false }
    }

    /// Decides how a record of `encoded_len` bytes is made durable, or why
    /// it cannot be; `encoded_len` carries the encoding error when the
    /// record could not be encoded. Any error leaves the journal failed
    /// for good.
    pub fn begin_append(&mut self, encoded_len: Result<u64, CliError>) -> (r: Result<AppendPlan, CliError>)
        ensures
            final(self).checkpoint == old(self).checkpoint,
            final(self).bytes_written == old(self).bytes_written,
            final(self).failed == (old(self).failed || r is Err),
            old(self).failed ==> (r matches Err(e) && e.code@ == "checkpoint_io"@
                && e.message@ == "checkpoint writer is unavailable after an earlier durability failure"@),
            !old(self).failed ==> match encoded_len {
                Err(e0) => r == Err::<AppendPlan, CliError>(e0),
                Ok(n) => if old(self).bytes_written + n > u64::MAX {
                    r matches Err(e) && e.code@ == "checkpoint_io"@ && e.message@ == "checkpoint journal size overflowed"@
                } else if old(self).bytes_written + n > MAX_CHECKPOINT_BYTES {
                    r matches Ok(AppendPlan::Compact)
                } else {
                    r matches Ok(AppendPlan::Append { next_len }) && next_len == old(self).bytes_written + n
                },
            },
    {
        if self.failed {
            return Err(checkpoint_io(owned("checkpoint writer is unavailable after an earlier durability failure")));
        }
        let n = match encoded_len {
            Ok(n) => n,
            Err(e) => {
                self.failed = true;
                return Err(e);
            },
        };
        match self.bytes_written.checked_add(n) {
            None => {
                self.failed = true;
                Err(checkpoint_io(owned("checkpoint journal size overflowed")))
            },
            Some(next_len) => if next_len > MAX_CHECKPOINT_BYTES {
                Ok(AppendPlan::Compact)
            } else {
                Ok(AppendPlan::Append { next_len })
            },
        }
    }

    /// Records the outcome of the durable write that `plan` called for:
    /// `io` is the rewritten file's length after a compaction, or any
    /// value after an append, or the write's error. A compaction records the
    /// entry before it writes, as the rewritten file holds it; an append
    /// records it only once it is durable.
    pub fn finish_append(&mut self, operation_key: String, entry: CheckpointEntry, plan: AppendPlan, io: Result<u64, CliError>) -> (r: Result<(), CliError>)
        requires
            old(self).checkpoint.operations.wf(),
            !old(self).failed,
        ensures
            final(self).checkpoint.operations.wf(),
            final(self).checkpoint.schema_version == old(self).checkpoint.schema_version,
            final(self).checkpoint.input_sha256 == old(self).checkpoint.input_sha256,
            final(self).failed == r is Err,
            match io {
                Err(e0) => r == Err::<(), CliError>(e0),
                Ok(_) => r is Ok,
            },
            match plan {
                AppendPlan::Compact => final(self).checkpoint.operations@
                    == spec_insert(old(self).checkpoint.operations@, operation_key@, entry@)
                    && (io matches Ok(len) ==> final(self).bytes_written == len)
                    && (io is Err ==> final(self).bytes_written == old(self).bytes_written),
                AppendPlan::Append { next_len } => if io is Ok {
                    final(self).checkpoint.operations@ == spec_insert(old(self).checkpoint.operations@, operation_key@, entry@)
                        && final(self).bytes_written == next_len
                } else {
                    final(self).checkpoint.operations@ == old(self).checkpoint.operations@
                        && final(self).bytes_written == old(self).bytes_written
                },
            },
    {
        match plan {
            AppendPlan::Compact => {
                self.checkpoint.operations.insert(operation_key, entry);
                match io {
                    Ok(len) => {
                        self.bytes_written = len;
                        Ok(())
                    },
                    Err(e) => {
                        self.failed = true;
                        Err(e)
                    },
                }
            },
            AppendPlan::Append { next_len } => match io {
                Ok(_) => {
                    self.bytes_written = next_len;
                    self.checkpoint.operations.insert(operation_key, entry);
                    Ok(())
                },
                Err(e) => {
                    self.failed = true;
                    Err(e)
                },
            },
        }
    }
}

/// A journal record: the header that opens the journal, or one operation.
#[derive(Debug)]
pub enum CheckpointRecord {
    Header { schema_version: u64, input_sha256: String },
    Operation { operation_key: String, entry: CheckpointEntry },
}

/// The mathematical value of a journal record.
pub enum RecordView {
    Header { schema_version: u64, input_sha256: Seq<char> },
    Operation { operation_key: Seq<char>, entry: EntryView },
}

impl View for CheckpointRecord {
    type V = RecordView;

    open spec fn view(&self) -> RecordView {
        match *self {
            CheckpointRecord::Header { schema_version, input_sha256 } =>
                RecordView::Header { schema_version, input_sha256: input_sha256@ },
            CheckpointRecord::Operation { operation_key, entry } =>
                RecordView::Operation { operation_key: operation_key@, entry: entry@ },
        }
    }
}

/// The views of decoded records; `None` marks a record that did not decode.
pub open spec fn record_views(v: Seq<Option<CheckpointRecord>>) -> Seq<Option<RecordView>> {
    v.map_values(|o: Option<CheckpointRecord>| match o {
        Some(r) => Some(r@),
        None => None,
    })
}

/// The pieces of `s` between newline bytes, as `split` yields them: one
/// more piece than there are newlines.
pub open spec fn split_newlines(s: Seq<u8>) -> Seq<Seq<u8>>
    decreases s.len(),
{
    if s.len() == 0 {
        seq![Seq::<u8>::empty()]
    } else {
        let p = split_newlines(s.drop_last());
        if s.last() == 10u8 {
            p.push(Seq::<u8>::empty())
        } else {
            p.update(p.len() - 1, p.last().push(s.last()))
        }
    }
}

/// Splitting always yields at least one piece.
pub proof fn lemma_split_newlines_nonempty(s: Seq<u8>)
    ensures
        split_newlines(s).len() >= 1,
    decreases s.len(),
{
    if s.len() > 0 {
        lemma_split_newlines_nonempty(s.drop_last());
    }
}

/// The index of the last newline byte in `s`, or -1.
pub open spec fn last_newline(s: Seq<u8>) -> int
    decreases s.len(),
{
    if s.len() == 0 {
        -1
    } else if s.last() == 10u8 {
        s.len() - 1
    } else {
        last_newline(s.drop_last())
    }
}

/// The records of a checkpoint journal: the bytes before its last newline,
/// split at each newline. An unterminated tail is an unacknowledged write
/// and is ignored.
pub open spec fn spec_journal_lines(bytes: Seq<u8>) -> Option<Seq<Seq<u8>>> {
    if last_newline(bytes) < 0 {
        None
    } else {
        Some(split_newlines(bytes.subrange(0, last_newline(bytes))))
    }
}

proof fn lemma_last_newline(s: Seq<u8>)
    ensures
        -1 <= last_newline(s) < s.len(),
        last_newline(s) >= 0 ==> s[last_newline(s)] == 10u8,
        forall|j: int| last_newline(s) < j < s.len() ==> s[j] != 10u8,
    decreases s.len(),
{
    if s.len() > 0 && s.last() != 10u8 {
        lemma_last_newline(s.drop_last());
        assert forall|j: int| last_newline(s) < j < s.len() implies s[j] != 10u8 by {
            if j < s.len() - 1 {
                assert(s.drop_last()[j] == s[j]);
            }
        }
    }
}

/// Splits a checkpoint journal into its complete records.
pub fn journal_record_lines(bytes: &Vec<u8>) -> (r: Result<Vec<Vec<u8>>, CliError>)
    ensures
        match spec_journal_lines(bytes@) {
            None => r matches Err(e) && e.code@ == "checkpoint_conflict"@
                && e.message@ == "checkpoint journal header is incomplete or corrupt"@
                && e.exit_code == crate::error::CHECKPOINT_EXIT_CODE,
            Some(lines) => r matches Ok(v) && v@.len() == lines.len()
                && forall|i: int| 0 <= i < v@.len() ==> #[trigger] v@[i]@ == lines[i],
        },
{
    let mut end: usize = bytes.len();
    assert(bytes@.subrange(0, bytes.len() as int) =~= bytes@);
    while end > 0 && bytes[end - 1] != 10u8
        invariant
            end <= bytes.len(),
            last_newline(bytes@) == last_newline(bytes@.subrange(0, end as int)),
        decreases end,
    {
        assert(bytes@.subrange(0, end - 1) =~= bytes@.subrange(0, end as int).drop_last());
        end -= 1;
    }
    assert(bytes@.subrange(0, bytes.len() as int) =~= bytes@);
    if end == 0 {
        assert(bytes@.subrange(0, 0) =~= Seq::<u8>::empty());
        return Err(CliError::checkpoint_conflict(owned("checkpoint journal header is incomplete or corrupt")));
    }
    let complete = end - 1;
    assert(last_newline(bytes@) == complete);
    let ghost content = bytes@.subrange(0, complete as int);
    let mut lines: Vec<Vec<u8>> = Vec::new();
    let mut current: Vec<u8> = Vec::new();
    let mut i: usize = 0;
    while i < complete
        invariant
            i <= complete,
            complete < bytes.len(),
            content == bytes@.subrange(0, complete as int),
            split_newlines(content.subrange(0, i as int)).len() == lines@.len() + 1,
            forall|j: int| 0 <= j < lines@.len() ==> #[trigger] lines@[j]@ == split_newlines(content.subrange(0, i as int))[j],
            current@ == split_newlines(content.subrange(0, i as int)).last(),
        decreases complete - i,
    {
        assert(content.subrange(0, i + 1).drop_last() =~= content.subrange(0, i as int));
        proof { lemma_split_newlines_nonempty(content.subrange(0, i as int)); }
        let b = bytes[i];
        if b == 10u8 {
            lines.push(current);
            current = Vec::new();
            assert(current@ =~= Seq::<u8>::empty());
        } else {
            current.push(b);
        }
        i += 1;
    }
    assert(content.subrange(0, complete as int) =~= content);
    lines.push(current);
    Ok(lines)
}

/// Operations `i..` of a journal folded into `ops`, or the first reason the
/// journal cannot be trusted.
pub open spec fn journal_fold(lines: Seq<Seq<u8>>, records: Seq<Option<RecordView>>, i: int, ops: Seq<(Seq<char>, EntryView)>) -> Result<Seq<(Seq<char>, EntryView)>, Seq<char>>
    decreases lines.len() - i,
{
    if i >= lines.len() || i < 0 {
        Ok(ops)
    } else if lines[i].len() == 0 {
        Err("checkpoint journal contains an empty record"@)
    } else {
        match records[i] {
            None => Err("checkpoint journal is corrupt"@),
            Some(RecordView::Header { .. }) => Err("checkpoint journal contains an unexpected header"@),
            Some(RecordView::Operation { operation_key, entry }) =>
                if !is_hash_text(operation_key) {
                    Err("operation checkpoint key is invalid"@)
                } else if spec_entry_error(entry) is Some {
                    Err(spec_entry_error(entry).unwrap())
                } else if spec_insert(ops, operation_key, entry).len() > MAX_CHECKPOINT_OPERATIONS {
                    Err("checkpoint contains more than 10000 operations"@)
                } else {
                    journal_fold(lines, records, i + 1, spec_insert(ops, operation_key, entry))
                },
        }
    }
}

/// The map that replaying records `i..` onto `m` gives: each operation
/// record sets its key to its entry, in order, so a later record of a key
/// wins.
pub open spec fn replay_operations(records: Seq<Option<RecordView>>, i: int, m: Map<Seq<char>, EntryView>) -> Map<Seq<char>, EntryView>
    decreases records.len() - i,
{
    if i >= records.len() || i < 0 {
        m
    } else {
        match records[i] {
            Some(RecordView::Operation { operation_key, entry }) =>
                replay_operations(records, i + 1, m.insert(operation_key, entry)),
            _ => replay_operations(records, i + 1, m),
        }
    }
}

proof fn lemma_journal_fold_replays(lines: Seq<Seq<u8>>, records: Seq<Option<RecordView>>, i: int, ops: Seq<(Seq<char>, EntryView)>)
    requires
        records.len() == lines.len(),
        distinct_keys(ops),
        journal_fold(lines, records, i, ops) is Ok,
    ensures
        distinct_keys(journal_fold(lines, records, i, ops)->Ok_0),
        seq_map(journal_fold(lines, records, i, ops)->Ok_0) == replay_operations(records, i, seq_map(ops)),
    decreases lines.len() - i,
{
    if i >= lines.len() || i < 0 {
    } else {
        match records[i] {
            Some(RecordView::Operation { operation_key, entry }) => {
                lemma_spec_insert_map(ops, operation_key, entry);
                lemma_journal_fold_replays(lines, records, i + 1, spec_insert(ops, operation_key, entry));
            },
            _ => {},
        }
    }
}

/// Reading a checkpoint back from its journal gives exactly the map that
/// inserting each operation record, in journal order, into an empty map
/// gives; no key is recorded twice.
pub proof fn lemma_journal_replay_inserts_in_order(lines: Seq<Seq<u8>>, records: Seq<Option<RecordView>>)
    requires
        lines.len() >= 1,
        records.len() == lines.len(),
        spec_parse_journal(lines, records) is Ok,
    ensures
        distinct_keys(spec_parse_journal(lines, records)->Ok_0.2),
        seq_map(spec_parse_journal(lines, records)->Ok_0.2) == replay_operations(records, 1, Map::empty()),
{
    let empty = Seq::<(Seq<char>, EntryView)>::empty();
    assert(seq_map(empty) =~= Map::empty());
    lemma_journal_fold_replays(lines, records, 1, empty);
}

/// A checkpoint read back from its journal records, or why it cannot be.
pub open spec fn spec_parse_journal(lines: Seq<Seq<u8>>, records: Seq<Option<RecordView>>) -> Result<(u64, Seq<char>, Seq<(Seq<char>, EntryView)>), Seq<char>> {
    match records[0] {
        None => Err("checkpoint journal is corrupt"@),
        Some(RecordView::Operation { .. }) => Err("checkpoint journal must begin with its header"@),
        Some(RecordView::Header { schema_version, input_sha256 }) =>
            match journal_fold(lines, records, 1, Seq::empty()) {
                Ok(ops) => Ok((schema_version, input_sha256, ops)),
                Err(m) => Err(m),
            },
    }
}

/// Rebuilds a checkpoint from its journal: `lines` are the complete
/// records and `records[i]` is `lines[i]` decoded, `None` where it did not
/// decode. The first record must be the header; later ones are applied in
/// order, a later record of a key replacing an earlier one.
pub fn parse_checkpoint_journal(lines: &Vec<Vec<u8>>, records: &Vec<Option<CheckpointRecord>>) -> (r: Result<CheckpointFile, CliError>)
    requires
        lines@.len() >= 1,
        records@.len() == lines@.len(),
    ensures
        match spec_parse_journal(lines@.map_values(|l: Vec<u8>| l@), record_views(records@)) {
            Ok((schema_version, input_sha256, ops)) => r matches Ok(c) && c.schema_version == schema_version
                && c.input_sha256@ == input_sha256 && c.operations@ == ops && c.operations.wf(),
            Err(m) => r matches Err(e) && e.code@ == "checkpoint_conflict"@ && e.message@ == m
                && e.exit_code == crate::error::CHECKPOINT_EXIT_CODE,
        },
{
    let ghost ls = lines@.map_values(|l: Vec<u8>| l@);
    let ghost rs = record_views(records@);
    assert(rs[0] == match records@[0] { Some(r) => Some(r@), None => None::<RecordView> });
    let (schema_version, input_sha256) = match &records[0] {
        None => return Err(CliError::checkpoint_conflict(owned("checkpoint journal is corrupt"))),
        Some(CheckpointRecord::Operation { .. }) =>
            return Err(CliError::checkpoint_conflict(owned("checkpoint journal must begin with its header"))),
        Some(CheckpointRecord::Header { schema_version, input_sha256 }) => (*schema_version, owned(input_sha256.as_str())),
    };
    let mut operations = CheckpointOperations::new();
    let mut i: usize = 1;
    proof {
        reveal_strlit("operation checkpoint key");
        reveal_strlit(" is invalid");
        reveal_strlit("operation checkpoint key is invalid");
        assert("operation checkpoint key"@ + " is invalid"@ =~= "operation checkpoint key is invalid"@);
    }
    while i < lines.len()
        invariant
            1 <= i <= lines@.len(),
            records@.len() == lines@.len(),
            ls == lines@.map_values(|l: Vec<u8>| l@),
            rs == record_views(records@),
            rs[0] == Some(RecordView::Header { schema_version, input_sha256: input_sha256@ }),
            operations.wf(),
            journal_fold(ls, rs, 1, Seq::empty()) == journal_fold(ls, rs, i as int, operations@),
            "operation checkpoint key"@ + " is invalid"@ == "operation checkpoint key is invalid"@,
        decreases lines@.len() - i,
    {
        assert(ls[i as int] == lines@[i as int]@);
        assert(rs[i as int] == match records@[i as int] { Some(r) => Some(r@), None => None::<RecordView> });
        if lines[i].len() == 0 {
            return Err(CliError::checkpoint_conflict(owned("checkpoint journal contains an empty record")));
        }
        match &records[i] {
            None => return Err(CliError::checkpoint_conflict(owned("checkpoint journal is corrupt"))),
            Some(CheckpointRecord::Header { .. }) =>
                return Err(CliError::checkpoint_conflict(owned("checkpoint journal contains an unexpected header"))),
            Some(CheckpointRecord::Operation { operation_key, entry }) => {
                validate_hash(operation_key.as_str(), "operation checkpoint key")?;
                validate_entry(entry)?;
                operations.insert(owned(operation_key.as_str()), entry.duplicate());
                if operations.len() > MAX_CHECKPOINT_OPERATIONS {
                    return Err(CliError::checkpoint_conflict(owned("checkpoint contains more than 10000 operations")));
                }
            },
        }
        i += 1;
    }
    Ok(CheckpointFile { schema_version, input_sha256, operations })
}

/// The checkpoint a batch starts from: the existing one when resuming, a
/// new empty one otherwise, with whether the saved file is replaced.
pub open spec fn spec_open_error(resume: bool, existing: Option<(u64, Seq<char>, Seq<(Seq<char>, EntryView)>)>, input_sha256: Seq<char>) -> Option<Seq<char>> {
    match (resume, existing) {
        (true, Some((v, h, ops))) => spec_checkpoint_error(v, h, ops, input_sha256),
        (true, None) => Some("--resume requires an existing checkpoint"@),
        (false, Some(_)) => Some("checkpoint already exists; pass --resume only with the exact original input, or choose a new checkpoint path"@),
        (false, None) => spec_checkpoint_error(BATCH_SCHEMA_VERSION, input_sha256, Seq::empty(), input_sha256),
    }
}

/// The parts of a checkpoint's view.
pub open spec fn file_parts(c: CheckpointFile) -> (u64, Seq<char>, Seq<(Seq<char>, EntryView)>) {
    (c.schema_version, c.input_sha256@, c.operations@)
}

/// The parts of an optional checkpoint's view.
pub open spec fn opt_file_parts(c: Option<CheckpointFile>) -> Option<(u64, Seq<char>, Seq<(Seq<char>, EntryView)>)> {
    match c {
        Some(f) => Some(file_parts(f)),
        None => None,
    }
}

/// Decides the checkpoint a batch starts from, given what was found at the
/// checkpoint path: resuming needs an existing checkpoint of the same
/// input; a fresh run needs none. Returns it and whether a saved file is
/// replaced.
pub fn initial_checkpoint(input_sha256: &str, resume: bool, existing: Option<CheckpointFile>) -> (r: Result<(CheckpointFile, bool), CliError>)
    ensures
        match spec_open_error(resume, opt_file_parts(existing), input_sha256@) {
            Some(m) => r matches Err(e) && e.code@ == "checkpoint_conflict"@ && e.message@ == m
                && e.exit_code == crate::error::CHECKPOINT_EXIT_CODE,
            None => r matches Ok((c, replace)) && replace == existing is Some
                && (resume ==> existing == Some(c))
                && (!resume ==> c.schema_version == BATCH_SCHEMA_VERSION && c.input_sha256@ == input_sha256@
                    && c.operations@ == Seq::<(Seq<char>, EntryView)>::empty() && c.operations.wf()),
        },
{
    let replace_existing = existing.is_some();
    let checkpoint = match (resume, existing) {
        (true, Some(checkpoint)) => checkpoint,
        (true, None) => return Err(CliError::checkpoint_conflict(owned("--resume requires an existing checkpoint"))),
        (false, Some(_)) => return Err(CliError::checkpoint_conflict(owned(
            "checkpoint already exists; pass --resume only with the exact original input, or choose a new checkpoint path",
        ))),
        (false, None) => CheckpointFile {
            schema_version: BATCH_SCHEMA_VERSION,
            input_sha256: owned(input_sha256),
            operations: CheckpointOperations::new(),
        },
    };
    validate_checkpoint(&checkpoint, input_sha256)?;
    Ok((checkpoint, replace_existing))
}


/// The name of the lock file beside a checkpoint named `file_name`.
pub open spec fn spec_lock_name(file_name: Seq<u8>) -> Seq<u8> {
    file_name + seq![46u8, 108u8, 111u8, 99u8, 107u8]
}

/// The lock file's name: the checkpoint's name followed by `.lock`.
pub fn lock_name(file_name: &Vec<u8>) -> (r: Vec<u8>)
    ensures
        r@ == spec_lock_name(file_name@),
{
    let mut r = file_name.clone();
    r.push(46u8);
    r.push(108u8);
    r.push(111u8);
    r.push(99u8);
    r.push(107u8);
    assert(r@ =~= spec_lock_name(file_name@));
    r
}

/// A path's last component when it names a file.
pub open spec fn names_file(path: Seq<ComponentView>) -> bool {
    path.len() > 0 && path.last() is Normal
}

/// The directory that holds the file a path names: the path without its
/// last component, or `.` when nothing is left.
pub open spec fn spec_checkpoint_parent(path: Seq<ComponentView>) -> Seq<ComponentView> {
    if path.len() <= 1 {
        seq![ComponentView::CurDir]
    } else {
        path.drop_last()
    }
}

/// Copies of the first `n` components of `path`.
pub fn copy_components(path: &Vec<PathComponent>, n: usize) -> (r: Vec<PathComponent>)
    requires
        n <= path@.len(),
    ensures
        components_view(r@) == components_view(path@).subrange(0, n as int),
{
    let mut r: Vec<PathComponent> = Vec::new();
    let mut i: usize = 0;
    while i < n
        invariant
            i <= n <= path@.len(),
            components_view(r@) == components_view(path@).subrange(0, i as int),
        decreases n - i,
    {
        let c = path[i].duplicate();
        let ghost cv = c@;
        let ghost before = r@;
        assert(components_view(before).len() == before.len());
        assert(before.len() == i);
        r.push(c);
        assert(r@ == before.push(c));
        assert(r@[i as int]@ == cv);
        assert forall|j: int| 0 <= j < i + 1 implies #[trigger] components_view(r@)[j] == components_view(path@).subrange(0, i + 1)[j] by {
            if j < i {
                assert(components_view(before)[j] == components_view(path@).subrange(0, i as int)[j]);
            }
        }
        assert(components_view(r@) =~= components_view(path@).subrange(0, i + 1));
        i += 1;
    }
    r
}

/// The directory in which the checkpoint at `path` lives; the path must
/// name a file.
pub fn checkpoint_parent(path: &Vec<PathComponent>) -> (r: Result<Vec<PathComponent>, CliError>)
    ensures
        names_file(components_view(path@)) ==> (r matches Ok(p) && components_view(p@) == spec_checkpoint_parent(components_view(path@))),
        !names_file(components_view(path@)) ==> (r matches Err(e) && e.code@ == "checkpoint_conflict"@
            && e.message@ == "checkpoint path must name a file"@),
{
    let n = path.len();
    let names = n > 0 && match &path[n - 1] {
        PathComponent::Normal(_) => true,
        _ => false,
    };
    if !names {
        return Err(CliError::checkpoint_conflict(owned("checkpoint path must name a file")));
    }
    if n == 1 {
        let r = vec![PathComponent::CurDir];
        assert(components_view(r@) =~= seq![ComponentView::CurDir]);
        return Ok(r);
    }
    let r = copy_components(path, n - 1);
    assert(components_view(path@).drop_last() =~= components_view(path@).subrange(0, n - 1));
    Ok(r)
}

/// A path with `.` dropped and each `..` removing the name before it, as
/// a path buffer pops; a root or prefix is never removed.
pub open spec fn normalize(cs: Seq<ComponentView>) -> Seq<ComponentView>
    decreases cs.len(),
{
    if cs.len() == 0 {
        Seq::empty()
    } else {
        let p = normalize(cs.drop_last());
        match cs.last() {
            ComponentView::CurDir => p,
            ComponentView::ParentDir => if p.len() > 0 && p.last() is Normal { p.drop_last() } else { p },
            c => p.push(c),
        }
    }
}

/// Normalizes a path lexically: `.` components are dropped and each `..`
/// removes the preceding name.
pub fn normalize_path(path: &Vec<PathComponent>) -> (r: Vec<PathComponent>)
    ensures
        components_view(r@) == normalize(components_view(path@)),
{
    let mut r: Vec<PathComponent> = Vec::new();
    let mut i: usize = 0;
    while i < path.len()
        invariant
            i <= path@.len(),
            components_view(r@) == normalize(components_view(path@).subrange(0, i as int)),
        decreases path@.len() - i,
    {
        assert(components_view(path@).subrange(0, i + 1).drop_last() =~= components_view(path@).subrange(0, i as int));
        assert(components_view(path@).subrange(0, i + 1).last() == path@[i as int]@);
        match &path[i] {
            PathComponent::CurDir => {},
            PathComponent::ParentDir => {
                let n = r.len();
                if n > 0 {
                    let is_name = match &r[n - 1] {
                        PathComponent::Normal(_) => true,
                        _ => false,
                    };
                    if is_name {
                        r.pop();
                        assert(components_view(r@) =~= normalize(components_view(path@).subrange(0, i as int)).drop_last());
                    }
                }
            },
            c => {
                let d = c.duplicate();
                r.push(d);
                assert(components_view(r@) =~= normalize(components_view(path@).subrange(0, i as int)).push(path@[i as int]@));
            },
        }
        i += 1;
    }
    assert(components_view(path@).subrange(0, path@.len() as int) =~= components_view(path@));
    r
}

/// The leading prefix and root of a path, `.` components skipped.
pub open spec fn root_of(cs: Seq<ComponentView>) -> Seq<ComponentView>
    decreases cs.len(),
{
    if cs.len() == 0 {
        Seq::empty()
    } else {
        match cs[0] {
            ComponentView::Prefix => seq![ComponentView::Prefix] + root_of(cs.drop_first()),
            ComponentView::RootDir => seq![ComponentView::RootDir] + root_of(cs.drop_first()),
            ComponentView::CurDir => root_of(cs.drop_first()),
            _ => Seq::empty(),
        }
    }
}

proof fn lemma_root_of_step(cs: Seq<ComponentView>, i: int)
    requires
        0 <= i < cs.len(),
    ensures
        root_of(cs.subrange(i, cs.len() as int)) == match cs[i] {
            ComponentView::Prefix => seq![ComponentView::Prefix] + root_of(cs.subrange(i + 1, cs.len() as int)),
            ComponentView::RootDir => seq![ComponentView::RootDir] + root_of(cs.subrange(i + 1, cs.len() as int)),
            ComponentView::CurDir => root_of(cs.subrange(i + 1, cs.len() as int)),
            _ => Seq::empty(),
        },
{
    assert(cs.subrange(i, cs.len() as int).drop_first() =~= cs.subrange(i + 1, cs.len() as int));
}

/// The filesystem root a path starts from, which must exist.
pub fn filesystem_root(path: &Vec<PathComponent>) -> (r: Result<Vec<PathComponent>, CliError>)
    ensures
        root_of(components_view(path@)).len() > 0 ==> (r matches Ok(root) && components_view(root@) == root_of(components_view(path@))),
        root_of(components_view(path@)).len() == 0 ==> (r matches Err(e) && e.code@ == "checkpoint_io"@
            && e.message@ == "failed to resolve checkpoint filesystem root"@),
{
    let ghost cs = components_view(path@);
    let mut root: Vec<PathComponent> = Vec::new();
    let mut i: usize = 0;
    let mut done = false;
    assert(cs.subrange(0, cs.len() as int) =~= cs);
    while i < path.len() && !done
        invariant
            i <= path@.len(),
            cs == components_view(path@),
            !done ==> components_view(root@) + root_of(cs.subrange(i as int, cs.len() as int)) == root_of(cs),
            done ==> components_view(root@) == root_of(cs),
        decreases path@.len() - i,
    {
        proof { lemma_root_of_step(cs, i as int); }
        match &path[i] {
            PathComponent::Prefix => {
                root.push(PathComponent::Prefix);
                assert(components_view(root@) =~= components_view(root@).drop_last().push(ComponentView::Prefix));
            },
            PathComponent::RootDir => {
                root.push(PathComponent::RootDir);
                assert(components_view(root@) =~= components_view(root@).drop_last().push(ComponentView::RootDir));
            },
            PathComponent::CurDir => {},
            _ => {
                done = true;
            },
        }
        i += 1;
    }
    if !done {
        assert(cs.subrange(i as int, cs.len() as int) =~= Seq::<ComponentView>::empty());
    }
    if root.len() == 0 {
        return Err(checkpoint_io(owned("failed to resolve checkpoint filesystem root")));
    }
    Ok(root)
}


/// An absolute path on the platforms that keep durable checkpoints: one
/// that starts at the root directory.
pub open spec fn is_absolute(cs: Seq<ComponentView>) -> bool {
    cs.len() > 0 && cs[0] is RootDir
}

/// A path made absolute against `current_dir` and normalized, or why it
/// cannot be.
pub open spec fn spec_absolute_normalized(path: Seq<ComponentView>, current_dir: Result<Seq<ComponentView>, Seq<char>>) -> Result<Seq<ComponentView>, (bool, Seq<char>)> {
    if exists|i: int| 0 <= i < path.len() && #[trigger] path[i] == ComponentView::ParentDir {
        Err((true, "checkpoint paths must not contain `..`; use an absolute, symlink-free path"@))
    } else if !is_absolute(path) && current_dir is Err {
        Err((false, "failed to resolve current directory: "@ + current_dir->Err_0))
    } else {
        let absolute = if is_absolute(path) { path } else { current_dir->Ok_0 + path };
        if is_absolute(normalize(absolute)) {
            Ok(normalize(absolute))
        } else {
            Err((false, "failed to resolve checkpoint parent as an absolute path"@))
        }
    }
}

/// Makes a checkpoint path absolute against the working directory
/// `current_dir` (or the error that reading it gave) and normalizes it. A
/// `..` anywhere is refused before anything is resolved.
pub fn absolute_normalized_path(path: &Vec<PathComponent>, current_dir: Result<Vec<PathComponent>, String>) -> (r: Result<Vec<PathComponent>, CliError>)
    ensures
        match spec_absolute_normalized(components_view(path@), match current_dir {
            Ok(c) => Ok(components_view(c@)),
            Err(t) => Err(t@),
        }) {
            Ok(p) => r matches Ok(v) && components_view(v@) == p,
            Err((conflict, m)) => r matches Err(e) && e.message@ == m
                && e.code@ == (if conflict { "checkpoint_conflict"@ } else { "checkpoint_io"@ }),
        },
{
    let ghost cs = components_view(path@);
    let mut i: usize = 0;
    while i < path.len()
        invariant
            i <= path@.len(),
            cs == components_view(path@),
            forall|j: int| 0 <= j < i ==> #[trigger] cs[j] != ComponentView::ParentDir,
        decreases path@.len() - i,
    {
        if let PathComponent::ParentDir = &path[i] {
            assert(cs[i as int] == ComponentView::ParentDir);
            return Err(CliError::checkpoint_conflict(owned("checkpoint paths must not contain `..`; use an absolute, symlink-free path")));
        }
        i += 1;
    }
    let absolute_now = path.len() > 0 && match &path[0] {
        PathComponent::RootDir => true,
        _ => false,
    };
    let absolute = if absolute_now {
        copy_components(path, path.len())
    } else {
        match current_dir {
            Err(t) => {
                let mut message = chars_of("failed to resolve current directory: ");
                push_str(&mut message, t.as_str());
                return Err(checkpoint_io(string_of(&message)));
            },
            Ok(dir) => {
                let mut joined = dir;
                let tail = copy_components(path, path.len());
                let ghost a = joined@;
                let ghost b = tail@;
                let mut rest = tail;
                joined.append(&mut rest);
                assert(joined@ == a + b);
                assert(components_view(joined@) =~= components_view(a) + components_view(b));
                joined
            },
        }
    };
    assert(components_view(path@).subrange(0, path@.len() as int) =~= components_view(path@));
    let normalized = normalize_path(&absolute);
    let absolute_after = normalized.len() > 0 && match &normalized[0] {
        PathComponent::RootDir => true,
        _ => false,
    };
    if !absolute_after {
        return Err(checkpoint_io(owned("failed to resolve checkpoint parent as an absolute path")));
    }
    Ok(normalized)
}

/// What the platform reported of a failed filesystem call.
#[derive(PartialEq, Eq, Structural, Clone, Copy, Debug)]
pub enum IoErrorKind {
    NotFound,
    AlreadyExists,
    NotADirectory,
    InvalidInput,
    WouldBlock,
    Other,
}

/// A failed filesystem call: its kind, the operating system's error
/// number when there is one, and its description.
#[derive(Debug)]
pub struct IoFailure {
    pub kind: IoErrorKind,
    pub raw_os_error: Option<i32>,
    pub description: String,
}

/// Whether an operating system error number is the platform's error for a
/// symbolic link loop; `symlink_loop_errno` is that number (`ELOOP`), or
/// `None` on a platform that has none.
pub open spec fn spec_symlink_loop(raw_os_error: Option<i32>, symlink_loop_errno: Option<i32>) -> bool {
    symlink_loop_errno is Some && raw_os_error == symlink_loop_errno
}

/// Whether a failed call reported a symbolic link loop, which is how
/// opening a symbolic link without following it fails; `symlink_loop_errno`
/// is the platform's `ELOOP`, or `None` where there is none.
pub fn is_symlink_loop_error(error: &IoFailure, symlink_loop_errno: Option<i32>) -> (r: bool)
    ensures
        r == spec_symlink_loop(error.raw_os_error, symlink_loop_errno),
{
    match (error.raw_os_error, symlink_loop_errno) {
        (Some(code), Some(eloop)) => code == eloop,
        _ => false,
    }
}

/// A failure that shows an opened path is a symbolic link, a reparse
/// point or a non-directory, rather than a failure of the filesystem.
pub open spec fn refuses_traversal(kind: IoErrorKind, symlink_loop: bool) -> bool {
    kind == IoErrorKind::NotADirectory || kind == IoErrorKind::InvalidInput || symlink_loop
}

/// The error for a checkpoint file (named by `label`) that could not be
/// opened relative to its directory; `symlink_loop_errno` is the
/// platform's `ELOOP`, or `None` where there is none.
pub fn relative_open_error(label: &str, error: &IoFailure, symlink_loop_errno: Option<i32>) -> (e: CliError)
    ensures
        refuses_traversal(error.kind, spec_symlink_loop(error.raw_os_error, symlink_loop_errno)) ==> (e.code@ == "checkpoint_conflict"@
            && e.message@ == label@ + " must be a regular file and must not be a symlink or reparse point"@),
        !refuses_traversal(error.kind, spec_symlink_loop(error.raw_os_error, symlink_loop_errno)) ==> (e.code@ == "checkpoint_io"@
            && e.message@ == "failed to open "@ + label@ + ": "@ + error.description@),
        e.exit_code == crate::error::CHECKPOINT_EXIT_CODE,
{
    let symlink_loop = is_symlink_loop_error(error, symlink_loop_errno);
    if error.kind == IoErrorKind::NotADirectory || error.kind == IoErrorKind::InvalidInput || symlink_loop {
        let mut message = chars_of(label);
        push_str(&mut message, " must be a regular file and must not be a symlink or reparse point");
        CliError::checkpoint_conflict(string_of(&message))
    } else {
        let mut message = chars_of("failed to open ");
        push_str(&mut message, label);
        push_str(&mut message, ": ");
        push_str(&mut message, error.description.as_str());
        checkpoint_io(string_of(&message))
    }
}

/// The error for a checkpoint parent directory, shown as `path`, that
/// could not be opened; `symlink_loop_errno` is the platform's `ELOOP`, or
/// `None` where there is none.
pub fn parent_component_error(path: &str, error: &IoFailure, symlink_loop_errno: Option<i32>) -> (e: CliError)
    ensures
        refuses_traversal(error.kind, spec_symlink_loop(error.raw_os_error, symlink_loop_errno)) ==> (e.code@ == "checkpoint_conflict"@
            && e.message@ == "checkpoint parent must not traverse a symlink, reparse point, or non-directory component: "@ + path@),
        !refuses_traversal(error.kind, spec_symlink_loop(error.raw_os_error, symlink_loop_errno)) ==> (e.code@ == "checkpoint_io"@
            && e.message@ == "failed to open checkpoint parent "@ + path@ + ": "@ + error.description@),
        e.exit_code == crate::error::CHECKPOINT_EXIT_CODE,
{
    let symlink_loop = is_symlink_loop_error(error, symlink_loop_errno);
    if error.kind == IoErrorKind::NotADirectory || error.kind == IoErrorKind::InvalidInput || symlink_loop {
        let mut message = chars_of("checkpoint parent must not traverse a symlink, reparse point, or non-directory component: ");
        push_str(&mut message, path);
        CliError::checkpoint_conflict(string_of(&message))
    } else {
        let mut message = chars_of("failed to open checkpoint parent ");
        push_str(&mut message, path);
        push_str(&mut message, ": ");
        push_str(&mut message, error.description.as_str());
        checkpoint_io(string_of(&message))
    }
}

/// Checks that checkpoint state (named by `label`) is owned by the
/// effective user.
pub fn validate_effective_owner_ids(owner_uid: u32, effective_uid: u32, label: &str) -> (r: Result<(), CliError>)
    ensures
        r is Ok <==> owner_uid == effective_uid,
        r matches Err(e) ==> e.code@ == "checkpoint_conflict"@
            && e.message@ == label@ + " must be owned by the current effective user"@
            && e.exit_code == crate::error::CHECKPOINT_EXIT_CODE,
{
    if owner_uid != effective_uid {
        let mut message = chars_of(label);
        push_str(&mut message, " must be owned by the current effective user");
        return Err(CliError::checkpoint_conflict(string_of(&message)));
    }
    Ok(())
}

/// Durable checkpoints are kept only on Linux and macOS, the platforms
/// whose filesystems the journal's durability relies on; `target_os` names
/// the platform as Rust does (`linux`, `macos`, `windows`, ...).
pub fn ensure_durable_checkpoint_platform(target_os: &str) -> (r: Result<(), CliError>)
    ensures
        r is Ok <==> (target_os@ == "linux"@ || target_os@ == "macos"@),
        r matches Err(e) ==> e.code@ == "checkpoint_conflict"@
            && e.message@ == "durable batch checkpoints require Linux or macOS; omit --checkpoint and --resume"@
            && e.exit_code == crate::error::CHECKPOINT_EXIT_CODE,
{
    if str_eq(target_os, "linux") || str_eq(target_os, "macos") {
        return Ok(());
    }
    Err(CliError::checkpoint_conflict(owned("durable batch checkpoints require Linux or macOS; omit --checkpoint and --resume")))
}

/// Refuses a checkpoint that is the batch input file itself: `input` is
/// the input path as given (`-` for standard input) and `canonical` the
/// resolved input and checkpoint targets, present when a checkpoint was
/// given.
pub fn reject_input_checkpoint_conflict(input: &Vec<u8>, canonical: Option<(Result<Vec<u8>, CliError>, Result<Vec<u8>, CliError>)>) -> (r: Result<(), CliError>)
    ensures
        match canonical {
            None => r is Ok,
            Some((ci, cc)) => if input@ == seq![45u8] {
                r is Ok
            } else {
                match (ci, cc) {
                    (Err(e), _) => r == Err::<(), CliError>(e),
                    (Ok(_), Err(e)) => r == Err::<(), CliError>(e),
                    (Ok(a), Ok(b)) => if a@ == b@ {
                        r matches Err(e) && e.code@ == "checkpoint_conflict"@
                            && e.message@ == "batch input and checkpoint must be different files"@
                            && e.exit_code == crate::error::CHECKPOINT_EXIT_CODE
                    } else {
                        r is Ok
                    },
                }
            },
        },
{
    let (canonical_input, canonical_checkpoint) = match canonical {
        None => return Ok(()),
        Some(pair) => pair,
    };
    if input.len() == 1 && input[0] == 45u8 {
        assert(input@ =~= seq![45u8]);
        return Ok(());
    }
    let a = canonical_input?;
    let b = canonical_checkpoint?;
    let mut same = a.len() == b.len();
    let mut i: usize = 0;
    while same && i < a.len()
        invariant
            i <= a.len(),
            same ==> a.len() == b.len(),
            same ==> forall|j: int| 0 <= j < i ==> a@[j] == b@[j],
            !same ==> a@ != b@,
        decreases a.len() - i,
    {
        if a[i] != b[i] {
            same = false;
        }
        i += 1;
    }
    if same {
        assert(a@ =~= b@);
        return Err(CliError::checkpoint_conflict(owned("batch input and checkpoint must be different files")));
    }
    Ok(())
}


/// Recording an entry keeps keys distinct and changes the map exactly at
/// its key.
pub proof fn lemma_spec_insert_map(s: Seq<(Seq<char>, EntryView)>, k: Seq<char>, v: EntryView)
    requires
        distinct_keys(s),
    ensures
        distinct_keys(spec_insert(s, k, v)),
        seq_map(spec_insert(s, k, v)) == seq_map(s).insert(k, v),
{
    let t = spec_insert(s, k, v);
    if has_key(s, k) {
        let i = choose|i: int| 0 <= i < s.len() && #[trigger] s[i].0 == k;
        assert(t == s.update(i, (k, v)));
        assert forall|a: int, b: int| 0 <= a < b < t.len() implies #[trigger] t[a].0 != #[trigger] t[b].0 by {
            assert(s[a].0 == t[a].0 || a == i);
            assert(s[b].0 == t[b].0 || b == i);
        }
        assert forall|x: Seq<char>| #[trigger] seq_map(t).dom().contains(x) == seq_map(s).insert(k, v).dom().contains(x) by {
            if has_key(t, x) {
                let a = choose|a: int| 0 <= a < t.len() && #[trigger] t[a].0 == x;
                if a != i {
                    assert(s[a].0 == x);
                }
            }
            if has_key(s, x) {
                let a = choose|a: int| 0 <= a < s.len() && #[trigger] s[a].0 == x;
                assert(t[a].0 == x || a == i);
            }
        }
        assert forall|x: Seq<char>| #[trigger] seq_map(t).dom().contains(x) implies seq_map(t)[x] == seq_map(s).insert(k, v)[x] by {
            let a = choose|a: int| 0 <= a < t.len() && #[trigger] t[a].0 == x;
            lemma_seq_map_at(t, a);
            if a != i {
                lemma_seq_map_at(s, a);
            }
        }
        assert(seq_map(t) =~= seq_map(s).insert(k, v));
    } else {
        let p = insertion_point(s, k);
        lemma_insertion_point_props(s, k);
        assert(t == s.insert(p, (k, v)));
        assert forall|a: int, b: int| 0 <= a < b < t.len() implies #[trigger] t[a].0 != #[trigger] t[b].0 by {
            if a < p {
                assert(t[a] == s[a]);
            } else if a > p {
                assert(t[a] == s[a - 1]);
            }
            if b < p {
                assert(t[b] == s[b]);
            } else if b > p {
                assert(t[b] == s[b - 1]);
            }
        }
        assert forall|x: Seq<char>| #[trigger] seq_map(t).dom().contains(x) == seq_map(s).insert(k, v).dom().contains(x) by {
            if has_key(t, x) {
                let a = choose|a: int| 0 <= a < t.len() && #[trigger] t[a].0 == x;
                if a < p {
                    assert(s[a].0 == x);
                } else if a > p {
                    assert(s[a - 1].0 == x);
                }
            }
            if has_key(s, x) {
                let a = choose|a: int| 0 <= a < s.len() && #[trigger] s[a].0 == x;
                if a < p {
                    assert(t[a].0 == x);
                } else {
                    assert(t[a + 1].0 == x);
                }
            }
            if x == k {
                assert(t[p].0 == x);
            }
        }
        assert forall|x: Seq<char>| #[trigger] seq_map(t).dom().contains(x) implies seq_map(t)[x] == seq_map(s).insert(k, v)[x] by {
            let a = choose|a: int| 0 <= a < t.len() && #[trigger] t[a].0 == x;
            lemma_seq_map_at(t, a);
            if a < p {
                assert(s[a].0 == x);
                lemma_seq_map_at(s, a);
            } else if a > p {
                assert(s[a - 1].0 == x);
                lemma_seq_map_at(s, a - 1);
            }
        }
        assert(seq_map(t) =~= seq_map(s).insert(k, v));
    }
}

/// What a checkpoint records under an operation key is what a resumed
/// batch reads back under that key, and recording it leaves what every
/// other key reads back unchanged.
pub proof fn lemma_resume_reads_back_recorded_entry(s: Seq<(Seq<char>, EntryView)>, key: Seq<char>, entry: EntryView, other: Seq<char>)
    requires
        distinct_keys(s),
    ensures
        map_lookup(seq_map(spec_insert(s, key, entry)), key) == Some(entry),
        other != key ==> map_lookup(seq_map(spec_insert(s, key, entry)), other) == map_lookup(seq_map(s), other),
{
    lemma_spec_insert_map(s, key, entry);
}


proof fn lemma_last_newline_tail(journal: Seq<u8>, tail: Seq<u8>)
    requires
        forall|i: int| 0 <= i < tail.len() ==> #[trigger] tail[i] != 10u8,
    ensures
        last_newline(journal + tail) == last_newline(journal),
    decreases tail.len(),
{
    if tail.len() == 0 {
        assert(journal + tail =~= journal);
    } else {
        let shorter = tail.drop_last();
        assert forall|i: int| 0 <= i < shorter.len() implies #[trigger] shorter[i] != 10u8 by {
            assert(shorter[i] == tail[i]);
        }
        lemma_last_newline_tail(journal, shorter);
        let whole = journal + tail;
        assert(whole.drop_last() =~= journal + shorter);
        assert(whole.last() == tail[tail.len() - 1]);
    }
}

/// A write cut short leaves bytes after the journal's last newline; reading
/// the journal back ignores exactly that tail: the complete records are
/// those before it.
pub proof fn lemma_unterminated_tail_is_ignored(journal: Seq<u8>, tail: Seq<u8>)
    requires
        forall|i: int| 0 <= i < tail.len() ==> #[trigger] tail[i] != 10u8,
    ensures
        spec_journal_lines(journal + tail) == spec_journal_lines(journal),
{
    lemma_last_newline_tail(journal, tail);
    lemma_last_newline(journal);
    let ln = last_newline(journal);
    if ln >= 0 {
        assert((journal + tail).subrange(0, ln) =~= journal.subrange(0, ln));
    }
}

/// Reading a checkpoint journal back from its bytes: an unterminated tail
/// (a record whose write was torn) is ignored, and the complete records
/// give exactly the map that inserting each operation record, in order,
/// into an empty map gives.
pub proof fn lemma_journal_bytes_replay(journal: Seq<u8>, tail: Seq<u8>, records: Seq<Option<RecordView>>)
    requires
        forall|i: int| 0 <= i < tail.len() ==> #[trigger] tail[i] != 10u8,
        spec_journal_lines(journal) is Some,
        spec_journal_lines(journal)->0.len() >= 1,
        records.len() == spec_journal_lines(journal)->0.len(),
        spec_parse_journal(spec_journal_lines(journal)->0, records) is Ok,
    ensures
        spec_journal_lines(journal + tail) == spec_journal_lines(journal),
        distinct_keys(spec_parse_journal(spec_journal_lines(journal + tail)->0, records)->Ok_0.2),
        seq_map(spec_parse_journal(spec_journal_lines(journal + tail)->0, records)->Ok_0.2)
            == replay_operations(records, 1, Map::empty()),
{
    lemma_unterminated_tail_is_ignored(journal, tail);
    lemma_journal_replay_inserts_in_order(spec_journal_lines(journal)->0, records);
}

} // verus!
