use crate::auth::{lines, split_lines};
use crate::error::PublicError;
use crate::text::{is_whitespace, owned, spec_is_whitespace};
use std::collections::{HashMap, HashSet};
use vstd::prelude::*;
use vstd::set_lib::lemma_len_subset;
use vstd::std_specs::iter::IteratorSpec;
use vstd::utf8::{decode_utf8, valid_utf8};

verus! {

broadcast use vstd::std_specs::hash::group_hash_axioms;

/// A process that the harness owns outright, given each process's parent
/// (`parents`): a child of the owner that was not already its child before
/// the harness started, or the harness's root process while the owner is
/// still its parent.
pub open spec fn directly_owned(parents: Map<i32, i32>, root_process_id: i32, owner_process_id: i32, baseline_children: Set<i32>, p: i32) -> bool {
    ||| (parents.contains_key(p) && parents[p] == owner_process_id && !baseline_children.contains(p))
    ||| (p == root_process_id && parents.contains_key(root_process_id) && parents[root_process_id] == owner_process_id)
}

/// `p` is directly owned or descends from a directly owned process through
/// at most `depth` parent links.
pub open spec fn owned_within(parents: Map<i32, i32>, root_process_id: i32, owner_process_id: i32, baseline_children: Set<i32>, depth: nat, p: i32) -> bool
    decreases depth,
{
    ||| directly_owned(parents, root_process_id, owner_process_id, baseline_children, p)
    ||| (depth > 0 && parents.contains_key(p)
        && owned_within(parents, root_process_id, owner_process_id, baseline_children, (depth - 1) as nat, parents[p]))
}

/// `p` belongs to the harness's process tree: it is directly owned or
/// descends from a directly owned process.
pub open spec fn is_owned(parents: Map<i32, i32>, root_process_id: i32, owner_process_id: i32, baseline_children: Set<i32>, p: i32) -> bool {
    exists|depth: nat| #[trigger] owned_within(parents, root_process_id, owner_process_id, baseline_children, depth, p)
}

/// The entries of a process table, in the order the table is walked.
fn parent_rows(processes: &HashMap<i32, i32>) -> (rows: Vec<(i32, i32)>)
    ensures
        forall|i: int| 0 <= i < rows@.len() ==> processes@.contains_key(#[trigger] rows@[i].0) && processes@[rows@[i].0] == rows@[i].1,
        forall|p: i32| #[trigger] processes@.contains_key(p) ==> exists|i: int| 0 <= i < rows@.len() && rows@[i].0 == p,
{
    let mut rows: Vec<(i32, i32)> = Vec::new();
    for (p, q) in it: processes.iter()
        invariant
            rows@.len() == it.index(),
            forall|i: int| 0 <= i < rows@.len() ==> rows@[i] == (*it.seq()[i].0, *it.seq()[i].1),
            it.seq() == vstd::std_specs::hash::spec_hash_map_iter(processes).remaining(),
    {
        rows.push((*p, *q));
    }
    proof {
        let v = vstd::std_specs::hash::spec_hash_map_iter(processes).remaining();
        assert forall|p: i32| #[trigger] processes@.contains_key(p) implies exists|i: int| 0 <= i < rows@.len() && rows@[i].0 == p by {
            assert(v.contains((&p, &processes@[p])));
            let i = choose|i: int| 0 <= i < v.len() && v[i] == (&p, &processes@[p]);
            assert(rows@[i].0 == p);
        }
    }
    rows
}

/// A set of processes that holds every directly owned process and every
/// child of its members holds every process of the tree.
proof fn lemma_closed_set_holds_tree(parents: Map<i32, i32>, root_process_id: i32, owner_process_id: i32, baseline_children: Set<i32>, owned: Set<i32>, depth: nat, p: i32)
    requires
        forall|q: i32| directly_owned(parents, root_process_id, owner_process_id, baseline_children, q) ==> owned.contains(q),
        forall|c: i32| #[trigger] parents.contains_key(c) && owned.contains(parents[c]) ==> owned.contains(c),
        owned_within(parents, root_process_id, owner_process_id, baseline_children, depth, p),
    ensures
        owned.contains(p),
    decreases depth,
{
    if !directly_owned(parents, root_process_id, owner_process_id, baseline_children, p) {
        lemma_closed_set_holds_tree(parents, root_process_id, owner_process_id, baseline_children, owned, (depth - 1) as nat, parents[p]);
    }
}

/// The processes of the harness's tree, given each process's parent: the
/// processes the harness owns directly and, transitively, their children.
/// Processes that were the owner's children before the harness started are
/// not its own.
pub fn owned_processes(processes: &HashMap<i32, i32>, root_process_id: i32, owner_process_id: i32, baseline_children: &HashSet<i32>) -> (owned: HashSet<i32>)
    ensures
        forall|p: i32| owned@.contains(p) <==> is_owned(processes@, root_process_id, owner_process_id, baseline_children@, p),
{
    let ghost parents = processes@;
    let ghost baseline = baseline_children@;
    let rows = parent_rows(processes);
    let mut owned: HashSet<i32> = HashSet::new();
    let mut i: usize = 0;
    while i < rows.len()
        invariant
            i <= rows@.len(),
            parents == processes@,
            baseline == baseline_children@,
            forall|j: int| 0 <= j < rows@.len() ==> parents.contains_key(#[trigger] rows@[j].0) && parents[rows@[j].0] == rows@[j].1,
            forall|q: i32| owned@.contains(q) ==> directly_owned(parents, root_process_id, owner_process_id, baseline, q),
            forall|j: int| 0 <= j < i && rows@[j].1 == owner_process_id && !baseline.contains(rows@[j].0) ==> owned@.contains(#[trigger] rows@[j].0),
        decreases rows@.len() - i,
    {
        let (p, q) = rows[i];
        if q == owner_process_id && !baseline_children.contains(&p) {
            owned.insert(p);
        }
        i += 1;
    }
    if processes.get(&root_process_id) == Some(&owner_process_id) {
        owned.insert(root_process_id);
    }
    proof {
        assert forall|q: i32| directly_owned(parents, root_process_id, owner_process_id, baseline, q) implies owned@.contains(q) by {
            if parents.contains_key(q) && parents[q] == owner_process_id && !baseline.contains(q) {
                let j = choose|j: int| 0 <= j < rows@.len() && rows@[j].0 == q;
                assert(owned@.contains(rows@[j].0));
            }
        }
        assert forall|q: i32| owned@.contains(q) implies is_owned(parents, root_process_id, owner_process_id, baseline, q) by {
            assert(owned_within(parents, root_process_id, owner_process_id, baseline, 0, q));
        }
    }
    loop
        invariant
            parents == processes@,
            baseline == baseline_children@,
            forall|j: int| 0 <= j < rows@.len() ==> parents.contains_key(#[trigger] rows@[j].0) && parents[rows@[j].0] == rows@[j].1,
            forall|p: i32| #[trigger] parents.contains_key(p) ==> exists|j: int| 0 <= j < rows@.len() && rows@[j].0 == p,
            forall|q: i32| directly_owned(parents, root_process_id, owner_process_id, baseline, q) ==> owned@.contains(q),
            forall|q: i32| owned@.contains(q) ==> is_owned(parents, root_process_id, owner_process_id, baseline, q),
            owned@.subset_of(parents.dom()),
        decreases parents.dom().len() - owned@.len(),
    {
        let ghost before = owned@;
        let mut descendants: Vec<i32> = Vec::new();
        let mut j: usize = 0;
        while j < rows.len()
            invariant
                j <= rows@.len(),
                owned@ == before,
                forall|k: int| 0 <= k < rows@.len() ==> parents.contains_key(#[trigger] rows@[k].0) && parents[rows@[k].0] == rows@[k].1,
                forall|k: int| 0 <= k < descendants@.len() ==> parents.contains_key(#[trigger] descendants@[k])
                    && before.contains(parents[descendants@[k]]),
                forall|k: int| 0 <= k < j && before.contains(rows@[k].1) ==> descendants@.contains(#[trigger] rows@[k].0),
            decreases rows@.len() - j,
        {
            let (p, q) = rows[j];
            if owned.contains(&q) {
                let ghost old_descendants = descendants@;
                descendants.push(p);
                proof {
                    assert forall|k: int| 0 <= k < j + 1 && before.contains(rows@[k].1) implies descendants@.contains(#[trigger] rows@[k].0) by {
                        if k < j {
                            let m = choose|m: int| 0 <= m < old_descendants.len() && old_descendants[m] == rows@[k].0;
                            assert(descendants@[m] == rows@[k].0);
                        } else {
                            assert(descendants@[old_descendants.len() as int] == rows@[k].0);
                        }
                    }
                }
            }
            j += 1;
        }
        let mut grew = false;
        let mut k: usize = 0;
        while k < descendants.len()
            invariant
                k <= descendants@.len(),
                before.subset_of(owned@),
                owned@.subset_of(parents.dom()),
                forall|q: i32| owned@.contains(q) ==> before.contains(q)
                    || exists|m: int| 0 <= m < k && descendants@[m] == q,
                forall|m: int| 0 <= m < k ==> owned@.contains(#[trigger] descendants@[m]),
                forall|m: int| 0 <= m < descendants@.len() ==> parents.contains_key(#[trigger] descendants@[m])
                    && before.contains(parents[descendants@[m]]),
                grew ==> owned@.len() > before.len(),
                !grew ==> owned@ == before,
                owned@.finite(),
                before.finite(),
            decreases descendants@.len() - k,
        {
            if owned.insert(descendants[k]) {
                grew = true;
            }
            k += 1;
        }
        proof {
            lemma_len_subset(owned@, parents.dom());
            assert forall|q: i32| owned@.contains(q) implies is_owned(parents, root_process_id, owner_process_id, baseline, q) by {
                if !before.contains(q) {
                    let m = choose|m: int| 0 <= m < descendants@.len() && descendants@[m] == q;
                    let parent = parents[q];
                    assert(is_owned(parents, root_process_id, owner_process_id, baseline, parent));
                    let d = choose|d: nat| #[trigger] owned_within(parents, root_process_id, owner_process_id, baseline, d, parent);
                    assert(owned_within(parents, root_process_id, owner_process_id, baseline, d + 1, q));
                }
            }
        }
        if !grew {
            proof {
                assert forall|c: i32| #[trigger] parents.contains_key(c) && owned@.contains(parents[c]) implies owned@.contains(c) by {
                    let m = choose|m: int| 0 <= m < rows@.len() && rows@[m].0 == c;
                    assert(descendants@.contains(rows@[m].0));
                }
                assert forall|p: i32| is_owned(parents, root_process_id, owner_process_id, baseline, p) implies owned@.contains(p) by {
                    let d = choose|d: nat| #[trigger] owned_within(parents, root_process_id, owner_process_id, baseline, d, p);
                    lemma_closed_set_holds_tree(parents, root_process_id, owner_process_id, baseline, owned@, d, p);
                }
            }
            return owned;
        }
    }
}

/// Decodes `bytes` with `String::from_utf8`: the text they encode when
/// they are UTF-8, `None` otherwise.
#[verifier::external_body]
fn utf8_text(bytes: &[u8]) -> (r: Option<String>)
    ensures
        r is Some <==> valid_utf8(bytes@),
        r matches Some(text) ==> text@ == decode_utf8(bytes@),
{
    String::from_utf8(bytes.to_vec()).ok()
}

/// The first index at or after `i` that does not hold white space (or the
/// end of `s`).
pub open spec fn skip_whitespace(s: Seq<char>, i: int) -> int
    decreases s.len() - i,
{
    if i < 0 || i >= s.len() || !spec_is_whitespace(s[i]) {
        i
    } else {
        skip_whitespace(s, i + 1)
    }
}

/// The first index at or after `i` that holds white space (or the end of
/// `s`).
pub open spec fn word_end(s: Seq<char>, i: int) -> int
    decreases s.len() - i,
{
    if i < 0 || i >= s.len() || spec_is_whitespace(s[i]) {
        i
    } else {
        word_end(s, i + 1)
    }
}

/// The value of a run of decimal digits.
pub open spec fn digits_value(d: Seq<char>) -> int
    decreases d.len(),
{
    if d.len() == 0 {
        0
    } else {
        digits_value(d.drop_last()) * 10 + (d.last() as int - '0' as int)
    }
}

/// Every character is an ASCII decimal digit.
pub open spec fn all_digits(d: Seq<char>) -> bool {
    forall|i: int| 0 <= i < d.len() ==> '0' <= #[trigger] d[i] && d[i] <= '9'
}

/// `i32::from_str`: an optional `+` or `-` followed by at least one decimal
/// digit, naming a value within the range of `i32`.
pub open spec fn parse_i32(w: Seq<char>) -> Option<i32> {
    let negative = w.len() > 0 && w[0] == '-';
    let digits = if w.len() > 0 && (w[0] == '-' || w[0] == '+') { w.drop_first() } else { w };
    let value = if negative { -digits_value(digits) } else { digits_value(digits) };
    if digits.len() == 0 || !all_digits(digits) || value < i32::MIN || value > i32::MAX {
        None
    } else {
        Some(value as i32)
    }
}

/// What one line of `ps -axo pid=,ppid=` contributes: its first two
/// white-space separated fields as a process and its parent, unless either
/// is missing or not a number, or the process is the scanner itself.
pub open spec fn line_entry(line: Seq<char>, helper_process_id: i32) -> Option<(i32, i32)> {
    let a = skip_whitespace(line, 0);
    let b = word_end(line, a);
    let c = skip_whitespace(line, b);
    let d = word_end(line, c);
    if a >= line.len() || c >= line.len() {
        None
    } else {
        match (parse_i32(line.subrange(a, b)), parse_i32(line.subrange(c, d))) {
            (Some(p), Some(q)) => if p != helper_process_id { Some((p, q)) } else { None },
            _ => None,
        }
    }
}

/// The parent of each process named by `ls`, a later line about a process
/// replacing an earlier one.
pub open spec fn parent_entries(ls: Seq<Seq<char>>, helper_process_id: i32) -> Map<i32, i32>
    decreases ls.len(),
{
    if ls.len() == 0 {
        Map::empty()
    } else {
        let m = parent_entries(ls.drop_last(), helper_process_id);
        match line_entry(ls.last(), helper_process_id) {
            Some((p, q)) => m.insert(p, q),
            None => m,
        }
    }
}

proof fn lemma_skip_whitespace_bounds(s: Seq<char>, i: int)
    requires
        0 <= i <= s.len(),
    ensures
        i <= skip_whitespace(s, i) <= s.len(),
        forall|k: int| i <= k < skip_whitespace(s, i) ==> spec_is_whitespace(#[trigger] s[k]),
        skip_whitespace(s, i) < s.len() ==> !spec_is_whitespace(s[skip_whitespace(s, i)]),
    decreases s.len() - i,
{
    if i < s.len() && spec_is_whitespace(s[i]) {
        lemma_skip_whitespace_bounds(s, i + 1);
    }
}

proof fn lemma_word_end_bounds(s: Seq<char>, i: int)
    requires
        0 <= i <= s.len(),
    ensures
        i <= word_end(s, i) <= s.len(),
        forall|k: int| i <= k < word_end(s, i) ==> !spec_is_whitespace(#[trigger] s[k]),
        word_end(s, i) < s.len() ==> spec_is_whitespace(s[word_end(s, i)]),
    decreases s.len() - i,
{
    if i < s.len() && !spec_is_whitespace(s[i]) {
        lemma_word_end_bounds(s, i + 1);
    }
}

/// The index of the first character at or after `i` that is (`white` true)
/// or is not (`white` false) white space.
fn scan(s: &Vec<char>, i: usize, white: bool) -> (r: usize)
    requires
        i <= s@.len(),
    ensures
        white ==> r == word_end(s@, i as int),
        !white ==> r == skip_whitespace(s@, i as int),
{
    let mut k = i;
    while k < s.len() && is_whitespace(s[k]) != white
        invariant
            i <= k <= s@.len(),
            white ==> word_end(s@, i as int) == word_end(s@, k as int),
            !white ==> skip_whitespace(s@, i as int) == skip_whitespace(s@, k as int),
        decreases s@.len() - k,
    {
        k += 1;
    }
    k
}

/// Larger digit runs never have a smaller value than their prefixes.
proof fn lemma_digits_value_prefix(d: Seq<char>, k: int)
    requires
        all_digits(d),
        0 <= k <= d.len(),
    ensures
        0 <= digits_value(d.subrange(0, k)) <= digits_value(d),
    decreases d.len(),
{
    if d.len() > 0 {
        if k < d.len() {
            assert(all_digits(d.drop_last()));
            lemma_digits_value_prefix(d.drop_last(), k);
            assert(d.drop_last().subrange(0, k) =~= d.subrange(0, k));
            lemma_digits_value_prefix(d.drop_last(), d.len() - 1);
            assert(d.drop_last().subrange(0, d.len() - 1) =~= d.drop_last());
        } else {
            assert(d.subrange(0, k) =~= d);
            assert(all_digits(d.drop_last()));
            lemma_digits_value_prefix(d.drop_last(), d.len() - 1);
            assert(d.drop_last().subrange(0, d.len() - 1) =~= d.drop_last());
        }
    }
}

/// Parses `s[start..end]` as `i32::from_str` does.
#[verifier::loop_isolation(false)]
fn parse_i32_chars(s: &Vec<char>, start: usize, end: usize) -> (r: Option<i32>)
    requires
        start <= end <= s@.len(),
    ensures
        r == parse_i32(s@.subrange(start as int, end as int)),
{
    let ghost w = s@.subrange(start as int, end as int);
    if start == end {
        return None;
    }
    let negative = s[start] == '-';
    let first = if s[start] == '-' || s[start] == '+' { start + 1 } else { start };
    let ghost digits = s@.subrange(first as int, end as int);
    assert(digits =~= if w.len() > 0 && (w[0] == '-' || w[0] == '+') { w.drop_first() } else { w });
    if first == end {
        return None;
    }
    let mut value: i64 = 0;
    let mut k = first;
    while k < end
        invariant
            first <= k <= end <= s@.len(),
            digits == s@.subrange(first as int, end as int),
            all_digits(s@.subrange(first as int, k as int)),
            value == digits_value(s@.subrange(first as int, k as int)),
            0 <= value <= 2147483648,
        decreases end - k,
    {
        let c = s[k];
        if c < '0' || c > '9' {
            assert(!all_digits(digits)) by {
                assert(digits[k - first] == c);
            }
            return None;
        }
        let ghost prefix = s@.subrange(first as int, k + 1);
        assert(prefix.drop_last() =~= s@.subrange(first as int, k as int));
        let next = value * 10 + (c as i64 - '0' as i64);
        if next > 2147483648 {
            assert(next == digits_value(prefix));
            proof {
                if all_digits(digits) {
                    lemma_digits_value_prefix(digits, k + 1 - first);
                    assert(digits.subrange(0, k + 1 - first) =~= prefix);
                }
            }
            return None;
        }
        value = next;
        k += 1;
    }
    assert(s@.subrange(first as int, k as int) =~= digits);
    if negative {
        Some((0 - value) as i32)
    } else if value > 2147483647 {
        None
    } else {
        Some(value as i32)
    }
}

/// The scanner that produced a process listing never appears in the map
/// read from it.
pub proof fn lemma_scanner_is_never_listed(ls: Seq<Seq<char>>, helper_process_id: i32)
    ensures
        !parent_entries(ls, helper_process_id).contains_key(helper_process_id),
    decreases ls.len(),
{
    if ls.len() > 0 {
        lemma_scanner_is_never_listed(ls.drop_last(), helper_process_id);
    }
}

/// Parses the output of `ps -axo pid=,ppid=` into each process's parent,
/// leaving out the scanner process `helper_process_id` and lines that do
/// not name a process and its parent.
pub fn parse_process_parent_map(output: &[u8], helper_process_id: i32) -> (r: Result<HashMap<i32, i32>, PublicError>)
    ensures
        !valid_utf8(output@) ==> (r matches Err(e) && e.code@ == "unexpected"@
            && e.message@ == "Unix process inspection returned non-UTF-8 data"@),
        valid_utf8(output@) ==> (r matches Ok(m) && m@ == parent_entries(lines(decode_utf8(output@)), helper_process_id)),
{
    let text = match utf8_text(output) {
        Some(text) => text,
        None => return Err(PublicError::unexpected(owned("Unix process inspection returned non-UTF-8 data"))),
    };
    let ls = split_lines(text.as_str());
    let ghost spec_lines = lines(text@);
    let mut processes: HashMap<i32, i32> = HashMap::new();
    let mut i: usize = 0;
    while i < ls.len()
        invariant
            i <= ls@.len(),
            ls@.len() == spec_lines.len(),
            forall|j: int| 0 <= j < ls@.len() ==> #[trigger] ls@[j]@ == spec_lines[j],
            processes@ == parent_entries(spec_lines.subrange(0, i as int), helper_process_id),
        decreases ls@.len() - i,
    {
        let line = &ls[i];
        let ghost l = line@;
        assert(spec_lines.subrange(0, i + 1).drop_last() =~= spec_lines.subrange(0, i as int));
        assert(spec_lines.subrange(0, i + 1).last() == l);
        let a = scan(line, 0, false);
        proof { lemma_skip_whitespace_bounds(l, 0); }
        let b = scan(line, a, true);
        proof { lemma_word_end_bounds(l, a as int); }
        let c = scan(line, b, false);
        proof { lemma_skip_whitespace_bounds(l, b as int); }
        let d = scan(line, c, true);
        proof { lemma_word_end_bounds(l, c as int); }
        if a < line.len() && c < line.len() {
            let process = parse_i32_chars(line, a, b);
            let parent = parse_i32_chars(line, c, d);
            if let (Some(p), Some(q)) = (process, parent) {
                if p != helper_process_id {
                    processes.insert(p, q);
                }
            }
        }
        i += 1;
    }
    assert(spec_lines.subrange(0, ls@.len() as int) =~= spec_lines);
    Ok(processes)
}

} // verus!
