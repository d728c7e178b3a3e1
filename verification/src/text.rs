use vstd::prelude::*;

verus! {

/// A character in the Unicode general category Cc (control codes).
pub open spec fn spec_is_control(c: char) -> bool {
    (c as u32) <= 0x1f || (0x7f <= (c as u32) && (c as u32) <= 0x9f)
}

/// A character with the Unicode `White_Space` property.
pub open spec fn spec_is_whitespace(c: char) -> bool {
    let v = c as u32;
    ||| 0x09 <= v && v <= 0x0d
    ||| v == 0x20
    ||| v == 0x85
    ||| v == 0xa0
    ||| v == 0x1680
    ||| 0x2000 <= v && v <= 0x200a
    ||| v == 0x2028
    ||| v == 0x2029
    ||| v == 0x202f
    ||| v == 0x205f
    ||| v == 0x3000
}

/// Whether `c` is a control character (category Cc).
pub fn is_control(c: char) -> (r: bool)
    ensures
        r == spec_is_control(c),
{
    let v = c as u32;
    v <= 0x1f || (0x7f <= v && v <= 0x9f)
}

/// Whether `c` is Unicode white space.
pub fn is_whitespace(c: char) -> (r: bool)
    ensures
        r == spec_is_whitespace(c),
{
    let v = c as u32;
    (0x09 <= v && v <= 0x0d) || v == 0x20 || v == 0x85 || v == 0xa0 || v == 0x1680 || (0x2000
        <= v && v <= 0x200a) || v == 0x2028 || v == 0x2029 || v == 0x202f || v == 0x205f || v
        == 0x3000
}

/// The sequence without its leading white space.
pub open spec fn trim_start(s: Seq<char>) -> Seq<char>
    decreases s.len(),
{
    if s.len() > 0 && spec_is_whitespace(s[0]) {
        trim_start(s.drop_first())
    } else {
        s
    }
}

/// The sequence without its trailing white space.
pub open spec fn trim_end(s: Seq<char>) -> Seq<char>
    decreases s.len(),
{
    if s.len() > 0 && spec_is_whitespace(s.last()) {
        trim_end(s.drop_last())
    } else {
        s
    }
}

/// The sequence without leading and trailing white space.
pub open spec fn trim(s: Seq<char>) -> Seq<char> {
    trim_end(trim_start(s))
}

/// Every character of `s` is white space.
pub open spec fn all_whitespace(s: Seq<char>) -> bool {
    forall|i: int| 0 <= i < s.len() ==> spec_is_whitespace(#[trigger] s[i])
}

/// The characters of a string slice, in order.
#[verifier::external_body]
pub(crate) fn chars_of(s: &str) -> (v: Vec<char>)
    ensures
        v@ == s@,
{
    s.chars().collect()
}

/// A string holding exactly the given characters.
#[verifier::external_body]
pub(crate) fn string_of(v: &Vec<char>) -> (s: String)
    ensures
        s@ == v@,
{
    v.iter().collect()
}

proof fn lemma_trim_start_skip(s: Seq<char>, i: int)
    requires
        0 <= i <= s.len(),
        forall|j: int| 0 <= j < i ==> spec_is_whitespace(#[trigger] s[j]),
    ensures
        trim_start(s) == trim_start(s.subrange(i, s.len() as int)),
    decreases i,
{
    if i > 0 {
        assert(s.drop_first() == s.subrange(1, s.len() as int));
        lemma_trim_start_skip(s.drop_first(), i - 1);
        assert(s.drop_first().subrange(i - 1, s.drop_first().len() as int) =~= s.subrange(
            i,
            s.len() as int,
        ));
    } else {
        assert(s.subrange(0, s.len() as int) =~= s);
    }
}

proof fn lemma_trim_end_skip(s: Seq<char>, k: int)
    requires
        0 <= k <= s.len(),
        forall|j: int| k <= j < s.len() ==> spec_is_whitespace(#[trigger] s[j]),
    ensures
        trim_end(s) == trim_end(s.subrange(0, k)),
    decreases s.len() - k,
{
    if k < s.len() {
        lemma_trim_end_skip(s.drop_last(), k);
        assert(s.drop_last().subrange(0, k) =~= s.subrange(0, k));
    } else {
        assert(s.subrange(0, k) =~= s);
    }
}

/// Trimming the front keeps a suffix of `s` that is empty or starts with a
/// character that is not white space; an empty result means `s` was blank.
pub proof fn lemma_trim_start_suffix(s: Seq<char>)
    ensures
        trim_start(s).len() <= s.len(),
        trim_start(s) == s.subrange(s.len() - trim_start(s).len(), s.len() as int),
        trim_start(s).len() > 0 ==> !spec_is_whitespace(trim_start(s)[0]),
        trim_start(s).len() == 0 ==> all_whitespace(s),
    decreases s.len(),
{
    if s.len() > 0 && spec_is_whitespace(s[0]) {
        lemma_trim_start_suffix(s.drop_first());
        let t = trim_start(s.drop_first());
        assert(s.drop_first().subrange(s.len() - 1 - t.len(), s.len() - 1) =~= s.subrange(
            s.len() - t.len(),
            s.len() as int,
        ));
        if t.len() == 0 {
            assert forall|i: int| 0 <= i < s.len() implies spec_is_whitespace(#[trigger] s[i]) by {
                if i > 0 {
                    assert(s[i] == s.drop_first()[i - 1]);
                }
            }
        }
    } else {
        assert(s.subrange(0, s.len() as int) =~= s);
    }
}

/// Trimming the back keeps a prefix of `s` that is empty or ends with a
/// character that is not white space; an empty result means `s` was blank.
pub proof fn lemma_trim_end_prefix(s: Seq<char>)
    ensures
        trim_end(s).len() <= s.len(),
        trim_end(s) == s.subrange(0, trim_end(s).len() as int),
        trim_end(s).len() > 0 ==> !spec_is_whitespace(trim_end(s).last()),
        trim_end(s).len() == 0 ==> all_whitespace(s),
    decreases s.len(),
{
    if s.len() > 0 && spec_is_whitespace(s.last()) {
        lemma_trim_end_prefix(s.drop_last());
        let t = trim_end(s.drop_last());
        assert(s.drop_last().subrange(0, t.len() as int) =~= s.subrange(0, t.len() as int));
        if t.len() == 0 {
            assert forall|i: int| 0 <= i < s.len() implies spec_is_whitespace(#[trigger] s[i]) by {
                if i < s.len() - 1 {
                    assert(s[i] == s.drop_last()[i]);
                }
            }
        }
    } else {
        assert(s.subrange(0, s.len() as int) =~= s);
    }
}

/// Trimming keeps a contiguous part of `s`; what remains is empty exactly
/// when `s` is blank, and otherwise neither starts nor ends with white
/// space.
pub proof fn lemma_trim_shape(s: Seq<char>) -> (i: int)
    ensures
        0 <= i,
        i + trim(s).len() <= s.len(),
        trim(s) == s.subrange(i, i + trim(s).len()),
        trim(s).len() == 0 <==> all_whitespace(s),
        trim(s).len() > 0 ==> !spec_is_whitespace(trim(s)[0]) && !spec_is_whitespace(trim(s).last()),
{
    lemma_trim_start_suffix(s);
    let a = trim_start(s);
    lemma_trim_end_prefix(a);
    let b = trim_end(a);
    let i = s.len() - a.len();
    assert(b == s.subrange(i, i + b.len())) by {
        assert(a.subrange(0, b.len() as int) =~= s.subrange(i, i + b.len()));
    }
    if b.len() == 0 {
        if a.len() > 0 {
            assert(spec_is_whitespace(a[0]));
            assert(false);
        }
        assert forall|j: int| 0 <= j < s.len() implies spec_is_whitespace(#[trigger] s[j]) by {}
    } else {
        assert(b[0] == a[0]);
    }
    if all_whitespace(s) && b.len() > 0 {
        assert(a[0] == s[i]);
        assert(spec_is_whitespace(s[i]));
    }
    i
}

/// A sequence that neither starts nor ends with white space is its own
/// trim.
pub proof fn lemma_trim_unchanged(s: Seq<char>)
    requires
        s.len() > 0,
        !spec_is_whitespace(s[0]),
        !spec_is_whitespace(s.last()),
    ensures
        trim(s) == s,
{
}

/// Index range `[start, end)` of `s` that remains after trimming white space.
pub fn trim_bounds(s: &Vec<char>) -> (r: (usize, usize))
    ensures
        r.0 <= r.1 <= s.len(),
        s@.subrange(r.0 as int, r.1 as int) == trim(s@),
{
    let mut start: usize = 0;
    while start < s.len() && is_whitespace(s[start])
        invariant
            start <= s.len(),
            forall|j: int| 0 <= j < start ==> spec_is_whitespace(#[trigger] s@[j]),
        decreases s.len() - start,
    {
        start += 1;
    }
    proof {
        lemma_trim_start_skip(s@, start as int);
    }
    let ghost rest = s@.subrange(start as int, s.len() as int);
    assert(trim_start(rest) == rest) by {
        if rest.len() > 0 {
            assert(rest[0] == s@[start as int]);
        }
    }
    let mut end: usize = s.len();
    while end > start && is_whitespace(s[end - 1])
        invariant
            start <= end <= s.len(),
            forall|j: int| end <= j < s.len() ==> spec_is_whitespace(#[trigger] s@[j]),
        decreases end - start,
    {
        end -= 1;
    }
    proof {
        let t = s@.subrange(start as int, s.len() as int);
        lemma_trim_end_skip(t, end - start);
        assert(t.subrange(0, end - start) =~= s@.subrange(start as int, end as int));
        let u = s@.subrange(start as int, end as int);
        if u.len() > 0 {
            assert(u.last() == s@[end - 1]);
        }
    }
    (start, end)
}

/// The characters of `s` within `[start, end)`.
pub fn slice_chars(s: &Vec<char>, start: usize, end: usize) -> (r: Vec<char>)
    requires
        start <= end <= s.len(),
    ensures
        r@ == s@.subrange(start as int, end as int),
{
    let mut r: Vec<char> = Vec::new();
    let mut i = start;
    while i < end
        invariant
            start <= i <= end <= s.len(),
            r@ == s@.subrange(start as int, i as int),
        decreases end - i,
    {
        r.push(s[i]);
        i += 1;
        assert(r@ =~= s@.subrange(start as int, i as int));
    }
    r
}

/// `s` without leading and trailing white space.
pub fn trim_chars(s: &Vec<char>) -> (r: Vec<char>)
    ensures
        r@ == trim(s@),
{
    let (start, end) = trim_bounds(s);
    slice_chars(s, start, end)
}

} // verus!

verus! {

/// The decimal digit for `d < 10`.
pub open spec fn digit_char(d: nat) -> char {
    if d == 0 { '0' } else if d == 1 { '1' } else if d == 2 { '2' } else if d == 3 { '3' }
    else if d == 4 { '4' } else if d == 5 { '5' } else if d == 6 { '6' } else if d == 7 { '7' }
    else if d == 8 { '8' } else { '9' }
}

/// The decimal representation of `n`, without leading zeros.
pub open spec fn decimal(n: nat) -> Seq<char>
    decreases n,
{
    if n < 10 {
        seq![digit_char(n)]
    } else {
        decimal(n / 10) + seq![digit_char(n % 10)]
    }
}

fn digit(d: u64) -> (c: char)
    requires
        d < 10,
    ensures
        c == digit_char(d as nat),
{
    if d == 0 { '0' } else if d == 1 { '1' } else if d == 2 { '2' } else if d == 3 { '3' }
    else if d == 4 { '4' } else if d == 5 { '5' } else if d == 6 { '6' } else if d == 7 { '7' }
    else if d == 8 { '8' } else { '9' }
}

/// Appends the decimal representation of `n` to `dst`.
pub fn push_decimal(dst: &mut Vec<char>, n: u64)
    ensures
        final(dst)@ == old(dst)@ + decimal(n as nat),
    decreases n,
{
    if n < 10 {
        dst.push(digit(n));
        assert(decimal(n as nat) =~= seq![digit_char(n as nat)]);
    } else {
        push_decimal(dst, n / 10);
        dst.push(digit(n % 10));
        assert(decimal(n as nat) == decimal((n / 10) as nat) + seq![digit_char((n % 10) as nat)]);
    }
}

/// Appends every character of `src` to `dst`.
pub fn push_str(dst: &mut Vec<char>, src: &str)
    ensures
        final(dst)@ == old(dst)@ + src@,
{
    let mut chars = chars_of(src);
    dst.append(&mut chars);
}

} // verus!

verus! {

/// Whether two character vectors are equal.
pub fn chars_eq(a: &Vec<char>, b: &Vec<char>) -> (r: bool)
    ensures
        r == (a@ == b@),
{
    if a.len() != b.len() {
        return false;
    }
    let mut i: usize = 0;
    while i < a.len()
        invariant
            a.len() == b.len(),
            i <= a.len(),
            forall|j: int| 0 <= j < i ==> a@[j] == b@[j],
        decreases a.len() - i,
    {
        if a[i] != b[i] {
            return false;
        }
        i += 1;
    }
    assert(a@ =~= b@);
    true
}

/// Whether two strings hold the same characters.
pub fn str_eq(a: &str, b: &str) -> (r: bool)
    ensures
        r == (a@ == b@),
{
    chars_eq(&chars_of(a), &chars_of(b))
}

/// An owned copy of a string slice.
pub fn owned(s: &str) -> (r: String)
    ensures
        r@ == s@,
{
    string_of(&chars_of(s))
}

/// A character that must not reach a terminal as it is: a control
/// character, or a bidirectional formatting character that could reorder
/// what is shown.
pub open spec fn is_terminal_control(c: char) -> bool {
    spec_is_control(c) || crate::harness::spec_is_bidi_control(c)
}

/// What one character becomes on a terminal line: white space that is a
/// control character (a line feed, a tab, a carriage return) becomes a
/// space, other control and bidirectional characters become U+FFFD, and
/// everything else is kept.
pub open spec fn terminal_char(c: char) -> char {
    if is_terminal_control(c) {
        if spec_is_whitespace(c) {
            ' '
        } else {
            '\u{fffd}'
        }
    } else {
        c
    }
}

/// Text made safe to show on one terminal line or in one table cell.
pub open spec fn terminal_text(s: Seq<char>) -> Seq<char> {
    s.map_values(|c: char| terminal_char(c))
}

/// Text made safe for a terminal holds no control or bidirectional
/// character, so no line break, carriage return or escape sequence.
pub proof fn lemma_terminal_text_is_clean(s: Seq<char>)
    ensures
        terminal_text(s).len() == s.len(),
        forall|i: int| 0 <= i < terminal_text(s).len() ==> !is_terminal_control(#[trigger] terminal_text(s)[i]),
{
}

/// Renders untrusted text as one terminal line or table cell: control and
/// bidirectional characters are replaced, so the text can neither break
/// the line nor drive the terminal.
pub fn terminal_line(s: &str) -> (r: String)
    ensures
        r@ == terminal_text(s@),
        forall|i: int| 0 <= i < r@.len() ==> !is_terminal_control(#[trigger] r@[i]),
{
    let chars = chars_of(s);
    let mut out: Vec<char> = Vec::new();
    let mut i: usize = 0;
    while i < chars.len()
        invariant
            i <= chars@.len(),
            chars@ == s@,
            out@ == terminal_text(chars@.subrange(0, i as int)),
        decreases chars@.len() - i,
    {
        let c = chars[i];
        let t = if is_control(c) || crate::harness::is_bidi_control(c) {
            if is_whitespace(c) {
                ' '
            } else {
                '\u{fffd}'
            }
        } else {
            c
        };
        out.push(t);
        i += 1;
        assert(out@ =~= terminal_text(chars@.subrange(0, i as int)));
    }
    assert(chars@.subrange(0, chars@.len() as int) =~= chars@);
    proof {
        lemma_terminal_text_is_clean(s@);
    }
    string_of(&out)
}

/// The text cut to at most `width` characters: kept whole when it fits,
/// otherwise its first `width - 1` characters and an ellipsis.
pub open spec fn ellipsized(s: Seq<char>, width: nat) -> Seq<char> {
    if s.len() <= width {
        s
    } else if width == 0 {
        Seq::empty()
    } else {
        s.subrange(0, width - 1).push('\u{2026}')
    }
}

/// Cuts a line to at most `width` characters, marking the cut with an
/// ellipsis.
pub fn ellipsize(s: &str, width: usize) -> (r: String)
    ensures
        r@ == ellipsized(s@, width as nat),
        r@.len() <= width,
{
    let chars = chars_of(s);
    if chars.len() <= width {
        return string_of(&chars);
    }
    if width == 0 {
        return string_of(&Vec::new());
    }
    let mut cut = slice_chars(&chars, 0, width - 1);
    cut.push('\u{2026}');
    string_of(&cut)
}

} // verus!
