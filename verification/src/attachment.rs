use crate::error::PublicError;
use crate::text::{chars_of, owned, spec_is_control, spec_is_whitespace, string_of, trim, trim_chars};
use vstd::prelude::*;

verus! {

/// Name used when an attachment has no usable file name.
pub const DEFAULT_ATTACHMENT_NAME: &'static str = "attachment.bin";

/// A path separator on any supported platform.
pub open spec fn is_separator(c: char) -> bool {
    c == '/' || c == '\\'
}

/// The text after the last path separator.
pub open spec fn last_component(s: Seq<char>) -> Seq<char>
    decreases s.len(),
{
    if s.len() == 0 {
        s
    } else if is_separator(s.last()) {
        Seq::empty()
    } else {
        last_component(s.drop_last()).push(s.last())
    }
}

/// The trimmed last component of a server-provided file name, or the
/// default name when it is empty, `.` or `..`.
pub open spec fn name_candidate(file_name: Seq<char>) -> Seq<char> {
    let t = trim(last_component(file_name));
    if t.len() == 0 || t == "."@ || t == ".."@ {
        DEFAULT_ATTACHMENT_NAME@
    } else {
        t
    }
}

/// Characters that are unsafe in file names on some platform become `_`.
pub open spec fn spec_sanitize_char(c: char) -> char {
    if c == '<' || c == '>' || c == ':' || c == '"' || c == '/' || c == '\\' || c == '|' || c == '?'
        || c == '*' || spec_is_control(c) {
        '_'
    } else {
        c
    }
}

/// Replaces a character that is unsafe in file names with `_`.
pub fn sanitize_attachment_file_name_char(ch: char) -> (r: char)
    ensures
        r == spec_sanitize_char(ch),
{
    if ch == '<' || ch == '>' || ch == ':' || ch == '"' || ch == '/' || ch == '\\' || ch == '|'
        || ch == '?' || ch == '*' || crate::text::is_control(ch) {
        '_'
    } else {
        ch
    }
}

/// A trailing dot or space, which Windows strips from file names.
pub open spec fn is_dot_or_space(c: char) -> bool {
    c == '.' || c == ' '
}

/// Each trailing dot or space replaced by `_`.
pub open spec fn replace_trailing_dots(s: Seq<char>) -> Seq<char>
    decreases s.len(),
{
    if s.len() > 0 && is_dot_or_space(s.last()) {
        replace_trailing_dots(s.drop_last()).push('_')
    } else {
        s
    }
}

/// Trailing dots and spaces removed.
pub open spec fn strip_trailing_dots(s: Seq<char>) -> Seq<char>
    decreases s.len(),
{
    if s.len() > 0 && is_dot_or_space(s.last()) {
        strip_trailing_dots(s.drop_last())
    } else {
        s
    }
}

/// Text before the first `.`.
pub open spec fn stem_of(s: Seq<char>) -> Seq<char>
    decreases s.len(),
{
    if s.len() == 0 || s[0] == '.' {
        Seq::empty()
    } else {
        seq![s[0]] + stem_of(s.drop_first())
    }
}

/// ASCII letters in upper case; other characters unchanged.
pub open spec fn ascii_upper(c: char) -> char {
    if 'a' <= c && c <= 'z' {
        ((c as u32) - 32) as char
    } else {
        c
    }
}

/// A Windows device name: CON, PRN, AUX, NUL, COM1-COM9 or LPT1-LPT9, in
/// any case, ignoring trailing dots and spaces.
pub open spec fn spec_is_reserved_stem(stem: Seq<char>) -> bool {
    let u = strip_trailing_dots(stem).map_values(|c: char| ascii_upper(c));
    ||| u == "CON"@
    ||| u == "PRN"@
    ||| u == "AUX"@
    ||| u == "NUL"@
    ||| (u.len() == 4 && (u.subrange(0, 3) == "COM"@ || u.subrange(0, 3) == "LPT"@) && '1' <= u[3]
        && u[3] <= '9')
}

/// The safe default file name for an attachment: the last path component,
/// trimmed, with unsafe characters and trailing dots or spaces replaced by
/// `_`, prefixed by `_` when its stem names a Windows device.
pub open spec fn spec_sanitize_attachment_file_name(file_name: Seq<char>) -> Seq<char> {
    let s = replace_trailing_dots(name_candidate(file_name).map_values(|c: char| spec_sanitize_char(c)));
    if s.len() == 0 || s == "."@ || s == ".."@ {
        DEFAULT_ATTACHMENT_NAME@
    } else if spec_is_reserved_stem(stem_of(s)) {
        seq!['_'] + s
    } else {
        s
    }
}

proof fn lemma_last_component_suffix(s: Seq<char>, k: int)
    requires
        0 <= k <= s.len(),
        k == 0 || is_separator(s[k - 1]),
        forall|j: int| k <= j < s.len() ==> !is_separator(#[trigger] s[j]),
    ensures
        last_component(s) == s.subrange(k, s.len() as int),
    decreases s.len() - k,
{
    if s.len() > k {
        lemma_last_component_suffix(s.drop_last(), k);
        assert(s.drop_last().subrange(k, s.len() - 1).push(s.last()) =~= s.subrange(k, s.len() as int));
    } else if k > 0 {
        assert(s.subrange(k, s.len() as int) =~= Seq::<char>::empty());
    } else {
        assert(s.subrange(0, 0) =~= Seq::<char>::empty());
    }
}

proof fn lemma_replace_trailing(s: Seq<char>, k: int)
    requires
        0 <= k <= s.len(),
        k == 0 || !is_dot_or_space(s[k - 1]),
        forall|j: int| k <= j < s.len() ==> is_dot_or_space(#[trigger] s[j]),
    ensures
        replace_trailing_dots(s) == s.subrange(0, k) + Seq::new((s.len() - k) as nat, |i: int| '_'),
        strip_trailing_dots(s) == s.subrange(0, k),
    decreases s.len() - k,
{
    if s.len() > k {
        lemma_replace_trailing(s.drop_last(), k);
        assert(s.drop_last().subrange(0, k) =~= s.subrange(0, k));
        assert((s.subrange(0, k) + Seq::new((s.len() - 1 - k) as nat, |i: int| '_')).push('_') =~= s.subrange(0, k) + Seq::new((s.len() - k) as nat, |i: int| '_'));
    } else {
        assert(s.subrange(0, k) =~= s);
        assert(s.subrange(0, k) + Seq::new(0nat, |i: int| '_') =~= s);
    }
}

proof fn lemma_stem_prefix(s: Seq<char>, k: int)
    requires
        0 <= k <= s.len(),
        k == s.len() || s[k] == '.',
        forall|j: int| 0 <= j < k ==> #[trigger] s[j] != '.',
    ensures
        stem_of(s) == s.subrange(0, k),
    decreases k,
{
    if k > 0 {
        lemma_stem_prefix(s.drop_first(), k - 1);
        assert(seq![s[0]] + s.drop_first().subrange(0, k - 1) =~= s.subrange(0, k));
    } else {
        assert(s.subrange(0, 0) =~= Seq::<char>::empty());
    }
}

/// What every sanitized attachment name looks like: non-empty, made only of
/// characters that sanitizing leaves unchanged (so no path separator,
/// reserved punctuation or control character), neither starting nor ending
/// with white space, not ending with a dot or space, and with a stem that
/// names no Windows device.
pub open spec fn is_sanitized_file_name(t: Seq<char>) -> bool {
    &&& t.len() > 0
    &&& forall|i: int| 0 <= i < t.len() ==> spec_sanitize_char(#[trigger] t[i]) == t[i]
    &&& !is_dot_or_space(t.last())
    &&& !spec_is_whitespace(t[0])
    &&& !spec_is_whitespace(t.last())
    &&& !spec_is_reserved_stem(stem_of(t))
}

proof fn lemma_replace_trailing_props(s: Seq<char>)
    ensures
        replace_trailing_dots(s).len() == s.len(),
        forall|i: int| 0 <= i < s.len() ==> #[trigger] replace_trailing_dots(s)[i] == s[i] || replace_trailing_dots(s)[i] == '_',
        s.len() > 0 ==> !is_dot_or_space(replace_trailing_dots(s).last()),
    decreases s.len(),
{
    if s.len() > 0 && is_dot_or_space(s.last()) {
        lemma_replace_trailing_props(s.drop_last());
        let r = replace_trailing_dots(s);
        assert forall|i: int| 0 <= i < s.len() implies #[trigger] r[i] == s[i] || r[i] == '_' by {
            if i < s.len() - 1 {
                assert(r[i] == replace_trailing_dots(s.drop_last())[i]);
                assert(s.drop_last()[i] == s[i]);
            }
        }
    }
}

proof fn lemma_strip_trailing_prefix(s: Seq<char>)
    ensures
        strip_trailing_dots(s).len() <= s.len(),
        strip_trailing_dots(s) == s.subrange(0, strip_trailing_dots(s).len() as int),
        s.len() > 0 && !is_dot_or_space(s[0]) ==> strip_trailing_dots(s).len() > 0,
    decreases s.len(),
{
    if s.len() > 0 && is_dot_or_space(s.last()) {
        lemma_strip_trailing_prefix(s.drop_last());
        let t = strip_trailing_dots(s.drop_last());
        assert(s.drop_last().subrange(0, t.len() as int) =~= s.subrange(0, t.len() as int));
        if s.len() > 1 {
            assert(s.drop_last()[0] == s[0]);
        }
    } else {
        assert(s.subrange(0, s.len() as int) =~= s);
    }
}

proof fn lemma_underscore_stem_not_reserved(w: Seq<char>)
    requires
        w.len() > 0,
        w[0] == '_',
    ensures
        !spec_is_reserved_stem(w),
{
    lemma_strip_trailing_prefix(w);
    let st = strip_trailing_dots(w);
    assert(st[0] == w[0]);
    let u = st.map_values(|c: char| ascii_upper(c));
    assert(u[0] == '_');
    reveal_strlit("CON");
    reveal_strlit("PRN");
    reveal_strlit("AUX");
    reveal_strlit("NUL");
    reveal_strlit("COM");
    reveal_strlit("LPT");
    if u.len() == 4 {
        assert(u.subrange(0, 3)[0] == '_');
    }
}

proof fn lemma_default_name_is_sanitized()
    ensures
        is_sanitized_file_name(DEFAULT_ATTACHMENT_NAME@),
{
    reveal_strlit("attachment.bin");
    let d = DEFAULT_ATTACHMENT_NAME@;
    assert(d.len() == 14);
    assert forall|i: int| 0 <= i < d.len() implies spec_sanitize_char(#[trigger] d[i]) == d[i] by {
        assert(d[i] == '.' || ('a' <= d[i] && d[i] <= 'z'));
    }
    lemma_stem_prefix(d, 10);
    let stem = d.subrange(0, 10);
    assert(stem.last() == 't');
    assert(strip_trailing_dots(stem) == stem);
    assert(stem_of(d) == stem);
    let u = stem.map_values(|c: char| ascii_upper(c));
    assert(u.len() == 10);
    reveal_strlit("CON");
    reveal_strlit("PRN");
    reveal_strlit("AUX");
    reveal_strlit("NUL");
    assert(!spec_is_reserved_stem(stem));
}

proof fn lemma_sanitized_shape_is_fixed(t: Seq<char>)
    requires
        is_sanitized_file_name(t),
    ensures
        spec_sanitize_attachment_file_name(t) == t,
{
    assert forall|j: int| 0 <= j < t.len() implies !is_separator(#[trigger] t[j]) by {
        assert(spec_sanitize_char(t[j]) == t[j]);
    }
    lemma_last_component_suffix(t, 0);
    assert(t.subrange(0, t.len() as int) =~= t);
    crate::text::lemma_trim_unchanged(t);
    reveal_strlit(".");
    reveal_strlit("..");
    assert(t != "."@ && t != ".."@) by {
        if t == "."@ || t == ".."@ {
            assert(t.last() == '.');
        }
    }
    assert(name_candidate(t) == t);
    assert(t.map_values(|c: char| spec_sanitize_char(c)) =~= t);
    assert(replace_trailing_dots(t) == t);
}

/// Every name that sanitizing produces has the shape of
/// [`is_sanitized_file_name`].
pub proof fn lemma_sanitized_name_shape(file_name: Seq<char>)
    ensures
        is_sanitized_file_name(spec_sanitize_attachment_file_name(file_name)),
{
    let c = name_candidate(file_name);
    let t = trim(last_component(file_name));
    if t.len() == 0 || t == "."@ || t == ".."@ {
        lemma_default_name_is_sanitized();
        reveal_strlit("attachment.bin");
    } else {
        crate::text::lemma_trim_shape(last_component(file_name));
    }
    assert(c.len() > 0 && !spec_is_whitespace(c[0]) && !spec_is_whitespace(c.last()));
    let m = c.map_values(|ch: char| spec_sanitize_char(ch));
    let s = replace_trailing_dots(m);
    lemma_replace_trailing_props(m);
    reveal_strlit(".");
    reveal_strlit("..");
    assert(s != "."@ && s != ".."@) by {
        if s == "."@ || s == ".."@ {
            assert(s.last() == '.');
        }
    }
    assert forall|i: int| 0 <= i < s.len() implies spec_sanitize_char(#[trigger] s[i]) == s[i] by {
        assert(s[i] == m[i] || s[i] == '_');
    }
    assert(s[0] == m[0] || s[0] == '_');
    assert(s.last() == m.last() || s.last() == '_');
    assert(m.last() == spec_sanitize_char(c.last()));
    let r = spec_sanitize_attachment_file_name(file_name);
    if spec_is_reserved_stem(stem_of(s)) {
        let p = seq!['_'] + s;
        assert(p.drop_first() =~= s);
        assert(stem_of(p) == seq!['_'] + stem_of(s));
        lemma_underscore_stem_not_reserved(stem_of(p));
        assert forall|i: int| 0 <= i < p.len() implies spec_sanitize_char(#[trigger] p[i]) == p[i] by {
            if i > 0 {
                assert(p[i] == s[i - 1]);
            }
        }
        assert(r == p);
    }
}

/// A sanitized attachment name is a fixed point of sanitizing: sanitizing
/// it again gives the same name.
pub proof fn lemma_sanitize_attachment_name_idempotent(file_name: Seq<char>)
    ensures
        spec_sanitize_attachment_file_name(spec_sanitize_attachment_file_name(file_name))
            == spec_sanitize_attachment_file_name(file_name),
{
    lemma_sanitized_name_shape(file_name);
    lemma_sanitized_shape_is_fixed(spec_sanitize_attachment_file_name(file_name));
}

fn is_literal(s: &Vec<char>, lit: &str) -> (r: bool)
    ensures
        r == (s@ == lit@),
{
    crate::text::chars_eq(s, &chars_of(lit))
}

/// Whether a file stem names a Windows device, so that a file with this
/// stem cannot be created under any extension.
pub fn is_windows_reserved_file_stem(stem: &str) -> (r: bool)
    ensures
        r == spec_is_reserved_stem(stem@),
{
    let chars = chars_of(stem);
    let mut k: usize = chars.len();
    while k > 0 && (chars[k - 1] == '.' || chars[k - 1] == ' ')
        invariant
            k <= chars.len(),
            forall|j: int| k <= j < chars.len() ==> is_dot_or_space(#[trigger] chars@[j]),
        decreases k,
    {
        k -= 1;
    }
    proof {
        lemma_replace_trailing(chars@, k as int);
    }
    let mut upper: Vec<char> = Vec::new();
    let mut i: usize = 0;
    while i < k
        invariant
            k <= chars.len(),
            i <= k,
            upper@ == chars@.subrange(0, i as int).map_values(|c: char| ascii_upper(c)),
        decreases k - i,
    {
        let c = chars[i];
        let u = if 'a' <= c && c <= 'z' {
            let b = (c as u32 - 32) as u8;
            b as char
        } else {
            c
        };
        upper.push(u);
        i += 1;
        assert(upper@ =~= chars@.subrange(0, i as int).map_values(|c: char| ascii_upper(c)));
    }
    if is_literal(&upper, "CON") || is_literal(&upper, "PRN") || is_literal(&upper, "AUX")
        || is_literal(&upper, "NUL") {
        return true;
    }
    if upper.len() == 4 {
        let prefix = crate::text::slice_chars(&upper, 0, 3);
        if (is_literal(&prefix, "COM") || is_literal(&prefix, "LPT")) && '1' <= upper[3] && upper[3]
            <= '9' {
            return true;
        }
    }
    false
}

/// The default local file name for an attachment, safe on every platform.
pub fn sanitize_attachment_file_name(file_name: &str) -> (r: String)
    ensures
        r@ == spec_sanitize_attachment_file_name(file_name@),
{
    let chars = chars_of(file_name);
    let mut k: usize = chars.len();
    while k > 0 && !(chars[k - 1] == '/' || chars[k - 1] == '\\')
        invariant
            k <= chars.len(),
            forall|j: int| k <= j < chars.len() ==> !is_separator(#[trigger] chars@[j]),
        decreases k,
    {
        k -= 1;
    }
    proof {
        lemma_last_component_suffix(chars@, k as int);
    }
    let last = crate::text::slice_chars(&chars, k, chars.len());
    let trimmed = trim_chars(&last);
    let candidate = if trimmed.len() == 0 || is_literal(&trimmed, ".") || is_literal(&trimmed, "..") {
        chars_of(DEFAULT_ATTACHMENT_NAME)
    } else {
        trimmed
    };
    assert(candidate@ == name_candidate(file_name@));
    let mut sanitized: Vec<char> = Vec::new();
    let mut i: usize = 0;
    while i < candidate.len()
        invariant
            i <= candidate.len(),
            sanitized@ == candidate@.subrange(0, i as int).map_values(|c: char| spec_sanitize_char(c)),
        decreases candidate.len() - i,
    {
        sanitized.push(sanitize_attachment_file_name_char(candidate[i]));
        i += 1;
        assert(sanitized@ =~= candidate@.subrange(0, i as int).map_values(|c: char| spec_sanitize_char(c)));
    }
    assert(candidate@.subrange(0, candidate.len() as int) =~= candidate@);
    let ghost mapped = sanitized@;
    let mut valid: usize = sanitized.len();
    while valid > 0 && (sanitized[valid - 1] == '.' || sanitized[valid - 1] == ' ')
        invariant
            valid <= sanitized.len(),
            sanitized@ == mapped,
            forall|j: int| valid <= j < sanitized.len() ==> is_dot_or_space(#[trigger] sanitized@[j]),
        decreases valid,
    {
        valid -= 1;
    }
    proof {
        lemma_replace_trailing(mapped, valid as int);
    }
    let mut j: usize = valid;
    while j < sanitized.len()
        invariant
            valid <= j <= sanitized.len() == mapped.len(),
            sanitized@ == mapped.subrange(0, valid as int) + Seq::new((j - valid) as nat, |i: int| '_')
                + mapped.subrange(j as int, mapped.len() as int),
        decreases sanitized.len() - j,
    {
        sanitized.set(j, '_');
        j += 1;
        assert(sanitized@ =~= mapped.subrange(0, valid as int) + Seq::new((j - valid) as nat, |i: int| '_')
            + mapped.subrange(j as int, mapped.len() as int));
    }
    assert(sanitized@ =~= replace_trailing_dots(mapped));
    if sanitized.len() == 0 || is_literal(&sanitized, ".") || is_literal(&sanitized, "..") {
        return owned(DEFAULT_ATTACHMENT_NAME);
    }
    let mut s: usize = 0;
    while s < sanitized.len() && sanitized[s] != '.'
        invariant
            s <= sanitized.len(),
            forall|j: int| 0 <= j < s ==> #[trigger] sanitized@[j] != '.',
        decreases sanitized.len() - s,
    {
        s += 1;
    }
    proof {
        lemma_stem_prefix(sanitized@, s as int);
    }
    let stem = string_of(&crate::text::slice_chars(&sanitized, 0, s));
    if is_windows_reserved_file_stem(stem.as_str()) {
        let mut prefixed: Vec<char> = Vec::new();
        prefixed.push('_');
        let mut rest = sanitized;
        prefixed.append(&mut rest);
        assert(prefixed@ =~= seq!['_'] + replace_trailing_dots(mapped));
        return string_of(&prefixed);
    }
    string_of(&sanitized)
}

/// Where an attachment is written: the explicit output path, or else its
/// sanitized default name.
pub fn resolve_attachment_output_path(file_name: &str, output: Option<String>) -> (r: String)
    ensures
        match output {
            Some(o) => r@ == o@,
            None => r@ == spec_sanitize_attachment_file_name(file_name@),
        },
{
    match output {
        Some(o) => o,
        None => sanitize_attachment_file_name(file_name),
    }
}

/// One component of a path, as the platform's path parser reports it.
#[derive(Debug)]
pub enum PathComponent {
    /// A drive or UNC prefix.
    Prefix,
    /// The root directory.
    RootDir,
    /// `.`
    CurDir,
    /// `..`
    ParentDir,
    /// A file or directory name.
    Normal(String),
}

/// The mathematical value of a path component.
pub enum ComponentView {
    Prefix,
    RootDir,
    CurDir,
    ParentDir,
    Normal(Seq<char>),
}

impl View for PathComponent {
    type V = ComponentView;

    open spec fn view(&self) -> ComponentView {
        match *self {
            PathComponent::Prefix => ComponentView::Prefix,
            PathComponent::RootDir => ComponentView::RootDir,
            PathComponent::CurDir => ComponentView::CurDir,
            PathComponent::ParentDir => ComponentView::ParentDir,
            PathComponent::Normal(name) => ComponentView::Normal(name@),
        }
    }
}

/// The views of a path's components.
pub open spec fn components_view(cs: Seq<PathComponent>) -> Seq<ComponentView> {
    cs.map_values(|c: PathComponent| c@)
}

impl PathComponent {
    /// A copy with the same view.
    pub fn duplicate(&self) -> (r: Self)
        ensures
            r@ == self@,
    {
        match self {
            PathComponent::Prefix => PathComponent::Prefix,
            PathComponent::RootDir => PathComponent::RootDir,
            PathComponent::CurDir => PathComponent::CurDir,
            PathComponent::ParentDir => PathComponent::ParentDir,
            PathComponent::Normal(name) => PathComponent::Normal(owned(name.as_str())),
        }
    }
}

/// A component that leaves or replaces the working directory.
pub open spec fn is_escaping(c: PathComponent) -> bool {
    c is ParentDir || c is RootDir || c is Prefix
}

/// A file or directory name component.
pub open spec fn is_normal(c: PathComponent) -> bool {
    c is Normal
}

/// An output path is acceptable when it is non-empty, has no root, prefix
/// or `..`, and names at least one file or directory.
pub open spec fn spec_output_path_error(empty: bool, components: Seq<PathComponent>) -> Option<Seq<char>> {
    if empty {
        Some("output path cannot be empty"@)
    } else if exists|i: int| 0 <= i < components.len() && is_escaping(#[trigger] components[i]) {
        Some("output path must be relative to the current working directory and cannot contain parent-directory traversal"@)
    } else if !(exists|i: int| 0 <= i < components.len() && is_normal(#[trigger] components[i])) {
        Some("output path must identify a file below the current working directory"@)
    } else {
        None
    }
}

/// Checks that an attachment output path stays below the working directory.
pub fn validate_working_directory_relative_output_path(empty: bool, components: &Vec<PathComponent>) -> (r: Result<(), PublicError>)
    ensures
        match spec_output_path_error(empty, components@) {
            None => r is Ok,
            Some(m) => r matches Err(e) && e.code@ == "validation"@ && e.message@ == m,
        },
{
    if empty {
        return Err(PublicError::validation(owned("output path cannot be empty")));
    }
    let mut has_file_name = false;
    let mut i: usize = 0;
    while i < components.len()
        invariant
            i <= components.len(),
            !empty,
            forall|j: int| 0 <= j < i ==> !is_escaping(#[trigger] components@[j]),
            has_file_name == (exists|j: int| 0 <= j < i && is_normal(#[trigger] components@[j])),
        decreases components.len() - i,
    {
        match &components[i] {
            PathComponent::Normal(_) => {
                has_file_name = true;
            },
            PathComponent::CurDir => {},
            _ => {
                assert(is_escaping(components@[i as int]));
                return Err(PublicError::validation(owned("output path must be relative to the current working directory and cannot contain parent-directory traversal")));
            },
        }
        i += 1;
    }
    if !has_file_name {
        return Err(PublicError::validation(owned("output path must identify a file below the current working directory")));
    }
    Ok(())
}

} // verus!
