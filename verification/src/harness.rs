use crate::text::{chars_of, is_control, is_whitespace, spec_is_control, spec_is_whitespace, string_of, trim, trim_chars};
use vstd::prelude::*;
use vstd::utf8::{decode_utf8, valid_utf8};

verus! {

/// Bytes of each harness output stream that are retained.
pub const MAX_HARNESS_STREAM_BYTES: usize = 131072;

/// Bytes of a failed harness stream that may appear in its summary.
pub const MAX_HARNESS_DIAGNOSTIC_BYTES: usize = 8192;

/// Largest final message accepted from the harness.
pub const MAX_FINAL_MESSAGE_BYTES: u64 = 131072;

/// The Codex shell-environment policy: only these variables reach commands
/// that the harness runs.
pub const CODEX_SUBPROCESS_ENV_ALLOWLIST: &'static str =
    "shell_environment_policy.include_only=[\"PATH\",\"TMPDIR\",\"LANG\",\"LC_ALL\"]";

/// Environment variables passed from the agent to the Codex process.
pub const HARNESS_ENVIRONMENT: [&'static str; 8] = [
    "PATH",
    "HOME",
    "CODEX_HOME",
    "TMPDIR",
    "LANG",
    "LC_ALL",
    "SSL_CERT_FILE",
    "SSL_CERT_DIR",
];

/// Environment variables passed from the agent to git.
pub const GIT_ENVIRONMENT: [&'static str; 4] = ["PATH", "TMPDIR", "LANG", "LC_ALL"];

/// Result of one harness execution.
#[derive(Debug)]
pub struct HarnessOutput {
    pub succeeded: bool,
    pub summary: String,
    pub failure_code: Option<String>,
}

/// The Codex harness, identified by its executable.
#[derive(Debug)]
pub struct CodexHarness {
    pub executable: String,
}

impl CodexHarness {
    /// A harness that launches `executable`.
    pub fn new(executable: String) -> (h: Self)
        ensures
            h.executable@ == executable@,
    {
        CodexHarness { executable }
    }
}

/// Tracks a plaintext harness output file that must be removed unless the
/// run reaches the point where it removes the file itself.
#[derive(Debug)]
pub struct PlaintextOutputGuard {
    pub path: String,
    pub armed: bool,
}

impl PlaintextOutputGuard {
    /// A guard that will remove `path`.
    pub fn new(path: String) -> (g: Self)
        ensures
            g.path@ == path@,
            g.armed,
    {
        PlaintextOutputGuard { path, armed: true }
    }

    /// Stop the guard from removing its file.
    pub fn disarm(&mut self)
        ensures
            !final(self).armed,
            final(self).path@ == old(self).path@,
    {
        self.armed = false;
    }
}

/// Whether `c` is a Unicode bidirectional formatting control.
pub open spec fn spec_is_bidi_control(c: char) -> bool {
    let v = c as u32;
    ||| v == 0x061c
    ||| 0x200e <= v && v <= 0x200f
    ||| 0x202a <= v && v <= 0x202e
    ||| 0x2066 <= v && v <= 0x2069
}

/// Whether `c` is a Unicode bidirectional formatting control.
pub fn is_bidi_control(c: char) -> (r: bool)
    ensures
        r == spec_is_bidi_control(c),
{
    let v = c as u32;
    v == 0x061c || (0x200e <= v && v <= 0x200f) || (0x202a <= v && v <= 0x202e) || (0x2066 <= v
        && v <= 0x2069)
}

/// What one character of harness output becomes in a diagnostic: line feeds
/// and tabs stay, carriage returns vanish, other white space becomes a space,
/// control and bidirectional characters become U+FFFD.
pub open spec fn diagnostic_char(c: char) -> Seq<char> {
    if c == '\n' || c == '\t' {
        seq![c]
    } else if c == '\r' {
        Seq::empty()
    } else if spec_is_whitespace(c) {
        seq![' ']
    } else if spec_is_control(c) || spec_is_bidi_control(c) {
        seq!['\u{fffd}']
    } else {
        seq![c]
    }
}

/// Every character of `s` mapped through [`diagnostic_char`].
pub open spec fn diagnostic_chars(s: Seq<char>) -> Seq<char>
    decreases s.len(),
{
    if s.len() == 0 {
        Seq::empty()
    } else {
        diagnostic_chars(s.drop_last()) + diagnostic_char(s.last())
    }
}

/// The sanitized diagnostic for already decoded text, if anything remains.
pub open spec fn diagnostic_of_text(text: Seq<char>) -> Option<Seq<char>> {
    let t = trim(diagnostic_chars(text));
    if t.len() == 0 {
        None
    } else {
        Some(t)
    }
}

/// The last `MAX_HARNESS_DIAGNOSTIC_BYTES` bytes of a stream.
pub open spec fn diagnostic_tail(stream: Seq<u8>) -> Seq<u8> {
    if stream.len() > MAX_HARNESS_DIAGNOSTIC_BYTES {
        stream.subrange(stream.len() - MAX_HARNESS_DIAGNOSTIC_BYTES, stream.len() as int)
    } else {
        stream
    }
}

/// Result of `String::from_utf8_lossy`: the text that the bytes encode,
/// with every invalid sequence replaced by U+FFFD.
pub uninterp spec fn utf8_lossy(bytes: Seq<u8>) -> Seq<char>;

/// Decodes `bytes` with `String::from_utf8_lossy`. Valid UTF-8 decodes to
/// exactly the characters it encodes; for invalid input this states only
/// that the result is the library's own lossy decoding of the bytes.
#[verifier::external_body]
fn decode_utf8_lossy(bytes: &[u8]) -> (text: Vec<char>)
    ensures
        text@ == utf8_lossy(bytes@),
        valid_utf8(bytes@) ==> text@ == decode_utf8(bytes@),
{
    String::from_utf8_lossy(bytes).chars().collect()
}

/// The sanitized, bounded diagnostic for a raw output stream.
pub open spec fn harness_diagnostic(stream: Seq<u8>) -> Option<Seq<char>> {
    diagnostic_of_text(utf8_lossy(diagnostic_tail(stream)))
}

/// Sanitizes decoded harness output: maps each character with
/// [`diagnostic_char`], trims white space, and yields nothing when the
/// result is empty.
pub fn sanitize_diagnostic_text(text: &Vec<char>) -> (r: Option<String>)
    ensures
        r matches Some(s) ==> diagnostic_of_text(text@) == Some(s@),
        r is None ==> diagnostic_of_text(text@) is None,
{
    let mut sanitized: Vec<char> = Vec::new();
    let mut i: usize = 0;
    while i < text.len()
        invariant
            i <= text.len(),
            sanitized@ == diagnostic_chars(text@.subrange(0, i as int)),
        decreases text.len() - i,
    {
        let c = text[i];
        if c == '\n' || c == '\t' {
            sanitized.push(c);
        } else if c == '\r' {
        } else if is_whitespace(c) {
            sanitized.push(' ');
        } else if is_control(c) || is_bidi_control(c) {
            sanitized.push('\u{fffd}');
        } else {
            sanitized.push(c);
        }
        proof {
            let p = text@.subrange(0, i + 1);
            assert(p.drop_last() =~= text@.subrange(0, i as int));
            assert(p.last() == c);
        }
        i += 1;
        assert(sanitized@ =~= diagnostic_chars(text@.subrange(0, i as int)));
    }
    assert(text@.subrange(0, text.len() as int) =~= text@);
    let trimmed = trim_chars(&sanitized);
    if trimmed.len() == 0 {
        None
    } else {
        Some(string_of(&trimmed))
    }
}

/// The sanitized tail of a harness output stream, used in failure summaries.
pub fn sanitized_harness_diagnostic(stream: &[u8]) -> (r: Option<String>)
    ensures
        r matches Some(s) ==> harness_diagnostic(stream@) == Some(s@),
        r is None ==> harness_diagnostic(stream@) is None,
        valid_utf8(diagnostic_tail(stream@)) ==> harness_diagnostic(stream@) == diagnostic_of_text(
            decode_utf8(diagnostic_tail(stream@)),
        ),
{
    let start: usize = if stream.len() > MAX_HARNESS_DIAGNOSTIC_BYTES {
        stream.len() - MAX_HARNESS_DIAGNOSTIC_BYTES
    } else {
        0
    };
    let mut tail: Vec<u8> = Vec::new();
    let mut i = start;
    while i < stream.len()
        invariant
            start <= i <= stream.len(),
            tail@ == stream@.subrange(start as int, i as int),
        decreases stream.len() - i,
    {
        tail.push(stream[i]);
        i += 1;
        assert(tail@ =~= stream@.subrange(start as int, i as int));
    }
    assert(tail@ =~= diagnostic_tail(stream@));
    let decoded = decode_utf8_lossy(tail.as_slice());
    sanitize_diagnostic_text(&decoded)
}

/// A character that may appear in a diagnostic: a line feed, a tab, or a
/// character that is neither a control nor a bidirectional formatting
/// character (so never a carriage return).
pub open spec fn is_diagnostic_char(c: char) -> bool {
    c != '\r' && (c == '\n' || c == '\t' || !(spec_is_control(c) || spec_is_bidi_control(c)))
}

proof fn lemma_diagnostic_chars_clean(s: Seq<char>)
    ensures
        forall|i: int| 0 <= i < diagnostic_chars(s).len() ==> is_diagnostic_char(#[trigger] diagnostic_chars(s)[i]),
    decreases s.len(),
{
    if s.len() > 0 {
        lemma_diagnostic_chars_clean(s.drop_last());
        let a = diagnostic_chars(s.drop_last());
        let b = diagnostic_char(s.last());
        assert forall|i: int| 0 <= i < b.len() implies is_diagnostic_char(#[trigger] b[i]) by {}
        assert forall|i: int| 0 <= i < diagnostic_chars(s).len() implies is_diagnostic_char(#[trigger] diagnostic_chars(s)[i]) by {
            if i < a.len() {
                assert(diagnostic_chars(s)[i] == a[i]);
            } else {
                assert(diagnostic_chars(s)[i] == b[i - a.len()]);
            }
        }
    }
}

/// The shape of a sanitized diagnostic: there is none exactly when the
/// mapped text is blank; otherwise it is non-empty, is its own trim, and
/// holds only line feeds, tabs and characters that are neither control nor
/// bidirectional formatting characters.
pub proof fn lemma_diagnostic_text_shape(text: Seq<char>)
    ensures
        diagnostic_of_text(text) is None <==> crate::text::all_whitespace(diagnostic_chars(text)),
        diagnostic_of_text(text) matches Some(d) ==> {
            &&& d.len() > 0
            &&& trim(d) == d
            &&& forall|i: int| 0 <= i < d.len() ==> is_diagnostic_char(#[trigger] d[i])
        },
{
    let m = diagnostic_chars(text);
    lemma_diagnostic_chars_clean(text);
    let off = crate::text::lemma_trim_shape(m);
    let t = trim(m);
    if t.len() > 0 {
        crate::text::lemma_trim_unchanged(t);
        assert forall|i: int| 0 <= i < t.len() implies is_diagnostic_char(#[trigger] t[i]) by {
            assert(t[i] == m[off + i]);
        }
    }
}

/// Only the last `MAX_HARNESS_DIAGNOSTIC_BYTES` bytes of a stream decide
/// its diagnostic, and the diagnostic has the shape stated by
/// [`lemma_diagnostic_text_shape`].
pub proof fn lemma_harness_diagnostic_shape(stream: Seq<u8>)
    ensures
        harness_diagnostic(stream) == harness_diagnostic(diagnostic_tail(stream)),
        harness_diagnostic(stream) is None <==> crate::text::all_whitespace(
            diagnostic_chars(utf8_lossy(diagnostic_tail(stream))),
        ),
        harness_diagnostic(stream) matches Some(d) ==> {
            &&& d.len() > 0
            &&& trim(d) == d
            &&& forall|i: int| 0 <= i < d.len() ==> is_diagnostic_char(#[trigger] d[i])
        },
{
    let tail = diagnostic_tail(stream);
    assert(diagnostic_tail(tail) == tail);
    lemma_diagnostic_text_shape(utf8_lossy(tail));
}

/// Summary for a final message that is blank.
pub open spec fn blank_summary(succeeded: bool) -> Seq<char> {
    if succeeded {
        "Codex completed without a final summary."@
    } else {
        "Codex exited without a final summary."@
    }
}

/// The summary reported for a harness run.
pub open spec fn harness_summary(
    succeeded: bool,
    final_message: Seq<char>,
    stdout: Seq<u8>,
    stderr: Seq<u8>,
) -> Seq<char> {
    let base = if trim(final_message).len() == 0 {
        blank_summary(succeeded)
    } else {
        final_message
    };
    if succeeded {
        base
    } else {
        match harness_diagnostic(stderr) {
            Some(d) => base + "\n\nCodex "@ + "stderr"@ + " (sanitized, bounded tail):\n"@ + d,
            None => match harness_diagnostic(stdout) {
                Some(d) => base + "\n\nCodex "@ + "stdout"@ + " (sanitized, bounded tail):\n"@ + d,
                None => base,
            },
        }
    }
}

/// The output of a finished Codex process: it succeeded exactly when the
/// process exited successfully, its summary is composed from the final
/// message and the output streams, and a failed exit carries `codex_exit`.
pub fn codex_run_output(
    exit_success: bool,
    final_message: String,
    stdout: &[u8],
    stderr: &[u8],
) -> (r: HarnessOutput)
    ensures
        r.succeeded == exit_success,
        r.summary@ == harness_summary(exit_success, final_message@, stdout@, stderr@),
        exit_success <==> r.failure_code is None,
        r.failure_code matches Some(c) ==> c@ == "codex_exit"@,
{
    let summary = compose_harness_summary(exit_success, final_message, stdout, stderr);
    let failure_code = if exit_success {
        None
    } else {
        Some(crate::text::owned("codex_exit"))
    };
    HarnessOutput { succeeded: exit_success, summary, failure_code }
}

/// Appends every character of `src` to `dst`.
pub fn push_str_chars(dst: &mut Vec<char>, src: &str)
    ensures
        final(dst)@ == old(dst)@ + src@,
{
    let mut chars = chars_of(src);
    dst.append(&mut chars);
}

/// Composes the run summary: the final message (or a default when it is
/// blank), and for a failed run the sanitized tail of stderr, or of stdout
/// when stderr has nothing to show.
pub fn compose_harness_summary(
    succeeded: bool,
    final_message: String,
    stdout: &[u8],
    stderr: &[u8],
) -> (summary: String)
    ensures
        summary@ == harness_summary(succeeded, final_message@, stdout@, stderr@),
{
    let message_chars = chars_of(final_message.as_str());
    let trimmed = trim_chars(&message_chars);
    let mut summary: Vec<char> = if trimmed.len() == 0 {
        if succeeded {
            chars_of("Codex completed without a final summary.")
        } else {
            chars_of("Codex exited without a final summary.")
        }
    } else {
        message_chars
    };
    if succeeded {
        return string_of(&summary);
    }
    let (stream, diagnostic) = match sanitized_harness_diagnostic(stderr) {
        Some(d) => ("stderr", Some(d)),
        None => ("stdout", sanitized_harness_diagnostic(stdout)),
    };
    if let Some(diagnostic) = diagnostic {
        push_str_chars(&mut summary, "\n\nCodex ");
        push_str_chars(&mut summary, stream);
        push_str_chars(&mut summary, " (sanitized, bounded tail):\n");
        push_str_chars(&mut summary, diagnostic.as_str());
    }
    string_of(&summary)
}

} // verus!
