use crate::codec::{base64_decode_no_pad, decode_agent_public_key, trimmed_bytes, uuid_text, uuid_to_string};
use crate::error::PublicError;
use crate::service::LocalAgentStatus;
use crate::text::{chars_of, owned, push_str, str_eq, string_of, trim, trim_chars};
use vstd::prelude::*;

verus! {

/// The label of a locally stored agent identity's status.
pub fn local_agent_status_label(status: &LocalAgentStatus) -> (l: &'static str)
    ensures
        l@ == match *status {
            LocalAgentStatus::Pending => "pending"@,
            LocalAgentStatus::Expired => "expired"@,
            LocalAgentStatus::Active => "active"@,
            LocalAgentStatus::Revoked => "revoked"@,
        },
{
    match status {
        LocalAgentStatus::Pending => "pending",
        LocalAgentStatus::Expired => "expired",
        LocalAgentStatus::Active => "active",
        LocalAgentStatus::Revoked => "revoked",
    }
}

/// The project grant an approved agent holds.
#[derive(Debug)]
pub struct AgentGrant {
    pub work_list_id: u128,
    pub permission_preset: String,
    pub instructions_revision: i64,
}

/// An agent identity as the service reports it after approval.
#[derive(Debug)]
pub struct AgentResponse {
    pub id: u128,
    pub owner_user_id: Option<u128>,
    pub status: String,
    pub handle: Option<String>,
    pub display_name: Option<String>,
    pub fingerprint: String,
    pub auth_public_key: String,
    pub recipient_public_key: String,
    pub grant: Option<AgentGrant>,
}

/// The table row of one agent identity: its identifier, handle, status
/// and granted work list, tab-separated, `-` for what is missing.
pub open spec fn agent_row(agent: AgentResponse) -> Seq<char> {
    uuid_text(agent.id) + "\t"@ + match agent.handle {
        Some(h) => h@,
        None => "-"@,
    } + "\t"@ + agent.status@ + "\t"@ + match agent.grant {
        Some(g) => uuid_text(g.work_list_id),
        None => "-"@,
    }
}

/// The lines of the agent table: one row per identity, or a notice that
/// there are none.
pub open spec fn spec_agent_table(agents: Seq<AgentResponse>) -> Seq<Seq<char>> {
    if agents.len() == 0 {
        seq!["No agent identities."@]
    } else {
        agents.map_values(|a: AgentResponse| agent_row(a))
    }
}

/// The lines that `agents list` prints as a table.
pub fn print_agents(agents: &Vec<AgentResponse>) -> (lines: Vec<String>)
    ensures
        lines@.map_values(|l: String| l@) == spec_agent_table(agents@),
{
    let mut lines: Vec<String> = Vec::new();
    if agents.len() == 0 {
        lines.push(owned("No agent identities."));
        assert(lines@.map_values(|l: String| l@) =~= spec_agent_table(agents@));
        return lines;
    }
    let mut i: usize = 0;
    while i < agents.len()
        invariant
            i <= agents@.len(),
            lines@.len() == i,
            forall|j: int| 0 <= j < i ==> #[trigger] lines@[j]@ == agent_row(agents@[j]),
        decreases agents@.len() - i,
    {
        let agent = &agents[i];
        let mut m = chars_of(uuid_to_string(agent.id).as_str());
        push_str(&mut m, "\t");
        match &agent.handle {
            Some(h) => push_str(&mut m, h.as_str()),
            None => push_str(&mut m, "-"),
        }
        push_str(&mut m, "\t");
        push_str(&mut m, agent.status.as_str());
        push_str(&mut m, "\t");
        match &agent.grant {
            Some(g) => push_str(&mut m, uuid_to_string(g.work_list_id).as_str()),
            None => push_str(&mut m, "-"),
        }
        lines.push(string_of(&m));
        i += 1;
    }
    assert(lines@.map_values(|l: String| l@) =~= spec_agent_table(agents@));
    lines
}

/// Approving an agent reads the enrollment code and the instructions, each
/// from a file or from standard input (`-`); standard input can serve only
/// one of them, and none when it carries the password.
pub fn check_approval_inputs(password_stdin: bool, code_uses_stdin: bool, instructions_use_stdin: bool) -> (r: Result<(), PublicError>)
    ensures
        r is Ok <==> !((password_stdin && (code_uses_stdin || instructions_use_stdin)) || (code_uses_stdin && instructions_use_stdin)),
        r matches Err(e) ==> e.code@ == "validation"@
            && e.message@ == "agent approval can consume stdin for only one input; use files for the enrollment code and instructions when --password-stdin is set"@,
{
    if (password_stdin && (code_uses_stdin || instructions_use_stdin)) || (code_uses_stdin && instructions_use_stdin) {
        return Err(PublicError::validation(owned(
            "agent approval can consume stdin for only one input; use files for the enrollment code and instructions when --password-stdin is set",
        )));
    }
    Ok(())
}

/// The enrollment code as read, trimmed; it must not be empty.
pub fn enrollment_code_text(input: &str) -> (r: Result<String, PublicError>)
    ensures
        trim(input@).len() > 0 ==> (r matches Ok(code) && code@ == trim(input@)),
        trim(input@).len() == 0 ==> (r matches Err(e) && e.code@ == "validation"@
            && e.message@ == "agent enrollment code cannot be empty"@),
{
    let code = trim_chars(&chars_of(input));
    if code.len() == 0 {
        return Err(PublicError::validation(owned("agent enrollment code cannot be empty")));
    }
    Ok(string_of(&code))
}

/// The agent's instructions must hold more than white space.
pub fn check_agent_instructions(instructions: &str) -> (r: Result<(), PublicError>)
    ensures
        r is Ok <==> trim(instructions@).len() > 0,
        r matches Err(e) ==> e.code@ == "validation"@ && e.message@ == "agent instructions cannot be empty"@,
{
    if trim_chars(&chars_of(instructions)).len() == 0 {
        return Err(PublicError::validation(owned("agent instructions cannot be empty")));
    }
    Ok(())
}

/// The fingerprint computed from the enrollment's keys must be the one
/// the enrollment reports and the one the owner supplied (trimmed).
pub fn check_enrollment_fingerprint(reported: &str, computed: &str, supplied: &str) -> (r: Result<(), PublicError>)
    ensures
        r is Ok <==> (reported@ == computed@ && computed@ == trim(supplied@)),
        r matches Err(e) ==> e.code@ == "validation"@
            && e.message@ == "the supplied fingerprint does not match this enrollment"@,
{
    let supplied_trimmed = trim_chars(&chars_of(supplied));
    if !str_eq(reported, computed) || !crate::text::chars_eq(&chars_of(computed), &supplied_trimmed) {
        return Err(PublicError::validation(owned("the supplied fingerprint does not match this enrollment")));
    }
    Ok(())
}

/// The enrollment the server registered must carry the handle that was
/// requested, or none when none was.
pub fn check_enrollment_handle(registered: &Option<String>, requested: &Option<String>) -> (r: Result<(), PublicError>)
    ensures
        r is Ok <==> opt_text(*registered) == opt_text(*requested),
        r matches Err(e) ==> e.code@ == "crypto"@
            && e.message@ == "agent enrollment response changed the requested identity metadata"@,
{
    let same = match (registered, requested) {
        (Some(a), Some(b)) => str_eq(a.as_str(), b.as_str()),
        (None, None) => true,
        _ => false,
    };
    if !same {
        return Err(PublicError::crypto(owned("agent enrollment response changed the requested identity metadata")));
    }
    Ok(())
}

/// What an enrollment registered for the agent.
#[derive(Debug)]
pub struct AgentEnrollmentResponse {
    pub agent_id: u128,
    pub auth_public_key: String,
    pub recipient_public_key: String,
}

/// The view of an optional string.
pub open spec fn opt_text(s: Option<String>) -> Option<Seq<char>> {
    match s {
        Some(v) => Some(v@),
        None => None,
    }
}

/// A public key decoded as `decode_agent_public_key` does, or the message
/// of its error.
pub open spec fn decoded_key(field: Seq<char>, value: Seq<char>) -> Result<Seq<u8>, Seq<char>> {
    match base64_decode_no_pad(trimmed_bytes(value)) {
        Some(v) => if v.len() == 32 {
            Ok(v)
        } else {
            Err("invalid agent "@ + field + " public key length"@)
        },
        None => Err("invalid agent "@ + field + " public key"@),
    }
}

/// Whether an approved agent is exactly the identity the owner enrolled
/// and authenticated, with the expected grant.
pub open spec fn approval_matches(approved: AgentResponse, enrollment: AgentEnrollmentResponse, fingerprint: Seq<char>, handle: Seq<char>, display_name: Seq<char>, work_list_id: u128, instructions_revision: i64) -> bool {
    &&& approved.id == enrollment.agent_id
    &&& approved.owner_user_id is Some
    &&& approved.status@ == "active"@
    &&& opt_text(approved.handle) == Some(handle)
    &&& opt_text(approved.display_name) == Some(display_name)
    &&& approved.fingerprint@ == fingerprint
    &&& decoded_key("authentication"@, approved.auth_public_key@) == decoded_key("authentication"@, enrollment.auth_public_key@)
    &&& decoded_key("recipient"@, approved.recipient_public_key@) == decoded_key("recipient"@, enrollment.recipient_public_key@)
    &&& approved.grant matches Some(g) && g.work_list_id == work_list_id
        && g.permission_preset@ == "assigned_task_worker"@ && g.instructions_revision == instructions_revision
}

/// Why an approval response is refused, as error code and message, or
/// `None` when it is accepted: it must carry the grant, every key must
/// decode, and it must describe exactly the enrolled identity and grant.
pub open spec fn spec_approval_error(approved: AgentResponse, enrollment: AgentEnrollmentResponse, fingerprint: Seq<char>, handle: Seq<char>, display_name: Seq<char>, work_list_id: u128, instructions_revision: i64) -> Option<(Seq<char>, Seq<char>)> {
    if approved.grant is None {
        Some(("crypto"@, "agent approval response omitted the authenticated project grant"@))
    } else {
        match (
            decoded_key("authentication"@, approved.auth_public_key@),
            decoded_key("authentication"@, enrollment.auth_public_key@),
            decoded_key("recipient"@, approved.recipient_public_key@),
            decoded_key("recipient"@, enrollment.recipient_public_key@),
        ) {
            (Err(m), _, _, _) => Some(("validation"@, m)),
            (Ok(_), Err(m), _, _) => Some(("validation"@, m)),
            (Ok(_), Ok(_), Err(m), _) => Some(("validation"@, m)),
            (Ok(_), Ok(_), Ok(_), Err(m)) => Some(("validation"@, m)),
            _ => if approval_matches(approved, enrollment, fingerprint, handle, display_name, work_list_id, instructions_revision) {
                None
            } else {
                Some(("crypto"@, "agent approval response does not match the owner-authenticated identity and grant"@))
            },
        }
    }
}

/// Whether two optional strings hold the same text.
fn opt_eq(a: &Option<String>, b: &str) -> (r: bool)
    ensures
        r == (opt_text(*a) == Some(b@)),
{
    match a {
        Some(v) => str_eq(v.as_str(), b),
        None => false,
    }
}

/// Whether two byte vectors are equal.
fn bytes_eq(a: &Vec<u8>, b: &Vec<u8>) -> (r: bool)
    ensures
        r == (a@ == b@),
{
    if a.len() != b.len() {
        return false;
    }
    let mut i: usize = 0;
    while i < a.len()
        invariant
            i <= a.len() == b.len(),
            forall|j: int| 0 <= j < i ==> a@[j] == b@[j],
        decreases a.len() - i,
    {
        if a[i] != b[i] {
            return false;
        }
        i += 1;
    }
    assert(a@ =~= b@);
    true
}

/// Checks that an approval response describes exactly the identity the
/// owner enrolled and authenticated: the same agent and keys, active,
/// owned, with the expected handle, name, fingerprint and grant. Each key
/// must decode before identities are compared.
pub fn validate_approved_agent_response(
    approved: &AgentResponse,
    enrollment: &AgentEnrollmentResponse,
    expected_fingerprint: &str,
    expected_handle: &str,
    expected_display_name: &str,
    expected_work_list_id: u128,
    expected_instructions_revision: i64,
) -> (r: Result<(), PublicError>)
    ensures
        match spec_approval_error(*approved, *enrollment, expected_fingerprint@, expected_handle@, expected_display_name@,
            expected_work_list_id, expected_instructions_revision) {
            None => r is Ok,
            Some((code, message)) => r matches Err(e) && e.code@ == code && e.message@ == message,
        },
{
    let grant = match &approved.grant {
        Some(g) => g,
        None => return Err(PublicError::crypto(owned("agent approval response omitted the authenticated project grant"))),
    };
    let approved_auth = decode_agent_public_key("authentication", approved.auth_public_key.as_str())?;
    let enrollment_auth = decode_agent_public_key("authentication", enrollment.auth_public_key.as_str())?;
    let approved_recipient = decode_agent_public_key("recipient", approved.recipient_public_key.as_str())?;
    let enrollment_recipient = decode_agent_public_key("recipient", enrollment.recipient_public_key.as_str())?;
    if approved.id != enrollment.agent_id
        || approved.owner_user_id.is_none()
        || !str_eq(approved.status.as_str(), "active")
        || !opt_eq(&approved.handle, expected_handle)
        || !opt_eq(&approved.display_name, expected_display_name)
        || !str_eq(approved.fingerprint.as_str(), expected_fingerprint)
        || !bytes_eq(&approved_auth, &enrollment_auth)
        || !bytes_eq(&approved_recipient, &enrollment_recipient)
        || grant.work_list_id != expected_work_list_id
        || !str_eq(grant.permission_preset.as_str(), "assigned_task_worker")
        || grant.instructions_revision != expected_instructions_revision
    {
        return Err(PublicError::crypto(owned("agent approval response does not match the owner-authenticated identity and grant")));
    }
    Ok(())
}

/// A project or task that a comment command resolved: its identifier and,
/// when it has one, its name.
#[derive(Debug)]
pub struct ResolvedEntity {
    pub id: u128,
    pub name: Option<String>,
}

/// How an entity is named in messages: `kind "name" (id)` when it has a
/// name, `kind id` otherwise.
pub open spec fn spec_entity_label(kind: Seq<char>, id: u128, name: Option<Seq<char>>) -> Seq<char> {
    match name {
        Some(n) => kind + " \""@ + n + "\" ("@ + uuid_text(id) + ")"@,
        None => kind + " "@ + uuid_text(id),
    }
}

/// The label of a resolved entity in messages.
pub fn entity_label(kind: &str, entity: &ResolvedEntity) -> (l: String)
    ensures
        l@ == spec_entity_label(kind@, entity.id, opt_text(entity.name)),
{
    let mut m = chars_of(kind);
    match &entity.name {
        Some(name) => {
            push_str(&mut m, " \"");
            push_str(&mut m, name.as_str());
            push_str(&mut m, "\" (");
            push_str(&mut m, uuid_to_string(entity.id).as_str());
            push_str(&mut m, ")");
        },
        None => {
            push_str(&mut m, " ");
            push_str(&mut m, uuid_to_string(entity.id).as_str());
        },
    }
    string_of(&m)
}

/// Whether the encrypted read cache is filled from the service or only
/// read.
#[derive(PartialEq, Eq, Structural, Clone, Copy, Debug)]
pub enum ReadCacheMode {
    Online,
    Offline,
}

/// How a read cache mode is described to the operator.
pub fn cache_mode(mode: ReadCacheMode) -> (d: &'static str)
    ensures
        d@ == (if mode == ReadCacheMode::Online { "online population"@ } else { "offline reads only"@ }),
{
    match mode {
        ReadCacheMode::Online => "online population",
        ReadCacheMode::Offline => "offline reads only",
    }
}

} // verus!
