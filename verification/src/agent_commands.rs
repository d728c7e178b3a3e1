use crate::agents::{
    check_agent_instructions, check_approval_inputs, check_enrollment_fingerprint, check_enrollment_handle,
    enrollment_code_text, opt_text, validate_approved_agent_response, AgentEnrollmentResponse, AgentResponse,
};
use crate::error::PublicError;
use crate::text::{owned, trim};
use vstd::prelude::*;

verus! {

/// Where an `agents register`, `agents approve` or `agents revoke` command
/// stands.
#[derive(PartialEq, Eq, Structural, Clone, Copy, Debug)]
pub enum AgentsStage {
    /// Canonicalizing the proposed handle.
    RegisterCanonicalizing,
    /// Resolving the project the agent will work in.
    RegisterResolvingProject,
    /// Preparing the local enrollment draft.
    RegisterPreparingDraft,
    /// Printing the enrollment of a matching local identity.
    RegisterPrintingExisting,
    /// Registering the enrollment with the service.
    RegisterRegistering,
    /// Recording the service's registration in the draft.
    RegisterRecording,
    /// Saving the pending identity.
    RegisterPersisting,
    /// Printing the new enrollment.
    RegisterPrinting,
    /// Completing the draft.
    RegisterCompleting,
    /// Reading the enrollment code.
    ApproveReadingCode,
    /// Deriving the enrollment token from the code.
    ApproveDerivingToken,
    /// Reading the agent's instructions.
    ApproveReadingInstructions,
    /// Looking the enrollment up.
    ApproveLookingUp,
    /// Encrypting the grant and approving the agent.
    ApproveApproving,
    /// Checking for a local copy of the identity.
    ApproveCheckingLocal,
    /// Activating the local identity.
    ApproveActivating,
    /// Printing the approved agent.
    ApprovePrinting,
    /// Revoking the agent with the service.
    RevokeRevoking,
    /// Checking for a local copy of the identity.
    RevokeCheckingLocal,
    /// Marking the local identity revoked.
    RevokeMarking,
    /// Printing the revoked agent.
    RevokePrinting,
    /// The command is over.
    Done,
}

/// The state of an agent command: its stage, the handle that registration
/// requested and the one the service registered, and the fingerprint the
/// owner supplied (the verified one once the enrollment was looked up).
#[derive(Debug)]
pub struct AgentsState {
    pub stage: AgentsStage,
    pub handle: Option<String>,
    pub registered_handle: Option<String>,
    pub fingerprint: String,
}

/// What the local enrollment draft found: a local identity that already
/// matches, a registration recorded earlier (with the handle it
/// registered), and whether an earlier attempt is being resumed.
#[derive(Debug)]
pub struct DraftFacts {
    pub matching_local_identity: bool,
    pub recorded_registration: Option<Option<String>>,
    pub resumed: bool,
}

/// What the service answered an approval with, and what was asked for.
#[derive(Debug)]
pub struct ApprovalReply {
    pub approved: AgentResponse,
    pub enrollment: AgentEnrollmentResponse,
    pub handle: String,
    pub display_name: String,
    pub work_list_id: u128,
    pub instructions_revision: i64,
}

/// What happened since the last step.
#[derive(Debug)]
pub enum AgentsEvent {
    /// The requested action finished, or failed with this error.
    Completed(Result<(), PublicError>),
    /// The proposed handle was canonicalized.
    Handle(Result<Option<String>, PublicError>),
    /// The draft was prepared.
    Draft(Result<DraftFacts, PublicError>),
    /// The service registered the enrollment with this handle.
    Registered(Result<Option<String>, PublicError>),
    /// A file or standard input was read.
    Text(Result<String, PublicError>),
    /// The enrollment was found: the fingerprint it reports and the one
    /// computed from its keys.
    Enrollment(Result<(String, String), PublicError>),
    /// The approval request was answered.
    Approval(Result<ApprovalReply, PublicError>),
    /// Whether a local copy of the identity exists.
    LocalIdentity(Result<bool, PublicError>),
}

/// What the command does next.
#[derive(Debug)]
pub enum AgentsAction {
    CanonicalizeHandle,
    ResolveProject,
    PrepareDraft,
    PrintExistingEnrollment,
    RegisterEnrollment { resume: bool },
    RecordRegistration,
    PersistIdentity,
    PrintEnrollment,
    CompleteDraft,
    ReadEnrollmentCode,
    DeriveToken(String),
    ReadInstructions,
    LookupEnrollment,
    PrepareAndApprove,
    LoadLocalIdentity,
    ActivateIdentity,
    RevokeAgent,
    MarkRevoked,
    PrintMutation(&'static str),
    /// The command fails with this error.
    Fail(PublicError),
    /// The command succeeded.
    Finish,
    /// Nothing to do for this event.
    Wait,
}

/// How an agent command starts.
#[derive(Debug)]
pub enum AgentsCommandStart {
    Register { has_proposed_handle: bool },
    Approve { password_stdin: bool, code_uses_stdin: bool, instructions_use_stdin: bool, fingerprint: String },
    Revoke,
}

/// The command ends with an error whose code and message are given.
pub open spec fn fails_with(action: AgentsAction, code: Seq<char>, message: Seq<char>) -> bool {
    action matches AgentsAction::Fail(e) && e.code@ == code && e.message@ == message
}

/// The state at `stage` with the other fields kept.
pub open spec fn at(s: AgentsState, stage: AgentsStage) -> AgentsState {
    AgentsState { stage, ..s }
}

/// The state after the command ended.
pub open spec fn done(s: AgentsState) -> AgentsState {
    at(s, AgentsStage::Done)
}

/// The error with which an approval answer is refused, if any, as code
/// and message (the one `validate_approved_agent_response` returns).
pub open spec fn approval_reply_error(r: ApprovalReply, fingerprint: Seq<char>) -> Option<(Seq<char>, Seq<char>)> {
    crate::agents::spec_approval_error(r.approved, r.enrollment, fingerprint, r.handle@, r.display_name@, r.work_list_id,
        r.instructions_revision)
}

/// The first state and action of an agent command.
pub open spec fn agents_start_ok(c: AgentsCommandStart, s: AgentsState, action: AgentsAction) -> bool {
    &&& s.handle is None
    &&& s.registered_handle is None
    &&& match c {
        AgentsCommandStart::Register { has_proposed_handle } => if has_proposed_handle {
            s.stage == AgentsStage::RegisterCanonicalizing && action is CanonicalizeHandle
        } else {
            s.stage == AgentsStage::RegisterResolvingProject && action is ResolveProject
        },
        AgentsCommandStart::Approve { password_stdin, code_uses_stdin, instructions_use_stdin, fingerprint } => {
            &&& s.fingerprint@ == fingerprint@
            &&& if (password_stdin && (code_uses_stdin || instructions_use_stdin)) || (code_uses_stdin && instructions_use_stdin) {
                s.stage == AgentsStage::Done && fails_with(action, "validation"@,
                    "agent approval can consume stdin for only one input; use files for the enrollment code and instructions when --password-stdin is set"@)
            } else {
                s.stage == AgentsStage::ApproveReadingCode && action is ReadEnrollmentCode
            }
        },
        AgentsCommandStart::Revoke => s.stage == AgentsStage::RevokeRevoking && action is RevokeAgent,
    }
}

/// Starts an agent command.
pub fn agents_start(c: AgentsCommandStart) -> (r: (AgentsState, AgentsAction))
    ensures
        agents_start_ok(c, r.0, r.1),
{
    match c {
        AgentsCommandStart::Register { has_proposed_handle } => {
            let stage = if has_proposed_handle { AgentsStage::RegisterCanonicalizing } else { AgentsStage::RegisterResolvingProject };
            let action = if has_proposed_handle { AgentsAction::CanonicalizeHandle } else { AgentsAction::ResolveProject };
            (AgentsState { stage, handle: None, registered_handle: None, fingerprint: owned("") }, action)
        },
        AgentsCommandStart::Approve { password_stdin, code_uses_stdin, instructions_use_stdin, fingerprint } => {
            match check_approval_inputs(password_stdin, code_uses_stdin, instructions_use_stdin) {
                Err(e) => (AgentsState { stage: AgentsStage::Done, handle: None, registered_handle: None, fingerprint }, AgentsAction::Fail(e)),
                Ok(()) => (AgentsState { stage: AgentsStage::ApproveReadingCode, handle: None, registered_handle: None, fingerprint },
                    AgentsAction::ReadEnrollmentCode),
            }
        },
        AgentsCommandStart::Revoke => (AgentsState { stage: AgentsStage::RevokeRevoking, handle: None, registered_handle: None,
            fingerprint: owned("") }, AgentsAction::RevokeAgent),
    }
}

/// One step of an agent command: an error from any step ends the command
/// with that error; otherwise each stage's checks run in the order the
/// command makes them.
pub open spec fn agents_step_ok(s: AgentsState, ev: AgentsEvent, next: AgentsState, action: AgentsAction) -> bool {
    match (s.stage, ev) {
        (AgentsStage::Done, _) => next == s && action is Wait,
        (_, AgentsEvent::Completed(Err(e))) => next == done(s) && action == AgentsAction::Fail(e),
        (_, AgentsEvent::Handle(Err(e))) => next == done(s) && action == AgentsAction::Fail(e),
        (_, AgentsEvent::Draft(Err(e))) => next == done(s) && action == AgentsAction::Fail(e),
        (_, AgentsEvent::Registered(Err(e))) => next == done(s) && action == AgentsAction::Fail(e),
        (_, AgentsEvent::Text(Err(e))) => next == done(s) && action == AgentsAction::Fail(e),
        (_, AgentsEvent::Enrollment(Err(e))) => next == done(s) && action == AgentsAction::Fail(e),
        (_, AgentsEvent::Approval(Err(e))) => next == done(s) && action == AgentsAction::Fail(e),
        (_, AgentsEvent::LocalIdentity(Err(e))) => next == done(s) && action == AgentsAction::Fail(e),
        (AgentsStage::RegisterCanonicalizing, AgentsEvent::Handle(Ok(h))) =>
            next == (AgentsState { stage: AgentsStage::RegisterResolvingProject, handle: h, ..s }) && action is ResolveProject,
        (AgentsStage::RegisterResolvingProject, AgentsEvent::Completed(Ok(()))) =>
            next == at(s, AgentsStage::RegisterPreparingDraft) && action is PrepareDraft,
        (AgentsStage::RegisterPreparingDraft, AgentsEvent::Draft(Ok(facts))) => if facts.matching_local_identity {
            next == at(s, AgentsStage::RegisterPrintingExisting) && action is PrintExistingEnrollment
        } else {
            match facts.recorded_registration {
                Some(registered) => if opt_text(registered) == opt_text(s.handle) {
                    next == at(s, AgentsStage::RegisterPersisting) && action is PersistIdentity
                } else {
                    next == done(s) && fails_with(action, "crypto"@, "agent enrollment response changed the requested identity metadata"@)
                },
                None => next == at(s, AgentsStage::RegisterRegistering)
                    && action == AgentsAction::RegisterEnrollment { resume: facts.resumed },
            }
        },
        (AgentsStage::RegisterPrintingExisting, AgentsEvent::Completed(Ok(()))) =>
            next == at(s, AgentsStage::RegisterCompleting) && action is CompleteDraft,
        (AgentsStage::RegisterRegistering, AgentsEvent::Registered(Ok(h))) =>
            next == (AgentsState { stage: AgentsStage::RegisterRecording, registered_handle: h, ..s }) && action is RecordRegistration,
        (AgentsStage::RegisterRecording, AgentsEvent::Completed(Ok(()))) => if opt_text(s.registered_handle) == opt_text(s.handle) {
            next == at(s, AgentsStage::RegisterPersisting) && action is PersistIdentity
        } else {
            next == done(s) && fails_with(action, "crypto"@, "agent enrollment response changed the requested identity metadata"@)
        },
        (AgentsStage::RegisterPersisting, AgentsEvent::Completed(Ok(()))) =>
            next == at(s, AgentsStage::RegisterPrinting) && action is PrintEnrollment,
        (AgentsStage::RegisterPrinting, AgentsEvent::Completed(Ok(()))) =>
            next == at(s, AgentsStage::RegisterCompleting) && action is CompleteDraft,
        (AgentsStage::RegisterCompleting, AgentsEvent::Completed(Ok(()))) => next == done(s) && action is Finish,
        (AgentsStage::ApproveReadingCode, AgentsEvent::Text(Ok(text))) => if trim(text@).len() == 0 {
            next == done(s) && fails_with(action, "validation"@, "agent enrollment code cannot be empty"@)
        } else {
            next == at(s, AgentsStage::ApproveDerivingToken) && (action matches AgentsAction::DeriveToken(code) && code@ == trim(text@))
        },
        (AgentsStage::ApproveDerivingToken, AgentsEvent::Completed(Ok(()))) =>
            next == at(s, AgentsStage::ApproveReadingInstructions) && action is ReadInstructions,
        (AgentsStage::ApproveReadingInstructions, AgentsEvent::Text(Ok(text))) => if trim(text@).len() == 0 {
            next == done(s) && fails_with(action, "validation"@, "agent instructions cannot be empty"@)
        } else {
            next == at(s, AgentsStage::ApproveLookingUp) && action is LookupEnrollment
        },
        (AgentsStage::ApproveLookingUp, AgentsEvent::Enrollment(Ok((reported, computed)))) =>
            if reported@ == computed@ && computed@ == trim(s.fingerprint@) {
                next.stage == AgentsStage::ApproveApproving && next.handle == s.handle && next.registered_handle == s.registered_handle
                    && next.fingerprint@ == computed@ && action is PrepareAndApprove
            } else {
                next == done(s) && fails_with(action, "validation"@, "the supplied fingerprint does not match this enrollment"@)
            },
        (AgentsStage::ApproveApproving, AgentsEvent::Approval(Ok(reply))) => match approval_reply_error(reply, s.fingerprint@) {
            Some((code, message)) => next == done(s) && fails_with(action, code, message),
            None => next == at(s, AgentsStage::ApproveCheckingLocal) && action is LoadLocalIdentity,
        },
        (AgentsStage::ApproveCheckingLocal, AgentsEvent::LocalIdentity(Ok(exists))) => if exists {
            next == at(s, AgentsStage::ApproveActivating) && action is ActivateIdentity
        } else {
            next == at(s, AgentsStage::ApprovePrinting) && action == AgentsAction::PrintMutation("Agent approved.")
        },
        (AgentsStage::ApproveActivating, AgentsEvent::Completed(Ok(()))) =>
            next == at(s, AgentsStage::ApprovePrinting) && action == AgentsAction::PrintMutation("Agent approved."),
        (AgentsStage::ApprovePrinting, AgentsEvent::Completed(Ok(()))) => next == done(s) && action is Finish,
        (AgentsStage::RevokeRevoking, AgentsEvent::Completed(Ok(()))) =>
            next == at(s, AgentsStage::RevokeCheckingLocal) && action is LoadLocalIdentity,
        (AgentsStage::RevokeCheckingLocal, AgentsEvent::LocalIdentity(Ok(exists))) => if exists {
            next == at(s, AgentsStage::RevokeMarking) && action is MarkRevoked
        } else {
            next == at(s, AgentsStage::RevokePrinting) && action == AgentsAction::PrintMutation("Agent revoked.")
        },
        (AgentsStage::RevokeMarking, AgentsEvent::Completed(Ok(()))) =>
            next == at(s, AgentsStage::RevokePrinting) && action == AgentsAction::PrintMutation("Agent revoked."),
        (AgentsStage::RevokePrinting, AgentsEvent::Completed(Ok(()))) => next == done(s) && action is Finish,
        _ => next == s && action is Wait,
    }
}

fn moved_to(s: AgentsState, stage: AgentsStage) -> (r: AgentsState)
    ensures
        r == at(s, stage),
{
    AgentsState { stage, ..s }
}

/// Decides the next step of an agent command from what just happened.
pub fn agents_step(s: AgentsState, ev: AgentsEvent) -> (r: (AgentsState, AgentsAction))
    ensures
        agents_step_ok(s, ev, r.0, r.1),
{
    if s.stage == AgentsStage::Done {
        return (s, AgentsAction::Wait);
    }
    let stage = s.stage;
    match ev {
        AgentsEvent::Completed(Err(e)) | AgentsEvent::Handle(Err(e)) | AgentsEvent::Draft(Err(e)) | AgentsEvent::Registered(Err(e))
        | AgentsEvent::Text(Err(e)) | AgentsEvent::Enrollment(Err(e)) | AgentsEvent::Approval(Err(e))
        | AgentsEvent::LocalIdentity(Err(e)) => (moved_to(s, AgentsStage::Done), AgentsAction::Fail(e)),
        AgentsEvent::Handle(Ok(h)) => if stage == AgentsStage::RegisterCanonicalizing {
            (AgentsState { stage: AgentsStage::RegisterResolvingProject, handle: h, ..s }, AgentsAction::ResolveProject)
        } else {
            (s, AgentsAction::Wait)
        },
        AgentsEvent::Draft(Ok(facts)) => if stage == AgentsStage::RegisterPreparingDraft {
            if facts.matching_local_identity {
                (moved_to(s, AgentsStage::RegisterPrintingExisting), AgentsAction::PrintExistingEnrollment)
            } else {
                match facts.recorded_registration {
                    Some(registered) => match check_enrollment_handle(&registered, &s.handle) {
                        Ok(()) => (moved_to(s, AgentsStage::RegisterPersisting), AgentsAction::PersistIdentity),
                        Err(e) => (moved_to(s, AgentsStage::Done), AgentsAction::Fail(e)),
                    },
                    None => (moved_to(s, AgentsStage::RegisterRegistering), AgentsAction::RegisterEnrollment { resume: facts.resumed }),
                }
            }
        } else {
            (s, AgentsAction::Wait)
        },
        AgentsEvent::Registered(Ok(h)) => if stage == AgentsStage::RegisterRegistering {
            (AgentsState { stage: AgentsStage::RegisterRecording, registered_handle: h, ..s }, AgentsAction::RecordRegistration)
        } else {
            (s, AgentsAction::Wait)
        },
        AgentsEvent::Text(Ok(text)) => if stage == AgentsStage::ApproveReadingCode {
            match enrollment_code_text(text.as_str()) {
                Ok(code) => (moved_to(s, AgentsStage::ApproveDerivingToken), AgentsAction::DeriveToken(code)),
                Err(e) => (moved_to(s, AgentsStage::Done), AgentsAction::Fail(e)),
            }
        } else if stage == AgentsStage::ApproveReadingInstructions {
            match check_agent_instructions(text.as_str()) {
                Ok(()) => (moved_to(s, AgentsStage::ApproveLookingUp), AgentsAction::LookupEnrollment),
                Err(e) => (moved_to(s, AgentsStage::Done), AgentsAction::Fail(e)),
            }
        } else {
            (s, AgentsAction::Wait)
        },
        AgentsEvent::Enrollment(Ok((reported, computed))) => if stage == AgentsStage::ApproveLookingUp {
            match check_enrollment_fingerprint(reported.as_str(), computed.as_str(), s.fingerprint.as_str()) {
                Ok(()) => (AgentsState { stage: AgentsStage::ApproveApproving, fingerprint: computed, ..s }, AgentsAction::PrepareAndApprove),
                Err(e) => (moved_to(s, AgentsStage::Done), AgentsAction::Fail(e)),
            }
        } else {
            (s, AgentsAction::Wait)
        },
        AgentsEvent::Approval(Ok(reply)) => if stage == AgentsStage::ApproveApproving {
            match validate_approved_agent_response(&reply.approved, &reply.enrollment, s.fingerprint.as_str(), reply.handle.as_str(),
                reply.display_name.as_str(), reply.work_list_id, reply.instructions_revision) {
                Ok(()) => (moved_to(s, AgentsStage::ApproveCheckingLocal), AgentsAction::LoadLocalIdentity),
                Err(e) => (moved_to(s, AgentsStage::Done), AgentsAction::Fail(e)),
            }
        } else {
            (s, AgentsAction::Wait)
        },
        AgentsEvent::LocalIdentity(Ok(exists)) => if stage == AgentsStage::ApproveCheckingLocal {
            if exists {
                (moved_to(s, AgentsStage::ApproveActivating), AgentsAction::ActivateIdentity)
            } else {
                (moved_to(s, AgentsStage::ApprovePrinting), AgentsAction::PrintMutation("Agent approved."))
            }
        } else if stage == AgentsStage::RevokeCheckingLocal {
            if exists {
                (moved_to(s, AgentsStage::RevokeMarking), AgentsAction::MarkRevoked)
            } else {
                (moved_to(s, AgentsStage::RevokePrinting), AgentsAction::PrintMutation("Agent revoked."))
            }
        } else {
            (s, AgentsAction::Wait)
        },
        AgentsEvent::Completed(Ok(())) => match stage {
            AgentsStage::RegisterResolvingProject => (moved_to(s, AgentsStage::RegisterPreparingDraft), AgentsAction::PrepareDraft),
            AgentsStage::RegisterPrintingExisting => (moved_to(s, AgentsStage::RegisterCompleting), AgentsAction::CompleteDraft),
            AgentsStage::RegisterRecording => match check_enrollment_handle(&s.registered_handle, &s.handle) {
                Ok(()) => (moved_to(s, AgentsStage::RegisterPersisting), AgentsAction::PersistIdentity),
                Err(e) => (moved_to(s, AgentsStage::Done), AgentsAction::Fail(e)),
            },
            AgentsStage::RegisterPersisting => (moved_to(s, AgentsStage::RegisterPrinting), AgentsAction::PrintEnrollment),
            AgentsStage::RegisterPrinting => (moved_to(s, AgentsStage::RegisterCompleting), AgentsAction::CompleteDraft),
            AgentsStage::RegisterCompleting => (moved_to(s, AgentsStage::Done), AgentsAction::Finish),
            AgentsStage::ApproveDerivingToken => (moved_to(s, AgentsStage::ApproveReadingInstructions), AgentsAction::ReadInstructions),
            AgentsStage::ApproveActivating => (moved_to(s, AgentsStage::ApprovePrinting), AgentsAction::PrintMutation("Agent approved.")),
            AgentsStage::ApprovePrinting => (moved_to(s, AgentsStage::Done), AgentsAction::Finish),
            AgentsStage::RevokeRevoking => (moved_to(s, AgentsStage::RevokeCheckingLocal), AgentsAction::LoadLocalIdentity),
            AgentsStage::RevokeMarking => (moved_to(s, AgentsStage::RevokePrinting), AgentsAction::PrintMutation("Agent revoked.")),
            AgentsStage::RevokePrinting => (moved_to(s, AgentsStage::Done), AgentsAction::Finish),
            _ => (s, AgentsAction::Wait),
        },
    }
}

} // verus!
