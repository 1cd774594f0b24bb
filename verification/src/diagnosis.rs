//! Finds out why a request was denied, from the strongest evidence that is to be
//! had. The library says which diagnostic call to make next and reads what came
//! back; making the call is left to its user.
use vstd::prelude::*;

use crate::context::{AwsCommandContext, ContextView};
use crate::evaluations::{
    decision_from_message, decision_in, decoded_result, parse_decoded_message,
    parse_request_authorization_details, parse_simulation, single_simulation, verified_results,
};
use crate::json::{find_text, json_string, Json};
use crate::model::{
    identity_of_arn, lemma_views_push, views, AuthorizationResult, AuthorizationView,
    AwsErrorEvidence, AwsIdentity, Confidence, Decision, DenyCause, EvidenceSource, EvidenceView,
    IdentityView,
};
use crate::outside::{json_value, lower_case, parse_json};
use crate::runner::{CallView, DiagnosticCall, Reply};
use crate::text::{copy_option, lemma_texts_push, same_text, strs, texts};
use vstd::utf8::encode_utf8;

verus! {

/// The view of a result whose error is a text.
pub open spec fn outcome<T: View>(value: Result<T, String>) -> Result<T::V, Seq<char>> {
    match value {
        Ok(v) => Ok(v@),
        Err(e) => Err(e@),
    }
}

/// The JSON document that a diagnostic call gave back, or what is noted where it
/// gave none. The four texts are for a call that could not be made, for one that
/// gave back too much, for one that failed and for one that gave back no JSON.
pub open spec fn reply_document(
    reply: Reply,
    failed: Seq<char>,
    truncated: Seq<char>,
    unsuccessful: Seq<char>,
    unreadable: Seq<char>,
) -> Result<Json, Seq<char>> {
    match reply {
        Err(error) => Err(failed + error@),
        Ok(output) => if output.truncated {
            Err(truncated)
        } else if !output.success {
            Err(unsuccessful)
        } else {
            match json_value(output.stdout@) {
                Some(document) => Ok(document),
                None => Err(unreadable),
            }
        },
    }
}

fn read_reply(
    reply: &Reply,
    failed: &str,
    truncated: &str,
    unsuccessful: &str,
    unreadable: &str,
) -> (r: Result<Json, String>)
    ensures
        match reply_document(*reply, failed@, truncated@, unsuccessful@, unreadable@) {
            Ok(document) => r == Ok::<Json, String>(document),
            Err(note) => r matches Err(e) && e@ == note,
        },
{
    match reply {
        Err(error) => {
            let mut note = failed.to_owned();
            note.append(error.as_str());
            Err(note)
        },
        Ok(output) => {
            if output.truncated {
                return Err(truncated.to_owned());
            }
            if !output.success {
                return Err(unsuccessful.to_owned());
            }
            match parse_json(output.stdout.as_slice()) {
                Some(document) => Ok(document),
                None => Err(unreadable.to_owned()),
            }
        },
    }
}

/// A call of the AWS CLI with the command's own profile and region, or what is
/// noted where the command was none of the AWS CLI.
pub open spec fn call_of(context: ContextView, command: Seq<Seq<char>>) -> Result<
    CallView,
    Seq<char>,
> {
    match context.executable {
        Some(executable) => Ok(CallView { executable, args: context.args_for(command) }),
        None => Err("the wrapped executable is not the AWS CLI"@),
    }
}

fn make_call(context: &AwsCommandContext, command: &[&str]) -> (r: Result<DiagnosticCall, String>)
    ensures
        outcome(r) == call_of(context@, strs(command@)),
{
    match context.executable() {
        Ok(executable) => Ok(
            DiagnosticCall { executable: executable.to_owned(), args: context.args_for(command) },
        ),
        Err(note) => Err(note),
    }
}

/// The command that asks who makes the requests.
pub open spec fn identity_command() -> Seq<Seq<char>> {
    seq!["sts"@, "get-caller-identity"@, "--output"@, "json"@]
}

/// The command that asks how a request was authorized.
pub open spec fn details_command(authorization_id: Seq<char>) -> Seq<Seq<char>> {
    seq![
        "iam-toolbox"@,
        "get-request-authorization-details"@,
        "--authorization-id"@,
        authorization_id,
        "--output"@,
        "json"@,
    ]
}

/// The command that decodes an authorization message.
pub open spec fn decode_command(encoded: Seq<char>) -> Seq<Seq<char>> {
    seq![
        "sts"@,
        "decode-authorization-message"@,
        "--encoded-message"@,
        encoded,
        "--output"@,
        "json"@,
    ]
}

/// The command that simulates one action on one resource.
pub open spec fn simulate_command(
    source: Seq<char>,
    action: Seq<char>,
    resource: Seq<char>,
) -> Seq<Seq<char>> {
    seq![
        "iam"@,
        "simulate-principal-policy"@,
        "--policy-source-arn"@,
        source,
        "--action-names"@,
        action,
        "--resource-arns"@,
        resource,
        "--output"@,
        "json"@,
    ]
}

/// The call that asks who makes the requests.
pub fn identity_call(context: &AwsCommandContext) -> (r: Result<DiagnosticCall, String>)
    ensures
        outcome(r) == call_of(context@, identity_command()),
{
    let command = ["sts", "get-caller-identity", "--output", "json"];
    assert(strs(command@) =~= identity_command());
    make_call(context, &command)
}

fn details_call(context: &AwsCommandContext, authorization_id: &str) -> (r: Result<
    DiagnosticCall,
    String,
>)
    ensures
        outcome(r) == call_of(context@, details_command(authorization_id@)),
{
    let command = [
        "iam-toolbox",
        "get-request-authorization-details",
        "--authorization-id",
        authorization_id,
        "--output",
        "json",
    ];
    assert(strs(command@) =~= details_command(authorization_id@));
    make_call(context, &command)
}

fn decode_call(context: &AwsCommandContext, encoded: &str) -> (r: Result<DiagnosticCall, String>)
    ensures
        outcome(r) == call_of(context@, decode_command(encoded@)),
{
    let command = [
        "sts",
        "decode-authorization-message",
        "--encoded-message",
        encoded,
        "--output",
        "json",
    ];
    assert(strs(command@) =~= decode_command(encoded@));
    make_call(context, &command)
}

/// The call that simulates one action of an identity on one resource, or what is
/// noted where there is nothing to simulate.
pub open spec fn simulate_call_of(
    context: ContextView,
    identity: IdentityView,
    action: Seq<char>,
    resource: Seq<char>,
) -> Result<CallView, Seq<char>> {
    match identity.policy_source_arn() {
        Some(source) => call_of(context, simulate_command(source, action, resource)),
        None => Err("IAM simulation does not support this principal type."@),
    }
}

fn simulate_call(
    context: &AwsCommandContext,
    identity: &AwsIdentity,
    action: &str,
    resource: &str,
) -> (r: Result<DiagnosticCall, String>)
    ensures
        outcome(r) == simulate_call_of(context@, identity@, action@, resource@),
{
    match identity.policy_source_arn() {
        Some(source) => {
            let command = [
                "iam",
                "simulate-principal-policy",
                "--policy-source-arn",
                source.as_str(),
                "--action-names",
                action,
                "--resource-arns",
                resource,
                "--output",
                "json",
            ];
            assert(strs(command@) =~= simulate_command(source@, action@, resource@));
            make_call(context, &command)
        },
        None => Err("IAM simulation does not support this principal type.".to_owned()),
    }
}

/// Who makes the requests, by the document that AWS gave back.
pub open spec fn identity_in(document: Json) -> Result<IdentityView, Seq<char>> {
    match find_text(document, seq!["Arn"@, "arn"@]) {
        None => Err("AWS caller identity did not include an ARN."@),
        Some(arn) => match identity_of_arn(arn) {
            Some(identity) => Ok(identity),
            None => Err("AWS returned an unrecognized caller ARN."@),
        },
    }
}

/// Who makes the requests, by what the call gave back.
pub open spec fn identity_outcome(reply: Reply) -> Result<IdentityView, Seq<char>> {
    match reply_document(
        reply,
        "Could not determine the caller identity: "@,
        "AWS caller identity output exceeded the diagnostic limit."@,
        "Could not determine the caller identity with the command's AWS credentials."@,
        "AWS returned an unreadable caller identity response."@,
    ) {
        Ok(document) => identity_in(document),
        Err(note) => Err(note),
    }
}

/// Who makes the requests, by the document that AWS gave back.
pub fn identity_from_document(document: &Json) -> (r: Result<AwsIdentity, String>)
    ensures
        outcome(r) == identity_in(*document),
{
    let names = ["Arn", "arn"];
    assert(strs(names@) =~= seq!["Arn"@, "arn"@]);
    match json_string(document, &names) {
        None => Err("AWS caller identity did not include an ARN.".to_owned()),
        Some(arn) => match AwsIdentity::from_arn(arn.as_str()) {
            Some(identity) => Ok(identity),
            None => Err("AWS returned an unrecognized caller ARN.".to_owned()),
        },
    }
}

/// Who makes the requests, by what the call gave back.
pub fn discover_identity(reply: &Reply) -> (r: Result<AwsIdentity, String>)
    ensures
        outcome(r) == identity_outcome(*reply),
{
    match read_reply(
        reply,
        "Could not determine the caller identity: ",
        "AWS caller identity output exceeded the diagnostic limit.",
        "Could not determine the caller identity with the command's AWS credentials.",
        "AWS returned an unreadable caller identity response.",
    ) {
        Ok(document) => identity_from_document(&document),
        Err(note) => Err(note),
    }
}

/// How the request was authorized, by what the call gave back.
pub open spec fn details_outcome(reply: Reply) -> Result<Seq<AuthorizationView>, Seq<char>> {
    match reply_document(
        reply,
        "Could not retrieve AWS authorization details: "@,
        "AWS authorization details exceeded the diagnostic limit."@,
        "AWS request authorization details were unavailable or not permitted."@,
        "AWS returned unreadable authorization details."@,
    ) {
        Ok(document) => Ok(verified_results(document)),
        Err(note) => Err(note),
    }
}

/// The view of a list of results, or of why there is none.
pub open spec fn results_outcome(value: Result<Vec<AuthorizationResult>, String>) -> Result<
    Seq<AuthorizationView>,
    Seq<char>,
> {
    match value {
        Ok(results) => Ok(views(results@)),
        Err(e) => Err(e@),
    }
}

/// How the request was authorized, by what the call gave back.
pub fn request_authorization_details(reply: &Reply) -> (r: Result<
    Vec<AuthorizationResult>,
    String,
>)
    ensures
        results_outcome(r) == details_outcome(*reply),
{
    match read_reply(
        reply,
        "Could not retrieve AWS authorization details: ",
        "AWS authorization details exceeded the diagnostic limit.",
        "AWS request authorization details were unavailable or not permitted.",
        "AWS returned unreadable authorization details.",
    ) {
        Ok(document) => Ok(parse_request_authorization_details(&document)),
        Err(note) => Err(note),
    }
}

/// What a decoded authorization message says, by the document that AWS gave back.
/// The message is a JSON text inside that document.
pub open spec fn decoded_in(document: Json) -> Result<AuthorizationView, Seq<char>> {
    match find_text(document, seq!["DecodedMessage"@, "decodedMessage"@]) {
        None => Err("AWS did not return decoded authorization details."@),
        Some(message) => match json_value(encode_utf8(message)) {
            Some(value) => Ok(decoded_result(value)),
            None => Err("AWS returned malformed decoded authorization details."@),
        },
    }
}

/// What a decoded authorization message says, by what the call gave back.
pub open spec fn decoded_outcome(reply: Reply) -> Result<AuthorizationView, Seq<char>> {
    match reply_document(
        reply,
        "Could not decode the AWS authorization message: "@,
        "Decoded AWS authorization details exceeded the diagnostic limit."@,
        "The encoded AWS authorization message could not be decoded; sts:DecodeAuthorizationMessage might be missing."@,
        "AWS returned an unreadable decoded authorization message."@,
    ) {
        Ok(document) => decoded_in(document),
        Err(note) => Err(note),
    }
}

/// What a decoded authorization message says, by what the call gave back.
pub fn decode_authorization_message(reply: &Reply) -> (r: Result<AuthorizationResult, String>)
    ensures
        outcome(r) == decoded_outcome(*reply),
{
    match read_reply(
        reply,
        "Could not decode the AWS authorization message: ",
        "Decoded AWS authorization details exceeded the diagnostic limit.",
        "The encoded AWS authorization message could not be decoded; sts:DecodeAuthorizationMessage might be missing.",
        "AWS returned an unreadable decoded authorization message.",
    ) {
        Err(note) => Err(note),
        Ok(document) => {
            let names = ["DecodedMessage", "decodedMessage"];
            assert(strs(names@) =~= seq!["DecodedMessage"@, "decodedMessage"@]);
            match json_string(&document, &names) {
                None => Err("AWS did not return decoded authorization details.".to_owned()),
                Some(message) => match parse_json(message.as_str().as_bytes()) {
                    Some(value) => Ok(parse_decoded_message(&value)),
                    None => Err(
                        "AWS returned malformed decoded authorization details.".to_owned(),
                    ),
                },
            }
        },
    }
}

/// What the simulation of one action on one resource says, by what the call gave
/// back.
pub open spec fn simulation_outcome(
    reply: Reply,
    action: Seq<char>,
    resource: Seq<char>,
) -> Result<AuthorizationView, Seq<char>> {
    match reply_document(
        reply,
        "Could not run IAM policy simulation: "@,
        "IAM policy simulation output exceeded the diagnostic limit."@,
        "IAM policy simulation was unavailable or not permitted."@,
        "AWS returned an unreadable policy simulation."@,
    ) {
        Ok(document) => match single_simulation(document, action, resource) {
            Some(result) => Ok(result),
            None => Err("IAM policy simulation returned no evaluation result."@),
        },
        Err(note) => Err(note),
    }
}

/// What the simulation of one action on one resource says, by what the call gave
/// back.
pub fn simulate(reply: &Reply, action: &str, resource: &str) -> (r: Result<
    AuthorizationResult,
    String,
>)
    ensures
        outcome(r) == simulation_outcome(*reply, action@, resource@),
{
    match read_reply(
        reply,
        "Could not run IAM policy simulation: ",
        "IAM policy simulation output exceeded the diagnostic limit.",
        "IAM policy simulation was unavailable or not permitted.",
        "AWS returned an unreadable policy simulation.",
    ) {
        Ok(document) => match parse_simulation(&document, action, resource) {
            Some(result) => Ok(result),
            None => Err("IAM policy simulation returned no evaluation result.".to_owned()),
        },
        Err(note) => Err(note),
    }
}

/// What is known of a denial, and what kept more from being known.
#[derive(Debug)]
pub struct Diagnosis {
    pub authorization: Vec<AuthorizationResult>,
    pub notes: Vec<String>,
}

pub struct DiagnosisView {
    pub authorization: Seq<AuthorizationView>,
    pub notes: Seq<Seq<char>>,
}

impl View for Diagnosis {
    type V = DiagnosisView;

    open spec fn view(&self) -> DiagnosisView {
        DiagnosisView { authorization: views(self.authorization@), notes: texts(self.notes@) }
    }
}

impl Default for Diagnosis {
    fn default() -> (r: Self)
        ensures
            r@.authorization.len() == 0,
            r@.notes.len() == 0,
    {
        Diagnosis { authorization: Vec::new(), notes: Vec::new() }
    }
}

/// What a diagnostic call is for.
#[derive(Debug)]
pub enum FollowUp {
    Identity,
    Details,
    Decode,
    Simulate { action: String, resource: String },
}

pub enum FollowUpView {
    Identity,
    Details,
    Decode,
    Simulate { action: Seq<char>, resource: Seq<char> },
}

impl View for FollowUp {
    type V = FollowUpView;

    open spec fn view(&self) -> FollowUpView {
        match self {
            FollowUp::Identity => FollowUpView::Identity,
            FollowUp::Details => FollowUpView::Details,
            FollowUp::Decode => FollowUpView::Decode,
            FollowUp::Simulate { action, resource } => FollowUpView::Simulate {
                action: action@,
                resource: resource@,
            },
        }
    }
}

/// What the diagnostic calls that were made came to.
pub struct FollowUpOutcomes {
    pub identity: Option<Result<AwsIdentity, String>>,
    pub details: Option<Result<Vec<AuthorizationResult>, String>>,
    pub decoded: Option<Result<AuthorizationResult, String>>,
    pub simulated: Option<Result<AuthorizationResult, String>>,
}

pub struct OutcomesView {
    pub identity: Option<Result<IdentityView, Seq<char>>>,
    pub details: Option<Result<Seq<AuthorizationView>, Seq<char>>>,
    pub decoded: Option<Result<AuthorizationView, Seq<char>>>,
    pub simulated: Option<Result<AuthorizationView, Seq<char>>>,
}

impl View for FollowUpOutcomes {
    type V = OutcomesView;

    open spec fn view(&self) -> OutcomesView {
        OutcomesView {
            identity: match self.identity {
                Some(value) => Some(outcome(value)),
                None => None,
            },
            details: match self.details {
                Some(value) => Some(results_outcome(value)),
                None => None,
            },
            decoded: match self.decoded {
                Some(value) => Some(outcome(value)),
                None => None,
            },
            simulated: match self.simulated {
                Some(value) => Some(outcome(value)),
                None => None,
            },
        }
    }
}

/// No diagnostic call has been made.
pub open spec fn no_outcomes() -> OutcomesView {
    OutcomesView { identity: None, details: None, decoded: None, simulated: None }
}

/// The outcomes once the reply to a call has been read.
pub open spec fn recorded(outcomes: OutcomesView, asked: FollowUpView, reply: Reply) -> OutcomesView {
    match asked {
        FollowUpView::Identity => OutcomesView {
            identity: Some(identity_outcome(reply)),
            ..outcomes
        },
        FollowUpView::Details => OutcomesView {
            details: Some(details_outcome(reply)),
            ..outcomes
        },
        FollowUpView::Decode => OutcomesView {
            decoded: Some(decoded_outcome(reply)),
            ..outcomes
        },
        FollowUpView::Simulate { action, resource } => OutcomesView {
            simulated: Some(simulation_outcome(reply, action, resource)),
            ..outcomes
        },
    }
}

impl FollowUpOutcomes {
    pub fn new() -> (r: Self)
        ensures
            r@ == no_outcomes(),
    {
        FollowUpOutcomes { identity: None, details: None, decoded: None, simulated: None }
    }

    /// Reads the reply to a call.
    pub fn record(&mut self, asked: &FollowUp, reply: &Reply)
        ensures
            final(self)@ == recorded(old(self)@, asked@, *reply),
    {
        match asked {
            FollowUp::Identity => {
                self.identity = Some(discover_identity(reply));
            },
            FollowUp::Details => {
                self.details = Some(request_authorization_details(reply));
            },
            FollowUp::Decode => {
                self.decoded = Some(decode_authorization_message(reply));
            },
            FollowUp::Simulate { action, resource } => {
                self.simulated = Some(simulate(reply, action.as_str(), resource.as_str()));
            },
        }
    }
}

/// What comes next: a diagnostic call to make, or the diagnosis.
#[derive(Debug)]
pub enum DiagnosisStep {
    Ask(FollowUp, DiagnosticCall),
    Done(Diagnosis),
}

pub enum StepView {
    Ask(FollowUpView, CallView),
    Done(DiagnosisView),
}

impl View for DiagnosisStep {
    type V = StepView;

    open spec fn view(&self) -> StepView {
        match self {
            DiagnosisStep::Ask(asked, call) => StepView::Ask(asked@, call@),
            DiagnosisStep::Done(diagnosis) => StepView::Done(diagnosis@),
        }
    }
}

/// The services whose operations are named as their actions are.
pub open spec fn names_actions_by_operation(service: Seq<char>) -> bool {
    ||| service == "s3"@
    ||| service == "secretsmanager"@
    ||| service == "kms"@
    ||| service == "iam"@
    ||| service == "sts"@
}

/// An error whose action is taken from its operation where it names none.
pub open spec fn with_action(context: ContextView, error: EvidenceView) -> EvidenceView {
    match (error.action, context.service, error.operation) {
        (None, Some(service), Some(operation)) => if names_actions_by_operation(service) {
            EvidenceView {
                service: Some(service),
                action: Some(service + ":"@ + operation),
                ..error
            }
        } else {
            error
        },
        _ => error,
    }
}

/// What the error itself reports.
pub open spec fn reported_result(error: EvidenceView) -> AuthorizationView {
    AuthorizationView {
        action: error.action,
        resource: error.resource,
        decision: decision_in(lower_case(error.message)),
        cause: error.reported_cause,
        policy: error.reported_policy,
        evidence_source: EvidenceSource::AwsError,
        confidence: Confidence::Reported,
        missing_context: Seq::empty(),
    }
}

/// What is left to say where nothing tells the cause.
pub open spec fn unknown_result(error: EvidenceView) -> AuthorizationView {
    AuthorizationView {
        action: error.action,
        resource: error.resource,
        decision: Decision::Unknown,
        cause: Some(DenyCause::Unknown),
        policy: None,
        evidence_source: EvidenceSource::AwsError,
        confidence: Confidence::Incomplete,
        missing_context: Seq::empty(),
    }
}

/// The end, when no evidence was found: the action and the resource are repeated
/// where either is known.
pub open spec fn last_step(error: EvidenceView, notes: Seq<Seq<char>>) -> StepView {
    StepView::Done(
        DiagnosisView {
            authorization: if error.action is Some || error.resource is Some {
                seq![unknown_result(error)]
            } else {
                Seq::empty()
            },
            notes,
        },
    )
}

/// The fourth source: a simulation, of a known identity, action and resource.
pub open spec fn simulation_step(
    context: ContextView,
    error: EvidenceView,
    identity: Option<IdentityView>,
    allow_followups: bool,
    outcomes: OutcomesView,
    notes: Seq<Seq<char>>,
) -> StepView {
    match (identity, error.action, error.resource) {
        (Some(who), Some(action), Some(resource)) => if allow_followups {
            match simulate_call_of(context, who, action, resource) {
                Err(note) => last_step(error, notes.push(note)),
                Ok(call) => match outcomes.simulated {
                    None => StepView::Ask(FollowUpView::Simulate { action, resource }, call),
                    Some(Ok(result)) => StepView::Done(
                        DiagnosisView { authorization: seq![result], notes },
                    ),
                    Some(Err(note)) => last_step(error, notes.push(note)),
                },
            }
        } else {
            last_step(error, notes)
        },
        _ => last_step(error, notes),
    }
}

/// The third source: the cause that the error itself reports.
pub open spec fn reported_step(
    context: ContextView,
    error: EvidenceView,
    identity: Option<IdentityView>,
    allow_followups: bool,
    outcomes: OutcomesView,
    notes: Seq<Seq<char>>,
) -> StepView {
    if error.reported_cause is Some {
        StepView::Done(DiagnosisView { authorization: seq![reported_result(error)], notes })
    } else {
        simulation_step(context, error, identity, allow_followups, outcomes, notes)
    }
}

/// The second source: an encoded authorization message, decoded by AWS.
pub open spec fn decode_step(
    context: ContextView,
    error: EvidenceView,
    identity: Option<IdentityView>,
    allow_followups: bool,
    outcomes: OutcomesView,
    notes: Seq<Seq<char>>,
) -> StepView {
    match error.encoded_authorization_message {
        Some(encoded) => if allow_followups {
            match call_of(context, decode_command(encoded)) {
                Err(note) => reported_step(
                    context,
                    error,
                    identity,
                    allow_followups,
                    outcomes,
                    notes.push(note),
                ),
                Ok(call) => match outcomes.decoded {
                    None => StepView::Ask(FollowUpView::Decode, call),
                    Some(Ok(result)) => StepView::Done(
                        DiagnosisView { authorization: seq![result], notes },
                    ),
                    Some(Err(note)) => reported_step(
                        context,
                        error,
                        identity,
                        allow_followups,
                        outcomes,
                        notes.push(note),
                    ),
                },
            }
        } else {
            reported_step(context, error, identity, allow_followups, outcomes, notes)
        },
        None => reported_step(context, error, identity, allow_followups, outcomes, notes),
    }
}

/// The first source: what AWS says of the authorization of the request.
pub open spec fn details_step(
    context: ContextView,
    error: EvidenceView,
    identity: Option<IdentityView>,
    allow_followups: bool,
    outcomes: OutcomesView,
) -> StepView {
    let none: Seq<Seq<char>> = Seq::empty();
    match error.authorization_id {
        Some(id) => if allow_followups {
            match call_of(context, details_command(id)) {
                Err(note) => decode_step(
                    context,
                    error,
                    identity,
                    allow_followups,
                    outcomes,
                    none.push(note),
                ),
                Ok(call) => match outcomes.details {
                    None => StepView::Ask(FollowUpView::Details, call),
                    Some(Ok(results)) => if results.len() > 0 {
                        StepView::Done(DiagnosisView { authorization: results, notes: none })
                    } else {
                        decode_step(
                            context,
                            error,
                            identity,
                            allow_followups,
                            outcomes,
                            none.push(
                                "AWS authorization details contained no action/resource evaluations."@,
                            ),
                        )
                    },
                    Some(Err(note)) => decode_step(
                        context,
                        error,
                        identity,
                        allow_followups,
                        outcomes,
                        none.push(note),
                    ),
                },
            }
        } else {
            decode_step(context, error, identity, allow_followups, outcomes, none)
        },
        None => decode_step(context, error, identity, allow_followups, outcomes, none),
    }
}

/// What comes next in finding out why a request was denied.
pub open spec fn diagnosis_step(
    context: ContextView,
    error: EvidenceView,
    identity: Option<IdentityView>,
    allow_followups: bool,
    outcomes: OutcomesView,
) -> StepView {
    details_step(context, with_action(context, error), identity, allow_followups, outcomes)
}

/// Takes the action of an error from its operation where it names none.
pub fn fill_action_from_operation(context: &AwsCommandContext, error: &mut AwsErrorEvidence)
    ensures
        final(error)@ == with_action(context@, old(error)@),
{
    if error.action.is_none() {
        if let (Some(service), Some(operation)) = (&context.service, &error.operation) {
            let name = service.as_str();
            if same_text(name, "s3") || same_text(name, "secretsmanager") || same_text(name, "kms")
                || same_text(name, "iam") || same_text(name, "sts") {
                let mut action = service.clone();
                action.append(":");
                action.append(operation.as_str());
                error.service = Some(service.clone());
                error.action = Some(action);
            }
        }
    }
}

fn no_missing_context() -> (r: Vec<String>)
    ensures
        texts(r@) == Seq::<Seq<char>>::empty(),
{
    let none: Vec<String> = Vec::new();
    assert(texts(none@) =~= Seq::<Seq<char>>::empty());
    none
}

fn only(result: AuthorizationResult, notes: Vec<String>) -> (r: DiagnosisStep)
    ensures
        r@ == StepView::Done(
            DiagnosisView { authorization: seq![result@], notes: texts(notes@) },
        ),
{
    let mut authorization: Vec<AuthorizationResult> = Vec::new();
    authorization.push(result);
    assert(views(authorization@) =~= seq![result@]);
    DiagnosisStep::Done(Diagnosis { authorization, notes })
}

fn take_last_step(error: &AwsErrorEvidence, notes: Vec<String>) -> (r: DiagnosisStep)
    ensures
        r@ == last_step(error@, texts(notes@)),
{
    if error.action.is_some() || error.resource.is_some() {
        only(
            AuthorizationResult {
                action: copy_option(&error.action),
                resource: copy_option(&error.resource),
                decision: Decision::Unknown,
                cause: Some(DenyCause::Unknown),
                policy: None,
                evidence_source: EvidenceSource::AwsError,
                confidence: Confidence::Incomplete,
                missing_context: no_missing_context(),
            },
            notes,
        )
    } else {
        let authorization: Vec<AuthorizationResult> = Vec::new();
        assert(views(authorization@) =~= Seq::<AuthorizationView>::empty());
        DiagnosisStep::Done(Diagnosis { authorization, notes })
    }
}

fn take_simulation_step(
    context: &AwsCommandContext,
    error: &AwsErrorEvidence,
    identity: Option<&AwsIdentity>,
    allow_followups: bool,
    outcomes: &FollowUpOutcomes,
    notes: Vec<String>,
) -> (r: DiagnosisStep)
    ensures
        r@ == simulation_step(
            context@,
            error@,
            opt_identity(identity),
            allow_followups,
            outcomes@,
            texts(notes@),
        ),
{
    broadcast use lemma_texts_push;

    let mut notes = notes;
    if !allow_followups {
        return take_last_step(error, notes);
    }
    if let (Some(who), Some(action), Some(resource)) = (identity, &error.action, &error.resource) {
        match simulate_call(context, who, action.as_str(), resource.as_str()) {
            Err(note) => {
                notes.push(note);
            },
            Ok(call) => match &outcomes.simulated {
                None => {
                    return DiagnosisStep::Ask(
                        FollowUp::Simulate { action: action.clone(), resource: resource.clone() },
                        call,
                    );
                },
                Some(Ok(result)) => {
                    return only(result.clone(), notes);
                },
                Some(Err(note)) => {
                    notes.push(note.clone());
                },
            },
        }
    }
    take_last_step(error, notes)
}

fn take_reported_step(
    context: &AwsCommandContext,
    error: &AwsErrorEvidence,
    identity: Option<&AwsIdentity>,
    allow_followups: bool,
    outcomes: &FollowUpOutcomes,
    notes: Vec<String>,
) -> (r: DiagnosisStep)
    ensures
        r@ == reported_step(
            context@,
            error@,
            opt_identity(identity),
            allow_followups,
            outcomes@,
            texts(notes@),
        ),
{
    if error.reported_cause.is_some() {
        only(
            AuthorizationResult {
                action: copy_option(&error.action),
                resource: copy_option(&error.resource),
                decision: decision_from_message(error.message.as_str()),
                cause: error.reported_cause,
                policy: copy_option(&error.reported_policy),
                evidence_source: EvidenceSource::AwsError,
                confidence: Confidence::Reported,
                missing_context: no_missing_context(),
            },
            notes,
        )
    } else {
        take_simulation_step(context, error, identity, allow_followups, outcomes, notes)
    }
}

fn take_decode_step(
    context: &AwsCommandContext,
    error: &AwsErrorEvidence,
    identity: Option<&AwsIdentity>,
    allow_followups: bool,
    outcomes: &FollowUpOutcomes,
    notes: Vec<String>,
) -> (r: DiagnosisStep)
    ensures
        r@ == decode_step(
            context@,
            error@,
            opt_identity(identity),
            allow_followups,
            outcomes@,
            texts(notes@),
        ),
{
    broadcast use lemma_texts_push;

    let mut notes = notes;
    if allow_followups {
        if let Some(encoded) = &error.encoded_authorization_message {
            match decode_call(context, encoded.as_str()) {
                Err(note) => {
                    notes.push(note);
                },
                Ok(call) => match &outcomes.decoded {
                    None => {
                        return DiagnosisStep::Ask(FollowUp::Decode, call);
                    },
                    Some(Ok(result)) => {
                        return only(result.clone(), notes);
                    },
                    Some(Err(note)) => {
                        notes.push(note.clone());
                    },
                },
            }
        }
    }
    take_reported_step(context, error, identity, allow_followups, outcomes, notes)
}

/// The view of an identity that may be there.
pub open spec fn opt_identity(identity: Option<&AwsIdentity>) -> Option<IdentityView> {
    match identity {
        Some(who) => Some(who@),
        None => None,
    }
}

/// A copy of a list of results.
pub fn copy_results(results: &Vec<AuthorizationResult>) -> (r: Vec<AuthorizationResult>)
    ensures
        views(r@) == views(results@),
{
    let mut out: Vec<AuthorizationResult> = Vec::new();
    let mut i: usize = 0;
    while i < results.len()
        invariant
            i <= results@.len(),
            views(out@) =~= views(results@).take(i as int),
        decreases results.len() - i,
    {
        broadcast use lemma_views_push;

        out.push(results[i].clone());
        i += 1;
    }
    out
}

/// What comes next in finding out why a request was denied: the diagnostic call
/// to make, or the diagnosis. The sources of evidence are tried in the order of
/// their strength, and the first that is of use ends the search. `outcomes` holds
/// what the calls that were asked for so far came to.
pub fn diagnose_authorization(
    context: &AwsCommandContext,
    error: &mut AwsErrorEvidence,
    identity: Option<&AwsIdentity>,
    allow_followups: bool,
    outcomes: &FollowUpOutcomes,
) -> (r: DiagnosisStep)
    ensures
        final(error)@ == with_action(context@, old(error)@),
        r@ == diagnosis_step(
            context@,
            old(error)@,
            opt_identity(identity),
            allow_followups,
            outcomes@,
        ),
{
    broadcast use lemma_texts_push;

    fill_action_from_operation(context, error);
    let mut notes: Vec<String> = Vec::new();
    assert(texts(notes@) =~= Seq::<Seq<char>>::empty());
    if allow_followups {
        if let Some(authorization_id) = &error.authorization_id {
            match details_call(context, authorization_id.as_str()) {
                Err(note) => {
                    notes.push(note);
                },
                Ok(call) => match &outcomes.details {
                    None => {
                        return DiagnosisStep::Ask(FollowUp::Details, call);
                    },
                    Some(Ok(results)) => {
                        if results.len() > 0 {
                            return DiagnosisStep::Done(
                                Diagnosis { authorization: copy_results(results), notes },
                            );
                        }
                        notes.push(
                            "AWS authorization details contained no action/resource evaluations.".to_owned(),
                        );
                    },
                    Some(Err(note)) => {
                        notes.push(note.clone());
                    },
                },
            }
        }
    }
    take_decode_step(context, error, identity, allow_followups, outcomes, notes)
}

/// Without leave to make calls none is asked for, and neither is one where the
/// command was none of the AWS CLI.
pub proof fn law_no_calls_without_leave(
    context: ContextView,
    error: EvidenceView,
    identity: Option<IdentityView>,
    allow_followups: bool,
    outcomes: OutcomesView,
)
    requires
        !allow_followups || context.executable is None,
    ensures
        diagnosis_step(context, error, identity, allow_followups, outcomes) is Done,
{
}

/// The authorization of the request can be had from AWS.
pub open spec fn has_details(context: ContextView, error: EvidenceView, outcomes: OutcomesView) -> bool {
    &&& context.executable is Some
    &&& error.authorization_id is Some
    &&& outcomes.details matches Some(Ok(results)) && results.len() > 0
}

/// An encoded authorization message was decoded.
pub open spec fn has_decoded(context: ContextView, error: EvidenceView, outcomes: OutcomesView) -> bool {
    &&& context.executable is Some
    &&& error.encoded_authorization_message is Some
    &&& outcomes.decoded matches Some(Ok(_))
}

/// The request was simulated.
pub open spec fn has_simulation(
    context: ContextView,
    error: EvidenceView,
    identity: Option<IdentityView>,
    outcomes: OutcomesView,
) -> bool {
    &&& context.executable is Some
    &&& identity matches Some(who) && who.policy_source_arn() is Some
    &&& error.action is Some
    &&& error.resource is Some
    &&& outcomes.simulated matches Some(Ok(_))
}

/// The search stops at the first useful source: what AWS says of the
/// authorization of the request, then an encoded message that AWS decoded, then
/// the cause that the error names, then a simulation; where none is of use, the
/// cause is unknown.
pub proof fn law_first_useful_source_is_taken(
    context: ContextView,
    error: EvidenceView,
    identity: Option<IdentityView>,
    outcomes: OutcomesView,
    diagnosis: DiagnosisView,
)
    requires
        diagnosis_step(context, error, identity, true, outcomes) == StepView::Done(diagnosis),
    ensures
        ({
            let full = with_action(context, error);
            if has_details(context, full, outcomes) {
                diagnosis.authorization == outcomes.details->0->Ok_0
            } else if has_decoded(context, full, outcomes) {
                diagnosis.authorization == seq![outcomes.decoded->0->Ok_0]
            } else if full.reported_cause is Some {
                diagnosis.authorization == seq![reported_result(full)]
            } else if has_simulation(context, full, identity, outcomes) {
                diagnosis.authorization == seq![outcomes.simulated->0->Ok_0]
            } else if full.action is Some || full.resource is Some {
                diagnosis.authorization == seq![unknown_result(full)]
            } else {
                diagnosis.authorization.len() == 0
            }
        }),
{
}

/// A call has been answered.
pub open spec fn answered(outcomes: OutcomesView, asked: FollowUpView) -> bool {
    match asked {
        FollowUpView::Identity => outcomes.identity is Some,
        FollowUpView::Details => outcomes.details is Some,
        FollowUpView::Decode => outcomes.decoded is Some,
        FollowUpView::Simulate { .. } => outcomes.simulated is Some,
    }
}

/// No call is asked for that has been answered, and an answer once read stays: so
/// each call is made at most once.
pub proof fn law_each_call_is_made_once(
    context: ContextView,
    error: EvidenceView,
    identity: Option<IdentityView>,
    allow_followups: bool,
    outcomes: OutcomesView,
    other: FollowUpView,
    reply: Reply,
)
    ensures
        diagnosis_step(context, error, identity, allow_followups, outcomes) matches StepView::Ask(
            asked,
            _,
        ) ==> {
            &&& !answered(outcomes, asked)
            &&& answered(recorded(outcomes, asked, reply), asked)
            &&& answered(outcomes, other) ==> answered(recorded(outcomes, asked, reply), other)
        },
{
}

/// The confidence of a result is that of its source. What AWS says of the live
/// request is verified; what the error says is reported where it names the cause,
/// and incomplete otherwise; a simulation is simulated, never verified.
pub open spec fn tells_its_evidence(result: AuthorizationView) -> bool {
    match result.evidence_source {
        EvidenceSource::RequestAuthorizationDetails => result.confidence == Confidence::Verified,
        EvidenceSource::DecodedAuthorizationMessage => result.confidence == Confidence::Verified,
        EvidenceSource::AwsError => {
            ||| result.confidence == Confidence::Reported && result.cause is Some
            ||| result.confidence == Confidence::Incomplete && result.cause == Some(
                DenyCause::Unknown,
            )
        },
        EvidenceSource::PolicySimulation => result.confidence == Confidence::Simulated,
        EvidenceSource::NoEvidence => false,
    }
}

/// Every result of a list tells its evidence, which is of one source.
pub open spec fn all_from(results: Seq<AuthorizationView>, source: EvidenceSource) -> bool {
    forall|i: int|
        0 <= i < results.len() ==> (#[trigger] results[i]).evidence_source == source
            && tells_its_evidence(results[i])
}

/// What was read is told as what it is.
pub open spec fn outcomes_tell_their_evidence(outcomes: OutcomesView) -> bool {
    &&& outcomes.details matches Some(Ok(results)) ==> all_from(
        results,
        EvidenceSource::RequestAuthorizationDetails,
    )
    &&& outcomes.decoded matches Some(Ok(result)) ==> all_from(
        seq![result],
        EvidenceSource::DecodedAuthorizationMessage,
    )
    &&& outcomes.simulated matches Some(Ok(result)) ==> all_from(
        seq![result],
        EvidenceSource::PolicySimulation,
    )
}

/// What is read of the replies is told as what it is.
pub proof fn law_replies_are_told_as_what_they_are(
    outcomes: OutcomesView,
    asked: FollowUpView,
    reply: Reply,
)
    ensures
        outcomes_tell_their_evidence(no_outcomes()),
        outcomes_tell_their_evidence(outcomes) ==> outcomes_tell_their_evidence(
            recorded(outcomes, asked, reply),
        ),
{
}

/// Every result of a diagnosis has the confidence of its source. In particular a
/// simulation is never presented as verified.
pub proof fn law_results_tell_their_evidence(
    context: ContextView,
    error: EvidenceView,
    identity: Option<IdentityView>,
    allow_followups: bool,
    outcomes: OutcomesView,
    diagnosis: DiagnosisView,
    i: int,
)
    requires
        outcomes_tell_their_evidence(outcomes),
        diagnosis_step(context, error, identity, allow_followups, outcomes) == StepView::Done(
            diagnosis,
        ),
        0 <= i < diagnosis.authorization.len(),
    ensures
        tells_its_evidence(diagnosis.authorization[i]),
{
    if let Some(Ok(result)) = outcomes.decoded {
        assert(tells_its_evidence(seq![result][0]));
    }
    if let Some(Ok(result)) = outcomes.simulated {
        assert(tells_its_evidence(seq![result][0]));
    }
}

/// The calls that may be made, to the letter: each only reads, and asks for JSON.
pub proof fn law_calls_are_these(
    id: Seq<char>,
    encoded: Seq<char>,
    source: Seq<char>,
    action: Seq<char>,
    resource: Seq<char>,
)
    ensures
        identity_command() == seq!["sts"@, "get-caller-identity"@, "--output"@, "json"@],
        details_command(id) == seq![
            "iam-toolbox"@,
            "get-request-authorization-details"@,
            "--authorization-id"@,
            id,
            "--output"@,
            "json"@,
        ],
        decode_command(encoded) == seq![
            "sts"@,
            "decode-authorization-message"@,
            "--encoded-message"@,
            encoded,
            "--output"@,
            "json"@,
        ],
        simulate_command(source, action, resource) == seq![
            "iam"@,
            "simulate-principal-policy"@,
            "--policy-source-arn"@,
            source,
            "--action-names"@,
            action,
            "--resource-arns"@,
            resource,
            "--output"@,
            "json"@,
        ],
{
}

/// A call runs the executable of the command with the profile and the region of the
/// command, and there is none without an executable.
pub proof fn law_calls_run_the_executable(context: ContextView, command: Seq<Seq<char>>)
    ensures
        context.executable matches Some(executable) ==> call_of(context, command) == Ok::<
            CallView,
            Seq<char>,
        >(CallView { executable, args: context.args_for(command) }),
        context.executable is None ==> call_of(context, command) is Err,
{
}

/// What a call gave back can be read: it was made, nothing of it was dropped, it
/// succeeded and wrote a JSON document.
pub open spec fn can_be_read(reply: Reply) -> bool {
    reply matches Ok(output) && !output.truncated && output.success && json_value(output.stdout@)
        is Some
}

/// A reply counts only where it can be read, whichever call it answers; else why it
/// cannot is told.
pub proof fn law_unreadable_replies_do_not_count(
    reply: Reply,
    action: Seq<char>,
    resource: Seq<char>,
)
    ensures
        identity_outcome(reply) is Ok ==> can_be_read(reply),
        details_outcome(reply) is Ok <==> can_be_read(reply),
        decoded_outcome(reply) is Ok ==> can_be_read(reply),
        simulation_outcome(reply, action, resource) is Ok ==> can_be_read(reply),
        can_be_read(reply) ==> {
            let document = json_value(reply->Ok_0.stdout@).unwrap();
            &&& details_outcome(reply) == Ok::<Seq<AuthorizationView>, Seq<char>>(
                verified_results(document),
            )
            &&& identity_outcome(reply) == identity_in(document)
            &&& decoded_outcome(reply) == decoded_in(document)
            &&& match single_simulation(document, action, resource) {
                Some(result) => simulation_outcome(reply, action, resource) == Ok::<
                    AuthorizationView,
                    Seq<char>,
                >(result),
                None => simulation_outcome(reply, action, resource) is Err,
            }
        },
        reply matches Err(error) ==> {
            &&& identity_outcome(reply) == Err::<IdentityView, Seq<char>>(
                "Could not determine the caller identity: "@ + error@,
            )
            &&& details_outcome(reply) == Err::<Seq<AuthorizationView>, Seq<char>>(
                "Could not retrieve AWS authorization details: "@ + error@,
            )
            &&& decoded_outcome(reply) == Err::<AuthorizationView, Seq<char>>(
                "Could not decode the AWS authorization message: "@ + error@,
            )
            &&& simulation_outcome(reply, action, resource) == Err::<AuthorizationView, Seq<char>>(
                "Could not run IAM policy simulation: "@ + error@,
            )
        },
        reply matches Ok(output) && output.truncated ==> {
            &&& identity_outcome(reply) == Err::<IdentityView, Seq<char>>(
                "AWS caller identity output exceeded the diagnostic limit."@,
            )
            &&& details_outcome(reply) == Err::<Seq<AuthorizationView>, Seq<char>>(
                "AWS authorization details exceeded the diagnostic limit."@,
            )
            &&& decoded_outcome(reply) == Err::<AuthorizationView, Seq<char>>(
                "Decoded AWS authorization details exceeded the diagnostic limit."@,
            )
            &&& simulation_outcome(reply, action, resource) == Err::<AuthorizationView, Seq<char>>(
                "IAM policy simulation output exceeded the diagnostic limit."@,
            )
        },
        reply matches Ok(output) && !output.truncated && !output.success ==> {
            &&& identity_outcome(reply) == Err::<IdentityView, Seq<char>>(
                "Could not determine the caller identity with the command's AWS credentials."@,
            )
            &&& details_outcome(reply) == Err::<Seq<AuthorizationView>, Seq<char>>(
                "AWS request authorization details were unavailable or not permitted."@,
            )
            &&& decoded_outcome(reply) == Err::<AuthorizationView, Seq<char>>(
                "The encoded AWS authorization message could not be decoded; sts:DecodeAuthorizationMessage might be missing."@,
            )
            &&& simulation_outcome(reply, action, resource) == Err::<AuthorizationView, Seq<char>>(
                "IAM policy simulation was unavailable or not permitted."@,
            )
        },
{
}

/// The caller is who the ARN in the reply names, and the decoded message is the JSON
/// text in the reply; a reply without them tells nothing.
pub proof fn law_replies_name_the_caller_and_the_message(document: Json)
    ensures
        match find_text(document, seq!["Arn"@, "arn"@]) {
            Some(arn) => match identity_of_arn(arn) {
                Some(who) => identity_in(document) == Ok::<IdentityView, Seq<char>>(who),
                None => identity_in(document) is Err,
            },
            None => identity_in(document) is Err,
        },
        match find_text(document, seq!["DecodedMessage"@, "decodedMessage"@]) {
            Some(message) => match json_value(encode_utf8(message)) {
                Some(value) => decoded_in(document) == Ok::<AuthorizationView, Seq<char>>(
                    decoded_result(value),
                ),
                None => decoded_in(document) is Err,
            },
            None => decoded_in(document) is Err,
        },
{
}

/// The reply to a call is read as the answer to that call, and the other answers stay.
pub proof fn law_replies_answer_their_calls(
    outcomes: OutcomesView,
    reply: Reply,
    action: Seq<char>,
    resource: Seq<char>,
)
    ensures
        recorded(outcomes, FollowUpView::Identity, reply) == (OutcomesView {
            identity: Some(identity_outcome(reply)),
            details: outcomes.details,
            decoded: outcomes.decoded,
            simulated: outcomes.simulated,
        }),
        recorded(outcomes, FollowUpView::Details, reply) == (OutcomesView {
            identity: outcomes.identity,
            details: Some(details_outcome(reply)),
            decoded: outcomes.decoded,
            simulated: outcomes.simulated,
        }),
        recorded(outcomes, FollowUpView::Decode, reply) == (OutcomesView {
            identity: outcomes.identity,
            details: outcomes.details,
            decoded: Some(decoded_outcome(reply)),
            simulated: outcomes.simulated,
        }),
        recorded(outcomes, FollowUpView::Simulate { action, resource }, reply) == (OutcomesView {
            identity: outcomes.identity,
            details: outcomes.details,
            decoded: outcomes.decoded,
            simulated: Some(simulation_outcome(reply, action, resource)),
        }),
{
}

/// The action that an error names is kept. Where it names none, the action is the
/// operation of the command's service, for the services that name them alike; all else
/// that the error says stays.
pub proof fn law_actions_are_taken_from_operations(context: ContextView, error: EvidenceView)
    ensures
        ({
            let full = with_action(context, error);
            let named = context.service == Some("s3"@) || context.service == Some(
                "secretsmanager"@,
            ) || context.service == Some("kms"@) || context.service == Some("iam"@)
                || context.service == Some("sts"@);
            &&& error.action is Some ==> full == error
            &&& !named || error.operation is None ==> full == error
            &&& error.action is None && named ==> (error.operation matches Some(operation)
                ==> full.action == Some(context.service.unwrap() + ":"@ + operation) && full.service
                == context.service)
            &&& full.operation == error.operation && full.error_code == error.error_code
                && full.message == error.message && full.request_id == error.request_id
                && full.authorization_id == error.authorization_id
                && full.encoded_authorization_message == error.encoded_authorization_message
                && full.resource == error.resource && full.principal_arn == error.principal_arn
                && full.reported_cause == error.reported_cause && full.reported_policy
                == error.reported_policy && full.failure_kind == error.failure_kind
                && full.raw_error == error.raw_error
        }),
{
}

/// What an error reports is told with its own action, resource, cause and policy, and
/// its message tells the decision; where nothing tells the cause, neither is made up.
pub proof fn law_errors_are_told_as_they_report(error: EvidenceView)
    ensures
        reported_result(error).action == error.action,
        reported_result(error).resource == error.resource,
        reported_result(error).cause == error.reported_cause,
        reported_result(error).policy == error.reported_policy,
        reported_result(error).decision == decision_in(lower_case(error.message)),
        reported_result(error).evidence_source == EvidenceSource::AwsError,
        reported_result(error).confidence == Confidence::Reported,
        reported_result(error).missing_context.len() == 0,
        unknown_result(error).action == error.action,
        unknown_result(error).resource == error.resource,
        unknown_result(error).cause == Some(DenyCause::Unknown),
        unknown_result(error).decision == Decision::Unknown,
        unknown_result(error).policy is None,
        unknown_result(error).evidence_source == EvidenceSource::AwsError,
        unknown_result(error).confidence == Confidence::Incomplete,
        unknown_result(error).missing_context.len() == 0,
{
}

/// The questions are asked in the order of what their answers are worth. What AWS says
/// of the authorization is asked for first, where the error has an identifier for it;
/// then an encoded message is decoded, where nothing better was had; and a simulation is
/// made last, where the error reports no cause and it is known who did what to what.
pub proof fn law_questions_are_asked_in_order(
    context: ContextView,
    error: EvidenceView,
    identity: Option<IdentityView>,
    outcomes: OutcomesView,
)
    requires
        context.executable is Some,
    ensures
        ({
            let full = with_action(context, error);
            let step = diagnosis_step(context, error, identity, true, outcomes);
            let executable = context.executable.unwrap();
            let useful = full.authorization_id is Some && (outcomes.details matches Some(
                Ok(results),
            ) && results.len() > 0);
            let wait_details = full.authorization_id is Some && outcomes.details is None;
            let decoded = full.encoded_authorization_message is Some && (outcomes.decoded matches
                Some(Ok(_)));
            let wait_decoded = full.encoded_authorization_message is Some && outcomes.decoded
                is None;
            &&& wait_details ==> step == StepView::Ask(
                FollowUpView::Details,
                CallView {
                    executable,
                    args: context.args_for(details_command(full.authorization_id.unwrap())),
                },
            )
            &&& !wait_details && !useful && wait_decoded ==> step == StepView::Ask(
                FollowUpView::Decode,
                CallView {
                    executable,
                    args: context.args_for(
                        decode_command(full.encoded_authorization_message.unwrap()),
                    ),
                },
            )
            &&& !wait_details && !useful && !wait_decoded && !decoded && full.reported_cause is None
                && outcomes.simulated is None ==> match (identity, full.action, full.resource) {
                (Some(who), Some(action), Some(resource)) => match who.policy_source_arn() {
                    Some(source) => step == StepView::Ask(
                        FollowUpView::Simulate { action, resource },
                        CallView {
                            executable,
                            args: context.args_for(simulate_command(source, action, resource)),
                        },
                    ),
                    None => step is Done,
                },
                _ => step is Done,
            }
            &&& step matches StepView::Ask(FollowUpView::Details, _) ==> wait_details
            &&& step matches StepView::Ask(FollowUpView::Decode, _) ==> !wait_details && !useful
                && wait_decoded
            &&& step matches StepView::Ask(FollowUpView::Simulate { action, resource }, _)
                ==> !wait_details && !useful && !wait_decoded && !decoded && full.reported_cause
                is None && full.action == Some(action) && full.resource == Some(resource)
                && outcomes.simulated is None
            &&& !(step matches StepView::Ask(FollowUpView::Identity, _))
        }),
{
}

/// Where a source was tried and told nothing, why is noted, in the order in which the
/// sources were tried; what follows a useful one is not noted.
pub proof fn law_notes_tell_what_was_tried(
    context: ContextView,
    error: EvidenceView,
    identity: Option<IdentityView>,
    outcomes: OutcomesView,
    diagnosis: DiagnosisView,
)
    requires
        context.executable is Some,
        diagnosis_step(context, error, identity, true, outcomes) == StepView::Done(diagnosis),
    ensures
        ({
            let full = with_action(context, error);
            let first: Seq<Seq<char>> = match (full.authorization_id, outcomes.details) {
                (Some(_), Some(Err(note))) => seq![note],
                (Some(_), Some(Ok(results))) => if results.len() == 0 {
                    seq![
                        "AWS authorization details contained no action/resource evaluations."@,
                    ]
                } else {
                    Seq::empty()
                },
                _ => Seq::empty(),
            };
            let second: Seq<Seq<char>> = match (
                full.encoded_authorization_message,
                outcomes.decoded,
            ) {
                (Some(_), Some(Err(note))) => seq![note],
                _ => Seq::empty(),
            };
            let third: Seq<Seq<char>> = match (identity, full.action, full.resource) {
                (Some(who), Some(_), Some(_)) => if who.policy_source_arn() is None {
                    seq!["IAM simulation does not support this principal type."@]
                } else {
                    match outcomes.simulated {
                        Some(Err(note)) => seq![note],
                        _ => Seq::empty(),
                    }
                },
                _ => Seq::empty(),
            };
            diagnosis.notes == if has_details(context, full, outcomes) {
                Seq::empty()
            } else if has_decoded(context, full, outcomes) {
                first
            } else if full.reported_cause is Some {
                first + second
            } else {
                first + second + third
            }
        }),
{
    let none: Seq<Seq<char>> = Seq::empty();
    let full = with_action(context, error);
    assert forall|list: Seq<Seq<char>>, note: Seq<char>| #[trigger] list.push(note) == list + seq![
        note,
    ] by {
        assert(list.push(note) =~= list + seq![note]);
    }
    assert forall|list: Seq<Seq<char>>| #[trigger] (list + none) == list by {
        assert(list + none =~= list);
    }
    assert forall|list: Seq<Seq<char>>| #[trigger] (none + list) == list by {
        assert(none + list =~= list);
    }
}

} // verus!
