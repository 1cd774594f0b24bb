//! Finds out why a command failed.
use vstd::prelude::*;

use crate::context::{
    context_of, law_only_direct_commands_are_recognized, names_cli, no_context, AwsCommandContext,
    ContextView,
};
use crate::diagnosis::{
    answered, call_of, diagnose_authorization, diagnosis_step, identity_call, identity_command,
    law_no_calls_without_leave, no_outcomes, opt_identity, recorded, with_action, DiagnosisStep,
    FollowUp, FollowUpOutcomes, FollowUpView, OutcomesView, StepView,
};
use crate::errors::{evidence_of, parse_aws_error};
use crate::model::{
    analysis_report, identity_of_arn, law_reports_are_clean, opt_view, remediations,
    report_is_clean, sanitized_identity, sanitized_results, validated_remediation, validated_report,
    views, AnalysisReport, AuthorizationResult, AuthorizationView, AwsErrorEvidence, AwsIdentity,
    Confidence, DenyCause, EvidenceSource, EvidenceView, FailureKind, IdentityView,
    PolicyValidation, PolicyValidationStatus, Remediation, RemediationView, ReportView,
    ValidationView,
};
use crate::outside::{ends_path, is_file_name, is_portable_path, last_component};
use crate::permissions::{
    validation_step, ReferenceView, ResourceValidator, ValidationStep, ValidationStepView,
};
use crate::redaction::sanitized;
use crate::runner::{CallView, CommandRun, DiagnosticCall, Reply};
use crate::text::{
    all_digits, is_ascii_digit, lemma_split_first_of, lemma_texts_push, opt_str, opt_text, pieces,
    same_text, split_pieces, text_pairs, texts,
};

verus! {

/// What is noted where the start of the error stream was dropped.
pub const STDERR_TRUNCATED: &'static str =
    "Only the final 1 MiB of command stderr was analyzed; earlier output was truncated.";

/// What is said of a candidate policy that the reference says nothing of.
pub const UNVERIFIED_DETAIL: &'static str =
    "AWS Service Authorization Reference was unavailable; the candidate resource scope was not verified.";

/// What comes next in the analysis of a failed command: a diagnostic call to make,
/// or the report.
#[derive(Debug)]
pub enum AnalysisStep {
    Ask(FollowUp, DiagnosticCall),
    Done(AnalysisReport),
}

pub enum AnalysisStepView {
    Ask(FollowUpView, CallView),
    Done(ReportView),
}

impl View for AnalysisStep {
    type V = AnalysisStepView;

    open spec fn view(&self) -> AnalysisStepView {
        match self {
            AnalysisStep::Ask(asked, call) => AnalysisStepView::Ask(asked@, call@),
            AnalysisStep::Done(report) => AnalysisStepView::Done(report@),
        }
    }
}

/// The account that a resource belongs to, where its ARN names one.
pub open spec fn account_of(resource: Seq<char>) -> Option<Seq<char>> {
    let parts = pieces(resource, ':', 6);
    if parts.len() > 4 && parts[4].len() == 12 && forall|i: int|
        0 <= i < parts[4].len() ==> is_ascii_digit(#[trigger] parts[4][i]) {
        Some(parts[4])
    } else {
        None
    }
}

/// What is noted where the caller's account is not the resource's.
pub open spec fn mismatch_notes(
    identity: Option<IdentityView>,
    resource: Option<Seq<char>>,
) -> Seq<Seq<char>> {
    match (identity, resource) {
        (Some(who), Some(name)) => match account_of(name) {
            Some(account) => if account != who.account_id {
                seq![
                    "Caller account "@ + who.account_id + " differs from target resource account "@
                        + account
                        + "; check the selected profile or cross-account access."@,
                ]
            } else {
                Seq::empty()
            },
            None => Seq::empty(),
        },
        _ => Seq::empty(),
    }
}

/// Notes that the caller's account is not the resource's, where it is not.
fn add_account_mismatch_note(
    notes: &mut Vec<String>,
    identity: Option<&AwsIdentity>,
    resource: &Option<String>,
)
    ensures
        texts(final(notes)@) == texts(old(notes)@) + mismatch_notes(
            opt_identity(identity),
            opt_text(*resource),
        ),
{
    broadcast use lemma_texts_push;

    let ghost before = texts(notes@);
    assert(before + Seq::<Seq<char>>::empty() =~= before);
    if let (Some(who), Some(name)) = (identity, resource) {
        let parts = split_pieces(name.as_str(), ':', 6);
        assert(texts(parts@) == pieces(name@, ':', 6));
        if parts.len() > 4 {
            let target = parts[4].as_str();
            assert(target@ == texts(parts@)[4]);
            if target.unicode_len() == 12 && all_digits(target) && !same_text(
                target,
                who.account_id.as_str(),
            ) {
                let mut note = "Caller account ".to_owned();
                note.append(who.account_id.as_str());
                note.append(" differs from target resource account ");
                note.append(target);
                note.append("; check the selected profile or cross-account access.");
                let ghost text = note@;
                notes.push(note);
                assert(before.push(text) =~= before + seq![text]);
            }
        }
    }
}

/// The kind of a failure; without evidence it is of no known kind.
pub open spec fn failure_kind(evidence: Option<EvidenceView>) -> FailureKind {
    match evidence {
        Some(item) => item.failure_kind,
        None => FailureKind::Other,
    }
}

/// The principal that an error names.
pub open spec fn named_identity(evidence: Option<EvidenceView>) -> Option<IdentityView> {
    match evidence {
        Some(item) => match item.principal_arn {
            Some(arn) => identity_of_arn(arn),
            None => None,
        },
        None => None,
    }
}

fn find_named_identity(evidence: &Option<AwsErrorEvidence>) -> (r: Option<AwsIdentity>)
    ensures
        opt_view(r) == named_identity(opt_view(*evidence)),
{
    match evidence {
        Some(item) => match &item.principal_arn {
            Some(arn) => AwsIdentity::from_arn(arn.as_str()),
            None => None,
        },
        None => None,
    }
}

/// What is known of a command that has ended, and where its credentials came from.
pub struct EndedView {
    pub exit_code: i32,
    pub stderr_truncated: bool,
    pub credential_source: Seq<char>,
}

/// What comes next once it is settled who made a request that was denied.
pub open spec fn denial_step(
    ended: EndedView,
    evidence: EvidenceView,
    context: ContextView,
    identity: Option<IdentityView>,
    outcomes: OutcomesView,
    notes: Seq<Seq<char>>,
) -> AnalysisStepView {
    let allowed = context.block_reason() is None;
    match diagnosis_step(context, evidence, identity, allowed, outcomes) {
        StepView::Ask(asked, call) => AnalysisStepView::Ask(asked, call),
        StepView::Done(diagnosis) => {
            let full = with_action(context, evidence);
            let report = analysis_report(
                ended.exit_code,
                FailureKind::Authorization,
                identity,
                Some(full),
                diagnosis.authorization,
                notes + diagnosis.notes + mismatch_notes(identity, full.resource),
                Some(ended.credential_source),
            );
            AnalysisStepView::Done(
                if allowed {
                    report
                } else {
                    ReportView { remediation: Seq::empty(), ..report }
                },
            )
        },
    }
}

/// What is noted from the start.
pub open spec fn first_notes(ended: EndedView) -> Seq<Seq<char>> {
    if ended.stderr_truncated {
        seq![STDERR_TRUNCATED@]
    } else {
        Seq::empty()
    }
}

/// What comes next in the analysis of a failed command. Diagnostic calls are made
/// for denials alone, and only where the command was one of the AWS CLI and may
/// be followed up.
pub open spec fn analysis_step(
    ended: EndedView,
    evidence: Option<EvidenceView>,
    context: ContextView,
    outcomes: OutcomesView,
) -> AnalysisStepView {
    let named = named_identity(evidence);
    let notes = first_notes(ended);
    if evidence is Some && failure_kind(evidence) == FailureKind::Authorization
        && context.executable is Some {
        let item = evidence.unwrap();
        match context.block_reason() {
            Some(reason) => denial_step(ended, item, context, named, outcomes, notes.push(reason)),
            None => match outcomes.identity {
                None => AnalysisStepView::Ask(
                    FollowUpView::Identity,
                    call_of(context, identity_command())->Ok_0,
                ),
                Some(Ok(who)) => denial_step(ended, item, context, Some(who), outcomes, notes),
                Some(Err(note)) => denial_step(
                    ended,
                    item,
                    context,
                    named,
                    outcomes,
                    notes.push(note),
                ),
            },
        }
    } else {
        AnalysisStepView::Done(
            analysis_report(
                ended.exit_code,
                failure_kind(evidence),
                named,
                evidence,
                Seq::empty(),
                notes,
                Some(ended.credential_source),
            ),
        )
    }
}

/// A command that has ended.
pub open spec fn ended(
    exit_code: i32,
    stderr_truncated: bool,
    context: ContextView,
    aws_profile: Option<Seq<char>>,
) -> EndedView {
    EndedView {
        exit_code,
        stderr_truncated,
        credential_source: context.credential_hint(aws_profile),
    }
}

fn take_denial_step(
    exit_code: i32,
    stderr_truncated: bool,
    evidence: AwsErrorEvidence,
    context: &AwsCommandContext,
    identity: Option<AwsIdentity>,
    outcomes: &FollowUpOutcomes,
    notes: Vec<String>,
    aws_profile: Option<&str>,
) -> (r: AnalysisStep)
    requires
        evidence.failure_kind == FailureKind::Authorization,
    ensures
        r@ == denial_step(
            ended(exit_code, stderr_truncated, context@, opt_str(aws_profile)),
            evidence@,
            context@,
            opt_view(identity),
            outcomes@,
            texts(notes@),
        ),
{
    let mut evidence = evidence;
    let mut notes = notes;
    let ghost start = texts(notes@);
    let allowed = context.diagnostic_block_reason().is_none();
    match diagnose_authorization(context, &mut evidence, identity.as_ref(), allowed, outcomes) {
        DiagnosisStep::Ask(asked, call) => AnalysisStep::Ask(asked, call),
        DiagnosisStep::Done(diagnosis) => {
            let ghost added = texts(diagnosis.notes@);
            let mut i: usize = 0;
            while i < diagnosis.notes.len()
                invariant
                    i <= diagnosis.notes@.len(),
                    added == texts(diagnosis.notes@),
                    texts(notes@) =~= start + added.take(i as int),
                decreases diagnosis.notes.len() - i,
            {
                broadcast use lemma_texts_push;

                notes.push(diagnosis.notes[i].clone());
                i += 1;
            }
            assert(texts(notes@) =~= start + added);
            add_account_mismatch_note(&mut notes, identity.as_ref(), &evidence.resource);
            let mut report = AnalysisReport::from_parts(
                exit_code,
                FailureKind::Authorization,
                identity,
                Some(evidence),
                diagnosis.authorization,
                notes,
                context.credential_hint(aws_profile),
            );
            if !allowed {
                report.remediation = Vec::new();
                assert(views(report.remediation@) =~= Seq::<RemediationView>::empty());
            }
            AnalysisStep::Done(report)
        },
    }
}

/// What comes next in the analysis of a failed command, given what its error
/// stream says and what its arguments say. `aws_profile` is the profile that the
/// environment names, and `outcomes` holds what the calls that were asked for so
/// far came to.
pub fn analyze_evidence(
    exit_code: i32,
    stderr_truncated: bool,
    evidence: Option<AwsErrorEvidence>,
    context: &AwsCommandContext,
    outcomes: &FollowUpOutcomes,
    aws_profile: Option<&str>,
) -> (r: AnalysisStep)
    ensures
        r@ == analysis_step(
            ended(exit_code, stderr_truncated, context@, opt_str(aws_profile)),
            opt_view(evidence),
            context@,
            outcomes@,
        ),
{
    broadcast use lemma_texts_push;

    let mut notes: Vec<String> = Vec::new();
    assert(texts(notes@) =~= Seq::<Seq<char>>::empty());
    if stderr_truncated {
        notes.push(STDERR_TRUNCATED.to_owned());
        assert(texts(notes@) =~= seq![STDERR_TRUNCATED@]);
    }
    let mut identity = find_named_identity(&evidence);
    match evidence {
        Some(item) => {
            if item.failure_kind == FailureKind::Authorization && context.is_aws_cli() {
                match context.diagnostic_block_reason() {
                    Some(reason) => {
                        notes.push(reason.to_owned());
                    },
                    None => match &outcomes.identity {
                        None => {
                            match identity_call(context) {
                                Ok(call) => {
                                    return AnalysisStep::Ask(FollowUp::Identity, call);
                                },
                                Err(note) => {
                                    notes.push(note);
                                },
                            }
                        },
                        Some(Ok(who)) => {
                            identity = Some(who.clone());
                        },
                        Some(Err(note)) => {
                            notes.push(note.clone());
                        },
                    },
                }
                return take_denial_step(
                    exit_code,
                    stderr_truncated,
                    item,
                    context,
                    identity,
                    outcomes,
                    notes,
                    aws_profile,
                );
            }
            let authorization: Vec<AuthorizationResult> = Vec::new();
            assert(views(authorization@) =~= Seq::<AuthorizationView>::empty());
            let kind = item.failure_kind;
            AnalysisStep::Done(
                AnalysisReport::from_parts(
                    exit_code,
                    kind,
                    identity,
                    Some(item),
                    authorization,
                    notes,
                    context.credential_hint(aws_profile),
                ),
            )
        },
        None => {
            let authorization: Vec<AuthorizationResult> = Vec::new();
            assert(views(authorization@) =~= Seq::<AuthorizationView>::empty());
            AnalysisStep::Done(
                AnalysisReport::from_parts(
                    exit_code,
                    FailureKind::Other,
                    identity,
                    None,
                    authorization,
                    notes,
                    context.credential_hint(aws_profile),
                ),
            )
        },
    }
}

/// What comes next in the analysis of a command that has ended and whose arguments
/// say what `context` says.
pub open spec fn run_step(
    run: CommandRun,
    context: ContextView,
    outcomes: OutcomesView,
    aws_profile: Option<Seq<char>>,
) -> AnalysisStepView {
    analysis_step(
        ended(run.exit_code, run.stderr_truncated, context, aws_profile),
        evidence_of(run.stderr@),
        context,
        outcomes,
    )
}

/// What comes next in the analysis of a command that has ended. `aws_profile` is
/// the profile that the environment names, and `outcomes` holds what the calls
/// that were asked for so far came to. What the file name of the executable is,
/// the platform says where platforms differ on it; a command is followed up only
/// where the path of its executable ends in `aws` or `aws.exe`.
pub fn analyze(run: &CommandRun, outcomes: &FollowUpOutcomes, aws_profile: Option<&str>) -> (r:
    AnalysisStep)
    ensures
        run.argv@.len() == 0 ==> r@ == run_step(*run, no_context(), outcomes@, opt_str(aws_profile)),
        run.argv@.len() > 0 ==> exists|name: Option<Seq<char>>| #[trigger]
            is_file_name(run.argv@[0]@, name) && r@ == run_step(
                *run,
                context_of(texts(run.argv@), name),
                outcomes@,
                opt_str(aws_profile),
            ),
        run.argv@.len() > 0 && is_portable_path(run.argv@[0]@) ==> r@ == run_step(
            *run,
            context_of(texts(run.argv@), Some(last_component(run.argv@[0]@))),
            outcomes@,
            opt_str(aws_profile),
        ),
        !names_cli(texts(run.argv@)) ==> r@ == run_step(
            *run,
            no_context(),
            outcomes@,
            opt_str(aws_profile),
        ),
        r@ matches AnalysisStepView::Ask(_, call) ==> run.argv@.len() > 0 && call.executable
            == run.argv@[0]@ && (ends_path(run.argv@[0]@, "aws"@) || ends_path(
            run.argv@[0]@,
            "aws.exe"@,
        )),
{
    let context = AwsCommandContext::from_argv(run.argv.as_slice());
    let evidence = parse_aws_error(run.stderr.as_slice());
    proof {
        law_calls_follow_denials_of_the_cli(
            ended(run.exit_code, run.stderr_truncated, context@, opt_str(aws_profile)),
            opt_view(evidence),
            context@,
            outcomes@,
        );
        if run.argv@.len() > 0 {
            let name = choose|name: Option<Seq<char>>| #[trigger]
                is_file_name(run.argv@[0]@, name) && context@ == context_of(
                    texts(run.argv@),
                    name,
                );
            law_only_direct_commands_are_recognized(texts(run.argv@), name);
        }
    }
    analyze_evidence(
        run.exit_code,
        run.stderr_truncated,
        evidence,
        &context,
        outcomes,
        aws_profile,
    )
}

/// What an error text alone tells.
pub open spec fn text_report(evidence: Option<EvidenceView>) -> ReportView {
    let named = named_identity(evidence);
    let denied = evidence is Some && failure_kind(evidence) == FailureKind::Authorization;
    analysis_report(
        1,
        failure_kind(evidence),
        named,
        if denied {
            Some(with_action(no_context(), evidence.unwrap()))
        } else {
            evidence
        },
        if denied {
            diagnosis_step(
                no_context(),
                evidence.unwrap(),
                named,
                false,
                no_outcomes(),
            )->Done_0.authorization
        } else {
            Seq::empty()
        },
        Seq::empty(),
        None,
    )
}

/// What an error text alone tells, given what it says: no call is made, or asked
/// for.
pub fn analyze_text_evidence(evidence: Option<AwsErrorEvidence>) -> (r: AnalysisReport)
    ensures
        r@ == text_report(opt_view(evidence)),
{
    let identity = find_named_identity(&evidence);
    let mut kind = FailureKind::Other;
    let mut authorization: Vec<AuthorizationResult> = Vec::new();
    assert(views(authorization@) =~= Seq::<AuthorizationView>::empty());
    let shown = match evidence {
        Some(item) => {
            kind = item.failure_kind;
            if kind == FailureKind::Authorization {
                let mut full = item;
                proof {
                    law_no_calls_without_leave(
                        no_context(),
                        item@,
                        opt_view(identity),
                        false,
                        no_outcomes(),
                    );
                }
                let step = diagnose_authorization(
                    &AwsCommandContext::default(),
                    &mut full,
                    identity.as_ref(),
                    false,
                    &FollowUpOutcomes::new(),
                );
                if let DiagnosisStep::Done(diagnosis) = step {
                    authorization = diagnosis.authorization;
                }
                Some(full)
            } else {
                Some(item)
            }
        },
        None => None,
    };
    let notes: Vec<String> = Vec::new();
    assert(texts(notes@) =~= Seq::<Seq<char>>::empty());
    AnalysisReport::from_parts(1, kind, identity, shown, authorization, notes, None)
}

/// What an error text of the AWS CLI alone tells: no call is made, or asked for.
pub fn analyze_text(raw: &[u8]) -> (r: AnalysisReport)
    ensures
        r@ == text_report(evidence_of(raw@)),
{
    analyze_text_evidence(parse_aws_error(raw))
}

/// An action and a resource for which a policy is offered.
pub open spec fn candidate_pair(remediation: RemediationView) -> Option<(Seq<char>, Seq<char>)> {
    match (remediation.candidate_policy, remediation.action, remediation.resource) {
        (Some(_), Some(action), Some(resource)) => Some((action, resource)),
        _ => None,
    }
}

/// The actions and resources for which policies are offered, in their order.
pub open spec fn candidate_pairs(remediations: Seq<RemediationView>) -> Seq<(Seq<char>, Seq<char>)>
    decreases remediations.len(),
{
    if remediations.len() == 0 {
        Seq::empty()
    } else {
        let front = candidate_pairs(remediations.drop_last());
        match candidate_pair(remediations.last()) {
            Some(pair) => front.push(pair),
            None => front,
        }
    }
}

/// What is said of a candidate policy, given what the reference says of its
/// resource. Where the reference says nothing, the policy was not verified.
pub open spec fn policy_validation(step: ValidationStepView) -> ValidationView {
    match step {
        ValidationStepView::Done(Ok(validation)) => ValidationView {
            status: if validation.valid {
                PolicyValidationStatus::Valid
            } else {
                PolicyValidationStatus::Invalid
            },
            detail: validation.detail,
            resource_types: validation.resource_types,
        },
        _ => ValidationView {
            status: PolicyValidationStatus::Unavailable,
            detail: UNVERIFIED_DETAIL@,
            resource_types: Seq::empty(),
        },
    }
}

/// What is said of a candidate policy for an action on a resource.
pub open spec fn validation_of_pair(
    known: Map<Seq<char>, Result<ReferenceView, Seq<char>>>,
    pair: (Seq<char>, Seq<char>),
) -> ValidationView {
    policy_validation(validation_step(known, pair.0, pair.1))
}

/// A report once the policies for the pairs have been validated.
pub open spec fn with_validations(
    report: ReportView,
    pairs: Seq<(Seq<char>, Seq<char>)>,
    known: Map<Seq<char>, Result<ReferenceView, Seq<char>>>,
) -> ReportView
    decreases pairs.len(),
{
    if pairs.len() == 0 {
        report
    } else {
        let front = with_validations(report, pairs.drop_last(), known);
        validated_report(
            front,
            pairs.last().0,
            pairs.last().1,
            validation_of_pair(known, pairs.last()),
        )
    }
}

/// The first service whose part of the reference is needed and not known.
pub open spec fn needed_service(
    pairs: Seq<(Seq<char>, Seq<char>)>,
    known: Map<Seq<char>, Result<ReferenceView, Seq<char>>>,
) -> Option<Seq<char>>
    decreases pairs.len(),
{
    if pairs.len() == 0 {
        None
    } else {
        match validation_step(known, pairs[0].0, pairs[0].1) {
            ValidationStepView::NeedReference(service) => Some(service),
            ValidationStepView::Done(_) => needed_service(pairs.skip(1), known),
        }
    }
}

fn find_candidates(remediations: &Vec<Remediation>) -> (r: Vec<(String, String)>)
    ensures
        text_pairs(r@) == candidate_pairs(views(remediations@)),
{
    let ghost all = views(remediations@);
    let mut pairs: Vec<(String, String)> = Vec::new();
    let mut i: usize = 0;
    while i < remediations.len()
        invariant
            i <= remediations@.len(),
            all == views(remediations@),
            text_pairs(pairs@) =~= candidate_pairs(all.take(i as int)),
        decreases remediations.len() - i,
    {
        let item = &remediations[i];
        assert(all.take(i + 1).drop_last() =~= all.take(i as int));
        assert(all.take(i + 1).last() == item@);
        if item.candidate_policy.is_some() {
            if let (Some(action), Some(resource)) = (&item.action, &item.resource) {
                let ghost before = pairs@;
                pairs.push((action.clone(), resource.clone()));
                assert(text_pairs(pairs@) =~= text_pairs(before).push((action@, resource@)));
            }
        }
        i += 1;
    }
    assert(all.take(i as int) =~= all);
    pairs
}

/// The service whose part of the reference has to be fetched next, before the
/// candidate policies of a report can be validated.
pub fn next_reference(report: &AnalysisReport, validator: &ResourceValidator) -> (r: Option<String>)
    ensures
        opt_text(r) == needed_service(candidate_pairs(report@.remediation), validator@),
{
    let pairs = find_candidates(&report.remediation);
    let ghost all = text_pairs(pairs@);
    let mut i: usize = 0;
    assert(all.skip(0) =~= all);
    while i < pairs.len()
        invariant
            i <= pairs@.len(),
            all == text_pairs(pairs@),
            all == candidate_pairs(report@.remediation),
            needed_service(all, validator@) == needed_service(all.skip(i as int), validator@),
        decreases pairs.len() - i,
    {
        assert(all.skip(i as int)[0] == (pairs@[i as int].0@, pairs@[i as int].1@));
        assert(all.skip(i as int).skip(1) =~= all.skip(i + 1));
        match validator.validate(pairs[i].0.as_str(), pairs[i].1.as_str()) {
            ValidationStep::NeedReference(service) => {
                return Some(service);
            },
            ValidationStep::Done(_) => {},
        }
        i += 1;
    }
    None
}

/// What is said of a candidate policy, given what the reference says of its
/// resource.
fn policy_validation_for(step: ValidationStep) -> (r: PolicyValidation)
    ensures
        r@ == policy_validation(step@),
{
    match step {
        ValidationStep::Done(Ok(validation)) => PolicyValidation {
            status: if validation.valid {
                PolicyValidationStatus::Valid
            } else {
                PolicyValidationStatus::Invalid
            },
            detail: validation.detail,
            resource_types: validation.resource_types,
        },
        _ => {
            let none: Vec<String> = Vec::new();
            assert(texts(none@) =~= Seq::<Seq<char>>::empty());
            PolicyValidation {
                status: PolicyValidationStatus::Unavailable,
                detail: UNVERIFIED_DETAIL.to_owned(),
                resource_types: none,
            }
        },
    }
}

/// Validates the resources of the candidate policies of a report against what is
/// known of AWS's public Service Authorization Reference. The validation fails
/// open: where the reference could not be had, that is reported, and a confirmed
/// mismatch removes the candidate policy.
pub fn validate_candidate_policies(report: &mut AnalysisReport, validator: &ResourceValidator)
    ensures
        final(report)@ == with_validations(
            old(report)@,
            candidate_pairs(old(report)@.remediation),
            validator@,
        ),
{
    let pairs = find_candidates(&report.remediation);
    let ghost before = report@;
    let ghost all = text_pairs(pairs@);
    let mut i: usize = 0;
    while i < pairs.len()
        invariant
            i <= pairs@.len(),
            all == text_pairs(pairs@),
            report@ == with_validations(before, all.take(i as int), validator@),
        decreases pairs.len() - i,
    {
        let action = pairs[i].0.as_str();
        let resource = pairs[i].1.as_str();
        assert(all.take(i + 1).drop_last() =~= all.take(i as int));
        assert(all.take(i + 1).last() == (action@, resource@));
        let validation = policy_validation_for(validator.validate(action, resource));
        report.set_policy_validation(action, resource, &validation);
        i += 1;
    }
    assert(all.take(i as int) =~= all);
}

/// What becomes of a remediation when the policies for the pairs are validated.
spec fn settled(
    remediation: RemediationView,
    pairs: Seq<(Seq<char>, Seq<char>)>,
    known: Map<Seq<char>, Result<ReferenceView, Seq<char>>>,
) -> RemediationView {
    match candidate_pair(remediation) {
        Some(pair) => if pairs.contains(pair) {
            validated_remediation(remediation, pair.0, pair.1, validation_of_pair(known, pair))
        } else {
            remediation
        },
        None => remediation,
    }
}

proof fn lemma_with_validations(
    report: ReportView,
    pairs: Seq<(Seq<char>, Seq<char>)>,
    known: Map<Seq<char>, Result<ReferenceView, Seq<char>>>,
    i: int,
)
    requires
        0 <= i < report.remediation.len(),
    ensures
        with_validations(report, pairs, known).remediation.len() == report.remediation.len(),
        with_validations(report, pairs, known).remediation[i] == settled(
            report.remediation[i],
            pairs,
            known,
        ),
    decreases pairs.len(),
{
    if pairs.len() > 0 {
        let front = pairs.drop_last();
        lemma_with_validations(report, front, known, i);
        if let Some(pair) = candidate_pair(report.remediation[i]) {
            if pairs.contains(pair) && !front.contains(pair) {
                let k = choose|k: int| 0 <= k < pairs.len() && pairs[k] == pair;
                if k < front.len() {
                    assert(front[k] == pair);
                }
            }
            if front.contains(pair) {
                let k = choose|k: int| 0 <= k < front.len() && front[k] == pair;
                assert(pairs[k] == pair);
            }
            assert(pairs.contains(pairs.last())) by {
                assert(pairs[pairs.len() - 1] == pairs.last());
            }
        }
    }
}

proof fn lemma_candidate_pairs(remediations: Seq<RemediationView>, i: int)
    requires
        0 <= i < remediations.len(),
    ensures
        candidate_pair(remediations[i]) matches Some(pair) ==> candidate_pairs(
            remediations,
        ).contains(pair),
    decreases remediations.len(),
{
    if let Some(pair) = candidate_pair(remediations[i]) {
        let front = candidate_pairs(remediations.drop_last());
        let all = candidate_pairs(remediations);
        if i < remediations.len() - 1 {
            lemma_candidate_pairs(remediations.drop_last(), i);
            let k = choose|k: int| 0 <= k < front.len() && front[k] == pair;
            assert(all[k] == pair);
        } else {
            assert(all[front.len() as int] == pair);
        }
    }
}

/// The validation of candidate policies fails open. A candidate is removed where
/// the reference confirms that its resource does not fit, and only there; what
/// the reference said is noted with every candidate, and that it could not be had
/// where it could not; what offered no candidate stays as it was.
pub proof fn law_validation_fails_open(
    report: ReportView,
    known: Map<Seq<char>, Result<ReferenceView, Seq<char>>>,
    i: int,
)
    requires
        0 <= i < report.remediation.len(),
    ensures
        ({
            let before = report.remediation[i];
            let after = with_validations(
                report,
                candidate_pairs(report.remediation),
                known,
            ).remediation[i];
            match candidate_pair(before) {
                Some((action, resource)) => {
                    let step = validation_step(known, action, resource);
                    let mismatch = step matches ValidationStepView::Done(Ok(found)) && !found.valid;
                    let unavailable = !(step matches ValidationStepView::Done(Ok(_)));
                    &&& after.candidate_policy == if mismatch {
                        None
                    } else {
                        before.candidate_policy
                    }
                    &&& after.policy_validation matches Some(noted) && (noted.status
                        == PolicyValidationStatus::Invalid <==> mismatch) && (noted.status
                        == PolicyValidationStatus::Unavailable <==> unavailable)
                    &&& after.action == before.action && after.resource == before.resource
                        && after.guidance == before.guidance
                },
                None => after == before,
            }
        }),
{
    lemma_with_validations(report, candidate_pairs(report.remediation), known, i);
    lemma_candidate_pairs(report.remediation, i);
}

/// Diagnostic calls are made only for denials, and only where the command was one
/// of the AWS CLI that may be followed up. They run the command's own executable
/// with its own profile and region.
pub proof fn law_calls_follow_denials_of_the_cli(
    ended: EndedView,
    evidence: Option<EvidenceView>,
    context: ContextView,
    outcomes: OutcomesView,
)
    ensures
        analysis_step(ended, evidence, context, outcomes) matches AnalysisStepView::Ask(_, call) ==> {
            &&& failure_kind(evidence) == FailureKind::Authorization
            &&& context.executable == Some(call.executable)
            &&& context.block_reason() is None
            &&& call.args.take(context.shared_options().len() as int) == context.shared_options()
        },
{
    if let AnalysisStepView::Ask(asked, call) = analysis_step(ended, evidence, context, outcomes) {
        let shared = context.shared_options();
        assert forall|command: Seq<Seq<char>>| #[trigger]
            context.args_for(command).take(shared.len() as int) == shared by {
            assert(context.args_for(command).take(shared.len() as int) =~= shared);
        }
    }
}

/// A failure that is no denial is not told as one: it has no results of an
/// authorization, and nothing is advised. Neither is anything looked up for it.
pub proof fn law_other_failures_are_no_denials(
    ended: EndedView,
    evidence: Option<EvidenceView>,
    context: ContextView,
    outcomes: OutcomesView,
)
    requires
        failure_kind(evidence) != FailureKind::Authorization,
    ensures
        analysis_step(ended, evidence, context, outcomes) matches AnalysisStepView::Done(report)
            && report.failure_kind == failure_kind(evidence) && report.authorization.len() == 0
            && report.remediation.len() == 0,
        text_report(evidence).failure_kind == failure_kind(evidence),
        text_report(evidence).authorization.len() == 0,
        text_report(evidence).remediation.len() == 0,
{
}

/// A command that may not be followed up is reported on without a call, the
/// caller is who the error names, why there was no call is noted, and nothing is
/// advised.
pub proof fn law_blocked_commands_get_no_advice(
    ended: EndedView,
    evidence: Option<EvidenceView>,
    context: ContextView,
    outcomes: OutcomesView,
)
    requires
        failure_kind(evidence) == FailureKind::Authorization,
        context.executable is Some,
        context.block_reason() is Some,
    ensures
        analysis_step(ended, evidence, context, outcomes) matches AnalysisStepView::Done(report)
            && report.remediation.len() == 0 && report.notes.contains(
            sanitized(context.block_reason().unwrap()),
        ) && report.identity == (match named_identity(evidence) {
            Some(who) => Some(sanitized_identity(who)),
            None => None,
        }),
{
    if let AnalysisStepView::Done(report) = analysis_step(ended, evidence, context, outcomes) {
        let at = first_notes(ended).len() as int;
        assert(report.notes[at] == sanitized(context.block_reason().unwrap()));
    } else {
        law_no_calls_without_leave(
            context,
            evidence.unwrap(),
            named_identity(evidence),
            false,
            outcomes,
        );
    }
}

/// How many of the questions that an analysis can ask have no answer yet.
pub open spec fn open_questions(outcomes: OutcomesView) -> int {
    (if outcomes.identity is None {
        1int
    } else {
        0
    }) + (if outcomes.details is None {
        1int
    } else {
        0
    }) + (if outcomes.decoded is None {
        1int
    } else {
        0
    }) + (if outcomes.simulated is None {
        1int
    } else {
        0
    })
}

/// No diagnostic call is asked for that has been answered, and an answer once read
/// stays: so each call is made at most once. Each answer leaves one question less,
/// so the analysis ends.
pub proof fn law_analysis_asks_each_question_once(
    ended: EndedView,
    evidence: Option<EvidenceView>,
    context: ContextView,
    outcomes: OutcomesView,
    other: FollowUpView,
    reply: Reply,
)
    ensures
        analysis_step(ended, evidence, context, outcomes) matches AnalysisStepView::Ask(asked, _) ==> {
            &&& !answered(outcomes, asked)
            &&& answered(recorded(outcomes, asked, reply), asked)
            &&& answered(outcomes, other) ==> answered(recorded(outcomes, asked, reply), other)
            &&& 0 <= open_questions(recorded(outcomes, asked, reply)) == open_questions(outcomes)
                - 1
        },
{
}

/// Generated diagnostics hold no terminal control characters, whatever the command
/// wrote, AWS answered or the environment holds.
pub proof fn law_analyses_are_clean(
    ended: EndedView,
    evidence: Option<EvidenceView>,
    context: ContextView,
    outcomes: OutcomesView,
)
    ensures
        analysis_step(ended, evidence, context, outcomes) matches AnalysisStepView::Done(report)
            ==> report_is_clean(report),
        report_is_clean(text_report(evidence)),
{
    assert forall|
        kind: FailureKind,
        exit_code: i32,
        identity: Option<IdentityView>,
        shown: Option<EvidenceView>,
        results: Seq<AuthorizationView>,
        notes: Seq<Seq<char>>,
        source: Option<Seq<char>>,
    |
        report_is_clean(
            #[trigger] analysis_report(exit_code, kind, identity, shown, results, notes, source),
        ) by {
        law_reports_are_clean(exit_code, kind, identity, shown, results, notes, source);
    }
}

/// The account of a resource is the fifth part of its ARN, where that is one: twelve
/// digits.
pub proof fn law_resources_name_their_account(
    front: Seq<char>,
    partition: Seq<char>,
    service: Seq<char>,
    region: Seq<char>,
    account: Seq<char>,
    rest: Seq<char>,
)
    requires
        !front.contains(':'),
        !partition.contains(':'),
        !service.contains(':'),
        !region.contains(':'),
        !account.contains(':'),
    ensures
        ({
            let resource = front + seq![':'] + partition + seq![':'] + service + seq![':'] + region
                + seq![':'] + account + seq![':'] + rest;
            let is_account = account.len() == 12 && forall|i: int|
                0 <= i < account.len() ==> '0' <= #[trigger] account[i] <= '9';
            &&& is_account ==> account_of(resource) == Some(account)
            &&& !is_account ==> account_of(resource) is None
        }),
{
    reveal_with_fuel(pieces, 6);
    let after_region = account.push(':') + rest;
    let after_service = region.push(':') + after_region;
    let after_partition = service.push(':') + after_service;
    let after_front = partition.push(':') + after_partition;
    let resource = front + seq![':'] + partition + seq![':'] + service + seq![':'] + region + seq![
        ':',
    ] + account + seq![':'] + rest;
    assert(resource =~= front.push(':') + after_front);
    lemma_split_first_of(front, ':', after_front);
    lemma_split_first_of(partition, ':', after_partition);
    lemma_split_first_of(service, ':', after_service);
    lemma_split_first_of(region, ':', after_region);
    lemma_split_first_of(account, ':', rest);
    assert(pieces(resource, ':', 6) =~= seq![front, partition, service, region, account, rest]);
    if forall|i: int| 0 <= i < account.len() ==> '0' <= #[trigger] account[i] <= '9' {
        assert forall|i: int| 0 <= i < account.len() implies is_ascii_digit(
            #[trigger] account[i],
        ) by {}
    }
    if forall|i: int| 0 <= i < account.len() ==> is_ascii_digit(#[trigger] account[i]) {
        assert forall|i: int| 0 <= i < account.len() implies '0' <= #[trigger] account[i]
            <= '9' by {
            assert(is_ascii_digit(account[i]));
        }
    }
}

/// It is noted just where it is known who asked and what for, and the resource is in
/// another account than the caller.
pub proof fn law_other_accounts_are_noted(
    identity: Option<IdentityView>,
    resource: Option<Seq<char>>,
)
    ensures
        match (identity, resource) {
            (Some(who), Some(name)) => match account_of(name) {
                Some(account) => if account == who.account_id {
                    mismatch_notes(identity, resource).len() == 0
                } else {
                    mismatch_notes(identity, resource) == seq![
                        "Caller account "@ + who.account_id
                            + " differs from target resource account "@ + account
                            + "; check the selected profile or cross-account access."@,
                    ]
                },
                None => mismatch_notes(identity, resource).len() == 0,
            },
            _ => mismatch_notes(identity, resource).len() == 0,
        },
{
}

/// A report on a command has the command's own exit code and tells where its credentials
/// came from; that a part of its error stream was dropped is noted first.
pub proof fn law_reports_are_on_the_command(
    ended: EndedView,
    evidence: Option<EvidenceView>,
    context: ContextView,
    outcomes: OutcomesView,
)
    ensures
        analysis_step(ended, evidence, context, outcomes) matches AnalysisStepView::Done(report)
            ==> {
            &&& report.exit_code == ended.exit_code
            &&& report.failure_kind == match evidence {
                Some(item) => item.failure_kind,
                None => FailureKind::Other,
            }
            &&& report.credential_source == Some(sanitized(ended.credential_source))
            &&& ended.stderr_truncated ==> report.notes.len() > 0 && report.notes[0] == sanitized(
                "Only the final 1 MiB of command stderr was analyzed; earlier output was truncated."@,
            )
            &&& evidence is Some <==> report.error is Some
            &&& evidence matches Some(item) ==> {
                &&& report.error.unwrap().code == sanitized(item.error_code)
                &&& report.error.unwrap().message == sanitized(item.message)
            }
        },
{
}

/// A denial of a command of the AWS CLI that may be followed up is first asked for the
/// caller. Who AWS says it is made the request; where AWS does not say, that is noted,
/// and the error's own word counts.
pub proof fn law_the_caller_is_asked_for_first(
    ended: EndedView,
    evidence: EvidenceView,
    context: ContextView,
    outcomes: OutcomesView,
)
    requires
        evidence.failure_kind == FailureKind::Authorization,
        context.executable is Some,
        context.block_reason() is None,
    ensures
        outcomes.identity is None ==> analysis_step(ended, Some(evidence), context, outcomes)
            == AnalysisStepView::Ask(
            FollowUpView::Identity,
            CallView {
                executable: context.executable.unwrap(),
                args: context.args_for(
                    seq!["sts"@, "get-caller-identity"@, "--output"@, "json"@],
                ),
            },
        ),
        analysis_step(ended, Some(evidence), context, outcomes) matches AnalysisStepView::Done(
            report,
        ) ==> match outcomes.identity {
            Some(Ok(who)) => report.identity == Some(sanitized_identity(who)),
            Some(Err(note)) => report.notes.contains(sanitized(note)) && report.identity == (
            match evidence.principal_arn {
                Some(arn) => match identity_of_arn(arn) {
                    Some(who) => Some(sanitized_identity(who)),
                    None => None,
                },
                None => None,
            }),
            None => false,
        },
{
    if let AnalysisStepView::Done(report) = analysis_step(ended, Some(evidence), context, outcomes) {
        if let Some(Err(note)) = outcomes.identity {
            let at = first_notes(ended).len() as int;
            assert(report.notes[at] == sanitized(note));
        }
    }
}

/// The results, the notes and the next question of such a denial are those of the
/// search for its cause.
pub proof fn law_denials_are_told_as_diagnosed(
    ended: EndedView,
    evidence: EvidenceView,
    context: ContextView,
    outcomes: OutcomesView,
    who: IdentityView,
)
    requires
        evidence.failure_kind == FailureKind::Authorization,
        context.executable is Some,
        context.block_reason() is None,
        outcomes.identity == Some(Ok::<IdentityView, Seq<char>>(who)),
    ensures
        match diagnosis_step(context, evidence, Some(who), true, outcomes) {
            StepView::Ask(asked, call) => analysis_step(ended, Some(evidence), context, outcomes)
                == AnalysisStepView::Ask(asked, call),
            StepView::Done(diagnosis) => analysis_step(
                ended,
                Some(evidence),
                context,
                outcomes,
            ) matches AnalysisStepView::Done(report) && {
                &&& report.authorization == sanitized_results(diagnosis.authorization)
                &&& report.remediation == remediations(report.authorization)
                &&& forall|i: int|
                    0 <= i < diagnosis.notes.len() ==> report.notes.contains(
                        sanitized(#[trigger] diagnosis.notes[i]),
                    )
                &&& forall|note: Seq<char>| #[trigger]
                    mismatch_notes(
                        Some(who),
                        with_action(context, evidence).resource,
                    ).contains(note) ==> report.notes.contains(sanitized(note))
            },
        },
{
    if let StepView::Done(diagnosis) = diagnosis_step(context, evidence, Some(who), true, outcomes) {
        if let AnalysisStepView::Done(report) = analysis_step(
            ended,
            Some(evidence),
            context,
            outcomes,
        ) {
            let front = first_notes(ended).len() as int;
            let other = mismatch_notes(Some(who), with_action(context, evidence).resource);
            assert forall|i: int| 0 <= i < diagnosis.notes.len() implies report.notes.contains(
                sanitized(#[trigger] diagnosis.notes[i]),
            ) by {
                assert(report.notes[front + i] == sanitized(diagnosis.notes[i]));
            }
            assert forall|note: Seq<char>| #[trigger] other.contains(note) implies
                report.notes.contains(sanitized(note)) by {
                let k = choose|k: int| 0 <= k < other.len() && other[k] == note;
                assert(report.notes[front + diagnosis.notes.len() + k] == sanitized(note));
            }
        }
    }
}

/// What an error text alone tells is told without a call: the cause that it reports, or
/// that the cause is unknown. Who made the request is who the error names.
pub proof fn law_error_texts_are_told_without_calls(evidence: EvidenceView)
    ensures
        ({
            let report = text_report(Some(evidence));
            &&& report.exit_code == 1
            &&& report.failure_kind == evidence.failure_kind
            &&& report.notes.len() == 0
            &&& report.credential_source is None
            &&& report.error.unwrap().code == sanitized(evidence.error_code)
            &&& report.error.unwrap().message == sanitized(evidence.message)
            &&& report.identity == match evidence.principal_arn {
                Some(arn) => match identity_of_arn(arn) {
                    Some(who) => Some(sanitized_identity(who)),
                    None => None,
                },
                None => None,
            }
            &&& evidence.failure_kind == FailureKind::Authorization && evidence.reported_cause
                is Some ==> {
                &&& report.authorization.len() == 1
                &&& report.authorization[0].cause == evidence.reported_cause
                &&& report.authorization[0].confidence == Confidence::Reported
                &&& report.authorization[0].evidence_source == EvidenceSource::AwsError
            }
            &&& evidence.failure_kind == FailureKind::Authorization && evidence.reported_cause
                is None && (evidence.action is Some || evidence.resource is Some) ==> {
                &&& report.authorization.len() == 1
                &&& report.authorization[0].cause == Some(DenyCause::Unknown)
                &&& report.authorization[0].confidence == Confidence::Incomplete
            }
        }),
        text_report(None).exit_code == 1,
        text_report(None).failure_kind == FailureKind::Other,
        text_report(None).error is None,
{
    law_no_calls_without_leave(
        no_context(),
        evidence,
        named_identity(Some(evidence)),
        false,
        no_outcomes(),
    );
}

/// A candidate is told as the reference tells it: valid or not, with its words and the
/// types of resource; where the reference tells nothing, it is told that the candidate
/// was not verified.
pub proof fn law_candidates_are_told_as_the_reference_tells(step: ValidationStepView)
    ensures
        match step {
            ValidationStepView::Done(Ok(found)) => {
                let told = policy_validation(step);
                &&& told.status == PolicyValidationStatus::Valid <==> found.valid
                &&& told.status == PolicyValidationStatus::Invalid <==> !found.valid
                &&& told.detail == found.detail
                &&& told.resource_types == found.resource_types
            },
            _ => {
                let told = policy_validation(step);
                &&& told.status == PolicyValidationStatus::Unavailable
                &&& told.detail
                    == "AWS Service Authorization Reference was unavailable; the candidate resource scope was not verified."@
                &&& told.resource_types.len() == 0
            },
        },
{
}

/// A part of the reference is needed just where the reference of some candidate's
/// service is not known, and the first such one is needed first.
pub proof fn law_references_are_needed_for_candidates(
    pairs: Seq<(Seq<char>, Seq<char>)>,
    known: Map<Seq<char>, Result<ReferenceView, Seq<char>>>,
)
    ensures
        match needed_service(pairs, known) {
            Some(service) => exists|i: int|
                0 <= i < pairs.len() && validation_step(
                    known,
                    (#[trigger] pairs[i]).0,
                    pairs[i].1,
                ) == ValidationStepView::NeedReference(service) && forall|k: int|
                    0 <= k < i ==> validation_step(known, (#[trigger] pairs[k]).0, pairs[k].1)
                        is Done,
            None => forall|k: int|
                0 <= k < pairs.len() ==> validation_step(known, (#[trigger] pairs[k]).0, pairs[k].1)
                    is Done,
        },
    decreases pairs.len(),
{
    if pairs.len() > 0 {
        let rest = pairs.skip(1);
        assert(forall|k: int| 0 < k < pairs.len() ==> pairs[k] == rest[k - 1]);
        if validation_step(known, pairs[0].0, pairs[0].1) is Done {
            law_references_are_needed_for_candidates(rest, known);
            if let Some(service) = needed_service(rest, known) {
                let i = choose|i: int|
                    0 <= i < rest.len() && validation_step(
                        known,
                        (#[trigger] rest[i]).0,
                        rest[i].1,
                    ) == ValidationStepView::NeedReference(service) && forall|k: int|
                        0 <= k < i ==> validation_step(known, (#[trigger] rest[k]).0, rest[k].1)
                            is Done;
                assert(pairs[i + 1] == rest[i]);
                assert forall|k: int| 0 <= k < i + 1 implies validation_step(
                    known,
                    (#[trigger] pairs[k]).0,
                    pairs[k].1,
                ) is Done by {
                    if k > 0 {
                        assert(pairs[k] == rest[k - 1]);
                    }
                }
            } else {
                assert forall|k: int| 0 <= k < pairs.len() implies validation_step(
                    known,
                    (#[trigger] pairs[k]).0,
                    pairs[k].1,
                ) is Done by {
                    if k > 0 {
                        assert(pairs[k] == rest[k - 1]);
                    }
                }
            }
        }
    }
}

/// The credentials of a command that has ended came from where its arguments and the
/// environment say.
pub proof fn law_ended_commands_keep_what_they_ended_with(
    exit_code: i32,
    stderr_truncated: bool,
    context: ContextView,
    aws_profile: Option<Seq<char>>,
)
    ensures
        ended(exit_code, stderr_truncated, context, aws_profile) == (EndedView {
            exit_code,
            stderr_truncated,
            credential_source: context.credential_hint(aws_profile),
        }),
{
}

/// A command is analyzed by what it wrote to its error stream, with the exit code that
/// it ended with.
pub proof fn law_commands_are_analyzed_by_their_error_stream(
    run: CommandRun,
    context: ContextView,
    outcomes: OutcomesView,
    aws_profile: Option<Seq<char>>,
)
    ensures
        run_step(run, context, outcomes, aws_profile) matches AnalysisStepView::Done(report) ==> {
            &&& report.exit_code == run.exit_code
            &&& report.credential_source == Some(sanitized(context.credential_hint(aws_profile)))
            &&& report.error is Some <==> evidence_of(run.stderr@) is Some
            &&& evidence_of(run.stderr@) matches Some(evidence) ==> {
                &&& report.failure_kind == evidence.failure_kind
                &&& report.error.unwrap().code == sanitized(evidence.error_code)
                &&& report.error.unwrap().message == sanitized(evidence.message)
            }
            &&& run.stderr_truncated ==> report.notes.len() > 0 && report.notes[0] == sanitized(
                "Only the final 1 MiB of command stderr was analyzed; earlier output was truncated."@,
            )
        },
        run_step(run, context, outcomes, aws_profile) is Ask ==> (evidence_of(
            run.stderr@,
        ) matches Some(evidence) && evidence.failure_kind == FailureKind::Authorization),
{
    let ended = ended(run.exit_code, run.stderr_truncated, context, aws_profile);
    law_reports_are_on_the_command(ended, evidence_of(run.stderr@), context, outcomes);
    law_calls_follow_denials_of_the_cli(ended, evidence_of(run.stderr@), context, outcomes);
}

/// A denial that may not be followed up is told by the error alone: by the cause that
/// it reports, or as unknown, whatever answers there are.
pub proof fn law_blocked_commands_are_told_by_the_error(
    ended: EndedView,
    evidence: EvidenceView,
    context: ContextView,
    outcomes: OutcomesView,
)
    requires
        evidence.failure_kind == FailureKind::Authorization,
        context.executable is Some,
        context.block_reason() is Some,
    ensures
        analysis_step(ended, Some(evidence), context, outcomes) matches AnalysisStepView::Done(
            report,
        ) && {
            &&& evidence.reported_cause is Some ==> {
                &&& report.authorization.len() == 1
                &&& report.authorization[0].cause == evidence.reported_cause
                &&& report.authorization[0].evidence_source == EvidenceSource::AwsError
                &&& report.authorization[0].confidence == Confidence::Reported
            }
            &&& evidence.reported_cause is None && (evidence.action is Some || evidence.resource
                is Some) ==> {
                &&& report.authorization.len() == 1
                &&& report.authorization[0].cause == Some(DenyCause::Unknown)
                &&& report.authorization[0].evidence_source == EvidenceSource::AwsError
                &&& report.authorization[0].confidence == Confidence::Incomplete
            }
        },
{
    law_no_calls_without_leave(
        context,
        evidence,
        named_identity(Some(evidence)),
        false,
        outcomes,
    );
}

} // verus!
