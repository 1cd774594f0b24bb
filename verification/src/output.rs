//! The texts that people read.
use vstd::prelude::*;

use crate::model::{
    cause_label, opt_view, views, AnalysisReport, AuthorizationResult, AuthorizationView,
    AwsIdentity, Confidence, Decision, DenyCause, ErrorSummary, ErrorView, EvidenceSource,
    FailureKind, IdentityView, PermissionReport, PermissionReportView, PolicyValidation,
    PolicyValidationStatus, PrincipalType, Remediation, RemediationView, ReportView,
    ValidationView,
};
use crate::outside::{lower_case, to_lower};
use crate::text::{
    begins_with, contains, decimal, decimal_of, join, joined, law_parts_stand_inside, lines,
    lines_of, occurs_at, occurs_in, opt_text, same_option, same_text, texts,
};

verus! {

/// An optional part of a text.
pub open spec fn part(front: Seq<char>, value: Option<Seq<char>>, behind: Seq<char>) -> Seq<char> {
    match value {
        Some(text) => front + text + behind,
        None => Seq::empty(),
    }
}

fn make_part(front: &str, value: &Option<String>, behind: &str) -> (r: String)
    ensures
        r@ == part(front@, opt_text(*value), behind@),
{
    match value {
        Some(text) => {
            let mut out = front.to_owned();
            out.append(text.as_str());
            out.append(behind);
            out
        },
        None => String::new(),
    }
}

/// A value, or what stands in for it.
pub open spec fn or_else(value: Option<Seq<char>>, otherwise: Seq<char>) -> Seq<char> {
    match value {
        Some(text) => text,
        None => otherwise,
    }
}

fn value_or<'a>(value: &'a Option<String>, otherwise: &'a str) -> (r: &'a str)
    ensures
        r@ == or_else(opt_text(*value), otherwise@),
{
    match value {
        Some(text) => text.as_str(),
        None => otherwise,
    }
}

/// Each text on a line of its own behind an indent.
pub open spec fn indented(list: Seq<Seq<char>>, indent: Seq<char>) -> Seq<char>
    decreases list.len(),
{
    if list.len() == 0 {
        Seq::empty()
    } else {
        indented(list.drop_last(), indent) + indent + list.last() + "\n"@
    }
}

fn indent_lines(list: &Vec<String>, indent: &str) -> (r: String)
    ensures
        r@ == indented(texts(list@), indent@),
{
    let ghost all = texts(list@);
    let mut out = String::new();
    let mut i: usize = 0;
    while i < list.len()
        invariant
            i <= list@.len(),
            all == texts(list@),
            out@ == indented(all.take(i as int), indent@),
        decreases list.len() - i,
    {
        assert(all.take(i + 1).drop_last() =~= all.take(i as int));
        out.append(indent);
        out.append(list[i].as_str());
        out.append("\n");
        i += 1;
    }
    assert(all.take(i as int) =~= all);
    out
}

/// A heading with a list under it, where the list is not empty.
pub open spec fn section(heading: Seq<char>, list: Seq<Seq<char>>) -> Seq<char> {
    if list.len() == 0 {
        Seq::empty()
    } else {
        heading + "\n"@ + indented(list, "  "@) + "\n"@
    }
}

fn make_section(heading: &str, list: &Vec<String>) -> (r: String)
    ensures
        r@ == section(heading@, texts(list@)),
{
    if list.len() == 0 {
        return String::new();
    }
    let mut out = heading.to_owned();
    out.append("\n");
    out.append(indent_lines(list, "  ").as_str());
    out.append("\n");
    out
}

/// What AWS said went wrong.
pub open spec fn error_line(error: Option<ErrorView>) -> Seq<char> {
    match error {
        Some(item) => item.code + ": "@ + item.message + "\n\n"@,
        None => Seq::empty(),
    }
}

fn make_error_line(error: &Option<ErrorSummary>) -> (r: String)
    ensures
        r@ == error_line(opt_view(*error)),
{
    match error {
        Some(item) => {
            let mut out = item.code.clone();
            out.append(": ");
            out.append(item.message.as_str());
            out.append("\n\n");
            out
        },
        None => String::new(),
    }
}

/// The text on a failure that is no denial.
pub open spec fn simple_text(
    heading: Seq<char>,
    error: Option<ErrorView>,
    conclusion: Seq<char>,
) -> Seq<char> {
    "\n"@ + heading + "\n\n"@ + error_line(error) + conclusion + "\n"@
}

fn write_simple(heading: &str, error: &Option<ErrorSummary>, conclusion: &str) -> (r: String)
    ensures
        r@ == simple_text(heading@, opt_view(*error), conclusion@),
{
    let mut out = "\n".to_owned();
    out.append(heading);
    out.append("\n\n");
    out.append(make_error_line(error).as_str());
    out.append(conclusion);
    out.append("\n");
    out
}

/// An error tells that the session expired; `lower` is its message in lower case.
pub open spec fn tells_expiry(code: Seq<char>, lower: Seq<char>) -> bool {
    occurs_in(code, "Expired"@) || occurs_in(lower, "expired"@)
}

/// The text on a request whose sender could not be established.
pub open spec fn authentication_text(error: Option<ErrorView>, expired: bool) -> Seq<char> {
    "\nAUTHENTICATION FAILURE\n\n"@ + (if expired {
        "Your AWS session expired.\n\n"@
    } else {
        error_line(error)
    }) + "This is not evidence that an IAM permission is missing.\n"@
}

fn write_authentication(error: &Option<ErrorSummary>, expired: bool) -> (r: String)
    ensures
        r@ == authentication_text(opt_view(*error), expired),
{
    let mut out = "\nAUTHENTICATION FAILURE\n\n".to_owned();
    if expired {
        out.append("Your AWS session expired.\n\n");
    } else {
        out.append(make_error_line(error).as_str());
    }
    out.append("This is not evidence that an IAM permission is missing.\n");
    out
}

/// A source of evidence in words.
pub open spec fn source_words(source: EvidenceSource) -> Seq<char> {
    match source {
        EvidenceSource::RequestAuthorizationDetails => "AWS request authorization details"@,
        EvidenceSource::DecodedAuthorizationMessage => "AWS decoded authorization message"@,
        EvidenceSource::AwsError => "AWS error response"@,
        EvidenceSource::PolicySimulation => "IAM policy simulation"@,
        EvidenceSource::NoEvidence => "no authorization evidence"@,
    }
}

pub fn source_label(source: &EvidenceSource) -> (r: &'static str)
    ensures
        r@ == source_words(*source),
{
    match source {
        EvidenceSource::RequestAuthorizationDetails => "AWS request authorization details",
        EvidenceSource::DecodedAuthorizationMessage => "AWS decoded authorization message",
        EvidenceSource::AwsError => "AWS error response",
        EvidenceSource::PolicySimulation => "IAM policy simulation",
        EvidenceSource::NoEvidence => "no authorization evidence",
    }
}

/// A confidence in words.
pub open spec fn confidence_words(confidence: Confidence) -> Seq<char> {
    match confidence {
        Confidence::Verified => "verified"@,
        Confidence::Reported => "reported by AWS"@,
        Confidence::Simulated => "simulated"@,
        Confidence::Incomplete => "incomplete"@,
    }
}

pub fn confidence_label(confidence: &Confidence) -> (r: &'static str)
    ensures
        r@ == confidence_words(*confidence),
{
    match confidence {
        Confidence::Verified => "verified",
        Confidence::Reported => "reported by AWS",
        Confidence::Simulated => "simulated",
        Confidence::Incomplete => "incomplete",
    }
}

/// The text on the validation of a candidate policy.
pub open spec fn validation_text(validation: Option<ValidationView>) -> Seq<char> {
    match validation {
        Some(item) => "Policy resource check\n  "@ + (match item.status {
            PolicyValidationStatus::Valid => "verified"@,
            PolicyValidationStatus::Invalid => "mismatch"@,
            PolicyValidationStatus::Unavailable => "not verified"@,
        }) + ": "@ + item.detail + "\n\n"@,
        None => Seq::empty(),
    }
}

fn write_policy_validation(validation: &Option<PolicyValidation>) -> (r: String)
    ensures
        r@ == validation_text(opt_view(*validation)),
{
    match validation {
        Some(item) => {
            let mut out = "Policy resource check\n  ".to_owned();
            out.append(
                match item.status {
                    PolicyValidationStatus::Valid => "verified",
                    PolicyValidationStatus::Invalid => "mismatch",
                    PolicyValidationStatus::Unavailable => "not verified",
                },
            );
            out.append(": ");
            out.append(item.detail.as_str());
            out.append("\n\n");
            out
        },
        None => String::new(),
    }
}

/// The text on the cause of a denial, under a heading.
pub open spec fn cause_text(heading: Seq<char>, result: AuthorizationView) -> Seq<char> {
    match result.cause {
        Some(cause) => heading + "\n  "@ + cause_label(cause) + "\n"@ + part(
            "  policy: "@,
            result.policy,
            "\n"@,
        ) + "\n"@,
        None => Seq::empty(),
    }
}

fn write_cause(heading: &str, result: &AuthorizationResult) -> (r: String)
    ensures
        r@ == cause_text(heading@, result@),
{
    match &result.cause {
        Some(cause) => {
            let mut out = heading.to_owned();
            out.append("\n  ");
            out.append(cause.label());
            out.append("\n");
            out.append(make_part("  policy: ", &result.policy, "\n").as_str());
            out.append("\n");
            out
        },
        None => String::new(),
    }
}

/// The position of the first remediation for an action on a resource; the length
/// where there is none.
pub open spec fn remediation_at(
    remediations: Seq<RemediationView>,
    action: Option<Seq<char>>,
    resource: Option<Seq<char>>,
    from: int,
) -> int
    decreases remediations.len() - from,
{
    if from < 0 || from >= remediations.len() {
        remediations.len() as int
    } else if remediations[from].action == action && remediations[from].resource == resource {
        from
    } else {
        remediation_at(remediations, action, resource, from + 1)
    }
}

fn find_remediation(remediations: &Vec<Remediation>, result: &AuthorizationResult) -> (r: usize)
    ensures
        r == remediation_at(views(remediations@), result@.action, result@.resource, 0),
        r <= remediations@.len(),
{
    let ghost all = views(remediations@);
    let mut i: usize = 0;
    while i < remediations.len()
        invariant
            i <= remediations@.len(),
            all == views(remediations@),
            remediation_at(all, result@.action, result@.resource, 0) == remediation_at(
                all,
                result@.action,
                result@.resource,
                i as int,
            ),
        decreases remediations.len() - i,
    {
        assert(all[i as int] == remediations@[i as int]@);
        if same_option(&remediations[i].action, &result.action) && same_option(
            &remediations[i].resource,
            &result.resource,
        ) {
            return i;
        }
        i += 1;
    }
    i
}

/// Some remediation offers a policy.
pub open spec fn offers_policy(remediations: Seq<RemediationView>) -> bool {
    exists|i: int|
        0 <= i < remediations.len() && (#[trigger] remediations[i]).candidate_policy is Some
}

fn has_candidate_policy(remediations: &Vec<Remediation>) -> (r: bool)
    ensures
        r == offers_policy(views(remediations@)),
{
    let ghost all = views(remediations@);
    let mut i: usize = 0;
    while i < remediations.len()
        invariant
            i <= remediations@.len(),
            all == views(remediations@),
            forall|k: int| 0 <= k < i ==> (#[trigger] all[k]).candidate_policy is None,
        decreases remediations.len() - i,
    {
        assert(all[i as int] == remediations@[i as int]@);
        if remediations[i].candidate_policy.is_some() {
            return true;
        }
        i += 1;
    }
    false
}

/// The principal of a denial that no policy is offered for.
pub open spec fn principal_text(report: ReportView) -> Seq<char> {
    match report.identity {
        Some(who) => if offers_policy(report.remediation) {
            Seq::empty()
        } else {
            let (label, principal) = match who.principal_type {
                PrincipalType::AssumedRole => ("Role"@, who.principal_arn()),
                PrincipalType::Role => ("Role"@, who.principal_arn()),
                PrincipalType::User => ("User"@, who.arn),
                _ => ("Principal"@, who.arn),
            };
            label + "\n  "@ + principal + "\n\n"@
        },
        None => Seq::empty(),
    }
}

fn write_principal(report: &AnalysisReport) -> (r: String)
    ensures
        r@ == principal_text(report@),
{
    match &report.identity {
        Some(who) => {
            if has_candidate_policy(&report.remediation) {
                return String::new();
            }
            let (label, principal) = match who.principal_type {
                PrincipalType::AssumedRole | PrincipalType::Role => ("Role", who.principal_arn()),
                PrincipalType::User => ("User", who.arn.clone()),
                _ => ("Principal", who.arn.clone()),
            };
            let mut out = label.to_owned();
            out.append("\n  ");
            out.append(principal.as_str());
            out.append("\n\n");
            out
        },
        None => String::new(),
    }
}

/// The heading of a denial.
pub open spec fn denial_heading(results: Seq<AuthorizationView>) -> Seq<char> {
    if results.len() == 1 {
        "\nDENIED"@ + part(": "@, results[0].action, ""@) + part(" on "@, results[0].resource, ""@)
            + "\n\n"@
    } else {
        "\nDENIED: "@ + decimal(results.len()) + " authorization checks\n\n"@
    }
}

fn write_denial_heading(results: &Vec<AuthorizationResult>) -> (r: String)
    ensures
        r@ == denial_heading(views(results@)),
{
    if results.len() == 1 {
        assert(views(results@)[0] == results@[0]@);
        let mut out = "\nDENIED".to_owned();
        out.append(make_part(": ", &results[0].action, "").as_str());
        out.append(make_part(" on ", &results[0].resource, "").as_str());
        out.append("\n\n");
        out
    } else {
        let mut out = "\nDENIED: ".to_owned();
        out.append(decimal_of(results.len()).as_str());
        out.append(" authorization checks\n\n");
        out
    }
}

/// Which request a result is of, where there are several.
pub open spec fn request_text(results: Seq<AuthorizationView>, index: int) -> Seq<char> {
    if results.len() > 1 {
        "Request "@ + decimal((index + 1) as nat) + "\n  action: "@ + or_else(
            results[index].action,
            "unknown"@,
        ) + "\n  resource: "@ + or_else(results[index].resource, "not reported by AWS"@) + "\n\n"@
    } else {
        Seq::empty()
    }
}

fn write_request(results: &Vec<AuthorizationResult>, index: usize) -> (r: String)
    requires
        index < results@.len(),
    ensures
        r@ == request_text(views(results@), index as int),
{
    assert(views(results@)[index as int] == results@[index as int]@);
    if results.len() > 1 {
        let mut out = "Request ".to_owned();
        out.append(decimal_of(index + 1).as_str());
        out.append("\n  action: ");
        out.append(value_or(&results[index].action, "unknown"));
        out.append("\n  resource: ");
        out.append(value_or(&results[index].resource, "not reported by AWS"));
        out.append("\n\n");
        out
    } else {
        String::new()
    }
}

/// The caller, as an administrator finds it.
pub open spec fn caller_line(front: Seq<char>, identity: Option<IdentityView>) -> Seq<char> {
    match identity {
        Some(who) => front + who.principal_arn() + "\n"@,
        None => Seq::empty(),
    }
}

fn write_caller(front: &str, identity: &Option<AwsIdentity>) -> (r: String)
    ensures
        r@ == caller_line(front@, opt_view(*identity)),
{
    match identity {
        Some(who) => {
            let mut out = front.to_owned();
            out.append(who.principal_arn().as_str());
            out.append("\n");
            out
        },
        None => String::new(),
    }
}

/// What to ask an administrator for: the missing permission and a policy that
/// grants it. `policy` is that policy as JSON text.
pub open spec fn handoff_text(
    identity: Option<IdentityView>,
    result: AuthorizationView,
    policy: Seq<char>,
) -> Seq<char> {
    "ASK YOUR ADMIN FOR\n"@ + caller_line("  Principal: "@, identity) + (match result.action {
        Some(action) => "  Missing: "@ + action + " on "@ + or_else(
            result.resource,
            "an unreported resource"@,
        ) + "\n"@,
        None => Seq::empty(),
    }) + "\n  Candidate policy (administrator review required):\n"@ + indented(
        lines_of(policy),
        "    "@,
    )
        + "\nCandidate only—administrator review required; other policy layers may still deny the request.\n\n"@
}

fn write_handoff(
    identity: &Option<AwsIdentity>,
    result: &AuthorizationResult,
    policy: &str,
) -> (r: String)
    ensures
        r@ == handoff_text(opt_view(*identity), result@, policy@),
{
    let mut out = "ASK YOUR ADMIN FOR\n".to_owned();
    out.append(write_caller("  Principal: ", identity).as_str());
    let missing = match &result.action {
        Some(action) => {
            let mut line = "  Missing: ".to_owned();
            line.append(action.as_str());
            line.append(" on ");
            line.append(value_or(&result.resource, "an unreported resource"));
            line.append("\n");
            line
        },
        None => String::new(),
    };
    out.append(missing.as_str());
    out.append("\n  Candidate policy (administrator review required):\n");
    out.append(indent_lines(&lines(policy), "    ").as_str());
    out.append(
        "\nCandidate only—administrator review required; other policy layers may still deny the request.\n\n",
    );
    out
}

/// What to do about a result.
pub open spec fn advice_text(
    report: ReportView,
    policies: Seq<Seq<char>>,
    result: AuthorizationView,
) -> Seq<char> {
    let at = remediation_at(report.remediation, result.action, result.resource, 0);
    if at < report.remediation.len() {
        let item = report.remediation[at];
        (if item.candidate_policy is Some {
            handoff_text(report.identity, result, policies[at])
        } else {
            "NEXT STEP\n  "@ + item.guidance + "\n\n"@
        }) + validation_text(item.policy_validation)
    } else {
        Seq::empty()
    }
}

fn write_advice(
    report: &AnalysisReport,
    policies: &Vec<String>,
    result: &AuthorizationResult,
) -> (r: String)
    requires
        policies@.len() == report.remediation@.len(),
    ensures
        r@ == advice_text(report@, texts(policies@), result@),
{
    let at = find_remediation(&report.remediation, result);
    if at == report.remediation.len() {
        return String::new();
    }
    let item = &report.remediation[at];
    assert(report@.remediation[at as int] == item@);
    let mut out = if item.candidate_policy.is_some() {
        write_handoff(&report.identity, result, policies[at].as_str())
    } else {
        let mut step = "NEXT STEP\n  ".to_owned();
        step.append(item.guidance.as_str());
        step.append("\n\n");
        step
    };
    out.append(write_policy_validation(&item.policy_validation).as_str());
    out
}

/// The text on the first `count` results.
pub open spec fn concise_results(
    report: ReportView,
    policies: Seq<Seq<char>>,
    count: nat,
) -> Seq<char>
    decreases count,
{
    if count == 0 {
        Seq::empty()
    } else {
        let index = count - 1;
        concise_results(report, policies, index as nat) + request_text(report.authorization, index)
            + cause_text("Reason"@, report.authorization[index]) + advice_text(
            report,
            policies,
            report.authorization[index],
        )
    }
}

/// The short text on a denial.
pub open spec fn concise_text(report: ReportView, policies: Seq<Seq<char>>) -> Seq<char> {
    if report.authorization.len() == 0 {
        "\nACCESS DENIED\n\n"@ + error_line(report.error) + "Exact denial reason unknown.\n"@
            + section("Important"@, report.notes)
    } else {
        denial_heading(report.authorization) + principal_text(report) + concise_results(
            report,
            policies,
            report.authorization.len(),
        ) + section("Important"@, report.notes)
    }
}

fn write_authorization_concise(report: &AnalysisReport, policies: &Vec<String>) -> (r: String)
    requires
        policies@.len() == report.remediation@.len(),
    ensures
        r@ == concise_text(report@, texts(policies@)),
{
    if report.authorization.len() == 0 {
        let mut out = "\nACCESS DENIED\n\n".to_owned();
        out.append(make_error_line(&report.error).as_str());
        out.append("Exact denial reason unknown.\n");
        out.append(make_section("Important", &report.notes).as_str());
        return out;
    }
    let mut out = write_denial_heading(&report.authorization);
    out.append(write_principal(report).as_str());
    let mut body = String::new();
    let mut i: usize = 0;
    while i < report.authorization.len()
        invariant
            i <= report.authorization@.len(),
            policies@.len() == report.remediation@.len(),
            body@ == concise_results(report@, texts(policies@), i as nat),
        decreases report.authorization.len() - i,
    {
        let result = &report.authorization[i];
        assert(report@.authorization[i as int] == result@);
        body.append(write_request(&report.authorization, i).as_str());
        body.append(write_cause("Reason", result).as_str());
        body.append(write_advice(report, policies, result).as_str());
        i += 1;
    }
    out.append(body.as_str());
    out.append(make_section("Important", &report.notes).as_str());
    out
}

/// The heading of a denial with all that is known of it.
pub open spec fn verbose_heading(results: Seq<AuthorizationView>) -> Seq<char> {
    "\nACCESS DENIED"@ + (if results.len() == 1 && results[0].action is Some {
        part(": "@, results[0].action, ""@) + part(" on "@, results[0].resource, ""@)
    } else {
        Seq::empty()
    }) + "\n\n"@
}

fn write_verbose_heading(results: &Vec<AuthorizationResult>) -> (r: String)
    ensures
        r@ == verbose_heading(views(results@)),
{
    let mut out = "\nACCESS DENIED".to_owned();
    let mut named = String::new();
    if results.len() == 1 {
        assert(views(results@)[0] == results@[0]@);
        if results[0].action.is_some() {
            named = make_part(": ", &results[0].action, "");
            named.append(make_part(" on ", &results[0].resource, "").as_str());
        }
    }
    out.append(named.as_str());
    out.append("\n\n");
    out
}

/// Who made the request.
pub open spec fn identity_text(identity: IdentityView) -> Seq<char> {
    "Identity\n  account: "@ + identity.account_id + "\n  principal: "@ + identity.display_name()
        + "\n"@ + part("  session: "@, identity.session_name, "\n"@)
}

fn write_identity(identity: &AwsIdentity) -> (r: String)
    ensures
        r@ == identity_text(identity@),
{
    let mut out = "Identity\n  account: ".to_owned();
    out.append(identity.account_id.as_str());
    out.append("\n  principal: ");
    out.append(identity.display_name());
    out.append("\n");
    out.append(make_part("  session: ", &identity.session_name, "\n").as_str());
    out
}

/// Which request a result is of, where there are several.
pub open spec fn check_text(results: Seq<AuthorizationView>, index: int) -> Seq<char> {
    if results.len() > 1 {
        "Authorization check "@ + decimal((index + 1) as nat) + "\n"@ + part(
            "  action: "@,
            results[index].action,
            "\n"@,
        ) + part("  resource: "@, results[index].resource, "\n"@) + "\n"@
    } else {
        Seq::empty()
    }
}

fn write_check(results: &Vec<AuthorizationResult>, index: usize) -> (r: String)
    requires
        index < results@.len(),
    ensures
        r@ == check_text(views(results@), index as int),
{
    assert(views(results@)[index as int] == results@[index as int]@);
    if results.len() > 1 {
        let mut out = "Authorization check ".to_owned();
        out.append(decimal_of(index + 1).as_str());
        out.append("\n");
        out.append(make_part("  action: ", &results[index].action, "\n").as_str());
        out.append(make_part("  resource: ", &results[index].resource, "\n").as_str());
        out.append("\n");
        out
    } else {
        String::new()
    }
}

/// The error itself names the cause.
pub open spec fn is_identified(result: AuthorizationView) -> bool {
    &&& result.evidence_source == EvidenceSource::AwsError
    &&& result.confidence == Confidence::Reported
    &&& result.cause is Some
    &&& result.cause != Some(DenyCause::Unknown)
}

/// Where a result comes from, and what that means.
pub open spec fn evidence_text(result: AuthorizationView) -> Seq<char> {
    "Evidence\n  "@ + source_words(result.evidence_source) + " ("@ + confidence_words(
        result.confidence,
    ) + ")\n\n"@ + (if is_identified(result) {
        "AWS already identified this cause; IAM simulation was not required.\n\n"@
    } else {
        ""@
    }) + (if result.decision == Decision::Allowed {
        "SIMULATION ALLOWS THIS REQUEST\nBut the live request failed and could not be fully reproduced.\nResult: INCOMPLETE\n\n"@
    } else {
        ""@
    })
}

fn write_evidence(result: &AuthorizationResult) -> (r: String)
    ensures
        r@ == evidence_text(result@),
{
    let mut out = "Evidence\n  ".to_owned();
    out.append(source_label(&result.evidence_source));
    out.append(" (");
    out.append(confidence_label(&result.confidence));
    out.append(")\n\n");
    let named = match &result.cause {
        Some(cause) => *cause != DenyCause::Unknown,
        None => false,
    };
    let identified = result.evidence_source == EvidenceSource::AwsError && result.confidence
        == Confidence::Reported && named;
    out.append(
        if identified {
            "AWS already identified this cause; IAM simulation was not required.\n\n"
        } else {
            ""
        },
    );
    out.append(
        if result.decision == Decision::Allowed {
            "SIMULATION ALLOWS THIS REQUEST\nBut the live request failed and could not be fully reproduced.\nResult: INCOMPLETE\n\n"
        } else {
            ""
        },
    );
    out
}

/// All that is known of the first `count` results.
pub open spec fn verbose_results(results: Seq<AuthorizationView>, count: nat) -> Seq<char>
    decreases count,
{
    if count == 0 {
        Seq::empty()
    } else {
        let index = count - 1;
        verbose_results(results, index as nat) + check_text(results, index) + cause_text(
            "Cause"@,
            results[index],
        ) + section("Could not verify runtime context"@, results[index].missing_context)
            + evidence_text(results[index])
    }
}

fn write_verbose_results(results: &Vec<AuthorizationResult>) -> (r: String)
    ensures
        r@ == verbose_results(views(results@), results@.len()),
{
    let mut out = String::new();
    let mut i: usize = 0;
    while i < results.len()
        invariant
            i <= results@.len(),
            out@ == verbose_results(views(results@), i as nat),
        decreases results.len() - i,
    {
        let result = &results[i];
        assert(views(results@)[i as int] == result@);
        out.append(write_check(results, i).as_str());
        out.append(write_cause("Cause", result).as_str());
        out.append(
            make_section("Could not verify runtime context", &result.missing_context).as_str(),
        );
        out.append(write_evidence(result).as_str());
        i += 1;
    }
    out
}

/// The request that an administrator is told of.
pub open spec fn request_handoff(
    identity: Option<IdentityView>,
    remediation: RemediationView,
) -> Seq<char> {
    match remediation.action {
        Some(action) => "Administrator handoff\n"@ + caller_line("  principal: "@, identity)
            + "  action: "@ + action + "\n  resource: "@ + or_else(
            remediation.resource,
            "not reported by AWS"@,
        ) + "\n\n"@,
        None => Seq::empty(),
    }
}

fn write_request_handoff(identity: &Option<AwsIdentity>, remediation: &Remediation) -> (r: String)
    ensures
        r@ == request_handoff(opt_view(*identity), remediation@),
{
    match &remediation.action {
        Some(action) => {
            let mut out = "Administrator handoff\n".to_owned();
            out.append(write_caller("  principal: ", identity).as_str());
            out.append("  action: ");
            out.append(action.as_str());
            out.append("\n  resource: ");
            out.append(value_or(&remediation.resource, "not reported by AWS"));
            out.append("\n\n");
            out
        },
        None => String::new(),
    }
}

/// The text on the first `count` remediations.
pub open spec fn verbose_advice(
    report: ReportView,
    policies: Seq<Seq<char>>,
    count: nat,
) -> Seq<char>
    decreases count,
{
    if count == 0 {
        Seq::empty()
    } else {
        let item = report.remediation[count - 1];
        verbose_advice(report, policies, (count - 1) as nat) + "What to do next\n  "@
            + item.guidance + "\n\n"@ + request_handoff(report.identity, item) + (
        if item.candidate_policy is Some {
            "Candidate policy (administrator review required)\n"@ + indented(
                lines_of(policies[count - 1]),
                "  "@,
            )
                + "  This addresses the reported denial only; another policy layer may still block the request.\n\n"@
        } else {
            Seq::empty()
        }) + validation_text(item.policy_validation)
    }
}

fn write_verbose_advice(report: &AnalysisReport, policies: &Vec<String>) -> (r: String)
    requires
        policies@.len() == report.remediation@.len(),
    ensures
        r@ == verbose_advice(report@, texts(policies@), report@.remediation.len()),
{
    let mut out = String::new();
    let mut i: usize = 0;
    while i < report.remediation.len()
        invariant
            i <= report.remediation@.len(),
            policies@.len() == report.remediation@.len(),
            out@ == verbose_advice(report@, texts(policies@), i as nat),
        decreases report.remediation.len() - i,
    {
        let item = &report.remediation[i];
        assert(report@.remediation[i as int] == item@);
        out.append("What to do next\n  ");
        out.append(item.guidance.as_str());
        out.append("\n\n");
        out.append(write_request_handoff(&report.identity, item).as_str());
        let mut offer = String::new();
        if item.candidate_policy.is_some() {
            offer = "Candidate policy (administrator review required)\n".to_owned();
            offer.append(indent_lines(&lines(policies[i].as_str()), "  ").as_str());
            offer.append(
                "  This addresses the reported denial only; another policy layer may still block the request.\n\n",
            );
        }
        out.append(offer.as_str());
        out.append(write_policy_validation(&item.policy_validation).as_str());
        i += 1;
    }
    out
}

/// Something about a denial is left open.
pub open spec fn is_incomplete(results: Seq<AuthorizationView>) -> bool {
    results.len() == 0 || exists|i: int|
        0 <= i < results.len() && leaves_open(#[trigger] results[i])
}

/// A result does not settle the cause.
pub open spec fn leaves_open(result: AuthorizationView) -> bool {
    ||| result.confidence == Confidence::Incomplete
    ||| result.cause is None
    ||| result.cause == Some(DenyCause::Unknown)
}

fn has_open_results(results: &Vec<AuthorizationResult>) -> (r: bool)
    ensures
        r == is_incomplete(views(results@)),
{
    let ghost all = views(results@);
    if results.len() == 0 {
        return true;
    }
    let mut i: usize = 0;
    while i < results.len()
        invariant
            i <= results@.len(),
            all == views(results@),
            forall|k: int| 0 <= k < i ==> !leaves_open(#[trigger] all[k]),
        decreases results.len() - i,
    {
        let result = &results[i];
        assert(all[i as int] == result@);
        let unknown = match &result.cause {
            Some(cause) => *cause == DenyCause::Unknown,
            None => true,
        };
        if unknown || result.confidence == Confidence::Incomplete {
            assert(leaves_open(all[i as int]));
            return true;
        }
        i += 1;
    }
    false
}

/// The text on a denial with all that is known of it.
pub open spec fn verbose_text(report: ReportView, policies: Seq<Seq<char>>) -> Seq<char> {
    verbose_heading(report.authorization) + (match report.identity {
        Some(who) => identity_text(who) + "\n"@,
        None => Seq::empty(),
    }) + verbose_results(report.authorization, report.authorization.len()) + (
    if report.authorization.len() == 0 {
        (if report.error is Some {
            "AWS error\n  "@ + error_line(report.error)
        } else {
            ""@
        }) + "RESULT\n  Exact denial reason unknown.\n\n"@
    } else {
        ""@
    }) + part("Credential source\n  "@, report.credential_source, "\n\n"@) + verbose_advice(
        report,
        policies,
        report.remediation.len(),
    ) + section("Notes"@, report.notes) + (if is_incomplete(report.authorization) {
        "aws-why could not obtain complete AWS authorization details.\n"@
    } else {
        ""@
    })
}

fn write_authorization_verbose(report: &AnalysisReport, policies: &Vec<String>) -> (r: String)
    requires
        policies@.len() == report.remediation@.len(),
    ensures
        r@ == verbose_text(report@, texts(policies@)),
{
    let mut out = write_verbose_heading(&report.authorization);
    let who = match &report.identity {
        Some(who) => {
            let mut text = write_identity(who);
            text.append("\n");
            text
        },
        None => String::new(),
    };
    out.append(who.as_str());
    out.append(write_verbose_results(&report.authorization).as_str());
    let unknown = if report.authorization.len() == 0 {
        let mut text = if report.error.is_some() {
            let mut line = "AWS error\n  ".to_owned();
            line.append(make_error_line(&report.error).as_str());
            line
        } else {
            "".to_owned()
        };
        text.append("RESULT\n  Exact denial reason unknown.\n\n");
        text
    } else {
        "".to_owned()
    };
    out.append(unknown.as_str());
    out.append(make_part("Credential source\n  ", &report.credential_source, "\n\n").as_str());
    out.append(write_verbose_advice(report, policies).as_str());
    out.append(make_section("Notes", &report.notes).as_str());
    out.append(
        if has_open_results(&report.authorization) {
            "aws-why could not obtain complete AWS authorization details.\n"
        } else {
            ""
        },
    );
    out
}

/// The session of the caller expired, by the error of a report.
pub open spec fn has_expired(error: Option<ErrorView>) -> bool {
    match error {
        Some(item) => tells_expiry(item.code, lower_case(item.message)),
        None => false,
    }
}

fn session_expired(error: &Option<ErrorSummary>) -> (r: bool)
    ensures
        r == has_expired(opt_view(*error)),
{
    match error {
        Some(item) => contains(item.code.as_str(), "Expired") || contains(
            to_lower(item.message.as_str()).as_str(),
            "expired",
        ),
        None => false,
    }
}

/// The text of a report. `policies` are its candidate policies as JSON texts, one
/// for each remediation, and `expired` says whether the session expired.
pub open spec fn human_text(
    report: ReportView,
    verbose: bool,
    policies: Seq<Seq<char>>,
    expired: bool,
) -> Seq<char> {
    match report.failure_kind {
        FailureKind::Authorization => if verbose {
            verbose_text(report, policies)
        } else {
            concise_text(report, policies)
        },
        FailureKind::Authentication => authentication_text(report.error, expired),
        FailureKind::Configuration => simple_text(
            "AWS CONFIGURATION FAILURE"@,
            report.error,
            "Fix the local AWS CLI configuration before investigating IAM."@,
        ),
        FailureKind::Network => simple_text(
            "AWS NETWORK FAILURE"@,
            report.error,
            "The request did not produce evidence of an IAM denial."@,
        ),
        FailureKind::ResourceNotFound => simple_text(
            "AWS RESOURCE NOT FOUND"@,
            report.error,
            "This is not evidence that an IAM permission is missing."@,
        ),
        FailureKind::Other => simple_text(
            "COMMAND FAILED"@,
            report.error,
            "aws-why found no reliable evidence of an IAM denial."@,
        ),
    }
}

/// The text of a report, where it is settled whether the session expired.
pub fn human_report(
    report: &AnalysisReport,
    verbose: bool,
    policies: &Vec<String>,
    expired: bool,
) -> (r: String)
    requires
        policies@.len() == report.remediation@.len(),
    ensures
        r@ == human_text(report@, verbose, texts(policies@), expired),
{
    match report.failure_kind {
        FailureKind::Authorization => {
            if verbose {
                write_authorization_verbose(report, policies)
            } else {
                write_authorization_concise(report, policies)
            }
        },
        FailureKind::Authentication => write_authentication(&report.error, expired),
        FailureKind::Configuration => write_simple(
            "AWS CONFIGURATION FAILURE",
            &report.error,
            "Fix the local AWS CLI configuration before investigating IAM.",
        ),
        FailureKind::Network => write_simple(
            "AWS NETWORK FAILURE",
            &report.error,
            "The request did not produce evidence of an IAM denial.",
        ),
        FailureKind::ResourceNotFound => write_simple(
            "AWS RESOURCE NOT FOUND",
            &report.error,
            "This is not evidence that an IAM permission is missing.",
        ),
        FailureKind::Other => write_simple(
            "COMMAND FAILED",
            &report.error,
            "aws-why found no reliable evidence of an IAM denial.",
        ),
    }
}

/// The text of a report, short or with all that is known. `policies` are its
/// candidate policies as JSON texts, one for each remediation; what stands for a
/// remediation without one is not read.
pub fn write_human(report: &AnalysisReport, verbose: bool, policies: &Vec<String>) -> (r: String)
    requires
        policies@.len() == report.remediation@.len(),
    ensures
        r@ == human_text(report@, verbose, texts(policies@), has_expired(report@.error)),
{
    human_report(report, verbose, policies, session_expired(&report.error))
}

/// What a simulated decision comes to.
#[derive(Clone, Copy, PartialEq, Eq, Structural)]
pub enum Standing {
    Allowed,
    Denied,
    Unknown,
}

pub open spec fn standing(decision: Decision) -> Standing {
    match decision {
        Decision::Allowed => Standing::Allowed,
        Decision::ExplicitDeny => Standing::Denied,
        Decision::ImplicitDeny => Standing::Denied,
        Decision::Unknown => Standing::Unknown,
    }
}

fn standing_of(decision: Decision) -> (r: Standing)
    ensures
        r == standing(decision),
{
    match decision {
        Decision::Allowed => Standing::Allowed,
        Decision::ExplicitDeny | Decision::ImplicitDeny => Standing::Denied,
        Decision::Unknown => Standing::Unknown,
    }
}

/// How many of the results come to that.
pub open spec fn count_of(results: Seq<AuthorizationView>, kind: Standing) -> nat
    decreases results.len(),
{
    if results.len() == 0 {
        0
    } else if standing(results.last().decision) == kind {
        count_of(results.drop_last(), kind) + 1
    } else {
        count_of(results.drop_last(), kind)
    }
}

fn count(results: &Vec<AuthorizationResult>, kind: Standing) -> (r: usize)
    ensures
        r == count_of(views(results@), kind),
{
    let ghost all = views(results@);
    let mut total: usize = 0;
    let mut i: usize = 0;
    while i < results.len()
        invariant
            i <= results@.len(),
            all == views(results@),
            total <= i,
            total == count_of(all.take(i as int), kind),
        decreases results.len() - i,
    {
        assert(all.take(i + 1).drop_last() =~= all.take(i as int));
        assert(all.take(i + 1).last() == results@[i as int]@);
        if standing_of(results[i].decision) == kind {
            total += 1;
        }
        i += 1;
    }
    assert(all.take(i as int) =~= all);
    total
}

/// The resource of a result; where none is named, all resources.
pub open spec fn resource_of(result: AuthorizationView) -> Seq<char> {
    or_else(result.resource, "*"@)
}

/// What a decision comes to, as it stands in the matrix.
pub open spec fn standing_mark(kind: Standing) -> Seq<char> {
    match kind {
        Standing::Allowed => "  + ALLOWED  "@,
        Standing::Denied => "  - DENIED   "@,
        Standing::Unknown => "  ? UNKNOWN  "@,
    }
}

/// The cause of a denial at the end of a line.
pub open spec fn cause_note(cause: Option<DenyCause>) -> Seq<char> {
    match cause {
        Some(item) => " — "@ + cause_label(item),
        None => Seq::empty(),
    }
}

fn write_cause_note(cause: &Option<DenyCause>) -> (r: String)
    ensures
        r@ == cause_note(*cause),
{
    match cause {
        Some(item) => {
            let mut out = " — ".to_owned();
            out.append(item.label());
            out
        },
        None => String::new(),
    }
}

/// The line of a result in the matrix, and what belongs to it.
pub open spec fn matrix_entry(result: AuthorizationView) -> Seq<char> {
    standing_mark(standing(result.decision)) + or_else(result.action, "unknown:Unknown"@)
        + cause_note(result.cause) + "\n"@ + part(
        "              policy: "@,
        result.policy,
        "\n"@,
    ) + (if result.missing_context.len() > 0 {
        "              missing context: "@ + joined(result.missing_context, ", "@) + "\n"@
    } else {
        Seq::empty()
    })
}

fn write_matrix_entry(result: &AuthorizationResult) -> (r: String)
    ensures
        r@ == matrix_entry(result@),
{
    let mark = match standing_of(result.decision) {
        Standing::Allowed => "  + ALLOWED  ",
        Standing::Denied => "  - DENIED   ",
        Standing::Unknown => "  ? UNKNOWN  ",
    };
    let mut out = mark.to_owned();
    out.append(value_or(&result.action, "unknown:Unknown"));
    out.append(write_cause_note(&result.cause).as_str());
    out.append("\n");
    out.append(make_part("              policy: ", &result.policy, "\n").as_str());
    let mut missing = String::new();
    if result.missing_context.len() > 0 {
        missing = "              missing context: ".to_owned();
        missing.append(join(&result.missing_context, ", ").as_str());
        missing.append("\n");
    }
    out.append(missing.as_str());
    out
}

/// The first `count` results; where the resource changes, it is named.
pub open spec fn matrix(results: Seq<AuthorizationView>, count: nat) -> Seq<char>
    decreases count,
{
    if count == 0 {
        Seq::empty()
    } else {
        let index = count - 1;
        matrix(results, index as nat) + (if index == 0 || resource_of(results[index - 1])
            != resource_of(results[index]) {
            "Resource\n  "@ + resource_of(results[index]) + "\n"@
        } else {
            Seq::empty()
        }) + matrix_entry(results[index])
    }
}

fn write_matrix(results: &Vec<AuthorizationResult>) -> (r: String)
    ensures
        r@ == matrix(views(results@), results@.len()),
{
    let ghost all = views(results@);
    let mut out = String::new();
    let mut i: usize = 0;
    while i < results.len()
        invariant
            i <= results@.len(),
            all == views(results@),
            out@ == matrix(all, i as nat),
        decreases results.len() - i,
    {
        let result = &results[i];
        assert(all[i as int] == result@);
        let resource = value_or(&result.resource, "*");
        let mut named = String::new();
        let mut changed = true;
        if i > 0 {
            assert(all[i - 1] == results@[i - 1]@);
            changed = !same_text(value_or(&results[i - 1].resource, "*"), resource);
        }
        if changed {
            named = "Resource\n  ".to_owned();
            named.append(resource);
            named.append("\n");
        }
        out.append(named.as_str());
        out.append(write_matrix_entry(result).as_str());
        i += 1;
    }
    out
}

/// The text of a permission report.
pub open spec fn permission_text(report: PermissionReportView) -> Seq<char> {
    "SIMULATED PERMISSIONS\n\n"@ + identity_text(report.identity) + "  policy source: "@
        + report.policy_source_arn + "\n\n"@ + matrix(
        report.authorization,
        report.authorization.len(),
    ) + "\nSummary: "@ + decimal(count_of(report.authorization, Standing::Allowed)) + " allowed, "@
        + decimal(count_of(report.authorization, Standing::Denied)) + " denied, "@ + decimal(
        count_of(report.authorization, Standing::Unknown),
    ) + " unknown\n"@ + indented(report.notes, "Note: "@)
        + "Simulation only: this does not execute the actions or prove a live request will succeed.\n"@
}

/// The text of a permission report.
pub fn write_permission_human(report: &PermissionReport) -> (r: String)
    ensures
        r@ == permission_text(report@),
{
    let mut out = "SIMULATED PERMISSIONS\n\n".to_owned();
    out.append(write_identity(&report.identity).as_str());
    out.append("  policy source: ");
    out.append(report.policy_source_arn.as_str());
    out.append("\n\n");
    out.append(write_matrix(&report.authorization).as_str());
    out.append("\nSummary: ");
    out.append(decimal_of(count(&report.authorization, Standing::Allowed)).as_str());
    out.append(" allowed, ");
    out.append(decimal_of(count(&report.authorization, Standing::Denied)).as_str());
    out.append(" denied, ");
    out.append(decimal_of(count(&report.authorization, Standing::Unknown)).as_str());
    out.append(" unknown\n");
    out.append(indent_lines(&report.notes, "Note: ").as_str());
    out.append(
        "Simulation only: this does not execute the actions or prove a live request will succeed.\n",
    );
    out
}

/// Every result counts once in the summary.
pub proof fn law_summary_counts_every_result(results: Seq<AuthorizationView>)
    ensures
        count_of(results, Standing::Allowed) + count_of(results, Standing::Denied) + count_of(
            results,
            Standing::Unknown,
        ) == results.len(),
    decreases results.len(),
{
    if results.len() > 0 {
        law_summary_counts_every_result(results.drop_last());
    }
}

proof fn lemma_inside(whole: Seq<char>, front: Seq<char>, part: Seq<char>, behind: Seq<char>)
    requires
        whole == front + part + behind,
    ensures
        occurs_in(whole, part),
{
    law_parts_stand_inside(front, part, behind, whole);
}

/// What stands in either part of a text stands in the text.
broadcast proof fn lemma_stands_in_either(first: Seq<char>, second: Seq<char>, inner: Seq<char>)
    requires
        occurs_in(first, inner) || occurs_in(second, inner),
    ensures
        #[trigger] occurs_in(first + second, inner),
{
    if occurs_in(first, inner) {
        assert(first + second =~= Seq::empty() + first + second);
        lemma_inside_part(first + second, Seq::empty(), first, second, inner);
    } else {
        assert(first + second =~= first + second + Seq::empty());
        lemma_inside_part(first + second, first, second, Seq::empty(), inner);
    }
}

/// A text starts with what its front starts with.
broadcast proof fn lemma_starts_with_front(first: Seq<char>, second: Seq<char>, start: Seq<char>)
    requires
        begins_with(first, start),
    ensures
        #[trigger] begins_with(first + second, start),
{
    assert((first + second).subrange(0, start.len() as int) =~= first.subrange(
        0,
        start.len() as int,
    ));
}

/// A text stands in itself, and starts with itself.
proof fn lemma_itself(text: Seq<char>)
    ensures
        occurs_in(text, text),
        begins_with(text, text),
{
    assert(text.subrange(0, text.len() as int) =~= text);
    assert(occurs_at(text, text, 0));
}

/// Three texts make the same text however they are put together.
proof fn lemma_grouped(first: Seq<char>, second: Seq<char>, third: Seq<char>)
    ensures
        first + second + third == first + (second + third),
{
    assert(first + second + third =~= first + (second + third));
}

/// What stands in a part of a text stands in the text.
proof fn lemma_inside_part(
    whole: Seq<char>,
    front: Seq<char>,
    part: Seq<char>,
    behind: Seq<char>,
    inner: Seq<char>,
)
    requires
        whole == front + part + behind,
        occurs_in(part, inner),
    ensures
        occurs_in(whole, inner),
{
    law_parts_stand_inside(front, inner, behind, part);
    let (before, after) = choose|before: Seq<char>, after: Seq<char>| part == #[trigger] (before
        + inner + after);
    assert(whole =~= (front + before) + inner + (after + behind));
    lemma_inside(whole, front + before, inner, after + behind);
}

/// A denial counts as one, explicit or not; an allowed request as allowed and an
/// unknown decision as unknown.
pub proof fn law_decisions_have_their_standing()
    ensures
        standing(Decision::Allowed) == Standing::Allowed,
        standing(Decision::ExplicitDeny) == Standing::Denied,
        standing(Decision::ImplicitDeny) == Standing::Denied,
        standing(Decision::Unknown) == Standing::Unknown,
{
}

/// The summary counts result by result, each for what was decided.
pub proof fn law_results_are_counted(
    first: Seq<AuthorizationView>,
    second: Seq<AuthorizationView>,
    one: AuthorizationView,
    kind: Standing,
)
    ensures
        count_of(first + second, kind) == count_of(first, kind) + count_of(second, kind),
        count_of(seq![one], Standing::Allowed) == if one.decision == Decision::Allowed {
            1int
        } else {
            0
        },
        count_of(seq![one], Standing::Denied) == if one.decision == Decision::ExplicitDeny
            || one.decision == Decision::ImplicitDeny {
            1int
        } else {
            0
        },
        count_of(seq![one], Standing::Unknown) == if one.decision == Decision::Unknown {
            1int
        } else {
            0
        },
    decreases second.len(),
{
    reveal_with_fuel(count_of, 2);
    assert(seq![one].drop_last() =~= Seq::<AuthorizationView>::empty());
    if second.len() == 0 {
        assert(first + second =~= first);
    } else {
        assert((first + second).drop_last() =~= first + second.drop_last());
        law_results_are_counted(first, second.drop_last(), one, kind);
    }
}

/// The line of a result in the matrix starts with what was decided and the action; the
/// cause, the policy and the context that is missing follow, where they are known.
pub proof fn law_matrix_lines_tell_the_decision(result: AuthorizationView)
    ensures
        ({
            let line = matrix_entry(result);
            let action = match result.action {
                Some(name) => name,
                None => "unknown:Unknown"@,
            };
            &&& result.decision == Decision::Allowed ==> begins_with(
                line,
                "  + ALLOWED  "@ + action,
            )
            &&& result.decision == Decision::ExplicitDeny || result.decision
                == Decision::ImplicitDeny ==> begins_with(line, "  - DENIED   "@ + action)
            &&& result.decision == Decision::Unknown ==> begins_with(
                line,
                "  ? UNKNOWN  "@ + action,
            )
            &&& result.cause matches Some(cause) ==> occurs_in(line, action + " — "@ + cause_label(cause))
            &&& result.policy matches Some(policy) ==> occurs_in(
                line,
                "              policy: "@ + policy + "\n"@,
            )
            &&& result.missing_context.len() > 0 ==> occurs_in(
                line,
                "              missing context: "@ + joined(result.missing_context, ", "@)
                    + "\n"@,
            )
        }),
{
    broadcast use {lemma_stands_in_either, lemma_starts_with_front};

    let mark = standing_mark(standing(result.decision));
    let action = or_else(result.action, "unknown:Unknown"@);
    lemma_itself(mark + action);
    if let Some(cause) = result.cause {
        let words = " — "@ + cause_label(cause);
        lemma_grouped(mark, action, words);
        lemma_grouped(action, " — "@, cause_label(cause));
        lemma_itself(action + words);
    }
    lemma_itself(part("              policy: "@, result.policy, "\n"@));
    lemma_itself(
        "              missing context: "@ + joined(result.missing_context, ", "@) + "\n"@,
    );
}

proof fn lemma_matrix_line(results: Seq<AuthorizationView>, count: nat, i: int)
    requires
        0 <= i < count <= results.len(),
    ensures
        occurs_in(
            matrix(results, count),
            if i == 0 || resource_of(results[i - 1]) != resource_of(results[i]) {
                "Resource\n  "@ + resource_of(results[i]) + "\n"@ + matrix_entry(results[i])
            } else {
                matrix_entry(results[i])
            },
        ),
    decreases count,
{
    let index = count - 1;
    let before = matrix(results, index as nat);
    let changed = index == 0 || resource_of(results[index - 1]) != resource_of(results[index]);
    let heading = if changed {
        "Resource\n  "@ + resource_of(results[index]) + "\n"@
    } else {
        Seq::empty()
    };
    let entry = matrix_entry(results[index]);
    let whole = matrix(results, count);
    assert(whole == before + heading + entry);
    if i < index {
        lemma_matrix_line(results, index as nat, i);
        assert(whole =~= Seq::empty() + before + (heading + entry));
        let inner = if i == 0 || resource_of(results[i - 1]) != resource_of(results[i]) {
            "Resource\n  "@ + resource_of(results[i]) + "\n"@ + matrix_entry(results[i])
        } else {
            matrix_entry(results[i])
        };
        lemma_inside_part(whole, Seq::empty(), before, heading + entry, inner);
    } else if changed {
        assert(whole =~= before + (heading + entry) + Seq::empty());
        lemma_inside(whole, before, heading + entry, Seq::empty());
    } else {
        assert(whole =~= before + entry + Seq::empty());
        lemma_inside(whole, before, entry, Seq::empty());
    }
}

/// What stands in a part that stands in a text stands in the text.
proof fn lemma_deeper(text: Seq<char>, part: Seq<char>, inner: Seq<char>)
    requires
        occurs_in(text, part),
        occurs_in(part, inner),
    ensures
        occurs_in(text, inner),
{
    law_parts_stand_inside(Seq::empty(), part, Seq::empty(), text);
    let (before, after) = choose|before: Seq<char>, after: Seq<char>| text == #[trigger] (before
        + part + after);
    lemma_inside_part(text, before, part, after, inner);
}

/// A permission report shows every result with its line, under its resource where that
/// is another than before, and says how many are allowed, denied and unknown. It always
/// says that it is a simulation only.
pub proof fn law_permission_texts_tell_everything(report: PermissionReportView, i: int)
    ensures
        ({
            let text = permission_text(report);
            let results = report.authorization;
            &&& begins_with(text, "SIMULATED PERMISSIONS\n\n"@)
            &&& occurs_in(text, "  policy source: "@ + report.policy_source_arn)
            &&& occurs_in(
                text,
                "\nSummary: "@ + decimal(count_of(results, Standing::Allowed)) + " allowed, "@
                    + decimal(count_of(results, Standing::Denied)) + " denied, "@ + decimal(
                    count_of(results, Standing::Unknown),
                ) + " unknown\n"@,
            )
            &&& occurs_in(
                text,
                "Simulation only: this does not execute the actions or prove a live request will succeed.\n"@,
            )
            &&& 0 <= i < results.len() ==> occurs_in(text, matrix_entry(results[i]))
            &&& 0 <= i < results.len() && (i == 0 || resource_of(results[i - 1]) != resource_of(
                results[i],
            )) ==> occurs_in(
                text,
                "Resource\n  "@ + resource_of(results[i]) + "\n"@ + matrix_entry(results[i]),
            )
            &&& 0 <= i < report.notes.len() ==> occurs_in(
                text,
                "Note: "@ + report.notes[i] + "\n"@,
            )
        }),
{
    broadcast use {lemma_stands_in_either, lemma_starts_with_front};

    let results = report.authorization;
    let heading = "SIMULATED PERMISSIONS\n\n"@;
    let lines = matrix(results, results.len());
    let front = heading + identity_text(report.identity);
    let source = "  policy source: "@ + report.policy_source_arn;
    lemma_itself(heading);
    lemma_grouped(front, "  policy source: "@, report.policy_source_arn);
    lemma_itself(source);
    let (allowed, denied, unknown) = (
        decimal(count_of(results, Standing::Allowed)),
        decimal(count_of(results, Standing::Denied)),
        decimal(count_of(results, Standing::Unknown)),
    );
    let whole = front + source + "\n\n"@ + lines;
    lemma_grouped(whole, "\nSummary: "@, allowed);
    lemma_grouped(whole, "\nSummary: "@ + allowed, " allowed, "@);
    lemma_grouped(whole, "\nSummary: "@ + allowed + " allowed, "@, denied);
    lemma_grouped(whole, "\nSummary: "@ + allowed + " allowed, "@ + denied, " denied, "@);
    lemma_grouped(
        whole,
        "\nSummary: "@ + allowed + " allowed, "@ + denied + " denied, "@,
        unknown,
    );
    lemma_grouped(
        whole,
        "\nSummary: "@ + allowed + " allowed, "@ + denied + " denied, "@ + unknown,
        " unknown\n"@,
    );
    lemma_itself(
        "\nSummary: "@ + allowed + " allowed, "@ + denied + " denied, "@ + unknown
            + " unknown\n"@,
    );
    lemma_itself(
        "Simulation only: this does not execute the actions or prove a live request will succeed.\n"@,
    );
    if 0 <= i < results.len() {
        let entry = matrix_entry(results[i]);
        let named = "Resource\n  "@ + resource_of(results[i]) + "\n"@;
        lemma_matrix_line(results, results.len(), i);
        lemma_itself(entry);
        if i == 0 || resource_of(results[i - 1]) != resource_of(results[i]) {
            lemma_deeper(lines, named + entry, entry);
        }
    }
    if 0 <= i < report.notes.len() {
        lemma_indented(report.notes, "Note: "@, i);
    }
}

proof fn lemma_indented(list: Seq<Seq<char>>, indent: Seq<char>, i: int)
    requires
        0 <= i < list.len(),
    ensures
        occurs_in(indented(list, indent), indent + list[i] + "\n"@),
    decreases list.len(),
{
    let whole = indented(list, indent);
    let before = indented(list.drop_last(), indent);
    let line = indent + list.last() + "\n"@;
    assert(whole =~= before + line + Seq::empty());
    if i == list.len() - 1 {
        lemma_inside(whole, before, line, Seq::empty());
    } else {
        lemma_indented(list.drop_last(), indent, i);
        assert(whole =~= Seq::empty() + before + line);
        lemma_inside_part(
            whole,
            Seq::empty(),
            before,
            line,
            indent + list.drop_last()[i] + "\n"@,
        );
    }
}

proof fn lemma_full_text_starts(report: ReportView, policies: Seq<Seq<char>>)
    ensures
        begins_with(verbose_text(report, policies), "\nACCESS DENIED"@),
{
    broadcast use lemma_starts_with_front;

    lemma_itself("\nACCESS DENIED"@);
    assert(begins_with(verbose_heading(report.authorization), "\nACCESS DENIED"@));
}

proof fn lemma_short_text_starts(report: ReportView, policies: Seq<Seq<char>>)
    ensures
        report.authorization.len() == 0 ==> begins_with(
            concise_text(report, policies),
            "\nACCESS DENIED\n\n"@ + error_line(report.error) + "Exact denial reason unknown.\n"@,
        ),
        report.authorization.len() > 0 ==> begins_with(
            concise_text(report, policies),
            "\nDENIED"@,
        ),
{
    broadcast use lemma_starts_with_front;

    if report.authorization.len() == 0 {
        lemma_itself(
            "\nACCESS DENIED\n\n"@ + error_line(report.error) + "Exact denial reason unknown.\n"@,
        );
    } else {
        lemma_itself("\nDENIED"@);
        lemma_several_denied();
        assert(begins_with(denial_heading(report.authorization), "\nDENIED"@));
    }
}

proof fn lemma_several_denied()
    ensures
        begins_with("\nDENIED: "@, "\nDENIED"@),
{
    reveal_strlit("\nDENIED");
    reveal_strlit("\nDENIED: ");
    assert("\nDENIED: "@.subrange(0, 7) =~= "\nDENIED"@);
}

/// The text of a report goes by the kind of the failure: a denial is told as one, and
/// of every other failure it is said that it is no evidence of a missing permission, or
/// what to do before one is looked for.
pub proof fn law_texts_go_by_the_kind(
    report: ReportView,
    verbose: bool,
    policies: Seq<Seq<char>>,
    expired: bool,
)
    ensures
        ({
            let text = human_text(report, verbose, policies, expired);
            let error = match report.error {
                Some(item) => item.code + ": "@ + item.message + "\n\n"@,
                None => Seq::empty(),
            };
            match report.failure_kind {
                FailureKind::Authorization => if verbose {
                    begins_with(text, "\nACCESS DENIED"@)
                } else if report.authorization.len() == 0 {
                    begins_with(text, "\nACCESS DENIED\n\n"@ + error + "Exact denial reason unknown.\n"@)
                } else {
                    begins_with(text, "\nDENIED"@)
                },
                FailureKind::Authentication => text == "\nAUTHENTICATION FAILURE\n\n"@ + (if expired {
                    "Your AWS session expired.\n\n"@
                } else {
                    error
                }) + "This is not evidence that an IAM permission is missing.\n"@,
                FailureKind::Configuration => text == "\n"@ + "AWS CONFIGURATION FAILURE"@
                    + "\n\n"@ + error
                    + "Fix the local AWS CLI configuration before investigating IAM."@ + "\n"@,
                FailureKind::Network => text == "\n"@ + "AWS NETWORK FAILURE"@ + "\n\n"@ + error
                    + "The request did not produce evidence of an IAM denial."@ + "\n"@,
                FailureKind::ResourceNotFound => text == "\n"@ + "AWS RESOURCE NOT FOUND"@
                    + "\n\n"@ + error
                    + "This is not evidence that an IAM permission is missing."@ + "\n"@,
                FailureKind::Other => text == "\n"@ + "COMMAND FAILED"@ + "\n\n"@ + error
                    + "aws-why found no reliable evidence of an IAM denial."@ + "\n"@,
            }
        }),
{
    if report.failure_kind == FailureKind::Authorization {
        if verbose {
            lemma_full_text_starts(report, policies);
        } else {
            lemma_short_text_starts(report, policies);
        }
    }
}

/// The session counts as expired just where the code of the error or its message says
/// so.
pub proof fn law_expiry_is_told_by_the_error(error: Option<ErrorView>)
    ensures
        match error {
            Some(item) => has_expired(error) <==> occurs_in(item.code, "Expired"@) || occurs_in(
                lower_case(item.message),
                "expired"@,
            ),
            None => !has_expired(error),
        },
{
}

/// Sources of evidence, confidence and the outcome of a validation have their words.
pub proof fn law_evidence_is_named(detail: Seq<char>, kinds: Seq<Seq<char>>)
    ensures
        source_words(EvidenceSource::RequestAuthorizationDetails)
            == "AWS request authorization details"@,
        source_words(EvidenceSource::DecodedAuthorizationMessage)
            == "AWS decoded authorization message"@,
        source_words(EvidenceSource::AwsError) == "AWS error response"@,
        source_words(EvidenceSource::PolicySimulation) == "IAM policy simulation"@,
        source_words(EvidenceSource::NoEvidence) == "no authorization evidence"@,
        confidence_words(Confidence::Verified) == "verified"@,
        confidence_words(Confidence::Reported) == "reported by AWS"@,
        confidence_words(Confidence::Simulated) == "simulated"@,
        confidence_words(Confidence::Incomplete) == "incomplete"@,
        validation_text(
            Some(
                ValidationView {
                    status: PolicyValidationStatus::Valid,
                    detail,
                    resource_types: kinds,
                },
            ),
        ) == "Policy resource check\n  "@ + "verified"@ + ": "@ + detail + "\n\n"@,
        validation_text(
            Some(
                ValidationView {
                    status: PolicyValidationStatus::Invalid,
                    detail,
                    resource_types: kinds,
                },
            ),
        ) == "Policy resource check\n  "@ + "mismatch"@ + ": "@ + detail + "\n\n"@,
        validation_text(
            Some(
                ValidationView {
                    status: PolicyValidationStatus::Unavailable,
                    detail,
                    resource_types: kinds,
                },
            ),
        ) == "Policy resource check\n  "@ + "not verified"@ + ": "@ + detail + "\n\n"@,
        validation_text(None).len() == 0,
{
}

/// The advice on a result is the first that is for its action and its resource.
pub proof fn law_advice_is_found_by_request(
    remediations: Seq<RemediationView>,
    action: Option<Seq<char>>,
    resource: Option<Seq<char>>,
    from: int,
)
    requires
        0 <= from <= remediations.len(),
    ensures
        ({
            let at = remediation_at(remediations, action, resource, from);
            &&& from <= at <= remediations.len()
            &&& at < remediations.len() ==> remediations[at].action == action
                && remediations[at].resource == resource
            &&& forall|k: int|
                from <= k < at ==> (#[trigger] remediations[k]).action != action
                    || remediations[k].resource != resource
        }),
    decreases remediations.len() - from,
{
    if from < remediations.len() && !(remediations[from].action == action
        && remediations[from].resource == resource) {
        law_advice_is_found_by_request(remediations, action, resource, from + 1);
    }
}

/// The text on a cause names it under its heading, and the policy where one is known;
/// without a cause there is none.
pub proof fn law_causes_are_told_in_words(heading: Seq<char>, result: AuthorizationView)
    ensures
        result.cause is None ==> cause_text(heading, result).len() == 0,
        result.cause matches Some(cause) ==> begins_with(
            cause_text(heading, result),
            heading + "\n  "@ + cause_label(cause) + "\n"@,
        ) && (result.policy matches Some(policy) ==> occurs_in(
            cause_text(heading, result),
            "  policy: "@ + policy + "\n"@,
        )),
{
    if let Some(cause) = result.cause {
        let front = heading + "\n  "@ + cause_label(cause) + "\n"@;
        let policy = part("  policy: "@, result.policy, "\n"@);
        let text = cause_text(heading, result);
        assert(text =~= front + (policy + "\n"@));
        law_parts_stand_inside(Seq::empty(), front, policy + "\n"@, text);
        assert(text =~= front + policy + "\n"@);
        lemma_inside(text, front, policy, "\n"@);
    }
}

proof fn lemma_caution()
    ensures
        occurs_in(
            "\nCandidate only—administrator review required; other policy layers may still deny the request.\n\n"@,
            "Candidate only—administrator review required; other policy layers may still deny the request."@,
        ),
{
    reveal_strlit(
        "\nCandidate only—administrator review required; other policy layers may still deny the request.\n\n",
    );
    reveal_strlit(
        "Candidate only—administrator review required; other policy layers may still deny the request.",
    );
    let end =
        "\nCandidate only—administrator review required; other policy layers may still deny the request.\n\n"@;
    let words =
        "Candidate only—administrator review required; other policy layers may still deny the request."@;
    assert(end.subrange(1, words.len() + 1int) =~= words);
    assert(occurs_at(end, words, 1));
}

/// The advice on a result hands over the policy where one is offered, with the request
/// and the caller, and tells the next step where none is; what the reference said of
/// the policy follows.
pub proof fn law_advice_is_told(
    report: ReportView,
    policies: Seq<Seq<char>>,
    result: AuthorizationView,
)
    ensures
        ({
            let at = remediation_at(report.remediation, result.action, result.resource, 0);
            let text = advice_text(report, policies, result);
            &&& at == report.remediation.len() ==> text.len() == 0
            &&& 0 <= at < report.remediation.len() ==> {
                let item = report.remediation[at];
                &&& item.candidate_policy is None ==> text == "NEXT STEP\n  "@ + item.guidance
                    + "\n\n"@ + validation_text(item.policy_validation)
                &&& item.candidate_policy is Some ==> {
                    &&& begins_with(text, "ASK YOUR ADMIN FOR\n"@)
                    &&& report.identity matches Some(who) ==> occurs_in(
                        text,
                        "  Principal: "@ + who.principal_arn() + "\n"@,
                    )
                    &&& result.action matches Some(action) ==> (result.resource matches Some(
                        resource,
                    ) ==> occurs_in(text, "  Missing: "@ + action + " on "@ + resource + "\n"@))
                    &&& occurs_in(text, indented(lines_of(policies[at]), "    "@))
                    &&& occurs_in(
                        text,
                        "Candidate only—administrator review required; other policy layers may still deny the request."@,
                    )
                    &&& occurs_in(text, validation_text(item.policy_validation))
                }
            }
        }),
{
    broadcast use {lemma_stands_in_either, lemma_starts_with_front};

    let at = remediation_at(report.remediation, result.action, result.resource, 0);
    law_advice_is_found_by_request(report.remediation, result.action, result.resource, 0);
    if at < report.remediation.len() && report.remediation[at].candidate_policy is Some {
        let item = report.remediation[at];
        let words =
            "Candidate only—administrator review required; other policy layers may still deny the request."@;
        lemma_itself("ASK YOUR ADMIN FOR\n"@);
        lemma_itself(caller_line("  Principal: "@, report.identity));
        if let (Some(action), Some(resource)) = (result.action, result.resource) {
            lemma_itself("  Missing: "@ + action + " on "@ + resource + "\n"@);
        }
        lemma_itself(indented(lines_of(policies[at]), "    "@));
        lemma_itself(validation_text(item.policy_validation));
        lemma_caution();
    }
}

proof fn lemma_concise_result(report: ReportView, policies: Seq<Seq<char>>, count: nat, i: int)
    requires
        0 <= i < count <= report.authorization.len(),
    ensures
        occurs_in(
            concise_results(report, policies, count),
            cause_text("Reason"@, report.authorization[i]) + advice_text(
                report,
                policies,
                report.authorization[i],
            ),
        ),
    decreases count,
{
    let index = count - 1;
    let before = concise_results(report, policies, index as nat);
    let request = request_text(report.authorization, index);
    let cause = cause_text("Reason"@, report.authorization[index]);
    let advice = advice_text(report, policies, report.authorization[index]);
    let whole = concise_results(report, policies, count);
    if i == index {
        assert(whole =~= (before + request) + (cause + advice) + Seq::empty());
        lemma_inside(whole, before + request, cause + advice, Seq::empty());
    } else {
        lemma_concise_result(report, policies, index as nat, i);
        assert(whole =~= Seq::empty() + before + (request + cause + advice));
        lemma_inside_part(
            whole,
            Seq::empty(),
            before,
            request + cause + advice,
            cause_text("Reason"@, report.authorization[i]) + advice_text(
                report,
                policies,
                report.authorization[i],
            ),
        );
    }
}

/// The short text on a denial tells of each result the cause and what to do about it,
/// and every note.
pub proof fn law_short_texts_tell_every_result(
    report: ReportView,
    policies: Seq<Seq<char>>,
    i: int,
)
    ensures
        0 <= i < report.authorization.len() ==> occurs_in(
            concise_text(report, policies),
            cause_text("Reason"@, report.authorization[i]) + advice_text(
                report,
                policies,
                report.authorization[i],
            ),
        ),
        0 <= i < report.notes.len() ==> occurs_in(
            concise_text(report, policies),
            "  "@ + report.notes[i] + "\n"@,
        ),
{
    let text = concise_text(report, policies);
    let notes = section("Important"@, report.notes);
    let front = text.take(text.len() - notes.len());
    if 0 <= i < report.authorization.len() {
        let heading = denial_heading(report.authorization) + principal_text(report);
        let body = concise_results(report, policies, report.authorization.len());
        lemma_concise_result(report, policies, report.authorization.len(), i);
        assert(text == heading + body + notes);
        lemma_inside_part(
            text,
            heading,
            body,
            notes,
            cause_text("Reason"@, report.authorization[i]) + advice_text(
                report,
                policies,
                report.authorization[i],
            ),
        );
    }
    if 0 <= i < report.notes.len() {
        assert(text =~= front + notes + Seq::empty());
        lemma_section("Important"@, report.notes, i);
        lemma_inside_part(
            text,
            front,
            notes,
            Seq::empty(),
            "  "@ + report.notes[i] + "\n"@,
        );
    }
}

proof fn lemma_section(heading: Seq<char>, list: Seq<Seq<char>>, i: int)
    requires
        0 <= i < list.len(),
    ensures
        occurs_in(section(heading, list), "  "@ + list[i] + "\n"@),
{
    lemma_indented(list, "  "@, i);
    lemma_inside_part(
        section(heading, list),
        heading + "\n"@,
        indented(list, "  "@),
        "\n"@,
        "  "@ + list[i] + "\n"@,
    );
}

proof fn lemma_verbose_result(results: Seq<AuthorizationView>, count: nat, i: int)
    requires
        0 <= i < count <= results.len(),
    ensures
        occurs_in(
            verbose_results(results, count),
            cause_text("Cause"@, results[i]) + section(
                "Could not verify runtime context"@,
                results[i].missing_context,
            ) + evidence_text(results[i]),
        ),
    decreases count,
{
    let index = count - 1;
    let before = verbose_results(results, index as nat);
    let check = check_text(results, index);
    let told = cause_text("Cause"@, results[index]) + section(
        "Could not verify runtime context"@,
        results[index].missing_context,
    ) + evidence_text(results[index]);
    let whole = verbose_results(results, count);
    if i == index {
        assert(whole =~= (before + check) + told + Seq::empty());
        lemma_inside(whole, before + check, told, Seq::empty());
    } else {
        lemma_verbose_result(results, index as nat, i);
        assert(whole =~= Seq::empty() + before + (check + told));
        lemma_inside_part(
            whole,
            Seq::empty(),
            before,
            check + told,
            cause_text("Cause"@, results[i]) + section(
                "Could not verify runtime context"@,
                results[i].missing_context,
            ) + evidence_text(results[i]),
        );
    }
}

proof fn lemma_full_text(report: ReportView, policies: Seq<Seq<char>>, i: int)
    ensures
        0 <= i < report.authorization.len() ==> occurs_in(
            verbose_text(report, policies),
            cause_text("Cause"@, report.authorization[i]) + section(
                "Could not verify runtime context"@,
                report.authorization[i].missing_context,
            ) + evidence_text(report.authorization[i]),
        ),
        0 <= i < report.notes.len() ==> occurs_in(
            verbose_text(report, policies),
            "  "@ + report.notes[i] + "\n"@,
        ),
        report.credential_source matches Some(source) ==> occurs_in(
            verbose_text(report, policies),
            "Credential source\n  "@ + source + "\n\n"@,
        ),
        report.identity matches Some(who) ==> occurs_in(
            verbose_text(report, policies),
            identity_text(who),
        ),
        is_incomplete(report.authorization) ==> exists|front: Seq<char>| verbose_text(
            report,
            policies,
        ) == #[trigger] (front + "aws-why could not obtain complete AWS authorization details.\n"@),
{
    broadcast use lemma_stands_in_either;

    let results = report.authorization;
    if 0 <= i < results.len() {
        lemma_verbose_result(results, results.len(), i);
    }
    if 0 <= i < report.notes.len() {
        lemma_section("Notes"@, report.notes, i);
    }
    lemma_itself(part("Credential source\n  "@, report.credential_source, "\n\n"@));
    if let Some(who) = report.identity {
        lemma_itself(identity_text(who));
    }
    let caution = "aws-why could not obtain complete AWS authorization details.\n"@;
    let told = verbose_heading(results) + (match report.identity {
        Some(who) => identity_text(who) + "\n"@,
        None => Seq::empty(),
    }) + verbose_results(results, results.len()) + (if results.len() == 0 {
        (if report.error is Some {
            "AWS error\n  "@ + error_line(report.error)
        } else {
            ""@
        }) + "RESULT\n  Exact denial reason unknown.\n\n"@
    } else {
        ""@
    }) + part("Credential source\n  "@, report.credential_source, "\n\n"@) + verbose_advice(
        report,
        policies,
        report.remediation.len(),
    ) + section("Notes"@, report.notes);
    if is_incomplete(results) {
        assert(verbose_text(report, policies) == told + caution);
    }
}

/// The full text on a denial tells of each result the cause, the context that is
/// missing and the evidence with its confidence; where credentials came from; and every
/// note. It ends with a word of caution just where the cause of some result is open or
/// there is none.
pub proof fn law_full_texts_tell_every_result(
    report: ReportView,
    policies: Seq<Seq<char>>,
    i: int,
)
    ensures
        ({
            let text = verbose_text(report, policies);
            let results = report.authorization;
            let caution = "aws-why could not obtain complete AWS authorization details.\n"@;
            let open = results.len() == 0 || exists|k: int|
                0 <= k < results.len() && ((#[trigger] results[k]).confidence
                    == Confidence::Incomplete || results[k].cause is None || results[k].cause
                    == Some(DenyCause::Unknown));
            &&& 0 <= i < results.len() ==> occurs_in(
                text,
                cause_text("Cause"@, results[i]) + section(
                    "Could not verify runtime context"@,
                    results[i].missing_context,
                ) + evidence_text(results[i]),
            )
            &&& 0 <= i < report.notes.len() ==> occurs_in(text, "  "@ + report.notes[i] + "\n"@)
            &&& report.credential_source matches Some(source) ==> occurs_in(
                text,
                "Credential source\n  "@ + source + "\n\n"@,
            )
            &&& report.identity matches Some(who) ==> occurs_in(text, identity_text(who))
            &&& open ==> exists|front: Seq<char>| text == #[trigger] (front + caution)
            &&& is_incomplete(results) == open
        }),
{
    let text = verbose_text(report, policies);
    let results = report.authorization;
    let open = results.len() == 0 || exists|k: int|
        0 <= k < results.len() && ((#[trigger] results[k]).confidence == Confidence::Incomplete
            || results[k].cause is None || results[k].cause == Some(DenyCause::Unknown));
    if open && results.len() > 0 {
        let k = choose|k: int|
            0 <= k < results.len() && ((#[trigger] results[k]).confidence == Confidence::Incomplete
                || results[k].cause is None || results[k].cause == Some(DenyCause::Unknown));
        assert(leaves_open(results[k]));
    }
    if is_incomplete(results) && results.len() > 0 {
        let k = choose|k: int| 0 <= k < results.len() && leaves_open(#[trigger] results[k]);
        assert(results[k].confidence == Confidence::Incomplete || results[k].cause is None
            || results[k].cause == Some(DenyCause::Unknown));
    }
    lemma_full_text(report, policies, i);
}

/// What is said of the evidence for a result names its source and its confidence. That a
/// simulation was not needed is said just where the error itself names the cause, and
/// that a result which allows the request settles nothing just where it does.
pub proof fn law_evidence_is_told(result: AuthorizationView)
    ensures
        ({
            let front = "Evidence\n  "@ + source_words(result.evidence_source) + " ("@
                + confidence_words(result.confidence) + ")\n\n"@;
            let named = result.evidence_source == EvidenceSource::AwsError && result.confidence
                == Confidence::Reported && result.cause is Some && result.cause != Some(
                DenyCause::Unknown,
            );
            let identified =
                "AWS already identified this cause; IAM simulation was not required.\n\n"@;
            let allowed =
                "SIMULATION ALLOWS THIS REQUEST\nBut the live request failed and could not be fully reproduced.\nResult: INCOMPLETE\n\n"@;
            let text = evidence_text(result);
            &&& named && result.decision == Decision::Allowed ==> text == front + identified
                + allowed
            &&& named && result.decision != Decision::Allowed ==> text == front + identified
            &&& !named && result.decision == Decision::Allowed ==> text == front + allowed
            &&& !named && result.decision != Decision::Allowed ==> text == front
        }),
{
    reveal_strlit("");
    let text = evidence_text(result);
    let front = "Evidence\n  "@ + source_words(result.evidence_source) + " ("@ + confidence_words(
        result.confidence,
    ) + ")\n\n"@;
    let identified = "AWS already identified this cause; IAM simulation was not required.\n\n"@;
    let allowed =
        "SIMULATION ALLOWS THIS REQUEST\nBut the live request failed and could not be fully reproduced.\nResult: INCOMPLETE\n\n"@;
    assert(front + identified + ""@ =~= front + identified);
    assert(front + ""@ + allowed =~= front + allowed);
    assert(front + ""@ + ""@ =~= front);
}

/// A single denial is headed by its action and its resource, several by their number.
/// Who was denied is told where no policy is offered: a role by its own ARN, a session
/// by that of its role, and anyone else by theirs.
pub proof fn law_denials_are_headed(report: ReportView)
    ensures
        report.authorization.len() == 1 ==> (report.authorization[0].action matches Some(action)
            ==> (report.authorization[0].resource matches Some(resource) ==> denial_heading(
            report.authorization,
        ) == "\nDENIED"@ + (": "@ + action + ""@) + (" on "@ + resource + ""@) + "\n\n"@)),
        report.authorization.len() != 1 ==> denial_heading(report.authorization) == "\nDENIED: "@
            + decimal(report.authorization.len()) + " authorization checks\n\n"@,
        (exists|k: int|
            0 <= k < report.remediation.len() && (#[trigger] report.remediation[k]).candidate_policy
                is Some) || report.identity is None ==> principal_text(report).len() == 0,
        (forall|k: int|
            0 <= k < report.remediation.len() ==> (#[trigger] report.remediation[k]).candidate_policy
                is None) ==> (report.identity matches Some(who) ==> principal_text(report) == (
        match who.principal_type {
            PrincipalType::AssumedRole => "Role"@ + "\n  "@ + who.principal_arn() + "\n\n"@,
            PrincipalType::Role => "Role"@ + "\n  "@ + who.principal_arn() + "\n\n"@,
            PrincipalType::User => "User"@ + "\n  "@ + who.arn + "\n\n"@,
            _ => "Principal"@ + "\n  "@ + who.arn + "\n\n"@,
        })),
{
}

/// An identity is told by its account and its name, and a session by its own.
pub proof fn law_identities_are_told(identity: IdentityView)
    ensures
        ({
            let front = "Identity\n  account: "@ + identity.account_id + "\n  principal: "@
                + identity.display_name() + "\n"@;
            &&& identity.session_name is None ==> identity_text(identity) == front
            &&& identity.session_name matches Some(session) ==> identity_text(identity) == front + (
            "  session: "@ + session + "\n"@)
        }),
{
    let front = "Identity\n  account: "@ + identity.account_id + "\n  principal: "@
        + identity.display_name() + "\n"@;
    assert(front + Seq::<char>::empty() =~= front);
}

/// Where there are several results each is told with its number, its action and its
/// resource, and a single one needs none of that.
pub proof fn law_several_results_are_numbered(results: Seq<AuthorizationView>, i: int)
    requires
        0 <= i < results.len(),
    ensures
        results.len() == 1 ==> request_text(results, i).len() == 0 && check_text(results, i).len()
            == 0,
        results.len() > 1 ==> ({
            let action = match results[i].action {
                Some(name) => name,
                None => "unknown"@,
            };
            let resource = match results[i].resource {
                Some(name) => name,
                None => "not reported by AWS"@,
            };
            &&& request_text(results, i) == "Request "@ + decimal((i + 1) as nat) + "\n  action: "@
                + action + "\n  resource: "@ + resource + "\n\n"@
            &&& begins_with(
                check_text(results, i),
                "Authorization check "@ + decimal((i + 1) as nat) + "\n"@,
            )
            &&& results[i].action matches Some(name) ==> occurs_in(
                check_text(results, i),
                "  action: "@ + name + "\n"@,
            )
            &&& results[i].resource matches Some(name) ==> occurs_in(
                check_text(results, i),
                "  resource: "@ + name + "\n"@,
            )
        }),
{
    broadcast use {lemma_stands_in_either, lemma_starts_with_front};

    lemma_itself("Authorization check "@ + decimal((i + 1) as nat) + "\n"@);
    lemma_itself(part("  action: "@, results[i].action, "\n"@));
    lemma_itself(part("  resource: "@, results[i].resource, "\n"@));
}

proof fn lemma_request(report: ReportView, policies: Seq<Seq<char>>, count: nat, i: int)
    requires
        0 <= i < count <= report.authorization.len(),
    ensures
        occurs_in(
            concise_results(report, policies, count),
            request_text(report.authorization, i),
        ),
        occurs_in(
            verbose_results(report.authorization, count),
            check_text(report.authorization, i),
        ),
    decreases count,
{
    broadcast use lemma_stands_in_either;

    if i < count - 1 {
        lemma_request(report, policies, (count - 1) as nat, i);
    } else {
        lemma_itself(request_text(report.authorization, i));
        lemma_itself(check_text(report.authorization, i));
    }
}

/// The number of each of several results stands in the text on a denial, and so does,
/// where there is no result, that the exact reason is unknown, behind what AWS said.
pub proof fn law_denials_are_told_in_full(report: ReportView, policies: Seq<Seq<char>>, i: int)
    ensures
        0 <= i < report.authorization.len() ==> occurs_in(
            concise_text(report, policies),
            request_text(report.authorization, i),
        ) && occurs_in(verbose_text(report, policies), check_text(report.authorization, i)),
        report.authorization.len() == 0 ==> occurs_in(
            verbose_text(report, policies),
            "RESULT\n  Exact denial reason unknown.\n\n"@,
        ) && (report.error matches Some(error) ==> occurs_in(
            verbose_text(report, policies),
            error.code + ": "@ + error.message + "\n\n"@,
        )),
        report.authorization.len() > 0 ==> occurs_in(
            concise_text(report, policies),
            principal_text(report),
        ),
{
    broadcast use lemma_stands_in_either;

    if 0 <= i < report.authorization.len() {
        lemma_request(report, policies, report.authorization.len(), i);
    }
    lemma_itself("RESULT\n  Exact denial reason unknown.\n\n"@);
    lemma_itself(error_line(report.error));
    lemma_itself(principal_text(report));
}

/// An administrator is told of a request by its action and its resource, and of the
/// caller by the user or role whose policies apply.
pub proof fn law_handoffs_name_the_request(
    identity: Option<IdentityView>,
    remediation: RemediationView,
)
    ensures
        remediation.action is None ==> request_handoff(identity, remediation).len() == 0,
        remediation.action matches Some(action) ==> {
            let caller = match identity {
                Some(who) => "  principal: "@ + who.principal_arn() + "\n"@,
                None => Seq::empty(),
            };
            let resource = match remediation.resource {
                Some(name) => name,
                None => "not reported by AWS"@,
            };
            request_handoff(identity, remediation) == "Administrator handoff\n"@ + caller
                + "  action: "@ + action + "\n  resource: "@ + resource + "\n\n"@
        },
{
}

proof fn lemma_verbose_advice(report: ReportView, policies: Seq<Seq<char>>, count: nat, i: int)
    requires
        0 <= i < count <= report.remediation.len(),
    ensures
        ({
            let text = verbose_advice(report, policies, count);
            let item = report.remediation[i];
            &&& occurs_in(text, "What to do next\n  "@ + item.guidance + "\n\n"@)
            &&& occurs_in(text, request_handoff(report.identity, item))
            &&& occurs_in(text, validation_text(item.policy_validation))
            &&& item.candidate_policy is Some ==> occurs_in(
                text,
                "Candidate policy (administrator review required)\n"@ + indented(
                    lines_of(policies[i]),
                    "  "@,
                ),
            )
        }),
    decreases count,
{
    broadcast use lemma_stands_in_either;

    if i < count - 1 {
        lemma_verbose_advice(report, policies, (count - 1) as nat, i);
    } else {
        let item = report.remediation[i];
        let before = verbose_advice(report, policies, (count - 1) as nat);
        lemma_grouped(before, "What to do next\n  "@, item.guidance);
        lemma_grouped(before, "What to do next\n  "@ + item.guidance, "\n\n"@);
        lemma_itself("What to do next\n  "@ + item.guidance + "\n\n"@);
        lemma_itself(request_handoff(report.identity, item));
        lemma_itself(validation_text(item.policy_validation));
        lemma_itself(
            "Candidate policy (administrator review required)\n"@ + indented(
                lines_of(policies[i]),
                "  "@,
            ),
        );
    }
}

/// The full text on a denial tells each advice: what to do, the request, the policy
/// where one is offered, and what the reference said of it.
pub proof fn law_full_texts_tell_every_advice(
    report: ReportView,
    policies: Seq<Seq<char>>,
    i: int,
)
    requires
        0 <= i < report.remediation.len(),
    ensures
        ({
            let text = verbose_text(report, policies);
            let item = report.remediation[i];
            &&& occurs_in(text, "What to do next\n  "@ + item.guidance + "\n\n"@)
            &&& occurs_in(text, request_handoff(report.identity, item))
            &&& occurs_in(text, validation_text(item.policy_validation))
            &&& item.candidate_policy is Some ==> occurs_in(
                text,
                "Candidate policy (administrator review required)\n"@ + indented(
                    lines_of(policies[i]),
                    "  "@,
                ),
            )
        }),
{
    broadcast use lemma_stands_in_either;

    lemma_verbose_advice(report, policies, report.remediation.len(), i);
}

/// Each text of a list stands on a line of its own behind the indent, in the order of
/// the list.
pub proof fn law_lists_are_indented(
    first: Seq<Seq<char>>,
    second: Seq<Seq<char>>,
    one: Seq<char>,
    indent: Seq<char>,
)
    ensures
        indented(first + second, indent) == indented(first, indent) + indented(second, indent),
        indented(seq![one], indent) == indent + one + "\n"@,
    decreases second.len(),
{
    reveal_with_fuel(indented, 2);
    assert(seq![one].drop_last() =~= Seq::<Seq<char>>::empty());
    assert(indented(seq![one], indent) =~= indent + one + "\n"@);
    if second.len() == 0 {
        assert(first + second =~= first);
        assert(indented(first, indent) + indented(second, indent) =~= indented(first, indent));
    } else {
        let shorter = second.drop_last();
        assert((first + second).drop_last() =~= first + shorter);
        law_lists_are_indented(first, shorter, one, indent);
        let (front, middle) = (indented(first, indent), indented(shorter, indent));
        lemma_grouped(front, middle, indent);
        lemma_grouped(front, middle + indent, second.last());
        lemma_grouped(front, middle + indent + second.last(), "\n"@);
    }
}

/// A heading stands over a list that is not empty, and a blank line behind it. A result
/// without a resource is one on all of them.
pub proof fn law_lists_have_headings(
    heading: Seq<char>,
    list: Seq<Seq<char>>,
    result: AuthorizationView,
)
    ensures
        list.len() == 0 ==> section(heading, list).len() == 0,
        list.len() > 0 ==> section(heading, list) == heading + "\n"@ + indented(list, "  "@)
            + "\n"@,
        result.resource matches Some(resource) ==> resource_of(result) == resource,
        result.resource is None ==> resource_of(result) == "*"@,
{
}

} // verus!
