use aws_why::model::{
    AnalysisReport, AuthorizationResult, AwsIdentity, Confidence, Decision, DenyCause,
    EvidenceSource, ErrorSummary, FailureKind, PermissionReport, PolicyValidation,
    PolicyValidationStatus,
};
use aws_why::output::{
    confidence_label, human_report, source_label, write_human, write_permission_human,
};

fn result(action: Option<&str>, cause: Option<DenyCause>) -> AuthorizationResult {
    AuthorizationResult {
        action: action.map(str::to_owned),
        resource: None,
        decision: Decision::ImplicitDeny,
        cause,
        policy: None,
        evidence_source: EvidenceSource::AwsError,
        confidence: Confidence::Reported,
        missing_context: Vec::new(),
    }
}

fn report(kind: FailureKind, results: Vec<AuthorizationResult>) -> AnalysisReport {
    let mut report = AnalysisReport::from_parts(1, kind, None, None, results, Vec::new(), None);
    report.error = Some(ErrorSummary {
        code: "Code".to_owned(),
        message: "what happened".to_owned(),
        request_id: None,
    });
    report
}

fn show(report: &AnalysisReport, verbose: bool) -> String {
    let policies = vec!["{\n}".to_owned(); report.remediation.len()];
    write_human(report, verbose, &policies)
}

#[test]
fn other_failures_have_short_texts() {
    let texts = [
        (
            FailureKind::Configuration,
            "\nAWS CONFIGURATION FAILURE\n\nCode: what happened\n\nFix the local AWS CLI configuration before investigating IAM.\n",
        ),
        (
            FailureKind::Network,
            "\nAWS NETWORK FAILURE\n\nCode: what happened\n\nThe request did not produce evidence of an IAM denial.\n",
        ),
        (
            FailureKind::ResourceNotFound,
            "\nAWS RESOURCE NOT FOUND\n\nCode: what happened\n\nThis is not evidence that an IAM permission is missing.\n",
        ),
        (
            FailureKind::Other,
            "\nCOMMAND FAILED\n\nCode: what happened\n\naws-why found no reliable evidence of an IAM denial.\n",
        ),
        (
            FailureKind::Authentication,
            "\nAUTHENTICATION FAILURE\n\nCode: what happened\n\nThis is not evidence that an IAM permission is missing.\n",
        ),
    ];
    for (kind, text) in texts {
        assert_eq!(show(&report(kind, Vec::new()), false), text);
    }
    let mut silent = report(FailureKind::Other, Vec::new());
    silent.error = None;
    assert_eq!(
        show(&silent, true),
        "\nCOMMAND FAILED\n\naws-why found no reliable evidence of an IAM denial.\n"
    );
}

#[test]
fn expiry_is_read_from_code_and_message() {
    let mut item = report(FailureKind::Authentication, Vec::new());
    let expired =
        "\nAUTHENTICATION FAILURE\n\nYour AWS session expired.\n\nThis is not evidence that an IAM permission is missing.\n";
    assert_eq!(human_report(&item, false, &Vec::new(), true), expired);
    item.error.as_mut().unwrap().message = "it has EXPIRED".to_owned();
    assert_eq!(show(&item, false), expired);
    item.error.as_mut().unwrap().message = "no".to_owned();
    item.error.as_mut().unwrap().code = "ExpiredToken".to_owned();
    assert_eq!(show(&item, false), expired);
}

#[test]
fn denials_without_evidence_say_so() {
    let mut item = report(FailureKind::Authorization, Vec::new());
    item.notes = vec!["one".to_owned(), "two".to_owned()];
    assert_eq!(
        show(&item, false),
        "\nACCESS DENIED\n\nCode: what happened\n\nExact denial reason unknown.\nImportant\n  one\n  two\n\n"
    );
    assert_eq!(
        show(&item, true),
        "\nACCESS DENIED\n\nAWS error\n  Code: what happened\n\nRESULT\n  Exact denial reason unknown.\n\nNotes\n  one\n  two\n\naws-why could not obtain complete AWS authorization details.\n"
    );
}

#[test]
fn several_results_are_numbered() {
    let item = report(
        FailureKind::Authorization,
        vec![
            result(Some("a:B"), Some(DenyCause::Condition)),
            result(None, None),
        ],
    );
    assert_eq!(
        show(&item, false),
        "\nDENIED: 2 authorization checks\n\nRequest 1\n  action: a:B\n  resource: not reported by AWS\n\nReason\n  a policy condition was not satisfied\n\nNEXT STEP\n  Review the policy conditions and the request context reported by AWS before changing permissions.\n\nRequest 2\n  action: unknown\n  resource: not reported by AWS\n\n"
    );
    assert_eq!(
        show(&item, true),
        "\nACCESS DENIED\n\nAuthorization check 1\n  action: a:B\n\nCause\n  a policy condition was not satisfied\n\nEvidence\n  AWS error response (reported by AWS)\n\nAWS already identified this cause; IAM simulation was not required.\n\nAuthorization check 2\n\nEvidence\n  AWS error response (reported by AWS)\n\nWhat to do next\n  Review the policy conditions and the request context reported by AWS before changing permissions.\n\nAdministrator handoff\n  action: a:B\n  resource: not reported by AWS\n\naws-why could not obtain complete AWS authorization details.\n"
    );
}

#[test]
fn simulations_that_allow_are_incomplete() {
    let mut allowed = result(Some("a:B"), None);
    allowed.decision = Decision::Allowed;
    allowed.evidence_source = EvidenceSource::PolicySimulation;
    allowed.confidence = Confidence::Simulated;
    allowed.policy = Some("ReadPolicy".to_owned());
    allowed.missing_context = vec!["aws:SourceIp".to_owned()];
    assert_eq!(
        show(&report(FailureKind::Authorization, vec![allowed]), true),
        "\nACCESS DENIED: a:B\n\nCould not verify runtime context\n  aws:SourceIp\n\nEvidence\n  IAM policy simulation (simulated)\n\nSIMULATION ALLOWS THIS REQUEST\nBut the live request failed and could not be fully reproduced.\nResult: INCOMPLETE\n\naws-why could not obtain complete AWS authorization details.\n"
    );
}

#[test]
fn validations_are_shown_with_their_candidate() {
    let mut missing = result(Some("a:B"), Some(DenyCause::MissingIdentityAllow));
    missing.resource = Some("*".to_owned());
    missing.policy = Some("P".to_owned());
    let mut item = report(FailureKind::Authorization, vec![missing]);
    item.set_policy_validation(
        "a:B",
        "*",
        &PolicyValidation {
            status: PolicyValidationStatus::Unavailable,
            detail: "no route".to_owned(),
            resource_types: Vec::new(),
        },
    );
    assert_eq!(
        show(&item, false),
        "\nDENIED: a:B on *\n\nReason\n  no identity-based policy allows the action\n  policy: P\n\nASK YOUR ADMIN FOR\n  Missing: a:B on *\n\n  Candidate policy (administrator review required):\n    {\n    }\n\nCandidate only—administrator review required; other policy layers may still deny the request.\n\nPolicy resource check\n  not verified: no route\n\n"
    );
    assert_eq!(
        show(&item, true),
        "\nACCESS DENIED: a:B on *\n\nCause\n  no identity-based policy allows the action\n  policy: P\n\nEvidence\n  AWS error response (reported by AWS)\n\nAWS already identified this cause; IAM simulation was not required.\n\nWhat to do next\n  If this access is expected, ask an administrator to add an identity-policy Allow for the reported action and resource.\n\nAdministrator handoff\n  action: a:B\n  resource: *\n\nCandidate policy (administrator review required)\n  {\n  }\n  This addresses the reported denial only; another policy layer may still block the request.\n\nPolicy resource check\n  not verified: no route\n\n"
    );
}

#[test]
fn principals_are_shown_by_their_kind() {
    let shown = |arn: &str| {
        let mut item = report(
            FailureKind::Authorization,
            vec![result(Some("a:B"), None)],
        );
        item.identity = AwsIdentity::from_arn(arn);
        show(&item, false)
    };
    assert_eq!(
        shown("arn:aws:sts::123456789012:assumed-role/Dev/me"),
        "\nDENIED: a:B\n\nRole\n  arn:aws:iam::123456789012:role/Dev\n\n"
    );
    assert_eq!(
        shown("arn:aws:iam::123456789012:user/alice"),
        "\nDENIED: a:B\n\nUser\n  arn:aws:iam::123456789012:user/alice\n\n"
    );
    assert_eq!(
        shown("arn:aws:iam::123456789012:root"),
        "\nDENIED: a:B\n\nPrincipal\n  arn:aws:iam::123456789012:root\n\n"
    );
}

#[test]
fn matrices_group_by_resource_and_count() {
    let entry = |resource: &str, decision: Decision, cause: Option<DenyCause>| {
        let mut item = result(Some("a:B"), cause);
        item.resource = Some(resource.to_owned());
        item.decision = decision;
        item
    };
    let mut open = result(None, None);
    open.decision = Decision::Unknown;
    open.missing_context = vec!["k1".to_owned(), "k2".to_owned()];
    let text = write_permission_human(&PermissionReport::new(
        AwsIdentity::from_arn("arn:aws:iam::123456789012:user/alice").unwrap(),
        "arn:aws:iam::123456789012:user/alice".to_owned(),
        None,
        vec![
            entry("r1", Decision::Allowed, None),
            entry("r1", Decision::ExplicitDeny, Some(DenyCause::PermissionsBoundary)),
            entry("r2", Decision::ImplicitDeny, None),
            open,
        ],
        Vec::new(),
    ));
    assert_eq!(
        text,
        "SIMULATED PERMISSIONS\n\nIdentity\n  account: 123456789012\n  principal: alice\n  policy source: arn:aws:iam::123456789012:user/alice\n\nResource\n  r1\n  + ALLOWED  a:B\n  - DENIED   a:B — a permissions boundary blocks the action\nResource\n  r2\n  - DENIED   a:B\nResource\n  *\n  ? UNKNOWN  unknown:Unknown\n              missing context: k1, k2\n\nSummary: 1 allowed, 2 denied, 1 unknown\nSimulation only: this does not execute the actions or prove a live request will succeed.\n"
    );
}

#[test]
fn labels_are_words() {
    assert_eq!(
        source_label(&EvidenceSource::RequestAuthorizationDetails),
        "AWS request authorization details"
    );
    assert_eq!(
        source_label(&EvidenceSource::NoEvidence),
        "no authorization evidence"
    );
    assert_eq!(confidence_label(&Confidence::Verified), "verified");
    assert_eq!(confidence_label(&Confidence::Incomplete), "incomplete");
}

#[test]
fn texts_for_people_hold_no_controls() {
    let dirty = "x\x1b[2J\x07".to_owned();
    let mut who = AwsIdentity::from_arn("arn:aws:sts::1:assumed-role/D\x1bv/m\x07e").unwrap();
    who.account_id = dirty.clone();
    let mut item = result(Some("a:\x1bB"), Some(DenyCause::MissingIdentityAllow));
    item.resource = Some(dirty.clone());
    item.policy = Some(dirty.clone());
    item.missing_context = vec![dirty.clone()];
    let clean = |text: &str| text.chars().all(|c| c == '\n' || c == '\t' || !c.is_control());
    let analysis = AnalysisReport::from_parts(
        1,
        FailureKind::Authorization,
        Some(who.clone()),
        None,
        vec![item.clone()],
        vec![dirty.clone()],
        Some(dirty.clone()),
    );
    for verbose in [false, true] {
        let text = show(&analysis, verbose);
        assert!(text.contains('\u{fffd}'));
        assert!(clean(&text));
    }
    let text = write_permission_human(&PermissionReport::new(
        who,
        dirty.clone(),
        None,
        vec![item],
        vec![dirty],
    ));
    assert!(text.contains('\u{fffd}'));
    assert!(clean(&text));
}

#[test]
fn kinds_of_failure_have_words_of_their_own() {
    let kinds = [
        (FailureKind::Authorization, "denied"),
        (FailureKind::Authentication, "authentication_failure"),
        (FailureKind::Configuration, "configuration_failure"),
        (FailureKind::Network, "network_failure"),
        (FailureKind::ResourceNotFound, "not_found"),
        (FailureKind::Other, "failed"),
    ];
    for (kind, word) in kinds {
        assert_eq!(report(kind, Vec::new()).result, word);
    }
}
