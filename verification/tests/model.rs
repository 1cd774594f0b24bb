use aws_why::analysis::{next_reference, validate_candidate_policies};
use aws_why::model::{
    remediation_for, AnalysisReport, AuthorizationResult, AwsIdentity, Confidence, Decision,
    DenyCause, EvidenceSource, FailureKind, PermissionReport, PolicyValidation,
    PolicyValidationStatus, PrincipalType,
};
use aws_why::permissions::{
    ActionResource, ResourceValidator, ServiceAction, ServiceReference, ServiceResource,
};
use aws_why::redaction::{mask_controls, redact_encoded_messages, sanitize_generated_text};

fn denied(cause: DenyCause, action: Option<&str>, resource: Option<&str>) -> AuthorizationResult {
    AuthorizationResult {
        action: action.map(str::to_owned),
        resource: resource.map(str::to_owned),
        decision: Decision::ImplicitDeny,
        cause: Some(cause),
        policy: None,
        evidence_source: EvidenceSource::AwsError,
        confidence: Confidence::Reported,
        missing_context: Vec::new(),
    }
}

fn report(results: Vec<AuthorizationResult>) -> AnalysisReport {
    AnalysisReport::from_parts(
        254,
        FailureKind::Authorization,
        None,
        None,
        results,
        Vec::new(),
        None,
    )
}

#[test]
fn redacts_encoded_authorization_payloads() {
    assert_eq!(
        sanitize_generated_text("Encoded authorization failure message: very-long-token"),
        "Encoded authorization failure message: [REDACTED]"
    );
}

#[test]
fn redacts_common_credential_shapes_and_terminal_controls() {
    let access_key = ["AKIA", "ABCDEFGHIJKLMNOP"].concat();
    let input = format!("AccessKey={access_key} Authorization: Bearer secret-token\x1b[2J");
    let output = sanitize_generated_text(&input);
    assert!(!output.contains(&access_key));
    assert!(!output.contains("secret-token"));
    assert!(!output.contains('\x1b'));
}

#[test]
fn every_encoded_payload_is_redacted() {
    assert_eq!(
        redact_encoded_messages(
            "Encoded authorization failure message: a1 then encoded authorization failure message:b2"
        ),
        "Encoded authorization failure message: [REDACTED] then encoded authorization failure message:[REDACTED]"
    );
    assert_eq!(redact_encoded_messages("nothing here"), "nothing here");
    assert_eq!(
        redact_encoded_messages("Encoded authorization failure message:"),
        "Encoded authorization failure message:[REDACTED]"
    );
}

#[test]
fn shown_texts_hold_no_encoded_payload() {
    assert_eq!(
        sanitize_generated_text(
            "Denied.\x1b Encoded authorization failure message: a1\nencoded authorization failure message:\tb2 end"
        ),
        "Denied.\u{fffd} Encoded authorization failure message: [REDACTED]\nencoded authorization failure message:\t[REDACTED] end"
    );
    assert_eq!(
        sanitize_generated_text("Encoded authorization failure message:\r\na1\r\n"),
        "Encoded authorization failure message:\u{fffd}\n[REDACTED]\u{fffd}\n"
    );
}

#[test]
fn credentials_are_replaced_by_their_kind() {
    assert_eq!(
        sanitize_generated_text("bearer abc.def rest"),
        "Bearer [REDACTED] rest"
    );
    assert_eq!(
        sanitize_generated_text("SessionToken=\"abc\" rest"),
        "[REDACTED_CREDENTIAL]\" rest"
    );
    let key = ["ASIA", "ABCDEFGHIJKLMNOP"].concat();
    assert_eq!(
        sanitize_generated_text(&format!("key {key}.")),
        "key [REDACTED_ACCESS_KEY]."
    );
}

#[test]
fn harmless_texts_are_shown_as_they_are() {
    for text in [
        "",
        "User: arn:aws:iam::123456789012:user/alice is not authorized",
        "two\n\tlines — and AKIA, Bearer",
    ] {
        assert_eq!(sanitize_generated_text(text), text);
    }
}

#[test]
fn only_control_characters_are_masked() {
    for code in 0..=0x10ffff_u32 {
        if let Some(c) = char::from_u32(code) {
            let control = code <= 0x1f || (0x7f..=0x9f).contains(&code);
            let expected = if control && c != '\n' && c != '\t' {
                '\u{fffd}'
            } else {
                c
            };
            assert_eq!(mask_controls(&c.to_string()), expected.to_string());
        }
    }
}

#[test]
fn principals_are_told_apart() {
    let named = |arn: &str| AwsIdentity::from_arn(arn).unwrap();
    let role = named("arn:aws:iam::123456789012:role/team/Auditor");
    assert_eq!(role.principal_type, PrincipalType::Role);
    assert_eq!(role.display_name(), "team/Auditor");
    assert_eq!(role.policy_source_arn().as_deref(), Some(role.arn.as_str()));
    let user = named("arn:aws:iam::123456789012:user/alice");
    assert_eq!(user.principal_type, PrincipalType::User);
    assert_eq!(user.display_name(), "alice");
    assert_eq!(user.policy_source_arn().as_deref(), Some(user.arn.as_str()));
    let federated = named("arn:aws:sts::123456789012:federated-user/bob");
    assert_eq!(federated.principal_type, PrincipalType::FederatedUser);
    assert_eq!(federated.policy_source_arn(), None);
    assert_eq!(federated.principal_arn(), federated.arn);
    let root = named("arn:aws:iam::123456789012:root");
    assert_eq!(root.principal_type, PrincipalType::Root);
    assert_eq!(root.display_name(), "arn:aws:iam::123456789012:root");
    let lone = named("arn:aws:sts::123456789012:assumed-role/only");
    assert_eq!(lone.principal_type, PrincipalType::Unknown);
    for other in ["", "arn:aws:s3:::bucket", "arn:aws:iam::1", "urn:aws:iam::1:root"] {
        assert_eq!(AwsIdentity::from_arn(other), None);
    }
}

#[test]
fn remedies_follow_the_cause() {
    let offered = remediation_for(&denied(
        DenyCause::MissingIdentityAllow,
        Some("s3:GetObject"),
        Some("arn:aws:s3:::b/k"),
    ))
    .unwrap();
    let policy = offered.candidate_policy.unwrap();
    assert_eq!(policy.version, "2012-10-17");
    assert_eq!(policy.statement.len(), 1);
    assert_eq!(policy.statement[0].effect, "Allow");
    assert_eq!(policy.statement[0].action, "s3:GetObject");
    assert_eq!(policy.statement[0].resource, "arn:aws:s3:::b/k");
    assert!(remediation_for(&denied(DenyCause::MissingIdentityAllow, Some("s3:GetObject"), None))
        .unwrap()
        .candidate_policy
        .is_none());
    assert!(remediation_for(&denied(DenyCause::Unknown, Some("a:B"), Some("*"))).is_none());
    let causes = [
        DenyCause::IdentityPolicyExplicitDeny,
        DenyCause::PermissionsBoundary,
        DenyCause::ServiceControlPolicy,
        DenyCause::ResourceControlPolicy,
        DenyCause::ResourcePolicy,
        DenyCause::SessionPolicy,
        DenyCause::VpcEndpointPolicy,
        DenyCause::RoleTrustPolicy,
        DenyCause::KmsKeyPolicy,
        DenyCause::Condition,
    ];
    for cause in causes {
        let remedy = remediation_for(&denied(cause, Some("a:B"), Some("*"))).unwrap();
        assert!(remedy.candidate_policy.is_none());
        assert!(!remedy.guidance.is_empty());
    }
}

#[test]
fn causes_have_labels() {
    assert_eq!(
        DenyCause::Condition.label(),
        "a policy condition was not satisfied"
    );
    assert_eq!(
        DenyCause::Unknown.label(),
        "the exact denial reason is unknown"
    );
}

#[test]
fn reports_are_free_of_controls() {
    let mut who = AwsIdentity::from_arn("arn:aws:iam::123456789012:user/al\x1bice").unwrap();
    who.account_id = "12\x07".to_owned();
    let mut result = denied(DenyCause::Condition, Some("a:\x1bB"), Some("r\x00"));
    result.policy = Some("p\x08".to_owned());
    result.missing_context = vec!["k\x7f".to_owned()];
    let report = AnalysisReport::from_parts(
        1,
        FailureKind::Authorization,
        Some(who.clone()),
        None,
        vec![result.clone()],
        vec!["n\x1b".to_owned()],
        Some("c\x1b".to_owned()),
    );
    let shown = report.identity.unwrap();
    assert_eq!(shown.account_id, "12\u{fffd}");
    assert_eq!(shown.user_name.as_deref(), Some("al\u{fffd}ice"));
    assert_eq!(report.authorization[0].action.as_deref(), Some("a:\u{fffd}B"));
    assert_eq!(report.authorization[0].resource.as_deref(), Some("r\u{fffd}"));
    assert_eq!(report.authorization[0].policy.as_deref(), Some("p\u{fffd}"));
    assert_eq!(report.authorization[0].missing_context, ["k\u{fffd}"]);
    assert_eq!(report.remediation[0].action.as_deref(), Some("a:\u{fffd}B"));
    assert_eq!(report.notes, ["n\u{fffd}"]);
    assert_eq!(report.credential_source.as_deref(), Some("c\u{fffd}"));
    let permissions = PermissionReport::new(
        who,
        "s\x1b".to_owned(),
        Some("v\x1b".to_owned()),
        vec![result],
        vec!["n\x1b".to_owned()],
    );
    assert_eq!(permissions.result, "simulated");
    assert_eq!(permissions.identity.account_id, "12\u{fffd}");
    assert_eq!(permissions.policy_source_arn, "s\u{fffd}");
    assert_eq!(permissions.service.as_deref(), Some("v\u{fffd}"));
    assert_eq!(permissions.authorization[0].policy.as_deref(), Some("p\u{fffd}"));
}

#[test]
fn a_mismatch_removes_the_candidate() {
    let mut report = report(vec![
        denied(DenyCause::MissingIdentityAllow, Some("s3:GetObject"), Some("x")),
        denied(DenyCause::MissingIdentityAllow, Some("s3:GetObject"), Some("y")),
    ]);
    report.set_policy_validation(
        "s3:GetObject",
        "x",
        &PolicyValidation {
            status: PolicyValidationStatus::Invalid,
            detail: "no\x1b".to_owned(),
            resource_types: vec!["object".to_owned()],
        },
    );
    assert!(report.remediation[0].candidate_policy.is_none());
    let noted = report.remediation[0].policy_validation.as_ref().unwrap();
    assert_eq!(noted.status, PolicyValidationStatus::Invalid);
    assert_eq!(noted.detail, "no\u{fffd}");
    assert!(report.remediation[1].candidate_policy.is_some());
    assert!(report.remediation[1].policy_validation.is_none());
}

#[test]
fn validation_of_candidates_fails_open() {
    let mut report = report(vec![
        denied(
            DenyCause::MissingIdentityAllow,
            Some("s3:GetObject"),
            Some("arn:aws:s3:::bucket"),
        ),
        denied(
            DenyCause::MissingIdentityAllow,
            Some("s3:GetObject"),
            Some("arn:aws:s3:::bucket/key"),
        ),
        denied(
            DenyCause::MissingIdentityAllow,
            Some("kms:Decrypt"),
            Some("*"),
        ),
        denied(DenyCause::PermissionsBoundary, Some("ec2:Run"), Some("*")),
    ]);
    let mut validator = ResourceValidator::new();
    let mut asked = Vec::new();
    while let Some(service) = next_reference(&report, &validator) {
        asked.push(service.clone());
        let fetched = if service == "s3" {
            Ok(ServiceReference {
                name: "s3".to_owned(),
                actions: vec![ServiceAction {
                    name: "GetObject".to_owned(),
                    resources: vec![ActionResource {
                        name: "object".to_owned(),
                    }],
                }],
                resources: vec![ServiceResource {
                    name: "object".to_owned(),
                    arn_formats: vec!["arn:${Partition}:s3:::${Bucket}/${Key}".to_owned()],
                }],
            })
        } else {
            Err("no route".to_owned())
        };
        validator.provide(&service, fetched);
    }
    assert_eq!(asked, ["s3", "kms"]);
    validate_candidate_policies(&mut report, &validator);
    let status = |i: usize| {
        report.remediation[i]
            .policy_validation
            .as_ref()
            .map(|noted| noted.status)
    };
    assert_eq!(status(0), Some(PolicyValidationStatus::Invalid));
    assert!(report.remediation[0].candidate_policy.is_none());
    assert_eq!(status(1), Some(PolicyValidationStatus::Valid));
    assert!(report.remediation[1].candidate_policy.is_some());
    assert_eq!(status(2), Some(PolicyValidationStatus::Unavailable));
    assert!(report.remediation[2].candidate_policy.is_some());
    assert_eq!(
        report.remediation[2]
            .policy_validation
            .as_ref()
            .unwrap()
            .detail,
        "AWS Service Authorization Reference was unavailable; the candidate resource scope was not verified."
    );
    assert_eq!(status(3), None);
}
